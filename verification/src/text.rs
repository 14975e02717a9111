//! Character-sequence helpers: whitespace trimming, line splitting,
//! decimal formatting and integer parsing, each stated over `Seq<char>`.

use vstd::prelude::*;

verus! {

// ---------------------------------------------------------------------------
// Specifications
// ---------------------------------------------------------------------------

/// Characters with the Unicode `White_Space` property (what `char::is_whitespace`
/// and therefore `str::trim` recognise).
pub open spec fn is_ws(c: char) -> bool {
    ||| c == '\t'
    ||| c == '\n'
    ||| c == '\x0B'
    ||| c == '\x0C'
    ||| c == '\r'
    ||| c == ' '
    ||| c == '\u{85}'
    ||| c == '\u{A0}'
    ||| c == '\u{1680}'
    ||| ('\u{2000}' <= c && c <= '\u{200A}')
    ||| c == '\u{2028}'
    ||| c == '\u{2029}'
    ||| c == '\u{202F}'
    ||| c == '\u{205F}'
    ||| c == '\u{3000}'
}

/// `s` without its leading whitespace.
pub open spec fn trim_start(s: Seq<char>) -> Seq<char>
    decreases s.len(),
{
    if s.len() > 0 && is_ws(s[0]) {
        trim_start(s.drop_first())
    } else {
        s
    }
}

/// `s` without its trailing whitespace.
pub open spec fn trim_end(s: Seq<char>) -> Seq<char>
    decreases s.len(),
{
    if s.len() > 0 && is_ws(s.last()) {
        trim_end(s.drop_last())
    } else {
        s
    }
}

/// `s` without leading and trailing whitespace (`str::trim`).
pub open spec fn trim(s: Seq<char>) -> Seq<char> {
    trim_end(trim_start(s))
}

/// The pieces of `s` between `'\n'` characters (`str::split('\n')`):
/// one more piece than there are newlines.
pub open spec fn segs(s: Seq<char>) -> Seq<Seq<char>>
    decreases s.len(),
{
    if s.len() == 0 {
        seq![Seq::<char>::empty()]
    } else {
        let p = segs(s.drop_last());
        if s.last() == '\n' {
            p.push(Seq::<char>::empty())
        } else {
            p.update(p.len() - 1, p.last().push(s.last()))
        }
    }
}

/// Removes one trailing carriage return.
pub open spec fn strip_cr(l: Seq<char>) -> Seq<char> {
    if l.len() > 0 && l.last() == '\r' {
        l.drop_last()
    } else {
        l
    }
}

/// The lines of `s` as `str::lines` yields them: split at `'\n'`; a line
/// that ends in `'\n'` loses one `'\r'` before it; a final empty piece after
/// a trailing newline (or of an empty text) is no line.
pub open spec fn lines(s: Seq<char>) -> Seq<Seq<char>> {
    let p = segs(s);
    let body = p.drop_last().map_values(|l: Seq<char>| strip_cr(l));
    if p.last().len() == 0 {
        body
    } else {
        body.push(p.last())
    }
}

/// The index of the first occurrence of `c` in `s` (`str::find` with a char).
pub open spec fn find_char(s: Seq<char>, c: char) -> Option<int>
    decreases s.len(),
{
    if s.len() == 0 {
        None
    } else if s[0] == c {
        Some(0)
    } else {
        match find_char(s.drop_first(), c) {
            Some(p) => Some(p + 1),
            None => None,
        }
    }
}

/// The character of a decimal digit `d` (0 to 9).
pub open spec fn digit_char(d: int) -> char {
    (48 + d) as char
}

/// Decimal representation of a natural number, without leading zeros.
pub open spec fn dec_nat(n: nat) -> Seq<char>
    decreases n,
{
    if n < 10 {
        seq![digit_char(n as int)]
    } else {
        dec_nat(n / 10).push(digit_char((n % 10) as int))
    }
}

/// Decimal representation of an integer, as `Display` prints it.
pub open spec fn dec_int(x: int) -> Seq<char> {
    if x < 0 {
        seq!['-'] + dec_nat((-x) as nat)
    } else {
        dec_nat(x as nat)
    }
}

pub open spec fn is_digit(c: char) -> bool {
    '0' <= c && c <= '9'
}

pub open spec fn all_digits(s: Seq<char>) -> bool {
    forall|i: int| 0 <= i < s.len() ==> #[trigger] is_digit(s[i])
}

/// The value of a sequence of decimal digits.
pub open spec fn digits_value(s: Seq<char>) -> nat
    decreases s.len(),
{
    if s.len() == 0 {
        0
    } else {
        digits_value(s.drop_last()) * 10 + ((s.last() as int - 48) as nat)
    }
}

/// What `s.parse::<i32>()` gives back: an optional sign, then at least one
/// decimal digit, the value within the range of `i32`.
pub open spec fn parse_i32(s: Seq<char>) -> Option<i32> {
    if s.len() == 0 {
        None
    } else {
        let signed = s[0] == '+' || s[0] == '-';
        let body = if signed { s.drop_first() } else { s };
        let v: int = if s[0] == '-' { -digits_value(body) } else { digits_value(body) as int };
        if body.len() == 0 || !all_digits(body) || v < i32::MIN || v > i32::MAX {
            None
        } else {
            Some(v as i32)
        }
    }
}

/// What `s.parse::<u16>()` gives back: an optional `'+'`, then at least one
/// decimal digit, the value at most 65535.
pub open spec fn parse_u16(s: Seq<char>) -> Option<u16> {
    if s.len() == 0 {
        None
    } else {
        let body = if s[0] == '+' { s.drop_first() } else { s };
        if body.len() == 0 || !all_digits(body) || digits_value(body) > u16::MAX {
            None
        } else {
            Some(digits_value(body) as u16)
        }
    }
}

// ---------------------------------------------------------------------------
// Lemmas
// ---------------------------------------------------------------------------

pub proof fn lemma_find_char(s: Seq<char>, c: char)
    ensures
        match find_char(s, c) {
            Some(p) => 0 <= p < s.len() && s[p] == c && forall|j: int| 0 <= j < p ==> s[j] != c,
            None => forall|j: int| 0 <= j < s.len() ==> s[j] != c,
        },
    decreases s.len(),
{
    if s.len() > 0 && s[0] != c {
        lemma_find_char(s.drop_first(), c);
        match find_char(s.drop_first(), c) {
            Some(p) => {
                assert forall|j: int| 0 <= j < p + 1 implies s[j] != c by {
                    if j > 0 {
                        assert(s[j] == s.drop_first()[j - 1]);
                    }
                }
            },
            None => {
                assert forall|j: int| 0 <= j < s.len() implies s[j] != c by {
                    if j > 0 {
                        assert(s[j] == s.drop_first()[j - 1]);
                    }
                }
            },
        }
    }
}

pub proof fn lemma_segs_len(s: Seq<char>)
    ensures
        segs(s).len() >= 1,
    decreases s.len(),
{
    if s.len() > 0 {
        lemma_segs_len(s.drop_last());
    }
}

pub proof fn lemma_digits_prefix(s: Seq<char>, k: int)
    requires
        0 <= k <= s.len(),
        all_digits(s),
    ensures
        digits_value(s.subrange(0, k)) <= digits_value(s),
    decreases s.len() - k,
{
    if k < s.len() {
        assert(all_digits(s.drop_last()));
        if k == s.len() - 1 {
            assert(s.subrange(0, k) =~= s.drop_last());
        } else {
            lemma_digits_prefix(s.drop_last(), k);
            assert(s.drop_last().subrange(0, k) =~= s.subrange(0, k));
        }
        assert(is_digit(s[s.len() - 1]));
    } else {
        assert(s.subrange(0, k) =~= s);
    }
}

// ---------------------------------------------------------------------------
// Joining lines
// ---------------------------------------------------------------------------

/// Whether `l` holds no newline.
pub open spec fn no_nl(l: Seq<char>) -> bool {
    forall|i: int| 0 <= i < l.len() ==> l[i] != '\n'
}

/// The lines `ms`, each followed by a newline.
pub open spec fn join_nl(ms: Seq<Seq<char>>) -> Seq<char>
    decreases ms.len(),
{
    if ms.len() == 0 {
        Seq::empty()
    } else {
        join_nl(ms.drop_last()) + ms.last() + seq!['\n']
    }
}

pub proof fn lemma_join_nl_append(a: Seq<Seq<char>>, b: Seq<Seq<char>>)
    ensures
        join_nl(a + b) == join_nl(a) + join_nl(b),
    decreases b.len(),
{
    if b.len() == 0 {
        assert(a + b =~= a);
        assert(join_nl(a) + join_nl(b) =~= join_nl(a));
    } else {
        assert((a + b).drop_last() =~= a + b.drop_last());
        lemma_join_nl_append(a, b.drop_last());
        assert(join_nl(a + b) =~= join_nl(a) + join_nl(b));
    }
}

/// Appending text without newlines extends the last piece.
pub proof fn lemma_segs_extend(s: Seq<char>, l: Seq<char>)
    requires
        no_nl(l),
    ensures
        segs(s + l) == segs(s).update(segs(s).len() - 1, segs(s).last() + l),
    decreases l.len(),
{
    lemma_segs_len(s);
    if l.len() == 0 {
        assert(s + l =~= s);
        assert(segs(s).last() + l =~= segs(s).last());
        assert(segs(s).update(segs(s).len() - 1, segs(s).last()) =~= segs(s));
    } else {
        assert((s + l).drop_last() =~= s + l.drop_last());
        assert((s + l).last() == l.last());
        lemma_segs_extend(s, l.drop_last());
        lemma_segs_len(s + l.drop_last());
        let p = segs(s + l.drop_last());
        assert(p.last() == segs(s).last() + l.drop_last());
        assert(p.last().push(l.last()) =~= segs(s).last() + l);
        assert(p.update(p.len() - 1, p.last().push(l.last())) =~= segs(s).update(
            segs(s).len() - 1,
            segs(s).last() + l,
        ));
    }
}

pub proof fn lemma_segs_join(ms: Seq<Seq<char>>)
    requires
        forall|i: int| 0 <= i < ms.len() ==> no_nl(#[trigger] ms[i]),
    ensures
        segs(join_nl(ms)) == ms.push(Seq::<char>::empty()),
    decreases ms.len(),
{
    if ms.len() == 0 {
        assert(segs(join_nl(ms)) =~= ms.push(Seq::<char>::empty()));
    } else {
        let p = ms.drop_last();
        assert forall|i: int| 0 <= i < p.len() implies no_nl(#[trigger] p[i]) by {
            assert(p[i] == ms[i]);
        }
        lemma_segs_join(p);
        assert(no_nl(ms[ms.len() - 1]));
        lemma_segs_extend(join_nl(p), ms.last());
        let t = join_nl(p) + ms.last();
        assert(join_nl(ms) == t + seq!['\n']);
        assert((t + seq!['\n']).drop_last() =~= t);
        assert(Seq::<char>::empty() + ms.last() =~= ms.last());
        assert(segs(t) =~= ms);
        assert(segs(join_nl(ms)) =~= ms.push(Seq::<char>::empty()));
    }
}

/// Splitting joined lines gives the lines back (up to a trailing `'\r'`).
pub proof fn lemma_lines_join(ms: Seq<Seq<char>>)
    requires
        forall|i: int| 0 <= i < ms.len() ==> no_nl(#[trigger] ms[i]),
    ensures
        lines(join_nl(ms)) == ms.map_values(|l: Seq<char>| strip_cr(l)),
{
    lemma_segs_join(ms);
    assert(ms.push(Seq::<char>::empty()).drop_last() =~= ms);
}

/// The lines of a text hold no newline.
pub proof fn lemma_lines_no_nl(s: Seq<char>)
    ensures
        forall|i: int| 0 <= i < lines(s).len() ==> no_nl(#[trigger] lines(s)[i]),
{
    lemma_segs_no_nl(s);
    lemma_segs_len(s);
    let p = segs(s);
    assert forall|i: int| 0 <= i < lines(s).len() implies no_nl(#[trigger] lines(s)[i]) by {
        if i < p.len() - 1 {
            let l = p[i];
            assert(p.drop_last()[i] == l);
            assert(no_nl(l));
            assert(lines(s)[i] == strip_cr(l));
            assert forall|j: int| 0 <= j < strip_cr(l).len() implies strip_cr(l)[j] != '\n' by {
                assert(strip_cr(l)[j] == l[j]);
            }
        } else {
            assert(lines(s)[i] == p[p.len() - 1]);
        }
    }
}

proof fn lemma_segs_no_nl(s: Seq<char>)
    ensures
        forall|i: int| 0 <= i < segs(s).len() ==> no_nl(#[trigger] segs(s)[i]),
    decreases s.len(),
{
    lemma_segs_len(s);
    if s.len() > 0 {
        lemma_segs_no_nl(s.drop_last());
        lemma_segs_len(s.drop_last());
        let p = segs(s.drop_last());
        if s.last() != '\n' {
            assert forall|i: int| 0 <= i < segs(s).len() implies no_nl(#[trigger] segs(s)[i]) by {
                if i == p.len() - 1 {
                    assert(no_nl(p[i]));
                    let q = p.last().push(s.last());
                    assert forall|j: int| 0 <= j < q.len() implies q[j] != '\n' by {
                        if j < p.last().len() {
                            assert(q[j] == p.last()[j]);
                        }
                    }
                } else {
                    assert(segs(s)[i] == p[i]);
                }
            }
        } else {
            assert forall|i: int| 0 <= i < segs(s).len() implies no_nl(#[trigger] segs(s)[i]) by {
                if i < p.len() {
                    assert(segs(s)[i] == p[i]);
                }
            }
        }
    }
}

// ---------------------------------------------------------------------------
// Trimming lemmas
// ---------------------------------------------------------------------------

pub proof fn lemma_trim_start_push(s: Seq<char>, c: char)
    ensures
        trim_start(s.push(c)) == (if trim_start(s).len() == 0 && is_ws(c) {
            Seq::<char>::empty()
        } else {
            trim_start(s).push(c)
        }),
    decreases s.len(),
{
    if s.len() > 0 && is_ws(s[0]) {
        assert(s.push(c)[0] == s[0]);
        assert(s.push(c).drop_first() =~= s.drop_first().push(c));
        lemma_trim_start_push(s.drop_first(), c);
        assert(trim_start(s) == trim_start(s.drop_first()));
        assert(trim_start(s.push(c)) == trim_start(s.push(c).drop_first()));
    } else if s.len() == 0 {
        assert(s.push(c) =~= seq![c]);
        assert(Seq::<char>::empty().push(c) =~= seq![c]);
        assert(trim_start(s) == s);
        if is_ws(c) {
            assert(seq![c].drop_first() =~= Seq::<char>::empty());
            assert(trim_start(Seq::<char>::empty()) == Seq::<char>::empty());
            assert(trim_start(seq![c]) == trim_start(seq![c].drop_first()));
        } else {
            assert(trim_start(seq![c]) == seq![c]);
        }
    } else {
        assert(s.push(c)[0] == s[0]);
    }
}

pub proof fn lemma_digit_char(d: int)
    requires
        0 <= d < 10,
    ensures
        digit_char(d) as int == 48 + d,
{
}

pub proof fn lemma_trim_push_ws(s: Seq<char>, c: char)
    requires
        is_ws(c),
    ensures
        trim(s.push(c)) == trim(s),
{
    lemma_trim_start_push(s, c);
    if trim_start(s).len() != 0 {
        assert(trim_start(s).push(c).drop_last() =~= trim_start(s));
    }
}

/// Removing a line's final `'\r'` does not change its trimmed form.
pub proof fn lemma_trim_strip_cr(l: Seq<char>)
    ensures
        trim(strip_cr(l)) == trim(l),
{
    if l.len() > 0 && l.last() == '\r' {
        assert(l.drop_last().push('\r') =~= l);
        lemma_trim_push_ws(l.drop_last(), '\r');
    }
}

/// A text that starts with a non-whitespace character is its own `trim_start`.
pub proof fn lemma_trim_start_keeps(s: Seq<char>)
    requires
        s.len() > 0,
        !is_ws(s[0]),
    ensures
        trim_start(s) == s,
{
}

/// `trim_end` removes a suffix of whitespace only.
pub proof fn lemma_trim_end_prefix(s: Seq<char>)
    ensures
        trim_end(s).len() <= s.len(),
        trim_end(s) == s.take(trim_end(s).len() as int),
        forall|i: int| trim_end(s).len() <= i < s.len() ==> is_ws(#[trigger] s[i]),
        trim_end(s).len() > 0 ==> !is_ws(trim_end(s).last()),
    decreases s.len(),
{
    if s.len() > 0 && is_ws(s.last()) {
        lemma_trim_end_prefix(s.drop_last());
        let t = trim_end(s.drop_last());
        assert(s.drop_last().take(t.len() as int) =~= s.take(t.len() as int));
        assert forall|i: int| t.len() <= i < s.len() implies is_ws(#[trigger] s[i]) by {
            if i < s.len() - 1 {
                assert(s[i] == s.drop_last()[i]);
            }
        }
    } else {
        assert(s.take(s.len() as int) =~= s);
    }
}

/// Trailing whitespace of the second part is all that `trim_end` removes
/// when the first part ends in a non-whitespace character.
pub proof fn lemma_trim_end_append(a: Seq<char>, b: Seq<char>)
    requires
        a.len() > 0,
        !is_ws(a.last()),
    ensures
        trim_end(a + b) == a + trim_end(b),
    decreases b.len(),
{
    if b.len() == 0 {
        assert(a + b =~= a);
        assert(a + trim_end(b) =~= a);
    } else {
        assert((a + b).last() == b.last());
        assert((a + b).drop_last() =~= a + b.drop_last());
        lemma_trim_end_append(a, b.drop_last());
        if !is_ws(b.last()) {
            assert(trim_end(b) == b);
        }
    }
}

/// Parsing the decimal text of a number gives the number back.
pub proof fn lemma_dec_nat(n: nat)
    ensures
        dec_nat(n).len() > 0,
        all_digits(dec_nat(n)),
        digits_value(dec_nat(n)) == n,
        is_digit(dec_nat(n)[0]),
        no_nl(dec_nat(n)),
        !is_ws(dec_nat(n).last()),
    decreases n,
{
    lemma_digit_char((n % 10) as int);
    assert(n == (n / 10) * 10 + n % 10) by (nonlinear_arith);
    if n < 10 {
        assert(n % 10 == n);
        assert(dec_nat(n).drop_last() =~= Seq::<char>::empty());
        assert(dec_nat(n).last() == digit_char(n as int));
        assert(digits_value(Seq::<char>::empty()) == 0);
        assert(digits_value(dec_nat(n)) == digits_value(dec_nat(n).drop_last()) * 10 + ((dec_nat(n).last() as int - 48) as nat));
        assert(digits_value(dec_nat(n)) == n);
    } else {
        lemma_dec_nat(n / 10);
        let p = dec_nat(n / 10);
        let d = digit_char((n % 10) as int);
        assert(dec_nat(n).drop_last() =~= p);
        assert(dec_nat(n).last() == d);
        assert(digits_value(dec_nat(n)) == digits_value(p) * 10 + (d as int - 48));
        assert(digits_value(p) == n / 10);
        assert(d as int - 48 == n % 10);
        assert(digits_value(dec_nat(n)) == n);
        assert forall|i: int| 0 <= i < dec_nat(n).len() implies #[trigger] is_digit(dec_nat(n)[i]) by {
            if i < p.len() {
                assert(dec_nat(n)[i] == p[i]);
            }
        }
    }
}

pub proof fn lemma_parse_i32_dec(x: i32)
    ensures
        parse_i32(dec_int(x as int)) == Some(x),
        no_nl(dec_int(x as int)),
        dec_int(x as int).len() > 0,
        !is_ws(dec_int(x as int).last()),
{
    if x < 0 {
        let m = (-x) as nat;
        lemma_dec_nat(m);
        let s = dec_int(x as int);
        assert(s.drop_first() =~= dec_nat(m));
        assert(s[0] == '-');
        assert forall|i: int| 0 <= i < s.len() implies s[i] != '\n' by {
            if i > 0 {
                assert(s[i] == dec_nat(m)[i - 1]);
            }
        }
    } else {
        lemma_dec_nat(x as nat);
    }
}

pub proof fn lemma_parse_u16_dec(x: u16)
    ensures
        parse_u16(dec_int(x as int)) == Some(x),
        no_nl(dec_int(x as int)),
        dec_int(x as int).len() > 0,
        !is_ws(dec_int(x as int).last()),
{
    lemma_dec_nat(x as nat);
}

// ---------------------------------------------------------------------------
// Executable helpers
// ---------------------------------------------------------------------------

/// Appends one character to a string.
/// Wraps `String::push`; the contract claims that the new contents are the
/// old contents followed by `c`, which is what its documentation says.
#[verifier::external_body]
pub(crate) fn push_char(s: &mut String, c: char)
    ensures
        final(s)@ == old(s)@.push(c),
{
    s.push(c);
}

/// The characters of a string slice, in order.
pub fn chars_of(s: &str) -> (v: Vec<char>)
    ensures
        v@ == s@,
{
    let mut v: Vec<char> = Vec::new();
    for c in it: s.chars()
        invariant
            v@ == it.seq().take(it.index()),
    {
        v.push(c);
    }
    v
}

/// Appends the characters of `v` to `s`.
pub fn push_chars(s: &mut String, v: &Vec<char>)
    ensures
        final(s)@ == old(s)@ + v@,
{
    let n: usize = v.len();
    let mut i: usize = 0;
    while i < n
        invariant
            n == v.len(),
            i <= n,
            s@ == old(s)@ + v@.take(i as int),
        decreases n - i,
    {
        push_char(s, v[i]);
        assert(v@.take(i as int + 1) =~= v@.take(i as int).push(v@[i as int]));
        i = i + 1;
    }
    assert(v@.take(n as int) =~= v@);
}

/// A string holding the characters of `v`.
pub fn string_of(v: &Vec<char>) -> (s: String)
    ensures
        s@ == v@,
{
    let mut s = String::new();
    push_chars(&mut s, v);
    assert(s@ =~= v@);
    s
}

/// The characters `v[lo..hi]`.
pub fn copy_range(v: &Vec<char>, lo: usize, hi: usize) -> (r: Vec<char>)
    requires
        lo <= hi <= v.len(),
    ensures
        r@ == v@.subrange(lo as int, hi as int),
{
    let mut r: Vec<char> = Vec::new();
    let mut i: usize = lo;
    while i < hi
        invariant
            lo <= i <= hi,
            hi <= v.len(),
            r@ == v@.subrange(lo as int, i as int),
        decreases hi - i,
    {
        r.push(v[i]);
        assert(v@.subrange(lo as int, i as int + 1) =~= v@.subrange(lo as int, i as int).push(
            v@[i as int],
        ));
        i = i + 1;
    }
    r
}

/// Whether two character sequences are equal.
pub fn chars_eq(a: &Vec<char>, b: &Vec<char>) -> (r: bool)
    ensures
        r == (a@ == b@),
{
    if a.len() != b.len() {
        return false;
    }
    let n: usize = a.len();
    let mut i: usize = 0;
    while i < n
        invariant
            n == a.len(),
            n == b.len(),
            i <= n,
            forall|j: int| 0 <= j < i ==> a@[j] == b@[j],
        decreases n - i,
    {
        if a[i] != b[i] {
            return false;
        }
        i = i + 1;
    }
    assert(a@ =~= b@);
    true
}

/// Whether `c` is whitespace (`char::is_whitespace`).
pub fn is_ws_char(c: char) -> (r: bool)
    ensures
        r == is_ws(c),
{
    c == '\t' || c == '\n' || c == '\x0B' || c == '\x0C' || c == '\r' || c == ' ' || c
        == '\u{85}' || c == '\u{A0}' || c == '\u{1680}' || ('\u{2000}' <= c && c <= '\u{200A}')
        || c == '\u{2028}' || c == '\u{2029}' || c == '\u{202F}' || c == '\u{205F}' || c
        == '\u{3000}'
}

/// `v` without leading and trailing whitespace.
pub fn trim_chars(v: &Vec<char>) -> (r: Vec<char>)
    ensures
        r@ == trim(v@),
{
    let n: usize = v.len();
    let mut i: usize = 0;
    assert(v@.subrange(0, n as int) =~= v@);
    while i < n && is_ws_char(v[i])
        invariant
            n == v.len(),
            i <= n,
            trim_start(v@) == trim_start(v@.subrange(i as int, n as int)),
        decreases n - i,
    {
        assert(v@.subrange(i as int, n as int).drop_first() =~= v@.subrange(i as int + 1, n as int));
        i = i + 1;
    }
    let mut j: usize = n;
    while j > i && is_ws_char(v[j - 1])
        invariant
            n == v.len(),
            i <= j <= n,
            trim_start(v@) == v@.subrange(i as int, n as int),
            trim_end(v@.subrange(i as int, n as int)) == trim_end(v@.subrange(i as int, j as int)),
        decreases j - i,
    {
        assert(v@.subrange(i as int, j as int).drop_last() =~= v@.subrange(i as int, j as int - 1));
        j = j - 1;
    }
    copy_range(v, i, j)
}

/// The index of the first `c` in `v`.
pub fn find_char_exec(v: &Vec<char>, c: char) -> (r: Option<usize>)
    ensures
        match r {
            Some(p) => find_char(v@, c) == Some(p as int) && p < v.len(),
            None => find_char(v@, c) is None,
        },
{
    proof {
        lemma_find_char(v@, c);
    }
    let n: usize = v.len();
    let mut i: usize = 0;
    while i < n
        invariant
            n == v.len(),
            i <= n,
            forall|j: int| 0 <= j < i ==> v@[j] != c,
        decreases n - i,
    {
        if v[i] == c {
            proof {
                lemma_find_char(v@, c);
                assert(v@[i as int] == c);
                match find_char(v@, c) {
                    Some(p) => {
                        if p < i {
                            assert(v@[p] != c);
                        }
                        if p > i {
                            assert(v@[i as int] != c);
                        }
                    },
                    None => {
                        assert(v@[i as int] != c);
                    },
                }
            }
            return Some(i);
        }
        i = i + 1;
    }
    None
}

/// The lines of `v` (see `lines`).
pub fn lines_of(v: &Vec<char>) -> (r: Vec<Vec<char>>)
    ensures
        r@.map_values(|l: Vec<char>| l@) == lines(v@),
{
    let n: usize = v.len();
    let mut done: Vec<Vec<char>> = Vec::new();
    let mut cur: Vec<char> = Vec::new();
    let ghost mut raw: Seq<Seq<char>> = Seq::empty();
    let mut i: usize = 0;
    while i < n
        invariant
            n == v.len(),
            i <= n,
            segs(v@.take(i as int)) == raw.push(cur@),
            done@.len() == raw.len(),
            forall|k: int| 0 <= k < raw.len() ==> (#[trigger] done@[k])@ == strip_cr(raw[k]),
        decreases n - i,
    {
        let c = v[i];
        assert(v@.take(i as int + 1).drop_last() =~= v@.take(i as int));
        if c == '\n' {
            let ghost cv = cur@;
            let mut line = cur;
            if line.len() > 0 && line[line.len() - 1] == '\r' {
                line.pop();
            }
            assert(line@ == strip_cr(cv));
            proof {
                raw = raw.push(cv);
            }
            done.push(line);
            cur = Vec::new();
        } else {
            cur.push(c);
        }
        i = i + 1;
    }
    assert(v@.take(n as int) =~= v@);
    assert(segs(v@).last() == cur@);
    assert(segs(v@).drop_last() =~= raw);
    assert(done@.map_values(|l: Vec<char>| l@) =~= raw.map_values(|l: Seq<char>| strip_cr(l)));
    if cur.len() > 0 {
        let ghost before = done@.map_values(|l: Vec<char>| l@);
        let ghost cv = cur@;
        done.push(cur);
        assert(done@.map_values(|l: Vec<char>| l@) =~= before.push(cv));
    }
    done
}

/// The decimal digits of `n`.
pub fn dec_u32(n: u32) -> (r: Vec<char>)
    ensures
        r@ == dec_nat(n as nat),
    decreases n,
{
    let d: u8 = (n % 10) as u8;
    let c: char = (48u8 + d) as char;
    if n < 10 {
        let mut r: Vec<char> = Vec::new();
        r.push(c);
        assert(r@ =~= seq![digit_char(n as int)]);
        r
    } else {
        let mut r = dec_u32(n / 10);
        r.push(c);
        r
    }
}

/// The decimal representation of an `i32` (`i32::to_string`).
pub fn fmt_i32(x: i32) -> (s: String)
    ensures
        s@ == dec_int(x as int),
{
    let mut s = String::new();
    if x < 0 {
        push_char(&mut s, '-');
        let m: u32 = (-(x as i64)) as u32;
        let d = dec_u32(m);
        push_chars(&mut s, &d);
        assert(s@ =~= seq!['-'] + dec_nat((-x) as nat));
    } else {
        let d = dec_u32(x as u32);
        push_chars(&mut s, &d);
        assert(s@ =~= dec_nat(x as nat));
    }
    s
}

/// The decimal representation of a `u16` (`u16::to_string`).
pub fn fmt_u16(x: u16) -> (s: String)
    ensures
        s@ == dec_int(x as int),
{
    let mut s = String::new();
    let d = dec_u32(x as u32);
    push_chars(&mut s, &d);
    assert(s@ =~= dec_nat(x as nat));
    s
}

/// Accumulates the value of the decimal digits `v[start..]`; `None` when a
/// character is not a digit or the value exceeds `bound`.
fn digits_upto(v: &Vec<char>, start: usize, bound: u64) -> (r: Option<u64>)
    requires
        start <= v.len(),
        bound <= 0x1_0000_0000,
    ensures
        r matches Some(x) ==> all_digits(v@.subrange(start as int, v.len() as int)) && x
            == digits_value(v@.subrange(start as int, v.len() as int)) && x <= bound,
        r is None ==> !all_digits(v@.subrange(start as int, v.len() as int)) || digits_value(
            v@.subrange(start as int, v.len() as int),
        ) > bound,
{
    let n: usize = v.len();
    let mut acc: u64 = 0;
    let mut i: usize = start;
    while i < n
        invariant
            n == v.len(),
            start <= i <= n,
            bound <= 0x1_0000_0000,
            all_digits(v@.subrange(start as int, i as int)),
            acc == digits_value(v@.subrange(start as int, i as int)),
            acc <= bound,
        decreases n - i,
    {
        let c = v[i];
        let ghost body = v@.subrange(start as int, n as int);
        let ghost pre = v@.subrange(start as int, i as int + 1);
        assert(pre.drop_last() =~= v@.subrange(start as int, i as int));
        if !('0' <= c && c <= '9') {
            assert(!is_digit(body[i - start]));
            return None;
        }
        let d: u64 = (c as u32 - 48) as u64;
        acc = acc * 10 + d;
        assert(all_digits(pre));
        if acc > bound {
            proof {
                if all_digits(body) {
                    lemma_digits_prefix(body, i - start + 1);
                    assert(body.subrange(0, i - start + 1) =~= pre);
                }
            }
            return None;
        }
        i = i + 1;
    }
    Some(acc)
}

/// Parses an `i32` as `str::parse::<i32>` does.
pub fn parse_i32_chars(v: &Vec<char>) -> (r: Option<i32>)
    ensures
        r == parse_i32(v@),
{
    let n: usize = v.len();
    if n == 0 {
        return None;
    }
    let neg: bool = v[0] == '-';
    let start: usize = if v[0] == '+' || v[0] == '-' { 1 } else { 0 };
    assert(v@.subrange(start as int, n as int) =~= (if start == 1 { v@.drop_first() } else { v@ }));
    if start == n {
        return None;
    }
    match digits_upto(v, start, 0x8000_0000) {
        None => None,
        Some(m) => {
            if neg {
                let x: i64 = -(m as i64);
                Some(x as i32)
            } else if m <= 0x7FFF_FFFF {
                Some(m as i32)
            } else {
                None
            }
        },
    }
}

/// Parses a `u16` as `str::parse::<u16>` does.
pub fn parse_u16_chars(v: &Vec<char>) -> (r: Option<u16>)
    ensures
        r == parse_u16(v@),
{
    let n: usize = v.len();
    if n == 0 {
        return None;
    }
    let start: usize = if v[0] == '+' { 1 } else { 0 };
    assert(v@.subrange(start as int, n as int) =~= (if start == 1 { v@.drop_first() } else { v@ }));
    if start == n {
        return None;
    }
    match digits_upto(v, start, 0xFFFF) {
        None => None,
        Some(m) => Some(m as u16),
    }
}

/// Whether `needle` occurs in `hay` (`str::contains` with a string).
pub open spec fn contains_seq(hay: Seq<char>, needle: Seq<char>) -> bool {
    exists|i: int| 0 <= i <= hay.len() - needle.len() && #[trigger] hay.subrange(i, i + needle.len()) == needle
}

/// Whether `needle` occurs at position `i` of `hay`.
fn occurs_at(hay: &Vec<char>, needle: &Vec<char>, i: usize) -> (r: bool)
    requires
        i + needle.len() <= hay.len(),
    ensures
        r == (hay@.subrange(i as int, i + needle.len()) == needle@),
{
    let n: usize = needle.len();
    let mut j: usize = 0;
    while j < n
        invariant
            n == needle.len(),
            i + n <= hay.len(),
            j <= n,
            forall|t: int| 0 <= t < j ==> hay@[i + t] == needle@[t],
        decreases n - j,
    {
        if hay[i + j] != needle[j] {
            assert(hay@.subrange(i as int, i + n)[j as int] != needle@[j as int]);
            return false;
        }
        j = j + 1;
    }
    assert(hay@.subrange(i as int, i + n) =~= needle@);
    true
}

/// Whether `needle` occurs in `hay`.
pub fn contains_str(hay: &str, needle: &str) -> (r: bool)
    ensures
        r == contains_seq(hay@, needle@),
{
    let h = chars_of(hay);
    let nd = chars_of(needle);
    if nd.len() > h.len() {
        return false;
    }
    let last: usize = h.len() - nd.len();
    let mut i: usize = 0;
    loop
        invariant
            h@ == hay@,
            nd@ == needle@,
            last == h.len() - nd.len(),
            i <= last,
            forall|t: int| 0 <= t < i ==> #[trigger] h@.subrange(t, t + nd.len()) != nd@,
        decreases last - i,
    {
        if occurs_at(&h, &nd, i) {
            return true;
        }
        if i == last {
            return false;
        }
        i = i + 1;
    }
}

} // verus!
