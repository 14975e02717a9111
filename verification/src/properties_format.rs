//! The `.properties` text format as the launcher reads it: which lines carry
//! an entry, how a line splits into key and value, and which value a key has.

use vstd::prelude::*;

use crate::text::{chars_of, copy_range, chars_eq, find_char, find_char_exec, is_ws, lemma_find_char, lemma_trim_end_append, lemma_trim_end_prefix, lemma_trim_start_keeps, lemma_trim_strip_cr, lines, lines_of, strip_cr, trim, trim_chars, trim_end};

verus! {

/// A key and its value.
pub type Entry = (Seq<char>, Seq<char>);

/// The entry that one line carries: the line is trimmed; blank lines,
/// comments (starting with `#`) and lines without `=` carry none; otherwise
/// the key is what precedes the first `=` and the value what follows it.
pub open spec fn line_entry(l: Seq<char>) -> Option<Entry> {
    let t = trim(l);
    if t.len() == 0 || t[0] == '#' {
        None
    } else {
        match find_char(t, '=') {
            Some(p) => Some((t.take(p), t.skip(p + 1))),
            None => None,
        }
    }
}

/// The entries of a sequence of lines, in order.
pub open spec fn entries(ls: Seq<Seq<char>>) -> Seq<Entry>
    decreases ls.len(),
{
    if ls.len() == 0 {
        Seq::empty()
    } else {
        let e = entries(ls.drop_last());
        match line_entry(ls.last()) {
            Some(kv) => e.push(kv),
            None => e,
        }
    }
}

/// The value of the last entry whose key is `k`.
pub open spec fn lookup(es: Seq<Entry>, k: Seq<char>) -> Option<Seq<char>>
    decreases es.len(),
{
    if es.len() == 0 {
        None
    } else if es.last().0 == k {
        Some(es.last().1)
    } else {
        lookup(es.drop_last(), k)
    }
}

/// The entries of a whole text.
pub open spec fn text_entries(content: Seq<char>) -> Seq<Entry> {
    entries(lines(content))
}

/// The characters of a sequence of character vectors.
pub open spec fn lines_view(v: Seq<Vec<char>>) -> Seq<Seq<char>> {
    v.map_values(|l: Vec<char>| l@)
}

/// The characters of a sequence of key/value vector pairs.
pub open spec fn pairs_view(v: Seq<(Vec<char>, Vec<char>)>) -> Seq<Entry> {
    v.map_values(|p: (Vec<char>, Vec<char>)| (p.0@, p.1@))
}

/// The characters of a list of key/value updates.
pub open spec fn updates_view(v: Seq<(&str, String)>) -> Seq<Entry> {
    v.map_values(|p: (&str, String)| (p.0@, p.1@))
}

/// The entry of one line.
pub fn line_entry_exec(l: &Vec<char>) -> (r: Option<(Vec<char>, Vec<char>)>)
    ensures
        line_entry(l@) == (match r {
            Some(p) => Some((p.0@, p.1@)),
            None => None::<Entry>,
        }),
{
    let t = trim_chars(l);
    if t.len() == 0 || t[0] == '#' {
        return None;
    }
    match find_char_exec(&t, '=') {
        Some(p) => {
            let k = copy_range(&t, 0, p);
            let v = copy_range(&t, p + 1, t.len());
            assert(k@ =~= t@.take(p as int));
            assert(v@ =~= t@.skip(p as int + 1));
            Some((k, v))
        },
        None => None,
    }
}

/// The entries of a sequence of lines.
pub fn entries_exec(ls: &Vec<Vec<char>>) -> (r: Vec<(Vec<char>, Vec<char>)>)
    ensures
        pairs_view(r@) == entries(lines_view(ls@)),
{
    let n: usize = ls.len();
    let mut es: Vec<(Vec<char>, Vec<char>)> = Vec::new();
    let mut i: usize = 0;
    while i < n
        invariant
            n == ls.len(),
            i <= n,
            pairs_view(es@) == entries(lines_view(ls@).take(i as int)),
        decreases n - i,
    {
        let ghost lv = lines_view(ls@);
        assert(lv.take(i as int + 1).drop_last() =~= lv.take(i as int));
        assert(lv.take(i as int + 1).last() == ls@[i as int]@);
        match line_entry_exec(&ls[i]) {
            Some(kv) => {
                let ghost old_es = es@;
                es.push(kv);
                assert(pairs_view(es@) =~= pairs_view(old_es).push((kv.0@, kv.1@)));
            },
            None => {},
        }
        i = i + 1;
    }
    assert(lines_view(ls@).take(n as int) =~= lines_view(ls@));
    es
}

/// The entries of a text.
pub fn text_entries_exec(content: &str) -> (r: Vec<(Vec<char>, Vec<char>)>)
    ensures
        pairs_view(r@) == text_entries(content@),
{
    let cs = chars_of(content);
    let ls = lines_of(&cs);
    entries_exec(&ls)
}

/// The value of the last entry with key `k`.
pub fn lookup_exec(es: &Vec<(Vec<char>, Vec<char>)>, k: &Vec<char>) -> (r: Option<Vec<char>>)
    ensures
        lookup(pairs_view(es@), k@) == (match r {
            Some(v) => Some(v@),
            None => None::<Seq<char>>,
        }),
{
    let mut j: usize = es.len();
    assert(pairs_view(es@).take(j as int) =~= pairs_view(es@));
    while j > 0
        invariant
            j <= es.len(),
            lookup(pairs_view(es@), k@) == lookup(pairs_view(es@).take(j as int), k@),
        decreases j,
    {
        let ghost pv = pairs_view(es@);
        assert(pv.take(j as int).drop_last() =~= pv.take(j as int - 1));
        assert(pv.take(j as int).last() == (es@[j - 1].0@, es@[j - 1].1@));
        if chars_eq(&es[j - 1].0, k) {
            let v = copy_range(&es[j - 1].1, 0, es[j - 1].1.len());
            assert(v@ =~= es@[j - 1].1@);
            return Some(v);
        }
        j = j - 1;
    }
    None
}

// ---------------------------------------------------------------------------
// Lemmas on entries
// ---------------------------------------------------------------------------

/// A line that keeps its content but loses a final `'\r'` has the same entry.
pub proof fn lemma_entries_strip_cr(ms: Seq<Seq<char>>)
    ensures
        entries(ms.map_values(|l: Seq<char>| strip_cr(l))) == entries(ms),
    decreases ms.len(),
{
    if ms.len() > 0 {
        let f = |l: Seq<char>| strip_cr(l);
        assert(ms.map_values(f).drop_last() =~= ms.drop_last().map_values(f));
        lemma_entries_strip_cr(ms.drop_last());
        lemma_trim_strip_cr(ms.last());
    }
}

pub proof fn lemma_entries_append(a: Seq<Seq<char>>, b: Seq<Seq<char>>)
    ensures
        entries(a + b) == entries(a) + entries(b),
    decreases b.len(),
{
    if b.len() == 0 {
        assert(a + b =~= a);
        assert(entries(a) + entries(b) =~= entries(a));
    } else {
        assert((a + b).drop_last() =~= a + b.drop_last());
        assert((a + b).last() == b.last());
        lemma_entries_append(a, b.drop_last());
        match line_entry(b.last()) {
            Some(kv) => {
                assert(entries(a + b) =~= entries(a) + entries(b));
            },
            None => {},
        }
    }
}

pub proof fn lemma_lookup_append(a: Seq<Entry>, b: Seq<Entry>, k: Seq<char>)
    ensures
        lookup(a + b, k) == (match lookup(b, k) {
            Some(v) => Some(v),
            None => lookup(a, k),
        }),
    decreases b.len(),
{
    if b.len() == 0 {
        assert(a + b =~= a);
    } else {
        assert((a + b).drop_last() =~= a + b.drop_last());
        assert((a + b).last() == b.last());
        lemma_lookup_append(a, b.drop_last(), k);
    }
}

/// A key has a value only where an entry carries it.
pub proof fn lemma_lookup_key(es: Seq<Entry>, k: Seq<char>)
    ensures
        lookup(es, k) is Some <==> exists|i: int| 0 <= i < es.len() && (#[trigger] es[i]).0 == k,
    decreases es.len(),
{
    if es.len() > 0 {
        lemma_lookup_key(es.drop_last(), k);
        if exists|i: int| 0 <= i < es.len() && (#[trigger] es[i]).0 == k {
            let i = choose|i: int| 0 <= i < es.len() && (#[trigger] es[i]).0 == k;
            if i < es.len() - 1 {
                assert(es.drop_last()[i] == es[i]);
            }
        }
        if exists|i: int| 0 <= i < es.len() - 1 && (#[trigger] es.drop_last()[i]).0 == k {
            let i = choose|i: int| 0 <= i < es.len() - 1 && (#[trigger] es.drop_last()[i]).0 == k;
            assert(es[i] == es.drop_last()[i]);
        }
    }
}

/// Whether two optional entries agree on key `k`: if either carries `k`,
/// they are equal.
pub open spec fn agree_on(e1: Option<Entry>, e2: Option<Entry>, k: Seq<char>) -> bool {
    (e1 matches Some(x) && x.0 == k) || (e2 matches Some(y) && y.0 == k) ==> e1 == e2
}

/// Lines that pairwise agree on `k` give `k` the same value.
pub proof fn lemma_lookup_agree(ms1: Seq<Seq<char>>, ms2: Seq<Seq<char>>, k: Seq<char>)
    requires
        ms1.len() == ms2.len(),
        forall|i: int|
            0 <= i < ms1.len() ==> agree_on(
                line_entry(#[trigger] ms1[i]),
                line_entry(ms2[i]),
                k,
            ),
    ensures
        lookup(entries(ms1), k) == lookup(entries(ms2), k),
    decreases ms1.len(),
{
    if ms1.len() > 0 {
        let n = ms1.len() - 1;
        assert(agree_on(line_entry(ms1[n]), line_entry(ms2[n]), k));
        assert forall|i: int| 0 <= i < ms1.drop_last().len() implies agree_on(
            line_entry(#[trigger] ms1.drop_last()[i]),
            line_entry(ms2.drop_last()[i]),
            k,
        ) by {
            assert(ms1.drop_last()[i] == ms1[i]);
            assert(ms2.drop_last()[i] == ms2[i]);
        }
        lemma_lookup_agree(ms1.drop_last(), ms2.drop_last(), k);
        lemma_lookup_last_line(ms1, k);
        lemma_lookup_last_line(ms2, k);
    }
}

/// The value of `k` in the entries of lines, by the last line.
pub proof fn lemma_lookup_last_line(ms: Seq<Seq<char>>, k: Seq<char>)
    requires
        ms.len() > 0,
    ensures
        lookup(entries(ms), k) == (match line_entry(ms.last()) {
            Some(e) => if e.0 == k {
                Some(e.1)
            } else {
                lookup(entries(ms.drop_last()), k)
            },
            None => lookup(entries(ms.drop_last()), k),
        }),
{
    match line_entry(ms.last()) {
        Some(e) => {
            let es = entries(ms.drop_last()).push(e);
            assert(es.drop_last() =~= entries(ms.drop_last()));
        },
        None => {},
    }
}

/// Whether `k` is a key that reads back as itself: not empty, starting with
/// neither whitespace nor `#`, and holding neither `=` nor a newline.
pub open spec fn key_ok(k: Seq<char>) -> bool {
    &&& k.len() > 0
    &&& !is_ws(k[0])
    &&& k[0] != '#'
    &&& forall|i: int| 0 <= i < k.len() ==> #[trigger] k[i] != '=' && k[i] != '\n'
}

/// The entry of a line `k=v` is `k` with `v` less its trailing whitespace.
pub proof fn lemma_kv_entry(k: Seq<char>, v: Seq<char>)
    requires
        key_ok(k),
    ensures
        line_entry(k + seq!['='] + v) == Some((k, trim_end(v))),
{
    let l = k + seq!['='] + v;
    let a = k + seq!['='];
    assert(l =~= a + v);
    assert(a.last() == '=');
    lemma_trim_end_append(a, v);
    assert(l[0] == k[0]);
    lemma_trim_start_keeps(l);
    let t = trim(l);
    assert(t == a + trim_end(v));
    assert(t[0] == k[0]);
    lemma_find_char(t, '=');
    assert(t[k.len() as int] == '=');
    assert forall|j: int| 0 <= j < k.len() implies t[j] != '=' by {
        assert(t[j] == k[j]);
    }
    match find_char(t, '=') {
        Some(p) => {
            if p < k.len() {
                assert(t[p] == k[p]);
            }
            assert(p == k.len());
        },
        None => {
            assert(t[k.len() as int] != '=');
        },
    }
    assert(t.take(k.len() as int) =~= k);
    assert(t.skip(k.len() as int + 1) =~= trim_end(v));
}

/// A line whose raw key (what precedes its first `=`) reads back as itself
/// carries an entry with that key.
pub proof fn lemma_raw_entry(l: Seq<char>, p: int)
    requires
        0 <= p < l.len(),
        l[p] == '=',
        forall|j: int| 0 <= j < p ==> l[j] != '=',
        key_ok(l.take(p)),
    ensures
        line_entry(l) matches Some(e) && e.0 == l.take(p),
{
    let k = l.take(p);
    assert(l[0] == k[0]);
    lemma_trim_start_keeps(l);
    lemma_trim_end_prefix(l);
    let t = trim(l);
    assert(t == trim_end(l));
    if t.len() <= p {
        assert(is_ws(l[p]));
    }
    assert(t[0] == l[0]);
    assert(t[p] == l[p]);
    lemma_find_char(t, '=');
    match find_char(t, '=') {
        Some(q) => {
            if q < p {
                assert(t[q] == l[q]);
            }
            assert(q == p);
        },
        None => {
            assert(t[p] != '=');
        },
    }
    assert(t.take(p) =~= k);
}

} // verus!
