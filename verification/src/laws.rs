//! What rewriting a `server.properties` text promises about reading it back:
//! a key that was updated reads as its new value, any other key keeps the
//! value it had.

use vstd::prelude::*;

use crate::properties_format::{
    agree_on, entries, key_ok, lemma_entries_append, lemma_entries_strip_cr, lemma_kv_entry,
    lemma_lookup_agree, lemma_lookup_append, lemma_lookup_key, lemma_lookup_last_line,
    lemma_raw_entry, line_entry, lookup, text_entries, Entry,
};
use crate::routes::{applied, body_text, key_seen, kv_line, out_line, raw_key, tail_text};
use crate::text::{
    find_char, is_ws, join_nl, lemma_find_char, lemma_trim_end_prefix, lemma_trim_start_keeps, trim,
    trim_start, lemma_join_nl_append, lemma_lines_join, lemma_lines_no_nl,
    lines, no_nl, strip_cr, trim_end, segs, lemma_segs_join,
};

verus! {

/// The rewritten lines of a text.
pub open spec fn out_lines(ls: Seq<Seq<char>>, us: Seq<Entry>) -> Seq<Seq<char>> {
    ls.map_values(|l: Seq<char>| out_line(l, us))
}

/// The updates of `vs` whose key no line of `ls` holds, in order.
pub open spec fn unseen(ls: Seq<Seq<char>>, vs: Seq<Entry>) -> Seq<Entry>
    decreases vs.len(),
{
    if vs.len() == 0 {
        Seq::empty()
    } else {
        let r = unseen(ls, vs.drop_last());
        if key_seen(ls, vs.last().0) {
            r
        } else {
            r.push(vs.last())
        }
    }
}

/// The lines `k=v` of entries.
pub open spec fn kv_lines(es: Seq<Entry>) -> Seq<Seq<char>> {
    es.map_values(|e: Entry| kv_line(e.0, e.1))
}

/// Whether every update has a key that reads back as itself and a value
/// without line breaks.
pub open spec fn updates_ok(us: Seq<Entry>) -> bool {
    forall|i: int| 0 <= i < us.len() ==> key_ok((#[trigger] us[i]).0) && no_nl(us[i].1)
}

/// The index of the last line of `ls` whose raw key is `k`, or -1.
pub open spec fn last_raw(ls: Seq<Seq<char>>, k: Seq<char>) -> int
    decreases ls.len(),
{
    if ls.len() == 0 {
        -1
    } else if raw_key(ls.last()) == Some(k) {
        ls.len() - 1
    } else {
        last_raw(ls.drop_last(), k)
    }
}

/// The value that lines after the last line holding key `k` give `k`
/// (lines whose key only reads as `k` after trimming, which rewriting leaves
/// alone).
pub open spec fn stale_value(ls: Seq<Seq<char>>, k: Seq<char>) -> Option<Seq<char>> {
    let r = last_raw(ls, k);
    if r < 0 {
        None
    } else {
        lookup(entries(ls.skip(r + 1)), k)
    }
}

proof fn lemma_last_raw(ls: Seq<Seq<char>>, k: Seq<char>)
    ensures
        -1 <= last_raw(ls, k) < ls.len(),
        last_raw(ls, k) >= 0 <==> key_seen(ls, k),
        last_raw(ls, k) >= 0 ==> raw_key(ls[last_raw(ls, k)]) == Some(k),
        forall|j: int| last_raw(ls, k) < j < ls.len() ==> raw_key(#[trigger] ls[j]) != Some(k),
    decreases ls.len(),
{
    if ls.len() > 0 {
        let p = ls.drop_last();
        lemma_last_raw(p, k);
        if raw_key(ls.last()) == Some(k) {
            assert(raw_key(ls[ls.len() - 1]) == Some(k));
        } else {
            assert forall|j: int| last_raw(ls, k) < j < ls.len() implies raw_key(#[trigger] ls[j])
                != Some(k) by {
                if j < ls.len() - 1 {
                    assert(ls[j] == p[j]);
                }
            }
            if key_seen(ls, k) {
                let j = choose|j: int| 0 <= j < ls.len() && #[trigger] raw_key(ls[j]) == Some(k);
                assert(p[j] == ls[j]);
            }
            if key_seen(p, k) {
                let j = choose|j: int| 0 <= j < p.len() && #[trigger] raw_key(p[j]) == Some(k);
                assert(p[j] == ls[j]);
            }
            if last_raw(p, k) >= 0 {
                assert(p[last_raw(p, k)] == ls[last_raw(p, k)]);
            }
        }
    }
}

proof fn lemma_body_join(ls: Seq<Seq<char>>, us: Seq<Entry>)
    ensures
        body_text(ls, us) == join_nl(out_lines(ls, us)),
    decreases ls.len(),
{
    if ls.len() > 0 {
        lemma_body_join(ls.drop_last(), us);
        assert(out_lines(ls, us).drop_last() =~= out_lines(ls.drop_last(), us));
    } else {
        assert(out_lines(ls, us) =~= Seq::<Seq<char>>::empty());
    }
}

proof fn lemma_tail_join(ls: Seq<Seq<char>>, vs: Seq<Entry>)
    ensures
        tail_text(ls, vs) == join_nl(kv_lines(unseen(ls, vs))),
    decreases vs.len(),
{
    if vs.len() > 0 {
        lemma_tail_join(ls, vs.drop_last());
        let r = unseen(ls, vs.drop_last());
        if !key_seen(ls, vs.last().0) {
            assert(kv_lines(r.push(vs.last())).drop_last() =~= kv_lines(r));
        }
    } else {
        assert(kv_lines(unseen(ls, vs)) =~= Seq::<Seq<char>>::empty());
    }
}

proof fn lemma_unseen_elems(ls: Seq<Seq<char>>, vs: Seq<Entry>)
    ensures
        forall|j: int|
            0 <= j < unseen(ls, vs).len() ==> exists|i: int|
                0 <= i < vs.len() && vs[i] == #[trigger] unseen(ls, vs)[j],
    decreases vs.len(),
{
    if vs.len() > 0 {
        let p = vs.drop_last();
        lemma_unseen_elems(ls, p);
        let r = unseen(ls, p);
        assert forall|j: int| 0 <= j < unseen(ls, vs).len() implies exists|i: int|
            0 <= i < vs.len() && vs[i] == #[trigger] unseen(ls, vs)[j] by {
            if j < r.len() {
                let i = choose|i: int| 0 <= i < p.len() && p[i] == #[trigger] r[j];
                assert(vs[i] == p[i]);
                assert(unseen(ls, vs)[j] == r[j]);
            } else {
                assert(unseen(ls, vs)[j] == vs[vs.len() - 1]);
            }
        }
    }
}

proof fn lemma_lookup_unseen(ls: Seq<Seq<char>>, vs: Seq<Entry>, k: Seq<char>)
    ensures
        lookup(unseen(ls, vs), k) == (if key_seen(ls, k) {
            None
        } else {
            lookup(vs, k)
        }),
    decreases vs.len(),
{
    if vs.len() > 0 {
        let p = vs.drop_last();
        lemma_lookup_unseen(ls, p, k);
        let r = unseen(ls, p);
        if !key_seen(ls, vs.last().0) {
            assert(r.push(vs.last()).drop_last() =~= r);
        }
    }
}

/// A value that a key has in a list of entries is the value of one of them.
proof fn lemma_lookup_value(es: Seq<Entry>, k: Seq<char>)
    ensures
        lookup(es, k) matches Some(v) ==> exists|i: int| 0 <= i < es.len() && es[i] == (k, v),
    decreases es.len(),
{
    if es.len() > 0 && es.last().0 != k {
        lemma_lookup_value(es.drop_last(), k);
        match lookup(es, k) {
            Some(v) => {
                let i = choose|i: int| 0 <= i < es.len() - 1 && es.drop_last()[i] == (k, v);
                assert(es[i] == es.drop_last()[i]);
            },
            None => {},
        }
    } else if es.len() > 0 {
        assert(es[es.len() - 1] == es.last());
    }
}

proof fn lemma_kv_entries(es: Seq<Entry>)
    requires
        forall|i: int| 0 <= i < es.len() ==> key_ok((#[trigger] es[i]).0),
    ensures
        entries(kv_lines(es)) == es.map_values(|e: Entry| (e.0, trim_end(e.1))),
    decreases es.len(),
{
    if es.len() > 0 {
        let p = es.drop_last();
        assert forall|i: int| 0 <= i < p.len() implies key_ok((#[trigger] p[i]).0) by {
            assert(p[i] == es[i]);
        }
        lemma_kv_entries(p);
        assert(kv_lines(es).drop_last() =~= kv_lines(p));
        assert(key_ok(es[es.len() - 1].0));
        lemma_kv_entry(es.last().0, es.last().1);
        assert(es.map_values(|e: Entry| (e.0, trim_end(e.1))) =~= p.map_values(
            |e: Entry| (e.0, trim_end(e.1)),
        ).push((es.last().0, trim_end(es.last().1))));
    } else {
        assert(kv_lines(es) =~= Seq::<Seq<char>>::empty());
        assert(es.map_values(|e: Entry| (e.0, trim_end(e.1))) =~= Seq::<Entry>::empty());
    }
}

proof fn lemma_lookup_trimmed(es: Seq<Entry>, k: Seq<char>)
    ensures
        lookup(es.map_values(|e: Entry| (e.0, trim_end(e.1))), k) == (match lookup(es, k) {
            Some(v) => Some(trim_end(v)),
            None => None,
        }),
    decreases es.len(),
{
    if es.len() > 0 {
        let f = |e: Entry| (e.0, trim_end(e.1));
        assert(es.map_values(f).drop_last() =~= es.drop_last().map_values(f));
        lemma_lookup_trimmed(es.drop_last(), k);
    }
}

/// Whether no key and no value of the updates holds a line break.
pub open spec fn lines_free(us: Seq<Entry>) -> bool {
    forall|i: int| 0 <= i < us.len() ==> no_nl((#[trigger] us[i]).0) && no_nl(us[i].1)
}

proof fn lemma_updates_ok_lines_free(us: Seq<Entry>)
    requires
        updates_ok(us),
    ensures
        lines_free(us),
{
    assert forall|i: int| 0 <= i < us.len() implies no_nl((#[trigger] us[i]).0) && no_nl(us[i].1) by {
        let k = us[i].0;
        assert(key_ok(k));
        assert forall|t: int| 0 <= t < k.len() implies k[t] != '\n' by {
            assert(k[t] != '=' && k[t] != '\n');
        }
    }
}

/// The lines of the rewritten text carry no line breaks.
proof fn lemma_out_lines_no_nl(ls: Seq<Seq<char>>, us: Seq<Entry>)
    requires
        lines_free(us),
        forall|i: int| 0 <= i < ls.len() ==> no_nl(#[trigger] ls[i]),
    ensures
        forall|i: int|
            0 <= i < out_lines(ls, us).len() ==> no_nl(#[trigger] out_lines(ls, us)[i]),
{
    assert forall|i: int| 0 <= i < out_lines(ls, us).len() implies no_nl(
        #[trigger] out_lines(ls, us)[i],
    ) by {
        let l = ls[i];
        assert(no_nl(l));
        match raw_key(l) {
            Some(k) => match lookup(us, k) {
                Some(v) => {
                    lemma_lookup_value(us, k);
                    let j = choose|j: int| 0 <= j < us.len() && us[j] == (k, v);
                    assert(no_nl(us[j].0) && no_nl(us[j].1));
                    let m = kv_line(k, v);
                    assert forall|t: int| 0 <= t < m.len() implies m[t] != '\n' by {
                        if t < k.len() {
                            assert(m[t] == k[t]);
                        } else if t > k.len() {
                            assert(m[t] == v[t - k.len() - 1]);
                        }
                    }
                },
                None => {},
            },
            None => {},
        }
    }
}

proof fn lemma_kv_lines_no_nl(es: Seq<Entry>)
    requires
        lines_free(es),
    ensures
        forall|i: int| 0 <= i < kv_lines(es).len() ==> no_nl(#[trigger] kv_lines(es)[i]),
{
    assert forall|i: int| 0 <= i < kv_lines(es).len() implies no_nl(#[trigger] kv_lines(es)[i]) by {
        let k = es[i].0;
        let v = es[i].1;
        assert(no_nl(k) && no_nl(v));
        let m = kv_line(k, v);
        assert forall|t: int| 0 <= t < m.len() implies m[t] != '\n' by {
            if t < k.len() {
                assert(m[t] == k[t]);
            } else if t > k.len() {
                assert(m[t] == v[t - k.len() - 1]);
            }
        }
    }
}

/// The rewritten text is its rewritten lines, then its appended lines, each
/// followed by a newline; splitting it gives those lines back (up to a
/// trailing `'\r'`).
proof fn lemma_applied_lines(content: Seq<char>, us: Seq<Entry>)
    requires
        lines_free(us),
    ensures
        applied(content, us) == join_nl(
            out_lines(lines(content), us) + kv_lines(unseen(lines(content), us)),
        ),
        lines(applied(content, us)) == (out_lines(lines(content), us) + kv_lines(
            unseen(lines(content), us),
        )).map_values(|l: Seq<char>| strip_cr(l)),
        forall|i: int|
            0 <= i < (out_lines(lines(content), us) + kv_lines(unseen(lines(content), us))).len()
                ==> no_nl(
                #[trigger] (out_lines(lines(content), us) + kv_lines(unseen(lines(content), us)))[i],
            ),
{
    let ls = lines(content);
    let outs = out_lines(ls, us);
    let uns = unseen(ls, us);
    let apps = kv_lines(uns);
    lemma_body_join(ls, us);
    lemma_tail_join(ls, us);
    lemma_join_nl_append(outs, apps);
    lemma_lines_no_nl(content);
    lemma_out_lines_no_nl(ls, us);
    lemma_unseen_elems(ls, us);
    assert(lines_free(uns)) by {
        assert forall|j: int| 0 <= j < uns.len() implies no_nl((#[trigger] uns[j]).0) && no_nl(
            uns[j].1,
        ) by {
            let i = choose|i: int| 0 <= i < us.len() && us[i] == #[trigger] uns[j];
            assert(no_nl(us[i].0) && no_nl(us[i].1));
        }
    }
    lemma_kv_lines_no_nl(uns);
    let all = outs + apps;
    assert forall|i: int| 0 <= i < all.len() implies no_nl(#[trigger] all[i]) by {
        if i < outs.len() {
            assert(all[i] == outs[i]);
        } else {
            assert(all[i] == apps[i - outs.len()]);
        }
    }
    lemma_lines_join(all);
}

/// The entries of the rewritten text: those of the rewritten lines, then
/// those of the appended lines.
proof fn lemma_applied_entries(content: Seq<char>, us: Seq<Entry>)
    requires
        updates_ok(us),
    ensures
        text_entries(applied(content, us)) == entries(out_lines(lines(content), us)) + entries(
            kv_lines(unseen(lines(content), us)),
        ),
{
    let ls = lines(content);
    let outs = out_lines(ls, us);
    let apps = kv_lines(unseen(ls, us));
    lemma_updates_ok_lines_free(us);
    lemma_applied_lines(content, us);
    lemma_entries_strip_cr(outs + apps);
    lemma_entries_append(outs, apps);
}

/// A line that does not hold the key `k` for rewriting, or that holds a key
/// without update, agrees on `k` with its rewritten form.
proof fn lemma_out_line_agree(l: Seq<char>, us: Seq<Entry>, k: Seq<char>)
    requires
        updates_ok(us),
        raw_key(l) != Some(k) || lookup(us, k) is None,
    ensures
        agree_on(line_entry(out_line(l, us)), line_entry(l), k),
{
    match raw_key(l) {
        Some(k2) => match lookup(us, k2) {
            Some(v2) => {
                lemma_lookup_key(us, k2);
                let i = choose|i: int| 0 <= i < us.len() && (#[trigger] us[i]).0 == k2;
                assert(key_ok(us[i].0));
                lemma_kv_entry(k2, v2);
                lemma_find_char(l, '=');
                let p = find_char(l, '=').unwrap();
                lemma_raw_entry(l, p);
                assert(k2 != k);
            },
            None => {},
        },
        None => {},
    }
}

/// Apply then read, key by key: after rewriting a text with updates whose
/// keys read back as themselves and whose values hold no line break, a key
/// without update keeps the value it had; an updated key reads as the value
/// of its last update (less trailing whitespace), unless a line after the
/// last line holding the key gives it another value.
pub proof fn law_read_back_key(content: Seq<char>, us: Seq<Entry>, k: Seq<char>)
    requires
        updates_ok(us),
    ensures
        lookup(text_entries(applied(content, us)), k) == (match lookup(us, k) {
            None => lookup(text_entries(content), k),
            Some(v) => match stale_value(lines(content), k) {
                Some(w) => Some(w),
                None => Some(trim_end(v)),
            },
        }),
{
    let ls = lines(content);
    let outs = out_lines(ls, us);
    let uns = unseen(ls, us);
    let apps = kv_lines(uns);
    lemma_applied_entries(content, us);
    lemma_lookup_append(entries(outs), entries(apps), k);
    lemma_unseen_elems(ls, us);
    assert forall|j: int| 0 <= j < uns.len() implies key_ok((#[trigger] uns[j]).0) by {
        let i = choose|i: int| 0 <= i < us.len() && us[i] == #[trigger] uns[j];
        assert(key_ok(us[i].0));
    }
    lemma_kv_entries(uns);
    lemma_lookup_trimmed(uns, k);
    lemma_lookup_unseen(ls, us, k);
    lemma_last_raw(ls, k);
    match lookup(us, k) {
        None => {
            assert forall|i: int| 0 <= i < outs.len() implies agree_on(
                line_entry(#[trigger] outs[i]),
                line_entry(ls[i]),
                k,
            ) by {
                lemma_out_line_agree(ls[i], us, k);
            }
            lemma_lookup_agree(outs, ls, k);
        },
        Some(v) => {
            if key_seen(ls, k) {
                let r = last_raw(ls, k);
                let a = outs.take(r);
                let b = outs.skip(r + 1);
                let m = seq![outs[r]];
                assert(outs =~= a + m + b);
                lemma_entries_append(a + m, b);
                lemma_entries_append(a, m);
                lemma_lookup_append(entries(a + m), entries(b), k);
                lemma_lookup_append(entries(a), entries(m), k);
                lemma_lookup_key(us, k);
                let i = choose|i: int| 0 <= i < us.len() && (#[trigger] us[i]).0 == k;
                assert(key_ok(us[i].0));
                assert(outs[r] == kv_line(k, v));
                lemma_kv_entry(k, v);
                assert(m.drop_last() =~= Seq::<Seq<char>>::empty());
                assert(m.last() == kv_line(k, v));
                assert(entries(m.drop_last()) == Seq::<Entry>::empty());
                assert(line_entry(m.last()) == Some((k, trim_end(v))));
                assert(entries(m) =~= seq![(k, trim_end(v))]);
                let lb = ls.skip(r + 1);
                assert(b =~= out_lines(lb, us));
                assert forall|j: int| 0 <= j < b.len() implies agree_on(
                    line_entry(#[trigger] b[j]),
                    line_entry(lb[j]),
                    k,
                ) by {
                    assert(lb[j] == ls[r + 1 + j]);
                    lemma_out_line_agree(lb[j], us, k);
                }
                lemma_lookup_agree(b, lb, k);
            }
        },
    }
}

/// Whether no line of `ls` starts with whitespace.
pub open spec fn no_leading_ws(ls: Seq<Seq<char>>) -> bool {
    forall|i: int| 0 <= i < ls.len() ==> (#[trigger] ls[i]).len() == 0 || !is_ws(ls[i][0])
}

/// A line that does not start with whitespace holds, for rewriting, the key
/// of its entry.
proof fn lemma_entry_raw_key(l: Seq<char>)
    requires
        l.len() == 0 || !is_ws(l[0]),
    ensures
        line_entry(l) matches Some(e) ==> raw_key(l) == Some(e.0),
{
    if l.len() > 0 {
        lemma_trim_start_keeps(l);
        lemma_trim_end_prefix(l);
        let t = trim(l);
        assert(t == trim_end(l));
        lemma_find_char(t, '=');
        lemma_find_char(l, '=');
        match find_char(t, '=') {
            Some(p) => {
                assert(t[p] == l[p]);
                assert forall|j: int| 0 <= j < p implies l[j] != '=' by {
                    assert(t[j] == l[j]);
                }
                match find_char(l, '=') {
                    Some(q) => {
                        if q < p {
                            assert(t[q] == l[q]);
                        }
                        assert(q == p);
                    },
                    None => {
                        assert(l[p] != '=');
                    },
                }
                assert(t.take(p) =~= l.take(p));
            },
            None => {},
        }
    }
}

/// Lines none of which carries the key `k` give it no value.
proof fn lemma_lookup_none(ms: Seq<Seq<char>>, k: Seq<char>)
    requires
        forall|i: int| 0 <= i < ms.len() ==> !(line_entry(#[trigger] ms[i]) matches Some(e) && e.0 == k),
    ensures
        lookup(entries(ms), k) is None,
    decreases ms.len(),
{
    if ms.len() > 0 {
        let p = ms.drop_last();
        assert forall|i: int| 0 <= i < p.len() implies !(line_entry(#[trigger] p[i]) matches Some(e)
            && e.0 == k) by {
            assert(p[i] == ms[i]);
        }
        lemma_lookup_none(p, k);
        assert(ms[ms.len() - 1] == ms.last());
        lemma_lookup_last_line(ms, k);
    }
}

/// In a text none of whose lines starts with whitespace, no key has a stale
/// value: every line that reads as a key also holds it for rewriting.
pub proof fn lemma_no_stale(ls: Seq<Seq<char>>)
    requires
        no_leading_ws(ls),
    ensures
        forall|k: Seq<char>| #[trigger] stale_value(ls, k) is None,
{
    assert forall|k: Seq<char>| #[trigger] stale_value(ls, k) is None by {
        lemma_last_raw(ls, k);
        let r = last_raw(ls, k);
        if r >= 0 {
            let after = ls.skip(r + 1);
            assert forall|i: int| 0 <= i < after.len() implies !(line_entry(#[trigger] after[i]) matches Some(
                e,
            ) && e.0 == k) by {
                assert(after[i] == ls[r + 1 + i]);
                lemma_entry_raw_key(ls[r + 1 + i]);
            }
            lemma_lookup_none(after, k);
        }
    }
}

// ---------------------------------------------------------------------------
// Rewriting twice
// ---------------------------------------------------------------------------

/// Whether a key holds its own line when written as `k=v`: no `=`, no line
/// break, and its first non-whitespace character (if any) is not `#`.
pub open spec fn rewrite_key_ok(k: Seq<char>) -> bool {
    &&& no_nl(k)
    &&& forall|i: int| 0 <= i < k.len() ==> #[trigger] k[i] != '='
    &&& (trim_start(k).len() == 0 || trim_start(k)[0] != '#')
}

/// Whether no two updates have the same key.
pub open spec fn distinct_keys(us: Seq<Entry>) -> bool {
    forall|i: int, j: int| 0 <= i < j < us.len() ==> (#[trigger] us[i]).0 != (#[trigger] us[j]).0
}

/// Whether a line ends in a carriage return.
pub open spec fn ends_cr(l: Seq<char>) -> bool {
    l.len() > 0 && l.last() == '\r'
}

proof fn lemma_trim_start_append(a: Seq<char>, b: Seq<char>)
    ensures
        trim_start(a + b) == (if trim_start(a).len() > 0 {
            trim_start(a) + b
        } else {
            trim_start(b)
        }),
    decreases a.len(),
{
    if a.len() == 0 {
        assert(a + b =~= b);
    } else if is_ws(a[0]) {
        assert((a + b)[0] == a[0]);
        assert((a + b).drop_first() =~= a.drop_first() + b);
        lemma_trim_start_append(a.drop_first(), b);
    } else {
        assert((a + b)[0] == a[0]);
    }
}

/// A line `k=w` holds the key `k` for rewriting.
proof fn lemma_kv_raw_key(k: Seq<char>, w: Seq<char>)
    requires
        rewrite_key_ok(k),
    ensures
        raw_key(kv_line(k, w)) == Some(k),
{
    let line = kv_line(k, w);
    let rest = seq!['='] + w;
    assert(line =~= k + rest);
    assert(rest[0] == '=');
    assert(!is_ws('='));
    lemma_trim_start_append(k, rest);
    let s1 = trim_start(line);
    let q: int = if trim_start(k).len() > 0 { trim_start(k).len() as int } else { 0 };
    if trim_start(k).len() > 0 {
        assert(s1 == trim_start(k) + rest);
        assert(s1[q] == rest[0]);
        assert(s1[0] == trim_start(k)[0]);
    } else {
        lemma_trim_start_keeps(rest);
        assert(s1 == rest);
    }
    assert(s1[q] == '=');
    lemma_trim_end_prefix(s1);
    let t = trim_end(s1);
    if q >= t.len() {
        assert(is_ws(s1[q]));
    }
    assert(t[0] == s1[0]);
    assert(trim(line) == t);
    lemma_find_char(line, '=');
    assert(line[k.len() as int] == '=');
    match find_char(line, '=') {
        Some(p) => {
            if p < k.len() {
                assert(line[p] == k[p]);
            }
            assert(p == k.len());
        },
        None => {
            assert(line[k.len() as int] != '=');
        },
    }
    assert(line.take(k.len() as int) =~= k);
}

proof fn lemma_strip_cr_kv(k: Seq<char>, v: Seq<char>)
    ensures
        strip_cr(kv_line(k, v)) == kv_line(k, strip_cr(v)),
{
    if v.len() > 0 && v.last() == '\r' {
        assert(kv_line(k, v).last() == v.last());
        assert(kv_line(k, v).drop_last() =~= kv_line(k, v.drop_last()));
    } else if v.len() == 0 {
        assert(kv_line(k, v).last() == '=');
    } else {
        assert(kv_line(k, v).last() == v.last());
    }
}

/// With distinct keys, each update's key has that update's value.
proof fn lemma_lookup_distinct(us: Seq<Entry>, i: int)
    requires
        distinct_keys(us),
        0 <= i < us.len(),
    ensures
        lookup(us, us[i].0) == Some(us[i].1),
    decreases us.len(),
{
    if i < us.len() - 1 {
        assert(us[i].0 != us[us.len() - 1].0);
        let p = us.drop_last();
        assert(p[i] == us[i]);
        assert forall|a: int, b: int| 0 <= a < b < p.len() implies (#[trigger] p[a]).0 != (
        #[trigger] p[b]).0 by {
            assert(p[a] == us[a] && p[b] == us[b]);
        }
        lemma_lookup_distinct(p, i);
    } else {
        assert(us[i] == us.last());
    }
}

/// An update whose key no line holds is among those appended.
proof fn lemma_unseen_has(ls: Seq<Seq<char>>, vs: Seq<Entry>, i: int)
    requires
        0 <= i < vs.len(),
        !key_seen(ls, vs[i].0),
    ensures
        exists|j: int| 0 <= j < unseen(ls, vs).len() && #[trigger] unseen(ls, vs)[j] == vs[i],
    decreases vs.len(),
{
    let p = vs.drop_last();
    let r = unseen(ls, p);
    if i == vs.len() - 1 {
        assert(vs[i] == vs.last());
        assert(unseen(ls, vs)[r.len() as int] == vs[i]);
    } else {
        assert(p[i] == vs[i]);
        lemma_unseen_has(ls, p, i);
        let j = choose|j: int| 0 <= j < r.len() && #[trigger] r[j] == p[i];
        assert(unseen(ls, vs)[j] == r[j]);
    }
}

/// When every update's key is held by some line, nothing is appended.
proof fn lemma_unseen_empty(ls: Seq<Seq<char>>, vs: Seq<Entry>)
    requires
        forall|i: int| 0 <= i < vs.len() ==> key_seen(ls, (#[trigger] vs[i]).0),
    ensures
        unseen(ls, vs) == Seq::<Entry>::empty(),
    decreases vs.len(),
{
    if vs.len() > 0 {
        let p = vs.drop_last();
        assert forall|i: int| 0 <= i < p.len() implies key_seen(ls, (#[trigger] p[i]).0) by {
            assert(p[i] == vs[i]);
        }
        lemma_unseen_empty(ls, p);
        assert(vs[vs.len() - 1] == vs.last());
    }
}

/// Rewriting is idempotent: rewriting the rewritten text again with the same
/// updates gives it back unchanged, when the updates have distinct keys, no
/// key or value holds a line break, no key holds `=` or starts (after
/// whitespace) with `#`, and no line of the original text ends in `'\r'`.
pub proof fn law_rewrite_idempotent(content: Seq<char>, us: Seq<Entry>)
    requires
        distinct_keys(us),
        forall|i: int| 0 <= i < us.len() ==> rewrite_key_ok((#[trigger] us[i]).0) && no_nl(us[i].1),
        forall|i: int| 0 <= i < lines(content).len() ==> !ends_cr(#[trigger] lines(content)[i]),
    ensures
        applied(applied(content, us), us) == applied(content, us),
{
    let ls = lines(content);
    let outs = out_lines(ls, us);
    let uns = unseen(ls, us);
    let apps = kv_lines(uns);
    let l2 = outs + apps;
    assert(lines_free(us));
    lemma_applied_lines(content, us);
    let once = applied(content, us);
    let l3 = lines(once);
    assert(l3 == l2.map_values(|l: Seq<char>| strip_cr(l)));
    lemma_unseen_elems(ls, us);
    // Every line of the rewritten text is its own rewriting.
    assert forall|i: int| 0 <= i < l3.len() implies out_line(#[trigger] l3[i], us) == l2[i] by {
        assert(l3[i] == strip_cr(l2[i]));
        if i < outs.len() {
            let l = ls[i];
            assert(l2[i] == outs[i]);
            assert(outs[i] == out_line(l, us));
            match raw_key(l) {
                Some(k) => match lookup(us, k) {
                    Some(v) => {
                        lemma_lookup_key(us, k);
                        let j = choose|j: int| 0 <= j < us.len() && (#[trigger] us[j]).0 == k;
                        assert(rewrite_key_ok(us[j].0));
                        lemma_strip_cr_kv(k, v);
                        lemma_kv_raw_key(k, strip_cr(v));
                    },
                    None => {
                        assert(!ends_cr(ls[i]));
                    },
                },
                None => {
                    assert(!ends_cr(ls[i]));
                },
            }
        } else {
            let j = i - outs.len();
            assert(l2[i] == apps[j]);
            let e = uns[j];
            assert(apps[j] == kv_line(e.0, e.1));
            let i2 = choose|i2: int| 0 <= i2 < us.len() && us[i2] == #[trigger] uns[j];
            assert(rewrite_key_ok(us[i2].0));
            lemma_lookup_distinct(us, i2);
            lemma_strip_cr_kv(e.0, e.1);
            lemma_kv_raw_key(e.0, strip_cr(e.1));
        }
    }
    assert(out_lines(l3, us) =~= l2);
    // Every update's key is held by a line of the rewritten text.
    assert forall|i: int| 0 <= i < us.len() implies key_seen(l3, (#[trigger] us[i]).0) by {
        let k = us[i].0;
        assert(rewrite_key_ok(k));
        if key_seen(ls, k) {
            let j = choose|j: int| 0 <= j < ls.len() && #[trigger] raw_key(ls[j]) == Some(k);
            crate::routes::lemma_lookup_some(us, i);
            let v = lookup(us, k).unwrap();
            assert(outs[j] == kv_line(k, v));
            assert(l2[j] == outs[j]);
            assert(l3[j] == strip_cr(l2[j]));
            lemma_strip_cr_kv(k, v);
            lemma_kv_raw_key(k, strip_cr(v));
            assert(raw_key(l3[j]) == Some(k));
        } else {
            lemma_unseen_has(ls, us, i);
            let j = choose|j: int| 0 <= j < uns.len() && #[trigger] uns[j] == us[i];
            let n = outs.len() + j;
            assert(l2[n] == apps[j]);
            assert(apps[j] == kv_line(k, us[i].1));
            assert(l3[n] == strip_cr(l2[n]));
            lemma_strip_cr_kv(k, us[i].1);
            lemma_kv_raw_key(k, strip_cr(us[i].1));
            assert(raw_key(l3[n]) == Some(k));
        }
    }
    lemma_unseen_empty(l3, us);
    lemma_body_join(l3, us);
    lemma_tail_join(l3, us);
    assert(kv_lines(unseen(l3, us)) =~= Seq::<Seq<char>>::empty());
    assert(tail_text(l3, us) =~= Seq::<char>::empty());
    assert(applied(once, us) =~= join_nl(l2));
}

/// Rewriting keeps every line of the file at its place. The `i`-th line of
/// the rewritten text (the piece before its `i`-th newline) is the `i`-th
/// line of the original, unchanged, when that line is blank, a comment (its
/// first non-whitespace character is `#`), holds no `=`, or holds a key that
/// no update names; a line whose key (what precedes its first `=`) has
/// updates becomes the key, `=` and the value of the last such update. The
/// lines of the original all come before the appended ones, when no key or
/// value of the updates holds a line break.
pub proof fn law_rewrite_lines(content: Seq<char>, us: Seq<Entry>)
    requires
        lines_free(us),
    ensures
        lines(applied(content, us)).len() >= lines(content).len(),
        forall|i: int|
            0 <= i < lines(content).len() ==> {
                let l = #[trigger] lines(content)[i];
                let t = trim(l);
                let r = segs(applied(content, us))[i];
                &&& lines(applied(content, us))[i] == strip_cr(r)
                &&& (t.len() == 0 || t[0] == '#') ==> r == l
                &&& (t.len() > 0 && t[0] != '#') ==> match find_char(l, '=') {
                    None => r == l,
                    Some(p) => match lookup(us, l.take(p)) {
                        None => r == l,
                        Some(v) => r == l.take(p) + seq!['='] + v,
                    },
                }
            },
{
    let ls = lines(content);
    let outs = out_lines(ls, us);
    let apps = kv_lines(unseen(ls, us));
    let all = outs + apps;
    lemma_applied_lines(content, us);
    lemma_segs_join(all);
    assert forall|i: int| 0 <= i < ls.len() implies {
        let l = #[trigger] ls[i];
        let t = trim(l);
        let r = segs(applied(content, us))[i];
        &&& lines(applied(content, us))[i] == strip_cr(r)
        &&& (t.len() == 0 || t[0] == '#') ==> r == l
        &&& (t.len() > 0 && t[0] != '#') ==> match find_char(l, '=') {
            None => r == l,
            Some(p) => match lookup(us, l.take(p)) {
                None => r == l,
                Some(v) => r == l.take(p) + seq!['='] + v,
            },
        }
    } by {
        assert(all[i] == outs[i]);
        assert(outs[i] == out_line(ls[i], us));
        assert(segs(applied(content, us))[i] == all[i]);
    }
}

} // verus!
