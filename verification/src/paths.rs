//! File-system paths as text: joining, duplicate-free lists and name order.

use vstd::prelude::*;

use crate::cookies::{split_at_char, split_char};
use crate::text::{chars_eq, has_prefix, push_all, slice_chars, starts_with, str_chars, string_from_chars};

verus! {

/// `Path::join` on Unix: an absolute `p` replaces `base`; otherwise `p` is
/// appended, with a `/` in between unless `base` is empty or already ends
/// with one.
pub open spec fn path_join(base: Seq<char>, p: Seq<char>) -> Seq<char> {
    if p.len() > 0 && p[0] == '/' {
        p
    } else if base.len() == 0 {
        p
    } else if base.last() == '/' {
        base + p
    } else {
        base + "/"@ + p
    }
}

/// Joins two paths (see [`path_join`]).
pub fn join_chars(base: &[char], p: &[char]) -> (res: Vec<char>)
    ensures
        res@ == path_join(base@, p@),
{
    let mut out: Vec<char> = Vec::new();
    if p.len() > 0 && p[0] == '/' {
        push_all(&mut out, p);
    } else if base.len() == 0 {
        push_all(&mut out, p);
    } else if base[base.len() - 1] == '/' {
        push_all(&mut out, base);
        push_all(&mut out, p);
    } else {
        push_all(&mut out, base);
        let sep = str_chars("/");
        push_all(&mut out, sep.as_slice());
        push_all(&mut out, p);
    }
    out
}

/// Joins a relative or absolute path text onto a base path (see [`path_join`]).
pub fn join_path(base: &str, p: &str) -> (res: String)
    ensures
        res@ == path_join(base@, p@),
{
    let b = str_chars(base);
    let q = str_chars(p);
    let j = join_chars(b.as_slice(), q.as_slice());
    string_from_chars(j.as_slice())
}

/// The texts of a list of strings.
pub open spec fn string_views(v: Seq<String>) -> Seq<Seq<char>> {
    v.map_values(|s: String| s@)
}

/// The texts of a list of character vectors.
pub open spec fn char_views(v: Seq<Vec<char>>) -> Seq<Seq<char>> {
    v.map_values(|s: Vec<char>| s@)
}

/// `s` with every element after its first occurrence removed, order kept.
pub open spec fn dedup(s: Seq<Seq<char>>) -> Seq<Seq<char>>
    decreases s.len(),
{
    if s.len() == 0 {
        s
    } else {
        let d = dedup(s.drop_last());
        if d.contains(s.last()) {
            d
        } else {
            d.push(s.last())
        }
    }
}

/// Appends `item` unless an equal text is already in `items`.
pub fn push_new(items: &mut Vec<String>, item: String)
    ensures
        string_views(final(items)@) == with_unique(string_views(old(items)@), item@),
{
    let mut i: usize = 0;
    while i < items.len()
        invariant
            i <= items@.len(),
            forall|j: int| 0 <= j < i ==> items@[j]@ != item@,
        decreases items@.len() - i,
    {
        if items[i] == item {
            assert(string_views(items@)[i as int] == item@);
            return;
        }
        i += 1;
    }
    assert(!string_views(items@).contains(item@)) by {
        if string_views(items@).contains(item@) {
            let k = choose|k: int| 0 <= k < string_views(items@).len() && string_views(items@)[k] == item@;
            assert(items@[k]@ == item@);
        }
    }
    let ghost before = items@;
    items.push(item);
    assert(string_views(items@) =~= string_views(before).push(item@));
}

/// Character-by-character order of two texts (the order of `str`, and of
/// the names of entries in one directory).
pub open spec fn lex_le(a: Seq<char>, b: Seq<char>) -> bool
    decreases a.len(),
{
    if a.len() == 0 {
        true
    } else if b.len() == 0 {
        false
    } else if a[0] != b[0] {
        a[0] < b[0]
    } else {
        lex_le(a.drop_first(), b.drop_first())
    }
}

pub proof fn lemma_lex_total(a: Seq<char>, b: Seq<char>)
    ensures
        lex_le(a, b) || lex_le(b, a),
    decreases a.len(),
{
    if a.len() > 0 && b.len() > 0 && a[0] == b[0] {
        lemma_lex_total(a.drop_first(), b.drop_first());
    }
}

pub proof fn lemma_lex_trans(a: Seq<char>, b: Seq<char>, c: Seq<char>)
    requires
        lex_le(a, b),
        lex_le(b, c),
    ensures
        lex_le(a, c),
    decreases a.len(),
{
    if a.len() > 0 && b.len() > 0 && c.len() > 0 && a[0] == b[0] && b[0] == c[0] {
        lemma_lex_trans(a.drop_first(), b.drop_first(), c.drop_first());
    }
}

/// `a` comes no later than `b` in character order.
pub fn lex_le_chars(a: &[char], b: &[char]) -> (res: bool)
    ensures
        res == lex_le(a@, b@),
{
    let mut i: usize = 0;
    assert(a@.subrange(0, a@.len() as int) =~= a@);
    assert(b@.subrange(0, b@.len() as int) =~= b@);
    while i < a.len() && i < b.len()
        invariant
            i <= a@.len(),
            i <= b@.len(),
            lex_le(a@, b@) == lex_le(a@.subrange(i as int, a@.len() as int), b@.subrange(i as int, b@.len() as int)),
        decreases a@.len() - i,
    {
        if a[i] != b[i] {
            return a[i] < b[i];
        }
        assert(a@.subrange(i + 1, a@.len() as int) =~= a@.subrange(i as int, a@.len() as int).drop_first());
        assert(b@.subrange(i + 1, b@.len() as int) =~= b@.subrange(i as int, b@.len() as int).drop_first());
        i += 1;
    }
    i == a.len()
}

pub proof fn lemma_lex_antisym(a: Seq<char>, b: Seq<char>)
    requires
        lex_le(a, b),
        lex_le(b, a),
    ensures
        a == b,
    decreases a.len(),
{
    if a.len() > 0 && b.len() > 0 && a[0] == b[0] {
        lemma_lex_antisym(a.drop_first(), b.drop_first());
        assert(a =~= seq![a[0]] + a.drop_first());
        assert(b =~= seq![b[0]] + b.drop_first());
    } else if a.len() == 0 {
        assert(b.len() == 0 || !lex_le(b, a));
        assert(a =~= b);
    }
}

/// Every element is no later than the next in character order.
pub open spec fn sorted_lex(s: Seq<Seq<char>>) -> bool {
    forall|i: int, j: int| 0 <= i < j < s.len() ==> lex_le(s[i], s[j])
}

/// Two sorted sequences holding the same elements are equal.
pub proof fn lemma_sorted_unique(a: Seq<Seq<char>>, b: Seq<Seq<char>>)
    requires
        sorted_lex(a),
        sorted_lex(b),
        a.to_multiset() == b.to_multiset(),
    ensures
        a == b,
    decreases a.len(),
{
    broadcast use vstd::seq_lib::group_to_multiset_ensures;
    broadcast use vstd::multiset::group_multiset_axioms;

    if a.len() == 0 {
        vstd::seq_lib::to_multiset_len(a);
        vstd::seq_lib::to_multiset_len(b);
        assert(b.to_multiset().len() == 0);
        assert(b =~= a);
    } else {
        vstd::seq_lib::to_multiset_len(a);
        vstd::seq_lib::to_multiset_len(b);
        assert(b.len() == a.len());
        assert(a.contains(a[0]));
        assert(b.to_multiset().count(a[0]) > 0);
        assert(b.contains(a[0]));
        let j = choose|j: int| 0 <= j < b.len() && b[j] == a[0];
        if j > 0 {
            assert(lex_le(b[0], b[j]));
        } else {
            lemma_lex_total(b[0], a[0]);
        }
        assert(b.contains(b[0]));
        assert(a.to_multiset().count(b[0]) > 0);
        assert(a.contains(b[0]));
        let k = choose|k: int| 0 <= k < a.len() && a[k] == b[0];
        if k > 0 {
            assert(lex_le(a[0], a[k]));
        } else {
            lemma_lex_total(a[0], b[0]);
        }
        lemma_lex_antisym(a[0], b[0]);
        let ra = a.remove(0);
        let rb = b.remove(0);
        assert(ra.to_multiset() == rb.to_multiset());
        assert(sorted_lex(ra)) by {
            assert forall|x: int, y: int| 0 <= x < y < ra.len() implies lex_le(ra[x], ra[y]) by {
                assert(ra[x] == a[x + 1] && ra[y] == a[y + 1]);
            }
        }
        assert(sorted_lex(rb)) by {
            assert forall|x: int, y: int| 0 <= x < y < rb.len() implies lex_le(rb[x], rb[y]) by {
                assert(rb[x] == b[x + 1] && rb[y] == b[y + 1]);
            }
        }
        lemma_sorted_unique(ra, rb);
        assert(a =~= seq![a[0]] + ra);
        assert(b =~= seq![b[0]] + rb);
    }
}

/// The elements of `s` in character order, each as often as in `s`.
pub open spec fn sort_lex(s: Seq<Seq<char>>) -> Seq<Seq<char>> {
    choose|t: Seq<Seq<char>>| sorted_lex(t) && t.to_multiset() == s.to_multiset()
}

/// The names sorted in character order (see [`sort_lex`]).
pub fn sort_names(names: Vec<String>) -> (res: Vec<String>)
    ensures
        string_views(res@) == sort_lex(string_views(names@)),
        sorted_lex(string_views(res@)),
        string_views(res@).to_multiset() == string_views(names@).to_multiset(),
{
    let mut out: Vec<String> = Vec::new();
    let mut rest = names;
    let ghost orig = rest@;
    let ghost mut i: int = 0;
    proof {
        broadcast use vstd::seq_lib::group_to_multiset_ensures;
    }
    while rest.len() > 0
        invariant
            0 <= i <= orig.len(),
            rest@ == orig.subrange(i, orig.len() as int),
            sorted_lex(string_views(out@)),
            string_views(out@).to_multiset() == string_views(orig.take(i)).to_multiset(),
        decreases rest@.len(),
    {
        broadcast use vstd::seq_lib::group_to_multiset_ensures;
        let item = rest.remove(0);
        let ghost iv = item@;
        assert(item == orig[i]);
        let ic = str_chars(item.as_str());
        // position of the first element that comes strictly after `item`
        let mut k: usize = 0;
        while k < out.len() && lex_le_chars(str_chars(out[k].as_str()).as_slice(), ic.as_slice())
            invariant
                k <= out@.len(),
                ic@ == iv,
                forall|j: int| 0 <= j < k ==> lex_le(#[trigger] out@[j]@, iv),
            decreases out@.len() - k,
        {
            k += 1;
        }
        let ghost before = out@;
        proof {
            if k < out@.len() {
                lemma_lex_total(iv, out@[k as int]@);
            }
        }
        out.insert(k, item);
        proof {
            let v = string_views(out@);
            let vb = string_views(before);
            assert(v =~= vb.insert(k as int, iv));
            assert forall|a: int, b: int| 0 <= a < b < v.len() implies lex_le(v[a], v[b]) by {
                if a < k && b == k {
                } else if a == k && b > k {
                    assert(v[b] == vb[b - 1]);
                    if k < before.len() {
                        assert(!lex_le(vb[k as int], iv));
                        lemma_lex_total(iv, vb[k as int]);
                        if b - 1 > k {
                            lemma_lex_trans(iv, vb[k as int], vb[b - 1]);
                        }
                    }
                } else if a < k && b > k {
                } else if a > k {
                } else {
                }
            }
            assert(string_views(orig.take(i + 1)) =~= string_views(orig.take(i)).push(iv));
            assert(vb.insert(k as int, iv).to_multiset() == vb.to_multiset().insert(iv));
            i = i + 1;
            assert(rest@ =~= orig.subrange(i, orig.len() as int));
        }
    }
    assert(orig.take(i) =~= orig);
    proof {
        let s = string_views(orig);
        let w = string_views(out@);
        assert(sorted_lex(w) && w.to_multiset() == s.to_multiset());
        let t = sort_lex(s);
        lemma_sorted_unique(w, t);
    }
    out
}

// ---------------------------------------------------------------------------
// Laws of duplicate-free lists
// ---------------------------------------------------------------------------

/// No text occurs twice.
pub open spec fn no_dups(s: Seq<Seq<char>>) -> bool {
    forall|i: int, j: int| 0 <= i < j < s.len() ==> s[i] != s[j]
}

/// The list after offering `x` (what [`push_unique`] does): `x` is
/// appended unless it is already there.
pub open spec fn with_unique(s: Seq<Seq<char>>, x: Seq<char>) -> Seq<Seq<char>> {
    if s.contains(x) {
        s
    } else {
        s.push(x)
    }
}

/// Removing the repeated occurrences leaves every text once, and leaves
/// exactly the texts of the list it started from.
pub proof fn lemma_dedup_unique(s: Seq<Seq<char>>)
    ensures
        no_dups(dedup(s)),
        forall|x: Seq<char>| dedup(s).contains(x) <==> s.contains(x),
    decreases s.len(),
{
    if s.len() > 0 {
        let p = s.drop_last();
        lemma_dedup_unique(p);
        let d = dedup(p);
        let l = s.last();
        assert forall|x: Seq<char>| dedup(s).contains(x) <==> s.contains(x) by {
            if s.contains(x) {
                let k = choose|k: int| 0 <= k < s.len() && s[k] == x;
                if k < s.len() - 1 {
                    assert(p[k] == x);
                    assert(p.contains(x));
                    let m = choose|m: int| 0 <= m < d.len() && d[m] == x;
                    if !d.contains(l) {
                        assert(d.push(l)[m] == x);
                    }
                } else if !d.contains(l) {
                    assert(d.push(l)[d.len() as int] == x);
                }
            }
            if dedup(s).contains(x) {
                let m = choose|m: int| 0 <= m < dedup(s).len() && dedup(s)[m] == x;
                if m < d.len() {
                    assert(d[m] == x);
                    assert(d.contains(x));
                    assert(p.contains(x));
                    let k = choose|k: int| 0 <= k < p.len() && p[k] == x;
                    assert(s[k] == x);
                } else {
                    assert(s[s.len() - 1] == x);
                }
            }
        }
        if !d.contains(l) {
            let e = d.push(l);
            assert forall|i: int, j: int| 0 <= i < j < e.len() implies e[i] != e[j] by {
                if j == d.len() {
                    assert(e[i] == d[i]);
                } else {
                    assert(e[i] == d[i] && e[j] == d[j]);
                }
            }
        }
    }
}

/// A text in a concatenation is in one of its parts.
pub(crate) proof fn lemma_concat_contains(a: Seq<Seq<char>>, b: Seq<Seq<char>>, x: Seq<char>)
    requires
        (a + b).contains(x),
    ensures
        a.contains(x) || b.contains(x),
{
    let k = choose|k: int| 0 <= k < (a + b).len() && (a + b)[k] == x;
    if k < a.len() {
        assert(a[k] == x);
    } else {
        assert(b[k - a.len()] == x);
    }
}


// ---------------------------------------------------------------------------
// Paths compared by their components
// ---------------------------------------------------------------------------

/// A piece between separators that names a directory entry: neither empty
/// nor `.`.
pub open spec fn is_normal_part(x: Seq<char>) -> bool {
    x.len() > 0 && x != "."@
}

/// The pieces of `parts` that name directory entries, in order.
pub open spec fn normal_parts(parts: Seq<Seq<char>>) -> Seq<Seq<char>>
    decreases parts.len(),
{
    if parts.len() == 0 {
        parts
    } else if is_normal_part(parts.last()) {
        normal_parts(parts.drop_last()).push(parts.last())
    } else {
        normal_parts(parts.drop_last())
    }
}

/// The components of a Unix path (`Path::components`): `/` for a path that
/// starts at the root, `.` for a relative path whose first piece is `.`,
/// then the pieces between separators other than empty ones and `.`. Two
/// texts name the same path when their components are equal, so repeated
/// separators, a trailing separator and inner `.` pieces make no difference.
pub open spec fn path_key(p: Seq<char>) -> Seq<Seq<char>> {
    let head: Seq<Seq<char>> = if p.len() > 0 && p[0] == '/' {
        seq!["/"@]
    } else if p == "."@ || has_prefix(p, "./"@) {
        seq!["."@]
    } else {
        Seq::empty()
    };
    head + normal_parts(split_char(p, '/'))
}

/// The components of a path (see [`path_key`]).
pub fn path_components(p: &[char]) -> (res: Vec<Vec<char>>)
    ensures
        char_views(res@) == path_key(p@),
{
    let mut out: Vec<Vec<char>> = Vec::new();
    let dot = str_chars(".");
    let dot_slash = str_chars("./");
    if p.len() > 0 && p[0] == '/' {
        out.push(str_chars("/"));
        assert(char_views(out@) =~= seq!["/"@]);
    } else if chars_eq(p, dot.as_slice()) || starts_with(p, dot_slash.as_slice()) {
        out.push(str_chars("."));
        assert(char_views(out@) =~= seq!["."@]);
    } else {
        assert(char_views(out@) =~= Seq::<Seq<char>>::empty());
    }
    let ghost head = char_views(out@);
    let parts = split_at_char(p, '/');
    let ghost pv = char_views(parts@);
    assert(pv =~= split_char(p@, '/'));
    assert(pv.take(0) =~= Seq::<Seq<char>>::empty());
    assert(head + normal_parts(pv.take(0)) =~= head);
    let mut i: usize = 0;
    while i < parts.len()
        invariant
            i <= parts@.len(),
            pv == char_views(parts@),
            dot@ == "."@,
            char_views(out@) == head + normal_parts(pv.take(i as int)),
        decreases parts@.len() - i,
    {
        proof {
            assert(pv.take(i + 1).drop_last() =~= pv.take(i as int));
            assert(pv.take(i + 1).last() == parts@[i as int]@);
        }
        if parts[i].len() > 0 && !chars_eq(parts[i].as_slice(), dot.as_slice()) {
            let piece = slice_chars(parts[i].as_slice(), 0, parts[i].len());
            assert(piece@ =~= parts@[i as int]@);
            let ghost before = char_views(out@);
            out.push(piece);
            assert(char_views(out@) =~= before.push(piece@));
        }
        i += 1;
    }
    assert(pv.take(i as int) =~= pv);
    out
}

/// Two lists of components are equal.
fn same_components(a: &Vec<Vec<char>>, b: &Vec<Vec<char>>) -> (res: bool)
    ensures
        res == (char_views(a@) == char_views(b@)),
{
    if a.len() != b.len() {
        assert(char_views(a@).len() != char_views(b@).len());
        return false;
    }
    let mut i: usize = 0;
    while i < a.len()
        invariant
            a@.len() == b@.len(),
            i <= a@.len(),
            forall|j: int| 0 <= j < i ==> a@[j]@ == b@[j]@,
        decreases a@.len() - i,
    {
        if !chars_eq(a[i].as_slice(), b[i].as_slice()) {
            assert(char_views(a@)[i as int] != char_views(b@)[i as int]);
            return false;
        }
        i += 1;
    }
    assert(char_views(a@) =~= char_views(b@));
    true
}

/// `s` holds a path equal to `x` (see [`path_key`]).
pub open spec fn has_path(s: Seq<Seq<char>>, x: Seq<char>) -> bool {
    exists|i: int| 0 <= i < s.len() && path_key(#[trigger] s[i]) == path_key(x)
}

/// The list after offering the path `x` (what [`push_unique`] does): `x` is
/// appended unless the same path is already there.
pub open spec fn with_unique_path(s: Seq<Seq<char>>, x: Seq<char>) -> Seq<Seq<char>> {
    if has_path(s, x) {
        s
    } else {
        s.push(x)
    }
}

/// `s` with every path dropped that names the same path as an earlier
/// one, order kept; the first text of each path stays.
pub open spec fn dedup_paths(s: Seq<Seq<char>>) -> Seq<Seq<char>>
    decreases s.len(),
{
    if s.len() == 0 {
        s
    } else {
        with_unique_path(dedup_paths(s.drop_last()), s.last())
    }
}

/// No path occurs twice, in whatever spelling.
pub open spec fn no_dup_paths(s: Seq<Seq<char>>) -> bool {
    forall|i: int, j: int| 0 <= i < j < s.len() ==> path_key(s[i]) != path_key(s[j])
}

/// Appends `item` unless the same path is already in `items`.
pub fn push_unique(items: &mut Vec<String>, item: String)
    ensures
        string_views(final(items)@) == with_unique_path(string_views(old(items)@), item@),
{
    let ic = str_chars(item.as_str());
    let key = path_components(ic.as_slice());
    let mut i: usize = 0;
    while i < items.len()
        invariant
            i <= items@.len(),
            char_views(key@) == path_key(item@),
            forall|j: int| 0 <= j < i ==> path_key(#[trigger] items@[j]@) != path_key(item@),
        decreases items@.len() - i,
    {
        let c = str_chars(items[i].as_str());
        let k = path_components(c.as_slice());
        if same_components(&k, &key) {
            assert(string_views(items@)[i as int] == items@[i as int]@);
            assert(has_path(string_views(items@), item@));
            return;
        }
        i += 1;
    }
    assert(!has_path(string_views(items@), item@)) by {
        if has_path(string_views(items@), item@) {
            let k = choose|k: int|
                0 <= k < string_views(items@).len() && path_key(string_views(items@)[k]) == path_key(
                    item@,
                );
            assert(string_views(items@)[k] == items@[k]@);
        }
    }
    let ghost before = items@;
    items.push(item);
    assert(string_views(items@) =~= string_views(before).push(item@));
}

/// The paths of `items`, each later spelling of an earlier path dropped
/// (see [`dedup_paths`]), as strings.
pub fn dedup_to_strings(items: Vec<Vec<char>>) -> (res: Vec<String>)
    ensures
        string_views(res@) == dedup_paths(char_views(items@)),
{
    let mut out: Vec<String> = Vec::new();
    let mut i: usize = 0;
    while i < items.len()
        invariant
            i <= items@.len(),
            string_views(out@) == dedup_paths(char_views(items@).take(i as int)),
        decreases items@.len() - i,
    {
        let s = string_from_chars(items[i].as_slice());
        proof {
            let t = char_views(items@).take(i + 1);
            assert(t.drop_last() =~= char_views(items@).take(i as int));
            assert(t.last() == items@[i as int]@);
        }
        push_unique(&mut out, s);
        i += 1;
    }
    assert(char_views(items@).take(items@.len() as int) =~= char_views(items@));
    out
}

/// Appends every path of `items` that is not yet present, keeping the list
/// equal to the duplicate-free form of everything offered so far.
pub fn extend_unique(out: &mut Vec<String>, items: &Vec<String>, Ghost(acc): Ghost<Seq<Seq<char>>>)
    requires
        string_views(old(out)@) == dedup_paths(acc),
    ensures
        string_views(final(out)@) == dedup_paths(acc + string_views(items@)),
{
    let mut i: usize = 0;
    let ghost mut cur = acc;
    assert(acc + string_views(items@).take(0) =~= acc);
    while i < items.len()
        invariant
            i <= items@.len(),
            cur == acc + string_views(items@).take(i as int),
            string_views(out@) == dedup_paths(cur),
        decreases items@.len() - i,
    {
        let p = items[i].clone();
        proof {
            let next = cur.push(p@);
            assert(next.drop_last() =~= cur);
            assert(acc + string_views(items@).take(i + 1) =~= next);
            cur = next;
        }
        push_unique(out, p);
        i += 1;
    }
    assert(string_views(items@).take(i as int) =~= string_views(items@));
}

/// Removing repeated paths leaves every path once, leaves exactly the paths
/// of the list it started from, and keeps only texts of that list.
pub proof fn lemma_dedup_paths(s: Seq<Seq<char>>)
    ensures
        no_dup_paths(dedup_paths(s)),
        forall|x: Seq<char>| has_path(dedup_paths(s), x) <==> has_path(s, x),
        forall|x: Seq<char>| dedup_paths(s).contains(x) ==> s.contains(x),
    decreases s.len(),
{
    if s.len() > 0 {
        let p = s.drop_last();
        lemma_dedup_paths(p);
        let d = dedup_paths(p);
        let l = s.last();
        let e = dedup_paths(s);
        assert forall|x: Seq<char>| has_path(e, x) <==> has_path(s, x) by {
            if has_path(s, x) {
                let k = choose|k: int| 0 <= k < s.len() && path_key(s[k]) == path_key(x);
                if k < s.len() - 1 {
                    assert(p[k] == s[k]);
                    assert(has_path(p, x));
                    assert(has_path(d, x));
                    let m = choose|m: int| 0 <= m < d.len() && path_key(d[m]) == path_key(x);
                    if !has_path(d, l) {
                        assert(d.push(l)[m] == d[m]);
                    }
                } else if has_path(d, l) {
                    let m = choose|m: int| 0 <= m < d.len() && path_key(d[m]) == path_key(l);
                    assert(e[m] == d[m]);
                } else {
                    assert(d.push(l)[d.len() as int] == l);
                }
            }
            if has_path(e, x) {
                let m = choose|m: int| 0 <= m < e.len() && path_key(e[m]) == path_key(x);
                if m < d.len() {
                    assert(e[m] == d[m]);
                    assert(has_path(d, x));
                    assert(has_path(p, x));
                    let k = choose|k: int| 0 <= k < p.len() && path_key(p[k]) == path_key(x);
                    assert(s[k] == p[k]);
                } else {
                    assert(e[m] == l);
                    assert(s[s.len() - 1] == l);
                }
            }
        }
        assert forall|x: Seq<char>| e.contains(x) implies s.contains(x) by {
            let m = choose|m: int| 0 <= m < e.len() && e[m] == x;
            if m < d.len() {
                assert(e[m] == d[m]);
                assert(d.contains(x));
                assert(p.contains(x));
                let k = choose|k: int| 0 <= k < p.len() && p[k] == x;
                assert(s[k] == x);
            } else {
                assert(s[s.len() - 1] == x);
            }
        }
        if !has_path(d, l) {
            assert forall|i: int, j: int| 0 <= i < j < e.len() implies path_key(e[i]) != path_key(
                e[j],
            ) by {
                if j == d.len() {
                    assert(e[i] == d[i]);
                    assert(e[j] == l);
                    if path_key(e[i]) == path_key(e[j]) {
                        assert(path_key(d[i]) == path_key(l));
                        assert(has_path(d, l));
                    }
                } else {
                    assert(e[i] == d[i] && e[j] == d[j]);
                }
            }
        }
    }
}

/// A list without repeated paths is its own duplicate-free form.
pub proof fn lemma_dedup_paths_noop(s: Seq<Seq<char>>)
    requires
        no_dup_paths(s),
    ensures
        dedup_paths(s) == s,
    decreases s.len(),
{
    if s.len() > 0 {
        let p = s.drop_last();
        assert(no_dup_paths(p)) by {
            assert forall|i: int, j: int| 0 <= i < j < p.len() implies path_key(p[i]) != path_key(
                p[j],
            ) by {
                assert(p[i] == s[i] && p[j] == s[j]);
            }
        }
        lemma_dedup_paths_noop(p);
        if has_path(p, s.last()) {
            let k = choose|k: int| 0 <= k < p.len() && path_key(p[k]) == path_key(s.last());
            assert(p[k] == s[k]);
            assert(path_key(s[k]) != path_key(s[s.len() - 1]));
        }
        assert(p.push(s.last()) =~= s);
    }
}

/// Removing the repeated paths of a first part before appending more
/// changes nothing: `dedup_paths(a + b) == dedup_paths(dedup_paths(a) + b)`.
pub proof fn lemma_dedup_paths_prefix(a: Seq<Seq<char>>, b: Seq<Seq<char>>)
    ensures
        dedup_paths(a + b) == dedup_paths(dedup_paths(a) + b),
    decreases b.len(),
{
    if b.len() == 0 {
        assert(a + b =~= a);
        assert(dedup_paths(a) + b =~= dedup_paths(a));
        lemma_dedup_paths(a);
        lemma_dedup_paths_noop(dedup_paths(a));
    } else {
        lemma_dedup_paths_prefix(a, b.drop_last());
        assert((a + b).drop_last() =~= a + b.drop_last());
        assert((dedup_paths(a) + b).drop_last() =~= dedup_paths(a) + b.drop_last());
        assert((a + b).last() == b.last());
        assert((dedup_paths(a) + b).last() == b.last());
    }
}

/// A path of `y` is a path of `x + y`.
proof fn lemma_has_path_suffix(x: Seq<Seq<char>>, y: Seq<Seq<char>>, l: Seq<char>)
    requires
        has_path(y, l),
    ensures
        has_path(x + y, l),
{
    let k = choose|k: int| 0 <= k < y.len() && path_key(y[k]) == path_key(l);
    assert((x + y)[x.len() + k] == y[k]);
}

/// Removing the repeated paths of a last part before appending it changes
/// nothing: `dedup_paths(x + y) == dedup_paths(x + dedup_paths(y))`.
pub proof fn lemma_dedup_paths_suffix(x: Seq<Seq<char>>, y: Seq<Seq<char>>)
    ensures
        dedup_paths(x + y) == dedup_paths(x + dedup_paths(y)),
    decreases y.len(),
{
    if y.len() == 0 {
        assert(x + dedup_paths(y) =~= x + y);
    } else {
        let yp = y.drop_last();
        let l = y.last();
        lemma_dedup_paths_suffix(x, yp);
        assert((x + y).drop_last() =~= x + yp);
        assert((x + y).last() == l);
        let dy = dedup_paths(yp);
        if has_path(dy, l) {
            lemma_dedup_paths(yp);
            lemma_has_path_suffix(x, yp, l);
            lemma_dedup_paths(x + yp);
        } else {
            assert(x + dedup_paths(y) =~= (x + dy).push(l));
            assert((x + dy).push(l).drop_last() =~= x + dy);
        }
    }
}

/// Offering a path leaves that path in the list, keeps every text already
/// there, keeps a list without repeated paths free of them, and offering the
/// same path again, in any spelling, changes nothing.
pub proof fn lemma_with_unique(s: Seq<Seq<char>>, x: Seq<char>, y: Seq<char>)
    requires
        path_key(y) == path_key(x),
    ensures
        has_path(with_unique_path(s, x), x),
        forall|z: Seq<char>| s.contains(z) ==> with_unique_path(s, x).contains(z),
        no_dup_paths(s) ==> no_dup_paths(with_unique_path(s, x)),
        with_unique_path(with_unique_path(s, x), y) == with_unique_path(s, x),
{
    let w = with_unique_path(s, x);
    if !has_path(s, x) {
        assert(w[s.len() as int] == x);
        assert forall|z: Seq<char>| s.contains(z) implies w.contains(z) by {
            let k = choose|k: int| 0 <= k < s.len() && s[k] == z;
            assert(w[k] == z);
        }
        if no_dup_paths(s) {
            assert forall|i: int, j: int| 0 <= i < j < w.len() implies path_key(w[i]) != path_key(
                w[j],
            ) by {
                if j == s.len() {
                    assert(w[i] == s[i]);
                    if path_key(w[i]) == path_key(w[j]) {
                        assert(has_path(s, x));
                    }
                } else {
                    assert(w[i] == s[i] && w[j] == s[j]);
                }
            }
        }
    } else {
        let k = choose|k: int| 0 <= k < s.len() && path_key(s[k]) == path_key(x);
        assert(w[k] == s[k]);
    }
    assert(has_path(w, x));
    let k = choose|k: int| 0 <= k < w.len() && path_key(w[k]) == path_key(x);
    assert(path_key(w[k]) == path_key(y));
    assert(has_path(w, y));
}

} // verus!
