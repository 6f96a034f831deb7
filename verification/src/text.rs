//! Character-sequence utilities with exact specifications: equality,
//! prefixes, splitting on a delimiter and replacing a pattern.

use vstd::prelude::*;
use vstd::string::*;

verus! {

/// `p` is a prefix of `s`.
pub open spec fn starts_with(s: Seq<char>, p: Seq<char>) -> bool {
    p.len() <= s.len() && s.subrange(0, p.len() as int) == p
}

/// `p` occurs in `s` at position `i`.
pub open spec fn occurs_at(s: Seq<char>, i: int, p: Seq<char>) -> bool {
    0 <= i && i + p.len() <= s.len() && s.subrange(i, i + p.len()) == p
}

/// The pieces of `s` between occurrences of `d`, in order; there is always
/// at least one piece.
pub open spec fn split_on(s: Seq<char>, d: char) -> Seq<Seq<char>>
    decreases s.len(),
{
    if s.len() == 0 {
        seq![Seq::<char>::empty()]
    } else {
        let init = split_on(s.drop_last(), d);
        if s.last() == d {
            init.push(Seq::<char>::empty())
        } else {
            init.update(init.len() - 1, init.last().push(s.last()))
        }
    }
}

/// `s` with every occurrence of `p`, scanned from the left without
/// overlap, replaced by `r`.
pub open spec fn replace_all(s: Seq<char>, p: Seq<char>, r: Seq<char>) -> Seq<char>
    decreases s.len(),
{
    if p.len() == 0 || s.len() == 0 {
        s
    } else if starts_with(s, p) {
        r + replace_all(s.subrange(p.len() as int, s.len() as int), p, r)
    } else {
        seq![s[0]] + replace_all(s.subrange(1, s.len() as int), p, r)
    }
}

/// `s` with leading copies of `p` removed for as long as it starts with `p`.
pub open spec fn strip_prefixes(s: Seq<char>, p: Seq<char>) -> Seq<char>
    decreases s.len(),
{
    if p.len() > 0 && starts_with(s, p) {
        strip_prefixes(s.subrange(p.len() as int, s.len() as int), p)
    } else {
        s
    }
}

pub proof fn lemma_split_on_nonempty(s: Seq<char>, d: char)
    ensures
        split_on(s, d).len() >= 1,
    decreases s.len(),
{
    if s.len() > 0 {
        lemma_split_on_nonempty(s.drop_last(), d);
    }
}

/// A string holding the characters of `s`.
pub fn owned(s: &str) -> (r: String)
    ensures
        r@ == s@,
{
    String::from_str(s)
}

/// `a` followed by `b`.
pub fn concat(a: &str, b: &str) -> (r: String)
    ensures
        r@ == a@ + b@,
{
    let mut r = String::from_str(a);
    r.append(b);
    r
}

/// Character-wise equality.
pub fn text_eq(a: &str, b: &str) -> (r: bool)
    ensures
        r == (a@ == b@),
{
    let n = a.unicode_len();
    if n != b.unicode_len() {
        return false;
    }
    let mut i: usize = 0;
    while i < n
        invariant
            n == a@.len(),
            n == b@.len(),
            i <= n,
            forall|j: int| 0 <= j < i ==> a@[j] == b@[j],
        decreases n - i,
    {
        if a.get_char(i) != b.get_char(i) {
            return false;
        }
        i = i + 1;
    }
    assert(a@ =~= b@);
    true
}

/// Whether `p` occurs in `s` at character position `i`.
pub fn matches_at(s: &str, i: usize, p: &str) -> (r: bool)
    ensures
        r == occurs_at(s@, i as int, p@),
{
    let n = s.unicode_len();
    let m = p.unicode_len();
    if i > n || m > n - i {
        return false;
    }
    let mut k: usize = 0;
    while k < m
        invariant
            n == s@.len(),
            m == p@.len(),
            i + m <= n,
            k <= m,
            forall|j: int| 0 <= j < k ==> s@[i + j] == p@[j],
        decreases m - k,
    {
        if s.get_char(i + k) != p.get_char(k) {
            assert(s@.subrange(i as int, i + m)[k as int] != p@[k as int]);
            return false;
        }
        k = k + 1;
    }
    assert(s@.subrange(i as int, i + m) =~= p@);
    true
}

/// Whether `s` starts with `p`.
pub fn has_prefix(s: &str, p: &str) -> (r: bool)
    ensures
        r == starts_with(s@, p@),
{
    matches_at(s, 0, p)
}


/// The character views of a sequence of strings.
pub open spec fn views(v: Seq<String>) -> Seq<Seq<char>> {
    v.map_values(|x: String| x@)
}

/// The characters of `s` from position `from` up to `to`.
pub fn slice(s: &str, from: usize, to: usize) -> (r: String)
    requires
        from <= to <= s@.len(),
    ensures
        r@ == s@.subrange(from as int, to as int),
{
    String::from_str(s.substring_char(from, to))
}

/// The pieces of `s` between occurrences of `d`.
pub fn split_char(s: &str, d: char) -> (r: Vec<String>)
    ensures
        views(r@) == split_on(s@, d),
{
    let n = s.unicode_len();
    let mut pieces: Vec<String> = Vec::new();
    let mut start: usize = 0;
    let mut i: usize = 0;
    assert(s@.subrange(0, 0) =~= Seq::<char>::empty());
    assert(views(pieces@).push(s@.subrange(0, 0)) =~= seq![Seq::<char>::empty()]);
    assert(s@.take(0) =~= Seq::<char>::empty());
    while i < n
        invariant
            n == s@.len(),
            start <= i <= n,
            split_on(s@.take(i as int), d) == views(pieces@).push(s@.subrange(start as int, i as int)),
        decreases n - i,
    {
        let c = s.get_char(i);
        let ghost prev = split_on(s@.take(i as int), d);
        assert(s@.take(i + 1).drop_last() =~= s@.take(i as int));
        assert(s@.take(i + 1).last() == c);
        if c == d {
            let piece = slice(s, start, i);
            let ghost old_p = pieces@;
            let ghost pv = piece@;
            pieces.push(piece);
            assert(views(pieces@) =~= views(old_p).push(pv));
            start = i + 1;
            assert(s@.subrange(start as int, i + 1) =~= Seq::<char>::empty());
            assert(split_on(s@.take(i + 1), d) =~= views(pieces@).push(s@.subrange(start as int, i + 1)));
        } else {
            assert(s@.subrange(start as int, i as int).push(c) =~= s@.subrange(start as int, i + 1));
            assert(split_on(s@.take(i + 1), d) =~= views(pieces@).push(s@.subrange(start as int, i + 1)));
        }
        i = i + 1;
    }
    assert(s@.take(n as int) =~= s@);
    let last = slice(s, start, n);
    let ghost old_p = pieces@;
    let ghost lv = last@;
    pieces.push(last);
    assert(views(pieces@) =~= views(old_p).push(lv));
    assert(views(pieces@) =~= split_on(s@, d));
    pieces
}


/// `s` with every occurrence of `p` (leftmost first, without overlap)
/// replaced by `r`.
pub fn replace(s: &str, p: &str, r: &str) -> (out: String)
    requires
        p@.len() > 0,
    ensures
        out@ == replace_all(s@, p@, r@),
{
    let n = s.unicode_len();
    let m = p.unicode_len();
    let mut out = String::new();
    let mut i: usize = 0;
    assert(s@.subrange(0, n as int) =~= s@);
    while i < n
        invariant
            n == s@.len(),
            m == p@.len(),
            m > 0,
            i <= n,
            out@ + replace_all(s@.subrange(i as int, n as int), p@, r@) == replace_all(s@, p@, r@),
        decreases n - i,
    {
        let ghost t = s@.subrange(i as int, n as int);
        if matches_at(s, i, p) {
            assert(t.subrange(0, m as int) =~= s@.subrange(i as int, i + m));
            assert(t.subrange(m as int, t.len() as int) =~= s@.subrange(i + m, n as int));
            out.append(r);
            i = i + m;
        } else {
            assert(!starts_with(t, p@)) by {
                if m <= t.len() {
                    assert(t.subrange(0, m as int) =~= s@.subrange(i as int, i + m));
                }
            }
            assert(t.subrange(1, t.len() as int) =~= s@.subrange(i + 1, n as int));
            let one = slice(s, i, i + 1);
            assert(one@ =~= seq![t[0]]);
            out.append(one.as_str());
            i = i + 1;
        }
        assert(out@ + replace_all(s@.subrange(i as int, n as int), p@, r@) =~= replace_all(s@, p@, r@));
    }
    assert(s@.subrange(n as int, n as int) =~= Seq::<char>::empty());
    assert(out@ =~= replace_all(s@, p@, r@));
    out
}

/// `s` with leading copies of `p` removed.
pub fn strip_all_prefixes(s: &str, p: &str) -> (out: String)
    ensures
        out@ == strip_prefixes(s@, p@),
{
    let n = s.unicode_len();
    let m = p.unicode_len();
    let mut i: usize = 0;
    assert(s@.subrange(0, n as int) =~= s@);
    if m == 0 {
        return slice(s, 0, n);
    }
    while matches_at(s, i, p)
        invariant
            n == s@.len(),
            m == p@.len(),
            m > 0,
            i <= n,
            strip_prefixes(s@.subrange(i as int, n as int), p@) == strip_prefixes(s@, p@),
        decreases n - i,
    {
        let ghost t = s@.subrange(i as int, n as int);
        assert(t.subrange(0, m as int) =~= s@.subrange(i as int, i + m));
        assert(t.subrange(m as int, t.len() as int) =~= s@.subrange(i + m, n as int));
        i = i + m;
    }
    let ghost t = s@.subrange(i as int, n as int);
    assert(!starts_with(t, p@)) by {
        if m <= t.len() {
            assert(t.subrange(0, m as int) =~= s@.subrange(i as int, i + m));
        }
    }
    slice(s, i, n)
}


/// Calls `String::push`. Claimed: the string afterwards is the string before
/// with `c` appended, as std documents.
#[verifier::external_body]
pub(crate) fn push_char(s: &mut String, c: char)
    ensures
        final(s)@ == old(s)@.push(c),
{
    s.push(c)
}


/// The pieces `ps` joined back together with `d` between them.
pub open spec fn join_with(ps: Seq<Seq<char>>, d: char) -> Seq<char>
    decreases ps.len(),
{
    if ps.len() <= 1 {
        if ps.len() == 1 {
            ps[0]
        } else {
            Seq::empty()
        }
    } else {
        join_with(ps.drop_last(), d).push(d) + ps.last()
    }
}

proof fn lemma_join_extend_last(ps: Seq<Seq<char>>, d: char, c: char)
    requires
        ps.len() >= 1,
    ensures
        join_with(ps.update(ps.len() - 1, ps.last().push(c)), d) == join_with(ps, d).push(c),
{
    let qs = ps.update(ps.len() - 1, ps.last().push(c));
    if ps.len() == 1 {
        assert(qs[0] == ps[0].push(c));
    } else {
        assert(qs.drop_last() =~= ps.drop_last());
        assert(qs.last() == ps.last().push(c));
        assert(join_with(ps.drop_last(), d).push(d) + ps.last().push(c) =~= (join_with(
            ps.drop_last(),
            d,
        ).push(d) + ps.last()).push(c));
    }
}

/// Splitting on `d` and joining the pieces back with `d` gives the string
/// back, and no piece holds `d`.
pub proof fn lemma_split_join(s: Seq<char>, d: char)
    ensures
        join_with(split_on(s, d), d) == s,
        forall|i: int| 0 <= i < split_on(s, d).len() ==> !(#[trigger] split_on(s, d)[i]).contains(d),
    decreases s.len(),
{
    if s.len() == 0 {
        assert(split_on(s, d) =~= seq![Seq::<char>::empty()]);
        assert(s =~= Seq::<char>::empty());
    } else {
        let init = split_on(s.drop_last(), d);
        lemma_split_join(s.drop_last(), d);
        lemma_split_on_nonempty(s.drop_last(), d);
        if s.last() == d {
            let ps = init.push(Seq::<char>::empty());
            assert(ps.drop_last() =~= init);
            assert(join_with(ps, d) =~= s.drop_last().push(d));
            assert(s.drop_last().push(d) =~= s);
            assert forall|i: int| 0 <= i < ps.len() implies !(#[trigger] ps[i]).contains(d) by {
                if i < init.len() {
                    assert(ps[i] == init[i]);
                }
            }
        } else {
            let ps = init.update(init.len() - 1, init.last().push(s.last()));
            lemma_join_extend_last(init, d, s.last());
            assert(s.drop_last().push(s.last()) =~= s);
            assert forall|i: int| 0 <= i < ps.len() implies !(#[trigger] ps[i]).contains(d) by {
                if i == init.len() - 1 {
                    assert(!init[i].contains(d));
                    if ps[i].contains(d) {
                        let k = choose|k: int| 0 <= k < ps[i].len() && ps[i][k] == d;
                        if k < init[i].len() {
                            assert(init[i][k] == d);
                        }
                    }
                } else {
                    assert(ps[i] == init[i]);
                }
            }
        }
    }
}

} // verus!
