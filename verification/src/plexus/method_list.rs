//! The sorted list of fully qualified method names (`namespace.method`)
//! that a hub reports for itself and its activations.

use vstd::prelude::*;
use crate::text::{concat3, views};
use super::plexus::dotted;

verus! {

broadcast use vstd::seq_lib::group_to_multiset_ensures;

/// Lexicographic order of texts by character (for UTF-8 strings the same
/// as the byte order that `String`'s `Ord` uses): `a` comes strictly
/// before `b`.
pub open spec fn text_lt(a: Seq<char>, b: Seq<char>) -> bool
    decreases a.len(),
{
    if b.len() == 0 {
        false
    } else if a.len() == 0 {
        true
    } else if a[0] != b[0] {
        a[0] < b[0]
    } else {
        text_lt(a.drop_first(), b.drop_first())
    }
}

/// The order is `str`'s: at the first position where two texts differ,
/// the one whose character has the smaller code comes first.
pub proof fn lemma_text_lt_first_difference(a: Seq<char>, b: Seq<char>, i: int)
    requires
        0 <= i < a.len(),
        i < b.len(),
        a.take(i) == b.take(i),
        a[i] != b[i],
    ensures
        text_lt(a, b) == ((a[i] as int) < (b[i] as int)),
    decreases i,
{
    if i > 0 {
        assert(a[0] == a.take(i)[0]);
        assert(b[0] == b.take(i)[0]);
        assert(a.drop_first().take(i - 1) =~= b.drop_first().take(i - 1)) by {
            assert forall|j: int| 0 <= j < i - 1 implies a.drop_first()[j] == b.drop_first()[j] by {
                assert(a.take(i)[j + 1] == b.take(i)[j + 1]);
                assert(a.drop_first()[j] == a[j + 1]);
                assert(b.drop_first()[j] == b[j + 1]);
                assert(a.take(i)[j + 1] == a[j + 1]);
                assert(b.take(i)[j + 1] == b[j + 1]);
            }
        }
        lemma_text_lt_first_difference(a.drop_first(), b.drop_first(), i - 1);
        assert(a.drop_first()[i - 1] == a[i]);
        assert(b.drop_first()[i - 1] == b[i]);
    } else {
        assert((a[0] < b[0]) == ((a[0] as int) < (b[0] as int)));
    }
}

/// A proper prefix comes before the text it begins, and no text comes
/// before one of its prefixes.
pub proof fn lemma_text_lt_prefix(a: Seq<char>, b: Seq<char>)
    requires
        a.len() <= b.len(),
        b.take(a.len() as int) == a,
    ensures
        text_lt(a, b) == (a.len() < b.len()),
        !text_lt(b, a),
    decreases a.len(),
{
    if a.len() > 0 {
        assert(a[0] == b.take(a.len() as int)[0]);
        assert(b.drop_first().take(a.drop_first().len() as int) =~= a.drop_first()) by {
            assert forall|j: int| 0 <= j < a.len() - 1 implies b.drop_first()[j] == a.drop_first()[j] by {
                assert(b.take(a.len() as int)[j + 1] == a[j + 1]);
            }
        }
        lemma_text_lt_prefix(a.drop_first(), b.drop_first());
    }
}

/// No text comes before itself, and of two texts at most one comes first.
pub proof fn lemma_text_lt_asymmetric(a: Seq<char>, b: Seq<char>)
    ensures
        text_lt(a, b) ==> !text_lt(b, a),
    decreases a.len(),
{
    if a.len() > 0 && b.len() > 0 && a[0] == b[0] {
        lemma_text_lt_asymmetric(a.drop_first(), b.drop_first());
    }
}

/// The order is transitive.
pub proof fn lemma_text_lt_transitive(a: Seq<char>, b: Seq<char>, c: Seq<char>)
    ensures
        text_lt(a, b) && text_lt(b, c) ==> text_lt(a, c),
    decreases a.len(),
{
    if a.len() > 0 && b.len() > 0 && c.len() > 0 && a[0] == b[0] && b[0] == c[0] {
        lemma_text_lt_transitive(a.drop_first(), b.drop_first(), c.drop_first());
    }
}

/// Of two different texts, one comes first.
pub proof fn lemma_text_lt_total(a: Seq<char>, b: Seq<char>)
    ensures
        a != b ==> text_lt(a, b) || text_lt(b, a),
    decreases a.len(),
{
    if a.len() == 0 && b.len() == 0 {
        assert(a =~= b);
    } else if a.len() > 0 && b.len() > 0 && a[0] == b[0] {
        lemma_text_lt_total(a.drop_first(), b.drop_first());
        if a.drop_first() == b.drop_first() {
            assert(a =~= b) by {
                assert(a.len() == a.drop_first().len() + 1);
                assert(b.len() == b.drop_first().len() + 1);
                assert forall|i: int| 0 <= i < a.len() implies a[i] == b[i] by {
                    if i > 0 {
                        assert(a[i] == a.drop_first()[i - 1]);
                        assert(b[i] == b.drop_first()[i - 1]);
                    }
                }
            }
        }
    }
}

/// `a` before `b`, and `b` not after `c`, put `a` before `c`.
proof fn lemma_lt_le(a: Seq<char>, b: Seq<char>, c: Seq<char>)
    requires
        text_lt(a, b),
        !text_lt(c, b),
    ensures
        text_lt(a, c),
{
    lemma_text_lt_total(b, c);
    lemma_text_lt_transitive(a, b, c);
}

/// Whether `s` is in ascending order.
pub open spec fn sorted_text(s: Seq<Seq<char>>) -> bool {
    forall|i: int, j: int| 0 <= i < j < s.len() ==> !text_lt(#[trigger] s[j], #[trigger] s[i])
}

/// Whether `a` comes strictly before `b`.
pub fn text_less(a: &str, b: &str) -> (r: bool)
    ensures
        r == text_lt(a@, b@),
{
    let n = a.unicode_len();
    let m = b.unicode_len();
    let mut i: usize = 0;
    assert(a@.skip(0) =~= a@);
    assert(b@.skip(0) =~= b@);
    while i < n && i < m
        invariant
            n == a@.len(),
            m == b@.len(),
            i <= n,
            i <= m,
            text_lt(a@, b@) == text_lt(a@.skip(i as int), b@.skip(i as int)),
        decreases n - i,
    {
        let x = a.get_char(i);
        let y = b.get_char(i);
        assert(a@.skip(i as int)[0] == x);
        assert(b@.skip(i as int)[0] == y);
        if x != y {
            return x < y;
        }
        assert(a@.skip(i as int).drop_first() =~= a@.skip(i + 1));
        assert(b@.skip(i as int).drop_first() =~= b@.skip(i + 1));
        i = i + 1;
    }
    i < m
}

/// Inserts `x` into the ascending `v`, after every name not after it.
fn insert_sorted(v: &mut Vec<String>, x: String)
    requires
        sorted_text(views(old(v)@)),
    ensures
        sorted_text(views(final(v)@)),
        views(final(v)@).to_multiset() == views(old(v)@).to_multiset().insert(x@),
{
    let ghost s = views(v@);
    let mut p: usize = 0;
    while p < v.len() && !text_less(x.as_str(), v[p].as_str())
        invariant
            s == views(v@),
            p <= v@.len(),
            forall|j: int| 0 <= j < p ==> !text_lt(x@, #[trigger] s[j]),
        decreases v@.len() - p,
    {
        p = p + 1;
    }
    proof {
        assert forall|j: int| p <= j < s.len() implies text_lt(x@, #[trigger] s[j]) by {
            assert(text_lt(x@, s[p as int]));
            if j > p {
                lemma_lt_le(x@, s[p as int], s[j]);
            }
        }
    }
    let ghost xv = x@;
    v.insert(p, x);
    proof {
        let t = views(v@);
        assert(t =~= s.insert(p as int, xv));
        assert forall|i: int, j: int| 0 <= i < j < t.len() implies !text_lt(#[trigger] t[j], #[trigger] t[i]) by {
            if j < p {
            } else if j == p {
            } else if i < p {
                assert(t[j] == s[j - 1]);
            } else if i == p {
                assert(t[j] == s[j - 1]);
                lemma_text_lt_asymmetric(xv, s[j - 1]);
            } else {
                assert(t[i] == s[i - 1]);
                assert(t[j] == s[j - 1]);
            }
        }
        vstd::seq_lib::to_multiset_insert(s, p as int, xv);
    }
}

/// The qualified names of the methods of each (namespace, methods) group,
/// group by group.
pub open spec fn qualified(groups: Seq<(Seq<char>, Seq<Seq<char>>)>) -> Seq<Seq<char>>
    decreases groups.len(),
{
    if groups.len() == 0 {
        Seq::empty()
    } else {
        qualified(groups.drop_last()) + groups.last().1.map_values(
            |m: Seq<char>| dotted(groups.last().0, m),
        )
    }
}

/// The views of (namespace, methods) groups.
pub open spec fn group_views(groups: Seq<(String, Vec<String>)>) -> Seq<(Seq<char>, Seq<Seq<char>>)> {
    groups.map_values(|g: (String, Vec<String>)| (g.0@, views(g.1@)))
}

/// Every method of every group as `namespace.method`, in ascending order.
pub fn qualified_method_names(groups: &Vec<(String, Vec<String>)>) -> (names: Vec<String>)
    ensures
        sorted_text(views(names@)),
        views(names@).to_multiset() == qualified(group_views(groups@)).to_multiset(),
{
    let ghost gv = group_views(groups@);
    let mut names: Vec<String> = Vec::new();
    let mut g: usize = 0;
    assert(gv.take(0) =~= Seq::<(Seq<char>, Seq<Seq<char>>)>::empty());
    assert(views(names@) =~= Seq::<Seq<char>>::empty());
    while g < groups.len()
        invariant
            gv == group_views(groups@),
            g <= groups@.len(),
            sorted_text(views(names@)),
            views(names@).to_multiset() == qualified(gv.take(g as int)).to_multiset(),
        decreases groups@.len() - g,
    {
        let ns = &groups[g].0;
        let methods = &groups[g].1;
        let ghost base = qualified(gv.take(g as int));
        let ghost mv = views(methods@);
        let mut k: usize = 0;
        assert(mv.take(0).map_values(|m: Seq<char>| dotted(ns@, m)) =~= Seq::<Seq<char>>::empty());
        assert(base + Seq::<Seq<char>>::empty() =~= base);
        while k < methods.len()
            invariant
                gv == group_views(groups@),
                g < groups@.len(),
                ns == &groups@[g as int].0,
                methods == &groups@[g as int].1,
                mv == views(methods@),
                base == qualified(gv.take(g as int)),
                k <= methods@.len(),
                sorted_text(views(names@)),
                views(names@).to_multiset()
                    == (base + mv.take(k as int).map_values(|m: Seq<char>| dotted(ns@, m))).to_multiset(),
            decreases methods@.len() - k,
        {
            let name = concat3(ns.as_str(), ".", methods[k].as_str());
            let ghost before = base + mv.take(k as int).map_values(|m: Seq<char>| dotted(ns@, m));
            insert_sorted(&mut names, name);
            proof {
                let after = base + mv.take(k + 1).map_values(|m: Seq<char>| dotted(ns@, m));
                assert(mv[k as int] == methods@[k as int]@);
                assert(after =~= before.push(name@));
                vstd::seq_lib::to_multiset_build(before, name@);
            }
            k = k + 1;
        }
        proof {
            assert(gv.take(g + 1).drop_last() =~= gv.take(g as int));
            assert(gv.take(g + 1).last() == gv[g as int]);
            assert(gv[g as int] == (ns@, mv));
            assert(mv.take(methods@.len() as int) =~= mv);
        }
        g = g + 1;
    }
    assert(gv.take(groups@.len() as int) =~= gv);
    names
}

} // verus!
