//! Deterministic ordering of rolegroups for topology prediction.
//!
//! Rolegroups arrive in arbitrary order. To keep ordinal assignment stable
//! across unrelated reordering of the specification, they are sorted by
//! name before pods are enumerated. The sort is specified as a recursive
//! insertion sort over (name, replica-count) pairs, and two sorted
//! sequences with the same members and distinct names are proved equal.

use crate::strings::{
    lemma_str_le_antisymmetric, lemma_str_le_transitive, lemma_str_lt_asymmetric, spec_str_le,
    spec_str_lt, str_lt,
};
use vstd::multiset::Multiset;
use vstd::prelude::*;

verus! {

/// A sequence of (name, replicas) pairs ordered by name.
pub open spec fn spec_pairs_sorted(s: Seq<(Seq<char>, u16)>) -> bool {
    forall|i: int, j: int|
        #![trigger s[i], s[j]]
        0 <= i < j < s.len() ==> spec_str_le(s[i].0, s[j].0)
}

/// Insertion of a pair into a name-ordered sequence: it goes in front of
/// the first element whose name is not smaller.
pub open spec fn spec_insert_pair(
    e: (Seq<char>, u16),
    s: Seq<(Seq<char>, u16)>,
) -> Seq<(Seq<char>, u16)>
    decreases s.len(),
{
    if s.len() == 0 {
        seq![e]
    } else if spec_str_lt(s[0].0, e.0) {
        seq![s[0]] + spec_insert_pair(e, s.drop_first())
    } else {
        seq![e] + s
    }
}

/// The name-ordered form of a sequence of pairs: each element inserted, in
/// order, into the sorted rest.
pub open spec fn spec_sort_pairs(s: Seq<(Seq<char>, u16)>) -> Seq<(Seq<char>, u16)>
    decreases s.len(),
{
    if s.len() == 0 {
        Seq::empty()
    } else {
        spec_insert_pair(s.last(), spec_sort_pairs(s.drop_last()))
    }
}

/// No two members of the multiset share a name, and no member repeats.
pub open spec fn spec_ms_keys_distinct(m: Multiset<(Seq<char>, u16)>) -> bool {
    &&& forall|a: (Seq<char>, u16), b: (Seq<char>, u16)|
        m.contains(a) && m.contains(b) && a != b ==> a.0 != b.0
    &&& forall|a: (Seq<char>, u16)| #[trigger] m.count(a) <= 1
}

/// No two pairs of the sequence share a name.
pub open spec fn spec_seq_keys_distinct(s: Seq<(Seq<char>, u16)>) -> bool {
    forall|i: int, j: int|
        #![trigger s[i], s[j]]
        0 <= i < j < s.len() ==> s[i].0 != s[j].0
}

/// A sequence without repeated names yields a multiset without repeated
/// names.
pub proof fn lemma_seq_keys_distinct_to_ms(s: Seq<(Seq<char>, u16)>)
    requires
        spec_seq_keys_distinct(s),
    ensures
        spec_ms_keys_distinct(s.to_multiset()),
{
    broadcast use vstd::seq_lib::group_to_multiset_ensures;

    assert(s.no_duplicates());
    s.lemma_multiset_has_no_duplicates();
    let m = s.to_multiset();
    assert(forall|a: (Seq<char>, u16)| #[trigger] m.count(a) <= 1) by {
        assert(forall|a: (Seq<char>, u16)|
            #![trigger m.count(a)]
            m.count(a) > 0 ==> m.contains(a) && m.count(a) == 1);
    }
    assert forall|a: (Seq<char>, u16), b: (Seq<char>, u16)|
        m.contains(a) && m.contains(b) && a != b implies a.0 != b.0 by {
        assert(s.contains(a));
        assert(s.contains(b));
        let i = choose|i: int| 0 <= i < s.len() && s[i] == a;
        let j = choose|j: int| 0 <= j < s.len() && s[j] == b;
        assert(i != j);
    }
}

/// Inserting into a sorted sequence keeps it sorted and adds exactly the
/// inserted pair to its members.
pub proof fn lemma_insert_pair_ensures(e: (Seq<char>, u16), s: Seq<(Seq<char>, u16)>)
    requires
        spec_pairs_sorted(s),
    ensures
        spec_pairs_sorted(spec_insert_pair(e, s)),
        spec_insert_pair(e, s).to_multiset() == s.to_multiset().insert(e),
        spec_insert_pair(e, s).len() == s.len() + 1,
    decreases s.len(),
{
    broadcast use vstd::seq_lib::group_to_multiset_ensures;

    let r = spec_insert_pair(e, s);
    if s.len() == 0 {
        assert(r =~= Seq::empty().push(e));
        assert(Seq::<(Seq<char>, u16)>::empty().to_multiset() =~= Multiset::empty());
        assert(r.to_multiset() =~= s.to_multiset().insert(e));
    } else if spec_str_lt(s[0].0, e.0) {
        let d = s.drop_first();
        assert(spec_pairs_sorted(d)) by {
            assert(forall|i: int| 0 <= i < d.len() ==> d[i] == s[i + 1]);
        }
        lemma_insert_pair_ensures(e, d);
        let rd = spec_insert_pair(e, d);
        // Sortedness: the head is no later than anything inserted behind it.
        assert forall|i: int, j: int|
            #![trigger r[i], r[j]]
            0 <= i < j < r.len() implies spec_str_le(r[i].0, r[j].0) by {
            if i == 0 {
                assert(r[j] == rd[j - 1]);
                assert(rd.contains(rd[j - 1]));
                assert(rd.to_multiset().count(rd[j - 1]) > 0);
                if rd[j - 1] == e {
                    lemma_str_lt_asymmetric(s[0].0, e.0);
                } else {
                    assert(d.to_multiset().count(rd[j - 1]) > 0);
                    assert(d.contains(rd[j - 1]));
                    let k = choose|k: int| 0 <= k < d.len() && d[k] == rd[j - 1];
                    assert(d[k] == s[k + 1]);
                    assert(spec_str_le(s[0].0, s[k + 1].0));
                }
            } else {
                assert(r[i] == rd[i - 1]);
                assert(r[j] == rd[j - 1]);
            }
        }
        // Members: commute the concatenation into multiset additions.
        vstd::seq_lib::lemma_multiset_commutative(seq![s[0]], rd);
        assert(seq![s[0]].to_multiset() =~= Multiset::empty().insert(s[0])) by {
            assert(seq![s[0]] =~= Seq::empty().push(s[0]));
            assert(Seq::<(Seq<char>, u16)>::empty().to_multiset() =~= Multiset::empty());
        }
        assert(s =~= seq![s[0]] + d);
        vstd::seq_lib::lemma_multiset_commutative(seq![s[0]], d);
        assert(r.to_multiset() =~= s.to_multiset().insert(e));
    } else {
        assert(r =~= seq![e] + s);
        assert forall|i: int, j: int|
            #![trigger r[i], r[j]]
            0 <= i < j < r.len() implies spec_str_le(r[i].0, r[j].0) by {
            if i == 0 {
                assert(r[j] == s[j - 1]);
                assert(spec_str_le(e.0, s[0].0));
                if j > 1 {
                    assert(spec_str_le(s[0].0, s[j - 1].0));
                }
                lemma_str_le_transitive(e.0, s[0].0, s[j - 1].0);
            } else {
                assert(r[i] == s[i - 1]);
                assert(r[j] == s[j - 1]);
            }
        }
        vstd::seq_lib::lemma_multiset_commutative(seq![e], s);
        assert(seq![e].to_multiset() =~= Multiset::empty().insert(e)) by {
            assert(seq![e] =~= Seq::empty().push(e));
            assert(Seq::<(Seq<char>, u16)>::empty().to_multiset() =~= Multiset::empty());
        }
        assert(r.to_multiset() =~= s.to_multiset().insert(e));
    }
}

/// Sorting produces a sorted sequence with exactly the input's members.
pub proof fn lemma_sort_pairs_ensures(s: Seq<(Seq<char>, u16)>)
    ensures
        spec_pairs_sorted(spec_sort_pairs(s)),
        spec_sort_pairs(s).to_multiset() == s.to_multiset(),
        spec_sort_pairs(s).len() == s.len(),
    decreases s.len(),
{
    broadcast use vstd::seq_lib::group_to_multiset_ensures;

    if s.len() == 0 {
        assert(Seq::<(Seq<char>, u16)>::empty().to_multiset() =~= Multiset::empty());
    } else {
        let d = s.drop_last();
        lemma_sort_pairs_ensures(d);
        lemma_insert_pair_ensures(s.last(), spec_sort_pairs(d));
        assert(d.push(s.last()) =~= s);
        assert(spec_sort_pairs(s).to_multiset() =~= s.to_multiset());
    }
}

/// Two name-sorted sequences with the same members are equal, provided no
/// two members share a name.
pub proof fn lemma_sorted_pairs_unique(x: Seq<(Seq<char>, u16)>, y: Seq<(Seq<char>, u16)>)
    requires
        spec_pairs_sorted(x),
        spec_pairs_sorted(y),
        x.to_multiset() == y.to_multiset(),
        spec_ms_keys_distinct(x.to_multiset()),
    ensures
        x == y,
    decreases x.len(),
{
    broadcast use vstd::seq_lib::group_to_multiset_ensures;

    if x.len() == 0 {
        assert(y.len() == 0);
        assert(x =~= y);
    } else {
        assert(x.to_multiset().len() == x.len());
        assert(y.to_multiset().len() == y.len());
        assert(y.len() == x.len());
        let m = x.to_multiset();
        // The two heads carry the same name, hence are the same member.
        assert(x.contains(x[0]));
        assert(y.to_multiset().count(x[0]) > 0);
        assert(y.contains(x[0]));
        let j = choose|j: int| 0 <= j < y.len() && y[j] == x[0];
        assert(y.contains(y[0]));
        assert(x.to_multiset().count(y[0]) > 0);
        assert(x.contains(y[0]));
        let i = choose|i: int| 0 <= i < x.len() && x[i] == y[0];
        assert(spec_str_le(y[0].0, x[0].0)) by {
            if j > 0 {
                assert(spec_str_le(y[0].0, y[j].0));
            } else {
                lemma_str_lt_asymmetric(x[0].0, x[0].0);
            }
        }
        assert(spec_str_le(x[0].0, y[0].0)) by {
            if i > 0 {
                assert(spec_str_le(x[0].0, x[i].0));
            } else {
                lemma_str_lt_asymmetric(y[0].0, y[0].0);
            }
        }
        lemma_str_le_antisymmetric(x[0].0, y[0].0);
        assert(x[0].0 == y[0].0);
        assert(m.contains(x[0]) && m.contains(y[0]));
        assert(x[0] == y[0]);
        // Drop the shared head and recurse on the rests.
        let xd = x.drop_first();
        let yd = y.drop_first();
        assert(x.remove(0) =~= xd);
        assert(y.remove(0) =~= yd);
        assert(xd.to_multiset() == x.to_multiset().remove(x[0]));
        assert(yd.to_multiset() == y.to_multiset().remove(y[0]));
        assert(xd.to_multiset() == yd.to_multiset());
        assert(spec_pairs_sorted(xd)) by {
            assert(forall|k: int| 0 <= k < xd.len() ==> xd[k] == x[k + 1]);
        }
        assert(spec_pairs_sorted(yd)) by {
            assert(forall|k: int| 0 <= k < yd.len() ==> yd[k] == y[k + 1]);
        }
        let md = xd.to_multiset();
        assert(spec_ms_keys_distinct(md)) by {
            assert(forall|a: (Seq<char>, u16)| #[trigger] md.count(a) <= m.count(a));
            assert(forall|a: (Seq<char>, u16)| md.contains(a) ==> m.contains(a));
        }
        lemma_sorted_pairs_unique(xd, yd);
        assert(x =~= y) by {
            assert forall|k: int| 0 <= k < x.len() implies x[k] == y[k] by {
                if k >= 1 {
                    assert(xd[k - 1] == x[k]);
                    assert(yd[k - 1] == y[k]);
                }
            }
        }
    }
}

/// How an index-based insertion relates to the recursive specification:
/// inserting at the first position whose name is not smaller.
proof fn lemma_spec_insert_at(e: (Seq<char>, u16), s: Seq<(Seq<char>, u16)>, i: int)
    requires
        0 <= i <= s.len(),
        forall|k: int| 0 <= k < i ==> spec_str_lt(#[trigger] s[k].0, e.0),
        i == s.len() || !spec_str_lt(s[i].0, e.0),
    ensures
        spec_insert_pair(e, s) == s.take(i) + seq![e] + s.skip(i),
    decreases i,
{
    if i == 0 {
        if s.len() == 0 {
            assert(spec_insert_pair(e, s) =~= s.take(0) + seq![e] + s.skip(0));
        } else {
            assert(spec_insert_pair(e, s) =~= s.take(0) + seq![e] + s.skip(0));
        }
    } else {
        let d = s.drop_first();
        assert(spec_str_lt(s[0].0, e.0));
        assert(forall|k: int| 0 <= k < i - 1 ==> spec_str_lt(#[trigger] d[k].0, e.0)) by {
            assert(forall|k: int| 0 <= k < d.len() ==> d[k] == s[k + 1]);
        }
        assert(i - 1 == d.len() || !spec_str_lt(d[i - 1].0, e.0));
        lemma_spec_insert_at(e, d, i - 1);
        assert(spec_insert_pair(e, s) =~= s.take(i) + seq![e] + s.skip(i)) by {
            assert(spec_insert_pair(e, s) == seq![s[0]] + (d.take(i - 1) + seq![e] + d.skip(i - 1)));
            assert(forall|k: int| 0 <= k < d.len() ==> d[k] == s[k + 1]);
        }
    }
}

/// Inserts a (name, replicas) pair into a vector kept ordered by name.
pub fn insert_sorted(v: &mut Vec<(String, u16)>, e: (String, u16))
    ensures
        final(v).deep_view() == spec_insert_pair(e.deep_view(), old(v).deep_view()),
{
    let n = v.len();
    let mut i: usize = 0;
    while i < n && str_lt(v[i].0.as_str(), e.0.as_str())
        invariant
            i <= n,
            n == v@.len(),
            *v == *old(v),
            forall|k: int| 0 <= k < i ==> spec_str_lt(#[trigger] v.deep_view()[k].0, e.deep_view().0),
        decreases n - i,
    {
        i = i + 1;
    }
    proof {
        lemma_spec_insert_at(e.deep_view(), v.deep_view(), i as int);
    }
    let ghost e_dv = e.deep_view();
    let ghost pre = v.deep_view();
    v.insert(i, e);
    proof {
        assert(v.deep_view() =~= pre.take(i as int) + seq![e_dv] + pre.skip(i as int)) by {
            assert(v@ == old(v)@.insert(i as int, e));
            old(v)@.insert_ensures(i as int, e);
        }
    }
}

/// Orders (name, replicas) pairs by name; which pair each name carries is
/// unchanged.
pub fn sort_group_pairs(input: &Vec<(String, u16)>) -> (r: Vec<(String, u16)>)
    ensures
        r.deep_view() == spec_sort_pairs(input.deep_view()),
{
    let mut out: Vec<(String, u16)> = Vec::new();
    let n = input.len();
    let mut j: usize = 0;
    proof {
        assert(input.deep_view().take(0) =~= Seq::empty());
        assert(out.deep_view() =~= Seq::<(Seq<char>, u16)>::empty());
    }
    while j < n
        invariant
            j <= n,
            n == input@.len(),
            out.deep_view() == spec_sort_pairs(input.deep_view().take(j as int)),
        decreases n - j,
    {
        let name = input[j].0.clone();
        let replicas = input[j].1;
        let ghost pair_dv = (name@, replicas);
        proof {
            assert(pair_dv == input.deep_view()[j as int]);
        }
        insert_sorted(&mut out, (name, replicas));
        proof {
            assert(input.deep_view().take(j as int + 1).drop_last() =~= input.deep_view().take(
                j as int,
            ));
            assert(input.deep_view().take(j as int + 1).last() == input.deep_view()[j as int]);
        }
        j = j + 1;
    }
    proof {
        assert(input.deep_view().take(n as int) =~= input.deep_view());
    }
    out
}

} // verus!
