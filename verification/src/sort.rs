//! The order of strings (by code point, which is also the order of their
//! UTF-8 bytes) and sorting lists of strings by it.
use vstd::prelude::*;
use vstd::relations::{sorted_by, total_ordering};

verus! {

/// `a` sorts no later than `b`: lexicographic order by code point.
pub open spec fn str_leq(a: Seq<char>, b: Seq<char>) -> bool
    decreases a.len(),
{
    if a.len() == 0 {
        true
    } else if b.len() == 0 {
        false
    } else if a[0] != b[0] {
        a[0] < b[0]
    } else {
        str_leq(a.drop_first(), b.drop_first())
    }
}

pub open spec fn str_order() -> spec_fn(Seq<char>, Seq<char>) -> bool {
    |a: Seq<char>, b: Seq<char>| str_leq(a, b)
}

/// `s` in ascending order.
pub open spec fn sorted_strs(s: Seq<Seq<char>>) -> Seq<Seq<char>> {
    s.sort_by(str_order())
}

proof fn lemma_leq_refl(a: Seq<char>)
    ensures
        str_leq(a, a),
    decreases a.len(),
{
    if a.len() > 0 {
        lemma_leq_refl(a.drop_first());
    }
}

proof fn lemma_leq_antisym(a: Seq<char>, b: Seq<char>)
    requires
        str_leq(a, b),
        str_leq(b, a),
    ensures
        a == b,
    decreases a.len(),
{
    if a.len() > 0 && b.len() > 0 {
        lemma_leq_antisym(a.drop_first(), b.drop_first());
        assert(a =~= seq![a[0]] + a.drop_first());
        assert(b =~= seq![b[0]] + b.drop_first());
    }
}

proof fn lemma_leq_trans(a: Seq<char>, b: Seq<char>, c: Seq<char>)
    requires
        str_leq(a, b),
        str_leq(b, c),
    ensures
        str_leq(a, c),
    decreases a.len(),
{
    if a.len() > 0 && b.len() > 0 && c.len() > 0 {
        if a[0] == b[0] && b[0] == c[0] {
            lemma_leq_trans(a.drop_first(), b.drop_first(), c.drop_first());
        }
    }
}

proof fn lemma_leq_total(a: Seq<char>, b: Seq<char>)
    ensures
        str_leq(a, b) || str_leq(b, a),
    decreases a.len(),
{
    if a.len() > 0 && b.len() > 0 && a[0] == b[0] {
        lemma_leq_total(a.drop_first(), b.drop_first());
    }
}

pub proof fn lemma_str_order_total()
    ensures
        total_ordering(str_order()),
{
    assert forall|a: Seq<char>| #[trigger] str_order()(a, a) by {
        lemma_leq_refl(a);
    }
    assert forall|a: Seq<char>, b: Seq<char>|
        #[trigger] str_order()(a, b) && #[trigger] str_order()(b, a) implies a == b by {
        lemma_leq_antisym(a, b);
    }
    assert forall|a: Seq<char>, b: Seq<char>, c: Seq<char>|
        #[trigger] str_order()(a, b) && #[trigger] str_order()(b, c) implies str_order()(a, c) by {
        lemma_leq_trans(a, b, c);
    }
    assert forall|a: Seq<char>, b: Seq<char>|
        #[trigger] str_order()(a, b) || #[trigger] str_order()(b, a) by {
        lemma_leq_total(a, b);
    }
}

/// Whether `a` sorts no later than `b`.
pub fn str_le(a: &Vec<char>, b: &Vec<char>) -> (r: bool)
    ensures
        r == str_leq(a@, b@),
{
    let mut i: usize = 0;
    assert(a@.skip(0) =~= a@ && b@.skip(0) =~= b@);
    while i < a.len() && i < b.len() && a[i] == b[i]
        invariant
            i <= a.len(),
            i <= b.len(),
            forall|j: int| 0 <= j < i ==> a@[j] == b@[j],
            str_leq(a@, b@) == str_leq(a@.skip(i as int), b@.skip(i as int)),
        decreases a.len() - i,
    {
        proof {
            let x = a@.skip(i as int);
            let y = b@.skip(i as int);
            assert(x.drop_first() =~= a@.skip(i + 1));
            assert(y.drop_first() =~= b@.skip(i + 1));
        }
        i = i + 1;
    }
    if i == a.len() {
        true
    } else if i == b.len() {
        false
    } else {
        a[i] < b[i]
    }
}

/// The views of a list of character vectors.
pub open spec fn strs_view(v: Seq<Vec<char>>) -> Seq<Seq<char>> {
    v.map_values(|x: Vec<char>| x@)
}

/// `v` sorted in ascending order.
pub fn sort_strs(v: Vec<Vec<char>>) -> (out: Vec<Vec<char>>)
    ensures
        strs_view(out@) == sorted_strs(strs_view(v@)),
{
    let ghost leq = str_order();
    proof {
        lemma_str_order_total();
    }
    let mut out: Vec<Vec<char>> = Vec::new();
    let mut i: usize = 0;
    proof {
        broadcast use vstd::seq_lib::group_to_multiset_ensures;

        assert(strs_view(out@) =~= Seq::<Seq<char>>::empty());
        assert(strs_view(v@).take(0) =~= Seq::<Seq<char>>::empty());
    }
    while i < v.len()
        invariant
            i <= v.len(),
            leq == str_order(),
            total_ordering(leq),
            sorted_by(strs_view(out@), leq),
            strs_view(out@).to_multiset() == strs_view(v@).take(i as int).to_multiset(),
        decreases v.len() - i,
    {
        let x = v[i].clone();
        assert(x@ == v@[i as int]@);
        let mut p: usize = 0;
        while p < out.len() && str_le(&out[p], &x)
            invariant
                p <= out.len(),
                forall|j: int| 0 <= j < p ==> leq(#[trigger] strs_view(out@)[j], x@),
                leq == str_order(),
            decreases out.len() - p,
        {
            p = p + 1;
        }
        let ghost before = strs_view(out@);
        out.insert(p, x);
        proof {
            broadcast use vstd::seq_lib::group_to_multiset_ensures;
            broadcast use vstd::seq_lib::to_multiset_insert;

            let after = strs_view(out@);
            assert(after =~= before.insert(p as int, x@));
            if p < before.len() {
                assert(!leq(before[p as int], x@));
                assert(leq(x@, before[p as int]));
            }
            assert forall|a: int, b: int| 0 <= a < b < after.len() implies #[trigger] leq(
                after[a],
                after[b],
            ) by {
                if b < p {
                } else if a < p && b == p {
                } else if a < p {
                    assert(leq(before[a], x@));
                    assert(leq(x@, before[p as int]));
                    assert(leq(before[p as int], before[b - 1]) || p == b - 1);
                } else if a == p {
                    assert(leq(before[p as int], before[b - 1]) || p == b - 1);
                } else {
                }
            }
            assert(strs_view(v@).take(i + 1) =~= strs_view(v@).take(i as int).push(x@));
        }
        i = i + 1;
    }
    proof {
        assert(strs_view(v@).take(v.len() as int) =~= strs_view(v@));
        strs_view(v@).lemma_sort_by_ensures(leq);
        vstd::seq_lib::lemma_sorted_unique(strs_view(out@), sorted_strs(strs_view(v@)), leq);
    }
    out
}

} // verus!
