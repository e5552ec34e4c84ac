//! Stable insertion sort under an order given by a marker type.
use vstd::prelude::*;
use vstd::multiset::Multiset;

verus! {

/// A strict "comes before" relation on `T`, decided by `precedes`.
pub trait Precedence<T> {
    spec fn before(a: T, b: T) -> bool;

    proof fn lemma_before_asymmetric(a: T, b: T)
        requires
            Self::before(a, b),
        ensures
            !Self::before(b, a),
    ;

    fn precedes(a: &T, b: &T) -> (r: bool)
        ensures
            r == Self::before(*a, *b),
    ;
}

/// No element comes before its left neighbour.
pub open spec fn sorted_by<T, O: Precedence<T>>(s: Seq<T>) -> bool {
    forall|i: int| 0 <= i < s.len() - 1 ==> !O::before(s[i + 1], #[trigger] s[i])
}

/// `output` is `input` rearranged by `p` (`output[k] == input[p[k]]`, each position of
/// `input` used once), and two elements trade places only where the one moved in front
/// comes before the other.
pub open spec fn stable_arrangement<T, O: Precedence<T>>(input: Seq<T>, output: Seq<T>, p: Seq<int>) -> bool {
    &&& p.len() == output.len()
    &&& output.len() == input.len()
    &&& forall|k: int| 0 <= k < p.len() ==> 0 <= #[trigger] p[k] < input.len() && output[k] == input[p[k]]
    &&& forall|a: int, b: int| 0 <= a < b < p.len() ==> #[trigger] p[a] != #[trigger] p[b]
    &&& forall|a: int, b: int|
        0 <= a < b < p.len() && #[trigger] p[a] > #[trigger] p[b] ==> O::before(output[a], output[b])
}

/// `output` is a stable rearrangement of `input` under `O`.
pub open spec fn stably_rearranged<T, O: Precedence<T>>(input: Seq<T>, output: Seq<T>) -> bool {
    exists|p: Seq<int>| stable_arrangement::<T, O>(input, output, p)
}

proof fn lemma_insert_keeps_stable<T, O: Precedence<T>>(input: Seq<T>, out: Seq<T>, p: Seq<int>, x: T, j: int)
    requires
        stable_arrangement::<T, O>(input, out, p),
        0 <= j <= out.len(),
        forall|m: int| j <= m < out.len() ==> O::before(x, #[trigger] out[m]),
    ensures
        stable_arrangement::<T, O>(input.push(x), out.insert(j, x), p.insert(j, input.len() as int)),
{
    let n = input.len() as int;
    let q = p.insert(j, n);
    let o = out.insert(j, x);
    let inp = input.push(x);
    assert forall|k: int| 0 <= k < q.len() implies 0 <= #[trigger] q[k] < inp.len() && o[k] == inp[q[k]] by {
        if k < j {
            assert(q[k] == p[k] && o[k] == out[k]);
        } else if k > j {
            assert(q[k] == p[k - 1] && o[k] == out[k - 1]);
        }
    }
    assert forall|a: int, b: int| 0 <= a < b < q.len() implies #[trigger] q[a] != #[trigger] q[b] by {
        if a < j && b < j {
            assert(q[a] == p[a] && q[b] == p[b]);
        } else if a < j && b > j {
            assert(q[a] == p[a] && q[b] == p[b - 1]);
        } else if a > j {
            assert(q[a] == p[a - 1] && q[b] == p[b - 1]);
        } else if a == j {
            assert(q[b] == p[b - 1]);
        } else {
            assert(q[a] == p[a]);
        }
    }
    assert forall|a: int, b: int| 0 <= a < b < q.len() && #[trigger] q[a] > #[trigger] q[b] implies O::before(
        o[a],
        o[b],
    ) by {
        if a < j && b < j {
            assert(q[a] == p[a] && q[b] == p[b] && o[a] == out[a] && o[b] == out[b]);
        } else if a < j && b > j {
            assert(q[a] == p[a] && q[b] == p[b - 1] && o[a] == out[a] && o[b] == out[b - 1]);
        } else if a > j {
            assert(q[a] == p[a - 1] && q[b] == p[b - 1] && o[a] == out[a - 1] && o[b] == out[b - 1]);
        } else if a == j {
            assert(o[a] == x && o[b] == out[b - 1]);
        } else {
            assert(q[a] == p[a]);
        }
    }
}

/// Sorts `v` by the order `O`: the result holds the same elements, no element comes
/// before its left neighbour, and two elements change their relative order only where
/// the later one comes before the earlier.
pub fn sort_by_order<T, O: Precedence<T>>(v: Vec<T>) -> (r: Vec<T>)
    ensures
        r@.to_multiset() == v@.to_multiset(),
        sorted_by::<T, O>(r@),
        r@.len() == v@.len(),
        stably_rearranged::<T, O>(v@, r@),
{
    broadcast use vstd::seq_lib::group_to_multiset_ensures;

    let ghost orig = v@;
    let mut rest = v;
    let mut out: Vec<T> = Vec::new();
    let ghost mut taken: int = 0;
    let ghost mut perm: Seq<int> = Seq::empty();
    assert(stable_arrangement::<T, O>(orig.take(0), out@, perm));
    while rest.len() > 0
        invariant
            0 <= taken <= orig.len(),
            rest@ == orig.skip(taken),
            out@.to_multiset() == orig.take(taken).to_multiset(),
            out@.len() == taken,
            sorted_by::<T, O>(out@),
            stable_arrangement::<T, O>(orig.take(taken), out@, perm),
        decreases rest.len(),
    {
        let x = rest.remove(0);
        proof {
            assert(orig.take(taken + 1) == orig.take(taken).push(x));
            assert(orig.skip(taken + 1) == orig.skip(taken).remove(0));
        }
        let mut j = out.len();
        while j > 0 && O::precedes(&x, &out[j - 1])
            invariant
                j <= out@.len(),
                j < out@.len() ==> O::before(x, out@[j as int]),
                forall|m: int| j <= m < out@.len() ==> O::before(x, #[trigger] out@[m]),
                sorted_by::<T, O>(out@),
            decreases j,
        {
            j -= 1;
        }
        let ghost before_insert = out@;
        out.insert(j, x);
        proof {
            vstd::seq_lib::to_multiset_insert(before_insert, j as int, x);
            vstd::seq_lib::to_multiset_build(orig.take(taken), x);
            lemma_insert_keeps_stable::<T, O>(orig.take(taken), before_insert, perm, x, j as int);
            perm = perm.insert(j as int, taken);
            taken = taken + 1;
            assert(out@ == before_insert.insert(j as int, x));
            assert(j == 0 || !O::before(x, before_insert[j - 1]));
            assert forall|i: int| 0 <= i < out@.len() - 1 implies !O::before(
                out@[i + 1],
                #[trigger] out@[i],
            ) by {
                if i + 1 < j {
                    assert(out@[i + 1] == before_insert[i + 1]);
                    assert(out@[i] == before_insert[i]);
                } else if i + 1 == j {
                    assert(out@[i] == before_insert[i]);
                    assert(out@[i + 1] == x);
                } else if i == j {
                    assert(out@[i] == x);
                    assert(out@[i + 1] == before_insert[j as int]);
                    O::lemma_before_asymmetric(x, before_insert[j as int]);
                } else {
                    assert(out@[i + 1] == before_insert[i]);
                    assert(out@[i] == before_insert[i - 1]);
                }
            }
        }
    }
    proof {
        assert(orig.take(taken) == orig);
    }
    assert(stable_arrangement::<T, O>(v@, out@, perm));
    out
}

/// A strict "comes before" relation on `T` that depends on a context `C`.
pub trait PrecedenceIn<C, T> {
    spec fn before(ctx: C, a: T, b: T) -> bool;

    proof fn lemma_before_asymmetric(ctx: C, a: T, b: T)
        requires
            Self::before(ctx, a, b),
        ensures
            !Self::before(ctx, b, a),
    ;

    fn precedes(ctx: &C, a: &T, b: &T) -> (r: bool)
        ensures
            r == Self::before(*ctx, *a, *b),
    ;
}

/// No element comes before its left neighbour under `ctx`.
pub open spec fn sorted_in<C, T, O: PrecedenceIn<C, T>>(ctx: C, s: Seq<T>) -> bool {
    forall|i: int| 0 <= i < s.len() - 1 ==> !O::before(ctx, s[i + 1], #[trigger] s[i])
}

/// `stable_arrangement` under the order `O` in `ctx`.
pub open spec fn stable_arrangement_in<C, T, O: PrecedenceIn<C, T>>(
    ctx: C,
    input: Seq<T>,
    output: Seq<T>,
    p: Seq<int>,
) -> bool {
    &&& p.len() == output.len()
    &&& output.len() == input.len()
    &&& forall|k: int| 0 <= k < p.len() ==> 0 <= #[trigger] p[k] < input.len() && output[k] == input[p[k]]
    &&& forall|a: int, b: int| 0 <= a < b < p.len() ==> #[trigger] p[a] != #[trigger] p[b]
    &&& forall|a: int, b: int|
        0 <= a < b < p.len() && #[trigger] p[a] > #[trigger] p[b] ==> O::before(ctx, output[a], output[b])
}

/// `output` is a stable rearrangement of `input` under `O` in `ctx`.
pub open spec fn stably_rearranged_in<C, T, O: PrecedenceIn<C, T>>(ctx: C, input: Seq<T>, output: Seq<T>) -> bool {
    exists|p: Seq<int>| stable_arrangement_in::<C, T, O>(ctx, input, output, p)
}

proof fn lemma_insert_keeps_stable_in<C, T, O: PrecedenceIn<C, T>>(
    ctx: C,
    input: Seq<T>,
    out: Seq<T>,
    p: Seq<int>,
    x: T,
    j: int,
)
    requires
        stable_arrangement_in::<C, T, O>(ctx, input, out, p),
        0 <= j <= out.len(),
        forall|m: int| j <= m < out.len() ==> O::before(ctx, x, #[trigger] out[m]),
    ensures
        stable_arrangement_in::<C, T, O>(ctx, input.push(x), out.insert(j, x), p.insert(j, input.len() as int)),
{
    let n = input.len() as int;
    let q = p.insert(j, n);
    let o = out.insert(j, x);
    let inp = input.push(x);
    assert forall|k: int| 0 <= k < q.len() implies 0 <= #[trigger] q[k] < inp.len() && o[k] == inp[q[k]] by {
        if k < j {
            assert(q[k] == p[k] && o[k] == out[k]);
        } else if k > j {
            assert(q[k] == p[k - 1] && o[k] == out[k - 1]);
        }
    }
    assert forall|a: int, b: int| 0 <= a < b < q.len() implies #[trigger] q[a] != #[trigger] q[b] by {
        if a < j && b < j {
            assert(q[a] == p[a] && q[b] == p[b]);
        } else if a < j && b > j {
            assert(q[a] == p[a] && q[b] == p[b - 1]);
        } else if a > j {
            assert(q[a] == p[a - 1] && q[b] == p[b - 1]);
        } else if a == j {
            assert(q[b] == p[b - 1]);
        } else {
            assert(q[a] == p[a]);
        }
    }
    assert forall|a: int, b: int| 0 <= a < b < q.len() && #[trigger] q[a] > #[trigger] q[b] implies O::before(
        ctx,
        o[a],
        o[b],
    ) by {
        if a < j && b < j {
            assert(q[a] == p[a] && q[b] == p[b] && o[a] == out[a] && o[b] == out[b]);
        } else if a < j && b > j {
            assert(q[a] == p[a] && q[b] == p[b - 1] && o[a] == out[a] && o[b] == out[b - 1]);
        } else if a > j {
            assert(q[a] == p[a - 1] && q[b] == p[b - 1] && o[a] == out[a - 1] && o[b] == out[b - 1]);
        } else if a == j {
            assert(o[a] == x && o[b] == out[b - 1]);
        } else {
            assert(q[a] == p[a]);
        }
    }
}

/// Sorts `v` by the order `O` under `ctx`: the result holds the same elements, no element
/// comes before its left neighbour, and two elements change their relative order only
/// where the later one comes before the earlier.
pub fn sort_by_order_in<C, T, O: PrecedenceIn<C, T>>(v: Vec<T>, ctx: &C) -> (r: Vec<T>)
    ensures
        r@.to_multiset() == v@.to_multiset(),
        sorted_in::<C, T, O>(*ctx, r@),
        r@.len() == v@.len(),
        stably_rearranged_in::<C, T, O>(*ctx, v@, r@),
{
    broadcast use vstd::seq_lib::group_to_multiset_ensures;

    let ghost orig = v@;
    let mut rest = v;
    let mut out: Vec<T> = Vec::new();
    let ghost mut taken: int = 0;
    let ghost mut perm: Seq<int> = Seq::empty();
    assert(stable_arrangement_in::<C, T, O>(*ctx, orig.take(0), out@, perm));
    while rest.len() > 0
        invariant
            0 <= taken <= orig.len(),
            rest@ == orig.skip(taken),
            out@.to_multiset() == orig.take(taken).to_multiset(),
            out@.len() == taken,
            sorted_in::<C, T, O>(*ctx, out@),
            stable_arrangement_in::<C, T, O>(*ctx, orig.take(taken), out@, perm),
        decreases rest.len(),
    {
        let x = rest.remove(0);
        proof {
            assert(orig.take(taken + 1) == orig.take(taken).push(x));
            assert(orig.skip(taken + 1) == orig.skip(taken).remove(0));
        }
        let mut j = out.len();
        while j > 0 && O::precedes(ctx, &x, &out[j - 1])
            invariant
                j <= out@.len(),
                j < out@.len() ==> O::before(*ctx, x, out@[j as int]),
                forall|m: int| j <= m < out@.len() ==> O::before(*ctx, x, #[trigger] out@[m]),
                sorted_in::<C, T, O>(*ctx, out@),
            decreases j,
        {
            j -= 1;
        }
        let ghost before_insert = out@;
        out.insert(j, x);
        proof {
            vstd::seq_lib::to_multiset_insert(before_insert, j as int, x);
            vstd::seq_lib::to_multiset_build(orig.take(taken), x);
            lemma_insert_keeps_stable_in::<C, T, O>(*ctx, orig.take(taken), before_insert, perm, x, j as int);
            perm = perm.insert(j as int, taken);
            taken = taken + 1;
            assert(out@ == before_insert.insert(j as int, x));
            assert(j == 0 || !O::before(*ctx, x, before_insert[j - 1]));
            assert forall|i: int| 0 <= i < out@.len() - 1 implies !O::before(
                *ctx,
                out@[i + 1],
                #[trigger] out@[i],
            ) by {
                if i + 1 < j {
                    assert(out@[i + 1] == before_insert[i + 1]);
                    assert(out@[i] == before_insert[i]);
                } else if i + 1 == j {
                    assert(out@[i] == before_insert[i]);
                    assert(out@[i + 1] == x);
                } else if i == j {
                    assert(out@[i] == x);
                    assert(out@[i + 1] == before_insert[j as int]);
                    O::lemma_before_asymmetric(*ctx, x, before_insert[j as int]);
                } else {
                    assert(out@[i + 1] == before_insert[i]);
                    assert(out@[i] == before_insert[i - 1]);
                }
            }
        }
    }
    proof {
        assert(orig.take(taken) == orig);
    }
    assert(stable_arrangement_in::<C, T, O>(*ctx, v@, out@, perm));
    out
}

} // verus!
