//! Deterministic ordering of benchmark results: successes before failures,
//! faster runs first, ties kept in registration order. The executable sort
//! is pinned to a spec-level stable insertion sort, from which idempotence
//! and stability are proved.

use vstd::prelude::*;
use vstd::multiset::Multiset;

use crate::shared::BenchResult;

verus! {

/// Sort rank of an outcome: all successes sort before all failures.
pub open spec fn fail_rank(r: BenchResult) -> int {
    if r.size is Err {
        1
    } else {
        0
    }
}

/// Numeric order key of a recorded duration; a missing one sorts first.
pub open spec fn time_rank(r: BenchResult) -> int {
    match r.time_used {
        Some(t) => t as int,
        None => -1,
    }
}

/// Report order: failures after all successes, then elapsed time ascending.
pub open spec fn result_le(a: BenchResult, b: BenchResult) -> bool {
    ||| fail_rank(a) < fail_rank(b)
    ||| (fail_rank(a) == fail_rank(b) && time_rank(a) <= time_rank(b))
}

/// Two results that the report order does not tell apart.
pub open spec fn ties_with(a: BenchResult, b: BenchResult) -> bool {
    result_le(a, b) && result_le(b, a)
}

/// The sequence is ordered by `result_le`.
pub open spec fn sorted_by_le(s: Seq<BenchResult>) -> bool {
    forall|i: int, j: int| 0 <= i < j < s.len() ==> result_le(s[i], s[j])
}

/// Inserts `x` after every element it does not strictly precede, so a later
/// arrival never overtakes an equal earlier one.
pub open spec fn spec_insert(s: Seq<BenchResult>, x: BenchResult) -> Seq<BenchResult>
    decreases s.len(),
{
    if s.len() == 0 {
        seq![x]
    } else if result_le(s[0], x) {
        seq![s[0]] + spec_insert(s.drop_first(), x)
    } else {
        seq![x] + s
    }
}

/// Stable insertion sort over the report order.
pub open spec fn spec_sort(s: Seq<BenchResult>) -> Seq<BenchResult>
    decreases s.len(),
{
    if s.len() == 0 {
        s
    } else {
        spec_insert(spec_sort(s.drop_last()), s.last())
    }
}

proof fn lemma_insert_multiset(s: Seq<BenchResult>, x: BenchResult)
    ensures
        spec_insert(s, x).to_multiset() == s.to_multiset().insert(x),
        spec_insert(s, x).len() == s.len() + 1,
    decreases s.len(),
{
    broadcast use vstd::seq_lib::group_to_multiset_ensures;

    if s.len() == 0 {
        assert(seq![x] =~= Seq::empty().push(x));
        assert(Seq::<BenchResult>::empty().to_multiset() =~= Multiset::empty());
        assert(spec_insert(s, x).to_multiset() =~= s.to_multiset().insert(x));
    } else if result_le(s[0], x) {
        let rest = s.drop_first();
        lemma_insert_multiset(rest, x);
        vstd::seq_lib::lemma_multiset_commutative(seq![s[0]], spec_insert(rest, x));
        vstd::seq_lib::lemma_multiset_commutative(seq![s[0]], rest);
        assert(s =~= seq![s[0]] + rest);
        assert(seq![s[0]].to_multiset().add(rest.to_multiset().insert(x)) =~= (seq![
            s[0],
        ].to_multiset().add(rest.to_multiset())).insert(x));
    } else {
        vstd::seq_lib::lemma_multiset_commutative(seq![x], s);
        assert(seq![x] =~= Seq::empty().push(x));
        assert(Seq::<BenchResult>::empty().to_multiset() =~= Multiset::empty());
        assert(seq![x].to_multiset().add(s.to_multiset()) =~= s.to_multiset().insert(x));
    }
}

proof fn lemma_insert_sorted(s: Seq<BenchResult>, x: BenchResult)
    requires
        sorted_by_le(s),
    ensures
        sorted_by_le(spec_insert(s, x)),
    decreases s.len(),
{
    broadcast use vstd::seq_lib::group_to_multiset_ensures;

    if s.len() == 0 {
    } else if result_le(s[0], x) {
        let rest = s.drop_first();
        let t = spec_insert(rest, x);
        lemma_insert_sorted(rest, x);
        lemma_insert_multiset(rest, x);
        let out = seq![s[0]] + t;
        assert forall|i: int, j: int| 0 <= i < j < out.len() implies result_le(
            out[i],
            out[j],
        ) by {
            if i == 0 {
                let y = t[j - 1];
                assert(t.contains(y));
                assert(t.to_multiset().count(y) > 0);
                if rest.to_multiset().count(y) > 0 {
                    let k = choose|k: int| 0 <= k < rest.len() && rest[k] == y;
                    assert(result_le(s[0], rest[k]));
                } else {
                    assert(y == x);
                }
            } else {
                assert(result_le(t[i - 1], t[j - 1]));
            }
        }
    } else {
        let out = seq![x] + s;
        assert forall|i: int, j: int| 0 <= i < j < out.len() implies result_le(
            out[i],
            out[j],
        ) by {
            if i == 0 {
                if j == 1 {
                    assert(out[j] == s[0]);
                } else {
                    assert(result_le(s[0], s[j - 1]));
                }
            } else {
                assert(result_le(s[i - 1], s[j - 1]));
            }
        }
    }
}

/// The sorted sequence is a permutation of the input, ordered by the
/// report order.
pub proof fn lemma_sort_ensures(s: Seq<BenchResult>)
    ensures
        sorted_by_le(spec_sort(s)),
        spec_sort(s).to_multiset() == s.to_multiset(),
        spec_sort(s).len() == s.len(),
    decreases s.len(),
{
    broadcast use vstd::seq_lib::group_to_multiset_ensures;

    if s.len() == 0 {
    } else {
        let head = s.drop_last();
        lemma_sort_ensures(head);
        lemma_insert_sorted(spec_sort(head), s.last());
        lemma_insert_multiset(spec_sort(head), s.last());
        assert(s =~= head.push(s.last()));
        assert(s.to_multiset() == head.push(s.last()).to_multiset());
    }
}

/// Sorting never invents or loses a result record.
pub proof fn lemma_sort_preserves_membership(s: Seq<BenchResult>, x: BenchResult)
    ensures
        spec_sort(s).contains(x) <==> s.contains(x),
{
    broadcast use vstd::seq_lib::group_to_multiset_ensures;

    lemma_sort_ensures(s);
    assert(spec_sort(s).contains(x) <==> spec_sort(s).to_multiset().count(x) > 0);
    assert(s.contains(x) <==> s.to_multiset().count(x) > 0);
}

proof fn lemma_insert_all_le(s: Seq<BenchResult>, x: BenchResult)
    requires
        forall|k: int| 0 <= k < s.len() ==> result_le(s[k], x),
    ensures
        spec_insert(s, x) == s.push(x),
    decreases s.len(),
{
    if s.len() == 0 {
        assert(spec_insert(s, x) =~= s.push(x));
    } else {
        let rest = s.drop_first();
        lemma_insert_all_le(rest, x);
        assert(spec_insert(s, x) =~= s.push(x));
    }
}

proof fn lemma_sorted_sort_id(s: Seq<BenchResult>)
    requires
        sorted_by_le(s),
    ensures
        spec_sort(s) == s,
    decreases s.len(),
{
    if s.len() == 0 {
    } else {
        let head = s.drop_last();
        lemma_sorted_sort_id(head);
        assert(forall|k: int| 0 <= k < head.len() ==> result_le(head[k], s.last()));
        lemma_insert_all_le(head, s.last());
        assert(spec_sort(s) =~= s);
    }
}

/// Sorting a result set twice yields the same order as sorting it once.
pub proof fn lemma_sort_idempotent(s: Seq<BenchResult>)
    ensures
        spec_sort(spec_sort(s)) == spec_sort(s),
{
    lemma_sort_ensures(s);
    lemma_sorted_sort_id(spec_sort(s));
}

proof fn lemma_insert_filter(s: Seq<BenchResult>, x: BenchResult, p: spec_fn(BenchResult) -> bool)
    requires
        sorted_by_le(s),
        forall|a: BenchResult, b: BenchResult| p(a) && p(b) ==> result_le(a, b),
    ensures
        spec_insert(s, x).filter(p) == if p(x) {
            s.filter(p).push(x)
        } else {
            s.filter(p)
        },
    decreases s.len(),
{
    reveal_with_fuel(Seq::<_>::filter, 2);
    if s.len() == 0 {
        assert(seq![x].drop_last() =~= Seq::<BenchResult>::empty());
        if p(x) {
            assert(seq![x].filter(p) =~= Seq::<BenchResult>::empty().push(x));
            assert(s.filter(p) =~= Seq::<BenchResult>::empty());
        }
    } else if result_le(s[0], x) {
        let rest = s.drop_first();
        lemma_insert_filter(rest, x, p);
        Seq::filter_distributes_over_add(seq![s[0]], spec_insert(rest, x), p);
        Seq::filter_distributes_over_add(seq![s[0]], rest, p);
        assert(s =~= seq![s[0]] + rest);
        if p(x) {
            assert(seq![s[0]].filter(p) + rest.filter(p).push(x) =~= (seq![s[0]].filter(p)
                + rest.filter(p)).push(x));
        }
    } else {
        Seq::filter_distributes_over_add(seq![x], s, p);
        if p(x) {
            assert forall|i: int| 0 <= i < s.len() implies !p(s[i]) by {
                if p(s[i]) {
                    assert(result_le(s[i], x));
                    assert(result_le(s[0], s[i]) || i == 0);
                }
            }
            assert(s.all(|y: BenchResult| !p(y)));
            s.lemma_all_neg_filter_empty(p);
            assert(seq![x].filter(p) =~= Seq::<BenchResult>::empty().push(x));
            assert(seq![x].drop_last() =~= Seq::<BenchResult>::empty());
            assert(spec_insert(s, x).filter(p) =~= s.filter(p).push(x));
        } else {
            assert(seq![x].filter(p) =~= Seq::<BenchResult>::empty());
            assert(seq![x].drop_last() =~= Seq::<BenchResult>::empty());
            assert(spec_insert(s, x).filter(p) =~= s.filter(p));
        }
    }
}

/// Stability: among results the report order ties, sorting keeps exactly the
/// original subsequence, so ties stand in registration order.
pub proof fn lemma_sort_stable(s: Seq<BenchResult>, key: BenchResult)
    ensures
        spec_sort(s).filter(|r: BenchResult| ties_with(r, key)) == s.filter(
            |r: BenchResult| ties_with(r, key),
        ),
    decreases s.len(),
{
    let p = |r: BenchResult| ties_with(r, key);
    if s.len() == 0 {
    } else {
        let head = s.drop_last();
        lemma_sort_stable(head, key);
        lemma_sort_ensures(head);
        lemma_insert_filter(spec_sort(head), s.last(), p);
        Seq::filter_distributes_over_add(head, seq![s.last()], p);
        assert(s =~= head + seq![s.last()]);
        reveal_with_fuel(Seq::<_>::filter, 2);
        assert(seq![s.last()].drop_last() =~= Seq::<BenchResult>::empty());
        if p(s.last()) {
            assert(seq![s.last()].filter(p) =~= Seq::<BenchResult>::empty().push(s.last()));
            assert(head.filter(p) + seq![s.last()].filter(p) =~= head.filter(p).push(s.last()));
        } else {
            assert(seq![s.last()].filter(p) =~= Seq::<BenchResult>::empty());
            assert(head.filter(p) + seq![s.last()].filter(p) =~= head.filter(p));
        }
    }
}

/// In a sorted report every result after a failed one is failed too.
pub proof fn lemma_failures_sort_last(s: Seq<BenchResult>, i: int, j: int)
    requires
        sorted_by_le(s),
        0 <= i < j < s.len(),
        s[i].size is Err,
    ensures
        s[j].size is Err,
{
    assert(result_le(s[i], s[j]));
}

/// Report order as executable comparison.
fn le_exec(a: &BenchResult, b: &BenchResult) -> (r: bool)
    ensures
        r == result_le(*a, *b),
{
    let ra: u8 = if a.size.is_err() {
        1
    } else {
        0
    };
    let rb: u8 = if b.size.is_err() {
        1
    } else {
        0
    };
    if ra < rb {
        true
    } else if ra > rb {
        false
    } else {
        match (a.time_used, b.time_used) {
            (None, _) => true,
            (Some(_), None) => false,
            (Some(x), Some(y)) => x <= y,
        }
    }
}

proof fn lemma_insert_at(s: Seq<BenchResult>, x: BenchResult, j: int)
    requires
        0 <= j <= s.len(),
        forall|k: int| 0 <= k < j ==> result_le(s[k], x),
        j < s.len() ==> !result_le(s[j], x),
    ensures
        spec_insert(s, x) == s.insert(j, x),
    decreases s.len(),
{
    if j == 0 {
        if s.len() == 0 {
            assert(spec_insert(s, x) =~= s.insert(0, x));
        } else {
            assert(spec_insert(s, x) =~= s.insert(0, x));
        }
    } else {
        let rest = s.drop_first();
        lemma_insert_at(rest, x, j - 1);
        assert(spec_insert(s, x) =~= s.insert(j, x));
    }
}

/// Inserts one result into an already sorted report.
fn insert_sorted(out: &mut Vec<BenchResult>, x: BenchResult)
    ensures
        final(out)@ == spec_insert(old(out)@, x),
{
    let mut j: usize = 0;
    while j < out.len() && le_exec(&out[j], &x)
        invariant
            j <= out@.len(),
            forall|k: int| 0 <= k < j ==> result_le(out@[k], x),
            out@ == old(out)@,
        decreases out@.len() - j,
    {
        j = j + 1;
    }
    proof {
        lemma_insert_at(out@, x, j as int);
    }
    out.insert(j, x);
}

/// Sorts a collected report by the report order, stably: the outcome is the
/// spec-level insertion sort of the input.
pub fn sort_results(results: Vec<BenchResult>) -> (sorted: Vec<BenchResult>)
    ensures
        sorted@ == spec_sort(results@),
{
    let ghost orig = results@;
    let mut rest = results;
    let mut out: Vec<BenchResult> = Vec::new();
    while rest.len() > 0
        invariant
            rest@.len() <= orig.len(),
            rest@ == orig.skip(orig.len() - rest@.len()),
            out@ == spec_sort(orig.take(orig.len() - rest@.len())),
        decreases rest@.len(),
    {
        let ghost k = orig.len() - rest@.len();
        let x = rest.remove(0);
        proof {
            assert(x == orig[k]);
            assert(rest@ =~= orig.skip(k + 1));
        }
        insert_sorted(&mut out, x);
        proof {
            assert(orig.take(k + 1).drop_last() =~= orig.take(k));
            assert(orig.take(k + 1).last() == orig[k]);
        }
    }
    proof {
        assert(orig.take(orig.len() as int) =~= orig);
    }
    out
}

} // verus!
