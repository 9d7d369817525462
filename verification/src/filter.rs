//! The filter pipeline: narrowing a batch of records by a set of
//! independent predicates.
//!
//! A record survives exactly when it matches every predicate in the
//! set — the logical AND across all predicates — and the surviving
//! records keep the batch's original order, so the output is always a
//! subsequence of the input. With zero predicates the pipeline is the
//! identity on the batch. (The predicate stages are independent pure
//! functions, so a caller may evaluate them concurrently; the
//! sequential evaluation here fixes the same input/output relation
//! any such schedule must produce.)

use vstd::prelude::*;
use vstd::seq_lib::group_filter_ensures;

use crate::extras::Extras;
use crate::extras::spec_matches_extra;
use crate::extras::matches_extra;
use crate::meal::Contents;
use crate::meal::Meal;

verus! {

/// A record with flags `c` survives the pipeline for `es` exactly
/// when it matches every predicate in `es`.
pub open spec fn spec_matches_all(c: Contents, es: Seq<Extras>) -> bool {
    forall|i: int| 0 <= i < es.len() ==> spec_matches_extra(c, es[i])
}

/// What the pipeline returns for a batch: the records matching every
/// predicate, in their original order.
pub open spec fn spec_filter_batch(batch: Seq<Meal>, es: Seq<Extras>) -> Seq<Meal> {
    batch.filter(|m: Meal| spec_matches_all(m.contents, es))
}

/// `xs` appears within `ys` in order (possibly with gaps): filtering
/// can drop records but never reorder them.
pub open spec fn is_subsequence_of<A>(xs: Seq<A>, ys: Seq<A>) -> bool
    decreases xs.len() + ys.len(),
{
    if xs.len() == 0 {
        true
    } else if ys.len() == 0 {
        false
    } else {
        (xs.last() == ys.last() && is_subsequence_of(xs.drop_last(), ys.drop_last()))
            || is_subsequence_of(xs, ys.drop_last())
    }
}

/// Evaluates the whole predicate set against one record's flags.
pub fn matches_all_extras(c: &Contents, extras: &Vec<Extras>) -> (r: bool)
    ensures
        r == spec_matches_all(*c, extras@),
{
    let mut i: usize = 0;
    while i < extras.len()
        invariant
            0 <= i <= extras@.len(),
            forall|j: int| 0 <= j < i ==> spec_matches_extra(*c, extras@[j]),
        decreases extras@.len() - i,
    {
        if !matches_extra(c, &extras[i]) {
            assert(!spec_matches_extra(*c, extras@[i as int]));
            return false;
        }
        i = i + 1;
    }
    true
}

/// Runs the pipeline over a batch: keeps exactly the records that
/// match every predicate, in the batch's order.
pub fn filter_batch(foods: Vec<Meal>, extras: &Vec<Extras>) -> (r: Vec<Meal>)
    ensures
        r@ == spec_filter_batch(foods@, extras@),
{
    let ghost orig: Seq<Meal> = foods@;
    let ghost pred = |m: Meal| spec_matches_all(m.contents, extras@);
    let mut remaining = foods;
    let mut kept: Vec<Meal> = Vec::new();
    proof {
        reveal(Seq::filter);
        assert(orig.subrange(0, 0) =~= Seq::<Meal>::empty());
        assert(kept@ =~= orig.subrange(0, 0).filter(pred));
        assert(remaining@ =~= orig.subrange(0, orig.len() as int));
    }
    while remaining.len() > 0
        invariant
            remaining@.len() <= orig.len(),
            remaining@ == orig.subrange(
                orig.len() - remaining@.len(),
                orig.len() as int,
            ),
            kept@ == orig.subrange(0, orig.len() - remaining@.len()).filter(pred),
            pred == (|m: Meal| spec_matches_all(m.contents, extras@)),
        decreases remaining@.len(),
    {
        let ghost done: int = orig.len() - remaining@.len();
        let m = remaining.remove(0);
        proof {
            assert(m == orig[done]);
            assert(remaining@ =~= orig.subrange(done + 1, orig.len() as int));
            let prefix = orig.subrange(0, done);
            let next = orig.subrange(0, done + 1);
            assert(next.drop_last() =~= prefix);
            assert(next.last() == m);
            reveal(Seq::filter);
            assert(next.filter(pred) == if pred(m) {
                prefix.filter(pred).push(m)
            } else {
                prefix.filter(pred)
            });
        }
        if matches_all_extras(&m.contents, extras) {
            kept.push(m);
        }
    }
    proof {
        assert(orig.subrange(0, orig.len() as int) =~= orig);
    }
    kept
}

/// With an empty predicate set the pipeline returns the batch
/// unchanged: same records, same order, same length.
pub proof fn lemma_filter_identity(batch: Seq<Meal>, es: Seq<Extras>)
    requires
        es.len() == 0,
    ensures
        spec_filter_batch(batch, es) == batch,
    decreases batch.len(),
{
    reveal(Seq::filter);
    if batch.len() > 0 {
        lemma_filter_identity(batch.drop_last(), es);
        assert(spec_matches_all(batch.last().contents, es));
        assert(spec_filter_batch(batch, es) =~= batch);
    } else {
        assert(spec_filter_batch(batch, es) =~= batch);
    }
}

/// The pipeline keeps exactly the records that match every predicate:
/// every survivor matches all of `es`, and every record of the batch
/// that matches all of `es` survives.
pub proof fn lemma_filter_membership(batch: Seq<Meal>, es: Seq<Extras>)
    ensures
        forall|i: int|
            0 <= i < spec_filter_batch(batch, es).len() ==> spec_matches_all(
                (#[trigger] spec_filter_batch(batch, es)[i]).contents,
                es,
            ),
        forall|i: int|
            0 <= i < batch.len() && spec_matches_all((#[trigger] batch[i]).contents, es)
                ==> spec_filter_batch(batch, es).contains(batch[i]),
{
    broadcast use group_filter_ensures;

    let pred = |m: Meal| spec_matches_all(m.contents, es);
    assert forall|i: int|
        0 <= i < spec_filter_batch(batch, es).len() implies spec_matches_all(
        (#[trigger] spec_filter_batch(batch, es)[i]).contents,
        es,
    ) by {
        assert(pred(batch.filter(pred)[i]));
    }
}

/// Filtering by two predicates in one pass is the same as feeding the
/// survivors of the first predicate through the second — the
/// fan-through pipeline computes the intersection.
pub proof fn lemma_filter_intersection(batch: Seq<Meal>, a: Extras, b: Extras)
    ensures
        spec_filter_batch(batch, seq![a, b]) == spec_filter_batch(
            spec_filter_batch(batch, seq![a]),
            seq![b],
        ),
    decreases batch.len(),
{
    reveal(Seq::filter);
    let es_ab = seq![a, b];
    let es_a = seq![a];
    let es_b = seq![b];
    if batch.len() == 0 {
        assert(spec_filter_batch(batch, es_ab) =~= spec_filter_batch(
            spec_filter_batch(batch, es_a),
            es_b,
        ));
    } else {
        let prior = batch.drop_last();
        let m = batch.last();
        lemma_filter_intersection(prior, a, b);
        lemma_matches_pair(m.contents, a, b);
        lemma_matches_single(m.contents, a);
        lemma_matches_single(m.contents, b);
        let f_ab_prior = spec_filter_batch(prior, es_ab);
        let stage_a_prior = spec_filter_batch(prior, es_a);
        assert(spec_filter_batch(batch, es_ab) == if spec_matches_all(m.contents, es_ab) {
            f_ab_prior.push(m)
        } else {
            f_ab_prior
        });
        assert(spec_filter_batch(batch, es_a) == if spec_matches_all(m.contents, es_a) {
            stage_a_prior.push(m)
        } else {
            stage_a_prior
        });
        if spec_matches_extra(m.contents, a) {
            assert(stage_a_prior.push(m).drop_last() =~= stage_a_prior);
            assert(stage_a_prior.push(m).last() == m);
            assert(spec_filter_batch(stage_a_prior.push(m), es_b) == if spec_matches_all(
                m.contents,
                es_b,
            ) {
                spec_filter_batch(stage_a_prior, es_b).push(m)
            } else {
                spec_filter_batch(stage_a_prior, es_b)
            });
        }
    }
}

/// A record survives the single predicate `[e]` exactly when it
/// matches `e`.
pub proof fn lemma_matches_single(c: Contents, e: Extras)
    ensures
        spec_matches_all(c, seq![e]) <==> spec_matches_extra(c, e),
{
    let es = seq![e];
    assert(es[0] == e);
}

/// A record survives the pair `[a, b]` exactly when it matches `a`
/// and matches `b`.
pub proof fn lemma_matches_pair(c: Contents, a: Extras, b: Extras)
    ensures
        spec_matches_all(c, seq![a, b]) <==> (spec_matches_extra(c, a) && spec_matches_extra(
            c,
            b,
        )),
{
    let es = seq![a, b];
    assert(es[0] == a);
    assert(es[1] == b);
}

/// Whatever the batch and whatever the predicates, the pipeline's
/// output is a subsequence of its input: order is preserved.
pub proof fn lemma_filter_order_preserving(batch: Seq<Meal>, es: Seq<Extras>)
    ensures
        is_subsequence_of(spec_filter_batch(batch, es), batch),
    decreases batch.len(),
{
    reveal(Seq::filter);
    if batch.len() > 0 {
        let prior = batch.drop_last();
        let m = batch.last();
        lemma_filter_order_preserving(prior, es);
        if spec_matches_all(m.contents, es) {
            let fp = spec_filter_batch(prior, es);
            assert(spec_filter_batch(batch, es) == fp.push(m));
            assert(fp.push(m).last() == m);
            assert(fp.push(m).drop_last() =~= fp);
        } else {
            lemma_subsequence_extend_right(spec_filter_batch(prior, es), prior, m);
        }
    }
}

/// A subsequence of `ys` is still a subsequence after `ys` grows at
/// the end.
proof fn lemma_subsequence_extend_right<A>(xs: Seq<A>, ys: Seq<A>, y: A)
    requires
        is_subsequence_of(xs, ys),
    ensures
        is_subsequence_of(xs, ys.push(y)),
{
    if xs.len() > 0 {
        assert(ys.push(y).len() > 0);
        assert(ys.push(y).drop_last() =~= ys);
    }
}

} // verus!
