//! What holds of an accumulator across pushes, reads and revisions, and of
//! the stack of the runtime across computations.
//!
//! Each law is stated over the mathematical content of the accumulator and
//! of the runtime, in the terms in which the operations state their
//! effect, and holds of every state.

use vstd::prelude::*;
use crate::accumulator::{
    after_push, after_pushes, after_validation, discard_event, produced_in, pushed_by,
    AccumulatedValuesView, Buckets,
};
use crate::key::{DatabaseKeyIndex, DependencyIndex};
use crate::revision::Revision;
use crate::runtime::{Edge, RuntimeView};

verus! {

/// Ordering. After any pushes made in one revision, by any computations in
/// any interleaving, a read of the bucket of `query` in that revision
/// yields what the bucket yielded before, followed by the values that
/// `query` pushed, in the order it pushed them. If `query` had
/// accumulated nothing in this revision before, the read yields exactly
/// the values it pushed.
pub proof fn law_pushes_are_read_back_in_order<Data>(
    buckets: Buckets<Data>,
    now: Revision,
    pushes: Seq<(DatabaseKeyIndex, Data)>,
    query: DatabaseKeyIndex,
)
    ensures
        produced_in(after_pushes(buckets, now, pushes), query, now) == produced_in(buckets, query, now)
            + pushed_by(pushes, query),
        produced_in(buckets, query, now).len() == 0 ==> produced_in(
            after_pushes(buckets, now, pushes),
            query,
            now,
        ) == pushed_by(pushes, query),
    decreases pushes.len(),
{
    if pushes.len() > 0 {
        law_pushes_are_read_back_in_order(buckets, now, pushes.drop_last(), query);
    }
}

/// The pushes of a single computation: every value of `values`, pushed by
/// `executor`.
pub open spec fn pushes_of<Data>(executor: DatabaseKeyIndex, values: Seq<Data>) -> Seq<(DatabaseKeyIndex, Data)> {
    Seq::new(values.len(), |i: int| (executor, values[i]))
}

/// Ordering, for one computation. If `query` pushes `values` in a
/// revision in which it had accumulated nothing before, a read of its
/// bucket in that revision yields exactly `values`.
pub proof fn law_own_pushes_are_read_back_exactly<Data>(
    buckets: Buckets<Data>,
    now: Revision,
    values: Seq<Data>,
    query: DatabaseKeyIndex,
)
    requires
        buckets.contains_key(query) ==> buckets[query].produced_at != now,
    ensures
        produced_in(after_pushes(buckets, now, pushes_of(query, values)), query, now) == values,
{
    law_pushes_are_read_back_in_order(buckets, now, pushes_of(query, values), query);
    lemma_pushed_by_of_own_pushes(query, values);
}

proof fn lemma_pushed_by_of_own_pushes<Data>(executor: DatabaseKeyIndex, values: Seq<Data>)
    ensures
        pushed_by(pushes_of(executor, values), executor) == values,
    decreases values.len(),
{
    if values.len() > 0 {
        lemma_pushed_by_of_own_pushes(executor, values.drop_last());
        assert(pushes_of(executor, values).drop_last() =~= pushes_of(executor, values.drop_last()));
    }
}

/// Revision reset. The first push of a computation in a revision other
/// than the one its bucket is stamped with drops what the bucket held: the
/// bucket then holds the new value alone, and so does a read.
pub proof fn law_push_in_new_revision_starts_over<Data>(
    buckets: Buckets<Data>,
    executor: DatabaseKeyIndex,
    now: Revision,
    value: Data,
)
    requires
        buckets.contains_key(executor),
        buckets[executor].produced_at != now,
    ensures
        after_push(buckets, executor, now, value)[executor] == (AccumulatedValuesView {
            produced_at: now,
            values: seq![value],
        }),
        produced_in(after_push(buckets, executor, now, value), executor, now) == seq![value],
{
}

/// Staleness. A read of a bucket that is missing or that was not stamped in
/// the current revision yields nothing.
pub proof fn law_stale_bucket_reads_empty<Data>(buckets: Buckets<Data>, query: DatabaseKeyIndex, now: Revision)
    requires
        buckets.contains_key(query) ==> buckets[query].produced_at != now,
    ensures
        produced_in(buckets, query, now) == Seq::<Data>::empty(),
{
}

/// Idempotent read. A read changes neither the buckets nor the clock, so
/// a second read in its wake yields what the first one yielded; and the
/// second read marks on the runtime nothing that the first one had not
/// marked.
pub proof fn law_read_is_idempotent<Data>(buckets: Buckets<Data>, runtime: RuntimeView, query: DatabaseKeyIndex)
    ensures
        produced_in(buckets, query, runtime.with_untracked_read().current_revision) == produced_in(
            buckets,
            query,
            runtime.current_revision,
        ),
        runtime.with_untracked_read().with_untracked_read() == runtime.with_untracked_read(),
{
    assert(runtime.with_untracked_read().with_untracked_read().stack =~= runtime.with_untracked_read().stack);
}

/// Discard on invalidation. Once the bucket of a computation was removed,
/// a read of it yields nothing in any revision, until the computation
/// pushes again.
pub proof fn law_discarded_bucket_reads_empty<Data>(buckets: Buckets<Data>, executor: DatabaseKeyIndex, now: Revision)
    ensures
        produced_in(buckets.remove(executor), executor, now) == Seq::<Data>::empty(),
{
}

/// Discard on invalidation, the event. Removing the bucket of a
/// computation that has one is reported by exactly one event: the removal
/// itself has an event due, and a second removal in its wake has none and
/// changes nothing.
pub proof fn law_discard_is_reported_once<Data>(
    buckets: Buckets<Data>,
    runtime: RuntimeView,
    executor: DatabaseKeyIndex,
    accumulator: DependencyIndex,
)
    requires
        buckets.contains_key(executor),
    ensures
        discard_event(buckets, runtime, executor, accumulator) is Some,
        discard_event(buckets.remove(executor), runtime, executor, accumulator) is None,
        buckets.remove(executor).remove(executor) == buckets.remove(executor),
{
}

/// Validation carry-forward. Once a computation that has a bucket was
/// confirmed unchanged in revision `now`, the bucket holds the values it
/// held and is stamped `now`: a read in `now` yields those values. The
/// bucket of any other computation is as it was.
pub proof fn law_validated_bucket_carries_forward<Data>(
    buckets: Buckets<Data>,
    executor: DatabaseKeyIndex,
    now: Revision,
)
    requires
        buckets.contains_key(executor),
    ensures
        after_validation(buckets, executor, now)[executor] == (AccumulatedValuesView {
            produced_at: now,
            values: buckets[executor].values,
        }),
        produced_in(after_validation(buckets, executor, now), executor, now) == buckets[executor].values,
        forall|other: DatabaseKeyIndex|
            other != executor ==> after_validation(buckets, executor, now).contains_key(other)
                == buckets.contains_key(other) && after_validation(buckets, executor, now)[other]
                == buckets[other],
{
}

/// Nesting. Computations are entered and left last in, first out: once a
/// computation that was entered is left, the runtime is as it was before,
/// whatever the computation recorded on its own frame while it ran.
pub proof fn law_frames_nest(runtime: RuntimeView, key: DatabaseKeyIndex, edge: Edge)
    ensures
        runtime.entered(key).active_query() == Some(key),
        runtime.entered(key).left() == runtime,
        runtime.entered(key).with_edge(edge).left() == runtime,
        runtime.entered(key).with_untracked_read().left() == runtime,
{
    assert(runtime.entered(key).left().stack =~= runtime.stack);
    assert(runtime.entered(key).with_edge(edge).left().stack =~= runtime.stack);
    assert(runtime.entered(key).with_untracked_read().left().stack =~= runtime.stack);
}

} // verus!
