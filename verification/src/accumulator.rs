//! The accumulator: a side channel on which a computation emits values.
//!
//! The values a computation pushes are kept in a bucket of its own, stamped
//! with the revision in which they were pushed. A bucket is readable only in
//! the revision of its stamp. Nothing can depend on a bucket: what a
//! computation depends on is the accumulator as a whole.

use vstd::prelude::*;
use std::collections::HashMap;
use crate::cycle::CycleRecoveryStrategy;
use crate::event::{Event, EventKind};
use crate::ingredient::{Ingredient, IngredientRequiresReset};
use crate::key::{DatabaseKeyIndex, DependencyIndex, Id, IngredientIndex};
use crate::revision::Revision;
use crate::runtime::{Edge, EdgeKind, QueryOrigin, Runtime, RuntimeView};
use crate::storage::HasJar;
use crate::violation::ContractViolation;

verus! {

/// A kind of accumulated value, and where a database keeps its
/// accumulator.
pub trait Accumulator {
    /// What is accumulated.
    type Data: Clone;

    /// The jar in which the accumulator is kept.
    type Jar;

    /// The accumulator of this kind in `db`.
    fn accumulator_ingredient<'db, Db>(db: &'db Db) -> &'db AccumulatorIngredient<Self::Data> where
        Db: ?Sized + HasJar<Self::Jar>,
    ;
}

/// The mathematical content of one bucket.
pub struct AccumulatedValuesView<Data> {
    pub produced_at: Revision,
    pub values: Seq<Data>,
}

/// The mathematical content of an accumulator: the bucket of each
/// computation that has one.
pub type Buckets<Data> = Map<DatabaseKeyIndex, AccumulatedValuesView<Data>>;

/// What a read of the bucket of `query` yields in revision `now`: the
/// values in the order they were pushed if the bucket was stamped in
/// `now`, and nothing if it is stale or missing.
pub open spec fn produced_in<Data>(buckets: Buckets<Data>, query: DatabaseKeyIndex, now: Revision) -> Seq<
    Data,
> {
    if buckets.contains_key(query) && buckets[query].produced_at == now {
        buckets[query].values
    } else {
        Seq::empty()
    }
}

/// The buckets after `executor` pushed `value` in revision `now`. Values
/// that a stale bucket still holds are dropped before `value` goes in.
pub open spec fn after_push<Data>(
    buckets: Buckets<Data>,
    executor: DatabaseKeyIndex,
    now: Revision,
    value: Data,
) -> Buckets<Data> {
    buckets.insert(
        executor,
        AccumulatedValuesView { produced_at: now, values: produced_in(buckets, executor, now).push(value) },
    )
}

/// The buckets after each of `pushes` was made, first to last, in revision
/// `now`. A push is the computation that makes it and the value it gives.
pub open spec fn after_pushes<Data>(
    buckets: Buckets<Data>,
    now: Revision,
    pushes: Seq<(DatabaseKeyIndex, Data)>,
) -> Buckets<Data>
    decreases pushes.len(),
{
    if pushes.len() == 0 {
        buckets
    } else {
        after_push(after_pushes(buckets, now, pushes.drop_last()), pushes.last().0, now, pushes.last().1)
    }
}

/// The values that `executor` gave in `pushes`, in the order of `pushes`.
pub open spec fn pushed_by<Data>(pushes: Seq<(DatabaseKeyIndex, Data)>, executor: DatabaseKeyIndex) -> Seq<Data>
    decreases pushes.len(),
{
    if pushes.len() == 0 {
        Seq::empty()
    } else if pushes.last().0 == executor {
        pushed_by(pushes.drop_last(), executor).push(pushes.last().1)
    } else {
        pushed_by(pushes.drop_last(), executor)
    }
}

/// The buckets after `executor` was confirmed unchanged in revision `now`:
/// its bucket, if it has one, keeps its values and is stamped `now`.
pub open spec fn after_validation<Data>(
    buckets: Buckets<Data>,
    executor: DatabaseKeyIndex,
    now: Revision,
) -> Buckets<Data> {
    if buckets.contains_key(executor) {
        buckets.insert(executor, AccumulatedValuesView { produced_at: now, values: buckets[executor].values })
    } else {
        buckets
    }
}

/// The event that is due when the bucket of `executor` is removed from
/// `accumulator`: one that reports the discarding if there is a bucket, and
/// none if there is nothing to discard.
pub open spec fn discard_event<Data>(
    buckets: Buckets<Data>,
    runtime: RuntimeView,
    executor: DatabaseKeyIndex,
    accumulator: DependencyIndex,
) -> Option<Event> {
    if buckets.contains_key(executor) {
        Some(
            Event {
                runtime_id: runtime.id,
                kind: EventKind::DidDiscardAccumulated { executor_key: executor, accumulator },
            },
        )
    } else {
        None
    }
}

/// `after` is `before` followed by one clone of each element of `source`,
/// in order.
pub open spec fn extended_by_clones<Data: Clone>(before: Seq<Data>, source: Seq<Data>, after: Seq<Data>) -> bool {
    &&& after.len() == before.len() + source.len()
    &&& forall|i: int| 0 <= i < before.len() ==> #[trigger] after[i] == before[i]
    &&& forall|i: int| before.len() <= i < after.len() ==> cloned(source[i - before.len()], #[trigger] after[i])
}

struct AccumulatedValues<Data> {
    produced_at: Revision,
    values: Vec<Data>,
}

impl<Data> View for AccumulatedValues<Data> {
    type V = AccumulatedValuesView<Data>;

    closed spec fn view(&self) -> AccumulatedValuesView<Data> {
        AccumulatedValuesView { produced_at: self.produced_at, values: self.values@ }
    }
}

/// The storage unit that holds what computations have accumulated.
///
/// The buckets are kept in a hash map under the [slot](DatabaseKeyIndex::slot)
/// of the computation that owns them.
pub struct AccumulatorIngredient<Data: Clone> {
    index: IngredientIndex,
    map: HashMap<u64, AccumulatedValues<Data>>,
}

impl<Data: Clone> View for AccumulatorIngredient<Data> {
    type V = Buckets<Data>;

    closed spec fn view(&self) -> Buckets<Data> {
        buckets_of(self.map@)
    }
}

/// The buckets that a map from slots holds, by the computation that owns
/// each.
spec fn buckets_of<Data>(map: Map<u64, AccumulatedValues<Data>>) -> Buckets<Data> {
    Map::new(
        |key: DatabaseKeyIndex| map.contains_key(key.slot()),
        |key: DatabaseKeyIndex| map[key.slot()]@,
    )
}

/// To put a bucket under the slot of `key`, whether or not the slot was
/// taken out before, is to insert it for `key`.
proof fn lemma_insert_at_slot<Data>(
    map: Map<u64, AccumulatedValues<Data>>,
    key: DatabaseKeyIndex,
    bucket: AccumulatedValues<Data>,
)
    ensures
        buckets_of(map.insert(key.slot(), bucket)) == buckets_of(map).insert(key, bucket@),
        buckets_of(map.remove(key.slot()).insert(key.slot(), bucket)) == buckets_of(map).insert(key, bucket@),
{
    let expected = buckets_of(map).insert(key, bucket@);
    assert forall|other: DatabaseKeyIndex| other.slot() == key.slot() implies other == key by {
        DatabaseKeyIndex::lemma_slot_injective(other, key);
    }
    assert(buckets_of(map.insert(key.slot(), bucket)) =~= expected);
    assert(buckets_of(map.remove(key.slot()).insert(key.slot(), bucket)) =~= expected);
}

/// To take out the slot of `key` is to remove the bucket of `key`.
proof fn lemma_remove_at_slot<Data>(map: Map<u64, AccumulatedValues<Data>>, key: DatabaseKeyIndex)
    ensures
        buckets_of(map.remove(key.slot())) == buckets_of(map).remove(key),
        !map.contains_key(key.slot()) ==> buckets_of(map.remove(key.slot())) == buckets_of(map),
{
    assert forall|other: DatabaseKeyIndex| other.slot() == key.slot() implies other == key by {
        DatabaseKeyIndex::lemma_slot_injective(other, key);
    }
    assert(buckets_of(map.remove(key.slot())) =~= buckets_of(map).remove(key));
    if !map.contains_key(key.slot()) {
        assert(buckets_of(map.remove(key.slot())) =~= buckets_of(map));
    }
}

impl<Data: Clone> AccumulatorIngredient<Data> {
    /// The index under which this accumulator is registered.
    pub closed spec fn ingredient_index(&self) -> IngredientIndex {
        self.index
    }

    /// What a computation that pushes here is recorded to have produced:
    /// the accumulator as a whole.
    pub open spec fn spec_dependency_index(&self) -> DependencyIndex {
        DependencyIndex { ingredient_index: self.ingredient_index(), key_index: None }
    }

    /// An accumulator without buckets.
    pub fn new(index: IngredientIndex) -> (ingredient: Self)
        ensures
            ingredient.ingredient_index() == index,
            ingredient@ == Map::<DatabaseKeyIndex, AccumulatedValuesView<Data>>::empty(),
    {
        Self { map: HashMap::new(), index }
    }

    /// What a computation that pushes here is recorded to have produced:
    /// the accumulator as a whole.
    #[verifier::when_used_as_spec(spec_dependency_index)]
    pub fn dependency_index(&self) -> (dependency: DependencyIndex)
        ensures
            dependency == self.spec_dependency_index(),
    {
        DependencyIndex { ingredient_index: self.index, key_index: None }
    }

    /// Accumulates `value` for the computation that is running.
    ///
    /// The value goes to the end of that computation's bucket, after the
    /// bucket was emptied if its stamp is not the current revision, and the
    /// computation is recorded to have produced output here. With no
    /// computation running this is a violation and nothing changes.
    pub fn push(&mut self, runtime: &mut Runtime, value: Data) -> (result: Result<(), ContractViolation>)
        ensures
            final(self).ingredient_index() == old(self).ingredient_index(),
            match old(runtime)@.active_query() {
                None => {
                    &&& result == Err::<(), ContractViolation>(ContractViolation::AccumulateOutsideQuery)
                    &&& final(self)@ == old(self)@
                    &&& final(runtime)@ == old(runtime)@
                },
                Some(active_query) => {
                    &&& result is Ok
                    &&& final(self)@ == after_push(
                        old(self)@,
                        active_query,
                        old(runtime)@.current_revision,
                        value,
                    )
                    &&& final(runtime)@ == old(runtime)@.with_edge(
                        Edge { kind: EdgeKind::Output, target: old(self).dependency_index() },
                    )
                },
            },
    {
        let current_revision = runtime.current_revision();
        let active_query = match runtime.active_query() {
            Some(key) => key,
            None => {
                return Err(ContractViolation::AccumulateOutsideQuery);
            },
        };
        // A computation is running, so the output has an owner.
        match runtime.add_output(self.dependency_index()) {
            Ok(()) => {},
            Err(violation) => {
                return Err(violation);
            },
        }

        let slot = active_query.to_slot();
        let mut accumulated_values = match self.map.remove(&slot) {
            Some(bucket) => bucket,
            None => AccumulatedValues { values: Vec::new(), produced_at: current_revision },
        };

        // The first push in a new revision starts over.
        if accumulated_values.produced_at != current_revision {
            accumulated_values.values.truncate(0);
            accumulated_values.produced_at = current_revision;
        }
        accumulated_values.values.push(value);
        proof {
            assert(accumulated_values@.values =~= produced_in(old(self)@, active_query, current_revision).push(
                value,
            ));
            lemma_insert_at_slot(old(self).map@, active_query, accumulated_values);
        }
        self.map.insert(slot, accumulated_values);
        Ok(())
    }

    /// Appends to `output` what `query` has accumulated in the current
    /// revision, in the order it was pushed; a bucket that is stale or
    /// missing contributes nothing.
    ///
    /// What is read here is not the result of `query`, so the read cannot
    /// be recorded as a dependency on it: every read, whether `query` has a
    /// bucket or not, marks the running computation as having made an
    /// untracked read.
    pub fn produced_by(&self, runtime: &mut Runtime, query: DatabaseKeyIndex, output: &mut Vec<Data>)
        ensures
            final(runtime)@ == old(runtime)@.with_untracked_read(),
            extended_by_clones(
                old(output)@,
                produced_in(self@, query, old(runtime)@.current_revision),
                final(output)@,
            ),
            produced_in(self@, query, old(runtime)@.current_revision).len() == 0 ==> final(output)@ == old(
                output,
            )@,
    {
        let current_revision = runtime.current_revision();
        runtime.report_untracked_read();
        let slot = query.to_slot();
        match self.map.get(&slot) {
            Some(accumulated_values) => {
                if accumulated_values.produced_at == current_revision {
                    output.extend_from_slice(accumulated_values.values.as_slice());
                }
            },
            None => {},
        }
    }
}

impl<Data: Clone> Ingredient for AccumulatorIngredient<Data> {
    /// Nothing may depend on an accumulator directly: always a violation.
    fn maybe_changed_after(&self, runtime: &Runtime, input: DependencyIndex, revision: Revision) -> (result:
        Result<bool, ContractViolation>)
        ensures
            result == Err::<bool, ContractViolation>(ContractViolation::DependOnAccumulator),
    {
        Err(ContractViolation::DependOnAccumulator)
    }

    fn cycle_recovery_strategy(&self) -> (strategy: CycleRecoveryStrategy)
        ensures
            strategy == CycleRecoveryStrategy::Panic,
    {
        CycleRecoveryStrategy::Panic
    }

    /// A bucket is no memoized value: it has no origin.
    fn origin(&self, key_index: Id) -> (origin: Option<QueryOrigin>)
        ensures
            origin is None,
    {
        None
    }

    /// Stamps the bucket of `executor` with the current revision and keeps
    /// its values: `executor` did not run again, and what it accumulated
    /// is still current. An `output_key` that names an entry is a
    /// violation, and nothing changes.
    fn mark_validated_output(
        &mut self,
        runtime: &Runtime,
        executor: DatabaseKeyIndex,
        output_key: Option<Id>,
    ) -> (result: Result<(), ContractViolation>)
        ensures
            final(self).ingredient_index() == old(self).ingredient_index(),
            match output_key {
                Some(_) => {
                    &&& result == Err::<(), ContractViolation>(ContractViolation::UnexpectedOutputKey)
                    &&& final(self)@ == old(self)@
                },
                None => {
                    &&& result is Ok
                    &&& final(self)@ == after_validation(old(self)@, executor, runtime@.current_revision)
                },
            },
    {
        if output_key.is_some() {
            return Err(ContractViolation::UnexpectedOutputKey);
        }
        let current_revision = runtime.current_revision();
        let slot = executor.to_slot();
        match self.map.remove(&slot) {
            Some(bucket) => {
                let mut accumulated_values = bucket;
                accumulated_values.produced_at = current_revision;
                proof {
                    lemma_insert_at_slot(old(self).map@, executor, accumulated_values);
                }
                self.map.insert(slot, accumulated_values);
            },
            None => {
                proof {
                    lemma_remove_at_slot(old(self).map@, executor);
                }
            },
        }
        Ok(())
    }

    /// Removes the bucket of `executor`. Returns the event that reports
    /// the discarding if there was a bucket, and no event if there was
    /// none. A `stale_output_key` that names an entry is a violation, and
    /// nothing changes.
    fn remove_stale_output(
        &mut self,
        runtime: &Runtime,
        executor: DatabaseKeyIndex,
        stale_output_key: Option<Id>,
    ) -> (result: Result<Option<Event>, ContractViolation>)
        ensures
            final(self).ingredient_index() == old(self).ingredient_index(),
            match stale_output_key {
                Some(_) => {
                    &&& result == Err::<Option<Event>, ContractViolation>(
                        ContractViolation::UnexpectedOutputKey,
                    )
                    &&& final(self)@ == old(self)@
                },
                None => {
                    &&& result == Ok::<Option<Event>, ContractViolation>(
                        discard_event(old(self)@, runtime@, executor, old(self).dependency_index()),
                    )
                    &&& final(self)@ == old(self)@.remove(executor)
                },
            },
    {
        if stale_output_key.is_some() {
            return Err(ContractViolation::UnexpectedOutputKey);
        }
        let slot = executor.to_slot();
        let removed = self.map.remove(&slot);
        proof {
            lemma_remove_at_slot(old(self).map@, executor);
        }
        match removed {
            Some(_) => Ok(
                Some(
                    Event {
                        runtime_id: runtime.id(),
                        kind: EventKind::DidDiscardAccumulated {
                            executor_key: executor,
                            accumulator: self.dependency_index(),
                        },
                    },
                ),
            ),
            None => Ok(None),
        }
    }

    /// An accumulator starts over by itself, at the first push of a new
    /// revision; to reset it from outside is always a violation.
    fn reset_for_new_revision(&mut self) -> (result: Result<(), ContractViolation>)
        ensures
            result == Err::<(), ContractViolation>(ContractViolation::ResetAccumulator),
            final(self)@ == old(self)@,
            final(self).ingredient_index() == old(self).ingredient_index(),
    {
        Err(ContractViolation::ResetAccumulator)
    }

    /// An accumulator depends on no tracked struct: always a violation.
    fn salsa_struct_deleted(&self, id: Id) -> (result: Result<(), ContractViolation>)
        ensures
            result == Err::<(), ContractViolation>(ContractViolation::UnexpectedStructDeletion),
    {
        Err(ContractViolation::UnexpectedStructDeletion)
    }
}

impl<Data: Clone> IngredientRequiresReset for AccumulatorIngredient<Data> {
    const RESET_ON_NEW_REVISION: bool = false;
}

} // verus!
