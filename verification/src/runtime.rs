//! The stack of computations that are running, and the edges they record.

use vstd::prelude::*;
use crate::cycle::Cycle;
use crate::event::RuntimeId;
use crate::key::{DatabaseKeyIndex, DependencyIndex};
use crate::revision::Revision;
use crate::violation::ContractViolation;

verus! {

/// Whether a computation read the target or produced it.
#[derive(Clone, Copy, Debug, PartialEq, Eq, Structural, Hash)]
pub enum EdgeKind {
    Input,
    Output,
}

/// One edge recorded on a running computation.
#[derive(Clone, Copy, Debug, PartialEq, Eq, Structural, Hash)]
pub struct Edge {
    pub kind: EdgeKind,
    pub target: DependencyIndex,
}

/// `edges` with `edge` recorded: appended if it is new, otherwise nothing
/// changes. Edges form a set that remembers the order of first insertion.
pub open spec fn record_edge(edges: Seq<Edge>, edge: Edge) -> Seq<Edge> {
    if edges.contains(edge) {
        edges
    } else {
        edges.push(edge)
    }
}

/// Recording an edge keeps the edges free of duplicates.
pub proof fn lemma_record_edge_no_duplicates(edges: Seq<Edge>, edge: Edge)
    requires
        edges.no_duplicates(),
    ensures
        record_edge(edges, edge).no_duplicates(),
        record_edge(edges, edge).contains(edge),
{
    if !edges.contains(edge) {
        assert(edges.push(edge)[edges.len() as int] == edge);
    }
}

/// How a stored value came to be.
#[derive(Debug, PartialEq, Eq)]
pub enum QueryOrigin {
    /// A plain input: nothing produced it.
    BaseInput,
    /// Produced by a computation all of whose reads were recorded.
    Derived(Vec<Edge>),
    /// Produced by a computation that also read something it could not
    /// record. Such a value has to be treated as possibly stale in every
    /// later revision.
    DerivedUntracked(Vec<Edge>),
}

/// The mathematical content of a [`QueryOrigin`].
pub enum QueryOriginView {
    BaseInput,
    Derived(Seq<Edge>),
    DerivedUntracked(Seq<Edge>),
}

impl View for QueryOrigin {
    type V = QueryOriginView;

    open spec fn view(&self) -> QueryOriginView {
        match self {
            QueryOrigin::BaseInput => QueryOriginView::BaseInput,
            QueryOrigin::Derived(edges) => QueryOriginView::Derived(edges@),
            QueryOrigin::DerivedUntracked(edges) => QueryOriginView::DerivedUntracked(edges@),
        }
    }
}

/// The mathematical content of one frame of the stack.
pub struct ActiveQueryView {
    pub database_key_index: DatabaseKeyIndex,
    pub input_outputs: Seq<Edge>,
    pub untracked_read: bool,
}

impl ActiveQueryView {
    /// The frame of a computation that has just been entered.
    pub open spec fn fresh(key: DatabaseKeyIndex) -> ActiveQueryView {
        ActiveQueryView { database_key_index: key, input_outputs: Seq::empty(), untracked_read: false }
    }

    pub open spec fn with_edge(self, edge: Edge) -> ActiveQueryView {
        ActiveQueryView { input_outputs: record_edge(self.input_outputs, edge), ..self }
    }

    pub open spec fn with_untracked_read(self) -> ActiveQueryView {
        ActiveQueryView { untracked_read: true, ..self }
    }

    /// What the frame says of the value its computation produces.
    pub open spec fn origin(self) -> QueryOriginView {
        if self.untracked_read {
            QueryOriginView::DerivedUntracked(self.input_outputs)
        } else {
            QueryOriginView::Derived(self.input_outputs)
        }
    }

    pub open spec fn well_formed(self) -> bool {
        self.input_outputs.no_duplicates()
    }
}

struct ActiveQuery {
    database_key_index: DatabaseKeyIndex,
    input_outputs: Vec<Edge>,
    untracked_read: bool,
}

impl View for ActiveQuery {
    type V = ActiveQueryView;

    closed spec fn view(&self) -> ActiveQueryView {
        ActiveQueryView {
            database_key_index: self.database_key_index,
            input_outputs: self.input_outputs@,
            untracked_read: self.untracked_read,
        }
    }
}

impl ActiveQuery {
    fn new(key: DatabaseKeyIndex) -> (frame: ActiveQuery)
        ensures
            frame@ == ActiveQueryView::fresh(key),
    {
        ActiveQuery { database_key_index: key, input_outputs: Vec::new(), untracked_read: false }
    }

    fn has_edge(&self, edge: Edge) -> (found: bool)
        ensures
            found == self@.input_outputs.contains(edge),
    {
        let mut i: usize = 0;
        while i < self.input_outputs.len()
            invariant
                i <= self.input_outputs.len(),
                forall|j: int| 0 <= j < i ==> self.input_outputs@[j] != edge,
            decreases self.input_outputs.len() - i,
        {
            if self.input_outputs[i] == edge {
                return true;
            }
            i += 1;
        }
        false
    }

    fn add_edge(&mut self, edge: Edge)
        ensures
            final(self)@ == old(self)@.with_edge(edge),
    {
        if !self.has_edge(edge) {
            self.input_outputs.push(edge);
        }
    }

    fn into_origin(self) -> (origin: QueryOrigin)
        ensures
            origin@ == self@.origin(),
    {
        if self.untracked_read {
            QueryOrigin::DerivedUntracked(self.input_outputs)
        } else {
            QueryOrigin::Derived(self.input_outputs)
        }
    }
}

/// The mathematical content of a [`Runtime`].
pub struct RuntimeView {
    pub id: RuntimeId,
    pub current_revision: Revision,
    /// The running computations, outermost first.
    pub stack: Seq<ActiveQueryView>,
}

impl RuntimeView {
    /// The computation on top of the stack, if any is running.
    pub open spec fn active_query(self) -> Option<DatabaseKeyIndex> {
        if self.stack.len() == 0 {
            None
        } else {
            Some(self.stack.last().database_key_index)
        }
    }

    /// Whether `key` is running, at any depth of the stack.
    pub open spec fn is_running(self, key: DatabaseKeyIndex) -> bool {
        exists|i: int| 0 <= i < self.stack.len() && (#[trigger] self.stack[i]).database_key_index == key
    }

    /// The runtime after `key` was entered.
    pub open spec fn entered(self, key: DatabaseKeyIndex) -> RuntimeView {
        RuntimeView { stack: self.stack.push(ActiveQueryView::fresh(key)), ..self }
    }

    /// The runtime after the topmost computation was left.
    pub open spec fn left(self) -> RuntimeView {
        RuntimeView { stack: self.stack.drop_last(), ..self }
    }

    /// The runtime after `edge` was recorded on the topmost computation.
    /// With nothing running, nothing is recorded.
    pub open spec fn with_edge(self, edge: Edge) -> RuntimeView {
        if self.stack.len() == 0 {
            self
        } else {
            RuntimeView {
                stack: self.stack.update(self.stack.len() - 1, self.stack.last().with_edge(edge)),
                ..self
            }
        }
    }

    /// The runtime after an untracked read was reported. With nothing
    /// running, nothing is marked.
    pub open spec fn with_untracked_read(self) -> RuntimeView {
        if self.stack.len() == 0 {
            self
        } else {
            RuntimeView {
                stack: self.stack.update(self.stack.len() - 1, self.stack.last().with_untracked_read()),
                ..self
            }
        }
    }

    /// No computation is on the stack twice, and no frame holds an edge
    /// twice.
    pub open spec fn well_formed(self) -> bool {
        &&& forall|i: int| 0 <= i < self.stack.len() ==> (#[trigger] self.stack[i]).well_formed()
        &&& forall|i: int, j: int|
            0 <= i < j < self.stack.len() ==> (#[trigger] self.stack[i]).database_key_index != (
            #[trigger] self.stack[j]).database_key_index
    }
}

spec fn frames(stack: Seq<ActiveQuery>) -> Seq<ActiveQueryView> {
    Seq::new(stack.len(), |i: int| stack[i]@)
}

/// The execution context of one request: the revision it runs in and the
/// stack of computations that are in flight.
pub struct Runtime {
    id: RuntimeId,
    revision: Revision,
    query_stack: Vec<ActiveQuery>,
}

impl View for Runtime {
    type V = RuntimeView;

    closed spec fn view(&self) -> RuntimeView {
        RuntimeView {
            id: self.id,
            current_revision: self.revision,
            stack: frames(self.query_stack@),
        }
    }
}

impl Runtime {
    #[verifier::type_invariant]
    pub open spec fn inv(&self) -> bool {
        self@.well_formed()
    }

    /// A runtime in the first revision, with nothing running.
    pub fn new(id: RuntimeId) -> (runtime: Runtime)
        ensures
            runtime@.id == id,
            runtime@.current_revision == Revision::start(),
            runtime@.stack == Seq::<ActiveQueryView>::empty(),
    {
        Runtime { id, revision: Revision::start(), query_stack: Vec::new() }
    }

    pub fn id(&self) -> (id: RuntimeId)
        ensures
            id == self@.id,
    {
        self.id
    }

    /// Reads the clock. Has no effect.
    pub fn current_revision(&self) -> (revision: Revision)
        ensures
            revision == self@.current_revision,
    {
        self.revision
    }

    /// The computation on top of the stack, if any is running.
    pub fn active_query(&self) -> (active: Option<DatabaseKeyIndex>)
        ensures
            active == self@.active_query(),
    {
        let depth: usize = self.query_stack.len();
        if depth == 0 {
            None
        } else {
            Some(self.query_stack[depth - 1].database_key_index)
        }
    }

    /// Moves the clock to the next revision and returns it. Only a change
    /// to an input does this, and only while no computation is in flight
    /// that could go on to trust what it read in the old revision.
    pub fn new_revision(&mut self) -> (revision: Revision)
        requires
            old(self)@.active_query() is None,
            old(self)@.current_revision@ < usize::MAX,
        ensures
            revision@ == old(self)@.current_revision@ + 1,
            final(self)@ == (RuntimeView { current_revision: revision, ..old(self)@ }),
    {
        proof {
            use_type_invariant(&*self);
        }
        let revision = self.revision.next();
        self.revision = revision;
        revision
    }

    /// Whether `key` is running, at any depth of the stack.
    pub fn is_running(&self, key: DatabaseKeyIndex) -> (running: bool)
        ensures
            running == self@.is_running(key),
    {
        let mut i: usize = 0;
        while i < self.query_stack.len()
            invariant
                i <= self.query_stack.len(),
                forall|j: int| 0 <= j < i ==> (#[trigger] self@.stack[j]).database_key_index != key,
            decreases self.query_stack.len() - i,
        {
            if self.query_stack[i].database_key_index == key {
                assert(self@.stack[i as int].database_key_index == key);
                return true;
            }
            i += 1;
        }
        false
    }

    /// Enters the computation `key`: a fresh frame goes on top of the
    /// stack. A computation that is already running cannot be entered
    /// again: that is a cycle, and nothing changes.
    pub fn push_query(&mut self, key: DatabaseKeyIndex) -> (result: Result<(), Cycle>)
        ensures
            old(self)@.is_running(key) ==> result == Err::<(), Cycle>(Cycle { key }) && final(self)@ == old(
                self,
            )@,
            !old(self)@.is_running(key) ==> result is Ok && final(self)@ == old(self)@.entered(key),
    {
        proof {
            use_type_invariant(&*self);
        }
        if self.is_running(key) {
            return Err(Cycle { key });
        }
        let mut stack = self.take_stack();
        stack.push(ActiveQuery::new(key));
        assert(frames(stack@) =~= old(self)@.entered(key).stack);
        self.query_stack = stack;
        Ok(())
    }

    /// Leaves the topmost computation and returns it together with the
    /// origin that its frame recorded. With nothing running, nothing
    /// changes.
    pub fn pop_query(&mut self) -> (left: Option<(DatabaseKeyIndex, QueryOrigin)>)
        ensures
            old(self)@.stack.len() == 0 ==> left is None && final(self)@ == old(self)@,
            old(self)@.stack.len() > 0 ==> {
                &&& left matches Some((key, origin))
                &&& key == old(self)@.stack.last().database_key_index
                &&& origin@ == old(self)@.stack.last().origin()
                &&& final(self)@ == old(self)@.left()
            },
    {
        proof {
            use_type_invariant(&*self);
        }
        let mut stack = self.take_stack();
        let top = stack.pop();
        assert(frames(stack@) =~= if top is None { old(self)@.stack } else { old(self)@.left().stack });
        self.query_stack = stack;
        match top {
            None => None,
            Some(frame) => {
                assert(frame@ == old(self)@.stack.last());
                let key = frame.database_key_index;
                Some((key, frame.into_origin()))
            },
        }
    }

    /// Moves the stack out and leaves an empty one behind, so that the
    /// frames can be changed while the runtime stays well formed.
    fn take_stack(&mut self) -> (stack: Vec<ActiveQuery>)
        ensures
            stack == old(self).query_stack,
            final(self).id == old(self).id,
            final(self).revision == old(self).revision,
            final(self).query_stack@.len() == 0,
    {
        let mut stack: Vec<ActiveQuery> = Vec::new();
        std::mem::swap(&mut stack, &mut self.query_stack);
        stack
    }

    fn record(&mut self, edge: Edge)
        ensures
            final(self)@ == old(self)@.with_edge(edge),
    {
        proof {
            use_type_invariant(&*self);
        }
        let mut stack = self.take_stack();
        match stack.pop() {
            None => {},
            Some(frame) => {
                let mut frame = frame;
                proof {
                    assert(frame@ == old(self)@.stack.last());
                    lemma_record_edge_no_duplicates(frame@.input_outputs, edge);
                }
                frame.add_edge(edge);
                stack.push(frame);
            },
        }
        assert(frames(stack@) =~= old(self)@.with_edge(edge).stack);
        self.query_stack = stack;
    }

    /// Records on the running computation that it read `input`. With
    /// nothing running there is nobody to depend on it, and nothing
    /// happens.
    pub fn report_tracked_read(&mut self, input: DependencyIndex)
        ensures
            final(self)@ == old(self)@.with_edge(Edge { kind: EdgeKind::Input, target: input }),
    {
        self.record(Edge { kind: EdgeKind::Input, target: input });
    }

    /// Marks the running computation as having read something that could
    /// not be recorded. With nothing running, nothing happens.
    pub fn report_untracked_read(&mut self)
        ensures
            final(self)@ == old(self)@.with_untracked_read(),
    {
        proof {
            use_type_invariant(&*self);
        }
        let mut stack = self.take_stack();
        match stack.pop() {
            None => {},
            Some(frame) => {
                let mut frame = frame;
                frame.untracked_read = true;
                stack.push(frame);
            },
        }
        assert(frames(stack@) =~= old(self)@.with_untracked_read().stack);
        self.query_stack = stack;
    }

    /// Records on the running computation that it produced `output`. An
    /// output that nobody owns could never be invalidated, so with nothing
    /// running this is a violation and nothing changes.
    pub fn add_output(&mut self, output: DependencyIndex) -> (result: Result<(), ContractViolation>)
        ensures
            old(self)@.stack.len() == 0 ==> result == Err::<(), ContractViolation>(
                ContractViolation::OutputOutsideQuery,
            ) && final(self)@ == old(self)@,
            old(self)@.stack.len() > 0 ==> result is Ok && final(self)@ == old(self)@.with_edge(
                Edge { kind: EdgeKind::Output, target: output },
            ),
    {
        if self.query_stack.len() == 0 {
            return Err(ContractViolation::OutputOutsideQuery);
        }
        self.record(Edge { kind: EdgeKind::Output, target: output });
        Ok(())
    }
}

} // verus!
