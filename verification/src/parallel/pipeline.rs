//! The bounded-concurrency pipeline.
//!
//! The pipeline keeps the books for a worker pool: which inputs have been
//! started, which workflows are in flight, and in which order results were
//! emitted. It never performs a workflow itself. The program around it asks
//! [`Pipeline::next_action`] what to do, pulls an input or awaits a
//! completion accordingly, and reports back what happened.

use vstd::prelude::*;

verus! {

/// The stage of a workflow at which it failed.
#[derive(Debug, Clone, Copy, PartialEq, Eq, Structural)]
pub enum Stage {
    /// Creating the remote job.
    Submitting,
    /// Waiting for the remote job to reach a terminal state.
    Polling,
}

/// Why a workflow failed.
#[derive(Debug, Clone, Copy, PartialEq, Eq, Structural)]
pub enum FailureKind {
    /// The platform refused the request or reported a failed job.
    Permanent,
    /// More temporary failures than the policy forgives.
    ErrorBudgetExhausted,
    /// The policy's timeout passed.
    Timeout,
}

/// The tag under which a finished item is emitted.
#[derive(Debug, Clone, Copy, PartialEq, Eq, Structural)]
pub enum ItemOutcome {
    /// The workflow returned its resource.
    Succeeded,
    /// The workflow failed at this stage, for this reason.
    Failed(Stage, FailureKind),
}

/// What the program around the pipeline has to do next.
#[derive(Debug, Clone, Copy, PartialEq, Eq, Structural)]
pub enum PipelineAction {
    /// A slot is free: pull the next input and start it (while also
    /// watching the workflows in flight, if there are any).
    Pull,
    /// No slot is free, or the input has ended: await the completion of a
    /// workflow in flight.
    Await,
    /// The input has ended and nothing is in flight: all results are out.
    Done,
}

/// What can happen to a pipeline.
#[derive(Debug, Clone, Copy, PartialEq, Eq, Structural)]
pub enum PipelineEvent {
    /// An input is offered.
    Input,
    /// The input ends.
    EndOfInput,
    /// The workflow with this ticket is reported complete, with this tag.
    Completion(u64, ItemOutcome),
}

/// The pipeline as a mathematical value.
pub struct PipelineView {
    /// The cap on workflows in flight.
    pub max_concurrency: nat,
    /// How many inputs were started so far; they carry the tickets
    /// `0..started`.
    pub started: nat,
    /// Whether the end of the input was seen.
    pub input_ended: bool,
    /// The tickets of the workflows in flight, oldest first.
    pub in_flight: Seq<u64>,
    /// The tickets of the emitted results, in order of completion.
    pub emitted: Seq<u64>,
    /// The tag of each emitted result, in the same order.
    pub outcomes: Seq<ItemOutcome>,
}

impl PipelineView {
    /// The books balance: every started ticket is either in flight or
    /// emitted, never both and never twice, and the cap is respected.
    pub open spec fn wf(self) -> bool {
        &&& 1 <= self.max_concurrency <= usize::MAX
        &&& self.started <= u64::MAX
        &&& self.in_flight.len() <= self.max_concurrency
        &&& self.in_flight.len() + self.emitted.len() == self.started
        &&& self.outcomes.len() == self.emitted.len()
        &&& self.in_flight.no_duplicates()
        &&& self.emitted.no_duplicates()
        &&& forall|i: int| 0 <= i < self.in_flight.len() ==> #[trigger] self.in_flight[i]
            < self.started
        &&& forall|i: int| 0 <= i < self.emitted.len() ==> #[trigger] self.emitted[i]
            < self.started
        &&& forall|i: int, j: int|
            0 <= i < self.in_flight.len() && 0 <= j < self.emitted.len()
                ==> #[trigger] self.in_flight[i] != #[trigger] self.emitted[j]
        &&& forall|t: u64|
            t < self.started ==> #[trigger] self.in_flight.contains(t) || self.emitted.contains(t)
    }

    /// A new input may be started: the input has not ended, a slot is
    /// free, and a ticket number is left.
    pub open spec fn can_start(self) -> bool {
        !self.input_ended && self.in_flight.len() < self.max_concurrency && self.started
            < u64::MAX
    }

    /// No further input will be started.
    pub open spec fn input_closed(self) -> bool {
        self.input_ended || self.started >= u64::MAX
    }

    /// What to do in this state.
    pub open spec fn next_action(self) -> PipelineAction {
        if self.can_start() {
            PipelineAction::Pull
        } else if self.in_flight.len() > 0 {
            PipelineAction::Await
        } else {
            PipelineAction::Done
        }
    }

    /// The state after the next input was started.
    pub open spec fn start(self) -> PipelineView {
        PipelineView {
            started: self.started + 1,
            in_flight: self.in_flight.push(self.started as u64),
            ..self
        }
    }

    /// The state after the workflow `ticket` completed with `outcome`.
    pub open spec fn complete(self, ticket: u64, outcome: ItemOutcome) -> PipelineView {
        PipelineView {
            in_flight: self.in_flight.remove(self.in_flight.index_of(ticket)),
            emitted: self.emitted.push(ticket),
            outcomes: self.outcomes.push(outcome),
            ..self
        }
    }

    /// A new pipeline with `max_concurrency` slots.
    pub open spec fn initial(max_concurrency: nat) -> PipelineView {
        PipelineView {
            max_concurrency,
            started: 0,
            input_ended: false,
            in_flight: Seq::empty(),
            emitted: Seq::empty(),
            outcomes: Seq::empty(),
        }
    }

    /// The state after one event. An input that cannot be started, and a
    /// completion of a workflow that is not in flight, change nothing.
    pub open spec fn apply(self, event: PipelineEvent) -> PipelineView {
        match event {
            PipelineEvent::Input => if self.can_start() {
                self.start()
            } else {
                self
            },
            PipelineEvent::EndOfInput => PipelineView { input_ended: true, ..self },
            PipelineEvent::Completion(ticket, outcome) => if self.in_flight.contains(ticket) {
                self.complete(ticket, outcome)
            } else {
                self
            },
        }
    }

    /// The state of a new pipeline after a series of events.
    pub open spec fn after(max_concurrency: nat, events: Seq<PipelineEvent>) -> PipelineView
        decreases events.len(),
    {
        if events.len() == 0 {
            Self::initial(max_concurrency)
        } else {
            Self::after(max_concurrency, events.drop_last()).apply(events.last())
        }
    }
}

/// The books of a worker pool with a fixed number of slots.
#[derive(Debug)]
pub struct Pipeline {
    max_concurrency: usize,
    started: u64,
    input_ended: bool,
    in_flight: Vec<u64>,
    emitted: Vec<u64>,
    outcomes: Vec<ItemOutcome>,
}

/// The first position of `x` in `v`, if it occurs.
fn position(v: &Vec<u64>, x: u64) -> (r: Option<usize>)
    ensures
        match r {
            Some(i) => i < v.len() && v@[i as int] == x && forall|j: int|
                0 <= j < i ==> v@[j] != x,
            None => !v@.contains(x),
        },
{
    let mut i: usize = 0;
    while i < v.len()
        invariant
            i <= v.len(),
            forall|j: int| 0 <= j < i ==> v@[j] != x,
        decreases v.len() - i,
    {
        if v[i] == x {
            return Some(i);
        }
        i = i + 1;
    }
    None
}

impl View for Pipeline {
    type V = PipelineView;

    closed spec fn view(&self) -> PipelineView {
        PipelineView {
            max_concurrency: self.max_concurrency as nat,
            started: self.started as nat,
            input_ended: self.input_ended,
            in_flight: self.in_flight@,
            emitted: self.emitted@,
            outcomes: self.outcomes@,
        }
    }
}

impl Pipeline {
    #[verifier::type_invariant]
    spec fn balanced(self) -> bool {
        self@.wf()
    }

    /// A pipeline of one slot that holds nothing; it stands in while the
    /// books of another are rewritten.
    fn placeholder() -> (r: Pipeline)
        ensures
            r.in_flight@.len() == 0,
            r.emitted@.len() == 0,
            r.outcomes@.len() == 0,
    {
        Pipeline {
            max_concurrency: 1,
            started: 0,
            input_ended: false,
            in_flight: Vec::new(),
            emitted: Vec::new(),
            outcomes: Vec::new(),
        }
    }

    /// A pipeline with `max_concurrency` slots, nothing started and the
    /// input still open. A pipeline without slots could never start
    /// anything, so zero is refused.
    pub fn new(max_concurrency: usize) -> (r: Option<Pipeline>)
        ensures
            r is Some <==> max_concurrency >= 1,
            r matches Some(p) ==> p@.wf() && p@ == PipelineView::initial(max_concurrency as nat),
    {
        if max_concurrency == 0 {
            None
        } else {
            Some(
                Pipeline {
                    max_concurrency,
                    started: 0,
                    input_ended: false,
                    in_flight: Vec::new(),
                    emitted: Vec::new(),
                    outcomes: Vec::new(),
                },
            )
        }
    }

    /// What the program has to do next.
    pub fn next_action(&self) -> (r: PipelineAction)
        ensures
            self@.wf(),
            r == self@.next_action(),
    {
        proof {
            use_type_invariant(&*self);
        }
        if !self.input_ended && self.in_flight.len() < self.max_concurrency && self.started
            < u64::MAX {
            PipelineAction::Pull
        } else if self.in_flight.len() > 0 {
            PipelineAction::Await
        } else {
            PipelineAction::Done
        }
    }

    /// Start the next input, if a slot is free and the input is open. The
    /// input gets the next ticket, which is returned; otherwise nothing
    /// changes and the caller keeps the input for later.
    pub fn start_next(&mut self) -> (r: Option<u64>)
        ensures
            old(self)@.wf(),
            final(self)@.wf(),
            r is Some <==> old(self)@.can_start(),
            r matches Some(ticket) ==> ticket == old(self)@.started && final(self)@ == old(
                self,
            )@.start(),
            r is None ==> final(self)@ == old(self)@,
            final(self)@ == old(self)@.apply(PipelineEvent::Input),
    {
        proof {
            use_type_invariant(&*self);
        }
        if !self.input_ended && self.in_flight.len() < self.max_concurrency && self.started
            < u64::MAX {
            let ghost before = self@;
            let mut taken = Pipeline::placeholder();
            std::mem::swap(self, &mut taken);
            let Pipeline { max_concurrency, started, input_ended, in_flight, emitted, outcomes } =
                taken;
            let mut in_flight = in_flight;
            let ticket: u64 = started;
            in_flight.push(ticket);
            proof {
                start_keeps_the_books(before);
                assert(before.start() == (PipelineView {
                    max_concurrency: max_concurrency as nat,
                    started: (ticket + 1) as nat,
                    input_ended,
                    in_flight: in_flight@,
                    emitted: emitted@,
                    outcomes: outcomes@,
                }));
            }
            *self = Pipeline {
                max_concurrency,
                started: ticket + 1,
                input_ended,
                in_flight,
                emitted,
                outcomes,
            };
            Some(ticket)
        } else {
            None
        }
    }

    /// Record that the input has ended. Workflows in flight go on.
    pub fn end_of_input(&mut self)
        ensures
            old(self)@.wf(),
            final(self)@.wf(),
            final(self)@ == old(self)@.apply(PipelineEvent::EndOfInput),
    {
        proof {
            use_type_invariant(&*self);
        }
        let mut taken = Pipeline::placeholder();
        std::mem::swap(self, &mut taken);
        let Pipeline { max_concurrency, started, input_ended: _, in_flight, emitted, outcomes } =
            taken;
        *self = Pipeline {
            max_concurrency,
            started,
            input_ended: true,
            in_flight,
            emitted,
            outcomes,
        };
    }

    /// Record that the workflow `ticket` completed, and emit its result
    /// under the tag `outcome`. Returns `false`, and changes nothing, if no
    /// such workflow is in flight.
    pub fn complete(&mut self, ticket: u64, outcome: ItemOutcome) -> (r: bool)
        ensures
            old(self)@.wf(),
            final(self)@.wf(),
            r == old(self)@.in_flight.contains(ticket),
            r ==> final(self)@ == old(self)@.complete(ticket, outcome),
            !r ==> final(self)@ == old(self)@,
            final(self)@ == old(self)@.apply(PipelineEvent::Completion(ticket, outcome)),
    {
        proof {
            use_type_invariant(&*self);
        }
        match position(&self.in_flight, ticket) {
            None => false,
            Some(i) => {
                let ghost before = self@;
                proof {
                    before.in_flight.index_of_first_ensures(ticket);
                    assert(before.in_flight.index_of(ticket) == i) by {
                        let k = before.in_flight.index_of(ticket);
                        assert(before.in_flight[k] == ticket);
                    }
                }
                let mut taken = Pipeline::placeholder();
                std::mem::swap(self, &mut taken);
                let Pipeline {
                    max_concurrency,
                    started,
                    input_ended,
                    in_flight,
                    emitted,
                    outcomes,
                } = taken;
                let mut in_flight = in_flight;
                let mut emitted = emitted;
                let mut outcomes = outcomes;
                in_flight.remove(i);
                emitted.push(ticket);
                outcomes.push(outcome);
                proof {
                    completion_keeps_the_books(before, ticket, outcome);
                    assert(before.complete(ticket, outcome) == (PipelineView {
                        max_concurrency: max_concurrency as nat,
                        started: started as nat,
                        input_ended,
                        in_flight: in_flight@,
                        emitted: emitted@,
                        outcomes: outcomes@,
                    }));
                }
                *self = Pipeline {
                    max_concurrency,
                    started,
                    input_ended,
                    in_flight,
                    emitted,
                    outcomes,
                };
                true
            },
        }
    }

    /// The cap on workflows in flight.
    pub fn max_concurrency(&self) -> (r: usize)
        ensures
            r == self@.max_concurrency,
    {
        self.max_concurrency
    }

    /// How many inputs were started so far.
    pub fn started(&self) -> (r: u64)
        ensures
            r == self@.started,
    {
        self.started
    }

    /// How many workflows are in flight; never more than there are slots.
    pub fn in_flight_count(&self) -> (r: usize)
        ensures
            r == self@.in_flight.len(),
            r <= self@.max_concurrency,
            r <= self@.started,
    {
        proof {
            use_type_invariant(&*self);
        }
        self.in_flight.len()
    }

    /// Whether the workflow `ticket` is in flight.
    pub fn is_in_flight(&self, ticket: u64) -> (r: bool)
        ensures
            r == self@.in_flight.contains(ticket),
    {
        position(&self.in_flight, ticket).is_some()
    }

    /// How many results were emitted so far.
    pub fn emitted_count(&self) -> (r: usize)
        ensures
            r == self@.emitted.len(),
    {
        self.emitted.len()
    }

    /// The `index`-th emitted result, in order of completion: its ticket
    /// and its tag.
    pub fn emitted(&self, index: usize) -> (r: Option<(u64, ItemOutcome)>)
        ensures
            r is Some <==> index < self@.emitted.len(),
            r matches Some(e) ==> e.0 == self@.emitted[index as int] && e.1
                == self@.outcomes[index as int],
    {
        proof {
            use_type_invariant(&*self);
        }
        if index < self.emitted.len() {
            Some((self.emitted[index], self.outcomes[index]))
        } else {
            None
        }
    }
}

/// At no time are more workflows in flight than there are slots, nor more
/// than inputs were started; so with `m` inputs in all, never more than
/// the smaller of the cap and `m`.
pub proof fn in_flight_is_bounded(p: PipelineView, m: nat)
    requires
        p.wf(),
        p.started <= m,
    ensures
        p.in_flight.len() <= p.max_concurrency,
        p.in_flight.len() <= p.started,
        p.in_flight.len() <= if p.max_concurrency <= m {
            p.max_concurrency
        } else {
            m
        },
{
}

/// Starting an input into a free slot keeps the books balanced and takes
/// exactly one slot.
pub proof fn start_keeps_the_books(p: PipelineView)
    requires
        p.wf(),
        p.can_start(),
    ensures
        p.start().wf(),
        p.start().in_flight.len() == p.in_flight.len() + 1,
        p.start().in_flight.last() == p.started,
        p.start().emitted == p.emitted,
{
    let q = p.start();
    assert forall|t: u64| t < q.started implies #[trigger] q.in_flight.contains(t)
        || q.emitted.contains(t) by {
        if t == p.started {
            assert(q.in_flight[p.in_flight.len() as int] == t);
        } else {
            assert(p.in_flight.contains(t) || p.emitted.contains(t));
            if p.in_flight.contains(t) {
                let k = p.in_flight.index_of(t);
                assert(q.in_flight[k] == t);
            }
        }
    }
}

/// The pipeline is pull-driven: it asks for an input exactly when a slot
/// is free and the input is open, and it does not report `Done` while a
/// workflow is in flight or another input could still be started.
pub proof fn pull_only_into_free_slot(p: PipelineView)
    requires
        p.wf(),
    ensures
        p.next_action() == PipelineAction::Pull <==> p.can_start(),
        p.next_action() == PipelineAction::Await ==> p.in_flight.len() > 0 && (p.input_closed()
            || p.in_flight.len() == p.max_concurrency),
        p.next_action() == PipelineAction::Done <==> p.in_flight.len() == 0 && p.input_closed(),
{
}

/// How many inputs a series of events offers.
pub open spec fn inputs_offered(events: Seq<PipelineEvent>) -> nat
    decreases events.len(),
{
    if events.len() == 0 {
        0
    } else {
        inputs_offered(events.drop_last()) + if events.last() is Input {
            1nat
        } else {
            0nat
        }
    }
}

/// Whatever happens to a pipeline of `n` slots, in whatever order, its
/// books stay balanced: after any series of events that offers `m` inputs
/// it has started at most `m` of them, and at most the smaller of `n` and
/// `m` workflows are in flight.
pub proof fn every_reachable_state_is_bounded(n: nat, events: Seq<PipelineEvent>)
    requires
        1 <= n <= usize::MAX,
    ensures
        PipelineView::after(n, events).wf(),
        PipelineView::after(n, events).max_concurrency == n,
        PipelineView::after(n, events).started <= inputs_offered(events),
        PipelineView::after(n, events).in_flight.len() <= n,
        PipelineView::after(n, events).in_flight.len() <= inputs_offered(events),
        PipelineView::after(n, events).emitted.len() <= inputs_offered(events),
    decreases events.len(),
{
    if events.len() > 0 {
        let before = PipelineView::after(n, events.drop_last());
        every_reachable_state_is_bounded(n, events.drop_last());
        match events.last() {
            PipelineEvent::Input => {
                if before.can_start() {
                    start_keeps_the_books(before);
                }
            },
            PipelineEvent::EndOfInput => {},
            PipelineEvent::Completion(ticket, outcome) => {
                if before.in_flight.contains(ticket) {
                    completion_keeps_the_books(before, ticket, outcome);
                }
            },
        }
    }
}

/// When a pipeline reports `Done` after a series of events, it has
/// emitted exactly one result for each input that it started, and it
/// started every input that was offered while a slot was free. No ticket
/// is missing among the results and none occurs twice.
pub proof fn a_finished_run_emitted_every_input(n: nat, events: Seq<PipelineEvent>)
    requires
        1 <= n <= usize::MAX,
        PipelineView::after(n, events).next_action() == PipelineAction::Done,
    ensures
        PipelineView::after(n, events).emitted.len() == PipelineView::after(n, events).started,
        PipelineView::after(n, events).outcomes.len() == PipelineView::after(n, events).started,
        PipelineView::after(n, events).in_flight.len() == 0,
        forall|t: u64|
            t < PipelineView::after(n, events).started ==> #[trigger] PipelineView::after(
                n,
                events,
            ).emitted.contains(t),
        PipelineView::after(n, events).emitted.no_duplicates(),
{
    every_reachable_state_is_bounded(n, events);
    every_input_is_emitted_once(PipelineView::after(n, events));
}

/// Once nothing is in flight, there is exactly one result for every input
/// that was started, each under its tag: no input is lost and none is
/// emitted twice. In particular this holds when the pipeline reports
/// `Done`.
pub proof fn every_input_is_emitted_once(p: PipelineView)
    requires
        p.wf(),
        p.in_flight.len() == 0,
    ensures
        p.emitted.len() == p.started,
        p.outcomes.len() == p.started,
        forall|t: u64| t < p.started ==> #[trigger] p.emitted.contains(t),
        forall|i: int, j: int|
            0 <= i < p.emitted.len() && 0 <= j < p.emitted.len() && i != j ==> p.emitted[i]
                != p.emitted[j],
        forall|i: int| 0 <= i < p.emitted.len() ==> #[trigger] p.emitted[i] < p.started,
{
    assert forall|t: u64| t < p.started implies #[trigger] p.emitted.contains(t) by {
        assert(p.in_flight.contains(t) || p.emitted.contains(t));
    }
}

/// Completing a workflow keeps the books balanced. It frees exactly one
/// slot and emits exactly one result, placed after all earlier ones: the
/// order of emission is the order of completion.
pub proof fn completion_keeps_the_books(p: PipelineView, ticket: u64, outcome: ItemOutcome)
    requires
        p.wf(),
        p.in_flight.contains(ticket),
    ensures
        p.complete(ticket, outcome).wf(),
        p.complete(ticket, outcome).in_flight.len() == p.in_flight.len() - 1,
        !p.complete(ticket, outcome).in_flight.contains(ticket),
        p.complete(ticket, outcome).emitted.len() == p.emitted.len() + 1,
        p.complete(ticket, outcome).emitted.last() == ticket,
        p.complete(ticket, outcome).outcomes.last() == outcome,
        p.complete(ticket, outcome).emitted.take(p.emitted.len() as int) == p.emitted,
        p.complete(ticket, outcome).started == p.started,
{
    let q = p.complete(ticket, outcome);
    let i = p.in_flight.index_of(ticket);
    assert(p.in_flight[i] == ticket);
    assert forall|a: int| 0 <= a < q.in_flight.len() implies (#[trigger] q.in_flight[a])
        == p.in_flight[if a < i {
        a
    } else {
        a + 1
    }] by {}
    assert forall|a: int, b: int|
        0 <= a < q.emitted.len() && 0 <= b < q.emitted.len() && a != b implies q.emitted[a]
            != q.emitted[b] by {
        if a == p.emitted.len() {
            assert(p.emitted[b] != p.in_flight[i]);
        } else if b == p.emitted.len() {
            assert(p.emitted[a] != p.in_flight[i]);
        }
    }
    assert forall|a: int, b: int|
        0 <= a < q.in_flight.len() && 0 <= b < q.emitted.len() implies (
    #[trigger] q.in_flight[a]) != #[trigger] q.emitted[b] by {
        let a0 = if a < i {
            a
        } else {
            a + 1
        };
        if b == p.emitted.len() {
            assert(p.in_flight[a0] != p.in_flight[i]);
        } else {
            assert(p.in_flight[a0] != p.emitted[b]);
        }
    }
    assert forall|t: u64| t < q.started implies #[trigger] q.in_flight.contains(t)
        || q.emitted.contains(t) by {
        if t == ticket {
            assert(q.emitted[p.emitted.len() as int] == t);
        } else {
            assert(p.in_flight.contains(t) || p.emitted.contains(t));
            if p.in_flight.contains(t) {
                let k = p.in_flight.index_of(t);
                assert(k != i);
                if k < i {
                    assert(q.in_flight[k] == t);
                } else {
                    assert(q.in_flight[k - 1] == t);
                }
            } else {
                let k = p.emitted.index_of(t);
                assert(q.emitted[k] == t);
            }
        }
    }
    if q.in_flight.contains(ticket) {
        let k = q.in_flight.index_of(ticket);
        assert(q.in_flight[k] == ticket);
        let k0 = if k < i {
            k
        } else {
            k + 1
        };
        assert(p.in_flight[k0] == ticket);
    }
    assert(q.emitted.take(p.emitted.len() as int) =~= p.emitted);
}

} // verus!
