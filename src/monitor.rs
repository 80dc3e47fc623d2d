//! The watch loop's decisions: for each thing that happens (an event taken
//! from the bridge, an interrupt, the bridge closing) what to do next. The
//! loop that waits, reads files and launches the interpreter performs the
//! action and feeds back the next input.
use crate::dispatch::{is_failure_spec, DispatchStatus};
use crate::event::{accept, accepted_path, WatchEvent};
use vstd::prelude::*;

verus! {

/// Something the watch loop has to react to.
#[derive(Debug)]
pub enum LoopInput {
    /// An event taken from the bridge.
    Event(WatchEvent),
    /// An interrupt signal arrived.
    Interrupt,
    /// The bridge was closed: no event will come.
    QueueClosed,
}

/// What the watch loop does next.
#[derive(Debug)]
pub enum LoopAction {
    /// Dispatch the file at this path.
    Dispatch(Vec<u8>),
    /// Drop the event and wait for the next input.
    Ignore,
    /// Stop watching and end the run.
    Stop,
}

/// The meaning of a loop action.
pub enum ActionModel {
    Dispatch(Seq<u8>),
    Ignore,
    Stop,
}

impl LoopAction {
    pub open spec fn model(&self) -> ActionModel {
        match self {
            LoopAction::Dispatch(p) => ActionModel::Dispatch(p@),
            LoopAction::Ignore => ActionModel::Ignore,
            LoopAction::Stop => ActionModel::Stop,
        }
    }
}

/// Whether the run has stopped after one more input, and the action taken.
/// Once stopped, the run stays stopped and dispatches nothing; an interrupt
/// or a closed bridge stops it; an event is dispatched when the filter
/// accepts it and dropped otherwise.
pub open spec fn step_spec(stopped: bool, input: LoopInput) -> (bool, ActionModel) {
    if stopped {
        (true, ActionModel::Stop)
    } else {
        match input {
            LoopInput::Event(e) => match accepted_path(e.kind, e.path_bytes()) {
                Some(p) => (false, ActionModel::Dispatch(p)),
                None => (false, ActionModel::Ignore),
            },
            _ => (true, ActionModel::Stop),
        }
    }
}

/// The actions taken for a sequence of inputs, from a given state.
pub open spec fn run_spec(stopped: bool, inputs: Seq<LoopInput>) -> Seq<ActionModel>
    decreases inputs.len(),
{
    if inputs.len() == 0 {
        Seq::empty()
    } else {
        let (s, a) = step_spec(stopped, inputs[0]);
        seq![a] + run_spec(s, inputs.drop_first())
    }
}

/// The state of one run of the watch loop.
pub struct Monitor {
    stopped: bool,
    dispatched: u64,
    failures: u64,
}

impl Monitor {
    pub closed spec fn stopped_spec(&self) -> bool {
        self.stopped
    }

    /// Dispatches recorded so far (saturating at `u64::MAX`).
    pub closed spec fn dispatched_spec(&self) -> nat {
        self.dispatched as nat
    }

    /// Failed dispatches recorded so far (saturating at `u64::MAX`).
    pub closed spec fn failures_spec(&self) -> nat {
        self.failures as nat
    }

    /// A running monitor with nothing recorded.
    pub fn new() -> (r: Self)
        ensures
            !r.stopped_spec(),
            r.dispatched_spec() == 0,
            r.failures_spec() == 0,
    {
        Monitor { stopped: false, dispatched: 0, failures: 0 }
    }

    /// Reacts to one input.
    pub fn step(&mut self, input: LoopInput) -> (r: LoopAction)
        ensures
            (final(self).stopped_spec(), r.model()) == step_spec(old(self).stopped_spec(), input),
            final(self).dispatched_spec() == old(self).dispatched_spec(),
            final(self).failures_spec() == old(self).failures_spec(),
    {
        if self.stopped {
            return LoopAction::Stop;
        }
        match input {
            LoopInput::Event(e) => match accept(&e) {
                Some(p) => LoopAction::Dispatch(p),
                None => LoopAction::Ignore,
            },
            _ => {
                self.stopped = true;
                LoopAction::Stop
            },
        }
    }

    /// Records how a dispatch ended. A failure is counted and nothing else:
    /// the run goes on.
    pub fn record(&mut self, status: DispatchStatus)
        ensures
            final(self).stopped_spec() == old(self).stopped_spec(),
            final(self).dispatched_spec() == if old(self).dispatched_spec() < u64::MAX {
                old(self).dispatched_spec() + 1
            } else {
                old(self).dispatched_spec()
            },
            final(self).failures_spec() == if is_failure_spec(status) && old(self).failures_spec()
                < u64::MAX {
                old(self).failures_spec() + 1
            } else {
                old(self).failures_spec()
            },
    {
        if self.dispatched < u64::MAX {
            self.dispatched = self.dispatched + 1;
        }
        if status.is_failure() && self.failures < u64::MAX {
            self.failures = self.failures + 1;
        }
    }

    /// Whether the run has stopped.
    pub fn is_stopped(&self) -> (r: bool)
        ensures
            r == self.stopped_spec(),
    {
        self.stopped
    }

    /// Dispatches recorded so far.
    pub fn dispatched(&self) -> (r: u64)
        ensures
            r == self.dispatched_spec(),
    {
        self.dispatched
    }

    /// Failed dispatches recorded so far.
    pub fn failures(&self) -> (r: u64)
        ensures
            r == self.failures_spec(),
    {
        self.failures
    }

    /// The process's exit code once the run ends: 0, however many
    /// dispatches failed.
    pub fn exit_code(&self) -> (r: i32)
        ensures
            r == 0,
    {
        0
    }
}

/// The filter is total and acts on nothing it rejects: an event that it
/// does not accept is dropped (or, after a stop, meets the stop), never
/// dispatched, and leaves the run's state as it was.
pub proof fn lemma_rejected_event_not_dispatched(stopped: bool, event: WatchEvent)
    requires
        accepted_path(event.kind, event.path_bytes()) is None,
    ensures
        !(step_spec(stopped, LoopInput::Event(event)).1 is Dispatch),
        step_spec(stopped, LoopInput::Event(event)).0 == stopped,
{
}

/// One action is taken for each input.
pub proof fn lemma_run_len(stopped: bool, inputs: Seq<LoopInput>)
    ensures
        run_spec(stopped, inputs).len() == inputs.len(),
    decreases inputs.len(),
{
    if inputs.len() > 0 {
        lemma_run_len(step_spec(stopped, inputs[0]).0, inputs.drop_first());
    }
}

/// Once stopped, the run dispatches nothing, whatever comes after.
pub proof fn lemma_stopped_never_dispatches(inputs: Seq<LoopInput>)
    ensures
        run_spec(true, inputs).len() == inputs.len(),
        forall|i: int| 0 <= i < inputs.len() ==> !(#[trigger] run_spec(true, inputs)[i] is Dispatch),
    decreases inputs.len(),
{
    lemma_run_len(true, inputs);
    if inputs.len() > 0 {
        lemma_stopped_never_dispatches(inputs.drop_first());
        let rest = run_spec(true, inputs.drop_first());
        assert forall|i: int| 0 <= i < inputs.len() implies !(#[trigger] run_spec(
            true,
            inputs,
        )[i] is Dispatch) by {
            if i > 0 {
                assert(run_spec(true, inputs)[i] == rest[i - 1]);
            }
        }
    }
}

/// After an interrupt, no further dispatch begins: the interrupt stops the
/// run, and no input after it is dispatched.
pub proof fn lemma_no_dispatch_after_interrupt(stopped: bool, later: Seq<LoopInput>)
    ensures
        step_spec(stopped, LoopInput::Interrupt).0,
        step_spec(stopped, LoopInput::Interrupt).1 is Stop,
        forall|i: int|
            0 <= i < later.len() ==> !(#[trigger] run_spec(
                step_spec(stopped, LoopInput::Interrupt).0,
                later,
            )[i] is Dispatch),
{
    lemma_stopped_never_dispatches(later);
}

} // verus!
