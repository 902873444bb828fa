//! The decisions of one execution request, as a state machine driven by the host.
//!
//! The host performs each action that a step hands back (registering the capability, calling
//! the sandbox, displaying events, reporting a failure) and feeds the outcome back as the
//! next event.
use vstd::prelude::*;
use crate::error::CommandError;
use crate::output::{expand_output, expands_to, SlashCommandEvent, SlashCommandOutput};

verus! {

/// Where an execution request stands.
#[derive(Clone, Copy, Debug, PartialEq, Eq, Structural)]
pub enum RunPhase {
    /// Not dispatched yet.
    Pending,
    /// Waiting for the capability to be registered with the sandbox.
    Registering,
    /// Waiting for the sandbox's reply; `handle` is the registered capability, if any.
    CallingSandbox { handle: Option<u32> },
    /// The output has been expanded into events.
    Done,
    /// The request failed; nothing was displayed.
    Failed,
}

/// What the host reports back to a request.
#[derive(Debug)]
pub enum RunEvent {
    /// The request has been handed to the background.
    Start,
    /// The capability object was registered under `handle`.
    Registered { handle: u32 },
    /// The sandbox ran the command: its output, or the error the extension reported.
    Replied { reply: Result<SlashCommandOutput, String> },
    /// The sandbox could not register the capability or run the call.
    Faulted { message: String },
}

/// What the host is asked to do next.
#[derive(Clone, Debug)]
pub enum RunAction {
    /// The event did not fit the phase: nothing to do.
    Wait,
    /// Register the capability object with the sandbox for this call.
    RegisterCapability,
    /// Call the command in the sandbox with the request's arguments and `handle`.
    CallSandbox { handle: Option<u32> },
    /// Display `events`; the request is complete.
    Emit { events: Vec<SlashCommandEvent> },
    /// Report `error`; the request is complete.
    Fail { error: CommandError },
}

/// The kind of an action, with the handle that a call carries.
#[derive(Clone, Copy, Debug, PartialEq, Eq, Structural)]
pub enum ActionKind {
    Wait,
    Register,
    Call { handle: Option<u32> },
    Emit,
    Fail,
}

impl RunAction {
    pub open spec fn kind(self) -> ActionKind {
        match self {
            RunAction::Wait => ActionKind::Wait,
            RunAction::RegisterCapability => ActionKind::Register,
            RunAction::CallSandbox { handle } => ActionKind::Call { handle },
            RunAction::Emit { .. } => ActionKind::Emit,
            RunAction::Fail { .. } => ActionKind::Fail,
        }
    }
}

/// The phase after `event`, and the kind of action it calls for, for a request made with or
/// without a capability object.
pub open spec fn next(has_capability: bool, phase: RunPhase, event: RunEvent) -> (RunPhase, ActionKind) {
    match phase {
        RunPhase::Pending => match event {
            RunEvent::Start => if has_capability {
                (RunPhase::Registering, ActionKind::Register)
            } else {
                (RunPhase::CallingSandbox { handle: None }, ActionKind::Call { handle: None })
            },
            _ => (phase, ActionKind::Wait),
        },
        RunPhase::Registering => match event {
            RunEvent::Registered { handle } => (
                RunPhase::CallingSandbox { handle: Some(handle) },
                ActionKind::Call { handle: Some(handle) },
            ),
            RunEvent::Faulted { .. } => (RunPhase::Failed, ActionKind::Fail),
            _ => (phase, ActionKind::Wait),
        },
        RunPhase::CallingSandbox { .. } => match event {
            RunEvent::Replied { reply: Ok(_) } => (RunPhase::Done, ActionKind::Emit),
            RunEvent::Replied { reply: Err(_) } => (RunPhase::Failed, ActionKind::Fail),
            RunEvent::Faulted { .. } => (RunPhase::Failed, ActionKind::Fail),
            _ => (phase, ActionKind::Wait),
        },
        RunPhase::Done => (phase, ActionKind::Wait),
        RunPhase::Failed => (phase, ActionKind::Wait),
    }
}

/// What an emitted or failing action carries: the expansion of the output that came back,
/// or the message of the error or fault that was reported.
pub open spec fn carries(event: RunEvent, action: RunAction) -> bool {
    match action {
        RunAction::Emit { events } => event matches RunEvent::Replied { reply: Ok(output) }
            && expands_to(output, events@),
        RunAction::Fail { error } => match event {
            RunEvent::Replied { reply: Err(message) } => error.message@ == message@,
            RunEvent::Faulted { message } => error.message@ == message@,
            _ => false,
        },
        _ => true,
    }
}

/// One execution request: the arguments it was made with, whether a capability object comes
/// with it, and its phase.
pub struct RunRequest {
    pub arguments: Vec<String>,
    pub has_capability: bool,
    pub phase: RunPhase,
}

impl RunRequest {
    /// Takes in what the host reports, moves to the next phase, and says what to do.
    pub fn step(&mut self, event: RunEvent) -> (action: RunAction)
        ensures
            (final(self).phase, action.kind()) == next(
                old(self).has_capability,
                old(self).phase,
                event,
            ),
            carries(event, action),
            final(self).arguments == old(self).arguments,
            final(self).has_capability == old(self).has_capability,
    {
        match self.phase {
            RunPhase::Pending => match event {
                RunEvent::Start => {
                    if self.has_capability {
                        self.phase = RunPhase::Registering;
                        RunAction::RegisterCapability
                    } else {
                        self.phase = RunPhase::CallingSandbox { handle: None };
                        RunAction::CallSandbox { handle: None }
                    }
                },
                _ => RunAction::Wait,
            },
            RunPhase::Registering => match event {
                RunEvent::Registered { handle } => {
                    self.phase = RunPhase::CallingSandbox { handle: Some(handle) };
                    RunAction::CallSandbox { handle: Some(handle) }
                },
                RunEvent::Faulted { message } => {
                    self.phase = RunPhase::Failed;
                    RunAction::Fail { error: CommandError::new(message) }
                },
                _ => RunAction::Wait,
            },
            RunPhase::CallingSandbox { .. } => match event {
                RunEvent::Replied { reply } => match reply {
                    Ok(output) => {
                        self.phase = RunPhase::Done;
                        RunAction::Emit { events: expand_output(&output) }
                    },
                    Err(message) => {
                        self.phase = RunPhase::Failed;
                        RunAction::Fail { error: CommandError::new(message) }
                    },
                },
                RunEvent::Faulted { message } => {
                    self.phase = RunPhase::Failed;
                    RunAction::Fail { error: CommandError::new(message) }
                },
                _ => RunAction::Wait,
            },
            RunPhase::Done => RunAction::Wait,
            RunPhase::Failed => RunAction::Wait,
        }
    }
}

/// The phase reached, and the kinds of the actions handed out, when `events` are fed in order
/// to a request in `phase`.
pub open spec fn run_trace(has_capability: bool, phase: RunPhase, events: Seq<RunEvent>) -> (
    RunPhase,
    Seq<ActionKind>,
)
    decreases events.len(),
{
    if events.len() == 0 {
        (phase, Seq::empty())
    } else {
        let (p, acts) = run_trace(has_capability, phase, events.drop_last());
        let (q, a) = next(has_capability, p, events.last());
        (q, acts.push(a))
    }
}

/// How many of `acts` register a capability.
pub open spec fn registrations(acts: Seq<ActionKind>) -> nat
    decreases acts.len(),
{
    if acts.len() == 0 {
        0
    } else {
        registrations(acts.drop_last()) + if acts.last() is Register {
            1nat
        } else {
            0nat
        }
    }
}

/// `a` completes the request: it emits events or reports a failure.
pub open spec fn is_outcome(a: ActionKind) -> bool {
    a is Emit || a is Fail
}

/// No further event changes a request in phase `p`.
pub open spec fn is_terminal(p: RunPhase) -> bool {
    p is Done || p is Failed
}

proof fn lemma_trace(has_capability: bool, events: Seq<RunEvent>)
    ensures
        ({
            let (p, acts) = run_trace(has_capability, RunPhase::Pending, events);
            let expected: nat = if has_capability {
                1
            } else {
                0
            };
            &&& acts.len() == events.len()
            &&& registrations(acts) == if has_capability && p != RunPhase::Pending {
                1nat
            } else {
                0nat
            }
            &&& p is Registering ==> has_capability
            &&& p matches RunPhase::CallingSandbox { handle } ==> (handle is Some <==> has_capability)
            &&& forall|j: int|
                0 <= j < acts.len() && #[trigger] acts[j] is Call ==> {
                    &&& registrations(acts.take(j)) == expected
                    &&& (acts[j]->handle is Some) == has_capability
                    &&& has_capability ==> (events[j] matches RunEvent::Registered { handle }
                        && acts[j] == ActionKind::Call { handle: Some(handle) })
                    &&& (p is CallingSandbox || is_terminal(p))
                }
            &&& forall|j: int| 0 <= j < acts.len() && is_outcome(#[trigger] acts[j]) ==> is_terminal(p)
            &&& forall|j: int, k: int|
                0 <= j < k < acts.len() && is_outcome(#[trigger] acts[j]) ==> #[trigger] acts[k]
                    == ActionKind::Wait
            &&& forall|j: int, k: int|
                0 <= j < k < acts.len() && #[trigger] acts[j] is Call ==> !(#[trigger] acts[k] is Call)
        }),
    decreases events.len(),
{
    if events.len() > 0 {
        let prev = events.drop_last();
        lemma_trace(has_capability, prev);
        let (p, acts) = run_trace(has_capability, RunPhase::Pending, prev);
        let (q, a) = next(has_capability, p, events.last());
        let n = acts.len() as int;
        let acts2 = acts.push(a);
        assert(acts2.drop_last() =~= acts);
        assert(acts2.take(n) =~= acts);
        assert forall|j: int| 0 <= j < n implies #[trigger] acts2.take(j) =~= acts.take(j) by {}
        assert forall|j: int| 0 <= j < n implies #[trigger] events[j] == prev[j] by {}
    }
}

/// A request made with a capability object registers it exactly once before the sandbox is
/// called, and the call carries the handle that registration gave. A request made without
/// one registers nothing and calls the sandbox with no handle. The sandbox is called at most
/// once.
pub proof fn law_capability_registered_once_before_call(
    has_capability: bool,
    events: Seq<RunEvent>,
)
    ensures
        ({
            let acts = run_trace(has_capability, RunPhase::Pending, events).1;
            &&& registrations(acts) <= if has_capability {
                1nat
            } else {
                0nat
            }
            &&& forall|j: int|
                0 <= j < acts.len() && #[trigger] acts[j] is Call ==> {
                    &&& registrations(acts.take(j)) == if has_capability {
                        1nat
                    } else {
                        0nat
                    }
                    &&& has_capability ==> (events[j] matches RunEvent::Registered { handle }
                        && acts[j] == ActionKind::Call { handle: Some(handle) })
                    &&& !has_capability ==> acts[j] == ActionKind::Call { handle: None }
                }
            &&& forall|j: int, k: int|
                0 <= j < k < acts.len() && #[trigger] acts[j] is Call ==> !(#[trigger] acts[k] is Call)
        }),
{
    lemma_trace(has_capability, events);
}

/// A request comes to at most one outcome: once it has emitted its events or failed, every
/// later event is ignored. So a failure never comes with events, and events never with a
/// failure.
pub proof fn law_single_outcome(has_capability: bool, events: Seq<RunEvent>)
    ensures
        ({
            let acts = run_trace(has_capability, RunPhase::Pending, events).1;
            forall|j: int, k: int|
                0 <= j < k < acts.len() && is_outcome(#[trigger] acts[j]) ==> #[trigger] acts[k]
                    == ActionKind::Wait
        }),
{
    lemma_trace(has_capability, events);
}

/// Once the sandbox is called, what happens next depends on its reply alone, not on whether a
/// handle was passed or which one.
pub proof fn law_outcome_ignores_handle(
    has_capability: bool,
    first: Option<u32>,
    second: Option<u32>,
    event: RunEvent,
)
    ensures
        next(has_capability, RunPhase::CallingSandbox { handle: first }, event).1 == next(
            has_capability,
            RunPhase::CallingSandbox { handle: second },
            event,
        ).1,
{
}

/// A request made without a capability object calls the sandbox at once, with no handle, and
/// emits the output's events when the call succeeds.
pub proof fn law_runs_without_capability(output: SlashCommandOutput)
    ensures
        ({
            let events = seq![RunEvent::Start, RunEvent::Replied { reply: Ok(output) }];
            let (phase, acts) = run_trace(false, RunPhase::Pending, events);
            &&& acts == seq![ActionKind::Call { handle: None }, ActionKind::Emit]
            &&& phase == RunPhase::Done
        }),
{
    let events = seq![RunEvent::Start, RunEvent::Replied { reply: Ok(output) }];
    assert(events.drop_last() =~= seq![RunEvent::Start]);
    let first = seq![RunEvent::Start];
    assert(first.drop_last() =~= Seq::<RunEvent>::empty());
    assert(run_trace(false, RunPhase::Pending, Seq::<RunEvent>::empty()) == (
        RunPhase::Pending,
        Seq::<ActionKind>::empty(),
    ));
    let (p1, acts1) = run_trace(false, RunPhase::Pending, first);
    assert(p1 == RunPhase::CallingSandbox { handle: None });
    assert(acts1 =~= seq![ActionKind::Call { handle: None }]);
    let acts = run_trace(false, RunPhase::Pending, events).1;
    assert(acts =~= seq![ActionKind::Call { handle: None }, ActionKind::Emit]);
}

} // verus!
