use vstd::prelude::*;

verus! {

/// Where a receive cycle stands.
#[derive(PartialEq, Eq, Structural, Debug, Clone, Copy)]
pub enum Phase {
    /// No hook is installed.
    Idle,
    /// The keyboard and the mouse hook are installed; the cycle waits for a
    /// relayed notification.
    Armed,
    /// A notification was retrieved and both hooks are being removed.
    Draining,
}

/// What happened outside the cycle.
#[derive(PartialEq, Eq, Structural, Debug, Clone, Copy)]
pub enum CycleEvent {
    /// A blocking receive starts.
    Begin,
    /// The message wait retrieved a relayed notification.
    MessageRetrieved,
    /// The message wait reported that the stream ended.
    StreamTerminated,
    /// Both hooks were removed.
    HooksRemoved,
}

/// What the caller does next.
#[derive(PartialEq, Eq, Structural, Debug, Clone, Copy)]
pub enum CycleAction {
    /// Install the keyboard and the mouse hook, then wait for a message.
    InstallHooks,
    /// Remove both hooks, then report that they are gone.
    RemoveHooks,
    /// Remove both hooks and report the end of the stream.
    RemoveHooksAndEnd,
    /// Decode the retrieved notification; the cycle is over.
    DecodeMessage,
    /// The event does not fit the phase: do nothing.
    Ignore,
}

/// One blocking receive: hooks are installed when it begins and removed
/// before it returns, whether a notification arrived or the stream ended.
#[derive(PartialEq, Eq, Structural, Debug, Clone, Copy)]
pub struct ReceiveCycle {
    pub phase: Phase,
}

/// The phase and action that follow `event` in `phase`.
pub open spec fn transition(phase: Phase, event: CycleEvent) -> (Phase, CycleAction) {
    match (phase, event) {
        (Phase::Idle, CycleEvent::Begin) => (Phase::Armed, CycleAction::InstallHooks),
        (Phase::Armed, CycleEvent::MessageRetrieved) => (Phase::Draining, CycleAction::RemoveHooks),
        (Phase::Armed, CycleEvent::StreamTerminated) => (Phase::Idle, CycleAction::RemoveHooksAndEnd),
        (Phase::Draining, CycleEvent::HooksRemoved) => (Phase::Idle, CycleAction::DecodeMessage),
        _ => (phase, CycleAction::Ignore),
    }
}

/// Whether the hooks of the cycle are installed and not yet ordered removed.
pub open spec fn holds_hooks(phase: Phase) -> bool {
    phase is Armed
}

/// The phase after a run of events from `phase`, with the actions ordered
/// on the way.
pub open spec fn run(phase: Phase, events: Seq<CycleEvent>) -> (Phase, Seq<CycleAction>)
    decreases events.len(),
{
    if events.len() == 0 {
        (phase, Seq::empty())
    } else {
        let (mid, actions) = run(phase, events.drop_last());
        let (next, action) = transition(mid, events.last());
        (next, actions.push(action))
    }
}

/// How many times the actions install the hooks.
pub open spec fn installs(actions: Seq<CycleAction>) -> nat
    decreases actions.len(),
{
    if actions.len() == 0 {
        0
    } else {
        installs(actions.drop_last()) + if actions.last() is InstallHooks { 1nat } else { 0nat }
    }
}

/// How many times the actions remove the hooks.
pub open spec fn removals(actions: Seq<CycleAction>) -> nat
    decreases actions.len(),
{
    if actions.len() == 0 {
        0
    } else {
        removals(actions.drop_last()) + if actions.last() is RemoveHooks
            || actions.last() is RemoveHooksAndEnd { 1nat } else { 0nat }
    }
}

impl ReceiveCycle {
    /// A cycle with no hook installed.
    pub fn new() -> (r: ReceiveCycle)
        ensures
            r.phase == Phase::Idle,
    {
        ReceiveCycle { phase: Phase::Idle }
    }

    /// Whether the cycle's hooks are installed and not yet ordered removed.
    pub fn hooks_installed(&self) -> (r: bool)
        ensures
            r == holds_hooks(self.phase),
    {
        match self.phase {
            Phase::Armed => true,
            _ => false,
        }
    }

    /// Moves the cycle on by one event and says what the caller does next.
    pub fn step(&mut self, event: CycleEvent) -> (r: CycleAction)
        ensures
            (final(self).phase, r) == transition(old(self).phase, event),
    {
        match (self.phase, event) {
            (Phase::Idle, CycleEvent::Begin) => {
                self.phase = Phase::Armed;
                CycleAction::InstallHooks
            },
            (Phase::Armed, CycleEvent::MessageRetrieved) => {
                self.phase = Phase::Draining;
                CycleAction::RemoveHooks
            },
            (Phase::Armed, CycleEvent::StreamTerminated) => {
                self.phase = Phase::Idle;
                CycleAction::RemoveHooksAndEnd
            },
            (Phase::Draining, CycleEvent::HooksRemoved) => {
                self.phase = Phase::Idle;
                CycleAction::DecodeMessage
            },
            _ => CycleAction::Ignore,
        }
    }
}

/// Installs and removals balance: over any run of events from an idle
/// cycle, each installation of the hooks is matched by one removal, except
/// for the one the cycle still holds while armed. A run that ends a receive
/// (its last action decodes a message or ends the stream) leaves the cycle
/// idle, holding no hook.
pub proof fn lemma_hooks_balanced(events: Seq<CycleEvent>)
    ensures
        installs(run(Phase::Idle, events).1) == removals(run(Phase::Idle, events).1) + if holds_hooks(
            run(Phase::Idle, events).0,
        ) {
            1nat
        } else {
            0nat
        },
        run(Phase::Idle, events).1.len() == events.len(),
        events.len() > 0 && (run(Phase::Idle, events).1.last() is DecodeMessage
            || run(Phase::Idle, events).1.last() is RemoveHooksAndEnd) ==> run(
            Phase::Idle,
            events,
        ).0 == Phase::Idle && !holds_hooks(run(Phase::Idle, events).0),
    decreases events.len(),
{
    if events.len() > 0 {
        lemma_hooks_balanced(events.drop_last());
        let (mid, actions) = run(Phase::Idle, events.drop_last());
        assert(run(Phase::Idle, events).1.drop_last() =~= actions);
    }
}

} // verus!
