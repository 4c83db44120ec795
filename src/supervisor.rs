//! The supervisor's control loop as a state machine: from its phase and the
//! event that resolved first to its next phase and the action to perform.
use crate::detector::{verdict_of, Fingerprint, PollVerdict};
use vstd::prelude::*;

verus! {

/// Where the supervisor stands. A phase that carries a process identifier owns
/// the one child that runs.
#[derive(Clone, Copy, Debug, PartialEq, Eq, Structural)]
pub enum Phase {
    /// Not started yet.
    Idle,
    /// A launch of the target is in progress.
    Spawning,
    /// The child runs; the supervisor waits for it to exit, a reload or a
    /// termination signal.
    Running(u32),
    /// The child is being killed, to be launched again.
    Restarting(u32),
    /// The child is being killed, and then the supervisor exits.
    ShuttingDown(u32),
    /// The supervisor has exited with this status.
    Stopped(i32),
}

/// What the outside world reports to the supervisor.
#[derive(Clone, Copy, Debug, PartialEq, Eq, Structural)]
pub enum Event {
    /// The supervisor begins its work.
    Start,
    /// The launch started a child with this process identifier.
    Spawned(u32),
    /// The launch failed for good.
    LaunchFailed,
    /// The child exited by itself, with its exit code if it had one.
    ChildExited(Option<i32>),
    /// The watched file changed.
    ReloadRequested,
    /// An interrupt, terminate or hangup signal arrived.
    TerminationRequested,
    /// The child was killed and reaped.
    Killed,
}

/// What the supervisor asks the outside world to do next.
#[derive(Clone, Copy, Debug, PartialEq, Eq, Structural)]
pub enum Action {
    /// Launch the target, with the arguments read from its file now.
    Spawn,
    /// Wait for the first of: this child's exit, a reload, a termination signal.
    Watch(u32),
    /// Forcibly kill this child and reap it.
    Kill(u32),
    /// Exit the supervisor process with this status.
    Exit(i32),
    /// The event changes nothing.
    Nothing,
}

/// The next phase and the action for an event.
pub open spec fn step_spec(p: Phase, e: Event) -> (Phase, Action) {
    match (p, e) {
        (Phase::Idle, Event::Start) => (Phase::Spawning, Action::Spawn),
        (Phase::Idle, Event::TerminationRequested) => (Phase::Stopped(0), Action::Exit(0)),
        (Phase::Spawning, Event::Spawned(pid)) => (Phase::Running(pid), Action::Watch(pid)),
        (Phase::Spawning, Event::LaunchFailed) => (Phase::Stopped(1), Action::Exit(1)),
        (Phase::Spawning, Event::TerminationRequested) => (Phase::Stopped(0), Action::Exit(0)),
        (Phase::Running(_), Event::ChildExited(_)) => (Phase::Spawning, Action::Spawn),
        (Phase::Running(pid), Event::ReloadRequested) => (Phase::Restarting(pid), Action::Kill(pid)),
        (Phase::Running(pid), Event::TerminationRequested) => (
            Phase::ShuttingDown(pid),
            Action::Kill(pid),
        ),
        (Phase::Restarting(_), Event::Killed) => (Phase::Spawning, Action::Spawn),
        (Phase::Restarting(_), Event::ChildExited(_)) => (Phase::Spawning, Action::Spawn),
        (Phase::Restarting(pid), Event::TerminationRequested) => (
            Phase::ShuttingDown(pid),
            Action::Nothing,
        ),
        (Phase::ShuttingDown(_), Event::Killed) => (Phase::Stopped(0), Action::Exit(0)),
        (Phase::ShuttingDown(_), Event::ChildExited(_)) => (Phase::Stopped(0), Action::Exit(0)),
        _ => (p, Action::Nothing),
    }
}

/// Whether a launch is in progress or a child is live in phase `p`.
pub open spec fn occupied(p: Phase) -> nat {
    match p {
        Phase::Spawning | Phase::Running(_) | Phase::Restarting(_) | Phase::ShuttingDown(_) => 1,
        _ => 0,
    }
}

/// Whether event `e` in phase `p` concludes the current launch or child: the
/// launch failed or was abandoned, or the child exited or was reaped after a
/// kill.
pub open spec fn ends_child(p: Phase, e: Event) -> bool {
    match (p, e) {
        (Phase::Spawning, Event::LaunchFailed) => true,
        (Phase::Spawning, Event::TerminationRequested) => true,
        (Phase::Running(_), Event::ChildExited(_)) => true,
        (Phase::Restarting(_), Event::ChildExited(_)) => true,
        (Phase::ShuttingDown(_), Event::ChildExited(_)) => true,
        (Phase::Restarting(_), Event::Killed) => true,
        (Phase::ShuttingDown(_), Event::Killed) => true,
        _ => false,
    }
}

/// A run of the supervisor: the phase reached, how many launches it asked
/// for, and how many launches or children came to an end.
pub struct Trace {
    pub phase: Phase,
    pub spawns: nat,
    pub ends: nat,
}

/// The run of the supervisor from phase `start` through `events`, in order.
pub open spec fn trace_from(start: Phase, events: Seq<Event>) -> Trace
    decreases events.len(),
{
    if events.len() == 0 {
        Trace { phase: start, spawns: 0, ends: 0 }
    } else {
        let t = trace_from(start, events.drop_last());
        let e = events.last();
        let (next, action) = step_spec(t.phase, e);
        Trace {
            phase: next,
            spawns: t.spawns + if action == Action::Spawn {
                1nat
            } else {
                0nat
            },
            ends: t.ends + if ends_child(t.phase, e) {
                1nat
            } else {
                0nat
            },
        }
    }
}

proof fn lemma_trace_balance(start: Phase, events: Seq<Event>)
    ensures
        trace_from(start, events).spawns + occupied(start) == trace_from(start, events).ends
            + occupied(trace_from(start, events).phase),
    decreases events.len(),
{
    if events.len() > 0 {
        lemma_trace_balance(start, events.drop_last());
    }
}

/// At no point are two children under one supervisor: over any sequence of
/// events from the start, every launch asked for but the last has come to an
/// end, and the last is still open exactly when a launch is in progress or a
/// child is live.
pub proof fn lemma_at_most_one_child(events: Seq<Event>)
    ensures
        trace_from(Phase::Idle, events).spawns == trace_from(Phase::Idle, events).ends
            + occupied(trace_from(Phase::Idle, events).phase),
        trace_from(Phase::Idle, events).spawns <= trace_from(Phase::Idle, events).ends + 1,
{
    lemma_trace_balance(Phase::Idle, events);
}

/// A child that exits, with any status, is launched again at once, and the
/// supervisor then watches the new child.
pub proof fn lemma_respawn_on_exit(pid: u32, code: Option<i32>, new_pid: u32)
    ensures
        step_spec(Phase::Running(pid), Event::ChildExited(code)) == (Phase::Spawning, Action::Spawn),
        step_spec(Phase::Spawning, Event::Spawned(new_pid)) == (
            Phase::Running(new_pid),
            Action::Watch(new_pid),
        ),
{
}

/// Two fingerprints of the watched file whose creation ages differ give one
/// reload request, upon which the running child is killed and, once reaped,
/// launched again.
pub proof fn lemma_respawn_on_change(first_age: u64, second_age: u64, pid: u32)
    requires
        first_age != second_age,
    ensures
        verdict_of(Fingerprint::Present(first_age), Fingerprint::Present(second_age))
            == PollVerdict::Changed,
        step_spec(Phase::Running(pid), Event::ReloadRequested) == (
            Phase::Restarting(pid),
            Action::Kill(pid),
        ),
        step_spec(Phase::Restarting(pid), Event::Killed) == (Phase::Spawning, Action::Spawn),
        trace_from(Phase::Running(pid), seq![Event::ReloadRequested, Event::Killed]) == (Trace {
            phase: Phase::Spawning,
            spawns: 1,
            ends: 1,
        }),
{
    let two = seq![Event::ReloadRequested, Event::Killed];
    assert(two.drop_last() =~= seq![Event::ReloadRequested]);
    assert(two.drop_last().drop_last() =~= Seq::<Event>::empty());
    let start = Phase::Running(pid);
    assert(trace_from(start, two.drop_last().drop_last()).phase == start);
    assert(trace_from(start, two.drop_last()).phase == Phase::Restarting(pid));
    assert(two.last() == Event::Killed);
}

/// Once stopped, the supervisor stays stopped and asks for no launch, whatever
/// events follow.
pub proof fn lemma_stopped_is_final(code: i32, events: Seq<Event>)
    ensures
        trace_from(Phase::Stopped(code), events) == (Trace {
            phase: Phase::Stopped(code),
            spawns: 0,
            ends: 0,
        }),
    decreases events.len(),
{
    if events.len() > 0 {
        lemma_stopped_is_final(code, events.drop_last());
    }
}

/// A termination signal kills the running child, after which the supervisor
/// exits with status 0 and never launches again; with no child running it
/// exits at once.
pub proof fn lemma_signal_terminates(pid: u32, rest: Seq<Event>)
    ensures
        step_spec(Phase::Running(pid), Event::TerminationRequested) == (
            Phase::ShuttingDown(pid),
            Action::Kill(pid),
        ),
        step_spec(Phase::ShuttingDown(pid), Event::Killed) == (Phase::Stopped(0), Action::Exit(0)),
        step_spec(Phase::Idle, Event::TerminationRequested) == (Phase::Stopped(0), Action::Exit(0)),
        step_spec(Phase::Spawning, Event::TerminationRequested) == (
            Phase::Stopped(0),
            Action::Exit(0),
        ),
        trace_from(Phase::Running(pid), seq![Event::TerminationRequested, Event::Killed] + rest).phase
            == Phase::Stopped(0),
        trace_from(
            Phase::Running(pid),
            seq![Event::TerminationRequested, Event::Killed] + rest,
        ).spawns == 0,
    decreases rest.len(),
{
    let all = seq![Event::TerminationRequested, Event::Killed] + rest;
    let start = Phase::Running(pid);
    if rest.len() == 0 {
        let one = seq![Event::TerminationRequested];
        assert(all.drop_last() =~= one);
        assert(one.drop_last() =~= Seq::<Event>::empty());
        assert(trace_from(start, one.drop_last()).phase == start);
        assert(trace_from(start, one).phase == Phase::ShuttingDown(pid));
        assert(trace_from(start, one).spawns == 0);
        assert(all.last() == Event::Killed);
    } else {
        assert(all.drop_last() =~= seq![Event::TerminationRequested, Event::Killed]
            + rest.drop_last());
        lemma_signal_terminates(pid, rest.drop_last());
    }
}

/// The supervisor's control state.
pub struct Supervisor {
    phase: Phase,
}

impl View for Supervisor {
    type V = Phase;

    closed spec fn view(&self) -> Phase {
        self.phase
    }
}

impl Supervisor {
    /// A supervisor that has not started.
    pub fn new() -> (r: Supervisor)
        ensures
            r@ == Phase::Idle,
    {
        Supervisor { phase: Phase::Idle }
    }

    /// The current phase.
    pub fn phase(&self) -> (r: Phase)
        ensures
            r == self@,
    {
        self.phase
    }

    /// Takes in the event that resolved first and returns the action to
    /// perform next.
    pub fn handle(&mut self, e: Event) -> (r: Action)
        ensures
            (final(self)@, r) == step_spec(old(self)@, e),
    {
        let (next, action) = match (self.phase, e) {
            (Phase::Idle, Event::Start) => (Phase::Spawning, Action::Spawn),
            (Phase::Idle, Event::TerminationRequested) => (Phase::Stopped(0), Action::Exit(0)),
            (Phase::Spawning, Event::Spawned(pid)) => (Phase::Running(pid), Action::Watch(pid)),
            (Phase::Spawning, Event::LaunchFailed) => (Phase::Stopped(1), Action::Exit(1)),
            (Phase::Spawning, Event::TerminationRequested) => (
                Phase::Stopped(0),
                Action::Exit(0),
            ),
            (Phase::Running(_), Event::ChildExited(_)) => (Phase::Spawning, Action::Spawn),
            (Phase::Running(pid), Event::ReloadRequested) => (
                Phase::Restarting(pid),
                Action::Kill(pid),
            ),
            (Phase::Running(pid), Event::TerminationRequested) => (
                Phase::ShuttingDown(pid),
                Action::Kill(pid),
            ),
            (Phase::Restarting(_), Event::Killed) => (Phase::Spawning, Action::Spawn),
            (Phase::Restarting(_), Event::ChildExited(_)) => (Phase::Spawning, Action::Spawn),
            (Phase::Restarting(pid), Event::TerminationRequested) => (
                Phase::ShuttingDown(pid),
                Action::Nothing,
            ),
            (Phase::ShuttingDown(_), Event::Killed) => (Phase::Stopped(0), Action::Exit(0)),
            (Phase::ShuttingDown(_), Event::ChildExited(_)) => (
                Phase::Stopped(0),
                Action::Exit(0),
            ),
            (p, _) => (p, Action::Nothing),
        };
        self.phase = next;
        action
    }
}

} // verus!
