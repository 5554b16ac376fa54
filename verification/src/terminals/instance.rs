//! The life of one panel instance: from the wait for its process to connect,
//! through the bridging of its socket, to its teardown.
//!
//! The supervisor of an instance performs the outside work (accepting the
//! connection, watching the child, running timers) and reports what happened
//! as events. The rules here decide, for each event, the next state and what
//! the supervisor has to do.

use vstd::prelude::*;

verus! {

/// How long, in milliseconds, a panel process is given to exit by itself once
/// its instance shuts down.
pub const GRACE_PERIOD_MS: u64 = 10_000;

/// Where an instance stands.
#[derive(Debug, Clone, Copy, PartialEq, Eq, Structural)]
pub enum InstanceState {
    /// The process was started; its connection is awaited.
    Spawning,
    /// The socket is bridged to the channels.
    Connected,
    /// Bridging has stopped; the process is given until `deadline`
    /// (milliseconds on the supervisor's clock) to exit. The deadline is held
    /// in a type wide enough for a grace period that starts at any time the
    /// clock can show.
    ShuttingDown { deadline: u128 },
    /// The instance is gone.
    Exited,
}

/// What the supervisor of an instance reports.
#[derive(Debug, Clone, Copy, PartialEq, Eq, Structural)]
pub enum InstanceEvent {
    /// The panel process connected to the socket.
    Accepted,
    /// Accepting the connection failed.
    AcceptFailed,
    /// The panel process exited, with status zero or not.
    ChildExited { success: bool },
    /// Waiting for the panel process failed.
    ChildWaitFailed,
    /// The instance's cancellation signal is set.
    Cancelled,
    /// One of the two tasks that bridge the socket ended or failed.
    BridgeEnded,
    /// Time has passed.
    Tick,
}

/// How an instance ended.
#[derive(Debug, Clone, Copy, PartialEq, Eq, Structural)]
pub enum ExitNote {
    /// The process exited with status zero.
    Clean,
    /// The process exited with another status: worth an error in the log, and
    /// nothing more.
    NonZeroExit,
    /// The process never connected.
    NeverConnected,
    /// The process did not exit in time, or could not be waited for.
    Overdue,
}

/// What the supervisor has to do after an event.
#[derive(Debug, Clone, Copy, PartialEq, Eq, Structural)]
pub enum InstanceAction {
    /// Nothing: go on waiting.
    Wait,
    /// Start the two bridging tasks, then watch the process, the
    /// cancellation signal and the tasks.
    Bridge,
    /// Set the cancellation signal, which stops the bridging tasks, and give
    /// the process until `deadline` to exit.
    AwaitExit { deadline: u128 },
    /// Set the cancellation signal and tear the instance down; the process
    /// has exited.
    Finish { note: ExitNote },
    /// Kill the process, then tear the instance down whether or not the kill
    /// succeeded.
    Kill { note: ExitNote },
}

/// The end of the grace period that starts at `now`: `GRACE_PERIOD_MS`
/// later, exactly.
pub open spec fn grace_deadline(now: u64) -> u128 {
    (now + GRACE_PERIOD_MS) as u128
}

/// The note for a process that has exited.
pub open spec fn exit_note(success: bool) -> ExitNote {
    if success {
        ExitNote::Clean
    } else {
        ExitNote::NonZeroExit
    }
}

/// The state after `event` at time `now`, and what the supervisor has to do.
///
/// While the connection is awaited only its arrival or failure counts. Once
/// connected, the exit of the process ends the instance at once; cancellation
/// or the end of a bridging task starts the grace period. In the grace period
/// the exit of the process ends the instance; the process is killed when the
/// period has run out, and not before, or when it cannot be waited for. An
/// event that means nothing in a state leaves it as it is.
pub open spec fn next(state: InstanceState, event: InstanceEvent, now: u64) -> (
    InstanceState,
    InstanceAction,
) {
    match state {
        InstanceState::Spawning => match event {
            InstanceEvent::Accepted => (InstanceState::Connected, InstanceAction::Bridge),
            InstanceEvent::AcceptFailed => (
                InstanceState::Exited,
                InstanceAction::Kill { note: ExitNote::NeverConnected },
            ),
            _ => (state, InstanceAction::Wait),
        },
        InstanceState::Connected => match event {
            InstanceEvent::ChildExited { success } => (
                InstanceState::Exited,
                InstanceAction::Finish { note: exit_note(success) },
            ),
            InstanceEvent::ChildWaitFailed | InstanceEvent::Cancelled | InstanceEvent::BridgeEnded => (
                InstanceState::ShuttingDown { deadline: grace_deadline(now) },
                InstanceAction::AwaitExit { deadline: grace_deadline(now) },
            ),
            _ => (state, InstanceAction::Wait),
        },
        InstanceState::ShuttingDown { deadline } => match event {
            InstanceEvent::ChildExited { success } => (
                InstanceState::Exited,
                InstanceAction::Finish { note: exit_note(success) },
            ),
            InstanceEvent::ChildWaitFailed => (
                InstanceState::Exited,
                InstanceAction::Kill { note: ExitNote::Overdue },
            ),
            InstanceEvent::Tick => if now >= deadline {
                (InstanceState::Exited, InstanceAction::Kill { note: ExitNote::Overdue })
            } else {
                (state, InstanceAction::Wait)
            },
            _ => (state, InstanceAction::Wait),
        },
        InstanceState::Exited => (state, InstanceAction::Wait),
    }
}

impl InstanceState {
    /// The state of an instance whose process was just started.
    pub fn new() -> (r: Self)
        ensures
            r == InstanceState::Spawning,
    {
        InstanceState::Spawning
    }

    /// Takes `event`, which happened at `now` milliseconds on the
    /// supervisor's clock, and says what the supervisor has to do.
    pub fn step(&mut self, event: InstanceEvent, now: u64) -> (action: InstanceAction)
        ensures
            (*final(self), action) == next(*old(self), event, now),
    {
        let deadline: u128 = now as u128 + GRACE_PERIOD_MS as u128;
        let (state, action) = match *self {
            InstanceState::Spawning => match event {
                InstanceEvent::Accepted => (InstanceState::Connected, InstanceAction::Bridge),
                InstanceEvent::AcceptFailed => (
                    InstanceState::Exited,
                    InstanceAction::Kill { note: ExitNote::NeverConnected },
                ),
                _ => (*self, InstanceAction::Wait),
            },
            InstanceState::Connected => match event {
                InstanceEvent::ChildExited { success } => (
                    InstanceState::Exited,
                    InstanceAction::Finish { note: note_for(success) },
                ),
                InstanceEvent::ChildWaitFailed
                | InstanceEvent::Cancelled
                | InstanceEvent::BridgeEnded => (
                    InstanceState::ShuttingDown { deadline },
                    InstanceAction::AwaitExit { deadline },
                ),
                _ => (*self, InstanceAction::Wait),
            },
            InstanceState::ShuttingDown { deadline: due } => match event {
                InstanceEvent::ChildExited { success } => (
                    InstanceState::Exited,
                    InstanceAction::Finish { note: note_for(success) },
                ),
                InstanceEvent::ChildWaitFailed => (
                    InstanceState::Exited,
                    InstanceAction::Kill { note: ExitNote::Overdue },
                ),
                InstanceEvent::Tick => if now as u128 >= due {
                    (InstanceState::Exited, InstanceAction::Kill { note: ExitNote::Overdue })
                } else {
                    (*self, InstanceAction::Wait)
                },
                _ => (*self, InstanceAction::Wait),
            },
            InstanceState::Exited => (*self, InstanceAction::Wait),
        };
        *self = state;
        action
    }

    /// Whether the instance still counts as registered: it has not exited.
    pub fn is_live(&self) -> (r: bool)
        ensures
            r == !(*self is Exited),
    {
        match self {
            InstanceState::Exited => false,
            _ => true,
        }
    }
}

/// The note for a process that has exited.
fn note_for(success: bool) -> (r: ExitNote)
    ensures
        r == exit_note(success),
{
    if success {
        ExitNote::Clean
    } else {
        ExitNote::NonZeroExit
    }
}

/// Whether `event` starts the grace period of a connected instance.
pub open spec fn starts_grace(event: InstanceEvent) -> bool {
    event is Cancelled || event is BridgeEnded || event is ChildWaitFailed
}

/// A process is killed at the end of its grace period and not before. When
/// shutdown starts at `start`, the deadline is `start + GRACE_PERIOD_MS`,
/// whatever `start` is. Until the deadline a tick brings nothing but more
/// waiting; at the deadline and after it a tick kills the process and ends
/// the instance.
pub proof fn lemma_kill_at_deadline(start: u64, starter: InstanceEvent, now: u64)
    requires
        starts_grace(starter),
    ensures
        ({
            let deadline = (start + GRACE_PERIOD_MS) as u128;
            let waiting = InstanceState::ShuttingDown { deadline };
            &&& next(InstanceState::Connected, starter, start) == (
                waiting,
                InstanceAction::AwaitExit { deadline },
            )
            &&& now < start + GRACE_PERIOD_MS ==> next(waiting, InstanceEvent::Tick, now) == (
                waiting,
                InstanceAction::Wait,
            )
            &&& now >= start + GRACE_PERIOD_MS ==> next(waiting, InstanceEvent::Tick, now) == (
                InstanceState::Exited,
                InstanceAction::Kill { note: ExitNote::Overdue },
            )
        }),
{
}

/// The state after ticks at the times `times`, one after the other.
pub open spec fn after_ticks(state: InstanceState, times: Seq<u64>) -> InstanceState
    decreases times.len(),
{
    if times.len() == 0 {
        state
    } else {
        next(after_ticks(state, times.drop_last()), InstanceEvent::Tick, times.last()).0
    }
}

/// Until the deadline the supervisor only waits: after any number of ticks,
/// all of them before the end of the grace period that started at `start`,
/// the instance is still in its grace period with the same deadline, and the
/// next tick kills if and only if the deadline has come.
pub proof fn lemma_waits_until_deadline(start: u64, times: Seq<u64>, now: u64)
    requires
        forall|i: int| 0 <= i < times.len() ==> times[i] < start + GRACE_PERIOD_MS,
    ensures
        ({
            let waiting = InstanceState::ShuttingDown {
                deadline: (start + GRACE_PERIOD_MS) as u128,
            };
            &&& after_ticks(waiting, times) == waiting
            &&& next(after_ticks(waiting, times), InstanceEvent::Tick, now).1 is Kill <==> now
                >= start + GRACE_PERIOD_MS
            &&& now < start + GRACE_PERIOD_MS ==> next(
                after_ticks(waiting, times),
                InstanceEvent::Tick,
                now,
            ).1 is Wait
        }),
    decreases times.len(),
{
    if times.len() > 0 {
        lemma_waits_until_deadline(start, times.drop_last(), times.last());
    }
}

/// A process is killed once at most: a kill ends the instance, and an
/// instance that has ended takes no event and asks for no action.
pub proof fn lemma_nothing_after_the_end(
    state: InstanceState,
    event: InstanceEvent,
    now: u64,
    later: InstanceEvent,
    later_now: u64,
)
    requires
        next(state, event, now).1 is Kill || next(state, event, now).1 is Finish,
    ensures
        next(state, event, now).0 is Exited,
        next(next(state, event, now).0, later, later_now) == (
            InstanceState::Exited,
            InstanceAction::Wait,
        ),
{
}

/// Only a process that is overdue or never connected is killed: whatever the
/// state and the event, a kill means that the connection failed, or that the
/// instance was in its grace period and either the deadline had come or the
/// process could not be waited for.
pub proof fn lemma_kill_only_when_due(state: InstanceState, event: InstanceEvent, now: u64)
    requires
        next(state, event, now).1 is Kill,
    ensures
        next(state, event, now).0 is Exited,
        (state is Spawning && event is AcceptFailed) || (state matches InstanceState::ShuttingDown {
            deadline,
        } && ((event is Tick && now >= deadline) || event is ChildWaitFailed)),
{
}

/// A process that exits is not killed: its exit ends the instance, and after
/// that no event brings any action.
pub proof fn lemma_exited_child_not_killed(
    state: InstanceState,
    success: bool,
    now: u64,
    later: InstanceEvent,
    later_now: u64,
)
    requires
        state is Connected || state is ShuttingDown,
    ensures
        next(state, InstanceEvent::ChildExited { success }, now).0 is Exited,
        next(state, InstanceEvent::ChildExited { success }, now).1 is Finish,
        next(InstanceState::Exited, later, later_now) == (
            InstanceState::Exited,
            InstanceAction::Wait,
        ),
{
}

} // verus!
