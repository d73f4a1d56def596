//! The lifecycle of the supervised dev-server process.
//!
//! The supervisor decides; its caller acts. Each event that the caller
//! reports moves the state and yields the one action to perform next:
//! launch the process, forward a request, kill the process, report a
//! failure, or nothing. The process handle itself never enters here.

use vstd::prelude::*;
use std::ops::Range;
use crate::ports::{answers_as, chosen_port, select_port};

verus! {

/// Where the supervised process stands.
#[derive(Clone, Copy, Debug, PartialEq, Eq, Structural)]
pub enum State {
    /// Nothing was started.
    Idle,
    /// A port was chosen and the launch was ordered.
    Starting { port: u16 },
    /// The process was launched on this port.
    Running { port: u16 },
    /// The kill was ordered; its outcome is awaited.
    Stopping { port: u16 },
    /// The process is gone. Nothing leaves this state.
    Stopped,
}

/// What can go wrong.
#[derive(Clone, Copy, Debug, PartialEq, Eq, Structural)]
pub enum SupervisorError {
    /// No candidate port was free.
    NoFreePort,
    /// A request was to be forwarded while no process was running.
    UpstreamUnavailable,
    /// A start was asked for while the supervisor was not idle.
    AlreadyRunning,
    /// The process could not be launched.
    ProcessLaunchFailed,
    /// The process did not terminate cleanly.
    ProcessTerminationFailed,
}

/// What the caller reports.
#[derive(Clone, Copy, Debug, PartialEq, Eq, Structural)]
pub enum Event {
    /// A start is asked for, with the port that the selection gave.
    Start { port: Option<u16> },
    /// The launch succeeded.
    Launched,
    /// The launch failed.
    LaunchFailed,
    /// A request is to be forwarded.
    Forward,
    /// A stop is asked for: by a call, by a guard going out of scope, by
    /// a panic or a signal handler.
    Stop,
    /// The kill returned; `clean` tells whether it reported success.
    Terminated { clean: bool },
}

/// What the caller is to do next.
#[derive(Clone, Copy, Debug, PartialEq, Eq, Structural)]
pub enum Action {
    /// Launch the process on this port, then report how it went.
    Launch { port: u16 },
    /// Send the request to this port and relay the answer.
    ForwardTo { port: u16 },
    /// Kill the process that holds this port, reap it, then report.
    Kill { port: u16 },
    /// Report this error; nothing else is to be done.
    Fail { error: SupervisorError },
    /// Nothing is to be done.
    Nothing,
}

/// Whether the state is one from which a kill can still be ordered.
pub open spec fn may_still_kill(state: State) -> bool {
    state is Idle || state is Starting || state is Running
}

/// The state after an event, and the action that the event calls for.
pub open spec fn next(state: State, event: Event) -> (State, Action) {
    match event {
        Event::Start { port } => match state {
            State::Idle => match port {
                Some(port) => (State::Starting { port }, Action::Launch { port }),
                None => (State::Idle, Action::Fail { error: SupervisorError::NoFreePort }),
            },
            _ => (state, Action::Fail { error: SupervisorError::AlreadyRunning }),
        },
        Event::Launched => match state {
            State::Starting { port } => (State::Running { port }, Action::Nothing),
            _ => (state, Action::Nothing),
        },
        Event::LaunchFailed => match state {
            State::Starting { port } => (
                State::Idle,
                Action::Fail { error: SupervisorError::ProcessLaunchFailed },
            ),
            _ => (state, Action::Nothing),
        },
        Event::Forward => match state {
            State::Running { port } => (state, Action::ForwardTo { port }),
            _ => (state, Action::Fail { error: SupervisorError::UpstreamUnavailable }),
        },
        Event::Stop => match state {
            State::Idle => (State::Stopped, Action::Nothing),
            State::Starting { port } => (State::Stopping { port }, Action::Kill { port }),
            State::Running { port } => (State::Stopping { port }, Action::Kill { port }),
            _ => (state, Action::Nothing),
        },
        Event::Terminated { clean } => match state {
            State::Stopping { port } => (
                State::Stopped,
                if clean {
                    Action::Nothing
                } else {
                    Action::Fail { error: SupervisorError::ProcessTerminationFailed }
                },
            ),
            _ => (state, Action::Nothing),
        },
    }
}

/// The state after a sequence of events.
pub open spec fn run(state: State, events: Seq<Event>) -> State
    decreases events.len(),
{
    if events.len() == 0 {
        state
    } else {
        run(next(state, events[0]).0, events.drop_first())
    }
}

/// How many kills a sequence of events orders.
pub open spec fn kills(state: State, events: Seq<Event>) -> nat
    decreases events.len(),
{
    if events.len() == 0 {
        0
    } else {
        let (after, action) = next(state, events[0]);
        let rest = kills(after, events.drop_first());
        if action is Kill {
            rest + 1
        } else {
            rest
        }
    }
}

/// The decisions about one supervised process.
#[derive(Debug)]
pub struct Supervisor {
    state: State,
}

impl View for Supervisor {
    type V = State;

    closed spec fn view(&self) -> State {
        self.state
    }
}

impl Supervisor {
    /// A supervisor that has started nothing.
    pub fn new() -> (supervisor: Supervisor)
        ensures
            supervisor@ == State::Idle,
    {
        Supervisor { state: State::Idle }
    }

    /// The current state.
    pub fn state(&self) -> (state: State)
        ensures
            state == self@,
    {
        self.state
    }

    /// Whether the process was launched and no stop was asked for.
    pub fn is_running(&self) -> (running: bool)
        ensures
            running == (self@ is Running),
    {
        match self.state {
            State::Running { port: _ } => true,
            _ => false,
        }
    }

    /// The port of the process, while one is starting, running or being
    /// stopped.
    pub fn port(&self) -> (port: Option<u16>)
        ensures
            port == match self@ {
                State::Starting { port } => Some(port),
                State::Running { port } => Some(port),
                State::Stopping { port } => Some(port),
                _ => None::<u16>,
            },
    {
        match self.state {
            State::Starting { port } => Some(port),
            State::Running { port } => Some(port),
            State::Stopping { port } => Some(port),
            _ => None,
        }
    }

    /// Takes an event, moves the state, and returns what is to be done.
    pub fn step(&mut self, event: Event) -> (action: Action)
        ensures
            (final(self)@, action) == next(old(self)@, event),
    {
        let state = self.state;
        let (after, action) = match event {
            Event::Start { port } => match state {
                State::Idle => match port {
                    Some(port) => (State::Starting { port }, Action::Launch { port }),
                    None => (State::Idle, Action::Fail { error: SupervisorError::NoFreePort }),
                },
                _ => (state, Action::Fail { error: SupervisorError::AlreadyRunning }),
            },
            Event::Launched => match state {
                State::Starting { port } => (State::Running { port }, Action::Nothing),
                _ => (state, Action::Nothing),
            },
            Event::LaunchFailed => match state {
                State::Starting { port: _ } => (
                    State::Idle,
                    Action::Fail { error: SupervisorError::ProcessLaunchFailed },
                ),
                _ => (state, Action::Nothing),
            },
            Event::Forward => match state {
                State::Running { port } => (state, Action::ForwardTo { port }),
                _ => (state, Action::Fail { error: SupervisorError::UpstreamUnavailable }),
            },
            Event::Stop => match state {
                State::Idle => (State::Stopped, Action::Nothing),
                State::Starting { port } => (State::Stopping { port }, Action::Kill { port }),
                State::Running { port } => (State::Stopping { port }, Action::Kill { port }),
                _ => (state, Action::Nothing),
            },
            Event::Terminated { clean } => match state {
                State::Stopping { port: _ } => (
                    State::Stopped,
                    if clean {
                        Action::Nothing
                    } else {
                        Action::Fail { error: SupervisorError::ProcessTerminationFailed }
                    },
                ),
                _ => (state, Action::Nothing),
            },
        };
        self.state = after;
        action
    }

    /// Asks for a start. Unless the supervisor is idle this fails with
    /// `AlreadyRunning` and no port is asked about. Otherwise the port is
    /// chosen: with none free this fails with `NoFreePort` and the
    /// supervisor stays idle; with one found the supervisor is starting and
    /// the port is returned for the launch.
    pub fn start<F: Fn(u16) -> bool>(
        &mut self,
        fixed: Option<u16>,
        range: Range<u16>,
        is_port_free: F,
    ) -> (port: Result<u16, SupervisorError>)
        requires
            forall|p: u16| #[trigger] is_port_free.requires((p,)),
        ensures
            !(old(self)@ is Idle) ==> final(self)@ == old(self)@ && port == Err::<
                u16,
                SupervisorError,
            >(SupervisorError::AlreadyRunning),
            old(self)@ is Idle ==> match port {
                Ok(p) => final(self)@ == (State::Starting { port: p }) && is_port_free.ensures(
                    (p,),
                    true,
                ) && (match fixed {
                    Some(wanted) => p == wanted,
                    None => range.start <= p < range.end && forall|q: u16|
                        range.start <= q < p ==> #[trigger] is_port_free.ensures((q,), false),
                }),
                Err(error) => final(self)@ is Idle && error == SupervisorError::NoFreePort
                    && (match fixed {
                    Some(wanted) => is_port_free.ensures((wanted,), false),
                    None => forall|q: u16|
                        range.start <= q < range.end ==> #[trigger] is_port_free.ensures(
                            (q,),
                            false,
                        ),
                }),
            },
            forall|free: spec_fn(u16) -> bool| #[trigger]
                answers_as(is_port_free, free, 0, u16::MAX + 1) && old(self)@ is Idle ==> (
                final(self)@,
                start_action(port),
            ) == next(
                State::Idle,
                Event::Start {
                    port: chosen_port(free, fixed, range.start as int, range.end as int),
                },
            ),
    {
        match self.state {
            State::Idle => {},
            _ => {
                return Err(SupervisorError::AlreadyRunning);
            },
        }
        let chosen = select_port(fixed, range, is_port_free);
        match self.step(Event::Start { port: chosen }) {
            Action::Launch { port } => Ok(port),
            Action::Fail { error } => Err(error),
            _ => Err(SupervisorError::NoFreePort),
        }
    }

    /// Reports that the launch succeeded.
    pub fn launched(&mut self)
        ensures
            final(self)@ == next(old(self)@, Event::Launched).0,
    {
        let _ = self.step(Event::Launched);
    }

    /// Reports that the launch failed. A supervisor that was starting is
    /// idle again and the failure is returned.
    pub fn launch_failed(&mut self) -> (failure: Option<SupervisorError>)
        ensures
            final(self)@ == next(old(self)@, Event::LaunchFailed).0,
            failure == failure_of(next(old(self)@, Event::LaunchFailed).1),
    {
        match self.step(Event::LaunchFailed) {
            Action::Fail { error } => Some(error),
            _ => None,
        }
    }

    /// The port to forward a request to. Unless the process is running
    /// this fails with `UpstreamUnavailable`.
    pub fn forward(&self) -> (port: Result<u16, SupervisorError>)
        ensures
            port == match self@ {
                State::Running { port } => Ok::<u16, SupervisorError>(port),
                _ => Err::<u16, SupervisorError>(SupervisorError::UpstreamUnavailable),
            },
    {
        match self.state {
            State::Running { port } => Ok(port),
            _ => Err(SupervisorError::UpstreamUnavailable),
        }
    }

    /// Asks for a stop. The first stop of a process that is starting or
    /// running returns its port: the caller kills that process. Every
    /// other stop returns nothing and changes nothing but an idle
    /// supervisor, which is stopped.
    pub fn stop(&mut self) -> (kill: Option<u16>)
        ensures
            final(self)@ == next(old(self)@, Event::Stop).0,
            kill == match next(old(self)@, Event::Stop).1 {
                Action::Kill { port } => Some(port),
                _ => None::<u16>,
            },
            !(final(self)@ is Idle || final(self)@ is Starting || final(self)@ is Running),
    {
        match self.step(Event::Stop) {
            Action::Kill { port } => Some(port),
            _ => None,
        }
    }

    /// Reports that the kill returned. A supervisor that was stopping is
    /// stopped, whether or not the kill succeeded; a failed kill is
    /// returned as `ProcessTerminationFailed`.
    pub fn terminated(&mut self, clean: bool) -> (failure: Option<SupervisorError>)
        ensures
            final(self)@ == next(old(self)@, Event::Terminated { clean }).0,
            failure == failure_of(next(old(self)@, Event::Terminated { clean }).1),
    {
        match self.step(Event::Terminated { clean }) {
            Action::Fail { error } => Some(error),
            _ => None,
        }
    }
}

/// The error that an action reports, if it reports one.
pub open spec fn failure_of(action: Action) -> Option<SupervisorError> {
    match action {
        Action::Fail { error } => Some(error),
        _ => None,
    }
}

/// The action that the result of a start stands for.
pub open spec fn start_action(port: Result<u16, SupervisorError>) -> Action {
    match port {
        Ok(port) => Action::Launch { port },
        Err(error) => Action::Fail { error },
    }
}

/// Once a stop was asked for, no kill is ordered any more, whatever
/// follows.
pub proof fn no_kill_after_stop(state: State, events: Seq<Event>)
    requires
        !may_still_kill(state),
    ensures
        kills(state, events) == 0,
        !may_still_kill(run(state, events)),
    decreases events.len(),
{
    if events.len() > 0 {
        no_kill_after_stop(next(state, events[0]).0, events.drop_first());
    }
}

/// Whatever is reported, in whatever order, at most one kill is ordered.
pub proof fn at_most_one_kill(state: State, events: Seq<Event>)
    ensures
        kills(state, events) <= 1,
    decreases events.len(),
{
    if events.len() > 0 {
        let (after, action) = next(state, events[0]);
        if action is Kill {
            no_kill_after_stop(after, events.drop_first());
        } else {
            at_most_one_kill(after, events.drop_first());
        }
    }
}

/// A second stop orders nothing and changes nothing, whatever state the
/// first one found and whatever was reported in between.
pub proof fn stop_is_idempotent(state: State, between: Seq<Event>)
    ensures
        ({
            let stopped = run(next(state, Event::Stop).0, between);
            next(stopped, Event::Stop) == (stopped, Action::Nothing)
        }),
{
    no_kill_after_stop(next(state, Event::Stop).0, between);
}

/// The first stop of a process that is starting or running orders exactly
/// the kill of that process.
pub proof fn stop_kills_the_process(state: State)
    ensures
        state matches State::Starting { port } ==> next(state, Event::Stop) == (
            State::Stopping { port },
            Action::Kill { port },
        ),
        state matches State::Running { port } ==> next(state, Event::Stop) == (
            State::Stopping { port },
            Action::Kill { port },
        ),
{
}

/// A stop followed by the report of the kill ends in `Stopped`, whether
/// or not the kill succeeded, and from every state.
pub proof fn stop_reaches_stopped(state: State, clean: bool)
    ensures
        next(next(state, Event::Stop).0, Event::Terminated { clean }).0 == State::Stopped,
{
}

/// Nothing leaves `Stopped`, and nothing is launched, forwarded or killed
/// there.
pub proof fn stopped_is_terminal(event: Event)
    ensures
        next(State::Stopped, event).0 == State::Stopped,
        next(State::Stopped, event).1 is Nothing || next(State::Stopped, event).1 is Fail,
{
}

/// A start without a free port fails before anything is launched and
/// leaves the supervisor idle; a launch that fails leaves it idle too.
pub proof fn failed_start_leaves_idle(port: u16)
    ensures
        next(State::Idle, Event::Start { port: None }) == (
            State::Idle,
            Action::Fail { error: SupervisorError::NoFreePort },
        ),
        next(State::Starting { port }, Event::LaunchFailed) == (
            State::Idle,
            Action::Fail { error: SupervisorError::ProcessLaunchFailed },
        ),
{
}

/// A start is accepted by an idle supervisor only.
pub proof fn second_start_is_refused(state: State, port: Option<u16>)
    requires
        !(state is Idle),
    ensures
        next(state, Event::Start { port }) == (
            state,
            Action::Fail { error: SupervisorError::AlreadyRunning },
        ),
{
}

/// A request is forwarded exactly while the process is running, and to
/// its port; forwarding never changes the state.
pub proof fn forward_needs_running(state: State)
    ensures
        next(state, Event::Forward).0 == state,
        state matches State::Running { port } ==> next(state, Event::Forward).1 == (
            Action::ForwardTo { port }
        ),
        !(state is Running) ==> next(state, Event::Forward).1 == (
            Action::Fail { error: SupervisorError::UpstreamUnavailable }
        ),
{
}

} // verus!
