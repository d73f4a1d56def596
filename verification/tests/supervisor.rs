use vite_rs::supervisor::{Action, Event, State, Supervisor, SupervisorError};

fn running(port: u16) -> Supervisor {
    let mut supervisor = Supervisor::new();
    assert_eq!(supervisor.start(Some(port), 0..0, |_| true), Ok(port));
    supervisor.launched();
    assert_eq!(supervisor.state(), State::Running { port });
    supervisor
}

#[test]
fn lifecycle_runs_from_idle_to_stopped() {
    let mut supervisor = Supervisor::new();
    assert_eq!(supervisor.state(), State::Idle);
    assert_eq!(supervisor.port(), None);
    assert_eq!(supervisor.start(None, 21012..22022, |port| port == 21015), Ok(21015));
    assert_eq!(supervisor.state(), State::Starting { port: 21015 });
    supervisor.launched();
    assert_eq!(supervisor.state(), State::Running { port: 21015 });
    assert_eq!(supervisor.port(), Some(21015));
    assert_eq!(supervisor.forward(), Ok(21015));
    assert!(supervisor.is_running());
    assert_eq!(supervisor.stop(), Some(21015));
    assert!(!supervisor.is_running());
    assert_eq!(supervisor.state(), State::Stopping { port: 21015 });
    assert_eq!(supervisor.terminated(true), None);
    assert_eq!(supervisor.state(), State::Stopped);
    assert_eq!(supervisor.port(), None);
}

#[test]
fn stop_twice_kills_once() {
    let mut supervisor = running(21012);
    assert_eq!(supervisor.stop(), Some(21012));
    assert_eq!(supervisor.stop(), None);
    assert_eq!(supervisor.state(), State::Stopping { port: 21012 });
    assert_eq!(supervisor.terminated(true), None);
    assert_eq!(supervisor.stop(), None);
    assert_eq!(supervisor.stop(), None);
    assert_eq!(supervisor.state(), State::Stopped);
}

#[test]
fn any_order_of_events_orders_at_most_one_kill() {
    let events = [
        Event::Stop,
        Event::Start { port: Some(1) },
        Event::Launched,
        Event::Forward,
        Event::Stop,
        Event::Stop,
        Event::Terminated { clean: false },
        Event::Start { port: Some(2) },
        Event::Launched,
        Event::Stop,
        Event::LaunchFailed,
        Event::Terminated { clean: true },
    ];
    for skip in 0..events.len() {
        let mut supervisor = Supervisor::new();
        let mut kills = 0;
        for event in events.iter().skip(skip) {
            if let Action::Kill { .. } = supervisor.step(*event) {
                kills += 1;
            }
        }
        assert!(kills <= 1);
    }
}

#[test]
fn stop_of_an_idle_supervisor_kills_nothing() {
    let mut supervisor = Supervisor::new();
    assert_eq!(supervisor.stop(), None);
    assert_eq!(supervisor.state(), State::Stopped);
    assert_eq!(supervisor.stop(), None);
    assert_eq!(
        supervisor.start(None, 10..20, |_| true),
        Err(SupervisorError::AlreadyRunning)
    );
    assert_eq!(supervisor.state(), State::Stopped);
}

#[test]
fn stop_while_starting_kills() {
    let mut supervisor = Supervisor::new();
    assert_eq!(supervisor.start(Some(4000), 0..0, |_| true), Ok(4000));
    assert_eq!(supervisor.stop(), Some(4000));
    supervisor.launched();
    assert_eq!(supervisor.state(), State::Stopping { port: 4000 });
}

#[test]
fn failed_termination_is_reported_and_still_stops() {
    let mut supervisor = running(21012);
    assert_eq!(supervisor.stop(), Some(21012));
    assert_eq!(supervisor.terminated(false), Some(SupervisorError::ProcessTerminationFailed));
    assert_eq!(supervisor.state(), State::Stopped);
    assert_eq!(supervisor.terminated(false), None);
}

#[test]
fn empty_range_fails_with_no_free_port() {
    let mut supervisor = Supervisor::new();
    assert_eq!(supervisor.start(None, 21012..21012, |_| true), Err(SupervisorError::NoFreePort));
    assert_eq!(supervisor.state(), State::Idle);
}

#[test]
fn range_with_one_free_port_starts_on_it() {
    let mut supervisor = Supervisor::new();
    assert_eq!(supervisor.start(None, 21012..22022, |port| port == 21999), Ok(21999));
    assert_eq!(supervisor.state(), State::Starting { port: 21999 });
}

#[test]
fn occupied_single_port_fails_before_anything_is_launched() {
    let mut supervisor = Supervisor::new();
    assert_eq!(
        supervisor.start(Some(21232), 21012..22022, |port| port != 21232),
        Err(SupervisorError::NoFreePort)
    );
    assert_eq!(supervisor.state(), State::Idle);
    assert_eq!(supervisor.port(), None);
    let mut supervisor = Supervisor::new();
    assert_eq!(
        supervisor.start(None, 21232..21233, |_| false),
        Err(SupervisorError::NoFreePort)
    );
    assert_eq!(
        supervisor.step(Event::Start { port: None }),
        Action::Fail { error: SupervisorError::NoFreePort }
    );
    assert_eq!(supervisor.state(), State::Idle);
}

#[test]
fn second_start_is_refused_without_probing() {
    let mut supervisor = running(21012);
    let result = supervisor.start(None, 21012..22022, |_| panic!("no port is to be asked about"));
    assert_eq!(result, Err(SupervisorError::AlreadyRunning));
    assert_eq!(supervisor.state(), State::Running { port: 21012 });
    let mut starting = Supervisor::new();
    assert_eq!(starting.start(Some(1), 0..0, |_| true), Ok(1));
    assert_eq!(starting.start(Some(2), 0..0, |_| true), Err(SupervisorError::AlreadyRunning));
    assert_eq!(starting.state(), State::Starting { port: 1 });
}

#[test]
fn failed_launch_returns_to_idle_and_can_be_retried() {
    let mut supervisor = Supervisor::new();
    assert_eq!(supervisor.start(Some(5000), 0..0, |_| true), Ok(5000));
    assert_eq!(supervisor.launch_failed(), Some(SupervisorError::ProcessLaunchFailed));
    assert_eq!(supervisor.state(), State::Idle);
    assert_eq!(supervisor.launch_failed(), None);
    assert_eq!(supervisor.start(Some(5001), 0..0, |_| true), Ok(5001));
}

#[test]
fn forward_needs_a_running_process() {
    let mut supervisor = Supervisor::new();
    assert_eq!(supervisor.forward(), Err(SupervisorError::UpstreamUnavailable));
    assert_eq!(
        supervisor.step(Event::Forward),
        Action::Fail { error: SupervisorError::UpstreamUnavailable }
    );
    assert_eq!(supervisor.start(Some(5000), 0..0, |_| true), Ok(5000));
    assert_eq!(supervisor.forward(), Err(SupervisorError::UpstreamUnavailable));
    supervisor.launched();
    assert_eq!(supervisor.forward(), Ok(5000));
    assert_eq!(supervisor.step(Event::Forward), Action::ForwardTo { port: 5000 });
    assert_eq!(supervisor.stop(), Some(5000));
    assert_eq!(supervisor.forward(), Err(SupervisorError::UpstreamUnavailable));
    assert_eq!(supervisor.terminated(true), None);
    assert_eq!(supervisor.forward(), Err(SupervisorError::UpstreamUnavailable));
}

#[test]
fn step_yields_the_action_of_each_event() {
    let mut supervisor = Supervisor::new();
    assert_eq!(supervisor.step(Event::Launched), Action::Nothing);
    assert_eq!(supervisor.step(Event::Terminated { clean: false }), Action::Nothing);
    assert_eq!(supervisor.step(Event::Start { port: Some(7) }), Action::Launch { port: 7 });
    assert_eq!(
        supervisor.step(Event::Start { port: Some(8) }),
        Action::Fail { error: SupervisorError::AlreadyRunning }
    );
    assert_eq!(supervisor.step(Event::Launched), Action::Nothing);
    assert_eq!(supervisor.step(Event::LaunchFailed), Action::Nothing);
    assert_eq!(supervisor.step(Event::Stop), Action::Kill { port: 7 });
    assert_eq!(supervisor.step(Event::Stop), Action::Nothing);
    assert_eq!(
        supervisor.step(Event::Terminated { clean: false }),
        Action::Fail { error: SupervisorError::ProcessTerminationFailed }
    );
    assert_eq!(supervisor.state(), State::Stopped);
    for event in [
        Event::Start { port: Some(9) },
        Event::Launched,
        Event::LaunchFailed,
        Event::Stop,
        Event::Terminated { clean: true },
    ] {
        let action = supervisor.step(event);
        assert!(matches!(action, Action::Nothing | Action::Fail { .. }));
        assert_eq!(supervisor.state(), State::Stopped);
    }
}
