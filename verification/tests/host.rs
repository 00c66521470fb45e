use gpu_life::host::{Host, HostAction, HostEvent, FRAME_INTERVAL_MS};

#[test]
fn host_starts_the_simulation_once() {
    let mut host = Host::new();
    assert!(!host.started);
    assert_eq!(host.handle(HostEvent::Resumed), HostAction::Initialize);
    assert!(host.started);
    assert_eq!(host.handle(HostEvent::Resumed), HostAction::Ignore);
    assert!(host.started);
}

#[test]
fn host_draws_only_once_started() {
    let mut host = Host::new();
    assert_eq!(host.handle(HostEvent::RedrawRequested), HostAction::Ignore);
    assert_eq!(host.handle(HostEvent::AboutToWait), HostAction::Ignore);
    assert!(!host.started);
    assert_eq!(host.handle(HostEvent::Resumed), HostAction::Initialize);
    assert_eq!(host.handle(HostEvent::RedrawRequested), HostAction::Redraw);
    assert_eq!(host.handle(HostEvent::AboutToWait), HostAction::Pace);
    assert_eq!(host.handle(HostEvent::RedrawRequested), HostAction::Redraw);
    assert!(host.started);
}

#[test]
fn host_leaves_on_close_and_on_escape() {
    let mut host = Host::new();
    assert_eq!(host.handle(HostEvent::CloseRequested), HostAction::Exit);
    assert_eq!(host.handle(HostEvent::EscapePressed), HostAction::Exit);
    assert!(!host.started);
    let mut host = Host { started: true };
    assert_eq!(host.handle(HostEvent::CloseRequested), HostAction::Exit);
    assert_eq!(host.handle(HostEvent::EscapePressed), HostAction::Exit);
    assert!(host.started);
}

#[test]
fn host_ignores_other_events() {
    let mut host = Host::new();
    assert_eq!(host.handle(HostEvent::Other), HostAction::Ignore);
    let mut host = Host { started: true };
    assert_eq!(host.handle(HostEvent::Other), HostAction::Ignore);
    assert!(host.started);
}

#[test]
fn host_paces_frames_a_tenth_of_a_second_apart() {
    assert_eq!(FRAME_INTERVAL_MS, 100);
}
