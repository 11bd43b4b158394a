use rtsp_pipeline::LifecycleEvent;
use rtsp_pipeline::LifecycleMonitor;
use rtsp_pipeline::MonitorState;
use rtsp_pipeline::RunState;

fn state_changed() -> LifecycleEvent {
    LifecycleEvent::StateChanged {
        prev: RunState::Ready,
        current: RunState::Active,
        pending: None,
    }
}

fn warning() -> LifecycleEvent {
    LifecycleEvent::Warning { message: "negotiation incomplete".to_string() }
}

fn error() -> LifecycleEvent {
    LifecycleEvent::Error {
        source: "/graph/source".to_string(),
        message: "connection refused".to_string(),
        detail: Some("network unreachable".to_string()),
    }
}

#[test]
fn informational_events_keep_running() {
    let mut m = LifecycleMonitor::new();
    assert_eq!(m.current(), MonitorState::Running);
    let d = m.observe(&state_changed());
    assert!(!d.force_halt);
    assert!(d.keep_watching);
    let d = m.observe(&warning());
    assert!(!d.force_halt);
    assert!(d.keep_watching);
    assert_eq!(m.current(), MonitorState::Running);
}

#[test]
fn end_of_stream_stops_without_halt() {
    let mut m = LifecycleMonitor::new();
    let d = m.observe(&LifecycleEvent::EndOfStream);
    assert!(!d.force_halt);
    assert!(!d.keep_watching);
    assert_eq!(m.current(), MonitorState::Stopped);
}

#[test]
fn error_stops_and_demands_halt() {
    let mut m = LifecycleMonitor::new();
    let d = m.observe(&error());
    assert!(d.force_halt);
    assert!(!d.keep_watching);
    assert_eq!(m.current(), MonitorState::Stopped);
}

#[test]
fn stopped_monitor_ignores_events() {
    let mut m = LifecycleMonitor::new();
    m.observe(&LifecycleEvent::EndOfStream);
    let d = m.observe(&error());
    assert!(!d.force_halt);
    assert!(!d.keep_watching);
    assert_eq!(m.current(), MonitorState::Stopped);
}
