use stund::registry::TunnelRegistry;
use stund::supervisor::{ChildEvent, ChildMonitor, MonitorAction, MonitorState};

#[test]
fn kill_removes_entry_before_notice() {
    let mut reg = TunnelRegistry::new();
    reg.insert("h1".to_string(), 5);
    reg.insert("h2".to_string(), 6);
    let mut m = ChildMonitor::start("h1".to_string(), 5);
    assert_eq!(m.handle_event(ChildEvent::DeathNoticeSent, &mut reg), MonitorAction::Wait);
    assert!(reg.contains(&"h1".to_string()));
    let a = m.handle_event(ChildEvent::KillRequested, &mut reg);
    assert_eq!(a, MonitorAction::NotifyDeath { kill_child: true, status: None });
    assert!(!reg.contains(&"h1".to_string()));
    assert!(reg.contains(&"h2".to_string()));
    assert_eq!(m.state, MonitorState::NotifyingChildDied { status: None });
    assert_eq!(m.handle_event(ChildEvent::DeathNoticeSent, &mut reg), MonitorAction::Stop);
    assert_eq!(m.state, MonitorState::ChildReaped);
}

#[test]
fn exit_reports_status() {
    let mut reg = TunnelRegistry::new();
    reg.insert("h1".to_string(), 5);
    let mut m = ChildMonitor::start("h1".to_string(), 5);
    let a = m.handle_event(ChildEvent::ChildExited { status: 256 }, &mut reg);
    assert_eq!(a, MonitorAction::NotifyDeath { kill_child: false, status: Some(256) });
    assert!(!reg.contains(&"h1".to_string()));
    assert_eq!(m.handle_event(ChildEvent::KillRequested, &mut reg), MonitorAction::Wait);
}

#[test]
fn watch_failure_stops_and_unregisters() {
    let mut reg = TunnelRegistry::new();
    reg.insert("h1".to_string(), 5);
    let mut m = ChildMonitor::start("h1".to_string(), 5);
    assert_eq!(m.handle_event(ChildEvent::WatchFailed, &mut reg), MonitorAction::Stop);
    assert_eq!(m.state, MonitorState::ChildError);
    assert!(!reg.contains(&"h1".to_string()));
}

#[test]
fn stale_supervisor_keeps_newer_tunnel() {
    let mut reg = TunnelRegistry::new();
    reg.insert("h1".to_string(), 7);
    let mut old = ChildMonitor::start("h1".to_string(), 5);
    let a = old.handle_event(ChildEvent::ChildExited { status: 0 }, &mut reg);
    assert_eq!(a, MonitorAction::NotifyDeath { kill_child: false, status: Some(0) });
    assert_eq!(reg.lookup(&"h1".to_string()), Some(7));
}
