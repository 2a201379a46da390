use stund::message::{ClientMessage, OpenParameters, ServerMessage};
use stund::registry::TunnelRegistry;
use stund::session::{
    abort_client, SessionAction, SessionEvent, SessionFailure, SessionState, SetupStage, SinkState,
};

fn frame(m: ClientMessage) -> SessionEvent {
    SessionEvent::ClientFrame(Some(m))
}

fn open(host: &str) -> ClientMessage {
    ClientMessage::Open(OpenParameters { host: host.to_string() })
}

fn opened(reg: &mut TunnelRegistry) -> SessionState {
    let (s, a) = SessionState::start().handle(frame(open("h1")), reg);
    assert!(matches!(a, SessionAction::StartTunnel { ref host } if host == "h1"));
    let (s, a) = s.handle(SessionEvent::TunnelStarted { kill_handle: 3 }, reg);
    assert!(matches!(a, SessionAction::Send(ServerMessage::Ack)));
    s
}

#[test]
fn clean_open_daemon_side() {
    let mut reg = TunnelRegistry::new();
    let s = opened(&mut reg);
    assert_eq!(reg.lookup(&"h1".to_string()), Some(3));
    let (s, a) = s.handle(SessionEvent::PtyOutput(b"banner".to_vec()), &mut reg);
    assert!(matches!(a, SessionAction::Wait));
    let (s, a) = s.handle(SessionEvent::SendCompleted, &mut reg);
    assert!(matches!(a, SessionAction::Send(ServerMessage::SshData(ref d)) if d == b"banner"));
    let (s, a) = s.handle(frame(ClientMessage::UserData(b"pw\n".to_vec())), &mut reg);
    assert!(matches!(a, SessionAction::WriteToPty(ref d) if d == b"pw\n"));
    let (s, a) = s.handle(frame(ClientMessage::EndOfUserData), &mut reg);
    assert!(matches!(a, SessionAction::Wait));
    let (s, a) = s.handle(SessionEvent::SendCompleted, &mut reg);
    assert!(matches!(a, SessionAction::Send(ServerMessage::Ack)));
    assert!(matches!(s, SessionState::FinalizingOpen { deferred: None }));
    let (s, a) = s.handle(SessionEvent::SendCompleted, &mut reg);
    assert!(matches!(a, SessionAction::Wait));
    assert!(matches!(s, SessionState::AwaitingCommand { saw_eof: false }));
    assert!(reg.contains(&"h1".to_string()));
    let (s, a) = s.handle(frame(ClientMessage::Goodbye), &mut reg);
    assert!(matches!(a, SessionAction::Close));
    assert!(s.is_over());
}

#[test]
fn ack_waits_for_buffered_output() {
    let mut reg = TunnelRegistry::new();
    let s = opened(&mut reg);
    let (s, _) = s.handle(SessionEvent::PtyOutput(b"a".to_vec()), &mut reg);
    let (s, a) = s.handle(frame(ClientMessage::EndOfUserData), &mut reg);
    assert!(matches!(a, SessionAction::Wait));
    let (s, a) = s.handle(SessionEvent::PtyOutput(b"b".to_vec()), &mut reg);
    assert!(matches!(a, SessionAction::Wait));
    let (s, a) = s.handle(SessionEvent::SendCompleted, &mut reg);
    assert!(matches!(a, SessionAction::Send(ServerMessage::SshData(ref d)) if d == b"ab"));
    let (s, a) = s.handle(SessionEvent::SendCompleted, &mut reg);
    assert!(matches!(a, SessionAction::Send(ServerMessage::Ack)));
    let (_, a) = s.handle(SessionEvent::PtyOutput(b"late".to_vec()), &mut reg);
    assert!(matches!(a, SessionAction::Wait));
}

#[test]
fn spawn_failure_aborts_with_error() {
    let mut reg = TunnelRegistry::new();
    let (s, _) = SessionState::start().handle(frame(open("h1")), &mut reg);
    let (s, a) = s.handle(
        SessionEvent::TunnelFailed { stage: SetupStage::Pty, detail: "out of ptys".to_string() },
        &mut reg,
    );
    assert!(matches!(a, SessionAction::Send(ServerMessage::Error(ref t)) if t == "failed to create PTY: out of ptys"));
    assert!(!reg.contains(&"h1".to_string()));
    let (s, a) = s.handle(SessionEvent::SendCompleted, &mut reg);
    assert!(matches!(a, SessionAction::Fail(SessionFailure::Aborted)));
    assert!(s.is_over());
}

#[test]
fn launch_failure_text() {
    let mut reg = TunnelRegistry::new();
    let (s, _) = SessionState::start().handle(frame(open("h1")), &mut reg);
    let (_, a) = s.handle(
        SessionEvent::TunnelFailed { stage: SetupStage::Spawn, detail: "no ssh".to_string() },
        &mut reg,
    );
    assert!(matches!(a, SessionAction::Send(ServerMessage::Error(ref t)) if t == "failed to launch SSH: no ssh"));
}

#[test]
fn unexpected_variant_during_open_is_fatal() {
    let mut reg = TunnelRegistry::new();
    let s = opened(&mut reg);
    let (s, _) = s.handle(SessionEvent::SendCompleted, &mut reg);
    let (s, a) = s.handle(frame(ClientMessage::Goodbye), &mut reg);
    assert!(matches!(a, SessionAction::Fail(SessionFailure::UnexpectedMessage)));
    assert!(matches!(s, SessionState::Failed { failure: SessionFailure::UnexpectedMessage }));
    let (_, a) = s.handle(SessionEvent::SendCompleted, &mut reg);
    assert!(matches!(a, SessionAction::Wait));
}

#[test]
fn other_sessions_unaffected_by_fatal_error() {
    let mut reg = TunnelRegistry::new();
    let a = opened(&mut reg);
    let b = SessionState::start();
    let (_, act) = a.handle(frame(open("h2")), &mut reg);
    assert!(matches!(act, SessionAction::Fail(SessionFailure::UnexpectedMessage)));
    let (_, act) = b.handle(frame(ClientMessage::Goodbye), &mut reg);
    assert!(matches!(act, SessionAction::Close));
}

#[test]
fn user_data_after_end_is_fatal() {
    let mut reg = TunnelRegistry::new();
    let s = opened(&mut reg);
    let (s, _) = s.handle(frame(ClientMessage::EndOfUserData), &mut reg);
    let (_, a) = s.handle(frame(ClientMessage::UserData(b"x".to_vec())), &mut reg);
    assert!(matches!(a, SessionAction::Fail(SessionFailure::DataAfterEnd)));
}

#[test]
fn pty_failure_queues_error_behind_flush() {
    let mut reg = TunnelRegistry::new();
    let s = opened(&mut reg);
    let (s, a) = s.handle(SessionEvent::PtyFailed, &mut reg);
    assert!(matches!(a, SessionAction::Wait));
    let (s, a) = s.handle(SessionEvent::SendCompleted, &mut reg);
    assert!(matches!(a, SessionAction::Send(ServerMessage::Error(ref t)) if t == "something went wrong communicating with the SSH process"));
    let (_, a) = s.handle(SessionEvent::SendCompleted, &mut reg);
    assert!(matches!(a, SessionAction::Fail(SessionFailure::Aborted)));
}

#[test]
fn abort_when_idle_sends_at_once() {
    let (s, a) = abort_client("boom".to_string(), SinkState::Idle);
    assert!(matches!(a, SessionAction::Send(ServerMessage::Error(ref t)) if t == "boom"));
    assert!(matches!(s, SessionState::Aborting { pending: None }));
    let (s, a) = abort_client("boom".to_string(), SinkState::Flushing);
    assert!(matches!(a, SessionAction::Wait));
    assert!(matches!(s, SessionState::Aborting { pending: Some(ref t) } if t == "boom"));
}

#[test]
fn repeated_end_of_stream_is_fatal() {
    let mut reg = TunnelRegistry::new();
    let (s, a) = SessionState::start().handle(SessionEvent::ClientFrame(None), &mut reg);
    assert!(matches!(a, SessionAction::Wait));
    assert!(!s.is_over());
    let (s, a) = s.handle(SessionEvent::ClientFrame(None), &mut reg);
    assert!(matches!(a, SessionAction::Fail(SessionFailure::ClientClosed)));
    assert!(s.is_over());
}

#[test]
fn exit_ends_session_and_unknown_command_fails() {
    let mut reg = TunnelRegistry::new();
    let (_, a) = SessionState::start().handle(frame(ClientMessage::Exit), &mut reg);
    assert!(matches!(a, SessionAction::Close));
    let (_, a) = SessionState::start().handle(frame(ClientMessage::EndOfUserData), &mut reg);
    assert!(matches!(a, SessionAction::Fail(SessionFailure::UnexpectedMessage)));
}

#[test]
fn registered_host_short_circuits() {
    let mut reg = TunnelRegistry::new();
    let _ = opened(&mut reg);
    let (s, a) = SessionState::start().handle(frame(open("h1")), &mut reg);
    assert!(matches!(a, SessionAction::Send(ServerMessage::TunnelAlreadyOpen)));
    assert!(matches!(s, SessionState::FinalizingOpen { deferred: None }));
    assert_eq!(reg.lookup(&"h1".to_string()), Some(3));
    let (s, a) = s.handle(SessionEvent::SendCompleted, &mut reg);
    assert!(matches!(a, SessionAction::Wait));
    assert!(matches!(s, SessionState::AwaitingCommand { saw_eof: false }));
    let (_, a) = s.handle(frame(open("h2")), &mut reg);
    assert!(matches!(a, SessionAction::StartTunnel { ref host } if host == "h2"));
}

#[test]
fn client_close_during_open_is_fatal() {
    let mut reg = TunnelRegistry::new();
    let s = opened(&mut reg);
    let (s, a) = s.handle(SessionEvent::ClientFrame(None), &mut reg);
    assert!(matches!(a, SessionAction::Fail(SessionFailure::ClientClosed)));
    assert!(s.is_over());
    assert!(reg.contains(&"h1".to_string()));
}

#[test]
fn command_during_final_flush_is_kept() {
    let mut reg = TunnelRegistry::new();
    let s = opened(&mut reg);
    let (s, _) = s.handle(SessionEvent::SendCompleted, &mut reg);
    let (s, _) = s.handle(frame(ClientMessage::EndOfUserData), &mut reg);
    assert!(matches!(s, SessionState::FinalizingOpen { deferred: None }));
    let (s, a) = s.handle(frame(ClientMessage::Goodbye), &mut reg);
    assert!(matches!(a, SessionAction::Wait));
    assert!(matches!(s, SessionState::FinalizingOpen { deferred: Some(ClientMessage::Goodbye) }));
    let (s, a) = s.handle(SessionEvent::SendCompleted, &mut reg);
    assert!(matches!(a, SessionAction::Close));
    assert!(matches!(s, SessionState::Finished));
}

#[test]
fn open_kept_during_final_flush_is_answered() {
    let mut reg = TunnelRegistry::new();
    let s = opened(&mut reg);
    let (s, _) = s.handle(SessionEvent::SendCompleted, &mut reg);
    let (s, _) = s.handle(frame(ClientMessage::EndOfUserData), &mut reg);
    let (s, _) = s.handle(frame(open("h1")), &mut reg);
    let (s, a) = s.handle(SessionEvent::SendCompleted, &mut reg);
    assert!(matches!(a, SessionAction::Send(ServerMessage::TunnelAlreadyOpen)));
    let (s, a) = s.handle(frame(ClientMessage::Goodbye), &mut reg);
    assert!(matches!(a, SessionAction::Wait));
    let (_, a) = s.handle(frame(ClientMessage::Exit), &mut reg);
    assert!(matches!(a, SessionAction::Fail(SessionFailure::UnexpectedMessage)));
}

#[test]
fn frame_while_opening_fails_session() {
    let mut reg = TunnelRegistry::new();
    let (s, _) = SessionState::start().handle(frame(open("h1")), &mut reg);
    let (s, a) = s.handle(frame(ClientMessage::UserData(b"early".to_vec())), &mut reg);
    assert!(matches!(a, SessionAction::Fail(SessionFailure::UnexpectedMessage)));
    assert!(s.is_over());
    let (s, _) = SessionState::start().handle(frame(open("h1")), &mut reg);
    let (_, a) = s.handle(SessionEvent::ClientFrame(None), &mut reg);
    assert!(matches!(a, SessionAction::Fail(SessionFailure::ClientClosed)));
    assert!(!reg.contains(&"h1".to_string()));
}
