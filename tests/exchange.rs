use stund::client::{OpenAction, OpenEvent, OpenResult, OpenWorkflow};
use stund::message::{ClientMessage, OpenParameters, ServerMessage};
use stund::registry::TunnelRegistry;
use stund::session::{SessionAction, SessionEvent, SessionState};

fn to_daemon(a: OpenAction) -> ClientMessage {
    match a {
        OpenAction::SendToDaemon(m) => m,
        other => panic!("expected a frame for the daemon, got {:?}", describe(&other)),
    }
}

fn to_client(a: SessionAction) -> ServerMessage {
    match a {
        SessionAction::Send(m) => m,
        _ => panic!("expected a frame for the client"),
    }
}

fn describe(a: &OpenAction) -> &'static str {
    match a {
        OpenAction::Wait => "wait",
        OpenAction::SendToDaemon(_) => "send",
        OpenAction::WriteToUser(_) => "write",
        OpenAction::Done(_) => "done",
        OpenAction::Fail => "fail",
    }
}

/// A client and a daemon session driven against each other, frames passed
/// by hand: open, banner, password, terminator, final acknowledgement.
#[test]
fn clean_open_end_to_end() {
    let mut reg = TunnelRegistry::new();
    let session = SessionState::start();
    let (client, a) = OpenWorkflow::start(OpenParameters { host: "h1".to_string() });

    let (session, s_act) = session.handle(SessionEvent::ClientFrame(Some(to_daemon(a))), &mut reg);
    assert!(matches!(s_act, SessionAction::StartTunnel { ref host } if host == "h1"));
    let (client, _) = client.handle(OpenEvent::DaemonSendCompleted);

    let (session, s_act) = session.handle(SessionEvent::TunnelStarted { kill_handle: 9 }, &mut reg);
    let (client, c_act) = client.handle(OpenEvent::DaemonFrame(Some(to_client(s_act))));
    assert!(matches!(c_act, OpenAction::Wait));
    let (session, _) = session.handle(SessionEvent::SendCompleted, &mut reg);

    let (session, s_act) = session.handle(SessionEvent::PtyOutput(b"Password: ".to_vec()), &mut reg);
    let (client, c_act) = client.handle(OpenEvent::DaemonFrame(Some(to_client(s_act))));
    assert!(matches!(c_act, OpenAction::WriteToUser(ref d) if d == b"Password: "));
    let (session, _) = session.handle(SessionEvent::SendCompleted, &mut reg);
    let (client, _) = client.handle(OpenEvent::UserWriteCompleted);

    let (client, c_act) = client.handle(OpenEvent::UserInput(Some(b"pw\n".to_vec())));
    let (session, s_act) = session.handle(SessionEvent::ClientFrame(Some(to_daemon(c_act))), &mut reg);
    assert!(matches!(s_act, SessionAction::WriteToPty(ref d) if d == b"pw\n"));
    let (client, c_act) = client.handle(OpenEvent::DaemonSendCompleted);
    assert!(matches!(c_act, OpenAction::Wait));

    let (client, c_act) = client.handle(OpenEvent::UserInput(Some(b".\n".to_vec())));
    let (session, s_act) = session.handle(SessionEvent::ClientFrame(Some(to_daemon(c_act))), &mut reg);
    assert!(matches!(s_act, SessionAction::WriteToPty(ref d) if d == b".\n"));
    let (client, c_act) = client.handle(OpenEvent::DaemonSendCompleted);
    let end = to_daemon(c_act);
    assert!(matches!(end, ClientMessage::EndOfUserData));
    let (session, s_act) = session.handle(SessionEvent::ClientFrame(Some(end)), &mut reg);
    let (client, _) = client.handle(OpenEvent::DaemonSendCompleted);
    let (client, c_act) = client.handle(OpenEvent::DaemonFrame(Some(to_client(s_act))));
    assert!(matches!(c_act, OpenAction::Done(OpenResult::Success)));
    assert!(matches!(client, OpenWorkflow::Finished(OpenResult::Success)));

    let (session, _) = session.handle(SessionEvent::SendCompleted, &mut reg);
    assert!(matches!(session, SessionState::AwaitingCommand { saw_eof: false }));
    assert_eq!(reg.lookup(&"h1".to_string()), Some(9));

    let (client2, a) = OpenWorkflow::start(OpenParameters { host: "h1".to_string() });
    let (_, s_act) = SessionState::start().handle(SessionEvent::ClientFrame(Some(to_daemon(a))), &mut reg);
    let (client2, _) = client2.handle(OpenEvent::DaemonSendCompleted);
    let (_, c_act) = client2.handle(OpenEvent::DaemonFrame(Some(to_client(s_act))));
    assert!(matches!(c_act, OpenAction::Done(OpenResult::AlreadyOpen)));
    assert_eq!(reg.lookup(&"h1".to_string()), Some(9));
}
