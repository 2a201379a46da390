//! The client's decisions for one open exchange: issue the request, wait for
//! the first acknowledgement, proxy the user's terminal to the daemon until
//! the user types the sentinel, then end the exchange.

use crate::message::{ClientMessage, ClientMessageView, OpenParameters, ServerMessage, ServerMessageView};
use crate::session::SinkState;
use crate::terminator::{run, step, FinishCommunicationState, NEWLINE, PERIOD};
use vstd::prelude::*;
use vstd::string::StringExecFns;

verus! {

/// How an open exchange ended well.
#[derive(Clone, Copy, Debug, PartialEq, Eq, Structural)]
pub enum OpenResult {
    /// The tunnel was opened and the user finished the interactive phase.
    Success,
    /// The daemon already had a tunnel for the host.
    AlreadyOpen,
}

/// Why an open exchange failed.
pub enum OpenFailure {
    /// The daemon reported this error.
    Daemon(String),
    /// The daemon's first reply was neither an acknowledgement nor an error.
    UnexpectedResponse,
    /// The daemon sent a message that is not allowed after its first reply.
    UnexpectedMessage,
    /// The daemon closed the connection before acknowledging the request.
    ConnectionClosed,
    /// The user's terminal reached end of file.
    TerminalClosed,
    /// Reading from or writing to the daemon or the terminal failed.
    Transport,
}

/// Where an open exchange stands.
pub enum OpenWorkflow {
    /// The request is being sent.
    Issue,
    /// Waiting for the daemon's first acknowledgement.
    FirstAck,
    /// Proxying: `user_buf` holds daemon output not yet written to the user,
    /// `ssh_buf` user input not yet sent to the daemon, `finished` the
    /// sentinel recognizer; `at_start` holds while the user has typed
    /// nothing, or only a '.', so that input may still be an immediate
    /// terminator (which is then not sent).
    Communicating {
        user_buf: Vec<u8>,
        ssh_buf: Vec<u8>,
        finished: FinishCommunicationState,
        at_start: bool,
        user_sink: SinkState,
        daemon_sink: SinkState,
    },
    /// The end of user data has been sent; waiting for its flush and for the
    /// daemon's acknowledgement.
    CleaningUpIo { daemon_sink: SinkState, saw_ok: bool },
    /// The exchange ended well.
    Finished(OpenResult),
    /// The exchange failed.
    Failed(OpenFailure),
}

/// What the driver of an exchange reports.
pub enum OpenEvent {
    /// A frame from the daemon, or `None` where its stream has ended.
    DaemonFrame(Option<ServerMessage>),
    /// The frame last handed to the daemon sink has been flushed.
    DaemonSendCompleted,
    /// A chunk the user typed, or `None` at the end of the terminal's input.
    UserInput(Option<Vec<u8>>),
    /// The bytes last handed to the user's terminal have been written.
    UserWriteCompleted,
    /// Reading or writing failed.
    TransportFailed,
}

/// What the driver of an exchange must do next.
pub enum OpenAction {
    /// Nothing until the next event.
    Wait,
    /// Start sending this frame to the daemon.
    SendToDaemon(ClientMessage),
    /// Start writing these bytes to the user's terminal.
    WriteToUser(Vec<u8>),
    /// The exchange is over, with this result.
    Done(OpenResult),
    /// The exchange failed.
    Fail,
}

/// The abstract value of an `OpenFailure`.
pub enum OpenFailureView {
    Daemon(Seq<char>),
    UnexpectedResponse,
    UnexpectedMessage,
    ConnectionClosed,
    TerminalClosed,
    Transport,
}

/// The abstract value of an `OpenWorkflow`.
pub enum OpenWorkflowView {
    Issue,
    FirstAck,
    Communicating {
        user_buf: Seq<u8>,
        ssh_buf: Seq<u8>,
        finished: FinishCommunicationState,
        at_start: bool,
        user_sink: SinkState,
        daemon_sink: SinkState,
    },
    CleaningUpIo { daemon_sink: SinkState, saw_ok: bool },
    Finished(OpenResult),
    Failed(OpenFailureView),
}

/// The abstract value of an `OpenEvent`.
pub enum OpenEventView {
    DaemonFrame(Option<ServerMessageView>),
    DaemonSendCompleted,
    UserInput(Option<Seq<u8>>),
    UserWriteCompleted,
    TransportFailed,
}

/// The abstract value of an `OpenAction`.
pub enum OpenActionView {
    Wait,
    SendToDaemon(ClientMessageView),
    WriteToUser(Seq<u8>),
    Done(OpenResult),
    Fail,
}

impl View for OpenFailure {
    type V = OpenFailureView;

    open spec fn view(&self) -> OpenFailureView {
        match self {
            OpenFailure::Daemon(t) => OpenFailureView::Daemon(t@),
            OpenFailure::UnexpectedResponse => OpenFailureView::UnexpectedResponse,
            OpenFailure::UnexpectedMessage => OpenFailureView::UnexpectedMessage,
            OpenFailure::ConnectionClosed => OpenFailureView::ConnectionClosed,
            OpenFailure::TerminalClosed => OpenFailureView::TerminalClosed,
            OpenFailure::Transport => OpenFailureView::Transport,
        }
    }
}

/// The text of a failure as the user sees it.
pub open spec fn failure_text(f: OpenFailureView) -> Seq<char> {
    match f {
        OpenFailureView::Daemon(t) => t,
        OpenFailureView::UnexpectedResponse => "unexpected response from daemon"@,
        OpenFailureView::UnexpectedMessage => "unexpected message from the daemon"@,
        OpenFailureView::ConnectionClosed => "connection closed (?)"@,
        OpenFailureView::TerminalClosed => "EOF on terminal (?)"@,
        OpenFailureView::Transport => "communication with the daemon failed"@,
    }
}

impl OpenFailure {
    /// The text of this failure for the user: the daemon's own words where
    /// it reported the error.
    pub fn message(&self) -> (r: String)
        ensures
            r@ == failure_text(self@),
    {
        match self {
            OpenFailure::Daemon(t) => t.clone(),
            OpenFailure::UnexpectedResponse => String::from_str("unexpected response from daemon"),
            OpenFailure::UnexpectedMessage => String::from_str("unexpected message from the daemon"),
            OpenFailure::ConnectionClosed => String::from_str("connection closed (?)"),
            OpenFailure::TerminalClosed => String::from_str("EOF on terminal (?)"),
            OpenFailure::Transport => String::from_str("communication with the daemon failed"),
        }
    }
}

impl View for OpenWorkflow {
    type V = OpenWorkflowView;

    open spec fn view(&self) -> OpenWorkflowView {
        match self {
            OpenWorkflow::Issue => OpenWorkflowView::Issue,
            OpenWorkflow::FirstAck => OpenWorkflowView::FirstAck,
            OpenWorkflow::Communicating { user_buf, ssh_buf, finished, at_start, user_sink, daemon_sink } =>
                OpenWorkflowView::Communicating {
                user_buf: user_buf@,
                ssh_buf: ssh_buf@,
                finished: *finished,
                at_start: *at_start,
                user_sink: *user_sink,
                daemon_sink: *daemon_sink,
            },
            OpenWorkflow::CleaningUpIo { daemon_sink, saw_ok } => OpenWorkflowView::CleaningUpIo {
                daemon_sink: *daemon_sink,
                saw_ok: *saw_ok,
            },
            OpenWorkflow::Finished(r) => OpenWorkflowView::Finished(*r),
            OpenWorkflow::Failed(f) => OpenWorkflowView::Failed(f@),
        }
    }
}

impl View for OpenEvent {
    type V = OpenEventView;

    open spec fn view(&self) -> OpenEventView {
        match self {
            OpenEvent::DaemonFrame(m) => OpenEventView::DaemonFrame(
                match m {
                    Some(m) => Some(m@),
                    None => None,
                },
            ),
            OpenEvent::DaemonSendCompleted => OpenEventView::DaemonSendCompleted,
            OpenEvent::UserInput(b) => OpenEventView::UserInput(
                match b {
                    Some(b) => Some(b@),
                    None => None,
                },
            ),
            OpenEvent::UserWriteCompleted => OpenEventView::UserWriteCompleted,
            OpenEvent::TransportFailed => OpenEventView::TransportFailed,
        }
    }
}

impl View for OpenAction {
    type V = OpenActionView;

    open spec fn view(&self) -> OpenActionView {
        match self {
            OpenAction::Wait => OpenActionView::Wait,
            OpenAction::SendToDaemon(m) => OpenActionView::SendToDaemon(m@),
            OpenAction::WriteToUser(b) => OpenActionView::WriteToUser(b@),
            OpenAction::Done(r) => OpenActionView::Done(*r),
            OpenAction::Fail => OpenActionView::Fail,
        }
    }
}

/// One byte of user input: the recognizer's next state, whether the input
/// may still be an immediate terminator, and the outbound buffer. Every
/// typed byte goes into the buffer, before the sentinel and after it; the
/// one exception is the immediate terminator: when the whole input so far
/// is ".\n", its '.' is taken back out and its newline is not added.
pub open spec fn scan_byte(t: FinishCommunicationState, at_start: bool, buf: Seq<u8>, b: u8) -> (
    FinishCommunicationState,
    bool,
    Seq<u8>,
) {
    if t == FinishCommunicationState::SawSecondEnter {
        (t, false, buf.push(b))
    } else if t == FinishCommunicationState::SawPeriod && b == NEWLINE && at_start {
        (FinishCommunicationState::SawSecondEnter, false, if buf.len() > 0 {
            buf.drop_last()
        } else {
            buf
        })
    } else {
        (step(t, b), at_start && t == FinishCommunicationState::SawFirstEnter && b == PERIOD, buf.push(b))
    }
}

/// A chunk of user input, byte by byte.
pub open spec fn scan(t: FinishCommunicationState, at_start: bool, buf: Seq<u8>, bytes: Seq<u8>) -> (
    FinishCommunicationState,
    bool,
    Seq<u8>,
)
    decreases bytes.len(),
{
    if bytes.len() == 0 {
        (t, at_start, buf)
    } else {
        let (t1, a1, buf1) = scan(t, at_start, buf, bytes.drop_last());
        scan_byte(t1, a1, buf1, bytes.last())
    }
}

/// Scanning moves the recognizer exactly as reading the bytes does.
pub proof fn law_scan_tracks_recognizer(
    t: FinishCommunicationState,
    at_start: bool,
    buf: Seq<u8>,
    bytes: Seq<u8>,
)
    ensures
        scan(t, at_start, buf, bytes).0 == run(t, bytes),
        !at_start ==> !scan(t, at_start, buf, bytes).1,
    decreases bytes.len(),
{
    if bytes.len() > 0 {
        law_scan_tracks_recognizer(t, at_start, buf, bytes.drop_last());
    }
}

/// Once the input can no longer be an immediate terminator, every typed
/// byte is in the outbound buffer, in order, after the step that receives
/// it.
pub proof fn law_scan_keeps_typed_bytes(t: FinishCommunicationState, buf: Seq<u8>, bytes: Seq<u8>)
    ensures
        scan(t, false, buf, bytes).2 == buf + bytes,
        !scan(t, false, buf, bytes).1,
    decreases bytes.len(),
{
    if bytes.len() == 0 {
        assert(buf + bytes =~= buf);
    } else {
        let pre = bytes.drop_last();
        law_scan_keeps_typed_bytes(t, buf, pre);
        assert((buf + pre).push(bytes.last()) =~= buf + bytes);
    }
}

/// How the input is split into chunks makes no difference.
pub proof fn law_scan_chunks(
    t: FinishCommunicationState,
    at_start: bool,
    buf: Seq<u8>,
    x: Seq<u8>,
    y: Seq<u8>,
)
    ensures
        ({
            let (t1, a1, buf1) = scan(t, at_start, buf, x);
            scan(t, at_start, buf, x + y) == scan(t1, a1, buf1, y)
        }),
    decreases y.len(),
{
    if y.len() == 0 {
        assert(x + y =~= x);
    } else {
        law_scan_chunks(t, at_start, buf, x, y.drop_last());
        assert((x + y).drop_last() =~= x + y.drop_last());
        assert((x + y).last() == y.last());
    }
}

/// From the start of the proxy phase, every typed byte reaches the outbound
/// buffer, except the two bytes of an immediate terminator ".\n" at the
/// very start of input.
pub proof fn law_proxy_input_kept(bytes: Seq<u8>)
    ensures
        scan(FinishCommunicationState::SawFirstEnter, true, Seq::empty(), bytes).2 == if bytes.len()
            >= 2 && bytes[0] == PERIOD && bytes[1] == NEWLINE {
            bytes.subrange(2, bytes.len() as int)
        } else {
            bytes
        },
{
    let t0 = FinishCommunicationState::SawFirstEnter;
    let e = Seq::<u8>::empty();
    if bytes.len() == 0 {
        return;
    }
    let b0 = bytes[0];
    let one = bytes.take(1);
    assert(one.drop_last() =~= e);
    assert(one.last() == b0);
    assert(scan(t0, true, e, e) == (t0, true, e));
    let (t1, a1, buf1) = scan(t0, true, e, one);
    assert(buf1 == e.push(b0));
    law_scan_chunks(t0, true, e, one, bytes.skip(1));
    assert(one + bytes.skip(1) =~= bytes);
    if b0 != PERIOD || bytes.len() == 1 {
        if b0 != PERIOD {
            assert(!a1);
            law_scan_keeps_typed_bytes(t1, buf1, bytes.skip(1));
            assert(buf1 + bytes.skip(1) =~= bytes);
        } else {
            assert(bytes.skip(1) =~= e);
            assert(buf1 =~= bytes);
        }
    } else {
        let two = bytes.take(2);
        let b1 = bytes[1];
        assert(two.drop_last() =~= one);
        assert(two.last() == b1);
        assert(t1 == FinishCommunicationState::SawPeriod && a1);
        let (t2, a2, buf2) = scan(t0, true, e, two);
        law_scan_chunks(t0, true, e, two, bytes.skip(2));
        assert(two + bytes.skip(2) =~= bytes);
        assert(!a2);
        law_scan_keeps_typed_bytes(t2, buf2, bytes.skip(2));
        if b1 == NEWLINE {
            assert(buf1.drop_last() =~= e);
            assert(buf2 == e);
            assert(e + bytes.skip(2) =~= bytes.subrange(2, bytes.len() as int));
        } else {
            assert(buf2 =~= two);
            assert(two + bytes.skip(2) =~= bytes);
        }
    }
}

/// Runs `bytes` through the recognizer from `t`, adding typed bytes to `out`
/// as `scan` says; returns the recognizer's new state and whether the input
/// may still be an immediate terminator.
pub fn scan_user_input(
    t: FinishCommunicationState,
    at_start: bool,
    bytes: &Vec<u8>,
    out: &mut Vec<u8>,
) -> (r: (FinishCommunicationState, bool))
    ensures
        (r.0, r.1, final(out)@) == scan(t, at_start, old(out)@, bytes@),
{
    let mut cur = t;
    let mut fresh = at_start;
    let mut i: usize = 0;
    while i < bytes.len()
        invariant
            0 <= i <= bytes@.len(),
            (cur, fresh, out@) == scan(t, at_start, old(out)@, bytes@.take(i as int)),
        decreases bytes@.len() - i,
    {
        let b = bytes[i];
        assert(bytes@.take(i + 1).drop_last() =~= bytes@.take(i as int));
        if cur == FinishCommunicationState::SawSecondEnter {
            fresh = false;
            out.push(b);
        } else if cur == FinishCommunicationState::SawPeriod && b == NEWLINE && fresh {
            cur = FinishCommunicationState::SawSecondEnter;
            fresh = false;
            out.pop();
        } else {
            fresh = fresh && cur == FinishCommunicationState::SawFirstEnter && b == PERIOD;
            cur = cur.transition(b);
            out.push(b);
        }
        i = i + 1;
    }
    assert(bytes@.take(i as int) =~= bytes@);
    (cur, fresh)
}

/// Moving data during the proxy phase, one thing at a time: daemon output
/// to the user first, then user input to the daemon (held while it may
/// still be an immediate terminator); once the sentinel is complete and
/// everything is written and flushed, the end of user data.
pub open spec fn pump_open(
    user_buf: Seq<u8>,
    ssh_buf: Seq<u8>,
    finished: FinishCommunicationState,
    at_start: bool,
    user_sink: SinkState,
    daemon_sink: SinkState,
) -> (OpenWorkflowView, OpenActionView) {
    if user_sink == SinkState::Idle && user_buf.len() > 0 {
        (
            OpenWorkflowView::Communicating {
                user_buf: Seq::empty(),
                ssh_buf,
                finished,
                at_start,
                user_sink: SinkState::Flushing,
                daemon_sink,
            },
            OpenActionView::WriteToUser(user_buf),
        )
    } else if daemon_sink == SinkState::Idle && ssh_buf.len() > 0 && !at_start {
        (
            OpenWorkflowView::Communicating {
                user_buf,
                ssh_buf: Seq::empty(),
                finished,
                at_start,
                user_sink,
                daemon_sink: SinkState::Flushing,
            },
            OpenActionView::SendToDaemon(ClientMessageView::UserData(ssh_buf)),
        )
    } else if finished == FinishCommunicationState::SawSecondEnter && user_sink == SinkState::Idle
        && daemon_sink == SinkState::Idle && ssh_buf.len() == 0 {
        (
            OpenWorkflowView::CleaningUpIo { daemon_sink: SinkState::Flushing, saw_ok: false },
            OpenActionView::SendToDaemon(ClientMessageView::EndOfUserData),
        )
    } else {
        (
            OpenWorkflowView::Communicating { user_buf, ssh_buf, finished, at_start, user_sink, daemon_sink },
            OpenActionView::Wait,
        )
    }
}

/// Failing the exchange.
pub open spec fn fail_open(f: OpenFailureView) -> (OpenWorkflowView, OpenActionView) {
    (OpenWorkflowView::Failed(f), OpenActionView::Fail)
}

/// The state in which the proxy phase begins.
pub open spec fn proxy_start() -> OpenWorkflowView {
    OpenWorkflowView::Communicating {
        user_buf: Seq::empty(),
        ssh_buf: Seq::empty(),
        finished: FinishCommunicationState::SawFirstEnter,
        at_start: true,
        user_sink: SinkState::Idle,
        daemon_sink: SinkState::Idle,
    }
}

/// One step of an open exchange: the next state and what the driver must do.
pub open spec fn open_next(s: OpenWorkflowView, e: OpenEventView) -> (OpenWorkflowView, OpenActionView) {
    match s {
        OpenWorkflowView::Issue => match e {
            OpenEventView::DaemonSendCompleted => (OpenWorkflowView::FirstAck, OpenActionView::Wait),
            OpenEventView::TransportFailed => fail_open(OpenFailureView::Transport),
            _ => (s, OpenActionView::Wait),
        },
        OpenWorkflowView::FirstAck => match e {
            OpenEventView::DaemonFrame(Some(ServerMessageView::Ack)) => (proxy_start(), OpenActionView::Wait),
            OpenEventView::DaemonFrame(Some(ServerMessageView::TunnelAlreadyOpen)) => (
                OpenWorkflowView::Finished(OpenResult::AlreadyOpen),
                OpenActionView::Done(OpenResult::AlreadyOpen),
            ),
            OpenEventView::DaemonFrame(Some(ServerMessageView::Error(t))) => fail_open(
                OpenFailureView::Daemon(t),
            ),
            OpenEventView::DaemonFrame(Some(_)) => fail_open(OpenFailureView::UnexpectedResponse),
            OpenEventView::DaemonFrame(None) => fail_open(OpenFailureView::ConnectionClosed),
            OpenEventView::TransportFailed => fail_open(OpenFailureView::Transport),
            _ => (s, OpenActionView::Wait),
        },
        OpenWorkflowView::Communicating { user_buf, ssh_buf, finished, at_start, user_sink, daemon_sink } =>
            match e {
            OpenEventView::DaemonFrame(Some(ServerMessageView::SshData(d))) => pump_open(
                user_buf + d,
                ssh_buf,
                finished,
                at_start,
                user_sink,
                daemon_sink,
            ),
            OpenEventView::DaemonFrame(Some(ServerMessageView::Error(t))) => fail_open(
                OpenFailureView::Daemon(t),
            ),
            OpenEventView::DaemonFrame(Some(_)) => fail_open(OpenFailureView::UnexpectedMessage),
            OpenEventView::DaemonFrame(None) => fail_open(OpenFailureView::ConnectionClosed),
            OpenEventView::UserInput(None) => fail_open(OpenFailureView::TerminalClosed),
            OpenEventView::UserInput(Some(b)) => {
                let (t1, a1, buf1) = scan(finished, at_start, ssh_buf, b);
                pump_open(user_buf, buf1, t1, a1, user_sink, daemon_sink)
            },
            OpenEventView::DaemonSendCompleted => pump_open(
                user_buf,
                ssh_buf,
                finished,
                at_start,
                user_sink,
                SinkState::Idle,
            ),
            OpenEventView::UserWriteCompleted => pump_open(
                user_buf,
                ssh_buf,
                finished,
                at_start,
                SinkState::Idle,
                daemon_sink,
            ),
            OpenEventView::TransportFailed => fail_open(OpenFailureView::Transport),
        },
        OpenWorkflowView::CleaningUpIo { daemon_sink, saw_ok } => match e {
            OpenEventView::DaemonSendCompleted => if saw_ok {
                (OpenWorkflowView::Finished(OpenResult::Success), OpenActionView::Done(OpenResult::Success))
            } else {
                (
                    OpenWorkflowView::CleaningUpIo { daemon_sink: SinkState::Idle, saw_ok },
                    OpenActionView::Wait,
                )
            },
            OpenEventView::DaemonFrame(Some(ServerMessageView::Ack)) => if daemon_sink == SinkState::Idle {
                (OpenWorkflowView::Finished(OpenResult::Success), OpenActionView::Done(OpenResult::Success))
            } else {
                (OpenWorkflowView::CleaningUpIo { daemon_sink, saw_ok: true }, OpenActionView::Wait)
            },
            OpenEventView::DaemonFrame(Some(ServerMessageView::Error(t))) => fail_open(
                OpenFailureView::Daemon(t),
            ),
            OpenEventView::DaemonFrame(Some(ServerMessageView::TunnelAlreadyOpen)) => fail_open(
                OpenFailureView::UnexpectedMessage,
            ),
            OpenEventView::DaemonFrame(None) => fail_open(OpenFailureView::ConnectionClosed),
            OpenEventView::TransportFailed => fail_open(OpenFailureView::Transport),
            _ => (s, OpenActionView::Wait),
        },
        OpenWorkflowView::Finished(_) | OpenWorkflowView::Failed(_) => (s, OpenActionView::Wait),
    }
}

/// Once the end of user data has been sent, the client sends nothing more to
/// the daemon in this exchange: in particular no user data, which the daemon
/// would take as fatal.
pub proof fn law_nothing_sent_after_end(s: OpenWorkflowView, e: OpenEventView)
    requires
        s is CleaningUpIo || s is Finished || s is Failed,
    ensures
        !(open_next(s, e).1 is SendToDaemon),
        open_next(s, e).0 is CleaningUpIo || open_next(s, e).0 is Finished || open_next(s, e).0 is Failed,
{
}

/// The end of user data goes out only once the sentinel is complete and
/// every byte bound for the daemon has been sent and flushed.
pub proof fn law_end_sent_after_user_data(s: OpenWorkflowView, e: OpenEventView)
    requires
        open_next(s, e).1 == OpenActionView::SendToDaemon(ClientMessageView::EndOfUserData),
    ensures
        open_next(s, e).0 == (OpenWorkflowView::CleaningUpIo { daemon_sink: SinkState::Flushing, saw_ok: false }),
        s matches OpenWorkflowView::Communicating { ssh_buf, daemon_sink, finished, at_start, .. } && (
        daemon_sink == SinkState::Idle || e == OpenEventView::DaemonSendCompleted) && (match e {
            OpenEventView::UserInput(Some(b)) => scan(finished, at_start, ssh_buf, b).2,
            _ => ssh_buf,
        }).len() == 0,
{
}

/// When the user's first input in the proxy phase is the immediate
/// terminator ".\n", the client's next frame is the end of user data: no
/// user data goes before it.
pub proof fn law_immediate_terminator_ends_at_once()
    ensures
        open_next(proxy_start(), OpenEventView::UserInput(Some(seq![PERIOD, NEWLINE]))) == (
            OpenWorkflowView::CleaningUpIo { daemon_sink: SinkState::Flushing, saw_ok: false },
            OpenActionView::SendToDaemon(ClientMessageView::EndOfUserData),
        ),
{
    law_proxy_input_kept(seq![PERIOD, NEWLINE]);
    law_scan_tracks_recognizer(FinishCommunicationState::SawFirstEnter, true, Seq::empty(), seq![PERIOD, NEWLINE]);
    assert(seq![PERIOD, NEWLINE].subrange(2, 2) =~= Seq::<u8>::empty());
}

/// Whatever else is pending, an immediate terminator at the start of the
/// proxy phase is never sent as user data: the sentinel is complete and
/// nothing is left for the daemon but the end of user data.
pub proof fn law_immediate_terminator_sends_no_data(s: OpenWorkflowView)
    requires
        s matches OpenWorkflowView::Communicating { ssh_buf, finished, at_start, .. } && ssh_buf.len()
            == 0 && finished == FinishCommunicationState::SawFirstEnter && at_start,
    ensures
        ({
            let (next, action) = open_next(s, OpenEventView::UserInput(Some(seq![PERIOD, NEWLINE])));
            &&& !(action matches OpenActionView::SendToDaemon(ClientMessageView::UserData(_)))
            &&& next matches OpenWorkflowView::Communicating { ssh_buf, finished, .. } ==> ssh_buf.len()
                == 0 && finished == FinishCommunicationState::SawSecondEnter
        }),
{
    law_proxy_input_kept(seq![PERIOD, NEWLINE]);
    law_scan_tracks_recognizer(FinishCommunicationState::SawFirstEnter, true, Seq::empty(), seq![PERIOD, NEWLINE]);
    assert(seq![PERIOD, NEWLINE].subrange(2, 2) =~= Seq::<u8>::empty());
    if let OpenWorkflowView::Communicating { ssh_buf, .. } = s {
        assert(ssh_buf =~= Seq::<u8>::empty());
    }
}

/// No work is left waiting on an idle sink: pending output for the user is
/// being written, input for the daemon is being sent unless it may still be
/// an immediate terminator, and a completed sentinel with everything sent
/// has already ended the proxy phase.
pub open spec fn open_settled(s: OpenWorkflowView) -> bool {
    s matches OpenWorkflowView::Communicating { user_buf, ssh_buf, finished, at_start, user_sink, daemon_sink }
        ==> !(user_sink == SinkState::Idle && user_buf.len() > 0) && !(daemon_sink == SinkState::Idle
        && ssh_buf.len() > 0 && !at_start) && !(finished == FinishCommunicationState::SawSecondEnter
        && user_sink == SinkState::Idle && daemon_sink == SinkState::Idle && ssh_buf.len() == 0)
}

/// Every step keeps the exchange settled, so the single action that each
/// event yields is always enough.
pub proof fn law_steps_stay_settled(s: OpenWorkflowView, e: OpenEventView)
    requires
        open_settled(s),
    ensures
        open_settled(open_next(s, e).0),
{
}

fn pump_open_exec(
    user_buf: Vec<u8>,
    ssh_buf: Vec<u8>,
    finished: FinishCommunicationState,
    at_start: bool,
    user_sink: SinkState,
    daemon_sink: SinkState,
) -> (r: (OpenWorkflow, OpenAction))
    ensures
        (r.0@, r.1@) == pump_open(user_buf@, ssh_buf@, finished, at_start, user_sink, daemon_sink),
{
    if user_sink == SinkState::Idle && user_buf.len() > 0 {
        let out = OpenWorkflow::Communicating {
            user_buf: Vec::new(),
            ssh_buf,
            finished,
            at_start,
            user_sink: SinkState::Flushing,
            daemon_sink,
        };
        assert(out@ == (OpenWorkflowView::Communicating {
            user_buf: Seq::empty(),
            ssh_buf: ssh_buf@,
            finished,
            at_start,
            user_sink: SinkState::Flushing,
            daemon_sink,
        }));
        (out, OpenAction::WriteToUser(user_buf))
    } else if daemon_sink == SinkState::Idle && ssh_buf.len() > 0 && !at_start {
        let out = OpenWorkflow::Communicating {
            user_buf,
            ssh_buf: Vec::new(),
            finished,
            at_start,
            user_sink,
            daemon_sink: SinkState::Flushing,
        };
        assert(out@ == (OpenWorkflowView::Communicating {
            user_buf: user_buf@,
            ssh_buf: Seq::empty(),
            finished,
            at_start,
            user_sink,
            daemon_sink: SinkState::Flushing,
        }));
        (out, OpenAction::SendToDaemon(ClientMessage::UserData(ssh_buf)))
    } else if finished.is_finished() && user_sink == SinkState::Idle && daemon_sink == SinkState::Idle
        && ssh_buf.len() == 0 {
        (
            OpenWorkflow::CleaningUpIo { daemon_sink: SinkState::Flushing, saw_ok: false },
            OpenAction::SendToDaemon(ClientMessage::EndOfUserData),
        )
    } else {
        (
            OpenWorkflow::Communicating { user_buf, ssh_buf, finished, at_start, user_sink, daemon_sink },
            OpenAction::Wait,
        )
    }
}

fn failed(f: OpenFailure) -> (r: (OpenWorkflow, OpenAction))
    ensures
        (r.0@, r.1@) == fail_open(f@),
{
    (OpenWorkflow::Failed(f), OpenAction::Fail)
}

impl OpenWorkflow {
    /// Begins an open exchange: the request goes out first.
    pub fn start(params: OpenParameters) -> (r: (OpenWorkflow, OpenAction))
        ensures
            r.0@ == OpenWorkflowView::Issue,
            r.1@ == OpenActionView::SendToDaemon(ClientMessageView::Open { host: params.host@ }),
    {
        (OpenWorkflow::Issue, OpenAction::SendToDaemon(ClientMessage::Open(params)))
    }

    /// Whether the exchange has ended, well or in failure.
    pub fn is_over(&self) -> (r: bool)
        ensures
            r == (self@ is Finished || self@ is Failed),
    {
        match self {
            OpenWorkflow::Finished(_) | OpenWorkflow::Failed(_) => true,
            _ => false,
        }
    }

    /// Reacts to one event: the next state and what the driver must do.
    pub fn handle(self, event: OpenEvent) -> (r: (OpenWorkflow, OpenAction))
        ensures
            (r.0@, r.1@) == open_next(self@, event@),
    {
        match self {
            OpenWorkflow::Issue => match event {
                OpenEvent::DaemonSendCompleted => (OpenWorkflow::FirstAck, OpenAction::Wait),
                OpenEvent::TransportFailed => failed(OpenFailure::Transport),
                _ => (OpenWorkflow::Issue, OpenAction::Wait),
            },
            OpenWorkflow::FirstAck => match event {
                OpenEvent::DaemonFrame(Some(ServerMessage::Ack)) => {
                    let out = OpenWorkflow::Communicating {
                        user_buf: Vec::new(),
                        ssh_buf: Vec::new(),
                        finished: FinishCommunicationState::SawFirstEnter,
                        at_start: true,
                        user_sink: SinkState::Idle,
                        daemon_sink: SinkState::Idle,
                    };
                    assert(out@ == proxy_start());
                    (out, OpenAction::Wait)
                },
                OpenEvent::DaemonFrame(Some(ServerMessage::TunnelAlreadyOpen)) => (
                    OpenWorkflow::Finished(OpenResult::AlreadyOpen),
                    OpenAction::Done(OpenResult::AlreadyOpen),
                ),
                OpenEvent::DaemonFrame(Some(ServerMessage::Error(t))) => failed(OpenFailure::Daemon(t)),
                OpenEvent::DaemonFrame(Some(_)) => failed(OpenFailure::UnexpectedResponse),
                OpenEvent::DaemonFrame(None) => failed(OpenFailure::ConnectionClosed),
                OpenEvent::TransportFailed => failed(OpenFailure::Transport),
                _ => (OpenWorkflow::FirstAck, OpenAction::Wait),
            },
            OpenWorkflow::Communicating { mut user_buf, mut ssh_buf, finished, at_start, user_sink, daemon_sink } =>
                match event {
                OpenEvent::DaemonFrame(Some(ServerMessage::SshData(d))) => {
                    let mut d = d;
                    user_buf.append(&mut d);
                    pump_open_exec(user_buf, ssh_buf, finished, at_start, user_sink, daemon_sink)
                },
                OpenEvent::DaemonFrame(Some(ServerMessage::Error(t))) => failed(OpenFailure::Daemon(t)),
                OpenEvent::DaemonFrame(Some(_)) => failed(OpenFailure::UnexpectedMessage),
                OpenEvent::DaemonFrame(None) => failed(OpenFailure::ConnectionClosed),
                OpenEvent::UserInput(None) => failed(OpenFailure::TerminalClosed),
                OpenEvent::UserInput(Some(b)) => {
                    let (next, fresh) = scan_user_input(finished, at_start, &b, &mut ssh_buf);
                    pump_open_exec(user_buf, ssh_buf, next, fresh, user_sink, daemon_sink)
                },
                OpenEvent::DaemonSendCompleted => pump_open_exec(
                    user_buf,
                    ssh_buf,
                    finished,
                    at_start,
                    user_sink,
                    SinkState::Idle,
                ),
                OpenEvent::UserWriteCompleted => pump_open_exec(
                    user_buf,
                    ssh_buf,
                    finished,
                    at_start,
                    SinkState::Idle,
                    daemon_sink,
                ),
                OpenEvent::TransportFailed => failed(OpenFailure::Transport),
            },
            OpenWorkflow::CleaningUpIo { daemon_sink, saw_ok } => match event {
                OpenEvent::DaemonSendCompleted => if saw_ok {
                    (OpenWorkflow::Finished(OpenResult::Success), OpenAction::Done(OpenResult::Success))
                } else {
                    (OpenWorkflow::CleaningUpIo { daemon_sink: SinkState::Idle, saw_ok }, OpenAction::Wait)
                },
                OpenEvent::DaemonFrame(Some(ServerMessage::Ack)) => if daemon_sink == SinkState::Idle {
                    (OpenWorkflow::Finished(OpenResult::Success), OpenAction::Done(OpenResult::Success))
                } else {
                    (OpenWorkflow::CleaningUpIo { daemon_sink, saw_ok: true }, OpenAction::Wait)
                },
                OpenEvent::DaemonFrame(Some(ServerMessage::Error(t))) => failed(OpenFailure::Daemon(t)),
                OpenEvent::DaemonFrame(Some(ServerMessage::TunnelAlreadyOpen)) => failed(
                    OpenFailure::UnexpectedMessage,
                ),
                OpenEvent::DaemonFrame(None) => failed(OpenFailure::ConnectionClosed),
                OpenEvent::TransportFailed => failed(OpenFailure::Transport),
                _ => (OpenWorkflow::CleaningUpIo { daemon_sink, saw_ok }, OpenAction::Wait),
            },
            OpenWorkflow::Finished(r) => (OpenWorkflow::Finished(r), OpenAction::Wait),
            OpenWorkflow::Failed(f) => (OpenWorkflow::Failed(f), OpenAction::Wait),
        }
    }
}

} // verus!
