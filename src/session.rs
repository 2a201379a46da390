//! The daemon's decisions for one connected client: dispatching commands,
//! the interactive open exchange, and aborting cleanly.

use crate::message::{ClientMessage, ClientMessageView, ServerMessage, ServerMessageView};
use crate::registry::{release, TunnelRegistry};
use crate::supervisor::{monitor_removes, ChildEvent, MonitorState};
use vstd::prelude::*;
use vstd::string::StringExecFns;

verus! {

/// Whether the frame sink towards the client can take a new frame.
#[derive(Clone, Copy, Debug, PartialEq, Eq, Structural)]
pub enum SinkState {
    /// No send is in progress.
    Idle,
    /// A prior frame is still being flushed.
    Flushing,
}

/// Which step of setting up a tunnel failed.
#[derive(Clone, Copy, Debug, PartialEq, Eq, Structural)]
pub enum SetupStage {
    /// Allocating the pseudo-terminal.
    Pty,
    /// Launching the SSH child.
    Spawn,
}

/// Why a session ended in error.
#[derive(Clone, Copy, Debug, PartialEq, Eq, Structural)]
pub enum SessionFailure {
    /// The client sent a message that is not allowed where the session stands.
    UnexpectedMessage,
    /// The client sent user data after it said that user data was over.
    DataAfterEnd,
    /// The client's stream ended: twice in a row while a command was awaited,
    /// or once during the interactive phase of an open.
    ClientClosed,
    /// Reading from or writing to the client failed.
    Transport,
    /// The session was aborted and the client has been told why.
    Aborted,
}

/// Where a session stands.
pub enum SessionState {
    /// Waiting for a command; `saw_eof` if the client's stream has just ended once.
    AwaitingCommand { saw_eof: bool },
    /// The tunnel for `host` is being set up. The driver reports the outcome
    /// before any further client frame; a client frame here breaks the
    /// protocol (the client waits for the acknowledgement) and fails the
    /// session.
    OpeningTunnel { host: String },
    /// The interactive phase of an open: `buf` holds SSH output not yet sent
    /// to the client, `saw_end` whether the client has ended its input.
    CommunicatingForOpen { buf: Vec<u8>, saw_end: bool, sink: SinkState },
    /// The reply that ends an open (its final acknowledgement, or the news
    /// that the tunnel is already open) is being flushed.
    /// A command the client sent meanwhile is kept in `deferred` and handled
    /// as soon as the flush completes.
    FinalizingOpen { deferred: Option<ClientMessage> },
    /// An error frame is being flushed; `pending` holds one that must wait
    /// for a prior frame.
    Aborting { pending: Option<String> },
    /// The client said goodbye.
    Finished,
    /// The session ended in error.
    Failed { failure: SessionFailure },
}

/// What the driver of a session reports.
pub enum SessionEvent {
    /// A frame from the client, or `None` at the end of its stream.
    ClientFrame(Option<ClientMessage>),
    /// Reading from the client failed.
    ClientReadFailed,
    /// The tunnel asked for is running; its kill channel has this handle.
    TunnelStarted { kill_handle: u64 },
    /// Setting up the tunnel failed at `stage`, for the reason `detail`.
    TunnelFailed { stage: SetupStage, detail: String },
    /// Bytes read from the pseudo-terminal.
    PtyOutput(Vec<u8>),
    /// Reading from or writing to the pseudo-terminal failed.
    PtyFailed,
    /// The frame last handed to the client sink has been flushed.
    SendCompleted,
    /// Sending to the client failed.
    SendFailed,
}

/// What the driver of a session must do next.
pub enum SessionAction {
    /// Nothing until the next event.
    Wait,
    /// Start sending this frame to the client.
    Send(ServerMessage),
    /// Write these bytes into the pseudo-terminal.
    WriteToPty(Vec<u8>),
    /// Set up a tunnel to `host`: a pseudo-terminal, an SSH child on it, and
    /// its supervisor.
    StartTunnel { host: String },
    /// End the session normally.
    Close,
    /// End the session in error.
    Fail(SessionFailure),
}

/// The abstract value of a `SessionState`.
pub enum SessionView {
    AwaitingCommand { saw_eof: bool },
    OpeningTunnel { host: Seq<char> },
    CommunicatingForOpen { buf: Seq<u8>, saw_end: bool, sink: SinkState },
    FinalizingOpen { deferred: Option<ClientMessageView> },
    Aborting { pending: Option<Seq<char>> },
    Finished,
    Failed { failure: SessionFailure },
}

/// The abstract value of a `SessionEvent`.
pub enum SessionEventView {
    ClientFrame(Option<ClientMessageView>),
    ClientReadFailed,
    TunnelStarted { kill_handle: u64 },
    TunnelFailed { stage: SetupStage, detail: Seq<char> },
    PtyOutput(Seq<u8>),
    PtyFailed,
    SendCompleted,
    SendFailed,
}

/// The abstract value of a `SessionAction`.
pub enum SessionActionView {
    Wait,
    Send(ServerMessageView),
    WriteToPty(Seq<u8>),
    StartTunnel { host: Seq<char> },
    Close,
    Fail(SessionFailure),
}

/// The abstract value of a client frame, or of the end of the client's stream.
pub open spec fn frame_view(m: Option<ClientMessage>) -> Option<ClientMessageView> {
    match m {
        Some(m) => Some(m@),
        None => None,
    }
}

impl View for SessionState {
    type V = SessionView;

    open spec fn view(&self) -> SessionView {
        match self {
            SessionState::AwaitingCommand { saw_eof } => SessionView::AwaitingCommand { saw_eof: *saw_eof },
            SessionState::OpeningTunnel { host } => SessionView::OpeningTunnel { host: host@ },
            SessionState::CommunicatingForOpen { buf, saw_end, sink } => SessionView::CommunicatingForOpen {
                buf: buf@,
                saw_end: *saw_end,
                sink: *sink,
            },
            SessionState::FinalizingOpen { deferred } => SessionView::FinalizingOpen {
                deferred: frame_view(*deferred),
            },
            SessionState::Aborting { pending } => SessionView::Aborting {
                pending: match pending {
                    Some(m) => Some(m@),
                    None => None,
                },
            },
            SessionState::Finished => SessionView::Finished,
            SessionState::Failed { failure } => SessionView::Failed { failure: *failure },
        }
    }
}

impl View for SessionEvent {
    type V = SessionEventView;

    open spec fn view(&self) -> SessionEventView {
        match self {
            SessionEvent::ClientFrame(m) => SessionEventView::ClientFrame(frame_view(*m)),
            SessionEvent::ClientReadFailed => SessionEventView::ClientReadFailed,
            SessionEvent::TunnelStarted { kill_handle } => SessionEventView::TunnelStarted {
                kill_handle: *kill_handle,
            },
            SessionEvent::TunnelFailed { stage, detail } => SessionEventView::TunnelFailed {
                stage: *stage,
                detail: detail@,
            },
            SessionEvent::PtyOutput(b) => SessionEventView::PtyOutput(b@),
            SessionEvent::PtyFailed => SessionEventView::PtyFailed,
            SessionEvent::SendCompleted => SessionEventView::SendCompleted,
            SessionEvent::SendFailed => SessionEventView::SendFailed,
        }
    }
}

impl View for SessionAction {
    type V = SessionActionView;

    open spec fn view(&self) -> SessionActionView {
        match self {
            SessionAction::Wait => SessionActionView::Wait,
            SessionAction::Send(m) => SessionActionView::Send(m@),
            SessionAction::WriteToPty(b) => SessionActionView::WriteToPty(b@),
            SessionAction::StartTunnel { host } => SessionActionView::StartTunnel { host: host@ },
            SessionAction::Close => SessionActionView::Close,
            SessionAction::Fail(f) => SessionActionView::Fail(*f),
        }
    }
}

/// The text sent to the client when setting up a tunnel failed.
pub open spec fn setup_error_text(stage: SetupStage, detail: Seq<char>) -> Seq<char> {
    match stage {
        SetupStage::Pty => "failed to create PTY: "@ + detail,
        SetupStage::Spawn => "failed to launch SSH: "@ + detail,
    }
}

/// The text sent to the client when the pseudo-terminal fails mid-exchange.
pub open spec fn pty_error_text() -> Seq<char> {
    "something went wrong communicating with the SSH process"@
}

/// Failing the session for `failure`.
pub open spec fn fail_with(failure: SessionFailure) -> (SessionView, SessionActionView) {
    (SessionView::Failed { failure }, SessionActionView::Fail(failure))
}

/// Aborting with `text`: sent at once if the sink is idle, else queued
/// behind the frame being flushed.
pub open spec fn abort_with(text: Seq<char>, sink: SinkState) -> (SessionView, SessionActionView) {
    match sink {
        SinkState::Idle => (
            SessionView::Aborting { pending: None },
            SessionActionView::Send(ServerMessageView::Error(text)),
        ),
        SinkState::Flushing => (SessionView::Aborting { pending: Some(text) }, SessionActionView::Wait),
    }
}

/// Moving SSH output towards the client during an open: buffered bytes go
/// out as soon as the sink is idle; once the client has ended its input and
/// nothing is buffered or in flight, the final acknowledgement goes out.
pub open spec fn pump(buf: Seq<u8>, saw_end: bool, sink: SinkState) -> (SessionView, SessionActionView) {
    if sink == SinkState::Idle && buf.len() > 0 {
        (
            SessionView::CommunicatingForOpen { buf: Seq::empty(), saw_end, sink: SinkState::Flushing },
            SessionActionView::Send(ServerMessageView::SshData(buf)),
        )
    } else if sink == SinkState::Idle && saw_end {
        (SessionView::FinalizingOpen { deferred: None }, SessionActionView::Send(ServerMessageView::Ack))
    } else {
        (SessionView::CommunicatingForOpen { buf, saw_end, sink }, SessionActionView::Wait)
    }
}

/// A client frame (or the end of its stream, `None`) while a command is
/// awaited: an open of a host that already has a tunnel is answered at once,
/// any other open starts a tunnel.
pub open spec fn awaiting_next(saw_eof: bool, m: Option<ClientMessageView>, reg: Map<Seq<char>, u64>) -> (
    SessionView,
    SessionActionView,
) {
    match m {
        None => if saw_eof {
            fail_with(SessionFailure::ClientClosed)
        } else {
            (SessionView::AwaitingCommand { saw_eof: true }, SessionActionView::Wait)
        },
        Some(ClientMessageView::Open { host }) => if reg.contains_key(host) {
            (
                SessionView::FinalizingOpen { deferred: None },
                SessionActionView::Send(ServerMessageView::TunnelAlreadyOpen),
            )
        } else {
            (SessionView::OpeningTunnel { host }, SessionActionView::StartTunnel { host })
        },
        Some(ClientMessageView::Goodbye) | Some(ClientMessageView::Exit) => (
            SessionView::Finished,
            SessionActionView::Close,
        ),
        Some(_) => fail_with(SessionFailure::UnexpectedMessage),
    }
}

/// One step of a session, given the registry as it stands: the next state and
/// what the driver must do.
pub open spec fn session_next(s: SessionView, e: SessionEventView, reg: Map<Seq<char>, u64>) -> (
    SessionView,
    SessionActionView,
) {
    match s {
        SessionView::AwaitingCommand { saw_eof } => match e {
            SessionEventView::ClientFrame(m) => awaiting_next(saw_eof, m, reg),
            SessionEventView::ClientReadFailed | SessionEventView::SendFailed => fail_with(
                SessionFailure::Transport,
            ),
            _ => (s, SessionActionView::Wait),
        },
        SessionView::OpeningTunnel { host } => match e {
            SessionEventView::TunnelStarted { .. } => (
                SessionView::CommunicatingForOpen {
                    buf: Seq::empty(),
                    saw_end: false,
                    sink: SinkState::Flushing,
                },
                SessionActionView::Send(ServerMessageView::Ack),
            ),
            SessionEventView::TunnelFailed { stage, detail } => abort_with(
                setup_error_text(stage, detail),
                SinkState::Idle,
            ),
            SessionEventView::ClientFrame(Some(_)) => fail_with(SessionFailure::UnexpectedMessage),
            SessionEventView::ClientFrame(None) => fail_with(SessionFailure::ClientClosed),
            SessionEventView::ClientReadFailed | SessionEventView::SendFailed => fail_with(
                SessionFailure::Transport,
            ),
            _ => (s, SessionActionView::Wait),
        },
        SessionView::CommunicatingForOpen { buf, saw_end, sink } => match e {
            SessionEventView::ClientFrame(Some(ClientMessageView::UserData(d))) => if saw_end {
                fail_with(SessionFailure::DataAfterEnd)
            } else {
                (s, SessionActionView::WriteToPty(d))
            },
            SessionEventView::ClientFrame(Some(ClientMessageView::EndOfUserData)) => pump(buf, true, sink),
            SessionEventView::ClientFrame(Some(_)) => fail_with(SessionFailure::UnexpectedMessage),
            SessionEventView::ClientFrame(None) => fail_with(SessionFailure::ClientClosed),
            SessionEventView::PtyOutput(d) => pump(buf + d, saw_end, sink),
            SessionEventView::PtyFailed => abort_with(pty_error_text(), sink),
            SessionEventView::SendCompleted => pump(buf, saw_end, SinkState::Idle),
            SessionEventView::ClientReadFailed | SessionEventView::SendFailed => fail_with(
                SessionFailure::Transport,
            ),
            _ => (s, SessionActionView::Wait),
        },
        SessionView::FinalizingOpen { deferred } => match e {
            SessionEventView::SendCompleted => match deferred {
                None => (SessionView::AwaitingCommand { saw_eof: false }, SessionActionView::Wait),
                Some(m) => awaiting_next(false, Some(m), reg),
            },
            SessionEventView::ClientFrame(Some(m)) => if deferred is None {
                (SessionView::FinalizingOpen { deferred: Some(m) }, SessionActionView::Wait)
            } else {
                fail_with(SessionFailure::UnexpectedMessage)
            },
            SessionEventView::ClientReadFailed | SessionEventView::SendFailed => fail_with(
                SessionFailure::Transport,
            ),
            _ => (s, SessionActionView::Wait),
        },
        SessionView::Aborting { pending } => match e {
            SessionEventView::SendCompleted => match pending {
                Some(text) => (
                    SessionView::Aborting { pending: None },
                    SessionActionView::Send(ServerMessageView::Error(text)),
                ),
                None => fail_with(SessionFailure::Aborted),
            },
            SessionEventView::SendFailed => fail_with(SessionFailure::Transport),
            _ => (s, SessionActionView::Wait),
        },
        SessionView::Finished | SessionView::Failed { .. } => (s, SessionActionView::Wait),
    }
}

/// The tunnel that a step enters into the registry, if any: a started tunnel,
/// under the host that is being opened.
pub open spec fn session_registers(s: SessionView, e: SessionEventView) -> Option<(Seq<char>, u64)> {
    match (s, e) {
        (SessionView::OpeningTunnel { host }, SessionEventView::TunnelStarted { kill_handle }) => Some(
            (host, kill_handle),
        ),
        _ => None,
    }
}

/// The registry after a step.
pub open spec fn registry_after(
    before: Map<Seq<char>, u64>,
    s: SessionView,
    e: SessionEventView,
) -> Map<Seq<char>, u64> {
    match session_registers(s, e) {
        Some((host, kill_handle)) => before.insert(host, kill_handle),
        None => before,
    }
}

/// A step taken during the interactive phase of an open that sends the final
/// acknowledgement.
pub open spec fn acks_open(s: SessionView, e: SessionEventView, reg: Map<Seq<char>, u64>) -> bool {
    s is CommunicatingForOpen && session_next(s, e, reg).1 == SessionActionView::Send(
        ServerMessageView::Ack,
    )
}

/// A step that starts the interactive phase of an open.
pub open spec fn starts_open(s: SessionView, e: SessionEventView) -> bool {
    s is OpeningTunnel && e is TunnelStarted
}

/// Running a session from `s` over `events`, each with the registry as the
/// session saw it at that step: the state reached, how many opens started
/// their interactive phase, and how many final acknowledgements were sent
/// from that phase.
pub open spec fn run_session(s: SessionView, events: Seq<(SessionEventView, Map<Seq<char>, u64>)>) -> (
    SessionView,
    nat,
    nat,
)
    decreases events.len(),
{
    if events.len() == 0 {
        (s, 0, 0)
    } else {
        let (cur, opens, acks) = run_session(s, events.drop_last());
        let (e, reg) = events.last();
        (
            session_next(cur, e, reg).0,
            opens + if starts_open(cur, e) { 1nat } else { 0nat },
            acks + if acks_open(cur, e, reg) { 1nat } else { 0nat },
        )
    }
}

/// The final acknowledgement of an open goes out only once the client has
/// ended its input, the sink has flushed every earlier frame, and no SSH
/// output is left in the buffer (counting bytes that arrive with the event);
/// and it ends the interactive phase.
pub proof fn law_ack_after_buffered_output(s: SessionView, e: SessionEventView, reg: Map<Seq<char>, u64>)
    requires
        acks_open(s, e, reg),
    ensures
        s matches SessionView::CommunicatingForOpen { buf, saw_end, sink } && (saw_end
            || e == SessionEventView::ClientFrame(Some(ClientMessageView::EndOfUserData)))
            && (sink == SinkState::Idle || e == SessionEventView::SendCompleted) && (match e {
            SessionEventView::PtyOutput(d) => buf + d,
            _ => buf,
        }).len() == 0,
        session_next(s, e, reg).0 == (SessionView::FinalizingOpen { deferred: None }),
{
}

/// Over any run of a session from its start, the interactive phase sends at
/// most one final acknowledgement per open that reached it, and none while
/// that phase is still going on.
pub proof fn law_one_ack_per_open(events: Seq<(SessionEventView, Map<Seq<char>, u64>)>)
    ensures
        ({
            let (cur, opens, acks) = run_session(SessionView::AwaitingCommand { saw_eof: false }, events);
            acks + (if cur is CommunicatingForOpen { 1nat } else { 0nat }) <= opens
        }),
    decreases events.len(),
{
    if events.len() > 0 {
        law_one_ack_per_open(events.drop_last());
    }
}

/// During the interactive phase of an open, a client message other than
/// user data or the end of it fails the session, and no acknowledgement is
/// sent.
pub proof fn law_unexpected_message_fatal(
    s: SessionView,
    m: ClientMessageView,
    reg: Map<Seq<char>, u64>,
)
    requires
        s is CommunicatingForOpen,
        !(m is UserData),
        !(m is EndOfUserData),
    ensures
        session_next(s, SessionEventView::ClientFrame(Some(m)), reg) == fail_with(
            SessionFailure::UnexpectedMessage,
        ),
        !acks_open(s, SessionEventView::ClientFrame(Some(m)), reg),
        registry_after(reg, s, SessionEventView::ClientFrame(Some(m))) == reg,
{
}

/// A step that fails a session leaves the registry as it was: one session's
/// error touches no other session's tunnel.
pub proof fn law_failure_keeps_registry(s: SessionView, e: SessionEventView, reg: Map<Seq<char>, u64>)
    requires
        session_next(s, e, reg).1 is Fail,
    ensures
        registry_after(reg, s, e) == reg,
        session_next(s, e, reg).0 is Failed,
{
}

/// A request to open a host that already has a tunnel is answered with
/// `TunnelAlreadyOpen`: no second tunnel is started and the registry stays
/// as it is. Only a host without a tunnel leads to a new one.
pub proof fn law_registered_host_short_circuits(
    saw_eof: bool,
    host: Seq<char>,
    reg: Map<Seq<char>, u64>,
)
    ensures
        ({
            let s = SessionView::AwaitingCommand { saw_eof };
            let e = SessionEventView::ClientFrame(Some(ClientMessageView::Open { host }));
            &&& reg.contains_key(host) ==> session_next(s, e, reg) == (
                SessionView::FinalizingOpen { deferred: None },
                SessionActionView::Send(ServerMessageView::TunnelAlreadyOpen),
            )
            &&& !reg.contains_key(host) ==> session_next(s, e, reg).1 == (SessionActionView::StartTunnel {
                host,
            })
            &&& registry_after(reg, s, e) == reg
        }),
{
}

/// A successful open of `host` enters it in the registry with the new
/// tunnel's kill handle. After that, no session step takes the host out, and
/// no supervisor step takes out that entry but one of the supervisor that
/// holds the same kill handle, when it sees the child exit, a kill request
/// or a failure.
pub proof fn law_open_registers_host(
    before: Map<Seq<char>, u64>,
    host: Seq<char>,
    kill_handle: u64,
    s: SessionView,
    e: SessionEventView,
    watched: Seq<char>,
    watched_handle: u64,
    m: MonitorState,
    c: ChildEvent,
)
    ensures
        registry_after(
            before,
            SessionView::OpeningTunnel { host },
            SessionEventView::TunnelStarted { kill_handle },
        ) == before.insert(host, kill_handle),
        before.contains_key(host) ==> registry_after(before, s, e).contains_key(host),
        before.contains_key(host) && before[host] == kill_handle && (watched_handle != kill_handle
            || !monitor_removes(m, c)) ==> ({
            let after = if monitor_removes(m, c) {
                release(before, watched, watched_handle)
            } else {
                before
            };
            after.contains_key(host) && after[host] == kill_handle
        }),
        monitor_removes(m, c) ==> m == MonitorState::AwaitingChildEvent && (c is ChildExited
            || c is KillRequested || c is WatchFailed),
{
}

/// No work is left waiting on an idle sink during the interactive phase:
/// buffered output is being sent, and an ended input has already led to the
/// final acknowledgement.
pub open spec fn session_settled(s: SessionView) -> bool {
    s matches SessionView::CommunicatingForOpen { buf, saw_end, sink } ==> !(sink == SinkState::Idle && (buf.len()
        > 0 || saw_end))
}

/// Every step keeps a session settled, so the single action that each event
/// yields is always enough.
pub proof fn law_session_steps_stay_settled(s: SessionView, e: SessionEventView, reg: Map<Seq<char>, u64>)
    requires
        session_settled(s),
    ensures
        session_settled(session_next(s, e, reg).0),
{
}

fn fail(failure: SessionFailure) -> (r: (SessionState, SessionAction))
    ensures
        (r.0@, r.1@) == fail_with(failure),
{
    (SessionState::Failed { failure }, SessionAction::Fail(failure))
}

/// Aborts the session with `text`, sending it at once if the sink is idle
/// and queueing it behind the frame in flight otherwise.
pub fn abort_client(text: String, sink: SinkState) -> (r: (SessionState, SessionAction))
    ensures
        (r.0@, r.1@) == abort_with(text@, sink),
{
    match sink {
        SinkState::Idle => (
            SessionState::Aborting { pending: None },
            SessionAction::Send(ServerMessage::Error(text)),
        ),
        SinkState::Flushing => (SessionState::Aborting { pending: Some(text) }, SessionAction::Wait),
    }
}

fn pump_exec(buf: Vec<u8>, saw_end: bool, sink: SinkState) -> (r: (SessionState, SessionAction))
    ensures
        (r.0@, r.1@) == pump(buf@, saw_end, sink),
{
    if sink == SinkState::Idle && buf.len() > 0 {
        let out = SessionState::CommunicatingForOpen {
            buf: Vec::new(),
            saw_end,
            sink: SinkState::Flushing,
        };
        assert(out@ == (SessionView::CommunicatingForOpen {
            buf: Seq::empty(),
            saw_end,
            sink: SinkState::Flushing,
        }));
        (out, SessionAction::Send(ServerMessage::SshData(buf)))
    } else if sink == SinkState::Idle && saw_end {
        (SessionState::FinalizingOpen { deferred: None }, SessionAction::Send(ServerMessage::Ack))
    } else {
        (SessionState::CommunicatingForOpen { buf, saw_end, sink }, SessionAction::Wait)
    }
}

fn awaiting_command(saw_eof: bool, m: Option<ClientMessage>, registry: &TunnelRegistry) -> (r: (
    SessionState,
    SessionAction,
))
    requires
        registry.wf(),
    ensures
        (r.0@, r.1@) == awaiting_next(saw_eof, frame_view(m), registry.view()),
{
    match m {
        None => if saw_eof {
            fail(SessionFailure::ClientClosed)
        } else {
            (SessionState::AwaitingCommand { saw_eof: true }, SessionAction::Wait)
        },
        Some(ClientMessage::Open(params)) => if registry.contains(&params.host) {
            (
                SessionState::FinalizingOpen { deferred: None },
                SessionAction::Send(ServerMessage::TunnelAlreadyOpen),
            )
        } else {
            let host = params.host.clone();
            (SessionState::OpeningTunnel { host: params.host }, SessionAction::StartTunnel { host })
        },
        Some(ClientMessage::Goodbye) | Some(ClientMessage::Exit) => (
            SessionState::Finished,
            SessionAction::Close,
        ),
        Some(_) => fail(SessionFailure::UnexpectedMessage),
    }
}

fn setup_error_message(stage: SetupStage, detail: String) -> (r: String)
    ensures
        r@ == setup_error_text(stage, detail@),
{
    match stage {
        SetupStage::Pty => String::from_str("failed to create PTY: ").concat(detail.as_str()),
        SetupStage::Spawn => String::from_str("failed to launch SSH: ").concat(detail.as_str()),
    }
}

impl SessionState {
    /// A freshly accepted client: waiting for its first command.
    pub fn start() -> (r: Self)
        ensures
            r@ == (SessionView::AwaitingCommand { saw_eof: false }),
    {
        SessionState::AwaitingCommand { saw_eof: false }
    }

    /// Whether the session has ended, normally or in error.
    pub fn is_over(&self) -> (r: bool)
        ensures
            r == (self@ is Finished || self@ is Failed),
    {
        match self {
            SessionState::Finished | SessionState::Failed { .. } => true,
            _ => false,
        }
    }

    /// Reacts to one event: the next state and what the driver must do. A
    /// request to open a host that the registry already holds is answered
    /// with `TunnelAlreadyOpen`; a started tunnel enters the registry under
    /// the host being opened.
    ///
    /// The check and the entry are separate steps: were two sessions to open
    /// the same host at once, both would start a tunnel and the later entry
    /// would replace the earlier one, whose child then runs without an entry
    /// until it exits or is killed (its supervisor removes only its own
    /// entry, so the newer tunnel stays registered).
    pub fn handle(self, event: SessionEvent, registry: &mut TunnelRegistry) -> (r: (
        SessionState,
        SessionAction,
    ))
        requires
            old(registry).wf(),
        ensures
            final(registry).wf(),
            (r.0@, r.1@) == session_next(self@, event@, old(registry).view()),
            final(registry).view() == registry_after(old(registry).view(), self@, event@),
            session_registers(self@, event@) is Some ==> final(registry).has_single_entry(
                session_registers(self@, event@).unwrap().0,
            ),
    {
        let ghost s0 = self@;
        let ghost e0 = event@;
        match self {
            SessionState::AwaitingCommand { saw_eof } => match event {
                SessionEvent::ClientFrame(m) => awaiting_command(saw_eof, m, registry),
                SessionEvent::ClientReadFailed | SessionEvent::SendFailed => fail(
                    SessionFailure::Transport,
                ),
                _ => (SessionState::AwaitingCommand { saw_eof }, SessionAction::Wait),
            },
            SessionState::OpeningTunnel { host } => match event {
                SessionEvent::TunnelStarted { kill_handle } => {
                    let ghost h = host@;
                    registry.insert(host, kill_handle);
                    proof {
                        registry.law_one_entry_per_host(h);
                    }
                    let out = SessionState::CommunicatingForOpen {
                        buf: Vec::new(),
                        saw_end: false,
                        sink: SinkState::Flushing,
                    };
                    assert(out@ == (SessionView::CommunicatingForOpen {
                        buf: Seq::empty(),
                        saw_end: false,
                        sink: SinkState::Flushing,
                    }));
                    (out, SessionAction::Send(ServerMessage::Ack))
                },
                SessionEvent::TunnelFailed { stage, detail } => abort_client(
                    setup_error_message(stage, detail),
                    SinkState::Idle,
                ),
                SessionEvent::ClientFrame(Some(_)) => fail(SessionFailure::UnexpectedMessage),
                SessionEvent::ClientFrame(None) => fail(SessionFailure::ClientClosed),
                SessionEvent::ClientReadFailed | SessionEvent::SendFailed => fail(
                    SessionFailure::Transport,
                ),
                _ => (SessionState::OpeningTunnel { host }, SessionAction::Wait),
            },
            SessionState::CommunicatingForOpen { mut buf, saw_end, sink } => match event {
                SessionEvent::ClientFrame(Some(ClientMessage::UserData(d))) => if saw_end {
                    fail(SessionFailure::DataAfterEnd)
                } else {
                    (SessionState::CommunicatingForOpen { buf, saw_end, sink }, SessionAction::WriteToPty(d))
                },
                SessionEvent::ClientFrame(Some(ClientMessage::EndOfUserData)) => pump_exec(buf, true, sink),
                SessionEvent::ClientFrame(Some(_)) => fail(SessionFailure::UnexpectedMessage),
                SessionEvent::ClientFrame(None) => fail(SessionFailure::ClientClosed),
                SessionEvent::PtyOutput(d) => {
                    let mut d = d;
                    buf.append(&mut d);
                    pump_exec(buf, saw_end, sink)
                },
                SessionEvent::PtyFailed => abort_client(
                    String::from_str("something went wrong communicating with the SSH process"),
                    sink,
                ),
                SessionEvent::SendCompleted => pump_exec(buf, saw_end, SinkState::Idle),
                SessionEvent::ClientReadFailed | SessionEvent::SendFailed => fail(
                    SessionFailure::Transport,
                ),
                _ => (SessionState::CommunicatingForOpen { buf, saw_end, sink }, SessionAction::Wait),
            },
            SessionState::FinalizingOpen { deferred } => match event {
                SessionEvent::SendCompleted => match deferred {
                    None => (SessionState::AwaitingCommand { saw_eof: false }, SessionAction::Wait),
                    Some(m) => awaiting_command(false, Some(m), registry),
                },
                SessionEvent::ClientFrame(Some(m)) => match deferred {
                    None => (SessionState::FinalizingOpen { deferred: Some(m) }, SessionAction::Wait),
                    Some(_) => fail(SessionFailure::UnexpectedMessage),
                },
                SessionEvent::ClientReadFailed | SessionEvent::SendFailed => fail(
                    SessionFailure::Transport,
                ),
                _ => (SessionState::FinalizingOpen { deferred }, SessionAction::Wait),
            },
            SessionState::Aborting { pending } => match event {
                SessionEvent::SendCompleted => match pending {
                    Some(text) => (
                        SessionState::Aborting { pending: None },
                        SessionAction::Send(ServerMessage::Error(text)),
                    ),
                    None => fail(SessionFailure::Aborted),
                },
                SessionEvent::SendFailed => fail(SessionFailure::Transport),
                _ => (SessionState::Aborting { pending }, SessionAction::Wait),
            },
            SessionState::Finished => (SessionState::Finished, SessionAction::Wait),
            SessionState::Failed { failure } => (SessionState::Failed { failure }, SessionAction::Wait),
        }
    }
}

} // verus!
