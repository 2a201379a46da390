//! The messages of the request/reply protocol, one sum type per direction.

use vstd::prelude::*;

verus! {

/// What a client asks for when it opens a tunnel.
#[derive(Debug)]
pub struct OpenParameters {
    pub host: String,
}

/// Client to daemon.
#[derive(Debug)]
pub enum ClientMessage {
    /// Open a tunnel to a host.
    Open(OpenParameters),
    /// Bytes the user typed, for the SSH terminal.
    UserData(Vec<u8>),
    /// The interactive phase is over.
    EndOfUserData,
    /// Close this session cleanly.
    Goodbye,
    /// Ask the daemon to exit.
    Exit,
}

/// Daemon to client.
#[derive(Debug)]
pub enum ServerMessage {
    /// Acknowledges the prior command, or the end of the interactive phase.
    Ack,
    /// Bytes that the SSH terminal produced.
    SshData(Vec<u8>),
    /// The host already has a live tunnel.
    TunnelAlreadyOpen,
    /// A session-fatal error, as text for the user.
    Error(String),
}

/// The abstract value of a `ClientMessage`.
pub enum ClientMessageView {
    Open { host: Seq<char> },
    UserData(Seq<u8>),
    EndOfUserData,
    Goodbye,
    Exit,
}

/// The abstract value of a `ServerMessage`.
pub enum ServerMessageView {
    Ack,
    SshData(Seq<u8>),
    TunnelAlreadyOpen,
    Error(Seq<char>),
}

impl View for ClientMessage {
    type V = ClientMessageView;

    open spec fn view(&self) -> ClientMessageView {
        match self {
            ClientMessage::Open(p) => ClientMessageView::Open { host: p.host@ },
            ClientMessage::UserData(b) => ClientMessageView::UserData(b@),
            ClientMessage::EndOfUserData => ClientMessageView::EndOfUserData,
            ClientMessage::Goodbye => ClientMessageView::Goodbye,
            ClientMessage::Exit => ClientMessageView::Exit,
        }
    }
}

impl View for ServerMessage {
    type V = ServerMessageView;

    open spec fn view(&self) -> ServerMessageView {
        match self {
            ServerMessage::Ack => ServerMessageView::Ack,
            ServerMessage::SshData(b) => ServerMessageView::SshData(b@),
            ServerMessage::TunnelAlreadyOpen => ServerMessageView::TunnelAlreadyOpen,
            ServerMessage::Error(t) => ServerMessageView::Error(t@),
        }
    }
}

} // verus!
