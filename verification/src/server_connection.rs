//! The decisions of the connection to a synchronization server.
//!
//! The connection runs as a loop of waits in the application: sending the
//! channel through which the application talks to it, receiving messages,
//! connecting the web socket, listening on it, and reporting events. Each
//! wait is an action of this state machine, and what came of it is the next
//! event.
use crate::integrations::ServerConfig;
use crate::text::{decimal, push_decimal};
use vstd::prelude::*;

verus! {

/// The state of the web socket.
#[derive(Debug, Clone, PartialEq, Eq)]
pub enum WsConnection {
    Disconnected,
    Connecting(ServerConfig),
    Connected(ServerConfig),
}

/// A message from the application to the connection.
#[derive(Debug, Clone, PartialEq, Eq)]
pub enum IncomingMessage {
    Connect(ServerConfig),
    /// A request for the server, which the application keeps.
    Request,
}

/// What came of listening: on the web socket or on the channel.
#[derive(Debug, PartialEq, Eq)]
pub enum ListenOutcome {
    /// A binary message, read as a response of the server, or the reason it
    /// could not be read.
    Response(Result<(), String>),
    Close,
    SocketError,
    OtherSocketMessage,
    Channel(IncomingMessage),
}

/// What came of sending a request.
#[derive(Debug, Clone, PartialEq, Eq)]
pub enum RequestOutcome {
    Sent,
    SendFailed,
    EncryptFailed(String),
}

/// What came of the last action.
#[derive(Debug, PartialEq, Eq)]
pub enum WsEvent {
    /// A new turn of the loop.
    Begin,
    SenderSent(bool),
    MessageReceived(Option<IncomingMessage>),
    NewerMessage(Option<IncomingMessage>),
    ConnectResult(Result<(), String>),
    Emitted(bool),
    Slept,
    Listened(ListenOutcome),
    RequestSent(RequestOutcome),
}

/// An event that the connection reports to the application.
#[derive(Debug, Clone, PartialEq, Eq)]
pub enum OutputEvent {
    Connected,
    Disconnected,
    /// The response just read, with the password to decrypt it.
    Response { password: String },
    Error(String),
}

/// The next wait of the loop.
#[derive(Debug, Clone, PartialEq, Eq)]
pub enum WsAction {
    /// Make a channel, keep its receiver and report its sender.
    SendMessageSender,
    /// Wait for the next message on the channel.
    ReceiveMessage,
    /// Take a message from the channel if one waits.
    TryReceiveMessage,
    Connect { address: String },
    Emit(OutputEvent),
    /// Wait a second.
    Sleep,
    /// Wait for a message on the web socket or on the channel.
    Listen,
    /// Encrypt the request with the password and send it.
    SendRequest { password: String },
    /// Begin the next turn.
    Continue,
    /// Stop: the application no longer listens.
    Quit,
}

/// Which wait the loop is in.
#[derive(Debug, Clone, PartialEq, Eq)]
pub enum WsPhase {
    Start,
    SendingSender,
    Receiving,
    CheckingNewer(ServerConfig),
    Connecting(ServerConfig),
    ReportingConnected(ServerConfig),
    ReportingConnectError,
    ReportingConnectDisconnected,
    Sleeping,
    Listening(ServerConfig),
    /// Reporting an event, after which the connection becomes `next`.
    EmittingThen(Option<WsConnection>),
    SendingRequest,
}

/// The connection's state.
#[derive(Debug, Clone, PartialEq, Eq)]
pub struct WsServerConnectionState {
    pub connection: WsConnection,
    pub message_sender_sent: bool,
    pub has_message_receiver: bool,
    pub phase: WsPhase,
}

/// The address of a server: `ws://hostname:port`.
pub open spec fn server_address(config: ServerConfig) -> Seq<char> {
    "ws://"@ + config.hostname@ + ":"@ + decimal(config.port as nat)
}

/// The state with the given connection and phase.
pub open spec fn at(s: WsServerConnectionState, connection: WsConnection, phase: WsPhase) -> WsServerConnectionState {
    WsServerConnectionState { connection, phase, ..s }
}

/// After the sender is known to be sent: wait for a message if there is a
/// receiver, else begin the next turn.
pub open spec fn receive_or_continue(s: WsServerConnectionState) -> (WsServerConnectionState, WsAction) {
    if s.has_message_receiver {
        (WsServerConnectionState { phase: WsPhase::Receiving, ..s }, WsAction::ReceiveMessage)
    } else {
        (WsServerConnectionState { phase: WsPhase::Start, ..s }, WsAction::Continue)
    }
}

/// Without a receiver the connection starts over: disconnected, the sender
/// to be sent again.
pub open spec fn start_over(s: WsServerConnectionState) -> WsServerConnectionState {
    WsServerConnectionState {
        connection: WsConnection::Disconnected,
        message_sender_sent: false,
        phase: WsPhase::Start,
        ..s
    }
}

/// The state and the next action after an event; the address of a connect
/// action is stated apart, by `server_address`.
pub open spec fn ws_step(s: WsServerConnectionState, event: WsEvent) -> (WsServerConnectionState, WsAction) {
    let start = WsPhase::Start;
    match (s.phase, event) {
        (WsPhase::Start, WsEvent::Begin) => match s.connection {
            WsConnection::Disconnected => if !s.message_sender_sent {
                (
                    WsServerConnectionState { has_message_receiver: true, phase: WsPhase::SendingSender, ..s },
                    WsAction::SendMessageSender,
                )
            } else {
                receive_or_continue(s)
            },
            WsConnection::Connecting(config) => if s.has_message_receiver {
                (WsServerConnectionState { phase: WsPhase::CheckingNewer(config), ..s }, WsAction::TryReceiveMessage)
            } else {
                (start_over(s), WsAction::Continue)
            },
            WsConnection::Connected(config) => if s.has_message_receiver {
                (WsServerConnectionState { phase: WsPhase::Listening(config), ..s }, WsAction::Listen)
            } else {
                (start_over(s), WsAction::Continue)
            },
        },
        (WsPhase::SendingSender, WsEvent::SenderSent(ok)) => if ok {
            receive_or_continue(WsServerConnectionState { message_sender_sent: true, ..s })
        } else {
            (WsServerConnectionState { phase: start, ..s }, WsAction::Quit)
        },
        (WsPhase::Receiving, WsEvent::MessageReceived(m)) => match m {
            Some(IncomingMessage::Connect(config)) => (at(s, WsConnection::Connecting(config), start), WsAction::Continue),
            _ => (WsServerConnectionState { phase: start, ..s }, WsAction::Continue),
        },
        (WsPhase::CheckingNewer(config), WsEvent::NewerMessage(m)) => {
            let c = match m {
                Some(IncomingMessage::Connect(newer)) => newer,
                _ => config,
            };
            (at(s, WsConnection::Connecting(c), WsPhase::Connecting(c)), WsAction::Connect { address: vstd::pervasive::arbitrary() })
        },
        (WsPhase::Connecting(config), WsEvent::ConnectResult(result)) => match result {
            Ok(()) => (WsServerConnectionState { phase: WsPhase::ReportingConnected(config), ..s }, WsAction::Emit(OutputEvent::Connected)),
            Err(e) => (WsServerConnectionState { phase: WsPhase::ReportingConnectError, ..s }, WsAction::Emit(OutputEvent::Error(e))),
        },
        (WsPhase::ReportingConnected(config), WsEvent::Emitted(ok)) => if ok {
            (at(s, WsConnection::Connected(config), start), WsAction::Continue)
        } else {
            (WsServerConnectionState { phase: start, ..s }, WsAction::Quit)
        },
        (WsPhase::ReportingConnectError, WsEvent::Emitted(ok)) => if ok {
            (WsServerConnectionState { phase: WsPhase::ReportingConnectDisconnected, ..s }, WsAction::Emit(OutputEvent::Disconnected))
        } else {
            (WsServerConnectionState { phase: start, ..s }, WsAction::Quit)
        },
        (WsPhase::ReportingConnectDisconnected, WsEvent::Emitted(ok)) => if ok {
            (WsServerConnectionState { phase: WsPhase::Sleeping, ..s }, WsAction::Sleep)
        } else {
            (WsServerConnectionState { phase: start, ..s }, WsAction::Quit)
        },
        (WsPhase::Sleeping, WsEvent::Slept) => (WsServerConnectionState { phase: start, ..s }, WsAction::Continue),
        (WsPhase::Listening(config), WsEvent::Listened(outcome)) => match outcome {
            ListenOutcome::Response(Ok(())) => (
                WsServerConnectionState { phase: WsPhase::EmittingThen(None), ..s },
                WsAction::Emit(OutputEvent::Response { password: config.password }),
            ),
            ListenOutcome::Response(Err(e)) => (
                WsServerConnectionState { phase: WsPhase::EmittingThen(None), ..s },
                WsAction::Emit(OutputEvent::Error(e)),
            ),
            ListenOutcome::Close | ListenOutcome::SocketError => (
                WsServerConnectionState { phase: WsPhase::EmittingThen(Some(WsConnection::Disconnected)), ..s },
                WsAction::Emit(OutputEvent::Disconnected),
            ),
            ListenOutcome::OtherSocketMessage => (WsServerConnectionState { phase: start, ..s }, WsAction::Continue),
            ListenOutcome::Channel(IncomingMessage::Connect(newer)) => (
                at(s, WsConnection::Connecting(newer), start),
                WsAction::Continue,
            ),
            ListenOutcome::Channel(IncomingMessage::Request) => (
                WsServerConnectionState { phase: WsPhase::SendingRequest, ..s },
                WsAction::SendRequest { password: config.password },
            ),
        },
        (WsPhase::SendingRequest, WsEvent::RequestSent(outcome)) => match outcome {
            RequestOutcome::Sent => (WsServerConnectionState { phase: start, ..s }, WsAction::Continue),
            RequestOutcome::SendFailed => (
                WsServerConnectionState { phase: WsPhase::EmittingThen(Some(WsConnection::Disconnected)), ..s },
                WsAction::Emit(OutputEvent::Disconnected),
            ),
            RequestOutcome::EncryptFailed(e) => (
                WsServerConnectionState { phase: WsPhase::EmittingThen(None), ..s },
                WsAction::Emit(OutputEvent::Error(e)),
            ),
        },
        (WsPhase::EmittingThen(next), WsEvent::Emitted(ok)) => {
            let connection = match next {
                Some(c) => c,
                None => s.connection,
            };
            (at(s, connection, start), if ok { WsAction::Continue } else { WsAction::Quit })
        },
        _ => (s, WsAction::Continue),
    }
}

fn clone_config(config: &ServerConfig) -> (r: ServerConfig)
    ensures
        r == *config,
{
    ServerConfig {
        hostname: config.hostname.clone(),
        port: config.port,
        password: config.password.clone(),
    }
}

fn server_address_exec(config: &ServerConfig) -> (r: String)
    ensures
        r@ == server_address(*config),
{
    let mut r = String::from_str("ws://");
    r.append(config.hostname.as_str());
    r.append(":");
    push_decimal(&mut r, config.port as u64);
    proof {
        reveal_strlit("ws://");
        reveal_strlit(":");
    }
    r
}

impl WsServerConnectionState {
    /// A disconnected state that has not sent its sender yet.
    pub fn new() -> (r: Self)
        ensures
            r == (WsServerConnectionState {
                connection: WsConnection::Disconnected,
                message_sender_sent: false,
                has_message_receiver: false,
                phase: WsPhase::Start,
            }),
    {
        WsServerConnectionState {
            connection: WsConnection::Disconnected,
            message_sender_sent: false,
            has_message_receiver: false,
            phase: WsPhase::Start,
        }
    }

    /// Takes what came of the last action and tells the next one. Events
    /// that do not answer the pending action change nothing.
    pub fn update(&mut self, event: WsEvent) -> (r: WsAction)
        ensures
            *final(self) == ws_step(*old(self), event).0,
            match ws_step(*old(self), event).1 {
                WsAction::Connect { .. } => r matches WsAction::Connect { address } && final(self).connection matches WsConnection::Connecting(c) && address@ == server_address(c),
                other => r == other,
            },
    {
        let mut phase = WsPhase::Start;
        std::mem::swap(&mut phase, &mut self.phase);
        match (phase, event) {
            (WsPhase::Start, WsEvent::Begin) => match &self.connection {
                WsConnection::Disconnected => {
                    if !self.message_sender_sent {
                        self.has_message_receiver = true;
                        self.phase = WsPhase::SendingSender;
                        WsAction::SendMessageSender
                    } else {
                        self.receive_or_continue()
                    }
                },
                WsConnection::Connecting(config) => {
                    if self.has_message_receiver {
                        self.phase = WsPhase::CheckingNewer(clone_config(config));
                        WsAction::TryReceiveMessage
                    } else {
                        self.start_over();
                        WsAction::Continue
                    }
                },
                WsConnection::Connected(config) => {
                    if self.has_message_receiver {
                        self.phase = WsPhase::Listening(clone_config(config));
                        WsAction::Listen
                    } else {
                        self.start_over();
                        WsAction::Continue
                    }
                },
            },
            (WsPhase::SendingSender, WsEvent::SenderSent(ok)) => {
                if ok {
                    self.message_sender_sent = true;
                    self.receive_or_continue()
                } else {
                    self.phase = WsPhase::Start;
                    WsAction::Quit
                }
            },
            (WsPhase::Receiving, WsEvent::MessageReceived(m)) => {
                self.phase = WsPhase::Start;
                if let Some(IncomingMessage::Connect(config)) = m {
                    self.connection = WsConnection::Connecting(config);
                }
                WsAction::Continue
            },
            (WsPhase::CheckingNewer(config), WsEvent::NewerMessage(m)) => {
                let c = match m {
                    Some(IncomingMessage::Connect(newer)) => newer,
                    _ => config,
                };
                let address = server_address_exec(&c);
                self.connection = WsConnection::Connecting(clone_config(&c));
                self.phase = WsPhase::Connecting(c);
                WsAction::Connect { address }
            },
            (WsPhase::Connecting(config), WsEvent::ConnectResult(result)) => match result {
                Ok(()) => {
                    self.phase = WsPhase::ReportingConnected(config);
                    WsAction::Emit(OutputEvent::Connected)
                },
                Err(e) => {
                    self.phase = WsPhase::ReportingConnectError;
                    WsAction::Emit(OutputEvent::Error(e))
                },
            },
            (WsPhase::ReportingConnected(config), WsEvent::Emitted(ok)) => {
                self.phase = WsPhase::Start;
                if ok {
                    self.connection = WsConnection::Connected(config);
                    WsAction::Continue
                } else {
                    WsAction::Quit
                }
            },
            (WsPhase::ReportingConnectError, WsEvent::Emitted(ok)) => {
                if ok {
                    self.phase = WsPhase::ReportingConnectDisconnected;
                    WsAction::Emit(OutputEvent::Disconnected)
                } else {
                    self.phase = WsPhase::Start;
                    WsAction::Quit
                }
            },
            (WsPhase::ReportingConnectDisconnected, WsEvent::Emitted(ok)) => {
                if ok {
                    self.phase = WsPhase::Sleeping;
                    WsAction::Sleep
                } else {
                    self.phase = WsPhase::Start;
                    WsAction::Quit
                }
            },
            (WsPhase::Sleeping, WsEvent::Slept) => {
                self.phase = WsPhase::Start;
                WsAction::Continue
            },
            (WsPhase::Listening(config), WsEvent::Listened(outcome)) => match outcome {
                ListenOutcome::Response(Ok(())) => {
                    self.phase = WsPhase::EmittingThen(None);
                    WsAction::Emit(OutputEvent::Response { password: config.password })
                },
                ListenOutcome::Response(Err(e)) => {
                    self.phase = WsPhase::EmittingThen(None);
                    WsAction::Emit(OutputEvent::Error(e))
                },
                ListenOutcome::Close | ListenOutcome::SocketError => {
                    self.phase = WsPhase::EmittingThen(Some(WsConnection::Disconnected));
                    WsAction::Emit(OutputEvent::Disconnected)
                },
                ListenOutcome::OtherSocketMessage => {
                    self.phase = WsPhase::Start;
                    WsAction::Continue
                },
                ListenOutcome::Channel(IncomingMessage::Connect(newer)) => {
                    self.connection = WsConnection::Connecting(newer);
                    self.phase = WsPhase::Start;
                    WsAction::Continue
                },
                ListenOutcome::Channel(IncomingMessage::Request) => {
                    self.phase = WsPhase::SendingRequest;
                    WsAction::SendRequest { password: config.password }
                },
            },
            (WsPhase::SendingRequest, WsEvent::RequestSent(outcome)) => match outcome {
                RequestOutcome::Sent => {
                    self.phase = WsPhase::Start;
                    WsAction::Continue
                },
                RequestOutcome::SendFailed => {
                    self.phase = WsPhase::EmittingThen(Some(WsConnection::Disconnected));
                    WsAction::Emit(OutputEvent::Disconnected)
                },
                RequestOutcome::EncryptFailed(e) => {
                    self.phase = WsPhase::EmittingThen(None);
                    WsAction::Emit(OutputEvent::Error(e))
                },
            },
            (WsPhase::EmittingThen(next), WsEvent::Emitted(ok)) => {
                if let Some(c) = next {
                    self.connection = c;
                }
                self.phase = WsPhase::Start;
                if ok {
                    WsAction::Continue
                } else {
                    WsAction::Quit
                }
            },
            (p, _) => {
                self.phase = p;
                WsAction::Continue
            },
        }
    }

    fn receive_or_continue(&mut self) -> (r: WsAction)
        ensures
            (*final(self), r) == receive_or_continue(*old(self)),
    {
        if self.has_message_receiver {
            self.phase = WsPhase::Receiving;
            WsAction::ReceiveMessage
        } else {
            self.phase = WsPhase::Start;
            WsAction::Continue
        }
    }

    fn start_over(&mut self)
        ensures
            *final(self) == start_over(*old(self)),
    {
        self.connection = WsConnection::Disconnected;
        self.message_sender_sent = false;
        self.phase = WsPhase::Start;
    }
}

} // verus!
