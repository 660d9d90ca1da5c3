//! One logical client: its id, the state of its transport and the endpoint
//! on which the server writes to it.

use crate::config::EngineIoConfig;
use vstd::prelude::*;

verus! {

/// Where a session stands between its first request and its close.
///
/// A session moves through these states in the order in which they are
/// written and never back. The close is no state of its own here: a closed
/// session is one that has left the table of sessions.
#[derive(Debug, Clone, Copy, PartialEq, Eq, Structural)]
pub enum Transport {
    /// A poll has registered the session; nothing was sent to it yet.
    PollingPending,
    /// The session sends and receives by polling.
    PollingActive,
    /// An upgrade was asked for and its handshake is not over.
    WebSocketPending,
    /// The session lives on a WebSocket connection.
    WebSocketActive,
}

impl Transport {
    /// The place of a state in the order of the states.
    pub open spec fn rank(self) -> nat {
        match self {
            Transport::PollingPending => 0,
            Transport::PollingActive => 1,
            Transport::WebSocketPending => 2,
            Transport::WebSocketActive => 3,
        }
    }
}

/// The kind of connection on which a session was opened.
#[derive(Debug, Clone, Copy, PartialEq, Eq, Structural)]
pub enum TransportType {
    /// HTTP long-polling.
    Polling,
    /// A WebSocket connection.
    Websocket,
}

/// What a client is told once, when its session opens.
#[derive(Debug, Clone, Copy, PartialEq, Eq, Structural)]
pub struct OpenPacket {
    /// The id given to the session.
    pub sid: i64,
    /// The kind of connection on which the session was opened.
    pub transport: TransportType,
    /// Time between two pings, in milliseconds, as the server was configured.
    pub ping_interval: u32,
    /// Time to answer a ping, in milliseconds, as the server was configured.
    pub ping_timeout: u32,
}

impl OpenPacket {
    /// The open packet of session `sid`, opened on `transport` by a server
    /// with the settings `config`.
    pub open spec fn of(transport: TransportType, sid: i64, config: EngineIoConfig) -> OpenPacket {
        OpenPacket {
            sid,
            transport,
            ping_interval: config.ping_interval,
            ping_timeout: config.ping_timeout,
        }
    }

    /// Composes the open packet of a session.
    pub fn new(transport: TransportType, sid: i64, config: &EngineIoConfig) -> (packet: OpenPacket)
        ensures
            packet == OpenPacket::of(transport, sid, *config),
    {
        OpenPacket {
            sid,
            transport,
            ping_interval: config.ping_interval,
            ping_timeout: config.ping_timeout,
        }
    }
}

/// One logical client of the server.
///
/// `E` is the endpoint on which the server writes to the client: the body of a
/// streaming response, or the sink of a WebSocket connection. The session
/// owns it; whoever takes a session out of the table closes its endpoint.
#[derive(Debug, PartialEq, Eq)]
pub struct Session<E> {
    /// The id of the session, which never changes.
    pub id: i64,
    /// The state of the transport.
    pub transport: Transport,
    /// The endpoint that is live now.
    pub outbound: E,
    /// The ping interval of the server when the session was made.
    pub ping_interval: u32,
    /// The ping timeout of the server when the session was made.
    pub ping_timeout: u32,
}

impl<E> Session<E> {
    /// The session that a poll registers.
    pub open spec fn polling(id: i64, outbound: E, config: EngineIoConfig) -> Session<E> {
        Session {
            id,
            transport: Transport::PollingPending,
            outbound,
            ping_interval: config.ping_interval,
            ping_timeout: config.ping_timeout,
        }
    }

    /// The session that a WebSocket connection opens without a poll before it.
    pub open spec fn websocket(id: i64, outbound: E, config: EngineIoConfig) -> Session<E> {
        Session {
            id,
            transport: Transport::WebSocketActive,
            outbound,
            ping_interval: config.ping_interval,
            ping_timeout: config.ping_timeout,
        }
    }

    /// This session after its move to the WebSocket endpoint `outbound`. Its
    /// id and what it took from the configuration stay.
    pub open spec fn upgraded(self, outbound: E) -> Session<E> {
        Session {
            id: self.id,
            transport: Transport::WebSocketActive,
            outbound,
            ping_interval: self.ping_interval,
            ping_timeout: self.ping_timeout,
        }
    }

    /// Makes the session of a client that polls.
    pub fn new_http(id: i64, outbound: E, config: &EngineIoConfig) -> (session: Session<E>)
        ensures
            session == Session::polling(id, outbound, *config),
    {
        Session {
            id,
            transport: Transport::PollingPending,
            outbound,
            ping_interval: config.ping_interval,
            ping_timeout: config.ping_timeout,
        }
    }

    /// Makes the session of a client that came over a WebSocket connection.
    pub fn new_ws(id: i64, outbound: E, config: &EngineIoConfig) -> (session: Session<E>)
        ensures
            session == Session::websocket(id, outbound, *config),
    {
        Session {
            id,
            transport: Transport::WebSocketActive,
            outbound,
            ping_interval: config.ping_interval,
            ping_timeout: config.ping_timeout,
        }
    }

    /// Moves the session to the WebSocket endpoint `outbound` and hands back
    /// the endpoint it had, for its owner to flush and close.
    pub fn upgrade_from_http(self, outbound: E) -> (moved: (Session<E>, E))
        ensures
            moved.0 == self.upgraded(outbound),
            moved.1 == self.outbound,
            self.transport.rank() <= moved.0.transport.rank(),
    {
        let Session { id, transport: _, outbound: previous, ping_interval, ping_timeout } = self;
        (
            Session {
                id,
                transport: Transport::WebSocketActive,
                outbound,
                ping_interval,
                ping_timeout,
            },
            previous,
        )
    }
}

} // verus!
