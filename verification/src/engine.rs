//! The entry points of the server: poll, send and upgrade, and the steps of
//! a WebSocket connection.
//!
//! Each entry point is one step on the table of sessions. A caller that
//! serves many connections keeps the engine behind one lock and takes it for
//! the length of a call; what a call reads and what it changes then belong
//! to one moment.

use crate::config::EngineIoConfig;
use crate::registry::{well_keyed, SessionRegistry};
use crate::request::{extract_sid, extract_ws_key, sid_in_target, ws_key_in};
use crate::session::{OpenPacket, Session, TransportType};
use crate::ws::{react, reaction, Fault, Reaction, WsAction, WsEvent, WsState};
use vstd::prelude::*;
use vstd::string::StringSliceAdditionalSpecFns;

verus! {

/// Status of a request that was served.
pub const STATUS_OK: u16 = 200;

/// Status of a request whose session id is missing or is none.
pub const STATUS_BAD_REQUEST: u16 = 400;

/// Status of an upgrade that carries no handshake key.
pub const STATUS_SERVER_ERROR: u16 = 500;

/// Status of an upgrade that was accepted.
pub const STATUS_SWITCHING_PROTOCOLS: u16 = 101;

/// The session id that a request gives, where it gives one that can be used:
/// ids are not negative.
pub open spec fn usable_sid(sid: Option<i64>) -> Option<i64> {
    match sid {
        Some(id) => if id >= 0 {
            Some(id)
        } else {
            None
        },
        None => None,
    }
}

/// The answer to a poll.
#[derive(Debug, PartialEq, Eq)]
pub enum PollReply<E> {
    /// The request named no session. Nothing was registered, and the endpoint
    /// that came with the request is handed back.
    BadRequest { outbound: E },
    /// The session `sid` is registered on the endpoint of the request, and the
    /// response streams. `closed` is the session that was live under `sid`
    /// before, if one was: it has left the table and is to be closed.
    Streaming { sid: i64, closed: Option<Session<E>> },
}

impl<E> PollReply<E> {
    /// The status of the response.
    pub open spec fn status(self) -> u16 {
        match self {
            PollReply::BadRequest { .. } => STATUS_BAD_REQUEST,
            PollReply::Streaming { .. } => STATUS_OK,
        }
    }

    /// The status of the response.
    pub fn status_code(&self) -> (code: u16)
        ensures
            code == self.status(),
    {
        match self {
            PollReply::BadRequest { .. } => STATUS_BAD_REQUEST,
            PollReply::Streaming { .. } => STATUS_OK,
        }
    }
}

/// The answer to a send.
#[derive(Debug, Clone, Copy, PartialEq, Eq, Structural)]
pub enum SendReply {
    /// The request named no session.
    BadRequest,
    /// The request is accepted. `live` says whether the session `sid` is in
    /// the table: where it is not, there is nothing more to do.
    Accepted { sid: i64, live: bool },
}

impl SendReply {
    /// The status of the response.
    pub open spec fn status(self) -> u16 {
        match self {
            SendReply::BadRequest => STATUS_BAD_REQUEST,
            SendReply::Accepted { .. } => STATUS_OK,
        }
    }

    /// The status of the response.
    pub fn status_code(&self) -> (code: u16)
        ensures
            code == self.status(),
    {
        match self {
            SendReply::BadRequest => STATUS_BAD_REQUEST,
            SendReply::Accepted { .. } => STATUS_OK,
        }
    }
}

/// The answer to an upgrade request.
#[derive(Debug, PartialEq, Eq)]
pub enum UpgradeReply {
    /// The request carries no handshake key.
    ServerError,
    /// The protocol switches. `key` is the handshake key of the request and
    /// `sid` the session that the client wants to go on with, if it named one.
    SwitchingProtocols { key: Vec<u8>, sid: Option<i64> },
}

impl UpgradeReply {
    /// The status of the response.
    pub open spec fn status(self) -> u16 {
        match self {
            UpgradeReply::ServerError => STATUS_SERVER_ERROR,
            UpgradeReply::SwitchingProtocols { .. } => STATUS_SWITCHING_PROTOCOLS,
        }
    }

    /// The status of the response.
    pub fn status_code(&self) -> (code: u16)
        ensures
            code == self.status(),
    {
        match self {
            UpgradeReply::ServerError => STATUS_SERVER_ERROR,
            UpgradeReply::SwitchingProtocols { .. } => STATUS_SWITCHING_PROTOCOLS,
        }
    }
}

/// One WebSocket connection in its read loop: the session it serves and
/// where its loop stands.
#[derive(Debug, Clone, Copy, PartialEq, Eq, Structural)]
pub struct WsConn {
    /// The session that the connection serves.
    pub sid: i64,
    /// Where the read loop stands.
    pub state: WsState,
}

/// How a WebSocket connection was taken up.
#[derive(Debug, PartialEq, Eq)]
pub enum WsOpening<E> {
    /// The connection goes on with a session that was live. No open packet
    /// is sent: the client has had one. `previous` is the endpoint that the
    /// session had, to be flushed and closed.
    Resumed { conn: WsConn, previous: E },
    /// The connection opens a session of its own. `open` is to be sent on it
    /// before anything else.
    Opened { conn: WsConn, open: OpenPacket },
    /// The id proposed for a new session cannot be used. Nothing changed, and
    /// the endpoint is handed back for a try with another id.
    Refused { outbound: E },
}

/// The answer of the engine to one event of a read loop.
#[derive(Debug, PartialEq, Eq)]
pub struct WsStep<P, E> {
    /// What the loop does next.
    pub action: WsAction<P>,
    /// What the loop reports, if anything.
    pub fault: Option<Fault>,
    /// The session that left the table with this step, to be closed.
    pub closed: Option<Session<E>>,
}

/// The table after a poll for the session `sid` on the endpoint `outbound`.
pub open spec fn polled<E>(
    sessions: Map<i64, Session<E>>,
    sid: i64,
    outbound: E,
    config: EngineIoConfig,
) -> Map<i64, Session<E>> {
    sessions.insert(sid, Session::polling(sid, outbound, config))
}

/// The answer to a poll that gives the session id `sid`.
pub open spec fn poll_reply<E>(
    sessions: Map<i64, Session<E>>,
    sid: Option<i64>,
    outbound: E,
) -> PollReply<E> {
    match usable_sid(sid) {
        Some(id) => PollReply::Streaming { sid: id, closed: sessions.get(id) },
        None => PollReply::BadRequest { outbound },
    }
}

/// The answer to a send that gives the session id `sid`.
pub open spec fn send_reply<E>(sessions: Map<i64, Session<E>>, sid: Option<i64>) -> SendReply {
    match usable_sid(sid) {
        Some(id) => SendReply::Accepted { sid: id, live: sessions.contains_key(id) },
        None => SendReply::BadRequest,
    }
}

/// The packet of a send that reaches the application: the one that was
/// decoded, where the session is live.
pub open spec fn delivered<P, E>(
    sessions: Map<i64, Session<E>>,
    sid: i64,
    decoded: Option<P>,
) -> Option<P> {
    if sessions.contains_key(sid) {
        decoded
    } else {
        None
    }
}

/// Whether an upgrade that names `sid` goes on with a live session.
pub open spec fn resumes<E>(sessions: Map<i64, Session<E>>, sid: Option<i64>) -> bool {
    sid matches Some(id) && sessions.contains_key(id)
}

/// Whether `candidate` can be the id of a new session: it is not negative
/// and no live session has it.
pub open spec fn is_fresh<E>(sessions: Map<i64, Session<E>>, candidate: i64) -> bool {
    candidate >= 0 && !sessions.contains_key(candidate)
}

/// The table after a WebSocket connection on the endpoint `outbound` was
/// taken up for a client that named `sid`, with `candidate` proposed as the id
/// of a new session.
pub open spec fn upgraded<E>(
    sessions: Map<i64, Session<E>>,
    sid: Option<i64>,
    candidate: i64,
    outbound: E,
    config: EngineIoConfig,
) -> Map<i64, Session<E>> {
    if resumes(sessions, sid) {
        sessions.insert(sid->0, sessions[sid->0].upgraded(outbound))
    } else if is_fresh(sessions, candidate) {
        sessions.insert(candidate, Session::websocket(candidate, outbound, config))
    } else {
        sessions
    }
}

/// How that connection is taken up.
pub open spec fn ws_opening<E>(
    sessions: Map<i64, Session<E>>,
    sid: Option<i64>,
    candidate: i64,
    outbound: E,
    config: EngineIoConfig,
) -> WsOpening<E> {
    if resumes(sessions, sid) {
        WsOpening::Resumed {
            conn: WsConn { sid: sid->0, state: WsState::Reading },
            previous: sessions[sid->0].outbound,
        }
    } else if is_fresh(sessions, candidate) {
        WsOpening::Opened {
            conn: WsConn { sid: candidate, state: WsState::Reading },
            open: OpenPacket::of(TransportType::Websocket, candidate, config),
        }
    } else {
        WsOpening::Refused { outbound }
    }
}

/// The answer of the read loop of `conn` to `event`.
pub open spec fn ws_reaction<P, E>(
    sessions: Map<i64, Session<E>>,
    conn: WsConn,
    event: WsEvent<P>,
) -> Reaction<P> {
    reaction(conn.state, sessions.contains_key(conn.sid), event)
}

/// The table after the read loop of the session `sid` was told to do
/// `action`: the session leaves the table where the loop is over.
pub open spec fn after_action<P, E>(
    sessions: Map<i64, Session<E>>,
    sid: i64,
    action: WsAction<P>,
) -> Map<i64, Session<E>> {
    if action is Close {
        sessions.remove(sid)
    } else {
        sessions
    }
}

/// The session that leaves the table with `action`.
pub open spec fn closed_by<P, E>(
    sessions: Map<i64, Session<E>>,
    sid: i64,
    action: WsAction<P>,
) -> Option<Session<E>> {
    if action is Close {
        sessions.get(sid)
    } else {
        None
    }
}

/// The engine of one server: its table of sessions and its settings.
///
/// `E` is the type of the endpoints on which the server writes. The engine
/// moves endpoints into the table and out of it and never uses one.
pub struct EngineIo<E> {
    sockets: SessionRegistry<E>,
    /// The settings of the server.
    pub config: EngineIoConfig,
}

impl<E> View for EngineIo<E> {
    type V = Map<i64, Session<E>>;

    closed spec fn view(&self) -> Map<i64, Session<E>> {
        self.sockets@
    }
}

impl<E> EngineIo<E> {
    /// The settings of the server, as `config` holds them.
    pub closed spec fn settings(&self) -> EngineIoConfig {
        self.config
    }

    /// Makes the engine of a server with the settings `config`. It has no
    /// sessions.
    pub fn from_config(config: EngineIoConfig) -> (engine: Self)
        ensures
            engine@ == Map::<i64, Session<E>>::empty(),
            engine.settings() == config,
    {
        EngineIo { sockets: SessionRegistry::new(), config }
    }

    /// Whether the session `sid` is live.
    pub fn is_live(&self, sid: i64) -> (live: bool)
        ensures
            live == self@.contains_key(sid),
            well_keyed(self@),
    {
        self.sockets.contains(sid)
    }

    /// Looks up the session `sid`.
    pub fn session(&self, sid: i64) -> (found: Option<&Session<E>>)
        ensures
            match found {
                Some(session) => self@.contains_key(sid) && *session == self@[sid] && session.id
                    == sid,
                None => !self@.contains_key(sid),
            },
    {
        self.sockets.get(sid)
    }

    /// How many sessions are live.
    pub fn session_count(&self) -> (count: usize)
        ensures
            count == self@.len(),
    {
        self.sockets.len()
    }

    /// Serves a poll whose session id was read as `sid`.
    ///
    /// With a session id the poll registers a session on `outbound`, in place
    /// of the one that was live under that id, if one was. Without one it
    /// changes nothing.
    pub fn poll(&mut self, sid: Option<i64>, outbound: E) -> (reply: PollReply<E>)
        ensures
            reply == poll_reply(old(self)@, sid, outbound),
            final(self)@ == match usable_sid(sid) {
                Some(id) => polled(old(self)@, id, outbound, old(self).settings()),
                None => old(self)@,
            },
            final(self).settings() == old(self).settings(),
            well_keyed(final(self)@),
    {
        match sid {
            Some(id) => {
                if id >= 0 {
                    let session = Session::new_http(id, outbound, &self.config);
                    let closed = self.sockets.create_or_replace(session);
                    return PollReply::Streaming { sid: id, closed };
                }
            },
            None => {},
        }
        proof {
            use_type_invariant(&self.sockets);
        }
        PollReply::BadRequest { outbound }
    }

    /// Serves a poll for the request target `target`, with `outbound` as the
    /// endpoint of the streaming response.
    pub fn on_polling_req(&mut self, target: &str, outbound: E) -> (reply: PollReply<E>)
        ensures
            reply == poll_reply(old(self)@, sid_in_target(target.spec_bytes()), outbound),
            final(self)@ == match usable_sid(sid_in_target(target.spec_bytes())) {
                Some(id) => polled(old(self)@, id, outbound, old(self).settings()),
                None => old(self)@,
            },
            final(self).settings() == old(self).settings(),
            well_keyed(final(self)@),
    {
        let sid = extract_sid(target);
        self.poll(sid, outbound)
    }

    /// Serves a send whose session id was read as `sid`. The table stays as
    /// it is.
    pub fn send(&self, sid: Option<i64>) -> (reply: SendReply)
        ensures
            reply == send_reply(self@, sid),
    {
        match sid {
            Some(id) => {
                if id >= 0 {
                    SendReply::Accepted { sid: id, live: self.sockets.contains(id) }
                } else {
                    SendReply::BadRequest
                }
            },
            None => SendReply::BadRequest,
        }
    }

    /// Serves a send for the request target `target`.
    pub fn on_send_packet_req(&self, target: &str) -> (reply: SendReply)
        ensures
            reply == send_reply(self@, sid_in_target(target.spec_bytes())),
    {
        let sid = extract_sid(target);
        self.send(sid)
    }

    /// Decides what becomes of the payload of a send for the session `sid`.
    ///
    /// `decoded` is the packet that the codec read from the payload, or
    /// `None` where it read none. The packet goes to the application where
    /// the session is live; anything else is dropped, and the session stays.
    pub fn on_send_packet<P>(&self, sid: i64, decoded: Option<P>) -> (packet: Option<P>)
        ensures
            packet == delivered(self@, sid, decoded),
    {
        if self.sockets.contains(sid) {
            decoded
        } else {
            None
        }
    }

    /// Answers an upgrade request whose handshake key was read as `key` and
    /// whose session id as `sid`.
    pub fn upgrade(&self, key: Option<Vec<u8>>, sid: Option<i64>) -> (reply: UpgradeReply)
        ensures
            match reply {
                UpgradeReply::ServerError => key is None,
                UpgradeReply::SwitchingProtocols { key: k, sid: s } => key == Some(k) && s
                    == usable_sid(sid),
            },
    {
        match key {
            Some(k) => {
                let s: Option<i64> = match sid {
                    Some(id) => if id >= 0 {
                        Some(id)
                    } else {
                        None
                    },
                    None => None,
                };
                UpgradeReply::SwitchingProtocols { key: k, sid: s }
            },
            None => UpgradeReply::ServerError,
        }
    }

    /// Answers an upgrade request with the target `target` and the header
    /// fields `headers`.
    pub fn upgrade_ws_req(
        &self,
        target: &str,
        headers: &http::HeaderMap<http::HeaderValue>,
    ) -> (reply: UpgradeReply)
        ensures
            match reply {
                UpgradeReply::ServerError => ws_key_in(*headers) is None,
                UpgradeReply::SwitchingProtocols { key, sid } => ws_key_in(*headers) == Some(key@)
                    && sid == usable_sid(sid_in_target(target.spec_bytes())),
            },
    {
        let key = extract_ws_key(headers);
        if key.is_none() {
            return UpgradeReply::ServerError;
        }
        let sid = extract_sid(target);
        self.upgrade(key, sid)
    }

    /// Takes up a WebSocket connection after its handshake.
    ///
    /// `sid` is the session that the client named, `outbound` the sink of the
    /// connection and `candidate` the id proposed for a new session. A client
    /// that named a live session goes on with it. Any other client gets a
    /// new session under `candidate`, if that id can be used.
    pub fn on_ws_conn_upgrade(&mut self, sid: Option<i64>, candidate: i64, outbound: E) -> (opening:
        WsOpening<E>)
        ensures
            opening == ws_opening(old(self)@, sid, candidate, outbound, old(self).settings()),
            final(self)@ == upgraded(old(self)@, sid, candidate, outbound, old(self).settings()),
            final(self).settings() == old(self).settings(),
            well_keyed(final(self)@),
    {
        let outbound = match sid {
            Some(id) => match self.sockets.update_transport(id, outbound) {
                Ok(previous) => {
                    return WsOpening::Resumed {
                        conn: WsConn { sid: id, state: WsState::Reading },
                        previous,
                    };
                },
                Err(unused) => unused,
            },
            None => outbound,
        };
        if candidate >= 0 && !self.sockets.contains(candidate) {
            let open = OpenPacket::new(TransportType::Websocket, candidate, &self.config);
            let session = Session::new_ws(candidate, outbound, &self.config);
            let _ = self.sockets.create_or_replace(session);
            WsOpening::Opened { conn: WsConn { sid: candidate, state: WsState::Reading }, open }
        } else {
            proof {
                use_type_invariant(&self.sockets);
            }
            WsOpening::Refused { outbound }
        }
    }

    /// Answers one event of the read loop of `conn`.
    ///
    /// Where the loop is over with this event, the session of the connection
    /// leaves the table and is returned in the answer, to be closed.
    pub fn on_ws_event<P>(&mut self, conn: &mut WsConn, event: WsEvent<P>) -> (step: WsStep<P, E>)
        ensures
            step.action == ws_reaction(old(self)@, *old(conn), event).action,
            step.fault == ws_reaction(old(self)@, *old(conn), event).fault,
            step.closed == closed_by(old(self)@, old(conn).sid, step.action),
            final(conn).sid == old(conn).sid,
            final(conn).state == ws_reaction(old(self)@, *old(conn), event).next,
            final(self)@ == after_action(old(self)@, old(conn).sid, step.action),
            final(self).settings() == old(self).settings(),
            well_keyed(final(self)@),
    {
        let live: bool = self.sockets.contains(conn.sid);
        let Reaction { next, action, fault } = react(conn.state, live, event);
        conn.state = next;
        let closed: Option<Session<E>> = match action {
            WsAction::Close => self.sockets.remove_and_close(conn.sid),
            _ => None,
        };
        WsStep { action, fault, closed }
    }

    /// Takes the session `sid` out of the table and returns it, to be
    /// closed. Where it is not live, nothing changes.
    pub fn close_session(&mut self, sid: i64) -> (closed: Option<Session<E>>)
        ensures
            final(self)@ == old(self)@.remove(sid),
            closed == old(self)@.get(sid),
            final(self).settings() == old(self).settings(),
            well_keyed(final(self)@),
    {
        self.sockets.remove_and_close(sid)
    }
}

} // verus!
