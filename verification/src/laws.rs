//! What holds of the entry points taken together.
//!
//! Each law speaks of the table of sessions before and after one or two
//! steps, in the terms in which the entry points state what they do.

use crate::config::EngineIoConfig;
use crate::engine::{
    after_action, delivered, is_fresh, poll_reply, polled, resumes, send_reply, upgraded,
    ws_opening, ws_reaction, PollReply, SendReply, WsConn, WsOpening, STATUS_OK,
};
use crate::registry::well_keyed;
use crate::session::{OpenPacket, Session, Transport, TransportType};
use crate::ws::{Handled, Inbound, WsAction, WsEvent, WsState};
use vstd::prelude::*;

verus! {

/// Whether two tables hold the same under every id but `id`.
pub open spec fn same_elsewhere<E>(
    before: Map<i64, Session<E>>,
    after: Map<i64, Session<E>>,
    id: i64,
) -> bool {
    forall|other: i64|
        other != id ==> (#[trigger] after.contains_key(other) == before.contains_key(other)) && (
        before.contains_key(other) ==> after[other] == before[other])
}

/// Whether `event` is one of those that end a connection that reads: the
/// peer closed, reading failed, or a text message was no packet.
pub open spec fn ends_connection<P>(event: WsEvent<P>) -> bool {
    ||| event is ReadFailed
    ||| event matches WsEvent::Message(Inbound::Close)
    ||| event matches WsEvent::Message(Inbound::Malformed)
}

/// A second poll for a session closes the stream of the first and leaves one
/// session under that id.
///
/// After two polls for `sid`, the session of the first has left the table
/// and is handed out to be closed, the session of the second is the one that
/// is live under `sid`, and the table is the one that the second poll alone
/// would have made.
pub proof fn law_second_poll_replaces_first<E>(
    sessions: Map<i64, Session<E>>,
    sid: i64,
    first: E,
    second: E,
    config: EngineIoConfig,
)
    requires
        sid >= 0,
    ensures
        ({
            let after_first = polled(sessions, sid, first, config);
            let after_second = polled(after_first, sid, second, config);
            &&& poll_reply(after_first, Some(sid), second) == PollReply::Streaming {
                sid,
                closed: Some(Session::polling(sid, first, config)),
            }
            &&& after_second.contains_key(sid)
            &&& after_second[sid] == Session::polling(sid, second, config)
            &&& after_second.dom() == after_first.dom()
            &&& after_second == polled(sessions, sid, second, config)
        }),
{
    let after_first = polled(sessions, sid, first, config);
    let after_second = polled(after_first, sid, second, config);
    assert(after_second.dom() =~= after_first.dom());
    assert(after_second =~= polled(sessions, sid, second, config));
}

/// A send is accepted whether or not its session is live and whatever its
/// payload holds, and a payload that is no packet reaches nobody.
pub proof fn law_send_is_accepted<P, E>(sessions: Map<i64, Session<E>>, sid: i64)
    requires
        sid >= 0,
    ensures
        send_reply(sessions, Some(sid)).status() == STATUS_OK,
        send_reply(sessions, Some(sid)) == (SendReply::Accepted {
            sid,
            live: sessions.contains_key(sid),
        }),
        delivered::<P, E>(sessions, sid, None) is None,
{
}

/// An upgrade of a session that a poll made keeps the id of the session and
/// sends no open packet.
///
/// The connection is taken up as `Resumed`, which carries no open packet;
/// the session stays under `sid`, now on the WebSocket endpoint, and the
/// endpoint of the poll is handed out to be closed. No other id enters the
/// table, whatever id was proposed for a new session.
pub proof fn law_upgrade_keeps_polled_session<E>(
    sessions: Map<i64, Session<E>>,
    sid: i64,
    stream: E,
    sink: E,
    candidate: i64,
    config: EngineIoConfig,
)
    requires
        sid >= 0,
    ensures
        ({
            let polling = polled(sessions, sid, stream, config);
            let after = upgraded(polling, Some(sid), candidate, sink, config);
            &&& ws_opening(polling, Some(sid), candidate, sink, config) == WsOpening::Resumed {
                conn: WsConn { sid, state: WsState::Reading },
                previous: stream,
            }
            &&& after.dom() == polling.dom()
            &&& after[sid].id == sid
            &&& after[sid].outbound == sink
            &&& after[sid].transport == Transport::WebSocketActive
            &&& after[sid].ping_interval == config.ping_interval
            &&& after[sid].ping_timeout == config.ping_timeout
        }),
{
    let polling = polled(sessions, sid, stream, config);
    let after = upgraded(polling, Some(sid), candidate, sink, config);
    assert(after.dom() =~= polling.dom());
}

/// An upgrade without a live session opens a new one under an id that no
/// session has, with one open packet that tells this id.
///
/// Such an upgrade is never taken up as `Resumed`. It is taken up as `Opened`
/// exactly when the proposed id is fresh; the open packet then holds that id,
/// the kind of the transport and the ping settings of the server, the id was
/// in no session before, and every session that was live stays as it was.
/// Where the proposed id is not fresh nothing is sent and nothing changes.
pub proof fn law_upgrade_opens_fresh_session<E>(
    sessions: Map<i64, Session<E>>,
    sid: Option<i64>,
    candidate: i64,
    sink: E,
    config: EngineIoConfig,
)
    requires
        !resumes(sessions, sid),
    ensures
        ({
            let opening = ws_opening(sessions, sid, candidate, sink, config);
            let after = upgraded(sessions, sid, candidate, sink, config);
            &&& !(opening is Resumed)
            &&& opening is Opened <==> is_fresh(sessions, candidate)
            &&& opening matches WsOpening::Opened { conn, open } ==> {
                &&& conn == WsConn { sid: candidate, state: WsState::Reading }
                &&& open == OpenPacket {
                    sid: candidate,
                    transport: TransportType::Websocket,
                    ping_interval: config.ping_interval,
                    ping_timeout: config.ping_timeout,
                }
                &&& candidate >= 0
                &&& !sessions.contains_key(candidate)
                &&& after.contains_key(candidate)
                &&& after[candidate] == Session::websocket(candidate, sink, config)
                &&& same_elsewhere(sessions, after, candidate)
            }
            &&& opening matches WsOpening::Refused { outbound } ==> outbound == sink && after
                == sessions
        }),
{
}

/// When a connection that reads is closed, its session is in the table no
/// more, and a send for it is accepted and reaches nobody.
///
/// This holds of a close by the peer, of a read that fails and of a text
/// message that is no packet, whether or not the session was live.
pub proof fn law_closed_connection_leaves_table<P, E>(
    sessions: Map<i64, Session<E>>,
    conn: WsConn,
    event: WsEvent<P>,
    decoded: Option<P>,
)
    requires
        conn.state == WsState::Reading,
        conn.sid >= 0,
        ends_connection(event),
    ensures
        ({
            let answer = ws_reaction(sessions, conn, event);
            let after = after_action(sessions, conn.sid, answer.action);
            &&& answer.action is Close
            &&& answer.next == WsState::Closed
            &&& !after.contains_key(conn.sid)
            &&& same_elsewhere(sessions, after, conn.sid)
            &&& send_reply(after, Some(conn.sid)) == SendReply::Accepted {
                sid: conn.sid,
                live: false,
            }
            &&& send_reply(after, Some(conn.sid)).status() == STATUS_OK
            &&& delivered(after, conn.sid, decoded) is None
        }),
{
}

/// A packet on a connection whose session is live goes to the application
/// and leaves the table as it is, and so does the word of an application that
/// lets the connection go on.
///
/// These are the two steps that `exchange` repeats: with them the order in
/// which the application sees the packets of a connection is the order of
/// `law_packets_arrive_in_order`, for as long as the session is live.
pub proof fn law_packet_steps_keep_table<P, E>(
    sessions: Map<i64, Session<E>>,
    sid: i64,
    packet: P,
    ok: bool,
)
    requires
        sessions.contains_key(sid),
    ensures
        ({
            let reading = WsConn { sid, state: WsState::Reading };
            let handed = ws_reaction(sessions, reading, WsEvent::Message(Inbound::Packet(packet)));
            let awaiting = WsConn { sid, state: handed.next };
            let done = ws_reaction(
                sessions,
                awaiting,
                WsEvent::<P>::PacketHandled(Handled::Continue { ok }),
            );
            &&& handed.action == WsAction::HandlePacket(packet)
            &&& handed.next == WsState::AwaitingPacket
            &&& after_action(sessions, sid, handed.action) == sessions
            &&& done.action == WsAction::<P>::Read
            &&& done.next == WsState::Reading
            &&& after_action(sessions, sid, done.action) == sessions
        }),
{
}

/// What is done for one session leaves every other session as it was.
///
/// A poll, an upgrade that resumes, an upgrade that opens and a step of a
/// read loop change the table under one id at most: the id of the poll, the
/// id that the upgrade names, the id proposed for the new session, the id of
/// the connection. A send changes nothing.
pub proof fn law_sessions_do_not_interfere<P, E>(
    sessions: Map<i64, Session<E>>,
    sid: i64,
    outbound: E,
    candidate: i64,
    action: WsAction<P>,
    config: EngineIoConfig,
)
    ensures
        same_elsewhere(sessions, polled(sessions, sid, outbound, config), sid),
        resumes(sessions, Some(sid)) ==> same_elsewhere(
            sessions,
            upgraded(sessions, Some(sid), candidate, outbound, config),
            sid,
        ),
        !resumes(sessions, Some(sid)) ==> same_elsewhere(
            sessions,
            upgraded(sessions, Some(sid), candidate, outbound, config),
            candidate,
        ),
        same_elsewhere(sessions, after_action(sessions, sid, action), sid),
{
}

/// Two polls for different sessions give the same table in either order.
pub proof fn law_polls_commute<E>(
    sessions: Map<i64, Session<E>>,
    a: i64,
    to_a: E,
    b: i64,
    to_b: E,
    config: EngineIoConfig,
)
    requires
        a != b,
    ensures
        polled(polled(sessions, a, to_a, config), b, to_b, config) == polled(
            polled(sessions, b, to_b, config),
            a,
            to_a,
            config,
        ),
        poll_reply(polled(sessions, a, to_a, config), Some(b), to_b) == poll_reply(
            sessions,
            Some(b),
            to_b,
        ),
{
    assert(polled(polled(sessions, a, to_a, config), b, to_b, config) =~= polled(
        polled(sessions, b, to_b, config),
        a,
        to_a,
        config,
    ));
}

/// Every step keeps the table well keyed: each session stands under its own
/// id, and no id is negative.
pub proof fn law_steps_keep_table_well_keyed<P, E>(
    sessions: Map<i64, Session<E>>,
    sid: i64,
    named: Option<i64>,
    outbound: E,
    candidate: i64,
    action: WsAction<P>,
    config: EngineIoConfig,
)
    requires
        well_keyed(sessions),
        sid >= 0,
    ensures
        well_keyed(polled(sessions, sid, outbound, config)),
        well_keyed(upgraded(sessions, named, candidate, outbound, config)),
        well_keyed(after_action(sessions, sid, action)),
{
}

} // verus!
