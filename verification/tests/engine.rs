use engineio_server::config::EngineIoConfig;
use engineio_server::engine::{
    EngineIo, PollReply, SendReply, UpgradeReply, WsConn, WsOpening, STATUS_BAD_REQUEST,
    STATUS_OK, STATUS_SERVER_ERROR, STATUS_SWITCHING_PROTOCOLS,
};
use engineio_server::registry::SessionRegistry;
use engineio_server::session::{OpenPacket, Session, Transport, TransportType};
use engineio_server::ws::{Fault, Handled, Inbound, WsAction, WsEvent, WsState};

fn engine() -> EngineIo<&'static str> {
    EngineIo::from_config(EngineIoConfig::default())
}

fn custom() -> EngineIoConfig {
    EngineIoConfig {
        req_path: "/eio".to_string(),
        ping_interval: 25000,
        ping_timeout: 20000,
    }
}

#[test]
fn new_engine_has_no_sessions_and_keeps_its_config() {
    let e: EngineIo<u8> = EngineIo::from_config(custom());
    assert_eq!(e.session_count(), 0);
    assert!(!e.is_live(0));
    assert_eq!(e.config.req_path, "/eio");
    assert_eq!(e.config.ping_interval, 25000);
    assert_eq!(e.config.ping_timeout, 20000);
}

#[test]
fn poll_registers_a_pending_polling_session() {
    let mut e: EngineIo<&'static str> = EngineIo::from_config(custom());
    let reply = e.on_polling_req("/engine.io/?sid=42", "stream");
    assert_eq!(reply, PollReply::Streaming { sid: 42, closed: None });
    assert_eq!(reply.status_code(), 200);
    assert_eq!(e.session_count(), 1);
    assert_eq!(
        e.session(42),
        Some(&Session {
            id: 42,
            transport: Transport::PollingPending,
            outbound: "stream",
            ping_interval: 25000,
            ping_timeout: 20000,
        })
    );
}

#[test]
fn poll_without_sid_is_a_bad_request() {
    let mut e = engine();
    let reply = e.on_polling_req("/engine.io/", "stream");
    assert_eq!(reply, PollReply::BadRequest { outbound: "stream" });
    assert_eq!(reply.status_code(), STATUS_BAD_REQUEST);
    assert_eq!(reply.status_code(), 400);
    assert_eq!(e.session_count(), 0);
    let reply = e.on_polling_req("/engine.io/?sid=abc", "stream");
    assert_eq!(reply, PollReply::BadRequest { outbound: "stream" });
    assert_eq!(e.session_count(), 0);
}

#[test]
fn poll_with_negative_sid_is_a_bad_request() {
    let mut e = engine();
    assert_eq!(e.poll(Some(-1), "s"), PollReply::BadRequest { outbound: "s" });
    assert_eq!(e.poll(None, "s"), PollReply::BadRequest { outbound: "s" });
    assert_eq!(e.on_polling_req("/?sid=-1", "s"), PollReply::BadRequest { outbound: "s" });
    assert_eq!(e.session_count(), 0);
}

#[test]
fn second_poll_closes_the_first_and_leaves_one_session() {
    let mut e = engine();
    assert_eq!(e.poll(Some(7), "first").status_code(), STATUS_OK);
    let reply = e.poll(Some(7), "second");
    assert_eq!(
        reply,
        PollReply::Streaming {
            sid: 7,
            closed: Some(Session {
                id: 7,
                transport: Transport::PollingPending,
                outbound: "first",
                ping_interval: 300,
                ping_timeout: 200,
            }),
        }
    );
    assert_eq!(e.session_count(), 1);
    assert_eq!(e.session(7).map(|s| s.outbound), Some("second"));
    assert_eq!(e.session(7).map(|s| s.transport), Some(Transport::PollingPending));
}

#[test]
fn polls_for_distinct_ids_do_not_interfere() {
    let mut e = engine();
    e.poll(Some(1), "a");
    e.poll(Some(2), "b");
    assert_eq!(e.session_count(), 2);
    let reply = e.poll(Some(2), "b2");
    assert!(matches!(reply, PollReply::Streaming { sid: 2, closed: Some(_) }));
    assert_eq!(e.session(1).map(|s| s.outbound), Some("a"));
    assert_eq!(e.session(2).map(|s| s.outbound), Some("b2"));
    e.close_session(2);
    assert_eq!(e.session(1).map(|s| s.outbound), Some("a"));
    assert_eq!(e.session(1).map(|s| s.id), Some(1));

    let mut other = engine();
    other.poll(Some(2), "b");
    other.poll(Some(1), "a");
    assert_eq!(other.session(1), engine_with(1, "a").session(1));
    assert_eq!(other.session(2).map(|s| s.outbound), Some("b"));
}

fn engine_with(sid: i64, outbound: &'static str) -> EngineIo<&'static str> {
    let mut e = engine();
    e.poll(Some(sid), outbound);
    e
}

#[test]
fn send_is_accepted_whether_or_not_the_session_lives() {
    let e = engine_with(5, "stream");
    let live = e.on_send_packet_req("/engine.io/?sid=5");
    assert_eq!(live, SendReply::Accepted { sid: 5, live: true });
    assert_eq!(live.status_code(), 200);
    let gone = e.on_send_packet_req("/engine.io/?sid=6");
    assert_eq!(gone, SendReply::Accepted { sid: 6, live: false });
    assert_eq!(gone.status_code(), 200);
    assert_eq!(e.session_count(), 1);
}

#[test]
fn send_without_sid_is_a_bad_request() {
    let e = engine_with(5, "stream");
    assert_eq!(e.on_send_packet_req("/engine.io/"), SendReply::BadRequest);
    assert_eq!(e.on_send_packet_req("/engine.io/?sid=x").status_code(), 400);
    assert_eq!(e.send(None), SendReply::BadRequest);
    assert_eq!(e.send(Some(-3)), SendReply::BadRequest);
}

#[test]
fn payload_of_a_send_reaches_the_application_of_a_live_session_only() {
    let e = engine_with(5, "stream");
    assert_eq!(e.on_send_packet(5, Some("packet")), Some("packet"));
    assert_eq!(e.on_send_packet(6, Some("packet")), None);
    assert_eq!(e.on_send_packet::<&str>(5, None), None);
    assert_eq!(e.on_send_packet::<&str>(6, None), None);
    assert_eq!(e.session_count(), 1);
    assert!(e.is_live(5));
}

#[test]
fn upgrade_request_without_key_is_a_server_error() {
    let e = engine();
    let headers = http::HeaderMap::new();
    let reply = e.upgrade_ws_req("/engine.io/?sid=1", &headers);
    assert_eq!(reply, UpgradeReply::ServerError);
    assert_eq!(reply.status_code(), STATUS_SERVER_ERROR);
    assert_eq!(reply.status_code(), 500);
    assert_eq!(e.upgrade(None, Some(1)), UpgradeReply::ServerError);
}

#[test]
fn upgrade_request_with_key_switches_protocols() {
    let e = engine();
    let mut headers = http::HeaderMap::new();
    headers.insert("Sec-WebSocket-Key", http::HeaderValue::from_static("abc"));
    let reply = e.upgrade_ws_req("/engine.io/?sid=12", &headers);
    assert_eq!(
        reply,
        UpgradeReply::SwitchingProtocols { key: b"abc".to_vec(), sid: Some(12) }
    );
    assert_eq!(reply.status_code(), STATUS_SWITCHING_PROTOCOLS);
    assert_eq!(reply.status_code(), 101);
    let reply = e.upgrade_ws_req("/engine.io/", &headers);
    assert_eq!(reply, UpgradeReply::SwitchingProtocols { key: b"abc".to_vec(), sid: None });
    assert_eq!(
        e.upgrade(Some(vec![1, 2]), Some(-4)),
        UpgradeReply::SwitchingProtocols { key: vec![1, 2], sid: None }
    );
}

#[test]
fn upgrade_of_a_polled_session_keeps_its_id_and_sends_no_open_packet() {
    let mut e: EngineIo<&'static str> = EngineIo::from_config(custom());
    e.poll(Some(9), "stream");
    e.config.ping_interval = 1;
    let opening = e.on_ws_conn_upgrade(Some(9), 1000, "sink");
    assert_eq!(
        opening,
        WsOpening::Resumed {
            conn: WsConn { sid: 9, state: WsState::Reading },
            previous: "stream",
        }
    );
    assert_eq!(e.session_count(), 1);
    assert!(!e.is_live(1000));
    assert_eq!(
        e.session(9),
        Some(&Session {
            id: 9,
            transport: Transport::WebSocketActive,
            outbound: "sink",
            ping_interval: 25000,
            ping_timeout: 20000,
        })
    );
}

#[test]
fn upgrade_without_sid_opens_a_session_under_the_fresh_id() {
    let mut e: EngineIo<&'static str> = EngineIo::from_config(custom());
    e.poll(Some(9), "stream");
    let opening = e.on_ws_conn_upgrade(None, 1000, "sink");
    assert_eq!(
        opening,
        WsOpening::Opened {
            conn: WsConn { sid: 1000, state: WsState::Reading },
            open: OpenPacket {
                sid: 1000,
                transport: TransportType::Websocket,
                ping_interval: 25000,
                ping_timeout: 20000,
            },
        }
    );
    assert_eq!(e.session_count(), 2);
    assert_eq!(
        e.session(1000),
        Some(&Session {
            id: 1000,
            transport: Transport::WebSocketActive,
            outbound: "sink",
            ping_interval: 25000,
            ping_timeout: 20000,
        })
    );
    assert_eq!(e.session(9).map(|s| s.outbound), Some("stream"));
}

#[test]
fn upgrade_with_unknown_sid_is_as_without_sid() {
    let mut e = engine();
    let opening = e.on_ws_conn_upgrade(Some(55), 3, "sink");
    assert_eq!(
        opening,
        WsOpening::Opened {
            conn: WsConn { sid: 3, state: WsState::Reading },
            open: OpenPacket {
                sid: 3,
                transport: TransportType::Websocket,
                ping_interval: 300,
                ping_timeout: 200,
            },
        }
    );
    assert!(!e.is_live(55));
    assert!(e.is_live(3));
}

#[test]
fn upgrade_refuses_an_id_that_is_taken_or_negative() {
    let mut e = engine_with(9, "stream");
    assert_eq!(
        e.on_ws_conn_upgrade(None, 9, "sink"),
        WsOpening::Refused { outbound: "sink" }
    );
    assert_eq!(
        e.on_ws_conn_upgrade(Some(4), -1, "sink"),
        WsOpening::Refused { outbound: "sink" }
    );
    assert_eq!(e.session_count(), 1);
    assert_eq!(e.session(9).map(|s| s.outbound), Some("stream"));
    assert_eq!(e.session(9).map(|s| s.transport), Some(Transport::PollingPending));
    assert!(matches!(e.on_ws_conn_upgrade(None, i64::MAX, "sink"), WsOpening::Opened { .. }));
    assert!(matches!(e.on_ws_conn_upgrade(None, 0, "sink"), WsOpening::Opened { .. }));
}

fn opened(e: &mut EngineIo<&'static str>, sid: i64) -> WsConn {
    match e.on_ws_conn_upgrade(None, sid, "sink") {
        WsOpening::Opened { conn, .. } => conn,
        other => panic!("not opened: {:?}", other),
    }
}

#[test]
fn packets_of_a_connection_are_handed_over_in_order_once_each() {
    let mut e = engine();
    let mut conn = opened(&mut e, 1);
    let mut seen = Vec::new();
    for n in 0..50u32 {
        let step = e.on_ws_event(&mut conn, WsEvent::Message(Inbound::Packet(n)));
        assert_eq!(conn.state, WsState::AwaitingPacket);
        assert_eq!(step.fault, None);
        assert_eq!(step.closed, None);
        match step.action {
            WsAction::HandlePacket(p) => seen.push(p),
            other => panic!("not handed over: {:?}", other),
        }
        let step = e.on_ws_event::<u32>(
            &mut conn,
            WsEvent::PacketHandled(Handled::Continue { ok: n % 2 == 0 }),
        );
        assert_eq!(step.action, WsAction::Read);
        assert_eq!(step.fault, if n % 2 == 0 { None } else { Some(Fault::Handler) });
        assert_eq!(conn.state, WsState::Reading);
    }
    assert_eq!(seen, (0..50u32).collect::<Vec<u32>>());
    assert!(e.is_live(1));
}

#[test]
fn no_second_packet_is_handed_over_while_one_is_held() {
    let mut e = engine();
    let mut conn = opened(&mut e, 1);
    let step = e.on_ws_event(&mut conn, WsEvent::Message(Inbound::Packet("a")));
    assert_eq!(step.action, WsAction::HandlePacket("a"));
    let step = e.on_ws_event(&mut conn, WsEvent::Message(Inbound::Packet("b")));
    assert_eq!(step.action, WsAction::Trap);
    assert_eq!(step.fault, Some(Fault::OutOfTurn));
    assert_eq!(conn.state, WsState::AwaitingPacket);
    assert!(e.is_live(1));
}

#[test]
fn peer_close_removes_the_session() {
    let mut e = engine();
    let mut conn = opened(&mut e, 8);
    let step = e.on_ws_event::<u32>(&mut conn, WsEvent::Message(Inbound::Close));
    assert_eq!(step.action, WsAction::Close);
    assert_eq!(step.fault, None);
    assert_eq!(step.closed.map(|s| (s.id, s.outbound)), Some((8, "sink")));
    assert_eq!(conn, WsConn { sid: 8, state: WsState::Closed });
    assert!(!e.is_live(8));
    assert_eq!(e.on_send_packet_req("/?sid=8"), SendReply::Accepted { sid: 8, live: false });
    assert_eq!(e.on_send_packet_req("/?sid=8").status_code(), 200);
    assert_eq!(e.on_send_packet(8, Some(1u32)), None);
}

#[test]
fn read_failure_removes_the_session() {
    let mut e = engine();
    let mut conn = opened(&mut e, 8);
    let step = e.on_ws_event::<u32>(&mut conn, WsEvent::ReadFailed);
    assert_eq!(step.action, WsAction::Close);
    assert_eq!(step.fault, None);
    assert!(step.closed.is_some());
    assert!(!e.is_live(8));
    assert_eq!(e.send(Some(8)), SendReply::Accepted { sid: 8, live: false });
}

#[test]
fn malformed_text_is_fatal_to_the_connection() {
    let mut e = engine();
    e.poll(Some(3), "other");
    let mut conn = opened(&mut e, 8);
    let step = e.on_ws_event::<u32>(&mut conn, WsEvent::Message(Inbound::Malformed));
    assert_eq!(step.action, WsAction::Close);
    assert_eq!(step.fault, Some(Fault::Decode));
    assert_eq!(step.closed.map(|s| s.id), Some(8));
    assert_eq!(conn.state, WsState::Closed);
    assert!(!e.is_live(8));
    assert!(e.is_live(3));
    assert_eq!(e.send(Some(8)).status_code(), 200);
}

#[test]
fn binary_failure_is_not_fatal() {
    let mut e = engine();
    let mut conn = opened(&mut e, 8);
    let step = e.on_ws_event::<u32>(&mut conn, WsEvent::Message(Inbound::Binary(vec![1, 2, 3])));
    assert_eq!(step.action, WsAction::HandleBinary(vec![1, 2, 3]));
    assert_eq!(conn.state, WsState::AwaitingBinary);
    let step = e.on_ws_event::<u32>(&mut conn, WsEvent::BinaryHandled { ok: false });
    assert_eq!(step.action, WsAction::Read);
    assert_eq!(step.fault, Some(Fault::Binary));
    assert_eq!(conn.state, WsState::Reading);
    assert!(e.is_live(8));
    let step = e.on_ws_event::<u32>(&mut conn, WsEvent::Message(Inbound::Binary(vec![])));
    assert_eq!(step.action, WsAction::HandleBinary(vec![]));
    let step = e.on_ws_event::<u32>(&mut conn, WsEvent::BinaryHandled { ok: true });
    assert_eq!(step.action, WsAction::Read);
    assert_eq!(step.fault, None);
}

#[test]
fn handler_break_ends_the_connection() {
    let mut e = engine();
    let mut conn = opened(&mut e, 8);
    e.on_ws_event(&mut conn, WsEvent::Message(Inbound::Packet(1u8)));
    let step = e.on_ws_event::<u8>(&mut conn, WsEvent::PacketHandled(Handled::Break { ok: true }));
    assert_eq!(step.action, WsAction::Close);
    assert_eq!(step.fault, None);
    assert!(!e.is_live(8));

    let mut conn = opened(&mut e, 9);
    e.on_ws_event(&mut conn, WsEvent::Message(Inbound::Packet(1u8)));
    let step = e.on_ws_event::<u8>(&mut conn, WsEvent::PacketHandled(Handled::Break { ok: false }));
    assert_eq!(step.action, WsAction::Close);
    assert_eq!(step.fault, Some(Fault::Handler));
    assert!(!e.is_live(9));
}

#[test]
fn control_frames_are_trapped_and_change_nothing() {
    let mut e = engine();
    let mut conn = opened(&mut e, 8);
    for message in [Inbound::<u8>::Ping, Inbound::Pong, Inbound::Frame] {
        let step = e.on_ws_event(&mut conn, WsEvent::Message(message));
        assert_eq!(step.action, WsAction::Trap);
        assert_eq!(step.fault, Some(Fault::ControlFrame));
        assert_eq!(step.closed, None);
        assert_eq!(conn.state, WsState::Reading);
        assert!(e.is_live(8));
    }
}

#[test]
fn idle_read_goes_on_reading() {
    let mut e = engine();
    let mut conn = opened(&mut e, 8);
    let step = e.on_ws_event::<u8>(&mut conn, WsEvent::ReadIdle);
    assert_eq!(step.action, WsAction::Read);
    assert_eq!(step.fault, None);
    assert_eq!(conn.state, WsState::Reading);
    assert!(e.is_live(8));
}

#[test]
fn message_for_a_session_that_is_gone_ends_the_loop() {
    let mut e = engine();
    let mut conn = opened(&mut e, 8);
    assert!(e.close_session(8).is_some());
    let step = e.on_ws_event(&mut conn, WsEvent::Message(Inbound::Packet(1u8)));
    assert_eq!(step.action, WsAction::Close);
    assert_eq!(step.fault, Some(Fault::SessionGone));
    assert_eq!(step.closed, None);
    assert_eq!(conn.state, WsState::Closed);
}

#[test]
fn closed_loop_traps_every_event_and_removes_nothing() {
    let mut e = engine();
    let mut conn = opened(&mut e, 8);
    e.on_ws_event::<u8>(&mut conn, WsEvent::ReadFailed);
    e.poll(Some(8), "again");
    let step = e.on_ws_event::<u8>(&mut conn, WsEvent::Message(Inbound::Close));
    assert_eq!(step.action, WsAction::Trap);
    assert_eq!(step.fault, Some(Fault::OutOfTurn));
    assert_eq!(step.closed, None);
    assert!(e.is_live(8));
}

#[test]
fn close_session_is_idempotent() {
    let mut e = engine_with(4, "stream");
    assert_eq!(e.close_session(4).map(|s| s.outbound), Some("stream"));
    assert_eq!(e.close_session(4), None);
    assert_eq!(e.close_session(4), None);
    assert_eq!(e.session_count(), 0);
}

#[test]
fn registry_follows_its_contract() {
    let config = EngineIoConfig::default();
    let mut r: SessionRegistry<u8> = SessionRegistry::new();
    assert_eq!(r.len(), 0);
    assert_eq!(r.get(1), None);
    assert_eq!(r.create_or_replace(Session::new_http(1, 10, &config)), None);
    assert!(r.contains(1));
    assert_eq!(r.update_transport(2, 20), Err(20));
    assert_eq!(r.len(), 1);
    assert_eq!(r.update_transport(1, 11), Ok(10));
    assert_eq!(r.get(1).map(|s| (s.id, s.transport, s.outbound)), Some((1, Transport::WebSocketActive, 11)));
    let old = r.create_or_replace(Session::new_ws(1, 12, &config));
    assert_eq!(old.map(|s| s.outbound), Some(11));
    assert_eq!(r.len(), 1);
    assert_eq!(r.remove_and_close(1).map(|s| s.outbound), Some(12));
    assert_eq!(r.remove_and_close(1), None);
    assert_eq!(r.len(), 0);
}

#[test]
fn session_constructors_take_the_ping_settings() {
    let config = custom();
    let s = Session::new_http(3, 'a', &config);
    assert_eq!(
        s,
        Session { id: 3, transport: Transport::PollingPending, outbound: 'a', ping_interval: 25000, ping_timeout: 20000 }
    );
    let (moved, previous) = s.upgrade_from_http('b');
    assert_eq!(previous, 'a');
    assert_eq!(
        moved,
        Session { id: 3, transport: Transport::WebSocketActive, outbound: 'b', ping_interval: 25000, ping_timeout: 20000 }
    );
    assert_eq!(
        OpenPacket::new(TransportType::Polling, 3, &config),
        OpenPacket { sid: 3, transport: TransportType::Polling, ping_interval: 25000, ping_timeout: 20000 }
    );
}
