//! The read loop of a WebSocket connection, as a state machine.
//!
//! The loop itself runs outside this crate: it reads a message, hands a
//! packet to the application and waits for it. After each of these it tells
//! the machine what happened, as a `WsEvent`, and does what the machine
//! answers, as a `WsAction`. The machine never answers with a second packet
//! while the application still holds one, so the application sees the packets
//! of a connection one at a time and in the order in which they came.

use vstd::prelude::*;

verus! {

/// Where the read loop of a connection stands.
#[derive(Debug, Clone, Copy, PartialEq, Eq, Structural)]
pub enum WsState {
    /// The loop waits for the next message of the peer.
    Reading,
    /// The application holds a packet; the loop waits for it.
    AwaitingPacket,
    /// The application holds a binary payload; the loop waits for it.
    AwaitingBinary,
    /// The loop is over.
    Closed,
}

/// One message of the peer, as the loop read it.
#[derive(Debug, PartialEq, Eq)]
pub enum Inbound<P> {
    /// A text message that the codec read as the packet `P`.
    Packet(P),
    /// A text message that the codec could not read.
    Malformed,
    /// A binary message; its payload is not looked into.
    Binary(Vec<u8>),
    /// A ping of the transport. The transport answers these itself and hands
    /// none to the loop.
    Ping,
    /// A pong of the transport; as `Ping`.
    Pong,
    /// A raw frame of the transport; as `Ping`.
    Frame,
    /// The close message of the peer.
    Close,
}

/// How the application left a packet.
#[derive(Debug, Clone, Copy, PartialEq, Eq, Structural)]
pub enum Handled {
    /// The connection goes on; `ok` is false where the application failed.
    Continue { ok: bool },
    /// The connection ends; `ok` is false where the application failed.
    Break { ok: bool },
}

/// What the loop tells the machine.
#[derive(Debug, PartialEq, Eq)]
pub enum WsEvent<P> {
    /// Reading failed: the peer is gone.
    ReadFailed,
    /// Reading gave no message.
    ReadIdle,
    /// Reading gave a message.
    Message(Inbound<P>),
    /// The application is done with the packet it was handed.
    PacketHandled(Handled),
    /// The application is done with the binary payload it was handed; `ok`
    /// is false where it failed.
    BinaryHandled { ok: bool },
}

/// What the machine tells the loop to do next.
#[derive(Debug, PartialEq, Eq)]
pub enum WsAction<P> {
    /// Read the next message.
    Read,
    /// Hand the packet to the application, then report `PacketHandled`.
    HandlePacket(P),
    /// Hand the payload to the application, then report `BinaryHandled`.
    HandleBinary(Vec<u8>),
    /// Leave the loop and close the session.
    Close,
    /// The event must not occur where the machine stands. Nothing changed;
    /// it is for the loop to stop there or to go on as before.
    Trap,
}

/// What went wrong on the way to an action, for the loop to report.
#[derive(Debug, Clone, Copy, PartialEq, Eq, Structural)]
pub enum Fault {
    /// A text message was no packet. This ends the connection.
    Decode,
    /// The application failed on a packet.
    Handler,
    /// The application failed on a binary payload. The connection goes on.
    Binary,
    /// A message came for a session that is live no more.
    SessionGone,
    /// The transport handed the loop one of its own frames.
    ControlFrame,
    /// The loop reported what it was not asked for.
    OutOfTurn,
}

/// The answer of the machine to one event.
#[derive(Debug, PartialEq, Eq)]
pub struct Reaction<P> {
    /// Where the loop stands after the event.
    pub next: WsState,
    /// What the loop does next.
    pub action: WsAction<P>,
    /// What the loop reports, if anything.
    pub fault: Option<Fault>,
}

/// The fault of an application that did not succeed.
pub open spec fn fault_unless(ok: bool, fault: Fault) -> Option<Fault> {
    if ok {
        None
    } else {
        Some(fault)
    }
}

/// The answer of the machine in `state` to `event`, where `live` says whether
/// the session of the connection is in the table.
pub open spec fn reaction<P>(state: WsState, live: bool, event: WsEvent<P>) -> Reaction<P> {
    match state {
        WsState::Reading => match event {
            WsEvent::ReadFailed => Reaction {
                next: WsState::Closed,
                action: WsAction::Close,
                fault: None,
            },
            WsEvent::ReadIdle => Reaction {
                next: WsState::Reading,
                action: WsAction::Read,
                fault: None,
            },
            WsEvent::Message(Inbound::Close) => Reaction {
                next: WsState::Closed,
                action: WsAction::Close,
                fault: None,
            },
            WsEvent::Message(Inbound::Malformed) => Reaction {
                next: WsState::Closed,
                action: WsAction::Close,
                fault: Some(Fault::Decode),
            },
            WsEvent::Message(Inbound::Packet(packet)) => if live {
                Reaction {
                    next: WsState::AwaitingPacket,
                    action: WsAction::HandlePacket(packet),
                    fault: None,
                }
            } else {
                Reaction {
                    next: WsState::Closed,
                    action: WsAction::Close,
                    fault: Some(Fault::SessionGone),
                }
            },
            WsEvent::Message(Inbound::Binary(payload)) => if live {
                Reaction {
                    next: WsState::AwaitingBinary,
                    action: WsAction::HandleBinary(payload),
                    fault: None,
                }
            } else {
                Reaction {
                    next: WsState::Closed,
                    action: WsAction::Close,
                    fault: Some(Fault::SessionGone),
                }
            },
            WsEvent::Message(_) => Reaction {
                next: WsState::Reading,
                action: WsAction::Trap,
                fault: Some(Fault::ControlFrame),
            },
            _ => Reaction {
                next: WsState::Reading,
                action: WsAction::Trap,
                fault: Some(Fault::OutOfTurn),
            },
        },
        WsState::AwaitingPacket => match event {
            WsEvent::PacketHandled(Handled::Continue { ok }) => Reaction {
                next: WsState::Reading,
                action: WsAction::Read,
                fault: fault_unless(ok, Fault::Handler),
            },
            WsEvent::PacketHandled(Handled::Break { ok }) => Reaction {
                next: WsState::Closed,
                action: WsAction::Close,
                fault: fault_unless(ok, Fault::Handler),
            },
            _ => Reaction {
                next: WsState::AwaitingPacket,
                action: WsAction::Trap,
                fault: Some(Fault::OutOfTurn),
            },
        },
        WsState::AwaitingBinary => match event {
            WsEvent::BinaryHandled { ok } => Reaction {
                next: WsState::Reading,
                action: WsAction::Read,
                fault: fault_unless(ok, Fault::Binary),
            },
            _ => Reaction {
                next: WsState::AwaitingBinary,
                action: WsAction::Trap,
                fault: Some(Fault::OutOfTurn),
            },
        },
        WsState::Closed => Reaction {
            next: WsState::Closed,
            action: WsAction::Trap,
            fault: Some(Fault::OutOfTurn),
        },
    }
}

/// Builds a reaction.
fn answer<P>(next: WsState, action: WsAction<P>, fault: Option<Fault>) -> (r: Reaction<P>)
    ensures
        r == (Reaction { next, action, fault }),
{
    Reaction { next, action, fault }
}

/// Reports `fault` where `ok` is false.
fn unless(ok: bool, fault: Fault) -> (reported: Option<Fault>)
    ensures
        reported == fault_unless(ok, fault),
{
    if ok {
        None
    } else {
        Some(fault)
    }
}

/// Answers one event of the read loop.
///
/// `state` is where the loop stands and `live` whether the session of the
/// connection is in the table. The answer holds where the loop stands
/// afterwards and what it does next.
pub fn react<P>(state: WsState, live: bool, event: WsEvent<P>) -> (r: Reaction<P>)
    ensures
        r == reaction(state, live, event),
{
    match state {
        WsState::Reading => match event {
            WsEvent::ReadFailed => answer(WsState::Closed, WsAction::Close, None),
            WsEvent::ReadIdle => answer(WsState::Reading, WsAction::Read, None),
            WsEvent::Message(message) => match message {
                Inbound::Close => answer(WsState::Closed, WsAction::Close, None),
                Inbound::Malformed => answer(
                    WsState::Closed,
                    WsAction::Close,
                    Some(Fault::Decode),
                ),
                Inbound::Packet(packet) => if live {
                    answer(WsState::AwaitingPacket, WsAction::HandlePacket(packet), None)
                } else {
                    answer(WsState::Closed, WsAction::Close, Some(Fault::SessionGone))
                },
                Inbound::Binary(payload) => if live {
                    answer(WsState::AwaitingBinary, WsAction::HandleBinary(payload), None)
                } else {
                    answer(WsState::Closed, WsAction::Close, Some(Fault::SessionGone))
                },
                Inbound::Ping | Inbound::Pong | Inbound::Frame => answer(
                    WsState::Reading,
                    WsAction::Trap,
                    Some(Fault::ControlFrame),
                ),
            },
            WsEvent::PacketHandled(_) | WsEvent::BinaryHandled { .. } => answer(
                WsState::Reading,
                WsAction::Trap,
                Some(Fault::OutOfTurn),
            ),
        },
        WsState::AwaitingPacket => match event {
            WsEvent::PacketHandled(Handled::Continue { ok }) => answer(
                WsState::Reading,
                WsAction::Read,
                unless(ok, Fault::Handler),
            ),
            WsEvent::PacketHandled(Handled::Break { ok }) => answer(
                WsState::Closed,
                WsAction::Close,
                unless(ok, Fault::Handler),
            ),
            _ => answer(WsState::AwaitingPacket, WsAction::Trap, Some(Fault::OutOfTurn)),
        },
        WsState::AwaitingBinary => match event {
            WsEvent::BinaryHandled { ok } => answer(
                WsState::Reading,
                WsAction::Read,
                unless(ok, Fault::Binary),
            ),
            _ => answer(WsState::AwaitingBinary, WsAction::Trap, Some(Fault::OutOfTurn)),
        },
        WsState::Closed => answer(WsState::Closed, WsAction::Trap, Some(Fault::OutOfTurn)),
    }
}

/// What the loop is told to do, event after event, when it starts in `state`
/// and reports `events` in turn, while `live` says whether its session is in
/// the table.
pub open spec fn actions_of<P>(state: WsState, live: bool, events: Seq<WsEvent<P>>) -> Seq<
    WsAction<P>,
>
    decreases events.len(),
{
    if events.len() == 0 {
        Seq::empty()
    } else {
        let first = reaction(state, live, events[0]);
        seq![first.action] + actions_of(first.next, live, events.skip(1))
    }
}

/// Where the loop stands after it reported `events` in turn.
pub open spec fn state_after<P>(state: WsState, live: bool, events: Seq<WsEvent<P>>) -> WsState
    decreases events.len(),
{
    if events.len() == 0 {
        state
    } else {
        state_after(reaction(state, live, events[0]).next, live, events.skip(1))
    }
}

/// The packets that `actions` hand to the application, in their order.
pub open spec fn packets_handed<P>(actions: Seq<WsAction<P>>) -> Seq<P>
    decreases actions.len(),
{
    if actions.len() == 0 {
        Seq::empty()
    } else {
        let rest = packets_handed(actions.skip(1));
        match actions[0] {
            WsAction::HandlePacket(packet) => seq![packet] + rest,
            _ => rest,
        }
    }
}

/// What a loop reports while the peer sends the well-formed `packets` one
/// after the other and the application lets the connection go on after each:
/// for each packet the message that holds it, then the word of the
/// application, which succeeded on the packet at `i` where `oks[i]` is true.
pub open spec fn exchange<P>(packets: Seq<P>, oks: Seq<bool>) -> Seq<WsEvent<P>>
    decreases packets.len(),
{
    if packets.len() == 0 || oks.len() == 0 {
        Seq::empty()
    } else {
        seq![
            WsEvent::Message(Inbound::Packet(packets[0])),
            WsEvent::PacketHandled(Handled::Continue { ok: oks[0] }),
        ] + exchange(packets.skip(1), oks.skip(1))
    }
}

/// The packets of one connection reach the application in the order in which
/// they were sent, each of them once.
///
/// A loop that reads and whose session is live, fed with well-formed packets
/// that the application lets pass, hands the application exactly these
/// packets in their order, and reads again afterwards.
pub proof fn law_packets_arrive_in_order<P>(packets: Seq<P>, oks: Seq<bool>)
    requires
        oks.len() == packets.len(),
    ensures
        packets_handed(actions_of(WsState::Reading, true, exchange(packets, oks))) == packets,
        state_after(WsState::Reading, true, exchange(packets, oks)) == WsState::Reading,
    decreases packets.len(),
{
    let events = exchange(packets, oks);
    if packets.len() == 0 {
        assert(packets_handed(actions_of(WsState::Reading, true, events)) =~= packets);
    } else {
        let rest = exchange(packets.skip(1), oks.skip(1));
        law_packets_arrive_in_order(packets.skip(1), oks.skip(1));
        let after_message = events.skip(1);
        assert(after_message.skip(1) =~= rest);
        assert(events[0] == WsEvent::Message(Inbound::Packet(packets[0])));
        assert(after_message[0] == WsEvent::<P>::PacketHandled(Handled::Continue { ok: oks[0] }));
        let tail_actions = actions_of(WsState::Reading, true, rest);
        let second_actions = actions_of(WsState::AwaitingPacket, true, after_message);
        assert(second_actions == seq![WsAction::<P>::Read] + tail_actions);
        let all_actions = actions_of(WsState::Reading, true, events);
        assert(all_actions == seq![WsAction::HandlePacket(packets[0])] + second_actions);
        assert(all_actions.skip(1) =~= second_actions);
        assert(second_actions.skip(1) =~= tail_actions);
        assert(packets_handed(second_actions) == packets_handed(tail_actions));
        assert(packets_handed(all_actions) == seq![packets[0]] + packets_handed(second_actions));
        assert(seq![packets[0]] + packets.skip(1) =~= packets);
        assert(state_after(WsState::AwaitingPacket, true, after_message) == state_after(
            WsState::Reading,
            true,
            rest,
        ));
        assert(state_after(WsState::Reading, true, events) == state_after(
            WsState::AwaitingPacket,
            true,
            after_message,
        ));
    }
}

} // verus!
