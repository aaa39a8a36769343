//! What holds of the network layer whatever happens to it.

use crate::error::Error;
use crate::error::Res;
use crate::hexadecimal::hex_encoded;
use crate::networking::abstraction::NetworkOutputView;
use crate::networking::abstraction::NetworkTaskView;
use crate::networking::abstraction::OutboundView;
use crate::networking::abstraction::TransportView;
use crate::networking::identity::parsed_node_id;
use crate::networking::identity::NodeId;
use crate::networking::model::declared_identity;
use crate::networking::model::new_contact;
use crate::networking::model::NetworkView;
use crate::networking::packet::PacketType;
use crate::networking::packet::PacketView;
use vstd::prelude::*;
use vstd::utf8::encode_utf8;

verus! {

/// The state before anything has happened is well formed.
pub proof fn law_initial_state(local: NodeId, username: Option<Seq<char>>)
    ensures
        NetworkView::initial(local, username).wf(),
{
}

/// An inbound packet leaves the state well formed and takes nothing away:
/// no conversation ends, no packet leaves a conversation or changes its
/// place, and no connection is forgotten or given to another peer.
pub proof fn law_message_keeps_state(state: NetworkView, packet: PacketView, connected: Res<()>)
    requires
        state.wf(),
    ensures
        state.after_message(packet, connected).wf(),
        state.grown_into(state.after_message(packet, connected)),
{
    let later = state.after_message(packet, connected);
    lemma_steps_keep_state(state);
    if state.client_to_server.contains_key(packet.author) {
        let author = state.client_to_server[packet.author];
        if packet.packet_type == PacketType::String && state.conversations.contains_key(author) {
            assert(later == state.logged(author, PacketView { author, ..packet }));
        }
    } else {
        match state.announcement(packet) {
            Some(declared) => {
                if state.conversations.contains_key(declared) {
                    assert(later == state.resolved(packet.author, declared));
                } else if connected is Ok {
                    let begun = state.opened(declared, Seq::empty());
                    lemma_steps_keep_state(begun);
                    assert(state.grown_into(begun));
                    assert(later == begun.resolved(packet.author, declared));
                    assert(begun.grown_into(later));
                }
            },
            None => {},
        }
    }
}

/// Sending leaves the state well formed and takes nothing away.
pub proof fn law_send_keeps_state(
    state: NetworkView,
    recipient: NodeId,
    payload: Seq<u8>,
    packet_type: PacketType,
    connected: Res<()>,
    sent: Res<()>,
)
    requires
        state.wf(),
    ensures
        state.after_send(recipient, payload, packet_type, connected, sent).wf(),
        state.grown_into(state.after_send(recipient, payload, packet_type, connected, sent)),
{
    lemma_steps_keep_state(state);
    if !state.conversations.contains_key(recipient) && connected is Ok {
        let begun = state.opened(recipient, Seq::empty());
        lemma_steps_keep_state(begun);
        assert(state.grown_into(begun));
        if sent is Ok {
            let last = begun.logged(recipient, state.own_packet(payload, packet_type));
            assert(begun.grown_into(last));
        }
    }
}

/// A request leaves the state well formed and takes nothing away.
pub proof fn law_task_keeps_state(
    state: NetworkView,
    task: NetworkTaskView,
    connected: Res<()>,
    sent: Res<()>,
)
    requires
        state.wf(),
    ensures
        state.after_task(task, connected, sent).wf(),
        state.grown_into(state.after_task(task, connected, sent)),
{
    match task {
        NetworkTaskView::SendMessage(recipient, payload, packet_type) => {
            law_send_keeps_state(state, recipient, payload, packet_type, connected, sent);
        },
        _ => {},
    }
}

/// Each of the three steps from which the operations are made leaves a
/// well-formed state well formed and takes nothing away.
proof fn lemma_steps_keep_state(state: NetworkView)
    requires
        state.wf(),
    ensures
        state.grown_into(state),
        forall|raw: NodeId, declared: NodeId|
            !state.client_to_server.contains_key(raw) && state.conversations.contains_key(
                declared,
            ) ==> (#[trigger] state.resolved(raw, declared)).wf() && state.grown_into(
                state.resolved(raw, declared),
            ),
        forall|peer: NodeId, log: Seq<PacketView>|
            !state.conversations.contains_key(peer) && (forall|i: int|
                0 <= i < log.len() ==> (#[trigger] log[i]).author == peer || log[i].author
                    == state.local) ==> (#[trigger] state.opened(peer, log)).wf()
                && state.grown_into(state.opened(peer, log)),
        forall|peer: NodeId, packet: PacketView|
            state.conversations.contains_key(peer) && (packet.author == peer || packet.author
                == state.local) ==> (#[trigger] state.logged(peer, packet)).wf()
                && state.grown_into(state.logged(peer, packet)),
{
    assert forall|peer: NodeId, log: Seq<PacketView>|
        !state.conversations.contains_key(peer) && (forall|i: int|
            0 <= i < log.len() ==> (#[trigger] log[i]).author == peer || log[i].author
                == state.local) implies (#[trigger] state.opened(peer, log)).wf()
        && state.grown_into(state.opened(peer, log)) by {
        let later = state.opened(peer, log);
        assert forall|other: NodeId|
            later.conversations.contains_key(other) <==> later.peers.contains(other) by {
            if state.peers.contains(other) {
                let i = choose|i: int| 0 <= i < state.peers.len() && state.peers[i] == other;
                assert(later.peers[i] == other);
            }
            assert(later.peers[later.peers.len() - 1] == peer);
            if later.peers.contains(other) && other != peer {
                let i = choose|i: int| 0 <= i < later.peers.len() && later.peers[i] == other;
                assert(state.peers[i] == other);
            }
        }
        assert forall|i: int, j: int| 0 <= i < j < later.peers.len() implies later.peers[i]
            != later.peers[j] by {
            if j == later.peers.len() - 1 {
                assert(state.peers[i] == later.peers[i]);
                assert(state.peers.contains(later.peers[i]));
            }
        }
    }
    assert forall|peer: NodeId, packet: PacketView|
        state.conversations.contains_key(peer) && (packet.author == peer || packet.author
            == state.local) implies (#[trigger] state.logged(peer, packet)).wf()
        && state.grown_into(state.logged(peer, packet)) by {
        let later = state.logged(peer, packet);
        assert forall|other: NodeId, i: int|
            later.conversations.contains_key(other) && 0 <= i < later.conversations[other].len() implies {
            let author = (#[trigger] later.conversations[other][i]).author;
            author == other || author == later.local
        } by {
            if other != peer || i < state.conversations[peer].len() {
                assert(later.conversations[other][i] == state.conversations[other][i]);
            }
        }
    }
}

/// Handshake resolution: when a connection that has not announced itself
/// declares an identity, the connection is known to belong to that peer,
/// and, the connection attempt having succeeded, that peer has a
/// conversation, and only one. A chat message that comes over the
/// connection afterwards is reported and kept under the declared identity.
pub proof fn law_handshake_resolution(
    state: NetworkView,
    raw: NodeId,
    declared: NodeId,
    address: Seq<u8>,
    message: Seq<u8>,
    later_outcome: Res<()>,
)
    requires
        state.wf(),
        !state.client_to_server.contains_key(raw),
        declared_identity(address) == Some(declared),
    ensures
        ({
            let announcement = PacketView {
                author: raw,
                content: Ok(address),
                packet_type: PacketType::Address,
            };
            let chat = PacketView {
                author: raw,
                content: Ok(message),
                packet_type: PacketType::String,
            };
            let kept = PacketView { author: declared, ..chat };
            let known = state.after_message(announcement, Ok(()));
            let last = known.after_message(chat, later_outcome);
            &&& known.wf()
            &&& known.client_to_server[raw] == declared
            &&& known.conversations.contains_key(declared)
            &&& forall|i: int, j: int|
                0 <= i < known.peers.len() && 0 <= j < known.peers.len() && known.peers[i]
                    == declared && known.peers[j] == declared ==> i == j
            &&& !state.conversations.contains_key(declared) ==> known.peers == state.peers.push(
                declared,
            )
            &&& state.conversations.contains_key(declared) ==> known.peers == state.peers
            &&& state.inbound_events(announcement, Ok(())) == seq![
                NetworkOutputView::AddChat(new_contact(declared)),
            ]
            &&& state.message_replies(announcement, Ok(())) == state.handshake(declared)
            &&& known.inbound_events(chat, later_outcome) == seq![
                NetworkOutputView::AddPacket(kept),
            ]
            &&& last.conversations[declared] == known.conversations[declared].push(kept)
            &&& last.peers == known.peers
        }),
{
    let announcement = PacketView {
        author: raw,
        content: Ok(address),
        packet_type: PacketType::Address,
    };
    let chat = PacketView { author: raw, content: Ok(message), packet_type: PacketType::String };
    law_message_keeps_state(state, announcement, Ok(()));
    let known = state.after_message(announcement, Ok(()));
    assert(state.announcement(announcement) == Some(declared));
    assert(known.client_to_server.contains_key(raw));
    assert(known.announcement(chat) is None);
    assert(state.inbound_events(announcement, Ok(())) =~= seq![
        NetworkOutputView::AddChat(new_contact(declared)),
    ]);
    assert(known.inbound_events(chat, later_outcome) =~= seq![
        NetworkOutputView::AddPacket(PacketView { author: declared, ..chat }),
    ]);
}

/// A failed connection attempt on an announcement leaves no trace: the
/// state is as it was, the failure is the one report, nothing is sent, and
/// the same announcement asks for the connection again.
pub proof fn law_failed_handshake_changes_nothing(
    state: NetworkView,
    raw: NodeId,
    declared: NodeId,
    address: Seq<u8>,
    failure: Error,
)
    requires
        state.wf(),
        !state.client_to_server.contains_key(raw),
        !state.conversations.contains_key(declared),
        declared_identity(address) == Some(declared),
    ensures
        ({
            let announcement = PacketView {
                author: raw,
                content: Ok(address),
                packet_type: PacketType::Address,
            };
            let later = state.after_message(announcement, Err(failure));
            &&& later == state
            &&& state.inbound_events(announcement, Err(failure)) == seq![
                NetworkOutputView::NonFatalError(failure),
            ]
            &&& state.message_replies(announcement, Err(failure)) == Seq::<OutboundView>::empty()
            &&& later.handshake_target(announcement) == Some(declared)
        }),
{
    let announcement = PacketView {
        author: raw,
        content: Ok(address),
        packet_type: PacketType::Address,
    };
    assert(state.announcement(announcement) == Some(declared));
    assert(state.inbound_events(announcement, Err(failure)) =~= seq![
        NetworkOutputView::NonFatalError(failure),
    ]);
}

/// Whatever comes in, and whatever becomes of the connection attempt, a
/// connection that is known afterwards belongs to a peer with a
/// conversation.
pub proof fn law_known_connections_have_conversations(
    state: NetworkView,
    packet: PacketView,
    connected: Res<()>,
    raw: NodeId,
)
    requires
        state.wf(),
        state.after_message(packet, connected).client_to_server.contains_key(raw),
    ensures
        state.after_message(packet, connected).conversations.contains_key(
            state.after_message(packet, connected).client_to_server[raw],
        ),
{
    law_message_keeps_state(state, packet, connected);
}

/// Idempotent conversation creation: the first send to a peer without a
/// conversation asks for a connection and, once that stands, begins the
/// conversation, whatever becomes of the send; the second send asks for no
/// connection and begins no conversation, whatever becomes of it.
pub proof fn law_conversation_created_once(
    state: NetworkView,
    peer: NodeId,
    first: Seq<u8>,
    first_type: PacketType,
    first_sent: Res<()>,
    second: Seq<u8>,
    second_type: PacketType,
    second_connected: Res<()>,
    second_sent: Res<()>,
)
    requires
        state.wf(),
        !state.conversations.contains_key(peer),
    ensures
        ({
            let begun = state.after_send(peer, first, first_type, Ok(()), first_sent);
            let last = begun.after_send(peer, second, second_type, second_connected, second_sent);
            &&& state.send_transport(peer, first, first_type).connect == Some(peer)
            &&& begun.send_transport(peer, second, second_type).connect is None
            &&& begun.send_transport(peer, second, second_type).introduce == Seq::<
                OutboundView,
            >::empty()
            &&& begun.peers == state.peers.push(peer)
            &&& last.peers == begun.peers
            &&& last.wf()
            &&& forall|i: int, j: int|
                0 <= i < last.peers.len() && 0 <= j < last.peers.len() && last.peers[i] == peer
                    && last.peers[j] == peer ==> i == j
        }),
{
    let begun = state.after_send(peer, first, first_type, Ok(()), first_sent);
    law_send_keeps_state(state, peer, first, first_type, Ok(()), first_sent);
    law_send_keeps_state(begun, peer, second, second_type, second_connected, second_sent);
}

/// A send that fails is given back as the failure, whether the
/// conversation is new or not, and the packet is not kept. After a
/// connection that stood the conversation is there all the same, empty
/// where it is new, and the next send asks for no connection.
pub proof fn law_failed_send_is_returned(
    state: NetworkView,
    peer: NodeId,
    payload: Seq<u8>,
    packet_type: PacketType,
    failure: Error,
)
    requires
        state.wf(),
    ensures
        ({
            let later = state.after_send(peer, payload, packet_type, Ok(()), Err(failure));
            let task = NetworkTaskView::SendMessage(peer, payload, packet_type);
            &&& state.send_output(peer, Ok(()), Err(failure)) == Err::<Option<NodeId>, Error>(
                failure,
            )
            &&& state.task_events(task, Ok(()), Err(failure)) == seq![
                NetworkOutputView::NonFatalError(failure),
            ]
            &&& later.conversations.contains_key(peer)
            &&& later.conversations[peer] == if state.conversations.contains_key(peer) {
                state.conversations[peer]
            } else {
                Seq::<PacketView>::empty()
            }
            &&& later.send_transport(peer, payload, packet_type).connect is None
        }),
{
}

/// A connection attempt that fails is given back as the failure and
/// changes nothing, so that the next send asks for the connection again.
pub proof fn law_failed_connect_is_returned(
    state: NetworkView,
    peer: NodeId,
    payload: Seq<u8>,
    packet_type: PacketType,
    failure: Error,
    sent: Res<()>,
)
    requires
        state.wf(),
        !state.conversations.contains_key(peer),
    ensures
        ({
            let later = state.after_send(peer, payload, packet_type, Err(failure), sent);
            let task = NetworkTaskView::SendMessage(peer, payload, packet_type);
            &&& later == state
            &&& state.send_output(peer, Err(failure), sent) == Err::<Option<NodeId>, Error>(
                failure,
            )
            &&& state.task_events(task, Err(failure), sent) == seq![
                NetworkOutputView::NonFatalError(failure),
            ]
            &&& later.send_transport(peer, payload, packet_type).connect == Some(peer)
        }),
{
}

/// Broadcast fan-out: a new name is announced with one `Username` packet
/// for each conversation, each to another peer, whatever becomes of the
/// packets.
pub proof fn law_broadcast_fan_out(state: NetworkView, name: Seq<char>)
    requires
        state.wf(),
    ensures
        state.conversations.dom().finite(),
        state.name_broadcast(name).len() == state.conversations.dom().len(),
        forall|i: int|
            0 <= i < state.name_broadcast(name).len() ==> (#[trigger] state.name_broadcast(
                name,
            )[i]) == (OutboundView {
                peer: state.peers[i],
                payload: encode_utf8(name),
                packet_type: PacketType::Username,
            }),
        forall|i: int, j: int|
            0 <= i < j < state.name_broadcast(name).len() ==> state.name_broadcast(name)[i].peer
                != state.name_broadcast(name)[j].peer,
        state.task_replies(NetworkTaskView::SetUsername(name)) == state.name_broadcast(name),
{
    state.peers.unique_seq_to_set();
    assert(state.conversations.dom() =~= state.peers.to_set());
}

/// A first message to a peer takes a connection attempt, this node's
/// introduction and the send of the message, in this order; once it is
/// sent it is reported as a new chat and then as the packet that was sent,
/// under this node's own identity, and it is the one packet of the new
/// conversation.
pub proof fn law_first_message_reports(state: NetworkView, peer: NodeId, payload: Seq<u8>)
    requires
        state.wf(),
        !state.conversations.contains_key(peer),
    ensures
        ({
            let task = NetworkTaskView::SendMessage(peer, payload, PacketType::String);
            let own = PacketView {
                author: state.local,
                content: Ok(payload),
                packet_type: PacketType::String,
            };
            &&& state.task_transport(task) == Some(
                TransportView {
                    connect: Some(peer),
                    introduce: state.handshake(peer),
                    send: OutboundView { peer, payload, packet_type: PacketType::String },
                },
            )
            &&& state.task_events(task, Ok(()), Ok(())) == seq![
                NetworkOutputView::AddChat(new_contact(peer)),
                NetworkOutputView::AddPacket(own),
            ]
            &&& state.task_replies(task) == Seq::<OutboundView>::empty()
            &&& state.after_task(task, Ok(()), Ok(())).conversations[peer] == seq![own]
        }),
{
    let task = NetworkTaskView::SendMessage(peer, payload, PacketType::String);
    let own = state.own_packet(payload, PacketType::String);
    assert(state.after_task(task, Ok(()), Ok(())).conversations[peer] =~= seq![own]);
}

/// The peer that receives what a first message sends, over a connection
/// that it has not seen before, reports a new chat, then the sender's name,
/// then the message, all under the identity that the sender announced;
/// provided that the text of the sender's identity reads back as that
/// identity.
pub proof fn law_first_message_received(
    receiver: NetworkView,
    raw: NodeId,
    sender: NodeId,
    name: Seq<char>,
    payload: Seq<u8>,
    outcome: Res<()>,
)
    requires
        receiver.wf(),
        !receiver.client_to_server.contains_key(raw),
    ensures
        parsed_node_id(hex_encoded(sender@)) == Some(sender) ==> ({
            let address = PacketView {
                author: raw,
                content: Ok(encode_utf8(hex_encoded(sender@))),
                packet_type: PacketType::Address,
            };
            let username = PacketView {
                author: raw,
                content: Ok(encode_utf8(name)),
                packet_type: PacketType::Username,
            };
            let chat = PacketView {
                author: raw,
                content: Ok(payload),
                packet_type: PacketType::String,
            };
            let first = receiver.after_message(address, Ok(()));
            let second = first.after_message(username, outcome);
            &&& receiver.inbound_events(address, Ok(())) == seq![
                NetworkOutputView::AddChat(new_contact(sender)),
            ]
            &&& first.inbound_events(username, outcome) == seq![
                NetworkOutputView::ContactName(sender, name),
            ]
            &&& second.inbound_events(chat, outcome) == seq![
                NetworkOutputView::AddPacket(PacketView { author: sender, ..chat }),
            ]
        }),
{
    if parsed_node_id(hex_encoded(sender@)) == Some(sender) {
        let text = hex_encoded(sender@);
        vstd::utf8::encode_utf8_valid_utf8(text);
        vstd::utf8::encode_utf8_decode_utf8(text);
        vstd::utf8::encode_utf8_valid_utf8(name);
        vstd::utf8::encode_utf8_decode_utf8(name);
        assert(declared_identity(encode_utf8(text)) == Some(sender));
        let address = PacketView {
            author: raw,
            content: Ok(encode_utf8(text)),
            packet_type: PacketType::Address,
        };
        let username = PacketView {
            author: raw,
            content: Ok(encode_utf8(name)),
            packet_type: PacketType::Username,
        };
        let chat = PacketView {
            author: raw,
            content: Ok(payload),
            packet_type: PacketType::String,
        };
        let first = receiver.after_message(address, Ok(()));
        let second = first.after_message(username, outcome);
        assert(receiver.announcement(address) == Some(sender));
        assert(first.client_to_server.contains_key(raw));
        assert(first.client_to_server[raw] == sender);
        assert(second == first);
        assert(receiver.inbound_events(address, Ok(())) =~= seq![
            NetworkOutputView::AddChat(new_contact(sender)),
        ]);
        assert(first.inbound_events(username, outcome) =~= seq![
            NetworkOutputView::ContactName(sender, name),
        ]);
        assert(second.inbound_events(chat, outcome) =~= seq![
            NetworkOutputView::AddPacket(PacketView { author: sender, ..chat }),
        ]);
    }
}

/// A packet from a connection that has not announced itself, other than
/// an announcement, is dropped: nothing changes, nothing is reported and
/// nothing is sent.
pub proof fn law_unannounced_is_dropped(state: NetworkView, packet: PacketView, connected: Res<()>)
    requires
        !state.client_to_server.contains_key(packet.author),
        packet.packet_type != PacketType::Address,
    ensures
        state.after_message(packet, connected) == state,
        state.inbound_events(packet, connected) == Seq::<NetworkOutputView>::empty(),
        state.message_replies(packet, connected) == Seq::<OutboundView>::empty(),
{
}

} // verus!
