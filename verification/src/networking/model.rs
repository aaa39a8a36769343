//! The network layer as a mathematical value, and what each operation makes
//! of it.

use crate::error::Error;
use crate::error::Res;
use crate::hexadecimal::hex_encoded;
use crate::networking::abstraction::NetworkOutputView;
use crate::networking::abstraction::NetworkTaskView;
use crate::networking::abstraction::OutboundView;
use crate::networking::abstraction::TransportView;
use crate::networking::contact::ContactView;
use crate::networking::identity::parsed_node_id;
use crate::networking::identity::NodeId;
use crate::networking::packet::PacketType;
use crate::networking::packet::PacketView;
use vstd::prelude::*;
use vstd::utf8::decode_utf8;
use vstd::utf8::encode_utf8;
use vstd::utf8::valid_utf8;

verus! {

/// The identity that the payload of an `Address` packet declares: the
/// payload has to be text, and the text that of an identity.
pub open spec fn declared_identity(payload: Seq<u8>) -> Option<NodeId> {
    if valid_utf8(payload) {
        parsed_node_id(decode_utf8(payload))
    } else {
        None
    }
}

/// The name that the payload of a `Username` packet announces, if the
/// payload is text.
pub open spec fn announced_name(content: Result<Seq<u8>, Error>) -> Option<Seq<char>> {
    match content {
        Ok(payload) => if valid_utf8(payload) {
            Some(decode_utf8(payload))
        } else {
            None
        },
        Err(_) => None,
    }
}

/// The contact for a peer of which only the identity is known.
pub open spec fn new_contact(peer: NodeId) -> ContactView {
    ContactView { server_address: peer, username: None }
}

/// What the network layer knows.
pub struct NetworkView {
    /// The peers with which a conversation exists, in the order in which
    /// the conversations began.
    pub peers: Seq<NodeId>,
    /// The packets of each conversation, oldest first.
    pub conversations: Map<NodeId, Seq<PacketView>>,
    /// For the identity of each inbound connection that has announced
    /// itself, the identity under which that peer listens.
    pub client_to_server: Map<NodeId, NodeId>,
    /// The identity under which this node listens.
    pub local: NodeId,
    /// The name of this node's user, once it is set.
    pub username: Option<Seq<char>>,
}

impl NetworkView {
    /// What holds of every state: each peer has one conversation, a
    /// packet in a conversation is the peer's or this node's own, and a
    /// connection that has announced itself belongs to a peer with a
    /// conversation.
    pub open spec fn wf(self) -> bool {
        &&& self.peers.no_duplicates()
        &&& forall|peer: NodeId|
            self.conversations.contains_key(peer) <==> self.peers.contains(peer)
        &&& forall|peer: NodeId, i: int|
            self.conversations.contains_key(peer) && 0 <= i < self.conversations[peer].len() ==> {
                let author = (#[trigger] self.conversations[peer][i]).author;
                author == peer || author == self.local
            }
        &&& forall|raw: NodeId| #[trigger]
            self.client_to_server.contains_key(raw) ==> self.conversations.contains_key(
                self.client_to_server[raw],
            )
    }

    /// The state before anything has happened.
    pub open spec fn initial(local: NodeId, username: Option<Seq<char>>) -> NetworkView {
        NetworkView {
            peers: Seq::empty(),
            conversations: Map::empty(),
            client_to_server: Map::empty(),
            local,
            username,
        }
    }

    /// The state in which a conversation with `peer` has begun with the
    /// packets `log`.
    pub open spec fn opened(self, peer: NodeId, log: Seq<PacketView>) -> NetworkView {
        NetworkView {
            peers: self.peers.push(peer),
            conversations: self.conversations.insert(peer, log),
            ..self
        }
    }

    /// The state in which `packet` has joined the conversation with `peer`.
    pub open spec fn logged(self, peer: NodeId, packet: PacketView) -> NetworkView {
        NetworkView {
            conversations: self.conversations.insert(peer, self.conversations[peer].push(packet)),
            ..self
        }
    }

    /// The state in which the inbound connection `raw` is known to come
    /// from the peer that listens as `declared`.
    pub open spec fn resolved(self, raw: NodeId, declared: NodeId) -> NetworkView {
        NetworkView { client_to_server: self.client_to_server.insert(raw, declared), ..self }
    }

    /// The packet that this node writes into a conversation for a payload
    /// that it sends.
    pub open spec fn own_packet(self, payload: Seq<u8>, packet_type: PacketType) -> PacketView {
        PacketView { author: self.local, content: Ok(payload), packet_type }
    }

    /// The packets by which this node introduces itself to `peer`: its
    /// identity as text, and its name if it has one.
    pub open spec fn handshake(self, peer: NodeId) -> Seq<OutboundView> {
        let address = OutboundView {
            peer,
            payload: encode_utf8(hex_encoded(self.local@)),
            packet_type: PacketType::Address,
        };
        match self.username {
            Some(name) => seq![
                address,
                OutboundView { peer, payload: encode_utf8(name), packet_type: PacketType::Username },
            ],
            None => seq![address],
        }
    }

    /// The identity that an inbound packet declares for a connection that
    /// has not announced itself yet.
    pub open spec fn announcement(self, packet: PacketView) -> Option<NodeId> {
        if self.client_to_server.contains_key(packet.author) {
            None
        } else if packet.packet_type == PacketType::Address && packet.content is Ok {
            declared_identity(packet.content->Ok_0)
        } else {
            None
        }
    }

    /// The peer to which a connection has to be made before `packet` is
    /// taken in: the one that the packet announces, unless a conversation
    /// with it exists already.
    pub open spec fn handshake_target(self, packet: PacketView) -> Option<NodeId> {
        match self.announcement(packet) {
            Some(declared) => if self.conversations.contains_key(declared) {
                None
            } else {
                Some(declared)
            },
            None => None,
        }
    }

    /// The state after `packet` has come in, where `connected` is the
    /// outcome of the connection attempt that `handshake_target` asked for.
    ///
    /// A chat message from a connection that has announced itself joins the
    /// conversation with its peer. An announcement makes the connection
    /// known once its peer has a conversation: the one that exists, or one
    /// that begins now that the connection attempt has succeeded. Where the
    /// attempt failed nothing changes, so that the peer can announce itself
    /// again.
    pub open spec fn after_message(self, packet: PacketView, connected: Res<()>) -> NetworkView {
        if self.client_to_server.contains_key(packet.author) {
            let author = self.client_to_server[packet.author];
            if packet.packet_type == PacketType::String && self.conversations.contains_key(author) {
                self.logged(author, PacketView { author, ..packet })
            } else {
                self
            }
        } else {
            match self.announcement(packet) {
                Some(declared) => {
                    if self.conversations.contains_key(declared) {
                        self.resolved(packet.author, declared)
                    } else if connected is Err {
                        self
                    } else {
                        self.opened(declared, Seq::empty()).resolved(packet.author, declared)
                    }
                },
                None => self,
            }
        }
    }

    /// What taking in `packet` reports.
    pub open spec fn message_output(self, packet: PacketView, connected: Res<()>) -> Result<
        Option<NetworkOutputView>,
        Error,
    > {
        if self.client_to_server.contains_key(packet.author) {
            let author = self.client_to_server[packet.author];
            if packet.packet_type == PacketType::Username {
                match announced_name(packet.content) {
                    Some(name) => Ok(Some(NetworkOutputView::ContactName(author, name))),
                    None => Ok(None),
                }
            } else {
                Ok(None)
            }
        } else {
            match self.announcement(packet) {
                Some(declared) => {
                    if !self.conversations.contains_key(declared) && connected is Err {
                        Err(connected->Err_0)
                    } else {
                        Ok(Some(NetworkOutputView::AddChat(new_contact(declared))))
                    }
                },
                None => Ok(None),
            }
        }
    }

    /// The packets to send after `packet` has been taken in.
    pub open spec fn message_replies(self, packet: PacketView, connected: Res<()>) -> Seq<
        OutboundView,
    > {
        match self.announcement(packet) {
            Some(declared) => {
                if !self.conversations.contains_key(declared) && connected is Err {
                    Seq::empty()
                } else {
                    self.handshake(declared)
                }
            },
            None => Seq::empty(),
        }
    }

    /// The reports that an inbound packet causes, in order: what taking it
    /// in reports, a failure as one that the loop survives, and then the
    /// packet itself if it is a chat message from a peer that has announced
    /// itself, under the identity that the peer announced.
    pub open spec fn inbound_events(self, packet: PacketView, connected: Res<()>) -> Seq<
        NetworkOutputView,
    > {
        let first = match self.message_output(packet, connected) {
            Ok(Some(output)) => seq![output],
            Ok(None) => Seq::empty(),
            Err(error) => seq![NetworkOutputView::NonFatalError(error)],
        };
        if packet.packet_type == PacketType::String && self.client_to_server.contains_key(
            packet.author,
        ) {
            first.push(
                NetworkOutputView::AddPacket(
                    PacketView { author: self.client_to_server[packet.author], ..packet },
                ),
            )
        } else {
            first
        }
    }

    /// The calls on the transport that sending to `recipient` takes: where
    /// no conversation exists, a connection attempt and then this node's
    /// introduction; in either case the send of the packet itself.
    pub open spec fn send_transport(
        self,
        recipient: NodeId,
        payload: Seq<u8>,
        packet_type: PacketType,
    ) -> TransportView {
        let send = OutboundView { peer: recipient, payload, packet_type };
        if self.conversations.contains_key(recipient) {
            TransportView { connect: None, introduce: Seq::empty(), send }
        } else {
            TransportView { connect: Some(recipient), introduce: self.handshake(recipient), send }
        }
    }

    /// The state after sending to `recipient`, where `connected` is the
    /// outcome of the connection attempt, if `send_transport` asked for
    /// one, and `sent` that of the send of the packet.
    ///
    /// A connection that stands begins the conversation, whatever becomes
    /// of the send; the packet joins the conversation only if it was sent.
    pub open spec fn after_send(
        self,
        recipient: NodeId,
        payload: Seq<u8>,
        packet_type: PacketType,
        connected: Res<()>,
        sent: Res<()>,
    ) -> NetworkView {
        if self.conversations.contains_key(recipient) {
            if sent is Ok {
                self.logged(recipient, self.own_packet(payload, packet_type))
            } else {
                self
            }
        } else if connected is Err {
            self
        } else {
            let begun = self.opened(recipient, Seq::empty());
            if sent is Ok {
                begun.logged(recipient, self.own_packet(payload, packet_type))
            } else {
                begun
            }
        }
    }

    /// What sending to `recipient` returns: the failure of the connection
    /// attempt or of the send, or else the recipient if the conversation
    /// with it is new.
    pub open spec fn send_output(self, recipient: NodeId, connected: Res<()>, sent: Res<()>) -> Result<
        Option<NodeId>,
        Error,
    > {
        if self.conversations.contains_key(recipient) {
            match sent {
                Err(error) => Err(error),
                Ok(_) => Ok(None),
            }
        } else {
            match connected {
                Err(error) => Err(error),
                Ok(_) => match sent {
                    Err(error) => Err(error),
                    Ok(_) => Ok(Some(recipient)),
                },
            }
        }
    }

    /// One `Username` packet with the name for each peer, in the order in
    /// which the conversations began.
    pub open spec fn name_broadcast(self, name: Seq<char>) -> Seq<OutboundView> {
        self.peers.map_values(
            |peer: NodeId|
                OutboundView { peer, payload: encode_utf8(name), packet_type: PacketType::Username },
        )
    }

    /// The calls on the transport that `task` takes, if any.
    pub open spec fn task_transport(self, task: NetworkTaskView) -> Option<TransportView> {
        match task {
            NetworkTaskView::SendMessage(recipient, payload, packet_type) => Some(
                self.send_transport(recipient, payload, packet_type),
            ),
            _ => None,
        }
    }

    /// The state after `task`.
    pub open spec fn after_task(
        self,
        task: NetworkTaskView,
        connected: Res<()>,
        sent: Res<()>,
    ) -> NetworkView {
        match task {
            NetworkTaskView::RequestConversation(_) => self,
            NetworkTaskView::SendMessage(recipient, payload, packet_type) => self.after_send(
                recipient,
                payload,
                packet_type,
                connected,
                sent,
            ),
            NetworkTaskView::SetUsername(name) => NetworkView { username: Some(name), ..self },
        }
    }

    /// The reports that `task` causes, in order.
    pub open spec fn task_events(
        self,
        task: NetworkTaskView,
        connected: Res<()>,
        sent: Res<()>,
    ) -> Seq<NetworkOutputView> {
        match task {
            NetworkTaskView::RequestConversation(peer) => if self.conversations.contains_key(
                peer,
            ) {
                seq![NetworkOutputView::ConversationRecord(self.conversations[peer])]
            } else {
                seq![NetworkOutputView::NonFatalError(Error::NoSuchClient)]
            },
            NetworkTaskView::SendMessage(recipient, payload, packet_type) => {
                let echo = NetworkOutputView::AddPacket(self.own_packet(payload, packet_type));
                match self.send_output(recipient, connected, sent) {
                    Ok(Some(peer)) => seq![NetworkOutputView::AddChat(new_contact(peer)), echo],
                    Ok(None) => seq![echo],
                    Err(error) => seq![NetworkOutputView::NonFatalError(error)],
                }
            },
            NetworkTaskView::SetUsername(_) => Seq::empty(),
        }
    }

    /// The packets to send after `task`, without regard to whether they
    /// arrive: the announcements of a new name.
    pub open spec fn task_replies(self, task: NetworkTaskView) -> Seq<OutboundView> {
        match task {
            NetworkTaskView::SetUsername(name) => self.name_broadcast(name),
            _ => Seq::empty(),
        }
    }

    /// Whether `later` holds all that `self` holds: every conversation,
    /// with its packets at the front of what it holds now, the peers in
    /// the same order, and every announced identity.
    pub open spec fn grown_into(self, later: NetworkView) -> bool {
        &&& self.local == later.local
        &&& self.peers.is_prefix_of(later.peers)
        &&& forall|peer: NodeId| #[trigger]
            self.conversations.contains_key(peer) ==> later.conversations.contains_key(peer)
                && self.conversations[peer].is_prefix_of(later.conversations[peer])
        &&& forall|raw: NodeId| #[trigger]
            self.client_to_server.contains_key(raw) ==> later.client_to_server.contains_key(raw)
                && later.client_to_server[raw] == self.client_to_server[raw]
    }
}

} // verus!
