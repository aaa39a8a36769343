//! The state of the network layer and the decisions of its loop.
//!
//! Nothing here touches the network. Where an operation depends on a
//! connection attempt or on a send, the library names the calls, the
//! caller makes them and passes their outcomes in. Packets that are to be
//! sent without regard to whether they arrive come back as a list, to be
//! sent in order.

use crate::error::Error;
use crate::error::Res;
use crate::networking::contact::Contact;
use crate::networking::contact::ContactView;
use crate::networking::identity::NodeId;
use crate::networking::model::announced_name;
use crate::networking::model::declared_identity;
use crate::networking::model::NetworkView;
use crate::networking::packet::Packet;
use crate::networking::packet::PacketType;
use crate::networking::packet::PacketView;
use crate::text::name_view;
use crate::text::string_from_utf8;
use vstd::prelude::*;
use vstd::slice::slice_to_vec;

verus! {

/// A packet for the caller to send to `peer` over the connection that it
/// holds to that peer.
#[derive(Debug, PartialEq, Eq)]
pub struct Outbound {
    pub peer: NodeId,
    pub payload: Vec<u8>,
    pub packet_type: PacketType,
}

/// What an `Outbound` holds, with the payload as a sequence.
pub struct OutboundView {
    pub peer: NodeId,
    pub payload: Seq<u8>,
    pub packet_type: PacketType,
}

impl View for Outbound {
    type V = OutboundView;

    open spec fn view(&self) -> OutboundView {
        OutboundView { peer: self.peer, payload: self.payload@, packet_type: self.packet_type }
    }
}

impl DeepView for Outbound {
    type V = OutboundView;

    open spec fn deep_view(&self) -> OutboundView {
        self@
    }
}

/// The calls on the transport that an operation takes, for the caller to
/// make in this order before it hands the outcomes to the operation:
/// the connection attempt, if one is named; if that succeeded or none was
/// named, each packet of the introduction, without regard to whether it
/// arrives; and then the send, whose outcome counts.
#[derive(Debug, PartialEq, Eq)]
pub struct Transport {
    /// The peer to connect to, where no connection to it is kept yet. The
    /// connection is kept under the peer's identity.
    pub connect: Option<NodeId>,
    /// The packets by which this node introduces itself on a new
    /// connection.
    pub introduce: Vec<Outbound>,
    /// The packet to send.
    pub send: Outbound,
}

/// What a `Transport` holds.
pub struct TransportView {
    pub connect: Option<NodeId>,
    pub introduce: Seq<OutboundView>,
    pub send: OutboundView,
}

impl View for Transport {
    type V = TransportView;

    open spec fn view(&self) -> TransportView {
        TransportView {
            connect: self.connect,
            introduce: self.introduce.deep_view(),
            send: self.send@,
        }
    }
}

/// A request from the user interface to the network loop.
#[derive(Debug, PartialEq, Eq)]
pub enum NetworkTask {
    /// Report the conversation with the peer.
    RequestConversation(NodeId),
    /// Send the payload to the peer as a packet of the given kind.
    SendMessage(NodeId, Vec<u8>, PacketType),
    /// Take the name and announce it to every peer.
    SetUsername(String),
}

/// What a `NetworkTask` holds.
pub enum NetworkTaskView {
    RequestConversation(NodeId),
    SendMessage(NodeId, Seq<u8>, PacketType),
    SetUsername(Seq<char>),
}

impl View for NetworkTask {
    type V = NetworkTaskView;

    open spec fn view(&self) -> NetworkTaskView {
        match self {
            NetworkTask::RequestConversation(peer) => NetworkTaskView::RequestConversation(*peer),
            NetworkTask::SendMessage(peer, payload, packet_type) => NetworkTaskView::SendMessage(
                *peer,
                payload@,
                *packet_type,
            ),
            NetworkTask::SetUsername(name) => NetworkTaskView::SetUsername(name@),
        }
    }
}

impl Clone for NetworkTask {
    fn clone(&self) -> (copy: NetworkTask)
        ensures
            copy@ == self@,
    {
        match self {
            NetworkTask::RequestConversation(peer) => NetworkTask::RequestConversation(*peer),
            NetworkTask::SendMessage(peer, payload, packet_type) => NetworkTask::SendMessage(
                *peer,
                payload.clone(),
                *packet_type,
            ),
            NetworkTask::SetUsername(name) => NetworkTask::SetUsername(name.clone()),
        }
    }
}

/// A report from the network loop to the user interface.
#[derive(Debug, PartialEq, Eq)]
pub enum NetworkOutput {
    /// A packet joined a conversation.
    AddPacket(Packet),
    /// Something failed; the loop goes on.
    NonFatalError(Error),
    /// The conversation that was asked for.
    ConversationRecord(Vec<Packet>),
    /// A conversation with a new peer began.
    AddChat(Contact),
    /// The peer announced its name.
    ContactName(NodeId, String),
}

/// What a `NetworkOutput` holds.
pub enum NetworkOutputView {
    AddPacket(PacketView),
    NonFatalError(Error),
    ConversationRecord(Seq<PacketView>),
    AddChat(ContactView),
    ContactName(NodeId, Seq<char>),
}

impl View for NetworkOutput {
    type V = NetworkOutputView;

    open spec fn view(&self) -> NetworkOutputView {
        match self {
            NetworkOutput::AddPacket(packet) => NetworkOutputView::AddPacket(packet@),
            NetworkOutput::NonFatalError(error) => NetworkOutputView::NonFatalError(*error),
            NetworkOutput::ConversationRecord(packets) => NetworkOutputView::ConversationRecord(
                packets.deep_view(),
            ),
            NetworkOutput::AddChat(contact) => NetworkOutputView::AddChat(contact@),
            NetworkOutput::ContactName(peer, name) => NetworkOutputView::ContactName(*peer, name@),
        }
    }
}

impl DeepView for NetworkOutput {
    type V = NetworkOutputView;

    open spec fn deep_view(&self) -> NetworkOutputView {
        self@
    }
}

/// A copy of `packets`.
pub fn clone_packets(packets: &Vec<Packet>) -> (copy: Vec<Packet>)
    ensures
        copy.deep_view() == packets.deep_view(),
{
    let mut copy: Vec<Packet> = Vec::new();
    let mut i: usize = 0;
    while i < packets.len()
        invariant
            i <= packets.len(),
            copy.len() == i,
            forall|j: int| 0 <= j < i ==> copy[j]@ == packets[j]@,
        decreases packets.len() - i,
    {
        copy.push(packets[i].clone());
        i = i + 1;
    }
    assert(copy.deep_view() =~= packets.deep_view());
    copy
}

impl Clone for NetworkOutput {
    fn clone(&self) -> (copy: NetworkOutput)
        ensures
            copy@ == self@,
    {
        match self {
            NetworkOutput::AddPacket(packet) => NetworkOutput::AddPacket(packet.clone()),
            NetworkOutput::NonFatalError(error) => NetworkOutput::NonFatalError(*error),
            NetworkOutput::ConversationRecord(packets) => NetworkOutput::ConversationRecord(
                clone_packets(packets),
            ),
            NetworkOutput::AddChat(contact) => NetworkOutput::AddChat(contact.clone()),
            NetworkOutput::ContactName(peer, name) => NetworkOutput::ContactName(
                *peer,
                name.clone(),
            ),
        }
    }
}

/// What an operation reports, with the report taken by its view.
pub open spec fn reported(output: Res<Option<NetworkOutput>>) -> Result<
    Option<NetworkOutputView>,
    Error,
> {
    match output {
        Ok(Some(output)) => Ok(Some(output@)),
        Ok(None) => Ok(None),
        Err(error) => Err(error),
    }
}

/// The identity that a packet declares, if it is an `Address` packet whose
/// payload is the text of one.
fn declared(packet: &Packet) -> (id: Option<NodeId>)
    ensures
        id == if packet.packet_type == PacketType::Address && packet.content is Ok {
            declared_identity(packet.content->Ok_0@)
        } else {
            None
        },
{
    if packet.packet_type == PacketType::Address {
        match &packet.content {
            Ok(payload) => match string_from_utf8(payload.clone()) {
                Some(text) => NodeId::from_text(text.as_str()),
                None => None,
            },
            Err(_) => None,
        }
    } else {
        None
    }
}

/// The name that a `Username` packet with this content announces.
fn announced(content: Res<Vec<u8>>) -> (name: Option<String>)
    ensures
        name_view(name) == announced_name(
            match content {
                Ok(payload) => Ok(payload@),
                Err(error) => Err(error),
            },
        ),
{
    match content {
        Ok(payload) => string_from_utf8(payload),
        Err(_) => None,
    }
}

/// The conversation with one peer: every packet that was sent to it or
/// came from it, oldest first. The connection to the peer is the caller's
/// to hold, under the peer's identity.
#[derive(Debug)]
pub struct ForeignNode {
    peer: NodeId,
    conversation: Vec<Packet>,
}

/// The state of the network layer: the conversations, which inbound
/// connection belongs to which peer, and who this node is.
#[derive(Debug)]
pub struct Network {
    conversations: Vec<ForeignNode>,
    client_to_server: Vec<(NodeId, NodeId)>,
    local: NodeId,
    username: Option<String>,
}

/// Whether one of `nodes` is the conversation with `peer`.
spec fn holds(nodes: Seq<ForeignNode>, peer: NodeId) -> bool {
    exists|i: int| 0 <= i < nodes.len() && (#[trigger] nodes[i]).peer == peer
}

/// Where among `nodes` the conversation with `peer` stands.
spec fn place(nodes: Seq<ForeignNode>, peer: NodeId) -> int {
    choose|i: int| 0 <= i < nodes.len() && (#[trigger] nodes[i]).peer == peer
}

/// Whether `pairs` tell to which peer the connection `raw` belongs.
spec fn knows(pairs: Seq<(NodeId, NodeId)>, raw: NodeId) -> bool {
    exists|i: int| 0 <= i < pairs.len() && (#[trigger] pairs[i]).0 == raw
}

/// Where among `pairs` the connection `raw` stands.
spec fn entry(pairs: Seq<(NodeId, NodeId)>, raw: NodeId) -> int {
    choose|i: int| 0 <= i < pairs.len() && (#[trigger] pairs[i]).0 == raw
}

/// No peer has two conversations.
spec fn one_each(nodes: Seq<ForeignNode>) -> bool {
    forall|i: int, j: int|
        0 <= i < j < nodes.len() ==> (#[trigger] nodes[i]).peer != (#[trigger] nodes[j]).peer
}

/// No connection is told of twice.
spec fn told_once(pairs: Seq<(NodeId, NodeId)>) -> bool {
    forall|i: int, j: int|
        0 <= i < j < pairs.len() ==> (#[trigger] pairs[i]).0 != (#[trigger] pairs[j]).0
}

/// Every packet of every conversation is the peer's or this node's own.
spec fn authors_known(nodes: Seq<ForeignNode>, local: NodeId) -> bool {
    forall|i: int, k: int|
        0 <= i < nodes.len() && 0 <= k < nodes[i].conversation.len() ==> {
            let author = (#[trigger] nodes[i].conversation[k]).author;
            author == nodes[i].peer || author == local
        }
}

/// Every connection that is told of belongs to a peer with a conversation.
spec fn peers_held(pairs: Seq<(NodeId, NodeId)>, nodes: Seq<ForeignNode>) -> bool {
    forall|i: int| 0 <= i < pairs.len() ==> holds(nodes, (#[trigger] pairs[i]).1)
}

impl Network {
    /// What holds of every state that this library builds: no peer has two
    /// conversations, no connection is told of twice, every packet in a
    /// conversation is the peer's or this node's own, and every connection
    /// that is told of belongs to a peer with a conversation.
    pub closed spec fn wf(&self) -> bool {
        &&& one_each(self.conversations@)
        &&& told_once(self.client_to_server@)
        &&& authors_known(self.conversations@, self.local)
        &&& peers_held(self.client_to_server@, self.conversations@)
    }

    /// A well-formed state is one of which the laws of the network layer
    /// speak.
    pub proof fn lemma_wf(&self)
        requires
            self.wf(),
        ensures
            self@.wf(),
    {
        self.lemma_view();
    }

    /// What the network layer knows, as a mathematical value.
    pub closed spec fn view(&self) -> NetworkView {
        NetworkView {
            peers: Seq::new(self.conversations.len() as nat, |i: int| self.conversations[i].peer),
            conversations: Map::new(
                |peer: NodeId| holds(self.conversations@, peer),
                |peer: NodeId|
                    self.conversations[place(self.conversations@, peer)].conversation.deep_view(),
            ),
            client_to_server: Map::new(
                |raw: NodeId| knows(self.client_to_server@, raw),
                |raw: NodeId| self.client_to_server[entry(self.client_to_server@, raw)].1,
            ),
            local: self.local,
            username: name_view(self.username),
        }
    }

    /// What the view says of each conversation and of each connection.
    proof fn lemma_view(&self)
        requires
            self.wf(),
        ensures
            self@.wf(),
            self@.peers.len() == self.conversations.len(),
            forall|i: int|
                0 <= i < self.conversations.len() ==> {
                    &&& self@.peers[i] == (#[trigger] self.conversations[i]).peer
                    &&& self@.conversations.contains_key(self.conversations[i].peer)
                    &&& self@.conversations[self.conversations[i].peer]
                        == self.conversations[i].conversation.deep_view()
                },
            forall|peer: NodeId|
                self@.conversations.contains_key(peer) <==> holds(self.conversations@, peer),
            forall|i: int|
                0 <= i < self.client_to_server.len() ==> {
                    &&& self@.client_to_server.contains_key(
                        (#[trigger] self.client_to_server[i]).0,
                    )
                    &&& self@.client_to_server[self.client_to_server[i].0]
                        == self.client_to_server[i].1
                },
            forall|raw: NodeId|
                self@.client_to_server.contains_key(raw) <==> knows(self.client_to_server@, raw),
    {
        let nodes = self.conversations@;
        let pairs = self.client_to_server@;
        assert forall|i: int| 0 <= i < nodes.len() implies holds(nodes, (#[trigger] nodes[i]).peer)
            && place(nodes, nodes[i].peer) == i by {
            let j = place(nodes, nodes[i].peer);
            assert(nodes[j].peer == nodes[i].peer);
        }
        assert forall|i: int| 0 <= i < pairs.len() implies knows(pairs, (#[trigger] pairs[i]).0)
            && entry(pairs, pairs[i].0) == i by {
            let j = entry(pairs, pairs[i].0);
            assert(pairs[j].0 == pairs[i].0);
        }
        assert forall|peer: NodeId|
            self@.conversations.contains_key(peer) <==> self@.peers.contains(peer) by {
            if holds(nodes, peer) {
                let i = place(nodes, peer);
                assert(self@.peers[i] == peer);
            }
            if self@.peers.contains(peer) {
                let i = choose|i: int| 0 <= i < self@.peers.len() && self@.peers[i] == peer;
                assert(nodes[i].peer == peer);
            }
        }
        assert forall|peer: NodeId, k: int|
            self@.conversations.contains_key(peer) && 0 <= k < self@.conversations[peer].len() implies {
            let author = (#[trigger] self@.conversations[peer][k]).author;
            author == peer || author == self@.local
        } by {
            let i = place(nodes, peer);
            assert(nodes[i].conversation[k]@ == self@.conversations[peer][k]);
        }
        assert forall|i: int, j: int| 0 <= i < j < self@.peers.len() implies self@.peers[i]
            != self@.peers[j] by {
            assert(nodes[i].peer != nodes[j].peer);
        }
        assert forall|raw: NodeId| #[trigger]
            self@.client_to_server.contains_key(raw) implies self@.conversations.contains_key(
            self@.client_to_server[raw],
        ) by {
            let i = entry(pairs, raw);
            assert(holds(nodes, pairs[i].1));
        }
    }

    /// The state of a node that listens as `local` and has spoken to
    /// nobody yet.
    pub fn new(local: NodeId, username: Option<String>) -> (network: Network)
        ensures
            network.wf(),
            network@ == NetworkView::initial(local, name_view(username)),
            network@.wf(),
    {
        let network = Network {
            conversations: Vec::new(),
            client_to_server: Vec::new(),
            local,
            username,
        };
        proof {
            network.lemma_view();
            assert(network@.peers =~= Seq::<NodeId>::empty());
            assert(network@.conversations =~= Map::<NodeId, Seq<PacketView>>::empty());
            assert(network@.client_to_server =~= Map::<NodeId, NodeId>::empty());
        }
        network
    }

    /// Where the conversation with `peer` stands, if there is one.
    fn find_conversation(&self, peer: NodeId) -> (found: Option<usize>)
        requires
            self.wf(),
        ensures
            match found {
                Some(i) => i < self.conversations.len() && self.conversations[i as int].peer
                    == peer,
                None => !holds(self.conversations@, peer),
            },
            found is Some <==> self@.conversations.contains_key(peer),
    {
        proof {
            self.lemma_view();
        }
        let mut i: usize = 0;
        while i < self.conversations.len()
            invariant
                i <= self.conversations.len(),
                forall|j: int| 0 <= j < i ==> (#[trigger] self.conversations[j]).peer != peer,
            decreases self.conversations.len() - i,
        {
            if self.conversations[i].peer == peer {
                return Some(i);
            }
            i = i + 1;
        }
        None
    }

    /// The peer to which the inbound connection `raw` belongs, if it has
    /// announced itself.
    fn find_resolved(&self, raw: NodeId) -> (found: Option<NodeId>)
        requires
            self.wf(),
        ensures
            found is Some <==> self@.client_to_server.contains_key(raw),
            found is Some ==> found->Some_0 == self@.client_to_server[raw],
            found is None ==> !knows(self.client_to_server@, raw),
    {
        proof {
            self.lemma_view();
        }
        let mut i: usize = 0;
        while i < self.client_to_server.len()
            invariant
                self.wf(),
                i <= self.client_to_server.len(),
                forall|j: int| 0 <= j < i ==> (#[trigger] self.client_to_server[j]).0 != raw,
            decreases self.client_to_server.len() - i,
        {
            if self.client_to_server[i].0 == raw {
                proof {
                            self.lemma_view();
                }
                return Some(self.client_to_server[i].1);
            }
            i = i + 1;
        }
        None
    }

    /// Begins the conversation with `peer` with the packets `log`, and
    /// tells where it stands.
    fn open_conversation(&mut self, peer: NodeId, log: Vec<Packet>) -> (at: usize)
        requires
            old(self).wf(),
            !old(self)@.conversations.contains_key(peer),
            forall|k: int|
                0 <= k < log.len() ==> (#[trigger] log[k]).author == peer || log[k].author == old(
                    self,
                ).local,
        ensures
            final(self).wf(),
            final(self)@ == old(self)@.opened(peer, log.deep_view()),
            final(self)@.wf(),
            at < final(self).conversations.len(),
            final(self).conversations[at as int].peer == peer,
            final(self).local == old(self).local,
    {
        proof {
            self.lemma_view();
        }
        let ghost before = *self;
        let ghost entries = log.deep_view();
        let at = self.conversations.len();
        self.conversations.push(ForeignNode { peer, conversation: log });
        proof {
            let nodes = self.conversations@;
            let last = nodes.len() - 1;
            assert forall|i: int, j: int| 0 <= i < j < nodes.len() implies (#[trigger] nodes[i]).peer
                != (#[trigger] nodes[j]).peer by {
                if j == last {
                    assert(nodes[i] == before.conversations[i]);
                } else {
                    assert(nodes[i] == before.conversations[i]);
                    assert(nodes[j] == before.conversations[j]);
                }
            }
            assert forall|i: int, k: int|
                0 <= i < nodes.len() && 0 <= k < nodes[i].conversation.len() implies {
                let author = (#[trigger] nodes[i].conversation[k]).author;
                author == nodes[i].peer || author == self.local
            } by {
                if i < last {
                    assert(nodes[i] == before.conversations[i]);
                }
            }
            assert forall|i: int| 0 <= i < self.client_to_server.len() implies holds(
                nodes,
                (#[trigger] self.client_to_server[i]).1,
            ) by {
                let k = place(before.conversations@, self.client_to_server[i].1);
                assert(nodes[k] == before.conversations[k]);
            }
            self.lemma_view();
            assert(self@.peers =~= before@.peers.push(peer));
            assert(self@.client_to_server =~= before@.client_to_server);
            assert forall|other: NodeId| #[trigger]
                self@.conversations.contains_key(other) <==> (other == peer
                    || before@.conversations.contains_key(other)) by {
                if holds(nodes, other) {
                    let i = place(nodes, other);
                    if i < last {
                        assert(before.conversations[i].peer == other);
                    }
                }
                if holds(before.conversations@, other) {
                    let i = place(before.conversations@, other);
                    assert(nodes[i].peer == other);
                }
                assert(nodes[last].peer == peer);
            }
            assert forall|other: NodeId| #[trigger]
                self@.conversations.contains_key(other) implies self@.conversations[other]
                == before@.conversations.insert(peer, entries)[other] by {
                let i = place(nodes, other);
                assert(nodes[i].peer == other);
                if i < last {
                    assert(nodes[i] == before.conversations[i]);
                }
            }
            assert(self@.conversations =~= before@.conversations.insert(peer, entries));
        }
        at
    }

    /// Writes `packet` into the conversation that stands at `at`.
    fn log_packet(&mut self, at: usize, packet: Packet)
        requires
            old(self).wf(),
            at < old(self).conversations.len(),
            packet.author == old(self).conversations[at as int].peer || packet.author == old(
                self,
            ).local,
        ensures
            final(self).wf(),
            final(self)@ == old(self)@.logged(old(self).conversations[at as int].peer, packet@),
            final(self)@.wf(),
    {
        proof {
            self.lemma_view();
        }
        let ghost before = *self;
        let ghost peer = self.conversations[at as int].peer;
        let ghost entry = packet@;
        self.conversations[at].conversation.push(packet);
        proof {
            let nodes = self.conversations@;
            let old_nodes = before.conversations@;
            assert(nodes.len() == old_nodes.len());
            assert forall|i: int| 0 <= i < nodes.len() implies (#[trigger] nodes[i]).peer
                == old_nodes[i].peer by {}
            assert forall|i: int, j: int| 0 <= i < j < nodes.len() implies (#[trigger] nodes[i]).peer
                != (#[trigger] nodes[j]).peer by {
                assert(old_nodes[i].peer != old_nodes[j].peer);
            }
            assert forall|i: int, k: int|
                0 <= i < nodes.len() && 0 <= k < nodes[i].conversation.len() implies {
                let author = (#[trigger] nodes[i].conversation[k]).author;
                author == nodes[i].peer || author == self.local
            } by {
                if i != at || k < old_nodes[i].conversation.len() {
                    assert(nodes[i].conversation[k] == old_nodes[i].conversation[k]);
                }
            }
            assert forall|i: int| 0 <= i < self.client_to_server.len() implies holds(
                nodes,
                (#[trigger] self.client_to_server[i]).1,
            ) by {
                let k = place(old_nodes, self.client_to_server[i].1);
                assert(nodes[k].peer == old_nodes[k].peer);
            }
            self.lemma_view();
            assert(self@.peers =~= before@.peers);
            assert(self@.client_to_server =~= before@.client_to_server);
            let grown = before@.conversations[peer].push(entry);
            assert(nodes[at as int].conversation.deep_view() =~= grown);
            assert forall|other: NodeId| #[trigger]
                self@.conversations.contains_key(other)
                <==> before@.conversations.contains_key(other) by {
                if holds(nodes, other) {
                    let i = place(nodes, other);
                    assert(old_nodes[i].peer == other);
                }
                if holds(old_nodes, other) {
                    let i = place(old_nodes, other);
                    assert(nodes[i].peer == other);
                }
            }
            assert forall|other: NodeId| #[trigger]
                self@.conversations.contains_key(other) implies self@.conversations[other]
                == before@.conversations.insert(peer, grown)[other] by {
                let i = place(nodes, other);
                assert(nodes[i].peer == other);
                assert(old_nodes[i].peer == other);
                if i != at {
                    assert(nodes[i] == old_nodes[i]);
                }
            }
            assert(self@.conversations =~= before@.conversations.insert(peer, grown));
        }
    }

    /// Notes that the inbound connection `raw` belongs to `declared`.
    fn resolve(&mut self, raw: NodeId, declared: NodeId)
        requires
            old(self).wf(),
            !old(self)@.client_to_server.contains_key(raw),
            old(self)@.conversations.contains_key(declared),
        ensures
            final(self).wf(),
            final(self)@ == old(self)@.resolved(raw, declared),
            final(self)@.wf(),
    {
        proof {
            self.lemma_view();
        }
        let ghost before = *self;
        self.client_to_server.push((raw, declared));
        proof {
            let pairs = self.client_to_server@;
            let old_pairs = before.client_to_server@;
            let last = pairs.len() - 1;
            assert forall|i: int, j: int| 0 <= i < j < pairs.len() implies (#[trigger] pairs[i]).0
                != (#[trigger] pairs[j]).0 by {
                assert(pairs[i] == old_pairs[i]);
                if j < last {
                    assert(pairs[j] == old_pairs[j]);
                }
            }
            assert forall|i: int| 0 <= i < pairs.len() implies holds(
                self.conversations@,
                (#[trigger] pairs[i]).1,
            ) by {
                if i < last {
                    assert(pairs[i] == old_pairs[i]);
                }
            }
            self.lemma_view();
            assert(self@.peers =~= before@.peers);
            assert(self@.conversations =~= before@.conversations);
            assert forall|other: NodeId| #[trigger]
                self@.client_to_server.contains_key(other) <==> (other == raw
                    || before@.client_to_server.contains_key(other)) by {
                if knows(pairs, other) {
                    let i = entry(pairs, other);
                    if i < last {
                        assert(old_pairs[i].0 == other);
                    }
                }
                if knows(old_pairs, other) {
                    let i = entry(old_pairs, other);
                    assert(pairs[i].0 == other);
                }
                assert(pairs[last].0 == raw);
            }
            assert forall|other: NodeId| #[trigger]
                self@.client_to_server.contains_key(other) implies self@.client_to_server[other]
                == before@.client_to_server.insert(raw, declared)[other] by {
                let i = entry(pairs, other);
                assert(pairs[i].0 == other);
                if i < last {
                    assert(pairs[i] == old_pairs[i]);
                }
            }
            assert(self@.client_to_server =~= before@.client_to_server.insert(raw, declared));
        }
    }

    /// The packets by which this node introduces itself to `peer`.
    fn handshake(&self, peer: NodeId) -> (packets: Vec<Outbound>)
        ensures
            packets.deep_view() == self@.handshake(peer),
    {
        let mut packets: Vec<Outbound> = Vec::new();
        let text = self.local.to_string();
        packets.push(
            Outbound {
                peer,
                payload: slice_to_vec(text.as_str().as_bytes()),
                packet_type: PacketType::Address,
            },
        );
        match &self.username {
            Some(name) => {
                packets.push(
                    Outbound {
                        peer,
                        payload: slice_to_vec(name.as_str().as_bytes()),
                        packet_type: PacketType::Username,
                    },
                );
            },
            None => {},
        }
        assert(packets.deep_view() =~= self@.handshake(peer));
        packets
    }

    /// The peer to which a connection has to be made before `packet` is
    /// handed to `add_message` or `dispatch_inbound`: the peer that the
    /// packet announces, unless the connection is known already or a
    /// conversation with that peer exists.
    pub fn handshake_target(&self, packet: &Packet) -> (target: Option<NodeId>)
        requires
            self.wf(),
        ensures
            target == self@.handshake_target(packet@),
    {
        if self.find_resolved(packet.author).is_some() {
            return None;
        }
        match declared(packet) {
            Some(peer) => if self.find_conversation(peer).is_some() {
                None
            } else {
                Some(peer)
            },
            None => None,
        }
    }

    /// Takes in a packet from the inbound connection `packet.author`.
    ///
    /// `connected` is the outcome of the connection attempt that
    /// `handshake_target` asked for; where it asked for none, `connected`
    /// is not looked at. Returns what to report, and the packets to send.
    ///
    /// - From a connection that has announced itself, a chat message joins
    ///   the conversation with the announced peer, under that peer's
    ///   identity, and a name that is text is reported as `ContactName`.
    /// - From a connection that has not, an `Address` packet that declares
    ///   an identity begins the conversation with that peer if there is
    ///   none, makes the connection known as that peer's, and is answered
    ///   with this node's introduction and reported as `AddChat`. Where a
    ///   connection was needed and the attempt failed, nothing changes and
    ///   the failure is returned: the peer can announce itself again.
    /// - Anything else changes nothing and reports nothing.
    pub fn add_message(&mut self, packet: Packet, connected: Res<()>) -> (result: (
        Res<Option<NetworkOutput>>,
        Vec<Outbound>,
    ))
        requires
            old(self).wf(),
        ensures
            final(self).wf(),
            final(self)@.wf(),
            final(self)@ == old(self)@.after_message(packet@, connected),
            reported(result.0) == old(self)@.message_output(packet@, connected),
            result.1.deep_view() == old(self)@.message_replies(packet@, connected),
    {
        proof {
            self.lemma_view();
        }
        let replies: Vec<Outbound> = Vec::new();
        assert(replies.deep_view() =~= Seq::<OutboundView>::empty());
        match self.find_resolved(packet.author) {
            Some(author) => {
                match packet.packet_type {
                    PacketType::String => {
                        match self.find_conversation(author) {
                            Some(at) => {
                                let entry = Packet {
                                    author,
                                    content: packet.content,
                                    packet_type: packet.packet_type,
                                };
                                self.log_packet(at, entry);
                            },
                            None => {},
                        }
                        (Ok(None), replies)
                    },
                    PacketType::Username => {
                        match announced(packet.content) {
                            Some(name) => (
                                Ok(Some(NetworkOutput::ContactName(author, name))),
                                replies,
                            ),
                            None => (Ok(None), replies),
                        }
                    },
                    _ => (Ok(None), replies),
                }
            },
            None => {
                match declared(&packet) {
                    Some(peer) => {
                        if self.find_conversation(peer).is_none() {
                            match connected {
                                Err(error) => {
                                    return (Err(error), replies);
                                },
                                Ok(_) => {
                                    let log: Vec<Packet> = Vec::new();
                                    assert(log.deep_view() =~= Seq::<PacketView>::empty());
                                    let _ = self.open_conversation(peer, log);
                                },
                            }
                        }
                        self.resolve(packet.author, peer);
                        let replies = self.handshake(peer);
                        (Ok(Some(NetworkOutput::AddChat(Contact::from_node_id(peer)))), replies)
                    },
                    None => (Ok(None), replies),
                }
            },
        }
    }

    /// Handles one packet from the inbound queue: takes it in as
    /// `add_message` does and returns the reports that it causes, in
    /// order, and the packets to send.
    ///
    /// A failure is reported as `NonFatalError`. A chat message from a
    /// connection that has announced itself is reported as `AddPacket`,
    /// under the identity that the peer announced. A packet from a
    /// connection that has not announced itself, other than the
    /// announcement, is dropped: it is neither reported nor kept.
    pub fn dispatch_inbound(&mut self, packet: Packet, connected: Res<()>) -> (result: (
        Vec<NetworkOutput>,
        Vec<Outbound>,
    ))
        requires
            old(self).wf(),
        ensures
            final(self).wf(),
            final(self)@.wf(),
            final(self)@ == old(self)@.after_message(packet@, connected),
            result.0.deep_view() == old(self)@.inbound_events(packet@, connected),
            result.1.deep_view() == old(self)@.message_replies(packet@, connected),
    {
        let echo = if packet.packet_type == PacketType::String {
            match self.find_resolved(packet.author) {
                Some(author) => {
                    let copy = packet.clone();
                    Some(Packet { author, content: copy.content, packet_type: copy.packet_type })
                },
                None => None,
            }
        } else {
            None
        };
        let (output, replies) = self.add_message(packet, connected);
        let mut events: Vec<NetworkOutput> = Vec::new();
        match output {
            Ok(Some(report)) => {
                events.push(report);
            },
            Ok(None) => {},
            Err(error) => {
                events.push(NetworkOutput::NonFatalError(error));
            },
        }
        match echo {
            Some(entry) => {
                events.push(NetworkOutput::AddPacket(entry));
            },
            None => {},
        }
        assert(events.deep_view() =~= old(self)@.inbound_events(packet@, connected));
        (events, replies)
    }

    /// The calls on the transport that have to be made before
    /// `send_message` is called with the same arguments: where no
    /// conversation with `recipient` exists, a connection attempt and this
    /// node's introduction, and in either case the send of the packet.
    pub fn send_transport(&self, recipient: NodeId, packet: &Vec<u8>, packet_type: PacketType) -> (calls:
        Transport)
        requires
            self.wf(),
        ensures
            calls@ == self@.send_transport(recipient, packet@, packet_type),
    {
        let send = Outbound { peer: recipient, payload: packet.clone(), packet_type };
        match self.find_conversation(recipient) {
            Some(_) => {
                let introduce: Vec<Outbound> = Vec::new();
                assert(introduce.deep_view() =~= Seq::<OutboundView>::empty());
                Transport { connect: None, introduce, send }
            },
            None => Transport { connect: Some(recipient), introduce: self.handshake(recipient), send },
        }
    }

    /// Sends `packet` to `recipient`, where `connected` is the outcome of
    /// the connection attempt that `send_transport` named, and `sent` that
    /// of the send. Where no attempt was named, `connected` is not looked
    /// at; where the attempt failed, `sent` is not.
    ///
    /// A failed connection attempt changes nothing and is returned. A
    /// connection that stands begins the conversation. A failed send is
    /// returned, and the packet is not kept; the conversation stays, and
    /// the next send uses it. A packet that was sent joins the conversation
    /// as this node's own, and `recipient` is returned if the conversation
    /// is new.
    pub fn send_message(
        &mut self,
        recipient: NodeId,
        packet: Vec<u8>,
        packet_type: PacketType,
        connected: Res<()>,
        sent: Res<()>,
    ) -> (result: Res<Option<NodeId>>)
        requires
            old(self).wf(),
        ensures
            final(self).wf(),
            final(self)@.wf(),
            final(self)@ == old(self)@.after_send(recipient, packet@, packet_type, connected, sent),
            result == old(self)@.send_output(recipient, connected, sent),
    {
        proof {
            self.lemma_view();
        }
        let (at, new) = match self.find_conversation(recipient) {
            Some(at) => (at, false),
            None => {
                match connected {
                    Err(error) => {
                        return Err(error);
                    },
                    Ok(_) => {
                        let log: Vec<Packet> = Vec::new();
                        assert(log.deep_view() =~= Seq::<PacketView>::empty());
                        (self.open_conversation(recipient, log), true)
                    },
                }
            },
        };
        match sent {
            Err(error) => Err(error),
            Ok(_) => {
                let entry = Packet { author: self.local, content: Ok(packet), packet_type };
                self.log_packet(at, entry);
                if new {
                    Ok(Some(recipient))
                } else {
                    Ok(None)
                }
            },
        }
    }

    /// Takes `username` as this node's name and returns the packets that
    /// announce it: one for each peer with a conversation, whether or not
    /// earlier ones can be delivered.
    pub fn set_username(&mut self, username: String) -> (packets: Vec<Outbound>)
        requires
            old(self).wf(),
        ensures
            final(self).wf(),
            final(self)@.wf(),
            final(self)@ == (NetworkView { username: Some(username@), ..old(self)@ }),
            packets.deep_view() == old(self)@.name_broadcast(username@),
            packets.len() == old(self)@.peers.len(),
    {
        proof {
            self.lemma_view();
        }
        let mut packets: Vec<Outbound> = Vec::new();
        let mut i: usize = 0;
        while i < self.conversations.len()
            invariant
                i <= self.conversations.len(),
                packets.len() == i,
                forall|j: int|
                    0 <= j < i ==> (#[trigger] packets[j])@ == (OutboundView {
                        peer: self.conversations[j].peer,
                        payload: vstd::utf8::encode_utf8(username@),
                        packet_type: PacketType::Username,
                    }),
            decreases self.conversations.len() - i,
        {
            packets.push(
                Outbound {
                    peer: self.conversations[i].peer,
                    payload: slice_to_vec(username.as_str().as_bytes()),
                    packet_type: PacketType::Username,
                },
            );
            i = i + 1;
        }
        assert(packets.deep_view() =~= self@.name_broadcast(username@));
        let ghost before = *self;
        self.username = Some(username);
        proof {
            assert(self.conversations == before.conversations);
            assert(self.client_to_server == before.client_to_server);
            assert(self.wf());
            self.lemma_view();
            assert(self@.peers =~= before@.peers);
            assert(self@.conversations =~= before@.conversations);
            assert(self@.client_to_server =~= before@.client_to_server);
        }
        packets
    }

    /// The conversation with `peer`, if there is one: a copy of its
    /// packets, oldest first.
    pub fn conversation(&self, peer: NodeId) -> (log: Option<Vec<Packet>>)
        requires
            self.wf(),
        ensures
            self@.conversations.contains_key(peer) <==> log is Some,
            log is Some ==> log->Some_0.deep_view() == self@.conversations[peer],
    {
        proof {
            self.lemma_view();
        }
        match self.find_conversation(peer) {
            Some(at) => Some(clone_packets(&self.conversations[at].conversation)),
            None => None,
        }
    }

    /// The identity under which this node listens.
    pub fn local(&self) -> (id: NodeId)
        ensures
            id == self@.local,
    {
        self.local
    }

    /// The name of this node's user, once it is set.
    pub fn username(&self) -> (name: Option<String>)
        ensures
            name_view(name) == self@.username,
    {
        match &self.username {
            Some(name) => Some(name.clone()),
            None => None,
        }
    }

    /// The calls on the transport that have to be made before `run_task`
    /// is called with the same task, if any.
    pub fn task_transport(&self, task: &NetworkTask) -> (calls: Option<Transport>)
        requires
            self.wf(),
        ensures
            match calls {
                Some(calls) => self@.task_transport(task@) == Some(calls@),
                None => self@.task_transport(task@) is None,
            },
    {
        match task {
            NetworkTask::SendMessage(recipient, packet, packet_type) => Some(
                self.send_transport(*recipient, packet, *packet_type),
            ),
            _ => None,
        }
    }

    /// Handles one request from the task queue, where `connected` and
    /// `sent` are the outcomes of the calls that `task_transport` named,
    /// and returns the reports that it causes, in order, and the packets
    /// to send without regard to whether they arrive.
    ///
    /// - `RequestConversation` reports the conversation, or `NoSuchClient`.
    /// - `SendMessage` sends as `send_message` does. A failure is reported
    ///   as `NonFatalError` and nothing else; a packet that was sent is
    ///   reported as `AddPacket`, after `AddChat` where the peer is new.
    /// - `SetUsername` announces the name as `set_username` does and
    ///   reports nothing.
    pub fn run_task(&mut self, task: NetworkTask, connected: Res<()>, sent: Res<()>) -> (result: (
        Vec<NetworkOutput>,
        Vec<Outbound>,
    ))
        requires
            old(self).wf(),
        ensures
            final(self).wf(),
            final(self)@.wf(),
            final(self)@ == old(self)@.after_task(task@, connected, sent),
            result.0.deep_view() == old(self)@.task_events(task@, connected, sent),
            result.1.deep_view() == old(self)@.task_replies(task@),
    {
        proof {
            self.lemma_view();
        }
        let mut events: Vec<NetworkOutput> = Vec::new();
        let replies: Vec<Outbound> = Vec::new();
        assert(replies.deep_view() =~= Seq::<OutboundView>::empty());
        match task {
            NetworkTask::RequestConversation(peer) => {
                match self.conversation(peer) {
                    Some(log) => {
                        events.push(NetworkOutput::ConversationRecord(log));
                    },
                    None => {
                        events.push(NetworkOutput::NonFatalError(Error::NoSuchClient));
                    },
                }
                assert(events.deep_view() =~= old(self)@.task_events(task@, connected, sent));
                (events, replies)
            },
            NetworkTask::SendMessage(recipient, packet, packet_type) => {
                let echo = Packet {
                    author: self.local,
                    content: Ok(packet.clone()),
                    packet_type,
                };
                match self.send_message(recipient, packet, packet_type, connected, sent) {
                    Ok(Some(peer)) => {
                        events.push(NetworkOutput::AddChat(Contact::from_node_id(peer)));
                        events.push(NetworkOutput::AddPacket(echo));
                    },
                    Ok(None) => {
                        events.push(NetworkOutput::AddPacket(echo));
                    },
                    Err(error) => {
                        events.push(NetworkOutput::NonFatalError(error));
                    },
                }
                assert(events.deep_view() =~= old(self)@.task_events(task@, connected, sent));
                (events, replies)
            },
            NetworkTask::SetUsername(name) => {
                let replies = self.set_username(name);
                assert(events.deep_view() =~= Seq::<NetworkOutputView>::empty());
                (events, replies)
            },
        }
    }
}

/// What a cycle of the network loop ends in, where `delivered` tells
/// whether every report of the cycle could be put on the output queue: the
/// loop goes on, or ends for good with `MPMCRecvError` where the queue is
/// gone.
pub fn flushed(delivered: bool) -> (result: Res<()>)
    ensures
        result == if delivered {
            Ok::<(), Error>(())
        } else {
            Err::<(), Error>(Error::MPMCRecvError)
        },
{
    if delivered {
        Ok(())
    } else {
        Err(Error::MPMCRecvError)
    }
}

} // verus!
