//! The page that shows the conversation with one peer.

use crate::frontend::message::Chat;
use crate::frontend::message::ChatView;
use crate::frontend::message::Global;
use crate::frontend::message::GlobalView;
use crate::frontend::message::Message;
use crate::frontend::message::MessageView;
use crate::networking::abstraction::NetworkTask;
use crate::networking::abstraction::NetworkTaskView;
use crate::networking::identity::NodeId;
use crate::networking::packet::Packet;
use crate::networking::packet::PacketType;
use crate::networking::packet::PacketView;
use crate::text::string_from_utf8;
use vstd::prelude::*;
use vstd::slice::slice_to_vec;
use vstd::utf8::decode_utf8;
use vstd::utf8::encode_utf8;
use vstd::utf8::valid_utf8;

verus! {

/// The chat page: the peer, what the user has typed, and the packets
/// that are shown.
#[derive(Clone, Debug, PartialEq, Eq)]
pub struct ChatPage {
    remote_id: NodeId,
    message_box: String,
    conversation: Vec<Packet>,
}

/// What a `ChatPage` holds.
pub struct ChatPageView {
    pub remote_id: NodeId,
    pub message_box: Seq<char>,
    pub conversation: Seq<PacketView>,
}

impl View for ChatPage {
    type V = ChatPageView;

    closed spec fn view(&self) -> ChatPageView {
        ChatPageView {
            remote_id: self.remote_id,
            message_box: self.message_box@,
            conversation: self.conversation.deep_view(),
        }
    }
}

/// The text in which a packet is shown: the message of a chat packet, or
/// a note of why there is none to show.
pub open spec fn shown_body(packet: PacketView) -> Seq<char> {
    if packet.packet_type == PacketType::String {
        match packet.content {
            Ok(payload) => if valid_utf8(payload) {
                decode_utf8(payload)
            } else {
                "INVALID UTF-8"@
            },
            Err(_) => "EMPTY"@,
        }
    } else {
        "NOT A STRING"@
    }
}

impl ChatPageView {
    /// What a message makes of the page.
    pub open spec fn after(self, message: MessageView) -> ChatPageView {
        match message {
            MessageView::Chat(ChatView::AddPacketToCache(packet)) => ChatPageView {
                conversation: self.conversation.push(packet),
                ..self
            },
            MessageView::Chat(ChatView::SetConversation(packets)) => ChatPageView {
                conversation: self.conversation + packets,
                ..self
            },
            MessageView::Chat(ChatView::MessageBox(text)) => ChatPageView {
                message_box: text,
                ..self
            },
            MessageView::Chat(ChatView::SendMessage) => ChatPageView {
                message_box: Seq::empty(),
                ..self
            },
            _ => self,
        }
    }

    /// The message that follows from a message to the page: sending asks
    /// the network loop to send what the message box holds.
    pub open spec fn next(self, message: MessageView) -> MessageView {
        match message {
            MessageView::Chat(ChatView::SendMessage) => MessageView::Global(
                GlobalView::NetworkTask(
                    NetworkTaskView::SendMessage(
                        self.remote_id,
                        encode_utf8(self.message_box),
                        PacketType::String,
                    ),
                ),
            ),
            _ => MessageView::Nothing,
        }
    }
}

impl ChatPage {
    /// The page for the conversation with `remote_id`, with nothing typed
    /// and nothing shown yet.
    pub fn new(remote_id: NodeId) -> (page: ChatPage)
        ensures
            page@ == (ChatPageView {
                remote_id,
                message_box: Seq::empty(),
                conversation: Seq::empty(),
            }),
    {
        let page = ChatPage { remote_id, message_box: String::new(), conversation: Vec::new() };
        assert(page.conversation.deep_view() =~= Seq::<PacketView>::empty());
        page
    }

    /// The peer whose conversation the page shows.
    pub fn remote_id(&self) -> (peer: NodeId)
        ensures
            peer == self@.remote_id,
    {
        self.remote_id
    }

    /// What the message box holds.
    pub fn message_box(&self) -> (text: &str)
        ensures
            text@ == self@.message_box,
    {
        self.message_box.as_str()
    }

    /// The packets that the page shows, oldest first.
    pub fn conversation(&self) -> (packets: &Vec<Packet>)
        ensures
            packets.deep_view() == self@.conversation,
    {
        &self.conversation
    }

    /// The word under which a packet is shown: `LOCAL` for a packet whose
    /// author is the peer of this page, `REMOTE` for any other.
    pub fn speaker(&self, packet: &Packet) -> (word: &'static str)
        ensures
            word@ == if packet.author == self@.remote_id {
                "LOCAL"@
            } else {
                "REMOTE"@
            },
    {
        if packet.author == self.remote_id {
            "LOCAL"
        } else {
            "REMOTE"
        }
    }

    /// The text in which a packet is shown.
    pub fn body(packet: &Packet) -> (text: String)
        ensures
            text@ == shown_body(packet@),
    {
        if packet.packet_type == PacketType::String {
            match &packet.content {
                Ok(content) => match string_from_utf8(content.clone()) {
                    Some(message) => message,
                    None => "INVALID UTF-8".to_owned(),
                },
                Err(_) => "EMPTY".to_owned(),
            }
        } else {
            "NOT A STRING".to_owned()
        }
    }

    /// Takes a message and returns the message that follows from it.
    ///
    /// A packet is added to those shown; a conversation that was asked for
    /// is added behind them; typing replaces what the message box holds;
    /// sending empties the box and asks the network loop to send what it
    /// held to the peer of this page. Messages for others change nothing.
    pub fn update(&mut self, message: Message) -> (next: Message)
        ensures
            final(self)@ == old(self)@.after(message@),
            next@ == old(self)@.next(message@),
    {
        match message {
            Message::Chat(chat) => {
                match chat {
                    Chat::AddPacketToCache(packet) => {
                        let ghost before = self.conversation.deep_view();
                        self.conversation.push(packet);
                        assert(self.conversation.deep_view() =~= before.push(packet@));
                        Message::Nothing
                    },
                    Chat::SetConversation(packets) => {
                        let ghost before = self.conversation.deep_view();
                        let mut packets = packets;
                        let ghost added = packets.deep_view();
                        self.conversation.append(&mut packets);
                        assert(self.conversation.deep_view() =~= before + added);
                        Message::Nothing
                    },
                    Chat::MessageBox(new_value) => {
                        self.message_box = new_value;
                        Message::Nothing
                    },
                    Chat::SendMessage => {
                        let payload = slice_to_vec(self.message_box.as_str().as_bytes());
                        self.message_box = String::new();
                        Message::Global(
                            Global::NetworkTask(
                                NetworkTask::SendMessage(
                                    self.remote_id,
                                    payload,
                                    PacketType::String,
                                ),
                            ),
                        )
                    },
                }
            },
            _ => Message::Nothing,
        }
    }
}

} // verus!
