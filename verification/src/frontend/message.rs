//! The messages that drive the user interface.

use crate::error::Error;
use crate::networking::abstraction::NetworkTask;
use crate::networking::abstraction::NetworkTaskView;
use crate::networking::contact::Contact;
use crate::networking::contact::ContactView;
use crate::networking::identity::NodeId;
use crate::networking::packet::Packet;
use crate::networking::packet::PacketView;
use vstd::prelude::*;

verus! {

/// A message to the user interface.
#[derive(Clone, Debug, PartialEq, Eq)]
pub enum Message {
    /// Nothing to do.
    Nothing,
    /// For the application as a whole.
    Global(Global),
    /// For the chat page.
    Chat(Chat),
    /// For the page on which a peer is added.
    Add(Add),
}

/// A message for the application as a whole.
#[derive(Clone, Debug, PartialEq, Eq)]
pub enum Global {
    /// Begin to take in what the network loop reports.
    StartNetworkRelays,
    /// Tell the user of a failure.
    Warn(Error),
    /// Show another page.
    Load(PageType),
    /// Hand a request to the network loop.
    NetworkTask(NetworkTask),
    /// A chat with the contact has begun.
    AddChat(Contact),
    /// Begin to read the stored contacts.
    LoadContacts,
    /// Keep the contact, in the window and in the store.
    AddContactToDatabase(Contact),
    /// A stored contact has been read.
    DatabaseContactEmmision(Contact),
    /// The peer announced its name.
    ContactName(NodeId, String),
    /// The user typed into the name field.
    UsernameInput(String),
    /// The user confirmed the name.
    UpdateUsername,
}

/// A message for the chat page.
#[derive(Clone, Debug, PartialEq, Eq)]
pub enum Chat {
    /// The user typed into the message box.
    MessageBox(String),
    /// A packet joined a conversation.
    AddPacketToCache(Packet),
    /// The packets of the conversation that was asked for.
    SetConversation(Vec<Packet>),
    /// The user sent what is in the message box.
    SendMessage,
}

/// A message for the page on which a peer is added.
#[derive(Clone, Debug, PartialEq, Eq)]
pub enum Add {
    /// The user typed into the identity field.
    InputBox(String),
    /// The user confirmed the identity.
    Submit,
}

/// The pages that can be shown.
#[derive(Clone, Copy, Debug, PartialEq, Eq)]
pub enum PageType {
    AddChat,
    Chat(NodeId),
}

/// What a `Message` holds.
pub enum MessageView {
    Nothing,
    Global(GlobalView),
    Chat(ChatView),
    Add(AddView),
}

/// What a `Global` holds.
pub enum GlobalView {
    StartNetworkRelays,
    Warn(Error),
    Load(PageType),
    NetworkTask(NetworkTaskView),
    AddChat(ContactView),
    LoadContacts,
    AddContactToDatabase(ContactView),
    DatabaseContactEmmision(ContactView),
    ContactName(NodeId, Seq<char>),
    UsernameInput(Seq<char>),
    UpdateUsername,
}

/// What a `Chat` holds.
pub enum ChatView {
    MessageBox(Seq<char>),
    AddPacketToCache(PacketView),
    SetConversation(Seq<PacketView>),
    SendMessage,
}

/// What an `Add` holds.
pub enum AddView {
    InputBox(Seq<char>),
    Submit,
}

impl View for Add {
    type V = AddView;

    open spec fn view(&self) -> AddView {
        match self {
            Add::InputBox(text) => AddView::InputBox(text@),
            Add::Submit => AddView::Submit,
        }
    }
}

impl View for Chat {
    type V = ChatView;

    open spec fn view(&self) -> ChatView {
        match self {
            Chat::MessageBox(text) => ChatView::MessageBox(text@),
            Chat::AddPacketToCache(packet) => ChatView::AddPacketToCache(packet@),
            Chat::SetConversation(packets) => ChatView::SetConversation(packets.deep_view()),
            Chat::SendMessage => ChatView::SendMessage,
        }
    }
}

impl View for Global {
    type V = GlobalView;

    open spec fn view(&self) -> GlobalView {
        match self {
            Global::StartNetworkRelays => GlobalView::StartNetworkRelays,
            Global::Warn(error) => GlobalView::Warn(*error),
            Global::Load(page) => GlobalView::Load(*page),
            Global::NetworkTask(task) => GlobalView::NetworkTask(task@),
            Global::AddChat(contact) => GlobalView::AddChat(contact@),
            Global::LoadContacts => GlobalView::LoadContacts,
            Global::AddContactToDatabase(contact) => GlobalView::AddContactToDatabase(contact@),
            Global::DatabaseContactEmmision(contact) => GlobalView::DatabaseContactEmmision(
                contact@,
            ),
            Global::ContactName(peer, name) => GlobalView::ContactName(*peer, name@),
            Global::UsernameInput(text) => GlobalView::UsernameInput(text@),
            Global::UpdateUsername => GlobalView::UpdateUsername,
        }
    }
}

impl View for Message {
    type V = MessageView;

    open spec fn view(&self) -> MessageView {
        match self {
            Message::Nothing => MessageView::Nothing,
            Message::Global(global) => MessageView::Global(global@),
            Message::Chat(chat) => MessageView::Chat(chat@),
            Message::Add(add) => MessageView::Add(add@),
        }
    }
}

} // verus!
