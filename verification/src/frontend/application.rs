//! The state of the window and what each message makes of it.
//!
//! An update changes the state and names what is to follow: a message to
//! feed back, or a piece of outside work for the caller to do.

use crate::backend::database::ItemStream;
use crate::backend::database::ItemStreamView;
use crate::backend::database::Statement;
use crate::backend::database::StatementView;
use crate::backend::database_interface::DatabaseInterface;
use crate::backend::sql::INSERT_CONTACT;
use crate::backend::sql::INSERT_USERNAME;
use crate::error::Error;
use crate::frontend::message::Chat;
use crate::frontend::message::ChatView;
use crate::frontend::message::Global;
use crate::frontend::message::GlobalView;
use crate::frontend::message::Message;
use crate::frontend::message::MessageView;
use crate::frontend::message::PageType;
use crate::frontend::pages::add::input_after;
use crate::frontend::pages::add::input_next;
use crate::frontend::pages::add::AddPage;
use crate::frontend::pages::chat::ChatPage;
use crate::frontend::pages::chat::ChatPageView;
use crate::networking::abstraction::NetworkOutput;
use crate::networking::abstraction::NetworkOutputView;
use crate::networking::abstraction::NetworkTask;
use crate::networking::abstraction::NetworkTaskView;
use crate::networking::contact::Contact;
use crate::networking::contact::ContactView;
use crate::networking::identity::parsed_node_id;
use crate::networking::identity::NodeId;
use crate::text::name_view;
use vstd::prelude::*;

verus! {

/// What the caller has to do after an update.
#[derive(Clone, Debug, PartialEq, Eq)]
pub enum Command {
    /// Nothing.
    Nothing,
    /// Feed the message back into `update`.
    Emit(Message),
    /// Begin to take in what the network loop reports, and feed in each
    /// report as `relay_output` turns it into a message.
    RelayNetwork,
    /// Begin to read the stored contacts with the query of
    /// `DatabaseInterface::select_all_contacts`, and feed in each item as
    /// `relay_contact` turns it into a message, until it gives none.
    LoadContacts,
    /// Put the request on the task queue, and feed in what `queued` makes
    /// of the attempt.
    Queue(NetworkTask),
    /// Run the statement against the store, and then feed in the message.
    Store(Statement, Message),
    /// Tell the user of the failure.
    Warn(Error),
}

/// What a `Command` holds.
pub enum CommandView {
    Nothing,
    Emit(MessageView),
    RelayNetwork,
    LoadContacts,
    Queue(NetworkTaskView),
    Store(StatementView, MessageView),
    Warn(Error),
}

impl View for Command {
    type V = CommandView;

    open spec fn view(&self) -> CommandView {
        match self {
            Command::Nothing => CommandView::Nothing,
            Command::Emit(message) => CommandView::Emit(message@),
            Command::RelayNetwork => CommandView::RelayNetwork,
            Command::LoadContacts => CommandView::LoadContacts,
            Command::Queue(task) => CommandView::Queue(task@),
            Command::Store(statement, message) => CommandView::Store(statement@, message@),
            Command::Warn(error) => CommandView::Warn(*error),
        }
    }
}

/// What follows from a message that an update returned: nothing from
/// `Nothing`, and from any other that it be fed back.
pub open spec fn task_of(message: MessageView) -> CommandView {
    match message {
        MessageView::Nothing => CommandView::Nothing,
        other => CommandView::Emit(other),
    }
}

impl Message {
    /// What follows from the message: nothing from `Nothing`, and from any
    /// other that it be fed back into `update`.
    pub fn task(self) -> (command: Command)
        ensures
            command@ == task_of(self@),
    {
        match self {
            Message::Nothing => Command::Nothing,
            other => Command::Emit(other),
        }
    }
}

/// The message that tells the user interface of a report from the
/// network loop.
pub open spec fn relayed_output(output: NetworkOutputView) -> MessageView {
    match output {
        NetworkOutputView::AddPacket(packet) => MessageView::Chat(
            ChatView::AddPacketToCache(packet),
        ),
        NetworkOutputView::ConversationRecord(packets) => MessageView::Chat(
            ChatView::SetConversation(packets),
        ),
        NetworkOutputView::NonFatalError(error) => MessageView::Global(GlobalView::Warn(error)),
        NetworkOutputView::AddChat(contact) => MessageView::Global(GlobalView::AddChat(contact)),
        NetworkOutputView::ContactName(peer, name) => MessageView::Global(
            GlobalView::ContactName(peer, name),
        ),
    }
}

/// Turns a report from the network loop into the message that tells the
/// user interface of it.
pub fn relay_output(output: NetworkOutput) -> (message: Message)
    ensures
        message@ == relayed_output(output@),
{
    match output {
        NetworkOutput::AddPacket(packet) => Message::Chat(Chat::AddPacketToCache(packet)),
        NetworkOutput::ConversationRecord(packets) => Message::Chat(
            Chat::SetConversation(packets),
        ),
        NetworkOutput::NonFatalError(error) => Message::Global(Global::Warn(error)),
        NetworkOutput::AddChat(contact) => Message::Global(Global::AddChat(contact)),
        NetworkOutput::ContactName(peer, name) => Message::Global(
            Global::ContactName(peer, name),
        ),
    }
}

/// The message that a row of the contact table gives: the contact, where
/// the row holds the text of an identity and a name, and nothing where it
/// does not.
pub open spec fn contact_of_row(row: Seq<Seq<char>>) -> MessageView {
    if row.len() >= 2 {
        match parsed_node_id(row[0]) {
            Some(peer) => MessageView::Global(
                GlobalView::DatabaseContactEmmision(
                    ContactView { server_address: peer, username: Some(row[1]) },
                ),
            ),
            None => MessageView::Nothing,
        }
    } else {
        MessageView::Nothing
    }
}

/// The message that an item of the contact query gives. A failure and
/// the end of the rows give none, which ends the reading.
pub open spec fn relayed_contact(item: ItemStreamView) -> Option<MessageView> {
    match item {
        ItemStreamView::Value(row) => Some(contact_of_row(row)),
        ItemStreamView::Error => None,
        ItemStreamView::End => None,
    }
}

/// Turns an item of the contact query into a message, or into `None`
/// where the reading is over.
pub fn relay_contact(item: ItemStream) -> (message: Option<Message>)
    ensures
        match message {
            Some(message) => relayed_contact(item@) == Some(message@),
            None => relayed_contact(item@) is None,
        },
{
    match item {
        ItemStream::Value(row) => {
            if row.len() >= 2 {
                match Contact::new(row[0].string(), row[1].string()) {
                    Ok(contact) => Some(
                        Message::Global(Global::DatabaseContactEmmision(contact)),
                    ),
                    Err(_) => Some(Message::Nothing),
                }
            } else {
                Some(Message::Nothing)
            }
        },
        ItemStream::Error => None,
        ItemStream::End => None,
    }
}

/// The message that follows from an attempt to put a request on the task
/// queue: a warning where the queue is gone.
pub fn queued(sent: bool) -> (message: Message)
    ensures
        message@ == if sent {
            MessageView::Nothing
        } else {
            MessageView::Global(GlobalView::Warn(Error::MPMCRecvError))
        },
{
    if sent {
        Message::Nothing
    } else {
        Message::Global(Global::Warn(Error::MPMCRecvError))
    }
}

/// The page that the main area of the window shows.
#[derive(Clone, Debug, PartialEq, Eq)]
pub enum ActivePage {
    Add(AddPage),
    Chat(ChatPage),
}

/// What an `ActivePage` holds.
pub enum ActivePageView {
    Add(Seq<char>),
    Chat(ChatPageView),
}

impl View for ActivePage {
    type V = ActivePageView;

    open spec fn view(&self) -> ActivePageView {
        match self {
            ActivePage::Add(page) => ActivePageView::Add(page@),
            ActivePage::Chat(page) => ActivePageView::Chat(page@),
        }
    }
}

impl ActivePageView {
    /// What a message makes of the page.
    pub open spec fn after(self, message: MessageView) -> ActivePageView {
        match self {
            ActivePageView::Add(input) => ActivePageView::Add(input_after(input, message)),
            ActivePageView::Chat(page) => ActivePageView::Chat(page.after(message)),
        }
    }

    /// The message that follows from a message to the page.
    pub open spec fn next(self, message: MessageView) -> MessageView {
        match self {
            ActivePageView::Add(input) => input_next(input, message),
            ActivePageView::Chat(page) => page.next(message),
        }
    }
}

impl ActivePage {
    /// Hands a message to the page and returns the message that follows
    /// from it.
    pub fn update(&mut self, message: Message) -> (next: Message)
        ensures
            final(self)@ == old(self)@.after(message@),
            next@ == old(self)@.next(message@),
    {
        match self {
            ActivePage::Add(page) => page.update(message),
            ActivePage::Chat(page) => page.update(message),
        }
    }
}

/// The state of the window.
#[derive(Clone, Debug, PartialEq, Eq)]
pub struct Application {
    page: ActivePage,
    active_chats: Vec<Contact>,
    possible_chats: Vec<Contact>,
    username: Option<String>,
    username_input: String,
}

/// What an `Application` holds.
pub struct ApplicationView {
    /// The page in the main area.
    pub page: ActivePageView,
    /// The peers with which a chat has begun, in the order in which the
    /// chats began.
    pub active_chats: Seq<ContactView>,
    /// The contacts that the user keeps.
    pub possible_chats: Seq<ContactView>,
    /// The name of the user, once it is set.
    pub username: Option<Seq<char>>,
    /// What the name field holds.
    pub username_input: Seq<char>,
}

/// Whether one of `chats` is with `peer`.
pub open spec fn has_chat(chats: Seq<ContactView>, peer: NodeId) -> bool {
    exists|i: int| 0 <= i < chats.len() && (#[trigger] chats[i]).server_address == peer
}

/// Where the first of `chats` with `peer` stands.
pub open spec fn first_chat(chats: Seq<ContactView>, peer: NodeId) -> int {
    choose|i: int|
        0 <= i < chats.len() && (#[trigger] chats[i]).server_address == peer && forall|j: int|
            0 <= j < i ==> (#[trigger] chats[j]).server_address != peer
}

/// The chats after `peer` has announced the name `name`: the first chat
/// with the peer, if there is one, goes by that name.
pub open spec fn named(chats: Seq<ContactView>, peer: NodeId, name: Seq<char>) -> Seq<
    ContactView,
> {
    if has_chat(chats, peer) {
        let at = first_chat(chats, peer);
        chats.update(at, ContactView { username: Some(name), ..chats[at] })
    } else {
        chats
    }
}

impl ApplicationView {
    /// What a message makes of the window.
    pub open spec fn after(self, message: MessageView) -> ApplicationView {
        match message {
            MessageView::Nothing => self,
            MessageView::Global(global) => match global {
                GlobalView::Load(PageType::Chat(peer)) => ApplicationView {
                    page: ActivePageView::Chat(
                        ChatPageView {
                            remote_id: peer,
                            message_box: Seq::empty(),
                            conversation: Seq::empty(),
                        },
                    ),
                    ..self
                },
                GlobalView::Load(PageType::AddChat) => ApplicationView {
                    page: ActivePageView::Add(Seq::empty()),
                    ..self
                },
                GlobalView::AddChat(contact) => ApplicationView {
                    active_chats: self.active_chats.push(contact),
                    ..self
                },
                GlobalView::AddContactToDatabase(contact) => ApplicationView {
                    possible_chats: self.possible_chats.push(contact),
                    ..self
                },
                GlobalView::DatabaseContactEmmision(contact) => ApplicationView {
                    possible_chats: self.possible_chats.push(contact),
                    ..self
                },
                GlobalView::ContactName(peer, name) => ApplicationView {
                    active_chats: named(self.active_chats, peer, name),
                    ..self
                },
                GlobalView::UsernameInput(text) => ApplicationView {
                    username_input: text,
                    ..self
                },
                GlobalView::UpdateUsername => ApplicationView {
                    username: Some(self.username_input),
                    username_input: Seq::empty(),
                    ..self
                },
                _ => self,
            },
            page_specific => ApplicationView { page: self.page.after(page_specific), ..self },
        }
    }

    /// What the caller has to do after a message.
    pub open spec fn command(self, message: MessageView) -> CommandView {
        match message {
            MessageView::Nothing => CommandView::Nothing,
            MessageView::Global(global) => match global {
                GlobalView::StartNetworkRelays => CommandView::RelayNetwork,
                GlobalView::Warn(error) => CommandView::Warn(error),
                GlobalView::Load(PageType::Chat(peer)) => CommandView::Emit(
                    MessageView::Global(
                        GlobalView::NetworkTask(NetworkTaskView::RequestConversation(peer)),
                    ),
                ),
                GlobalView::NetworkTask(task) => CommandView::Queue(task),
                GlobalView::LoadContacts => CommandView::LoadContacts,
                GlobalView::AddContactToDatabase(contact) => CommandView::Store(
                    StatementView { sql: INSERT_CONTACT@, params: contact.stored_params() },
                    MessageView::Nothing,
                ),
                GlobalView::UpdateUsername => CommandView::Store(
                    StatementView { sql: INSERT_USERNAME@, params: seq![self.username_input] },
                    MessageView::Global(
                        GlobalView::NetworkTask(NetworkTaskView::SetUsername(self.username_input)),
                    ),
                ),
                _ => CommandView::Nothing,
            },
            page_specific => task_of(self.page.next(page_specific)),
        }
    }
}

impl View for Application {
    type V = ApplicationView;

    closed spec fn view(&self) -> ApplicationView {
        ApplicationView {
            page: self.page@,
            active_chats: self.active_chats.deep_view(),
            possible_chats: self.possible_chats.deep_view(),
            username: name_view(self.username),
            username_input: self.username_input@,
        }
    }
}

impl Application {
    /// The window at the start: the page on which a peer is added, no
    /// chats, no contacts, nothing typed, and the name that was stored.
    pub fn new(username: Option<String>) -> (application: Application)
        ensures
            application@ == (ApplicationView {
                page: ActivePageView::Add(Seq::empty()),
                active_chats: Seq::empty(),
                possible_chats: Seq::empty(),
                username: name_view(username),
                username_input: Seq::empty(),
            }),
    {
        let application = Application {
            page: ActivePage::Add(AddPage::default()),
            active_chats: Vec::new(),
            possible_chats: Vec::new(),
            username,
            username_input: String::new(),
        };
        assert(application.active_chats.deep_view() =~= Seq::<ContactView>::empty());
        assert(application.possible_chats.deep_view() =~= Seq::<ContactView>::empty());
        application
    }

    /// The page in the main area.
    pub fn page(&self) -> (page: &ActivePage)
        ensures
            page@ == self@.page,
    {
        &self.page
    }

    /// The peers with which a chat has begun.
    pub fn active_chats(&self) -> (chats: &Vec<Contact>)
        ensures
            chats.deep_view() == self@.active_chats,
    {
        &self.active_chats
    }

    /// The contacts that the user keeps.
    pub fn possible_chats(&self) -> (chats: &Vec<Contact>)
        ensures
            chats.deep_view() == self@.possible_chats,
    {
        &self.possible_chats
    }

    /// The name of the user, once it is set. Until then the window asks
    /// for it and shows nothing else.
    pub fn username(&self) -> (name: &Option<String>)
        ensures
            name_view(*name) == self@.username,
    {
        &self.username
    }

    /// What the name field holds.
    pub fn username_input(&self) -> (text: &str)
        ensures
            text@ == self@.username_input,
    {
        self.username_input.as_str()
    }

    /// Whether the user keeps a contact with the identity of `contact`, so
    /// that it cannot be added again.
    pub fn is_saved(&self, contact: &Contact) -> (saved: bool)
        ensures
            saved == has_chat(self@.possible_chats, contact.server_address),
    {
        let mut i: usize = 0;
        while i < self.possible_chats.len()
            invariant
                i <= self.possible_chats.len(),
                forall|j: int|
                    0 <= j < i ==> (#[trigger] self.possible_chats[j]).server_address
                        != contact.server_address,
            decreases self.possible_chats.len() - i,
        {
            if self.possible_chats[i].server_address == contact.server_address {
                assert(self@.possible_chats[i as int].server_address == contact.server_address);
                return true;
            }
            i = i + 1;
        }
        assert forall|j: int| 0 <= j < self@.possible_chats.len() implies (
        #[trigger] self@.possible_chats[j]).server_address != contact.server_address by {
            assert(self.possible_chats[j].server_address != contact.server_address);
        }
        false
    }

    /// Notes that `peer` goes by `name` in the first chat with it.
    fn name_chat(&mut self, peer: NodeId, name: String)
        ensures
            final(self)@ == (ApplicationView {
                active_chats: named(old(self)@.active_chats, peer, name@),
                ..old(self)@
            }),
    {
        let ghost chats = self@.active_chats;
        let mut i: usize = 0;
        while i < self.active_chats.len()
            invariant
                i <= self.active_chats.len(),
                *self == *old(self),
                chats == self@.active_chats,
                forall|j: int| 0 <= j < i ==> (#[trigger] chats[j]).server_address != peer,
            decreases self.active_chats.len() - i,
        {
            if self.active_chats[i].server_address == peer {
                assert(chats[i as int].server_address == peer);
                assert(has_chat(chats, peer));
                assert(first_chat(chats, peer) == i);
                self.active_chats[i].username = Some(name);
                assert(self.active_chats.deep_view() =~= named(chats, peer, name@));
                return ;
            }
            i = i + 1;
        }
        assert(!has_chat(chats, peer));
    }

    /// Takes a message: changes the window as the message asks, and
    /// returns what the caller has to do next.
    ///
    /// A message for the application is handled here; `Nothing` is
    /// nothing; any other message goes to the page in the main area,
    /// whichever it is, and what the page answers is fed back.
    pub fn update(&mut self, message: Message) -> (command: Command)
        ensures
            final(self)@ == old(self)@.after(message@),
            command@ == old(self)@.command(message@),
    {
        match message {
            Message::Global(global) => match global {
                Global::StartNetworkRelays => Command::RelayNetwork,
                Global::Warn(error) => Command::Warn(error),
                Global::Load(page_type) => match page_type {
                    PageType::Chat(peer) => {
                        self.page = ActivePage::Chat(ChatPage::new(peer));
                        Command::Emit(
                            Message::Global(
                                Global::NetworkTask(NetworkTask::RequestConversation(peer)),
                            ),
                        )
                    },
                    PageType::AddChat => {
                        self.page = ActivePage::Add(AddPage::default());
                        Command::Nothing
                    },
                },
                Global::AddChat(contact) => {
                    let ghost before = self.active_chats.deep_view();
                    self.active_chats.push(contact);
                    assert(self.active_chats.deep_view() =~= before.push(contact@));
                    Command::Nothing
                },
                Global::NetworkTask(task) => Command::Queue(task),
                Global::LoadContacts => Command::LoadContacts,
                Global::AddContactToDatabase(contact) => {
                    let ghost before = self.possible_chats.deep_view();
                    self.possible_chats.push(contact.clone());
                    assert(self.possible_chats.deep_view() =~= before.push(contact@));
                    Command::Store(DatabaseInterface::insert_contact(contact), Message::Nothing)
                },
                Global::DatabaseContactEmmision(contact) => {
                    let ghost before = self.possible_chats.deep_view();
                    self.possible_chats.push(contact);
                    assert(self.possible_chats.deep_view() =~= before.push(contact@));
                    Command::Nothing
                },
                Global::ContactName(peer, name) => {
                    self.name_chat(peer, name);
                    Command::Nothing
                },
                Global::UsernameInput(new_value) => {
                    self.username_input = new_value;
                    Command::Nothing
                },
                Global::UpdateUsername => {
                    let name = self.username_input.clone();
                    self.username_input = String::new();
                    self.username = Some(name.clone());
                    Command::Store(
                        DatabaseInterface::insert_username(name.clone()),
                        Message::Global(Global::NetworkTask(NetworkTask::SetUsername(name))),
                    )
                },
            },
            Message::Nothing => Command::Nothing,
            page_specific => self.page.update(page_specific).task(),
        }
    }
}

} // verus!
