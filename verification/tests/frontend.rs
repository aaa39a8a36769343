use pingpong::backend::database::DatabaseParam;
use pingpong::backend::database::DatabaseParams;
use pingpong::backend::database::ItemStream;
use pingpong::backend::database::Statement;
use pingpong::backend::sql::INSERT_CONTACT;
use pingpong::backend::sql::INSERT_USERNAME;
use pingpong::error::Error;
use pingpong::frontend::application::queued;
use pingpong::frontend::application::relay_contact;
use pingpong::frontend::application::relay_output;
use pingpong::frontend::application::ActivePage;
use pingpong::frontend::application::Application;
use pingpong::frontend::application::Command;
use pingpong::frontend::message::Add;
use pingpong::frontend::message::Chat;
use pingpong::frontend::message::Global;
use pingpong::frontend::message::Message;
use pingpong::frontend::message::PageType;
use pingpong::frontend::pages::add::AddPage;
use pingpong::frontend::pages::chat::ChatPage;
use pingpong::networking::abstraction::NetworkOutput;
use pingpong::networking::abstraction::NetworkTask;
use pingpong::networking::contact::Contact;
use pingpong::networking::identity::NodeId;
use pingpong::networking::packet::Packet;
use pingpong::networking::packet::PacketType;

fn key(seed: u8) -> NodeId {
    NodeId::from_bytes(iroh_base::SecretKey::from_bytes(&[seed; 32]).public().as_bytes())
}

fn chat(author: NodeId, text: &[u8]) -> Packet {
    Packet { author, content: Ok(text.to_vec()), packet_type: PacketType::String }
}

fn cell(text: &str) -> DatabaseParam {
    DatabaseParam::String(text.to_string())
}

fn task(task: NetworkTask) -> Message {
    Message::Global(Global::NetworkTask(task))
}

#[test]
fn message_task_feeds_back_all_but_nothing() {
    assert_eq!(Message::Nothing.task(), Command::Nothing);
    assert_eq!(Message::Add(Add::Submit).task(), Command::Emit(Message::Add(Add::Submit)));
}

#[test]
fn add_page_keeps_what_is_typed() {
    let mut page = AddPage::default();
    assert_eq!(page.input(), "");
    assert_eq!(page.update(Message::Add(Add::InputBox("abc".to_string()))), Message::Nothing);
    assert_eq!(page.input(), "abc");
}

#[test]
fn add_page_submit_greets_the_peer_and_empties_the_field() {
    let mut page = AddPage::default();
    let _ = page.update(Message::Add(Add::InputBox(key(4).to_string())));
    let next = page.update(Message::Add(Add::Submit));
    assert_eq!(next, task(NetworkTask::SendMessage(key(4), b"Hello".to_vec(), PacketType::String)));
    assert_eq!(page.input(), "");
}

#[test]
fn add_page_submit_of_bad_text_warns() {
    let mut page = AddPage::default();
    let _ = page.update(Message::Add(Add::InputBox("nobody".to_string())));
    assert_eq!(page.update(Message::Add(Add::Submit)), Message::Global(Global::Warn(Error::NoSuchClient)));
    assert_eq!(page.input(), "");
}

#[test]
fn add_page_ignores_messages_for_others() {
    let mut page = AddPage::default();
    let _ = page.update(Message::Add(Add::InputBox("kept".to_string())));
    assert_eq!(page.update(Message::Chat(Chat::SendMessage)), Message::Nothing);
    assert_eq!(page.update(Message::Nothing), Message::Nothing);
    assert_eq!(page.input(), "kept");
}

#[test]
fn chat_page_starts_empty() {
    let page = ChatPage::new(key(2));
    assert_eq!(page.remote_id(), key(2));
    assert_eq!(page.message_box(), "");
    assert_eq!(page.conversation(), &Vec::new());
}

#[test]
fn chat_page_collects_packets() {
    let mut page = ChatPage::new(key(2));
    assert_eq!(page.update(Message::Chat(Chat::AddPacketToCache(chat(key(2), b"one")))), Message::Nothing);
    let record = vec![chat(key(1), b"two"), chat(key(2), b"three")];
    assert_eq!(page.update(Message::Chat(Chat::SetConversation(record))), Message::Nothing);
    assert_eq!(
        page.conversation(),
        &vec![chat(key(2), b"one"), chat(key(1), b"two"), chat(key(2), b"three")]
    );
}

#[test]
fn chat_page_sends_what_the_box_holds() {
    let mut page = ChatPage::new(key(2));
    assert_eq!(page.update(Message::Chat(Chat::MessageBox("héllo".to_string()))), Message::Nothing);
    assert_eq!(page.message_box(), "héllo");
    let next = page.update(Message::Chat(Chat::SendMessage));
    assert_eq!(next, task(NetworkTask::SendMessage(key(2), "héllo".as_bytes().to_vec(), PacketType::String)));
    assert_eq!(page.message_box(), "");
}

#[test]
fn chat_page_ignores_messages_for_others() {
    let mut page = ChatPage::new(key(2));
    assert_eq!(page.update(Message::Add(Add::Submit)), Message::Nothing);
    assert_eq!(page.update(Message::Global(Global::LoadContacts)), Message::Nothing);
    assert_eq!(page, ChatPage::new(key(2)));
}

#[test]
fn chat_page_names_the_speaker() {
    let page = ChatPage::new(key(2));
    assert_eq!(page.speaker(&chat(key(2), b"x")), "LOCAL");
    assert_eq!(page.speaker(&chat(key(1), b"x")), "REMOTE");
}

#[test]
fn chat_page_shows_the_body() {
    assert_eq!(ChatPage::body(&chat(key(1), b"hi there")), "hi there");
    assert_eq!(ChatPage::body(&chat(key(1), &[0xff])), "INVALID UTF-8");
    let failed = Packet { author: key(1), content: Err(Error::StreamClosed), packet_type: PacketType::String };
    assert_eq!(ChatPage::body(&failed), "EMPTY");
    let other = Packet { author: key(1), content: Ok(b"name".to_vec()), packet_type: PacketType::Username };
    assert_eq!(ChatPage::body(&other), "NOT A STRING");
    assert_eq!(ChatPage::body(&Packet::failure(key(1), Error::TooLong)), "NOT A STRING");
}

#[test]
fn relay_output_maps_each_report() {
    assert_eq!(
        relay_output(NetworkOutput::AddPacket(chat(key(1), b"x"))),
        Message::Chat(Chat::AddPacketToCache(chat(key(1), b"x")))
    );
    assert_eq!(
        relay_output(NetworkOutput::ConversationRecord(vec![chat(key(1), b"x")])),
        Message::Chat(Chat::SetConversation(vec![chat(key(1), b"x")]))
    );
    assert_eq!(
        relay_output(NetworkOutput::NonFatalError(Error::Connect)),
        Message::Global(Global::Warn(Error::Connect))
    );
    assert_eq!(
        relay_output(NetworkOutput::AddChat(Contact::from_node_id(key(1)))),
        Message::Global(Global::AddChat(Contact::from_node_id(key(1))))
    );
    assert_eq!(
        relay_output(NetworkOutput::ContactName(key(1), "a".to_string())),
        Message::Global(Global::ContactName(key(1), "a".to_string()))
    );
}

#[test]
fn relay_contact_reads_rows_until_the_end() {
    let row = ItemStream::Value(vec![cell(&key(3).to_string()), cell("carol")]);
    let contact = Contact { server_address: key(3), username: Some("carol".to_string()) };
    assert_eq!(relay_contact(row), Some(Message::Global(Global::DatabaseContactEmmision(contact))));
    assert_eq!(relay_contact(ItemStream::Value(vec![cell("bad"), cell("carol")])), Some(Message::Nothing));
    assert_eq!(relay_contact(ItemStream::Value(vec![cell(&key(3).to_string())])), Some(Message::Nothing));
    assert_eq!(relay_contact(ItemStream::Value(vec![])), Some(Message::Nothing));
    assert_eq!(relay_contact(ItemStream::Error), None);
    assert_eq!(relay_contact(ItemStream::End), None);
}

#[test]
fn queue_failure_warns() {
    assert_eq!(queued(true), Message::Nothing);
    assert_eq!(queued(false), Message::Global(Global::Warn(Error::MPMCRecvError)));
}

#[test]
fn application_starts_on_the_add_page() {
    let app = Application::new(Some("alice".to_string()));
    assert_eq!(app.page(), &ActivePage::Add(AddPage::default()));
    assert_eq!(app.active_chats(), &Vec::new());
    assert_eq!(app.possible_chats(), &Vec::new());
    assert_eq!(app.username(), &Some("alice".to_string()));
    assert_eq!(app.username_input(), "");
}

#[test]
fn application_commands_for_outside_work() {
    let mut app = Application::new(None);
    assert_eq!(app.update(Message::Global(Global::StartNetworkRelays)), Command::RelayNetwork);
    assert_eq!(app.update(Message::Global(Global::LoadContacts)), Command::LoadContacts);
    assert_eq!(app.update(Message::Global(Global::Warn(Error::Connect))), Command::Warn(Error::Connect));
    assert_eq!(
        app.update(task(NetworkTask::RequestConversation(key(2)))),
        Command::Queue(NetworkTask::RequestConversation(key(2)))
    );
    assert_eq!(app.update(Message::Nothing), Command::Nothing);
    assert_eq!(app, Application::new(None));
}

#[test]
fn application_loads_pages() {
    let mut app = Application::new(None);
    let command = app.update(Message::Global(Global::Load(PageType::Chat(key(2)))));
    assert_eq!(command, Command::Emit(task(NetworkTask::RequestConversation(key(2)))));
    assert_eq!(app.page(), &ActivePage::Chat(ChatPage::new(key(2))));
    assert_eq!(app.update(Message::Global(Global::Load(PageType::AddChat))), Command::Nothing);
    assert_eq!(app.page(), &ActivePage::Add(AddPage::default()));
}

#[test]
fn application_hands_page_messages_to_the_page() {
    let mut app = Application::new(None);
    assert_eq!(app.update(Message::Add(Add::InputBox(key(5).to_string()))), Command::Nothing);
    assert_eq!(
        app.update(Message::Add(Add::Submit)),
        Command::Emit(task(NetworkTask::SendMessage(key(5), b"Hello".to_vec(), PacketType::String)))
    );
    // A chat message while the add page is shown is handed to it and lost.
    assert_eq!(app.update(Message::Chat(Chat::AddPacketToCache(chat(key(5), b"x")))), Command::Nothing);
    let _ = app.update(Message::Global(Global::Load(PageType::Chat(key(5)))));
    let _ = app.update(Message::Chat(Chat::MessageBox("yo".to_string())));
    assert_eq!(
        app.update(Message::Chat(Chat::SendMessage)),
        Command::Emit(task(NetworkTask::SendMessage(key(5), b"yo".to_vec(), PacketType::String)))
    );
}

#[test]
fn application_tracks_chats_and_names() {
    let mut app = Application::new(None);
    for seed in [1u8, 2, 1] {
        assert_eq!(
            app.update(Message::Global(Global::AddChat(Contact::from_node_id(key(seed))))),
            Command::Nothing
        );
    }
    assert_eq!(app.update(Message::Global(Global::ContactName(key(1), "ann".to_string()))), Command::Nothing);
    assert_eq!(app.update(Message::Global(Global::ContactName(key(9), "zed".to_string()))), Command::Nothing);
    assert_eq!(
        app.active_chats(),
        &vec![
            Contact { server_address: key(1), username: Some("ann".to_string()) },
            Contact::from_node_id(key(2)),
            Contact::from_node_id(key(1)),
        ]
    );
    assert_eq!(app.active_chats()[0].label(), "ann");
    assert_eq!(app.active_chats()[1].label(), key(2).to_string());
}

#[test]
fn application_keeps_contacts() {
    let mut app = Application::new(None);
    let carol = Contact { server_address: key(3), username: Some("carol".to_string()) };
    assert!(!app.is_saved(&carol));
    let command = app.update(Message::Global(Global::AddContactToDatabase(carol.clone())));
    assert_eq!(
        command,
        Command::Store(
            Statement {
                sql: INSERT_CONTACT,
                params: DatabaseParams::new(vec![cell(&key(3).to_string()), cell("carol")]),
            },
            Message::Nothing
        )
    );
    assert!(app.is_saved(&Contact::from_node_id(key(3))));
    let dave = Contact::from_node_id(key(4));
    assert_eq!(app.update(Message::Global(Global::DatabaseContactEmmision(dave.clone()))), Command::Nothing);
    assert_eq!(app.possible_chats(), &vec![carol, dave]);
}

#[test]
fn application_takes_the_username() {
    let mut app = Application::new(None);
    assert_eq!(app.update(Message::Global(Global::UsernameInput("alice".to_string()))), Command::Nothing);
    assert_eq!(app.username_input(), "alice");
    assert_eq!(app.username(), &None);
    let command = app.update(Message::Global(Global::UpdateUsername));
    assert_eq!(
        command,
        Command::Store(
            Statement { sql: INSERT_USERNAME, params: DatabaseParams::single(cell("alice")) },
            task(NetworkTask::SetUsername("alice".to_string()))
        )
    );
    assert_eq!(app.username(), &Some("alice".to_string()));
    assert_eq!(app.username_input(), "");
}
