//! The page on which the user names a peer to write to.

use crate::error::Error;
use crate::frontend::message::Add;
use crate::frontend::message::AddView;
use crate::frontend::message::Global;
use crate::frontend::message::GlobalView;
use crate::frontend::message::Message;
use crate::frontend::message::MessageView;
use crate::networking::abstraction::NetworkTask;
use crate::networking::abstraction::NetworkTaskView;
use crate::networking::identity::parsed_node_id;
use crate::networking::identity::NodeId;
use crate::networking::packet::PacketType;
use vstd::prelude::*;

verus! {

/// The page on which a peer is added: a field for the text of its
/// identity.
#[derive(Clone, Debug, PartialEq, Eq)]
pub struct AddPage {
    id_input: String,
}

impl View for AddPage {
    type V = Seq<char>;

    /// What the identity field holds.
    closed spec fn view(&self) -> Seq<char> {
        self.id_input@
    }
}

impl Default for AddPage {
    fn default() -> (page: AddPage)
        ensures
            page@ == Seq::<char>::empty(),
    {
        AddPage { id_input: String::new() }
    }
}

/// The bytes of the greeting that opens a conversation: `Hello`.
pub open spec fn greeting() -> Seq<u8> {
    seq![72u8, 101u8, 108u8, 108u8, 111u8]
}

/// What confirming the identity field leads to when the field holds
/// `input`: a greeting to the peer, or a warning where the input is not
/// the text of an identity.
pub open spec fn submitted(input: Seq<char>) -> MessageView {
    match parsed_node_id(input) {
        Some(peer) => MessageView::Global(
            GlobalView::NetworkTask(
                NetworkTaskView::SendMessage(peer, greeting(), PacketType::String),
            ),
        ),
        None => MessageView::Global(GlobalView::Warn(Error::NoSuchClient)),
    }
}

/// What the identity field holds after a message, where it held `input`
/// before: typing replaces it, confirming empties it.
pub open spec fn input_after(input: Seq<char>, message: MessageView) -> Seq<char> {
    match message {
        MessageView::Add(AddView::InputBox(text)) => text,
        MessageView::Add(AddView::Submit) => Seq::empty(),
        _ => input,
    }
}

/// The message that follows from a message to the page, where the
/// identity field held `input`.
pub open spec fn input_next(input: Seq<char>, message: MessageView) -> MessageView {
    match message {
        MessageView::Add(AddView::Submit) => submitted(input),
        _ => MessageView::Nothing,
    }
}

impl AddPage {
    /// What the identity field holds.
    pub fn input(&self) -> (text: &str)
        ensures
            text@ == self@,
    {
        self.id_input.as_str()
    }

    /// Takes a message and returns the message that follows from it.
    ///
    /// Typing replaces what the field holds. Confirming empties the field
    /// and asks for a greeting to be sent to the peer that the field
    /// named, or warns with `NoSuchClient` where it named none. Messages
    /// for others change nothing.
    pub fn update(&mut self, message: Message) -> (next: Message)
        ensures
            final(self)@ == input_after(old(self)@, message@),
            next@ == input_next(old(self)@, message@),
    {
        match message {
            Message::Add(Add::InputBox(new_value)) => {
                self.id_input = new_value;
                Message::Nothing
            },
            Message::Add(Add::Submit) => {
                let id = self.id_input.clone();
                self.id_input = String::new();
                match NodeId::from_text(id.as_str()) {
                    Some(peer) => {
                        let mut hello: Vec<u8> = Vec::new();
                        hello.push(72);
                        hello.push(101);
                        hello.push(108);
                        hello.push(108);
                        hello.push(111);
                        assert(hello@ =~= greeting());
                        Message::Global(
                            Global::NetworkTask(
                                NetworkTask::SendMessage(peer, hello, PacketType::String),
                            ),
                        )
                    },
                    None => Message::Global(Global::Warn(Error::NoSuchClient)),
                }
            },
            _ => Message::Nothing,
        }
    }
}

} // verus!
