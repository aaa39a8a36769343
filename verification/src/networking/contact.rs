//! A peer as the user knows it: an identity and, once announced, a name.

use crate::backend::database::DatabaseParam;
use crate::backend::database::DatabaseParams;
use crate::error::Error;
use crate::error::Res;
use crate::hexadecimal::hex_encoded;
use crate::networking::identity::parsed_node_id;
use crate::networking::identity::NodeId;
use vstd::prelude::*;

verus! {

/// A peer that can be written to, with the name it goes by.
#[derive(Debug, PartialEq, Eq)]
pub struct Contact {
    pub server_address: NodeId,
    pub username: Option<String>,
}

/// What a `Contact` holds, with the name as a sequence of characters.
pub struct ContactView {
    pub server_address: NodeId,
    pub username: Option<Seq<char>>,
}

impl ContactView {
    /// The text by which the contact is shown: its name, or the text of
    /// its identity where it has none.
    pub open spec fn shown_label(self) -> Seq<char> {
        match self.username {
            Some(name) => name,
            None => hex_encoded(self.server_address@),
        }
    }

    /// The name under which the contact is stored: its own, or `Unknown`
    /// where it has none.
    pub open spec fn stored_name(self) -> Seq<char> {
        match self.username {
            Some(name) => name,
            None => "Unknown"@,
        }
    }

    /// The values under which the contact is stored: the text of its
    /// identity, then its name.
    pub open spec fn stored_params(self) -> Seq<Seq<char>> {
        seq![hex_encoded(self.server_address@), self.stored_name()]
    }
}

impl View for Contact {
    type V = ContactView;

    open spec fn view(&self) -> ContactView {
        ContactView {
            server_address: self.server_address,
            username: match self.username {
                Some(name) => Some(name@),
                None => None,
            },
        }
    }
}

impl DeepView for Contact {
    type V = ContactView;

    open spec fn deep_view(&self) -> ContactView {
        self@
    }
}

impl Clone for Contact {
    fn clone(&self) -> (copy: Contact)
        ensures
            copy@ == self@,
    {
        let username = match &self.username {
            Some(name) => Some(name.clone()),
            None => None,
        };
        Contact { server_address: self.server_address, username }
    }
}

impl Contact {
    /// The contact that a stored row stands for: `server` is the text of
    /// the identity, `username` the name.
    ///
    /// Fails with `RemoteIDFailed` exactly when `server` is not the text of
    /// an identity.
    pub fn new(server: String, username: String) -> (contact: Res<Contact>)
        ensures
            match parsed_node_id(server@) {
                Some(id) => contact is Ok && contact->Ok_0@ == (ContactView {
                    server_address: id,
                    username: Some(username@),
                }),
                None => contact == Err::<Contact, Error>(Error::RemoteIDFailed),
            },
    {
        match NodeId::from_text(server.as_str()) {
            Some(server_address) => Ok(Contact { server_address, username: Some(username) }),
            None => Err(Error::RemoteIDFailed),
        }
    }

    /// The contact for a peer of which only the identity is known.
    pub fn from_node_id(node_id: NodeId) -> (contact: Contact)
        ensures
            contact@ == (ContactView { server_address: node_id, username: None }),
    {
        Contact { server_address: node_id, username: None }
    }

    /// The text by which the contact is shown.
    pub fn label(&self) -> (text: String)
        ensures
            text@ == self@.shown_label(),
    {
        match &self.username {
            Some(name) => name.clone(),
            None => self.server_address.to_string(),
        }
    }

    /// The values under which the contact is stored: the text of its
    /// identity, then its name.
    pub fn to_params(&self) -> (params: DatabaseParams)
        ensures
            params@ == self@.stored_params(),
    {
        let name = match &self.username {
            Some(name) => name.clone(),
            None => "Unknown".to_owned(),
        };
        let mut values: Vec<DatabaseParam> = Vec::new();
        values.push(DatabaseParam::String(self.server_address.to_string()));
        values.push(DatabaseParam::String(name));
        assert(values.deep_view() =~= self@.stored_params());
        DatabaseParams::new(values)
    }
}

} // verus!
