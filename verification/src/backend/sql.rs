//! The statements that the node runs against its store.

use vstd::prelude::*;

verus! {

// NODE ID //
pub const CREATE_NODEID_TABLE: &'static str = "
    CREATE TABLE IF NOT EXISTS NodeID (
        id INTEGER PRIMARY KEY AUTOINCREMENT,
        secret TEXT NOT NULL,
        public TEXT NOT NULL
    );
";

pub const INSERT_NODEID: &'static str = "
    INSERT INTO NodeID
    VALUES(null, ?, ?)
";

pub const SELECT_NODEID: &'static str = "
    SELECT secret, public FROM NodeID;
";

pub const DELETE_NODEID: &'static str = "
    DELETE FROM NodeID;
";

// CONTACTS //
pub const CREATE_CONTACTS_TABLE: &'static str = "
    CREATE TABLE IF NOT EXISTS Contacts (
        id INTEGER PRIMARY KEY AUTOINCREMENT,
        node_id TEXT NOT NULL,
        username: TEXT NOT NULL
    );
";

pub const INSERT_CONTACT: &'static str = "
    INSERT INTO Contacts
    VALUES(null, ?, ?)
";

pub const DELETE_CONTACT: &'static str = "
    DELETE FROM Contacts WHERE node_id = ?;
";

pub const SELECT_ALL_CONTACTS: &'static str = "
    SELECT node_id, username FROM Contacts;
";

// USERNAME //
pub const CREATE_USERNAME_TABLE: &'static str = "
    CREATE TABLE IF NOT EXISTS Username (
        id INTEGER PRIMARY KEY AUTOINCREMENT,
        username TEXT NOT NULL
    );
";

pub const INSERT_USERNAME: &'static str = "
    INSERT INTO Username
    VALUES(null, ?)
";

pub const SELECT_USERNAME: &'static str = "
    SELECT username FROM Username;
";

} // verus!
