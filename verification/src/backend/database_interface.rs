//! What the node asks of its store, and what it makes of the answers.
//!
//! Nothing here touches the store: a function that writes returns the
//! statements for the caller to run, and a function that reads takes the
//! rows that the caller's query returned.

use crate::backend::database::DatabaseParam;
use crate::backend::database::DatabaseParams;
use crate::backend::database::Rows;
use crate::backend::database::Statement;
use crate::backend::database::StatementView;
use crate::backend::sql::CREATE_CONTACTS_TABLE;
use crate::backend::sql::CREATE_NODEID_TABLE;
use crate::backend::sql::CREATE_USERNAME_TABLE;
use crate::backend::sql::DELETE_NODEID;
use crate::backend::sql::INSERT_CONTACT;
use crate::backend::sql::INSERT_NODEID;
use crate::backend::sql::INSERT_USERNAME;
use crate::backend::sql::SELECT_ALL_CONTACTS;
use crate::error::Error;
use crate::error::Res;
use crate::hexadecimal::hex_decode;
use crate::hexadecimal::hex_decoded;
use crate::hexadecimal::hex_encode;
use crate::hexadecimal::hex_encoded;
use crate::hexadecimal::law_hex_round_trip;
use crate::networking::contact::Contact;
use crate::networking::identity::public_key_of;
use crate::networking::identity::NodeId;
use crate::networking::identity::SecretKey;
use vstd::prelude::*;
use vstd::utf8::encode_utf8;

verus! {

/// The rows of a query, or its failure, with each cell as a sequence of
/// characters.
pub open spec fn rows_view(rows: Res<Rows>) -> Result<Seq<Seq<Seq<char>>>, Error> {
    match rows {
        Ok(rows) => Ok(rows.deep_view()),
        Err(error) => Err(error),
    }
}

/// The key that a stored text stands for: the text has to be the
/// hexadecimal form of 32 bytes.
pub open spec fn key_bytes(text: Seq<char>) -> Option<Seq<u8>> {
    match hex_decoded(encode_utf8(text)) {
        Some(bytes) => if bytes.len() == 32 {
            Some(bytes)
        } else {
            None
        },
        None => None,
    }
}

/// The key pair that the identity table holds: the first two cells of its
/// first row, if the query succeeded, the row is there, the first cell
/// stands for a secret key and the second for the public key that belongs
/// to it.
pub open spec fn stored_keys(rows: Result<Seq<Seq<Seq<char>>>, Error>) -> Option<
    (Seq<u8>, NodeId),
> {
    match rows {
        Ok(rows) => if rows.len() > 0 && rows[0].len() >= 2 {
            match (key_bytes(rows[0][0]), key_bytes(rows[0][1])) {
                (Some(secret), Some(public)) => if public == public_key_of(secret)@ {
                    Some((secret, public_key_of(secret)))
                } else {
                    None
                },
                _ => None,
            }
        } else {
            None
        },
        Err(_) => None,
    }
}

/// The statement with the text `sql` and no bound values.
pub open spec fn plain(sql: Seq<char>) -> StatementView {
    StatementView { sql, params: Seq::empty() }
}

/// The statements that store the key pair of `secret` in place of
/// whatever the identity table holds: one that empties the table, one that
/// inserts the secret key and the public key that belongs to it, each as
/// hexadecimal text.
pub open spec fn persisted(secret: Seq<u8>) -> Seq<StatementView> {
    seq![
        plain(DELETE_NODEID@),
        StatementView {
            sql: INSERT_NODEID@,
            params: seq![hex_encoded(secret), hex_encoded(public_key_of(secret)@)],
        },
    ]
}

/// The first username that the username table holds: the first cell of
/// its first row, if the query succeeded and the cell is there.
pub open spec fn stored_username(rows: Result<Seq<Seq<Seq<char>>>, Error>) -> Option<Seq<char>> {
    match rows {
        Ok(rows) => if rows.len() > 0 && rows[0].len() > 0 {
            Some(rows[0][0])
        } else {
            None
        },
        Err(_) => None,
    }
}

/// The bytes as the bytes of a key, if there are 32 of them.
fn to_key(bytes: &Vec<u8>) -> (key: Option<[u8; 32]>)
    ensures
        key is Some <==> bytes.len() == 32,
        key is Some ==> key->Some_0@ == bytes@,
{
    if bytes.len() != 32 {
        return None;
    }
    let mut array: [u8; 32] = [0u8; 32];
    let mut i: usize = 0;
    while i < 32
        invariant
            i <= 32,
            bytes.len() == 32,
            forall|j: int| 0 <= j < i ==> array[j] == bytes[j],
        decreases 32 - i,
    {
        array[i] = bytes[i];
        i = i + 1;
    }
    assert(array@ =~= bytes@);
    Some(array)
}

/// The bytes of the key that a stored cell stands for.
fn read_key(cell: &DatabaseParam) -> (key: Option<[u8; 32]>)
    ensures
        match key {
            Some(key) => key_bytes(cell@) == Some(key@),
            None => key_bytes(cell@) is None,
        },
{
    let text = cell.string();
    match hex_decode(text.as_str()) {
        Some(bytes) => to_key(&bytes),
        None => None,
    }
}

/// The statement with the text `sql` and no bound values.
fn statement(sql: &'static str) -> (statement: Statement)
    ensures
        statement@ == plain(sql@),
{
    Statement { sql, params: DatabaseParams::empty() }
}

/// The node's dealings with its store.
#[derive(Clone, Copy, Debug)]
pub struct DatabaseInterface;

impl DatabaseInterface {
    /// The statements that create the tables of the store, for the caller
    /// to run in this order without waiting for them.
    pub fn make_tables_nonblocking() -> (statements: Vec<Statement>)
        ensures
            statements.deep_view() == seq![
                plain(CREATE_NODEID_TABLE@),
                plain(CREATE_CONTACTS_TABLE@),
                plain(CREATE_USERNAME_TABLE@),
            ],
    {
        let mut statements: Vec<Statement> = Vec::new();
        statements.push(statement(CREATE_NODEID_TABLE));
        statements.push(statement(CREATE_CONTACTS_TABLE));
        statements.push(statement(CREATE_USERNAME_TABLE));
        assert(statements.deep_view() =~= seq![
            plain(CREATE_NODEID_TABLE@),
            plain(CREATE_CONTACTS_TABLE@),
            plain(CREATE_USERNAME_TABLE@),
        ]);
        statements
    }

    /// The key pair that the identity table holds, where `rows` is what
    /// the query `SELECT_NODEID` returned. `None` where there is none or
    /// where what is stored does not stand for a secret key and its public
    /// key.
    pub fn stored_node_id(rows: &Res<Rows>) -> (keys: Option<(SecretKey, NodeId)>)
        ensures
            match keys {
                Some((secret, public)) => stored_keys(rows_view(*rows)) == Some(
                    (secret@, public),
                ),
                None => stored_keys(rows_view(*rows)) is None,
            },
    {
        match rows {
            Ok(rows) => {
                if rows.len() == 0 {
                    return None;
                }
                let row = &rows[0];
                if row.len() < 2 {
                    return None;
                }
                match (read_key(&row[0]), read_key(&row[1])) {
                    (Some(secret), Some(public)) => {
                        let secret = SecretKey::from_bytes(&secret);
                        let stored = NodeId::from_bytes(&public);
                        let derived = secret.public();
                        proof {
                            if stored@ == derived@ {
                                NodeId::law_bytes_tell_identities_apart(stored, derived);
                            }
                        }
                        if stored == derived {
                            Some((secret, derived))
                        } else {
                            None
                        }
                    },
                    _ => None,
                }
            },
            Err(_) => None,
        }
    }

    /// The statements that store `secret` and the public key that belongs
    /// to it as the node's key pair, in place of whatever the identity
    /// table holds; for the caller to run in this order, waiting for each.
    pub fn persist_node_id(secret: &SecretKey) -> (statements: Vec<Statement>)
        ensures
            statements.deep_view() == persisted(secret@),
    {
        let mut values: Vec<DatabaseParam> = Vec::new();
        let secret_bytes = secret.to_bytes();
        let public = secret.public();
        values.push(DatabaseParam::String(hex_encode(secret_bytes.as_slice())));
        values.push(DatabaseParam::String(public.to_string()));
        assert(values.deep_view() =~= seq![
            hex_encoded(secret@),
            hex_encoded(public_key_of(secret@)@),
        ]);
        let mut statements: Vec<Statement> = Vec::new();
        statements.push(statement(DELETE_NODEID));
        statements.push(Statement { sql: INSERT_NODEID, params: DatabaseParams::new(values) });
        assert(statements.deep_view() =~= persisted(secret@));
        statements
    }

    /// The key pair of the node, where `rows` is what the query
    /// `SELECT_NODEID` returned, and the statements for the caller to run.
    /// The second key is always the public key that belongs to the first.
    ///
    /// Where the table holds a key pair, this is the pair and nothing is to
    /// be run. Where it holds none, or something that does not stand for a
    /// pair, the secret key is new and random, and the statements replace
    /// whatever the table holds by the new pair.
    pub fn get_node_id_blocking(rows: Res<Rows>) -> (result: (SecretKey, NodeId, Vec<Statement>))
        ensures
            result.1 == public_key_of(result.0@),
            match stored_keys(rows_view(rows)) {
                Some((secret, public)) => result.0@ == secret && result.1 == public
                    && result.2.deep_view() == Seq::<StatementView>::empty(),
                None => result.2.deep_view() == persisted(result.0@),
            },
    {
        match Self::stored_node_id(&rows) {
            Some((secret, public)) => {
                let nothing: Vec<Statement> = Vec::new();
                assert(nothing.deep_view() =~= Seq::<StatementView>::empty());
                (secret, public, nothing)
            },
            None => {
                let secret = SecretKey::generate();
                let public = secret.public();
                let statements = Self::persist_node_id(&secret);
                (secret, public, statements)
            },
        }
    }

    /// The query that lists the stored contacts: each row holds the text of
    /// an identity and a name.
    pub fn select_all_contacts() -> (query: Statement)
        ensures
            query@ == plain(SELECT_ALL_CONTACTS@),
    {
        statement(SELECT_ALL_CONTACTS)
    }

    /// The statement that stores `contact`.
    pub fn insert_contact(contact: Contact) -> (statement: Statement)
        ensures
            statement@ == (StatementView {
                sql: INSERT_CONTACT@,
                params: contact@.stored_params(),
            }),
    {
        Statement { sql: INSERT_CONTACT, params: contact.to_params() }
    }

    /// The stored username, where `rows` is what the query
    /// `SELECT_USERNAME` returned: the first cell of the first row.
    pub fn select_username(rows: Res<Rows>) -> (username: Option<String>)
        ensures
            crate::text::name_view(username) == stored_username(rows_view(rows)),
    {
        match rows {
            Ok(rows) => {
                if rows.len() == 0 {
                    return None;
                }
                let row = &rows[0];
                if row.len() == 0 {
                    return None;
                }
                Some(row[0].string())
            },
            Err(_) => None,
        }
    }

    /// The statement that stores `username`.
    pub fn insert_username(username: String) -> (statement: Statement)
        ensures
            statement@ == (StatementView { sql: INSERT_USERNAME@, params: seq![username@] }),
    {
        Statement {
            sql: INSERT_USERNAME,
            params: DatabaseParams::single(DatabaseParam::String(username)),
        }
    }
}

/// The identity table after the store has run `statement` on it:
/// `DELETE_NODEID` empties it, `INSERT_NODEID` adds the bound values as its
/// last row, and no other statement touches it.
pub open spec fn identity_table_after(
    rows: Seq<Seq<Seq<char>>>,
    statement: StatementView,
) -> Seq<Seq<Seq<char>>> {
    if statement.sql == DELETE_NODEID@ {
        Seq::empty()
    } else if statement.sql == INSERT_NODEID@ {
        rows.push(statement.params)
    } else {
        rows
    }
}

/// The identity table after the store has run `statements` on it, in
/// order.
pub open spec fn identity_table_after_all(
    rows: Seq<Seq<Seq<char>>>,
    statements: Seq<StatementView>,
) -> Seq<Seq<Seq<char>>>
    decreases statements.len(),
{
    if statements.len() == 0 {
        rows
    } else {
        identity_table_after_all(identity_table_after(rows, statements[0]), statements.skip(1))
    }
}

/// The two statements on the identity table are told apart by their text.
proof fn lemma_statements_differ()
    ensures
        DELETE_NODEID@ != INSERT_NODEID@,
{
    reveal_strlit("
    DELETE FROM NodeID;
");
    reveal_strlit("
    INSERT INTO NodeID
    VALUES(null, ?, ?)
");
    assert(DELETE_NODEID@.len() != INSERT_NODEID@.len());
}

/// Self-healing identity: whatever the identity table holds, be it
/// nothing or something that stands for no key pair, once the store has
/// run the statements that replace it, the table holds one row, and that
/// row stands for the pair that was persisted. The next start reads this
/// pair back and has nothing to write.
pub proof fn law_self_healing_identity(rows: Seq<Seq<Seq<char>>>, secret: Seq<u8>)
    requires
        secret.len() == 32,
    ensures
        identity_table_after_all(rows, persisted(secret)) == seq![
            seq![hex_encoded(secret), hex_encoded(public_key_of(secret)@)],
        ],
        stored_keys(Ok(identity_table_after_all(rows, persisted(secret)))) == Some(
            (secret, public_key_of(secret)),
        ),
{
    let public = public_key_of(secret);
    public.lemma_len();
    law_hex_round_trip(secret);
    law_hex_round_trip(public@);
    lemma_statements_differ();
    let statements = persisted(secret);
    let emptied = identity_table_after(rows, statements[0]);
    assert(emptied =~= Seq::<Seq<Seq<char>>>::empty());
    let rest = statements.skip(1);
    assert(rest[0] == statements[1]);
    let healed = identity_table_after(emptied, rest[0]);
    assert(healed =~= seq![seq![hex_encoded(secret), hex_encoded(public@)]]);
    assert(rest.skip(1).len() == 0);
    assert(identity_table_after_all(healed, rest.skip(1)) == healed);
    assert(identity_table_after_all(emptied, rest) == healed);
    assert(identity_table_after_all(rows, statements) == healed);
}

} // verus!
