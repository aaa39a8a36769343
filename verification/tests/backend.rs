use pingpong::backend::database::DatabaseParam;
use pingpong::backend::database::DatabaseParams;
use pingpong::backend::database::Statement;
use pingpong::backend::database_interface::DatabaseInterface;
use pingpong::backend::directory::Directory;
use pingpong::backend::sql::CREATE_CONTACTS_TABLE;
use pingpong::backend::sql::CREATE_NODEID_TABLE;
use pingpong::backend::sql::CREATE_USERNAME_TABLE;
use pingpong::backend::sql::DELETE_NODEID;
use pingpong::backend::sql::INSERT_CONTACT;
use pingpong::backend::sql::INSERT_NODEID;
use pingpong::backend::sql::INSERT_USERNAME;
use pingpong::backend::sql::SELECT_ALL_CONTACTS;
use pingpong::error::Error;
use pingpong::networking::contact::Contact;
use pingpong::networking::identity::NodeId;
use pingpong::networking::identity::SecretKey;

fn cell(text: &str) -> DatabaseParam {
    DatabaseParam::String(text.to_string())
}

fn plain(sql: &'static str) -> Statement {
    Statement { sql, params: DatabaseParams::empty() }
}

#[test]
fn tables_are_created_in_order() {
    assert_eq!(
        DatabaseInterface::make_tables_nonblocking(),
        vec![plain(CREATE_NODEID_TABLE), plain(CREATE_CONTACTS_TABLE), plain(CREATE_USERNAME_TABLE)]
    );
}

/// The bytes of the public key that belongs to the secret key `secret`.
fn public_of(secret: &[u8; 32]) -> [u8; 32] {
    *iroh_base::SecretKey::from_bytes(secret).public().as_bytes()
}

/// The row that stands for the key pair of `secret`.
fn pair_row(secret: &[u8; 32]) -> Vec<DatabaseParam> {
    vec![cell(&hex::encode(secret)), cell(&hex::encode(public_of(secret)))]
}

#[test]
fn stored_identity_is_returned_and_nothing_is_written() {
    let (secret, public, statements) = DatabaseInterface::get_node_id_blocking(Ok(vec![pair_row(&[1; 32])]));
    assert_eq!(secret.to_bytes(), [1; 32]);
    assert_eq!(public, NodeId::from_bytes(&public_of(&[1; 32])));
    assert_eq!(statements, Vec::new());
}

#[test]
fn stored_identity_reads_digits_of_either_case() {
    let row = vec![cell(&"aB".repeat(32)), cell(&hex::encode_upper(public_of(&[0xab; 32])))];
    let keys = DatabaseInterface::stored_node_id(&Ok(vec![row])).unwrap();
    assert_eq!(keys.0.to_bytes(), [0xab; 32]);
    assert_eq!(keys.1, NodeId::from_bytes(&public_of(&[0xab; 32])));
}

#[test]
fn only_the_first_row_counts() {
    let mut first = pair_row(&[0x11; 32]);
    first.push(cell("ignored"));
    let rows = Ok(vec![first, pair_row(&[0x33; 32])]);
    let keys = DatabaseInterface::stored_node_id(&rows).unwrap();
    assert_eq!(keys.0.to_bytes(), [0x11; 32]);
    assert_eq!(keys.1, NodeId::from_bytes(&public_of(&[0x11; 32])));
}

#[test]
fn malformed_identity_is_replaced_and_comes_back_the_same() {
    let malformed = vec![
        Ok(vec![vec![cell("not hex at all"), cell(&"00".repeat(32))]]),
        Ok(vec![vec![cell(&"00".repeat(32)), cell(&"00".repeat(31))]]),
        Ok(vec![vec![cell(&"0".repeat(63)), cell(&"00".repeat(32))]]),
        Ok(vec![vec![cell(&"00".repeat(33)), cell(&"00".repeat(32))]]),
        Ok(vec![vec![cell(&"00".repeat(32))]]),
        // Two keys that are no pair.
        Ok(vec![vec![cell(&"01".repeat(32)), cell(&hex::encode(public_of(&[2; 32])))]]),
        Ok(vec![vec![cell(&"01".repeat(32)), cell(&"02".repeat(32))]]),
        Ok(vec![vec![]]),
        Ok(vec![]),
        Err(Error::Unknown),
    ];
    for rows in malformed {
        assert!(DatabaseInterface::stored_node_id(&rows).is_none());
        let (secret, public, statements) = DatabaseInterface::get_node_id_blocking(rows);
        assert_eq!(public, NodeId::from_bytes(&public_of(&secret.to_bytes())));
        assert_eq!(statements.len(), 2);
        assert_eq!(statements[0], plain(DELETE_NODEID));
        assert_eq!(statements[1].sql, INSERT_NODEID);
        // The store after the two statements: the inserted row alone.
        let stored = Ok(vec![statements[1].params.values().clone()]);
        let (again_secret, again_public, nothing) = DatabaseInterface::get_node_id_blocking(stored);
        assert_eq!(again_secret.to_bytes(), secret.to_bytes());
        assert_eq!(again_public, public);
        assert_eq!(nothing, Vec::new());
    }
}

#[test]
fn new_identities_differ() {
    let (first, _, _) = DatabaseInterface::get_node_id_blocking(Ok(vec![]));
    let (second, _, _) = DatabaseInterface::get_node_id_blocking(Ok(vec![]));
    assert_ne!(first.to_bytes(), second.to_bytes());
}

#[test]
fn persisted_identity_is_the_pair_in_lower_case_hex() {
    let mut secret = [0u8; 32];
    secret[0] = 0xde;
    secret[31] = 0x0a;
    let statements = DatabaseInterface::persist_node_id(&SecretKey::from_bytes(&secret));
    let mut text = "00".repeat(32);
    text.replace_range(0..2, "de");
    text.replace_range(62..64, "0a");
    assert_eq!(
        statements,
        vec![
            plain(DELETE_NODEID),
            Statement {
                sql: INSERT_NODEID,
                params: DatabaseParams::new(vec![cell(&text), cell(&hex::encode(public_of(&secret)))]),
            },
        ]
    );
}

#[test]
fn contacts_query_has_no_params() {
    assert_eq!(DatabaseInterface::select_all_contacts(), plain(SELECT_ALL_CONTACTS));
}

#[test]
fn contact_is_inserted_with_identity_text_and_name() {
    let contact = Contact { server_address: NodeId::from_bytes(&[0x10; 32]), username: Some("eve".to_string()) };
    assert_eq!(
        DatabaseInterface::insert_contact(contact),
        Statement {
            sql: INSERT_CONTACT,
            params: DatabaseParams::new(vec![cell(&"10".repeat(32)), cell("eve")]),
        }
    );
}

#[test]
fn username_is_the_first_cell_of_the_first_row() {
    let rows = Ok(vec![vec![cell("alice"), cell("x")], vec![cell("bob")]]);
    assert_eq!(DatabaseInterface::select_username(rows), Some("alice".to_string()));
}

#[test]
fn username_is_absent_without_rows_or_on_failure() {
    assert_eq!(DatabaseInterface::select_username(Ok(vec![])), None);
    assert_eq!(DatabaseInterface::select_username(Ok(vec![vec![]])), None);
    assert_eq!(DatabaseInterface::select_username(Err(Error::Unknown)), None);
}

#[test]
fn username_is_inserted_as_the_single_param() {
    assert_eq!(
        DatabaseInterface::insert_username("alice".to_string()),
        Statement { sql: INSERT_USERNAME, params: DatabaseParams::single(cell("alice")) }
    );
}

#[test]
fn params_constructors_agree() {
    assert_eq!(DatabaseParams::empty(), DatabaseParams::new(vec![]));
    assert_eq!(DatabaseParams::single(cell("a")), DatabaseParams::new(vec![cell("a")]));
    assert_eq!(DatabaseParams::single(cell("a")).values(), &vec![cell("a")]);
    assert_eq!(cell("text").string(), "text");
    assert_eq!(cell("text").clone(), cell("text"));
}

#[test]
fn directory_is_taken_when_located_and_present() {
    let directory = Directory::create_or_load(Some("/data/pingpong".to_string()), true).unwrap();
    assert_eq!(directory.get(), "/data/pingpong");
    assert_eq!(directory.get_ref(), "/data/pingpong");
}

#[test]
fn directory_fails_without_location_or_presence() {
    assert_eq!(Directory::create_or_load(None, true), Err(Error::FailedToFindLocation));
    assert_eq!(Directory::create_or_load(None, false), Err(Error::FailedToFindLocation));
    assert_eq!(
        Directory::create_or_load(Some("/data/pingpong".to_string()), false),
        Err(Error::FailedToFindLocation)
    );
}
