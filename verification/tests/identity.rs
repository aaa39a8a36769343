use pingpong::backend::database::DatabaseParam;
use pingpong::backend::database::DatabaseParams;
use pingpong::error::Error;
use pingpong::networking::contact::Contact;
use pingpong::networking::identity::NodeId;
use pingpong::networking::identity::SecretKey;

fn valid(seed: u8) -> iroh_base::PublicKey {
    iroh_base::SecretKey::from_bytes(&[seed; 32]).public()
}

#[test]
fn text_of_an_identity_is_lower_case_hex() {
    let mut bytes = [0u8; 32];
    for (i, byte) in bytes.iter_mut().enumerate() {
        *byte = (i as u8) * 8 + 3;
    }
    let text = NodeId::from_bytes(&bytes).to_string();
    assert_eq!(text, "030b131b232b333b434b535b636b737b838b939ba3abb3bbc3cbd3dbe3ebf3fb");
}

#[test]
fn text_of_an_identity_is_what_the_transport_prints() {
    for seed in [1u8, 2, 77, 200] {
        let key = valid(seed);
        assert_eq!(NodeId::from_bytes(key.as_bytes()).to_string(), key.to_string());
    }
}

fn read(text: &str) -> Result<NodeId, Error> {
    Contact::new(text.to_string(), String::new()).map(|contact| contact.server_address)
}

#[test]
fn identity_is_read_back_from_its_text() {
    for seed in [1u8, 9, 150] {
        let id = NodeId::from_bytes(valid(seed).as_bytes());
        assert_eq!(read(&id.to_string()), Ok(id));
    }
}

#[test]
fn known_identity_text_is_read() {
    let text = "ae58ff8833241ac82d6ff7611046ed67b5072d142c588d0063e942d9a75502b6";
    let id = read(text).unwrap();
    assert_eq!(id.as_bytes()[0], 0xae);
    assert_eq!(id.as_bytes()[31], 0xb6);
    assert_eq!(id.to_string(), text);
}

#[test]
fn identity_is_read_from_base32_text() {
    let key = valid(7);
    let text = data_text(key.as_bytes());
    assert_eq!(read(&text), Ok(NodeId::from_bytes(key.as_bytes())));
    assert_eq!(read(&text.to_lowercase()), Ok(NodeId::from_bytes(key.as_bytes())));
}

/// The bytes in base32 without padding, the other text that the transport
/// reads as an identity.
fn data_text(bytes: &[u8; 32]) -> String {
    let alphabet = b"ABCDEFGHIJKLMNOPQRSTUVWXYZ234567";
    let mut text = String::new();
    let mut buffer: u32 = 0;
    let mut bits = 0;
    for byte in bytes {
        buffer = (buffer << 8) | *byte as u32;
        bits += 8;
        while bits >= 5 {
            bits -= 5;
            text.push(alphabet[((buffer >> bits) & 31) as usize] as char);
        }
    }
    if bits > 0 {
        text.push(alphabet[((buffer << (5 - bits)) & 31) as usize] as char);
    }
    text
}

#[test]
fn text_that_is_no_identity_is_refused() {
    assert_eq!(read("foobarbaz"), Err(Error::RemoteIDFailed));
    assert_eq!(read(""), Err(Error::RemoteIDFailed));
    assert_eq!(read(&"zz".repeat(32)), Err(Error::RemoteIDFailed));
    // Upper-case hexadecimal is not the text of an identity.
    let id = NodeId::from_bytes(valid(1).as_bytes());
    let upper = id.to_string().to_uppercase();
    if upper != id.to_string() {
        assert_eq!(read(&upper), Err(Error::RemoteIDFailed));
    }
}

#[test]
fn identities_compare_by_their_bytes() {
    assert_eq!(NodeId::from_bytes(&[5; 32]), NodeId::from_bytes(&[5; 32]));
    let mut other = [5u8; 32];
    other[31] = 6;
    assert_ne!(NodeId::from_bytes(&[5; 32]), NodeId::from_bytes(&other));
    assert_eq!(NodeId::from_bytes(&other).as_bytes(), &other);
}

#[test]
fn secret_key_keeps_its_bytes() {
    let key = SecretKey::from_bytes(&[42; 32]);
    assert_eq!(key.to_bytes(), [42; 32]);
}

#[test]
fn contact_from_stored_text() {
    let id = NodeId::from_bytes(valid(3).as_bytes());
    let contact = Contact::new(id.to_string(), "carol".to_string()).unwrap();
    assert_eq!(contact.server_address, id);
    assert_eq!(contact.username, Some("carol".to_string()));
}

#[test]
fn contact_from_bad_text_fails() {
    assert_eq!(Contact::new("nonsense".to_string(), "carol".to_string()), Err(Error::RemoteIDFailed));
}

#[test]
fn contact_from_identity_has_no_name() {
    let contact = Contact::from_node_id(NodeId::from_bytes(&[1; 32]));
    assert_eq!(contact.server_address, NodeId::from_bytes(&[1; 32]));
    assert_eq!(contact.username, None);
    assert_eq!(contact.clone(), contact);
}

#[test]
fn contact_params_are_identity_text_and_name() {
    let id = NodeId::from_bytes(&[0xab; 32]);
    let named = Contact { server_address: id, username: Some("dave".to_string()) };
    assert_eq!(
        named.to_params(),
        DatabaseParams::new(vec![
            DatabaseParam::String("ab".repeat(32)),
            DatabaseParam::String("dave".to_string()),
        ])
    );
    let unnamed = Contact::from_node_id(id);
    assert_eq!(
        unnamed.to_params(),
        DatabaseParams::new(vec![
            DatabaseParam::String("ab".repeat(32)),
            DatabaseParam::String("Unknown".to_string()),
        ])
    );
}
