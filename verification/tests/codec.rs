use pingpong::error::Error;
use pingpong::networking::identity::NodeId;
use pingpong::networking::network::relay_bytes;
use pingpong::networking::network::send_outcome;
use pingpong::networking::network::StreamRead;
use pingpong::networking::network::READ_LIMIT;
use pingpong::networking::packet::Packet;
use pingpong::networking::packet::PacketType;

fn author() -> NodeId {
    NodeId::from_bytes(&[7u8; 32])
}

fn packet(payload: &[u8], packet_type: PacketType) -> Packet {
    Packet { author: author(), content: Ok(payload.to_vec()), packet_type }
}

#[test]
fn kind_bytes_are_fixed() {
    assert_eq!(PacketType::Error.to_u8(), 0);
    assert_eq!(PacketType::String.to_u8(), 1);
    assert_eq!(PacketType::Address.to_u8(), 2);
    assert_eq!(PacketType::Username.to_u8(), 3);
    assert_eq!(PacketType::from_u8(0), PacketType::Error);
    assert_eq!(PacketType::from_u8(1), PacketType::String);
    assert_eq!(PacketType::from_u8(2), PacketType::Address);
    assert_eq!(PacketType::from_u8(3), PacketType::Username);
}

#[test]
fn unknown_kind_byte_reads_as_error() {
    assert_eq!(PacketType::from_u8(4), PacketType::Error);
    assert_eq!(PacketType::from_u8(255), PacketType::Error);
}

#[test]
fn every_kind_is_read_back_from_its_byte() {
    for kind in [PacketType::Error, PacketType::String, PacketType::Address, PacketType::Username] {
        assert_eq!(PacketType::from_u8(kind.to_u8()), kind);
    }
}

#[test]
fn encode_prepends_kind_and_big_endian_length() {
    let bytes = Packet::encode(&b"hi".to_vec(), PacketType::String);
    assert_eq!(bytes, vec![1, 0, 0, 0, 2, b'h', b'i']);
}

#[test]
fn encode_of_empty_payload_is_a_bare_header() {
    assert_eq!(Packet::encode(&Vec::new(), PacketType::Username), vec![3, 0, 0, 0, 0]);
}

#[test]
fn encode_spells_the_length_most_significant_byte_first() {
    let payload = vec![9u8; 0x0001_0203];
    let bytes = Packet::encode(&payload, PacketType::Address);
    assert_eq!(&bytes[..5], &[2, 0x00, 0x01, 0x02, 0x03]);
    assert_eq!(bytes.len(), 5 + 0x0001_0203);
    assert_eq!(&bytes[5..], payload.as_slice());
}

#[test]
fn round_trip_gives_the_one_packet() {
    for kind in [PacketType::Error, PacketType::String, PacketType::Address, PacketType::Username] {
        for payload in [&b""[..], &b"a"[..], &b"hello world"[..], &[0u8, 255, 1, 2][..]] {
            let read = Packet::success(author(), Packet::encode(&payload.to_vec(), kind));
            assert_eq!(read, vec![packet(payload, kind)]);
        }
    }
}

#[test]
fn round_trip_of_a_payload_longer_than_one_length_byte() {
    let payload: Vec<u8> = (0..70_000u32).map(|n| (n % 251) as u8).collect();
    let read = Packet::success(author(), Packet::encode(&payload, PacketType::String));
    assert_eq!(read, vec![packet(&payload, PacketType::String)]);
}

#[test]
fn two_frames_are_read_in_order() {
    let mut buf = Packet::encode(&b"one".to_vec(), PacketType::String);
    buf.extend(Packet::encode(&b"two!".to_vec(), PacketType::Username));
    let read = Packet::success(author(), buf);
    assert_eq!(read, vec![packet(b"one", PacketType::String), packet(b"two!", PacketType::Username)]);
}

#[test]
fn many_frames_are_read_in_order() {
    let mut buf = Vec::new();
    let mut expected = Vec::new();
    for n in 0..20u8 {
        let payload = vec![n; n as usize];
        buf.extend(Packet::encode(&payload, PacketType::from_u8(n % 4)));
        expected.push(packet(&payload, PacketType::from_u8(n % 4)));
    }
    assert_eq!(Packet::success(author(), buf), expected);
}

#[test]
fn four_trailing_bytes_are_left_alone() {
    let mut buf = Packet::encode(&b"hi".to_vec(), PacketType::String);
    buf.extend([1u8, 0, 0, 0]);
    assert_eq!(Packet::success(author(), buf), vec![packet(b"hi", PacketType::String)]);
}

#[test]
fn a_frame_with_a_missing_payload_byte_is_not_read() {
    let mut buf = Packet::encode(&b"hi".to_vec(), PacketType::String);
    let mut second = Packet::encode(&b"later".to_vec(), PacketType::String);
    second.pop();
    buf.extend(second);
    assert_eq!(Packet::success(author(), buf), vec![packet(b"hi", PacketType::String)]);
}

#[test]
fn fewer_than_five_bytes_hold_no_packet() {
    assert_eq!(Packet::success(author(), Vec::new()), Vec::new());
    assert_eq!(Packet::success(author(), vec![1, 0, 0, 0]), Vec::new());
}

#[test]
fn a_header_that_declares_more_than_there_is_holds_no_packet() {
    assert_eq!(Packet::success(author(), vec![1, 255, 255, 255, 255, 1, 2, 3]), Vec::new());
}

#[test]
fn unknown_kind_in_a_frame_decodes_as_error_with_its_payload() {
    let read = Packet::success(author(), vec![9, 0, 0, 0, 1, 42]);
    assert_eq!(read, vec![packet(&[42], PacketType::Error)]);
}

#[test]
fn failure_packet_carries_the_error() {
    let failed = Packet::failure(author(), Error::StreamCrashed);
    assert_eq!(failed.author, author());
    assert_eq!(failed.content, Err(Error::StreamCrashed));
    assert_eq!(failed.packet_type, PacketType::Error);
}

#[test]
fn clone_of_a_packet_is_equal() {
    let first = packet(b"copy me", PacketType::String);
    assert_eq!(first.clone(), first);
    let failed = Packet::failure(author(), Error::TooLong);
    assert_eq!(failed.clone(), failed);
}

#[test]
fn relay_of_bytes_gives_the_packets_and_keeps_reading() {
    let mut buf = Packet::encode(&b"a".to_vec(), PacketType::String);
    buf.extend(Packet::encode(&b"b".to_vec(), PacketType::String));
    let (forward, close) = relay_bytes(author(), StreamRead::Read(buf));
    assert_eq!(forward, vec![packet(b"a", PacketType::String), packet(b"b", PacketType::String)]);
    assert!(!close);
}

#[test]
fn relay_of_an_empty_read_reports_the_closed_stream() {
    let (forward, close) = relay_bytes(author(), StreamRead::Read(Vec::new()));
    assert_eq!(forward, vec![Packet::failure(author(), Error::StreamClosed)]);
    assert!(close);
}

#[test]
fn relay_of_a_failed_read_reports_it() {
    let (forward, close) = relay_bytes(author(), StreamRead::Failed);
    assert_eq!(forward, vec![Packet::failure(author(), Error::StreamReadFailed)]);
    assert!(close);
}

#[test]
fn relay_of_a_stream_that_is_too_long_reports_it() {
    let (forward, close) = relay_bytes(author(), StreamRead::TooLong);
    assert_eq!(forward, vec![Packet::failure(author(), Error::TooLong)]);
    assert!(close);
}

#[test]
fn relay_of_bytes_without_a_frame_forwards_nothing() {
    let (forward, close) = relay_bytes(author(), StreamRead::Read(vec![1, 0]));
    assert_eq!(forward, Vec::new());
    assert!(!close);
}

#[test]
fn read_limit_is_4096() {
    assert_eq!(READ_LIMIT, 4096);
}

#[test]
fn send_outcome_names_the_step_that_failed() {
    assert_eq!(send_outcome(true, true), Ok(()));
    assert_eq!(send_outcome(false, true), Err(Error::StreamClosed));
    assert_eq!(send_outcome(false, false), Err(Error::StreamClosed));
    assert_eq!(send_outcome(true, false), Err(Error::StreamCrashed));
}
