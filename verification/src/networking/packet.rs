//! Packets and their frames on the wire.
//!
//! A frame is one byte for the kind of the packet, four bytes for the length
//! of the payload, most significant byte first, and then the payload.

use crate::error::Error;
use crate::error::Res;
use crate::networking::identity::NodeId;
use vstd::prelude::*;
use vstd::slice::slice_subrange;
use vstd::slice::slice_to_vec;

verus! {

/// The kind of a packet, as the first byte of its frame tells it.
#[derive(Copy, Clone, Debug, PartialEq, Eq, Structural)]
pub enum PacketType {
    /// No packet of the protocol: an unknown kind byte, or a failed read.
    Error,
    /// A chat message.
    String,
    /// The sender announces the identity under which it listens.
    Address,
    /// The sender announces its display name.
    Username,
}

impl PacketType {
    /// The kind that the byte `n` stands for.
    pub open spec fn spec_from_u8(n: u8) -> PacketType {
        if n == 1 {
            PacketType::String
        } else if n == 2 {
            PacketType::Address
        } else if n == 3 {
            PacketType::Username
        } else {
            PacketType::Error
        }
    }

    /// The byte that stands for the kind.
    pub open spec fn spec_to_u8(self) -> u8 {
        match self {
            PacketType::String => 1,
            PacketType::Address => 2,
            PacketType::Username => 3,
            PacketType::Error => 0,
        }
    }

    /// Reads a kind byte. Every byte is accepted: one that no kind uses
    /// reads as `Error`.
    #[verifier::when_used_as_spec(spec_from_u8)]
    pub fn from_u8(n: u8) -> (kind: PacketType)
        ensures
            kind == Self::spec_from_u8(n),
    {
        match n {
            1 => PacketType::String,
            2 => PacketType::Address,
            3 => PacketType::Username,
            _ => PacketType::Error,
        }
    }

    /// The kind byte of a frame of this kind.
    #[verifier::when_used_as_spec(spec_to_u8)]
    pub fn to_u8(self) -> (n: u8)
        ensures
            n == self.spec_to_u8(),
    {
        match self {
            PacketType::String => 1,
            PacketType::Address => 2,
            PacketType::Username => 3,
            _ => 0,
        }
    }

    /// Every kind is read back from its own byte.
    pub proof fn law_kind_byte_round_trip(kind: PacketType)
        ensures
            Self::spec_from_u8(kind.spec_to_u8()) == kind,
    {
    }
}

/// One unit of the protocol together with the peer it came from.
#[derive(Debug, PartialEq, Eq)]
pub struct Packet {
    pub author: NodeId,
    pub content: Res<Vec<u8>>,
    pub packet_type: PacketType,
}

/// What a `Packet` holds, with the payload as a sequence.
pub struct PacketView {
    pub author: NodeId,
    pub content: Result<Seq<u8>, Error>,
    pub packet_type: PacketType,
}

impl View for Packet {
    type V = PacketView;

    open spec fn view(&self) -> PacketView {
        PacketView {
            author: self.author,
            content: match self.content {
                Ok(payload) => Ok(payload@),
                Err(error) => Err(error),
            },
            packet_type: self.packet_type,
        }
    }
}

impl DeepView for Packet {
    type V = PacketView;

    open spec fn deep_view(&self) -> PacketView {
        self@
    }
}

impl Clone for Packet {
    fn clone(&self) -> (copy: Packet)
        ensures
            copy@ == self@,
    {
        let content = match &self.content {
            Ok(payload) => Ok(payload.clone()),
            Err(error) => Err(*error),
        };
        Packet { author: self.author, content, packet_type: self.packet_type }
    }
}

/// The kind and the payload that one frame carries.
pub struct Frame {
    pub packet_type: PacketType,
    pub payload: Seq<u8>,
}

/// The number that four bytes spell, most significant byte first.
pub open spec fn length_value(b0: u8, b1: u8, b2: u8, b3: u8) -> int {
    b0 * 16777216 + b1 * 65536 + b2 * 256 + b3
}

/// The four bytes that spell the low 32 bits of `n`, most significant byte
/// first.
#[verifier::opaque]
pub open spec fn length_field(n: nat) -> Seq<u8> {
    let low = n % 4294967296;
    seq![
        (low / 16777216) as u8,
        (low / 65536 % 256) as u8,
        (low / 256 % 256) as u8,
        (low % 256) as u8,
    ]
}

impl Frame {
    /// The bytes of the frame on the wire.
    pub open spec fn bytes(self) -> Seq<u8> {
        seq![self.packet_type.spec_to_u8()] + length_field(self.payload.len()) + self.payload
    }

    /// Whether the length field can hold the length of the payload.
    pub open spec fn fits(self) -> bool {
        self.payload.len() <= u32::MAX
    }

    /// The packet that the frame becomes when it arrives from `author`.
    pub open spec fn packet(self, author: NodeId) -> PacketView {
        PacketView { author, content: Ok(self.payload), packet_type: self.packet_type }
    }
}

/// The frames at the front of `buf`, in order. Reading stops where the
/// bytes that are left hold no complete frame.
pub open spec fn decoded(buf: Seq<u8>) -> Seq<Frame>
    decreases buf.len(),
{
    if buf.len() < 5 {
        Seq::empty()
    } else {
        let n = length_value(buf[1], buf[2], buf[3], buf[4]);
        if buf.len() < 5 + n {
            Seq::empty()
        } else {
            seq![Frame { packet_type: PacketType::spec_from_u8(buf[0]), payload: buf.subrange(5, 5 + n) }]
                + decoded(buf.skip(5 + n))
        }
    }
}

/// The bytes of `frames` on the wire, one frame after the other.
pub open spec fn encoded(frames: Seq<Frame>) -> Seq<u8>
    decreases frames.len(),
{
    if frames.len() == 0 {
        Seq::empty()
    } else {
        frames[0].bytes() + encoded(frames.skip(1))
    }
}

/// The packets that `buf` holds when it was read from `author`.
pub open spec fn received(author: NodeId, buf: Seq<u8>) -> Seq<PacketView> {
    decoded(buf).map_values(|frame: Frame| frame.packet(author))
}

impl Packet {
    /// The frame that carries `payload` as a packet of kind `packet_type`.
    ///
    /// The length field holds the low 32 bits of the payload's length.
    pub fn encode(payload: &Vec<u8>, packet_type: PacketType) -> (bytes: Vec<u8>)
        ensures
            bytes@ == (Frame { packet_type, payload: payload@ }).bytes(),
    {
        let length: u64 = payload.len() as u64;
        let low: u64 = length % 4294967296;
        let mut bytes: Vec<u8> = Vec::new();
        bytes.push(packet_type.to_u8());
        bytes.push((low / 16777216) as u8);
        bytes.push((low / 65536 % 256) as u8);
        bytes.push((low / 256 % 256) as u8);
        bytes.push((low % 256) as u8);
        let mut body = payload.clone();
        bytes.append(&mut body);
        proof {
            reveal(length_field);
            assert(low == payload@.len() % 4294967296);
            assert(bytes@ =~= (Frame { packet_type, payload: payload@ }).bytes());
        }
        bytes
    }

    /// Reads the complete frames at the front of `content` as packets from
    /// `author`. Bytes after the last complete frame are left unread; they
    /// are no failure.
    pub fn success(author: NodeId, content: Vec<u8>) -> (packets: Vec<Packet>)
        ensures
            packets.deep_view() == received(author, content@),
    {
        let mut packets: Vec<Packet> = Vec::new();
        let mut at: usize = 0;
        assert(content@.skip(0) =~= content@);
        while content.len() - at >= 5
            invariant
                at <= content.len(),
                received(author, content@) == packets.deep_view() + received(
                    author,
                    content@.skip(at as int),
                ),
            ensures
                received(author, content@) == packets.deep_view(),
            decreases content.len() - at,
        {
            let ghost rest = content@.skip(at as int);
            let packet_type = PacketType::from_u8(content[at]);
            let length: u32 = (content[at + 1] as u32) * 16777216 + (content[at + 2] as u32)
                * 65536 + (content[at + 3] as u32) * 256 + (content[at + 4] as u32);
            let payload_len: usize = length as usize;
            if content.len() - at - 5 < payload_len {
                assert(decoded(rest) =~= Seq::<Frame>::empty());
                assert(received(author, rest) =~= Seq::<PacketView>::empty());
                break ;
            }
            let payload = slice_to_vec(
                slice_subrange(content.as_slice(), at + 5, at + 5 + payload_len),
            );
            let ghost before = packets.deep_view();
            let packet = Packet { author, content: Ok(payload), packet_type };
            packets.push(packet);
            proof {
                let frame = Frame {
                    packet_type: PacketType::spec_from_u8(rest[0]),
                    payload: rest.subrange(5, 5 + payload_len),
                };
                assert(rest.subrange(5, 5 + payload_len) =~= content@.subrange(
                    at + 5,
                    at + 5 + payload_len,
                ));
                assert(rest.skip(5 + payload_len) =~= content@.skip(at + 5 + payload_len));
                assert(decoded(rest) =~= seq![frame] + decoded(content@.skip(at + 5 + payload_len)));
                assert(received(author, rest) =~= seq![frame.packet(author)] + received(
                    author,
                    content@.skip(at + 5 + payload_len),
                ));
                assert(packets.deep_view() =~= before.push(frame.packet(author)));
            }
            at = at + 5 + payload_len;
        }
        proof {
            if content.len() - at < 5 {
                assert(decoded(content@.skip(at as int)) =~= Seq::<Frame>::empty());
                assert(received(author, content@.skip(at as int)) =~= Seq::<PacketView>::empty());
            }
        }
        packets
    }

    /// The packet that reports that reading from `author` failed with
    /// `error`.
    pub fn failure(author: NodeId, error: Error) -> (packet: Packet)
        ensures
            packet@ == (PacketView { author, content: Err(error), packet_type: PacketType::Error }),
    {
        Packet { author, content: Err(error), packet_type: PacketType::Error }
    }
}

/// A length field is four bytes long.
pub proof fn lemma_length_field_len(n: nat)
    ensures
        length_field(n).len() == 4,
{
    reveal(length_field);
}

/// Four bytes spell back the length from which they were made.
pub proof fn lemma_length_round_trip(n: nat)
    requires
        n <= u32::MAX,
    ensures
        length_field(n).len() == 4,
        length_value(
            length_field(n)[0],
            length_field(n)[1],
            length_field(n)[2],
            length_field(n)[3],
        ) == n,
{
    reveal(length_field);
}

/// A frame at the front of a buffer is read first, and reading goes on
/// with the bytes behind it.
pub proof fn law_frame_then_rest(frame: Frame, rest: Seq<u8>)
    requires
        frame.fits(),
    ensures
        decoded(frame.bytes() + rest) == seq![frame] + decoded(rest),
{
    let buf = frame.bytes() + rest;
    let n = frame.payload.len() as int;
    lemma_length_round_trip(n as nat);
    let field = length_field(n as nat);
    assert(buf[0] == frame.packet_type.spec_to_u8());
    assert(buf[1] == field[0] && buf[2] == field[1] && buf[3] == field[2] && buf[4] == field[3]);
    assert(length_value(buf[1], buf[2], buf[3], buf[4]) == n);
    assert(buf.subrange(5, 5 + n) =~= frame.payload);
    assert(buf.skip(5 + n) =~= rest);
    PacketType::law_kind_byte_round_trip(frame.packet_type);
}

/// Round trip: reading the frame of a packet gives that packet, and no
/// other.
pub proof fn law_round_trip(author: NodeId, frame: Frame)
    requires
        frame.fits(),
    ensures
        decoded(frame.bytes()) == seq![frame],
        received(author, frame.bytes()) == seq![frame.packet(author)],
{
    law_frame_then_rest(frame, Seq::empty());
    assert(frame.bytes() + Seq::<u8>::empty() =~= frame.bytes());
    assert(received(author, frame.bytes()) =~= seq![frame.packet(author)]);
}

/// Multiplexing: two frames written one after the other are read as two
/// packets, in the order in which they were written.
pub proof fn law_multiplexing(author: NodeId, first: Frame, second: Frame)
    requires
        first.fits(),
        second.fits(),
    ensures
        decoded(first.bytes() + second.bytes()) == seq![first, second],
        received(author, first.bytes() + second.bytes()) == seq![
            first.packet(author),
            second.packet(author),
        ],
{
    law_frame_then_rest(first, second.bytes());
    law_round_trip(author, second);
    let frames = decoded(first.bytes() + second.bytes());
    assert(frames =~= seq![first, second]);
    assert(received(author, first.bytes() + second.bytes()) =~= seq![
        first.packet(author),
        second.packet(author),
    ]);
}

/// Any number of frames written one after the other are read as they were
/// written.
pub proof fn law_concatenation(frames: Seq<Frame>)
    requires
        forall|i: int| 0 <= i < frames.len() ==> (#[trigger] frames[i]).fits(),
    ensures
        decoded(encoded(frames)) == frames,
    decreases frames.len(),
{
    if frames.len() == 0 {
        assert(decoded(encoded(frames)) =~= frames);
    } else {
        let tail = frames.skip(1);
        assert forall|i: int| 0 <= i < tail.len() implies (#[trigger] tail[i]).fits() by {
            assert(tail[i] == frames[i + 1]);
        }
        law_concatenation(tail);
        law_frame_then_rest(frames[0], encoded(tail));
        assert(seq![frames[0]] + tail =~= frames);
    }
}

/// Partial frame: bytes behind a frame that are too few to hold a header
/// are left alone, and the frame before them is read all the same.
pub proof fn law_partial_frame(author: NodeId, frame: Frame, tail: Seq<u8>)
    requires
        frame.fits(),
        tail.len() < 5,
    ensures
        decoded(frame.bytes() + tail) == seq![frame],
        received(author, frame.bytes() + tail) == seq![frame.packet(author)],
{
    law_frame_then_rest(frame, tail);
    assert(decoded(tail) =~= Seq::<Frame>::empty());
    assert(seq![frame] + Seq::<Frame>::empty() =~= seq![frame]);
    assert(received(author, frame.bytes() + tail) =~= seq![frame.packet(author)]);
}

/// Reading takes whole frames only and goes as far as it can: the frames
/// that were read fill no more than the buffer, each of them is one that
/// could have been written, and the bytes behind them hold no complete
/// frame.
pub proof fn law_remainder_is_incomplete(buf: Seq<u8>)
    ensures
        forall|i: int| 0 <= i < decoded(buf).len() ==> (#[trigger] decoded(buf)[i]).fits(),
        encoded(decoded(buf)).len() <= buf.len(),
        decoded(buf.skip(encoded(decoded(buf)).len() as int)).len() == 0,
    decreases buf.len(),
{
    let frames = decoded(buf);
    if frames.len() == 0 {
        assert(encoded(frames) =~= Seq::<u8>::empty());
        assert(buf.skip(0) =~= buf);
    } else {
        let n = length_value(buf[1], buf[2], buf[3], buf[4]);
        let frame = Frame {
            packet_type: PacketType::spec_from_u8(buf[0]),
            payload: buf.subrange(5, 5 + n),
        };
        let rest = buf.skip(5 + n);
        law_remainder_is_incomplete(rest);
        let more = decoded(rest);
        assert(frames =~= seq![frame] + more);
        assert(frames.skip(1) =~= more);
        assert(frames[0] == frame);
        let k = encoded(more).len() as int;
        assert(encoded(frames) == frame.bytes() + encoded(more));
        lemma_length_field_len(n as nat);
        assert(frame.bytes().len() == 5 + n);
        assert(rest.skip(k) =~= buf.skip(5 + n + k));
        assert forall|i: int| 0 <= i < frames.len() implies (#[trigger] frames[i]).fits() by {
            if i > 0 {
                assert(frames[i] == more[i - 1]);
            }
        }
    }
}

} // verus!
