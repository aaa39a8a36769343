//! What the two ends of the transport decide: what becomes of the bytes
//! that a stream delivered, and what an attempt to send amounts to.

use crate::error::Error;
use crate::error::Res;
use crate::networking::identity::NodeId;
use crate::networking::packet::received;
use crate::networking::packet::Packet;
use crate::networking::packet::PacketType;
use crate::networking::packet::PacketView;
use vstd::prelude::*;

verus! {

/// The most bytes that one read of a stream accepts.
pub const READ_LIMIT: usize = 4096;

/// What reading a stream to its end gave.
#[derive(Debug, PartialEq, Eq)]
pub enum StreamRead {
    /// The bytes of the stream; none, where the stream was at its end.
    Read(Vec<u8>),
    /// The read failed.
    Failed,
    /// The stream held more than `READ_LIMIT` bytes.
    TooLong,
}

/// What a `StreamRead` holds, with the bytes as a sequence.
pub enum StreamReadView {
    Read(Seq<u8>),
    Failed,
    TooLong,
}

impl View for StreamRead {
    type V = StreamReadView;

    open spec fn view(&self) -> StreamReadView {
        match self {
            StreamRead::Read(bytes) => StreamReadView::Read(bytes@),
            StreamRead::Failed => StreamReadView::Failed,
            StreamRead::TooLong => StreamReadView::TooLong,
        }
    }
}

/// The packet that reports a failure of the stream from `foreign`.
pub open spec fn failure_packet(foreign: NodeId, error: Error) -> PacketView {
    PacketView { author: foreign, content: Err(error), packet_type: PacketType::Error }
}

/// The packets to put on the inbound queue for one read of a stream from
/// `foreign`: the packets that the bytes hold, or one packet that reports
/// why there are none.
pub open spec fn relayed(foreign: NodeId, read: StreamReadView) -> Seq<PacketView> {
    match read {
        StreamReadView::Read(bytes) => if bytes.len() == 0 {
            seq![failure_packet(foreign, Error::StreamClosed)]
        } else {
            received(foreign, bytes)
        },
        StreamReadView::Failed => seq![failure_packet(foreign, Error::StreamReadFailed)],
        StreamReadView::TooLong => seq![failure_packet(foreign, Error::TooLong)],
    }
}

/// Whether the stream is done with after this read: it is, unless the
/// read gave bytes.
pub open spec fn closes(read: StreamReadView) -> bool {
    match read {
        StreamReadView::Read(bytes) => bytes.len() == 0,
        _ => true,
    }
}

/// Decides what to do with one read of a stream from the inbound
/// connection `foreign`: which packets to put on the inbound queue, in
/// order, and whether to stop reading the stream afterwards.
///
/// Bytes are read as frames. An empty read, a failed read and a stream
/// that is too long each give one packet of kind `Error` that carries the
/// reason, so that the loop sees the end of a stream like any other packet.
pub fn relay_bytes(foreign: NodeId, read: StreamRead) -> (result: (Vec<Packet>, bool))
    ensures
        result.0.deep_view() == relayed(foreign, read@),
        result.1 == closes(read@),
{
    match read {
        StreamRead::Read(bytes) => {
            if bytes.len() == 0 {
                (one(Packet::failure(foreign, Error::StreamClosed)), true)
            } else {
                (Packet::success(foreign, bytes), false)
            }
        },
        StreamRead::Failed => (one(Packet::failure(foreign, Error::StreamReadFailed)), true),
        StreamRead::TooLong => (one(Packet::failure(foreign, Error::TooLong)), true),
    }
}

/// The list that holds `packet` alone.
fn one(packet: Packet) -> (packets: Vec<Packet>)
    ensures
        packets.deep_view() == seq![packet@],
{
    let mut packets: Vec<Packet> = Vec::new();
    packets.push(packet);
    assert(packets.deep_view() =~= seq![packet@]);
    packets
}

/// What an attempt to send a frame amounts to: `written` tells whether
/// the frame could be written to the stream, `finished` whether the stream
/// could be finished after that.
pub fn send_outcome(written: bool, finished: bool) -> (outcome: Res<()>)
    ensures
        outcome == if !written {
            Err::<(), Error>(Error::StreamClosed)
        } else if !finished {
            Err::<(), Error>(Error::StreamCrashed)
        } else {
            Ok::<(), Error>(())
        },
{
    if !written {
        Err(Error::StreamClosed)
    } else if !finished {
        Err(Error::StreamCrashed)
    } else {
        Ok(())
    }
}

} // verus!
