//! Trusted interface to the `ogg` crate's packet writer.
//!
//! A writer is modelled by the log of packets handed to it: each entry is the
//! packet's bytes, the stream serial, the code of its end marker (see
//! [`PacketEnd::code`]) and the absolute granule position.
use vstd::prelude::*;
use ogg::{PacketWriteEndInfo, PacketWriter};

verus! {

/// An Ogg packet writer that writes into an in-memory buffer; what it holds
/// is described by [`ogg_packet_log`].
#[verifier::external_body]
pub struct OggWriter {
    inner: PacketWriter<'static, Vec<u8>>,
}

/// `std::io::Error`, the error of the packet writer, carried as it is.
#[verifier::external_type_specification]
#[verifier::external_body]
pub struct ExIoError(std::io::Error);

/// What a packet ends.
#[derive(Debug, Clone, Copy, PartialEq, Eq, Structural)]
pub enum PacketEnd {
    /// Neither a page nor the stream: a normal packet.
    Normal,
    /// The current page is closed after the packet.
    EndPage,
    /// The packet is the last of the logical stream.
    EndStream,
}

/// Code of [`PacketEnd::Normal`] in a packet log.
pub const END_NORMAL: u8 = 0;
/// Code of [`PacketEnd::EndPage`] in a packet log.
pub const END_PAGE: u8 = 1;
/// Code of [`PacketEnd::EndStream`] in a packet log.
pub const END_STREAM: u8 = 2;

impl PacketEnd {
    /// The code of the end marker in a packet log.
    pub open spec fn code(self) -> u8 {
        match self {
            PacketEnd::Normal => END_NORMAL,
            PacketEnd::EndPage => END_PAGE,
            PacketEnd::EndStream => END_STREAM,
        }
    }
}

/// The packets handed so far to a writer, in order.
pub uninterp spec fn ogg_packet_log(w: OggWriter) -> Seq<(Seq<u8>, u32, u8, u64)>;

/// The bytes that a fresh writer over an empty `Vec` holds after it was handed
/// the packets of `log`, in that order: the pages written so far (a page is
/// written when it fills up or a packet closes it).
pub uninterp spec fn ogg_stream_bytes(log: Seq<(Seq<u8>, u32, u8, u64)>) -> Seq<u8>;

/// The number of lacing segments a packet of `len` bytes takes.
pub open spec fn ogg_segments(len: nat) -> nat {
    len / 255 + 1
}

/// The number of lacing segments of all packets of `log`; each written page
/// holds at least one, so this bounds the page counter.
pub open spec fn ogg_log_segments(log: Seq<(Seq<u8>, u32, u8, u64)>) -> nat
    decreases log.len(),
{
    if log.len() == 0 {
        0
    } else {
        ogg_log_segments(log.drop_last()) + ogg_segments(log.last().0.len())
    }
}

/// `PacketWriter::new` over an empty `Vec<u8>`: the new writer has been
/// handed no packet.
#[verifier::external_body]
pub(crate) fn ogg_writer_new() -> (w: OggWriter)
    ensures
        ogg_packet_log(w) == Seq::<(Seq<u8>, u32, u8, u64)>::empty(),
{
    OggWriter { inner: PacketWriter::new(Vec::new()) }
}

/// `PacketWriter::write_packet`: the packet is appended to the writer's log.
/// The writer fails only when writing into its buffer fails, and writes into
/// a `Vec<u8>` do not fail, so the result is `Ok`. The page counter of the
/// crate is a `u32` that grows by one per page, and every page holds at least
/// one segment, so the total number of segments is bounded.
#[verifier::external_body]
pub(crate) fn ogg_write_packet(
    w: &mut OggWriter,
    data: Vec<u8>,
    serial: u32,
    end: PacketEnd,
    granule: u64,
) -> (r: Result<(), std::io::Error>)
    requires
        ogg_log_segments(ogg_packet_log(*old(w))) + ogg_segments(data@.len()) <= u32::MAX,
    ensures
        r is Ok,
        ogg_packet_log(*final(w)) == ogg_packet_log(*old(w)).push(
            (data@, serial, end.code(), granule),
        ),
{
    let info = match end {
        PacketEnd::Normal => PacketWriteEndInfo::NormalPacket,
        PacketEnd::EndPage => PacketWriteEndInfo::EndPage,
        PacketEnd::EndStream => PacketWriteEndInfo::EndStream,
    };
    w.inner.write_packet(data, serial, info, granule)
}

/// `PacketWriter::into_inner`: the bytes written for the packets of the log.
#[verifier::external_body]
pub(crate) fn ogg_writer_into_bytes(w: OggWriter) -> (bytes: Vec<u8>)
    ensures
        bytes@ == ogg_stream_bytes(ogg_packet_log(w)),
{
    w.inner.into_inner()
}

} // verus!
