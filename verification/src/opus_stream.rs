//! Ogg Opus stream assembly: identification and comment headers, the framing
//! of the PCM samples, and the order in which packets go into the stream.
use vstd::prelude::*;
use crate::le_bytes::{from_le32, le16, le32, lemma_le32_roundtrip, push_le16, push_le32};
use crate::ogg_stream::{
    ogg_log_segments, ogg_packet_log, ogg_segments, ogg_stream_bytes, ogg_write_packet,
    ogg_writer_into_bytes, ogg_writer_new, PacketEnd, END_NORMAL, END_PAGE, END_STREAM,
};

verus! {

/// The sample rate at which the Opus encoder runs.
pub const OPUS_SAMPLE_RATE: u32 = 48000;
/// The length of one Opus frame in milliseconds.
pub const FRAME_SIZE_MS: usize = 20;
/// The number of samples in one frame: 20 ms at 48 kHz.
pub const FRAME_SIZE: usize = 960;
/// The granule position advances by this much per frame (48 kHz units).
pub const GRANULE_STEP: u64 = 960;
/// The encoder's target bit rate in bits per second.
pub const BITRATE: i32 = 64000;

/// The magic signature "OpusHead".
pub open spec fn opus_head_magic() -> Seq<u8> {
    seq![0x4fu8, 0x70u8, 0x75u8, 0x73u8, 0x48u8, 0x65u8, 0x61u8, 0x64u8]
}

/// The magic signature "OpusTags".
pub open spec fn opus_tags_magic() -> Seq<u8> {
    seq![0x4fu8, 0x70u8, 0x75u8, 0x73u8, 0x54u8, 0x61u8, 0x67u8, 0x73u8]
}

/// The vendor string "hal9k".
pub open spec fn opus_vendor() -> Seq<u8> {
    seq![0x68u8, 0x61u8, 0x6cu8, 0x39u8, 0x6bu8]
}

/// The identification header of a mono stream: magic, version 1, one
/// channel, no pre-skip, the input sample rate, no output gain and channel
/// mapping family 0.
pub open spec fn opus_header_bytes(sample_rate: u32) -> Seq<u8> {
    opus_head_magic() + seq![1u8, 1u8] + le16(0) + le32(sample_rate) + le16(0) + seq![0u8]
}

/// The comment header: magic, the vendor string with its length, and an
/// empty list of user comments.
pub open spec fn opus_tags_bytes() -> Seq<u8> {
    opus_tags_magic() + le32(5) + opus_vendor() + le32(0)
}

fn push_all(out: &mut Vec<u8>, bytes: &[u8])
    ensures
        final(out)@ == old(out)@ + bytes@,
{
    let mut i: usize = 0;
    while i < bytes.len()
        invariant
            i <= bytes.len(),
            out@ == old(out)@ + bytes@.take(i as int),
        decreases bytes.len() - i,
    {
        out.push(bytes[i]);
        i = i + 1;
        assert(out@ =~= old(out)@ + bytes@.take(i as int));
    }
    assert(bytes@.take(i as int) =~= bytes@);
}

/// Builds the Opus identification header for the given input sample rate.
pub fn create_opus_header(sample_rate: u32) -> (header: Vec<u8>)
    ensures
        header@ == opus_header_bytes(sample_rate),
        header@.len() == 19,
{
    let mut header: Vec<u8> = Vec::new();
    push_all(&mut header, &[0x4f, 0x70, 0x75, 0x73, 0x48, 0x65, 0x61, 0x64]);
    header.push(1);
    header.push(1);
    push_le16(&mut header, 0);
    push_le32(&mut header, sample_rate);
    push_le16(&mut header, 0);
    header.push(0);
    assert(header@ =~= opus_header_bytes(sample_rate));
    header
}

/// Builds the Opus comment header.
pub fn create_opus_tag() -> (tags: Vec<u8>)
    ensures
        tags@ == opus_tags_bytes(),
        tags@.len() == 21,
{
    let mut tags: Vec<u8> = Vec::new();
    push_all(&mut tags, &[0x4f, 0x70, 0x75, 0x73, 0x54, 0x61, 0x67, 0x73]);
    let vendor: [u8; 5] = [0x68, 0x61, 0x6c, 0x39, 0x6b];
    push_le32(&mut tags, 5);
    push_all(&mut tags, &vendor);
    push_le32(&mut tags, 0);
    assert(tags@ =~= opus_tags_bytes());
    tags
}

/// One frame of the input: `len` samples from `start`, zero-padded to a
/// full frame before encoding; `end_of_stream` marks a short last frame.
#[derive(Debug, Clone, Copy)]
pub struct OpusFrame {
    pub start: usize,
    pub len: usize,
    pub granule_pos: u64,
    pub end_of_stream: bool,
}

/// The number of frames that `n` samples are cut into.
pub open spec fn frame_count(n: nat) -> nat {
    (n + 959) / 960
}

/// The number of input samples in frame `i` of `n` samples.
pub open spec fn frame_len(n: nat, i: int) -> int {
    if n - 960 * i >= 960 {
        960
    } else {
        n - 960 * i
    }
}

/// Frame `i` of `n` samples, as the encoder loop walks them.
pub open spec fn is_frame(f: OpusFrame, n: nat, i: int) -> bool {
    &&& f.start == 960 * i
    &&& f.len == frame_len(n, i)
    &&& f.granule_pos == 960 * i
    &&& f.end_of_stream == (frame_len(n, i) < 960)
}

/// Cuts `n_samples` samples into consecutive frames of 960 samples (the last
/// one possibly shorter), each with the granule position at which it starts.
pub fn opus_frame_plan(n_samples: usize) -> (frames: Vec<OpusFrame>)
    ensures
        frames@.len() == frame_count(n_samples as nat),
        forall|i: int| 0 <= i < frames@.len() ==> is_frame(#[trigger] frames@[i], n_samples as nat, i),
        forall|i: int|
            0 <= i < frames@.len() ==> (#[trigger] frames@[i]).start == 960 * i
                && frames@[i].granule_pos == frames@[i].start,
        forall|i: int|
            0 <= i < frames@.len() ==> (#[trigger] frames@[i]).end_of_stream == (n_samples < 960 * (
            i + 1)) && frames@[i].len == (if n_samples < 960 * (i + 1) {
                n_samples - 960 * i
            } else {
                960
            }),
{
    let count: usize = n_samples / FRAME_SIZE + if n_samples % FRAME_SIZE != 0 { 1 } else { 0 };
    let mut frames: Vec<OpusFrame> = Vec::new();
    let mut i: usize = 0;
    while i < count
        invariant
            count == frame_count(n_samples as nat),
            i <= count,
            frames@.len() == i,
            forall|j: int| 0 <= j < i ==> is_frame(#[trigger] frames@[j], n_samples as nat, j),
        decreases count - i,
    {
        let start: usize = i * FRAME_SIZE;
        let rest: usize = n_samples - start;
        let len: usize = if rest >= FRAME_SIZE { FRAME_SIZE } else { rest };
        frames.push(OpusFrame {
            start,
            len,
            granule_pos: start as u64,
            end_of_stream: len < FRAME_SIZE,
        });
        i = i + 1;
    }
    proof {
        assert forall|i: int| 0 <= i < frames@.len() implies (#[trigger] frames@[i]).start == 960 * i
            && frames@[i].granule_pos == frames@[i].start && frames@[i].end_of_stream == (n_samples
            < 960 * (i + 1)) && frames@[i].len == (if n_samples < 960 * (i + 1) {
            n_samples - 960 * i
        } else {
            960
        }) by {
            lemma_frame_fields(frames@[i], n_samples as nat, i);
        }
    }
    frames
}

/// A frame starts at sample `960 * i`, its granule position is where it
/// starts, it holds the samples up to the next multiple of 960 or the end,
/// and it ends the stream exactly when the samples end before a full frame.
pub proof fn lemma_frame_fields(f: OpusFrame, n: nat, i: int)
    requires
        is_frame(f, n, i),
        0 <= i,
        960 * i < n,
    ensures
        f.start == 960 * i,
        f.granule_pos == f.start,
        f.end_of_stream <==> n < 960 * (i + 1),
        f.start + f.len == if n < 960 * (i + 1) {
            n as int
        } else {
            960 * (i + 1)
        },
        1 <= f.len <= 960,
{
}

/// The granule positions of consecutive frames are 960 apart.
pub proof fn lemma_consecutive_granules(f: OpusFrame, g: OpusFrame, n: nat, i: int)
    requires
        is_frame(f, n, i),
        is_frame(g, n, i + 1),
    ensures
        g.granule_pos == f.granule_pos + 960,
        g.start == f.start + 960,
{
}

/// The end marker of the packet of frame `i` of `n` samples.
pub open spec fn frame_end_marker(n: nat, i: int) -> u8 {
    if frame_len(n, i) < 960 {
        END_STREAM
    } else {
        END_NORMAL
    }
}

/// The packets of an Ogg Opus stream, in the order they are written: the
/// identification header and the comment header, each closing its page, then
/// one packet per encoded frame.
pub open spec fn opus_stream_log(packets: Seq<Seq<u8>>, n: nat, serial: u32) -> Seq<(Seq<u8>, u32, u8, u64)> {
    seq![
        (opus_header_bytes(OPUS_SAMPLE_RATE), serial, END_PAGE, 0u64),
        (opus_tags_bytes(), serial, END_PAGE, 0u64),
    ] + Seq::new(
        packets.len(),
        |i: int| (packets[i], serial, frame_end_marker(n, i), (960 * i) as u64),
    )
}

/// Writes an Ogg Opus stream: the two headers, then the encoded frames of
/// `n_samples` input samples (one packet per frame of [`opus_frame_plan`]).
/// The bytes are those of the packet sequence [`opus_stream_log`].
pub fn assemble_opus_ogg(encoded: Vec<Vec<u8>>, n_samples: usize, serial: u32) -> (bytes: Vec<u8>)
    requires
        encoded@.len() == frame_count(n_samples as nat),
        ogg_log_segments(
            opus_stream_log(encoded@.map_values(|p: Vec<u8>| p@), n_samples as nat, serial),
        ) <= u32::MAX,
    ensures
        bytes@ == ogg_stream_bytes(
            opus_stream_log(encoded@.map_values(|p: Vec<u8>| p@), n_samples as nat, serial),
        ),
{
    let ghost enc = encoded@;
    let total: usize = encoded.len();
    let ghost packets = encoded@.map_values(|p: Vec<u8>| p@);
    let ghost full = opus_stream_log(packets, n_samples as nat, serial);
    let mut writer = ogg_writer_new();
    let header = create_opus_header(OPUS_SAMPLE_RATE);
    let tags = create_opus_tag();
    proof {
        lemma_log_segments_prefix(full, 1);
        lemma_log_segments_prefix(full, 2);
        assert(full.take(1) =~= seq![full[0]]);
        assert(full.take(2) =~= seq![full[0], full[1]]);
    }
    let _ = ogg_write_packet(&mut writer, header, serial, PacketEnd::EndPage, 0);
    let _ = ogg_write_packet(&mut writer, tags, serial, PacketEnd::EndPage, 0);
    assert(ogg_packet_log(writer) =~= full.take(2));
    let mut rest = encoded;
    let mut i: usize = 0;
    while i < total
        invariant
            total == enc.len(),
            i <= total,
            rest@ == enc.skip(i as int),
            ogg_packet_log(writer) == full.take(i + 2),
            full == opus_stream_log(packets, n_samples as nat, serial),
            packets == enc.map_values(|p: Vec<u8>| p@),
            enc.len() == frame_count(n_samples as nat),
            ogg_log_segments(full) <= u32::MAX,
        decreases total - i,
    {
        let packet = rest.remove(0);
        let start: usize = i * FRAME_SIZE;
        let end = if n_samples - start < FRAME_SIZE {
            PacketEnd::EndStream
        } else {
            PacketEnd::Normal
        };
        proof {
            lemma_log_segments_prefix(full, i + 3);
            assert(full.take(i + 3) =~= full.take(i + 2).push(full[i + 2]));
            assert(full[i + 2] == (packet@, serial, end.code(), (start as u64)));
        }
        let _ = ogg_write_packet(&mut writer, packet, serial, end, start as u64);
        i = i + 1;
        proof {
            assert(rest@ =~= enc.skip(i as int));
        }
    }
    assert(full.take(i + 2) =~= full);
    ogg_writer_into_bytes(writer)
}

/// The sample rate field of the identification header (bytes 12 to 15)
/// decodes to the sample rate it was built with.
pub proof fn lemma_opus_header_sample_rate(sample_rate: u32)
    ensures
        opus_header_bytes(sample_rate).subrange(0, 8) == opus_head_magic(),
        opus_header_bytes(sample_rate).subrange(12, 16) == le32(sample_rate),
        from_le32(opus_header_bytes(sample_rate).subrange(12, 16)) == sample_rate,
        opus_header_bytes(sample_rate).len() == 19,
        opus_header_bytes(sample_rate)[8] == 1,
        opus_header_bytes(sample_rate)[9] == 1,
        opus_header_bytes(sample_rate).subrange(10, 12) == seq![0u8, 0u8],
        opus_header_bytes(sample_rate).subrange(16, 19) == seq![0u8, 0u8, 0u8],
{
    let h = opus_header_bytes(sample_rate);
    assert(h.subrange(0, 8) =~= opus_head_magic());
    assert(h.subrange(12, 16) =~= le32(sample_rate));
    assert(h.subrange(10, 12) =~= seq![0u8, 0u8]);
    assert(h.subrange(16, 19) =~= seq![0u8, 0u8, 0u8]);
    lemma_le32_roundtrip(sample_rate);
}

/// The comment header: "OpusTags", the vendor length 5 in little-endian,
/// the vendor "hal9k", and a comment count of 0.
pub proof fn lemma_opus_tags_layout()
    ensures
        opus_tags_bytes().len() == 21,
        opus_tags_bytes().subrange(0, 8) == opus_tags_magic(),
        from_le32(opus_tags_bytes().subrange(8, 12)) == 5,
        opus_tags_bytes().subrange(12, 17) == opus_vendor(),
        from_le32(opus_tags_bytes().subrange(17, 21)) == 0,
{
    let t = opus_tags_bytes();
    assert(t.subrange(0, 8) =~= opus_tags_magic());
    assert(t.subrange(8, 12) =~= le32(5));
    assert(t.subrange(12, 17) =~= opus_vendor());
    assert(t.subrange(17, 21) =~= le32(0));
    lemma_le32_roundtrip(5);
    lemma_le32_roundtrip(0);
}

/// The frames of `n` samples tile them: every frame holds between 1 and 960
/// samples, each starts where the one before ended, the last ends at `n`,
/// and only the last one can be short.
pub proof fn lemma_frames_tile(n: nat)
    ensures
        forall|i: int| 0 <= i < frame_count(n) ==> 1 <= #[trigger] frame_len(n, i) <= 960,
        forall|i: int|
            0 <= i < frame_count(n) - 1 ==> 960 * i + #[trigger] frame_len(n, i) == 960 * (i + 1),
        n > 0 ==> 960 * (frame_count(n) - 1) + frame_len(n, frame_count(n) - 1) == n,
        n == 0 ==> frame_count(n) == 0,
        forall|i: int| 0 <= i < frame_count(n) && #[trigger] frame_len(n, i) < 960 ==> i == frame_count(n) - 1,
{
    let c = frame_count(n);
    assert(960 * c >= n && 960 * c < n + 960) by (nonlinear_arith)
        requires
            c == (n + 959) / 960,
    ;
    assert forall|i: int| 0 <= i < c implies 1 <= #[trigger] frame_len(n, i) <= 960 by {
        assert(960 * i <= 960 * (c - 1)) by (nonlinear_arith)
            requires
                i <= c - 1,
        ;
    }
    assert forall|i: int| 0 <= i < c - 1 implies 960 * i + #[trigger] frame_len(n, i) == 960 * (i + 1) by {
        assert(960 * (i + 1) <= 960 * (c - 1)) by (nonlinear_arith)
            requires
                i + 1 <= c - 1,
        ;
    }
    assert forall|i: int| 0 <= i < c && #[trigger] frame_len(n, i) < 960 implies i == c - 1 by {
        if i < c - 1 {
            assert(960 * (i + 1) <= 960 * (c - 1)) by (nonlinear_arith)
                requires
                    i + 1 <= c - 1,
            ;
        }
    }
}

/// In an Ogg Opus stream the two headers come first, each closing its page,
/// the encoded frames follow in order with granule positions 960 apart, and
/// at most one packet, the last, ends the stream.
pub proof fn lemma_stream_layout(packets: Seq<Seq<u8>>, n: nat, serial: u32)
    requires
        packets.len() == frame_count(n),
        n <= usize::MAX,
    ensures
        ({
            let log = opus_stream_log(packets, n, serial);
            &&& log.len() == packets.len() + 2
            &&& log[0] == (opus_header_bytes(OPUS_SAMPLE_RATE), serial, END_PAGE, 0u64)
            &&& log[1] == (opus_tags_bytes(), serial, END_PAGE, 0u64)
            &&& forall|i: int| 0 <= i < packets.len() ==> (#[trigger] log[i + 2]).0 == packets[i]
                && log[i + 2].3 == 960 * i
            &&& forall|i: int| 0 <= i < log.len() && (#[trigger] log[i]).2 == END_STREAM ==> i
                == log.len() - 1
        }),
{
    lemma_frames_tile(n);
    let log = opus_stream_log(packets, n, serial);
    assert forall|i: int| 0 <= i < packets.len() implies (#[trigger] log[i + 2]).0 == packets[i]
        && log[i + 2].3 == 960 * i by {
        assert(960 * i <= 960 * frame_count(n)) by (nonlinear_arith)
            requires
                i <= frame_count(n),
        ;
        assert(960 * frame_count(n) < n + 960) by (nonlinear_arith)
            requires
                frame_count(n) == (n + 959) / 960,
        ;
    }
    assert forall|i: int| 0 <= i < log.len() && (#[trigger] log[i]).2 == END_STREAM implies i
        == log.len() - 1 by {
        if i >= 2 {
            assert(frame_len(n, i - 2) < 960);
        }
    }
}

/// In the packet log of a stream, the packet of frame `i` ends the stream
/// exactly when the samples end before frame `i` is full (a short last
/// frame); every other frame packet is a normal packet, and both headers
/// close their pages.
pub proof fn lemma_short_frame_ends_stream(packets: Seq<Seq<u8>>, n: nat, serial: u32)
    requires
        packets.len() == frame_count(n),
    ensures
        ({
            let log = opus_stream_log(packets, n, serial);
            &&& log[0].2 == END_PAGE
            &&& log[1].2 == END_PAGE
            &&& forall|i: int|
                0 <= i < packets.len() ==> ((#[trigger] log[i + 2]).2 == END_STREAM <==> n < 960 * (i
                    + 1))
            &&& forall|i: int|
                0 <= i < packets.len() ==> ((#[trigger] log[i + 2]).2 == END_NORMAL <==> n >= 960 * (
                i + 1))
            &&& forall|i: int| 0 <= i < packets.len() ==> (#[trigger] log[i + 2]).1 == serial
        }),
{
    let log = opus_stream_log(packets, n, serial);
    assert forall|i: int| 0 <= i < packets.len() implies ((#[trigger] log[i + 2]).2 == END_STREAM
        <==> n < 960 * (i + 1)) by {
        assert(log[i + 2] == (packets[i], serial, frame_end_marker(n, i), (960 * i) as u64));
    }
    assert forall|i: int| 0 <= i < packets.len() implies ((#[trigger] log[i + 2]).2 == END_NORMAL
        <==> n >= 960 * (i + 1)) by {
        assert(log[i + 2] == (packets[i], serial, frame_end_marker(n, i), (960 * i) as u64));
    }
    assert forall|i: int| 0 <= i < packets.len() implies (#[trigger] log[i + 2]).1 == serial by {
        assert(log[i + 2] == (packets[i], serial, frame_end_marker(n, i), (960 * i) as u64));
    }
}

/// The segments of a prefix of a log are at most those of the whole log.
proof fn lemma_log_segments_prefix(log: Seq<(Seq<u8>, u32, u8, u64)>, k: int)
    requires
        0 <= k <= log.len(),
    ensures
        ogg_log_segments(log.take(k)) <= ogg_log_segments(log),
        k >= 1 ==> ogg_log_segments(log.take(k)) == ogg_log_segments(log.take(k - 1))
            + ogg_segments(log[k - 1].0.len()),
    decreases log.len(),
{
    if k >= 1 {
        assert(log.take(k).drop_last() =~= log.take(k - 1));
    }
    if k < log.len() {
        lemma_log_segments_prefix(log.drop_last(), k);
        assert(log.drop_last().take(k) =~= log.take(k));
        if k >= 1 {
            assert(log.drop_last().take(k - 1) =~= log.take(k - 1));
        }
    } else {
        assert(log.take(k) =~= log);
    }
}

} // verus!
