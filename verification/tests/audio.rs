use supertonic_openai::le_bytes::{push_le16, push_le32};
use supertonic_openai::opus_stream::{
    assemble_opus_ogg, create_opus_header, create_opus_tag, opus_frame_plan, FRAME_SIZE,
    OPUS_SAMPLE_RATE,
};
use supertonic_openai::wav::wav_format;

#[test]
fn le32_bytes_of_sample_rate() {
    let mut out = vec![9u8];
    push_le32(&mut out, 48000);
    assert_eq!(out, vec![9, 0x80, 0xbb, 0x00, 0x00]);
    let mut out = Vec::new();
    push_le32(&mut out, 0x0102_0304);
    assert_eq!(out, vec![4, 3, 2, 1]);
    let mut out = Vec::new();
    push_le16(&mut out, 0xabcd);
    assert_eq!(out, vec![0xcd, 0xab]);
}

#[test]
fn opus_header_at_48k() {
    let h = create_opus_header(48000);
    assert_eq!(
        h,
        vec![
            b'O', b'p', b'u', b's', b'H', b'e', b'a', b'd', 1, 1, 0, 0, 0x80, 0xbb, 0, 0, 0, 0, 0
        ]
    );
}

#[test]
fn opus_header_sample_rate_field_roundtrips() {
    let h = create_opus_header(24000);
    assert_eq!(h.len(), 19);
    let rate = u32::from_le_bytes([h[12], h[13], h[14], h[15]]);
    assert_eq!(rate, 24000);
}

#[test]
fn opus_tags_layout() {
    let t = create_opus_tag();
    let mut expected = b"OpusTags".to_vec();
    expected.extend_from_slice(&[5, 0, 0, 0]);
    expected.extend_from_slice(b"hal9k");
    expected.extend_from_slice(&[0, 0, 0, 0]);
    assert_eq!(t, expected);
}

#[test]
fn frame_plan_of_no_samples_is_empty() {
    assert!(opus_frame_plan(0).is_empty());
}

#[test]
fn frame_plan_exact_frames_has_no_end_of_stream() {
    let f = opus_frame_plan(1920);
    assert_eq!(f.len(), 2);
    assert_eq!((f[0].start, f[0].len, f[0].granule_pos, f[0].end_of_stream), (0, 960, 0, false));
    assert_eq!((f[1].start, f[1].len, f[1].granule_pos, f[1].end_of_stream), (960, 960, 960, false));
}

#[test]
fn frame_plan_short_last_frame_ends_stream() {
    let f = opus_frame_plan(1000);
    assert_eq!(f.len(), 2);
    assert_eq!((f[1].start, f[1].len, f[1].granule_pos, f[1].end_of_stream), (960, 40, 960, true));
    let f = opus_frame_plan(5);
    assert_eq!(f.len(), 1);
    assert_eq!((f[0].start, f[0].len, f[0].end_of_stream), (0, 5, true));
}

#[test]
fn frame_plan_tiles_the_samples() {
    let n = 10 * FRAME_SIZE + 123;
    let f = opus_frame_plan(n);
    let mut next = 0;
    for (i, fr) in f.iter().enumerate() {
        assert_eq!(fr.start, next);
        assert!(fr.len >= 1 && fr.len <= FRAME_SIZE);
        assert_eq!(fr.end_of_stream, i + 1 == f.len());
        next += fr.len;
    }
    assert_eq!(next, n);
}

#[test]
fn opus_ogg_stream_starts_with_header_page() {
    let packets = vec![vec![0xaa; 10], vec![0xbb; 3]];
    let bytes = assemble_opus_ogg(packets, 1000, 7);
    // First page: capture pattern, version 0, beginning-of-stream flag.
    assert_eq!(&bytes[0..4], b"OggS");
    assert_eq!(bytes[4], 0);
    assert_eq!(bytes[5], 0x02);
    // Granule position 0 and serial 7.
    assert_eq!(&bytes[6..14], &[0; 8]);
    assert_eq!(&bytes[14..18], &[7, 0, 0, 0]);
    // One segment holding the 19-byte identification header.
    assert_eq!(bytes[26], 1);
    assert_eq!(bytes[27], 19);
    assert_eq!(&bytes[28..47], create_opus_header(OPUS_SAMPLE_RATE).as_slice());
    // The second page holds the comment header.
    assert_eq!(&bytes[47..51], b"OggS");
    assert_eq!(bytes[47 + 26], 1);
    assert_eq!(bytes[47 + 27], 21);
    assert_eq!(&bytes[47 + 28..47 + 49], create_opus_tag().as_slice());
    // The last page ends the stream and holds both frames.
    let last = 47 + 49;
    assert_eq!(&bytes[last..last + 4], b"OggS");
    assert_eq!(bytes[last + 5], 0x04);
    assert_eq!(&bytes[last + 6..last + 14], &960u64.to_le_bytes());
    assert_eq!(bytes[last + 26], 2);
    assert_eq!(&bytes[last + 27..last + 29], &[10, 3]);
    assert_eq!(bytes.len(), last + 29 + 13);
}

#[test]
fn opus_ogg_stream_without_short_frame_leaves_last_page_open() {
    // 960 samples make one full frame: no packet ends the stream, so the
    // writer holds the frame back and only the two header pages are written.
    let bytes = assemble_opus_ogg(vec![vec![1, 2, 3]], 960, 1);
    assert_eq!(bytes.len(), 47 + 49);
}

#[test]
fn wav_format_is_mono_16_bit_pcm() {
    let f = wav_format(44100);
    assert_eq!(f.channels, 1);
    assert_eq!(f.sample_rate, 44100);
    assert_eq!(f.bits_per_sample, 16);
    assert!(f.integer_samples);
}

#[test]
fn opus_ogg_stream_for_961_samples() {
    // Two frames: a full one and one of a single sample; the second ends
    // the stream, so its page is written with the end-of-stream flag.
    let plan = opus_frame_plan(961);
    assert_eq!(plan.len(), 2);
    assert!(!plan[0].end_of_stream);
    assert!(plan[1].end_of_stream);
    assert_eq!((plan[1].start, plan[1].len), (960, 1));
    let bytes = assemble_opus_ogg(vec![vec![0x11; 5], vec![0x22; 4]], 961, 3);
    let last = 47 + 49;
    assert_eq!(&bytes[last..last + 4], b"OggS");
    assert_eq!(bytes[last + 5], 0x04);
    assert_eq!(&bytes[last + 14..last + 18], &[3, 0, 0, 0]);
    assert_eq!(bytes[last + 26], 2);
    assert_eq!(&bytes[last + 27..last + 29], &[5, 4]);
    assert_eq!(&bytes[last + 29..last + 34], &[0x11; 5]);
    assert_eq!(&bytes[last + 34..last + 38], &[0x22; 4]);
    assert_eq!(bytes.len(), last + 38);
}

#[test]
fn opus_ogg_stream_for_no_samples_has_only_headers() {
    let bytes = assemble_opus_ogg(Vec::new(), 0, 9);
    assert_eq!(bytes.len(), 47 + 49);
    assert_eq!(&bytes[47..51], b"OggS");
}
