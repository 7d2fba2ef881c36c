use coderadio::probe::{is_openable, probe, report, Download, Outcome, PROBE_CHUNK};

/// Silent frames of MPEG-1 layer III: 128 kbps, 44.1 kHz, two channels.
fn silent_frames(n: usize) -> Vec<u8> {
    let mut body = Vec::new();
    for _ in 0..n {
        let mut frame = vec![0u8; 417];
        frame[..4].copy_from_slice(&[0xff, 0xfb, 0x90, 0x00]);
        body.extend_from_slice(&frame);
    }
    body
}

#[test]
fn silence_is_decoded_and_measured() {
    match probe(silent_frames(100)) {
        Outcome::Decoded(line) => assert_eq!(
            line,
            "probe: ok — 2 ch, 44100 Hz, 230400 samples (~2s audio)"
        ),
        other => panic!("{other:?}"),
    }
}

#[test]
fn garbage_is_not_decoded() {
    match probe(vec![0u8; 5000]) {
        Outcome::Failed(line) => {
            assert!(line.starts_with("probe: decode failed: "));
            assert!(line.len() > "probe: decode failed: ".len());
        }
        other => panic!("{other:?}"),
    }
    assert!(matches!(probe(Vec::new()), Outcome::Failed(_)));
}

#[test]
fn report_values() {
    assert_eq!(
        report(2, 44100, 88200),
        "probe: ok — 2 ch, 44100 Hz, 88200 samples (~1s audio)"
    );
    assert_eq!(
        report(1, 48000, 47999),
        "probe: ok — 1 ch, 48000 Hz, 47999 samples (~0s audio)"
    );
    assert_eq!(
        report(65535, 1, u64::MAX),
        format!(
            "probe: ok — 65535 ch, 1 Hz, 18446744073709551615 samples (~{}s audio)",
            u64::MAX / 65535
        )
    );
}

/// A silent frame with a tag in place of audio: its name, a byte of flags and
/// the frame count behind it. A VBRI tag has a version in front of these, and its
/// own frame count, here a hundred, behind them.
fn tag_frame(name: &[u8], flags: u8, count: [u8; 4]) -> Vec<u8> {
    let mut frame = silent_frames(1);
    frame[36..40].copy_from_slice(name);
    if name == b"VBRI" {
        frame[41] = 1;
        frame[53] = 100;
    }
    frame[43] = flags;
    frame[44..48].copy_from_slice(&count);
    frame
}

/// A frame with a tag by an encoder that names samples before and after the
/// audio.
fn encoder_frame(encoder: &[u8], count: u8, gaps: [u8; 3]) -> Vec<u8> {
    let mut frame = tag_frame(b"Info", 1, [0, 0, 0, count]);
    frame[48..52].copy_from_slice(encoder);
    frame[69..72].copy_from_slice(&gaps);
    frame
}

/// Put the right checksum into such a frame.
fn with_checksum(mut frame: Vec<u8>) -> Vec<u8> {
    let mut crc: u16 = 0;
    for byte in &frame[..82] {
        crc ^= *byte as u16;
        for _ in 0..8 {
            crc = if crc & 1 == 1 { (crc >> 1) ^ 0xa001 } else { crc >> 1 };
        }
    }
    frame[82..84].copy_from_slice(&crc.to_be_bytes());
    frame
}

/// Pieces, one after the other.
fn join(pieces: &[Vec<u8>]) -> Vec<u8> {
    pieces.concat()
}

/// An ID3v2 tag.
fn id3(version: u8, flags: u8, body: &[u8]) -> Vec<u8> {
    let n = body.len();
    let mut tag = vec![0x49, 0x44, 0x33, version, 0, flags, 0, 0, (n / 128) as u8, (n % 128) as u8];
    tag.extend_from_slice(body);
    tag
}

/// What a probe of decodable audio reports: two channels at 44100 hertz, and so
/// many samples.
fn reported(body: Vec<u8>) -> u64 {
    match probe(body) {
        Outcome::Decoded(line) => {
            let rest = line.strip_prefix("probe: ok — 2 ch, 44100 Hz, ").unwrap();
            rest.split(' ').next().unwrap().parse().unwrap()
        }
        other => panic!("{other:?}"),
    }
}

fn refused(body: Vec<u8>) -> bool {
    assert_eq!(is_openable(&body), !matches!(probe(body.clone()), Outcome::Refused));
    !is_openable(&body)
}

#[test]
fn leading_tag_before_audio_is_no_audio() {
    for name in [b"Xing", b"Info", b"VBRI"] {
        match probe(join(&[tag_frame(name, 0, [0; 4]), silent_frames(100)])) {
            Outcome::Decoded(line) => assert_eq!(
                line,
                "probe: ok — 2 ch, 44100 Hz, 230400 samples (~2s audio)"
            ),
            other => panic!("{other:?}"),
        }
    }
}

#[test]
fn leading_tag_needs_a_frame_after_it() {
    for name in [b"Xing", b"Info", b"VBRI"] {
        let tag = tag_frame(name, 0, [0; 4]);
        assert!(refused(tag.clone()));
        assert!(refused(join(&[tag.clone(), vec![0xff, 0xfb, 0x90]])));
        let mut body = join(&[tag.clone(), silent_frames(1)]);
        assert_eq!(reported(body.clone()), 2304);
        body.pop();
        assert!(refused(body));
        let mut body = join(&[tag, silent_frames(10)]);
        body.truncate(36 + 2 * 1441 - 1);
        assert_eq!(reported(body), 5 * 2304);
    }
}

#[test]
fn tags_in_a_row_are_skipped() {
    let tag = tag_frame(b"Info", 0, [0; 4]);
    assert_eq!(reported(join(&[tag.clone(), tag.clone(), silent_frames(10)])), 23040);
    assert!(refused(join(&[tag.clone(), tag.clone()])));
    let junk = vec![7u8; 50];
    assert_eq!(reported(join(&[tag.clone(), tag.clone(), junk.clone(), silent_frames(1)])), 2304);
    assert!(refused(join(&[tag.clone(), tag.clone(), junk])));
    assert_eq!(reported(join(&[silent_frames(10), tag])), 23040);
}

#[test]
fn tag_that_needs_more_room_is_audio() {
    let mut frame = silent_frames(1);
    frame.truncate(104);
    frame[2] = 0x10;
    let audio = frame.clone();
    frame[36..40].copy_from_slice(b"Xing");
    assert!(refused(frame.clone()));
    frame[43] = 4;
    assert_eq!(reported(join(&[frame, audio])), 4608);
}

#[test]
fn frame_count_covers_what_the_encoder_added() {
    // 14 frames are 16128 samples; a bare tag adds none.
    let bare = tag_frame(b"Xing", 1, [0, 0, 0, 14]);
    assert_eq!(reported(join(&[bare, silent_frames(20)])), 2 * 16128);
    // 576 samples before the audio and 529 of the decoder are more than 0 frames
    // have, and fewer than 1 frame has.
    let gaps = [0x24, 0x00, 0x00];
    for encoder in [b"Lavf", b"Lavc"] {
        let none = encoder_frame(encoder, 0, gaps);
        assert!(refused(join(&[none, silent_frames(2)])));
        let one = encoder_frame(encoder, 1, gaps);
        assert!(!refused(join(&[one, silent_frames(2)])));
    }
    // 1152 = 529 + 0x26f; one more after the audio is one too many.
    let exact = encoder_frame(b"Lavf", 1, [0x26, 0xf2, 0x11]);
    assert!(!refused(join(&[exact, silent_frames(2)])));
    let over = encoder_frame(b"Lavf", 1, [0x26, 0xf2, 0x12]);
    assert!(refused(join(&[over, silent_frames(2)])));
    let other = encoder_frame(b"GOGO", 0, gaps);
    assert!(!refused(join(&[other, silent_frames(2)])));
}

#[test]
fn encoder_is_believed_with_the_right_checksum() {
    let gaps = [0x24, 0x00, 0x00];
    let wrong = encoder_frame(b"LAME", 0, gaps);
    assert!(!refused(join(&[wrong.clone(), silent_frames(2)])));
    let right = with_checksum(wrong);
    assert!(refused(join(&[right, silent_frames(2)])));
    let enough = with_checksum(encoder_frame(b"LAME", 1, gaps));
    assert!(!refused(join(&[enough, silent_frames(2)])));
    let mut checked = encoder_frame(b"Lavf", 0, gaps);
    checked[1] = 0xfa;
    let mut after = silent_frames(2);
    after[1] = 0xfa;
    assert!(!refused(join(&[checked.clone(), after.clone()])));
    assert!(refused(join(&[with_checksum(checked), after])));
}

#[test]
fn id3_tag_that_restricts_text_is_refused() {
    let mut body = vec![0x49, 0x44, 0x33, 4, 0, 0x40, 0, 0, 0, 0x10];
    body.extend_from_slice(&[0, 0, 0, 8, 1, 0x10, 1, 0x40]);
    body.extend_from_slice(&[1; 8]);
    assert!(refused(body.clone()));
    body[17] = 0x3f;
    assert!(!refused(body));
    let extended = [0, 0, 0, 15, 1, 0x70, 1, 5, 0, 0, 0, 0, 0, 1, 0x40, 0, 0, 0, 0];
    assert!(refused(join(&[id3(4, 0x40, &extended), silent_frames(2)])));
    assert!(refused(join(&[id3(3, 0, &[0; 20]), id3(4, 0x40, &extended), silent_frames(2)])));
    assert!(!refused(join(&[silent_frames(2), id3(4, 0x40, &extended)])));
    for (at, byte) in [(6, 2), (7, 4), (13, 2), (5, 0x60), (4, 2)] {
        let mut other = extended;
        other[at] = byte;
        assert!(!refused(join(&[id3(4, 0x40, &other), silent_frames(2)])));
    }
    assert!(!refused(join(&[id3(4, 0x40, &extended[..14]), silent_frames(2)])));
    assert_eq!(reported(join(&[id3(4, 0, &extended), silent_frames(2)])), 4608);
}

#[test]
fn audio_after_id3_tags_is_entered() {
    let title = [0x54, 0x49, 0x54, 0x32, 0, 0, 0, 2, 0, 0, 0, 0x41];
    let tag = id3(3, 0, &title);
    let empty = tag_frame(b"Info", 0, [0; 4]);
    assert_eq!(reported(join(&[tag.clone(), silent_frames(3)])), 6912);
    assert_eq!(reported(join(&[tag.clone(), tag.clone(), empty.clone(), silent_frames(3)])), 6912);
    assert!(refused(join(&[tag.clone(), empty.clone()])));
    assert!(refused(join(&[tag.clone(), vec![9; 30], tag, empty.clone()])));
    // Text in an unknown encoding cannot be read, so the audio is never reached.
    let mut unknown = title;
    unknown[10] = 9;
    assert!(matches!(probe(join(&[id3(3, 0, &unknown), empty.clone()])), Outcome::Failed(_)));
    assert!(matches!(probe(join(&[id3(9, 0, &title), empty.clone()])), Outcome::Failed(_)));
    assert!(matches!(probe(join(&[id3(3, 0, &[]), empty])), Outcome::Failed(_)));
}

#[test]
fn audio_is_entered_where_frames_follow_each_other() {
    let tag = tag_frame(b"Info", 0, [0; 4]);
    // What looks like a frame but is followed by none is skipped.
    let mut fake = silent_frames(1);
    fake.extend_from_slice(&[1, 2, 3, 4]);
    assert!(refused(join(&[fake.clone(), tag.clone()])));
    assert_eq!(reported(join(&[fake, tag.clone(), silent_frames(2)])), 4608);
    // Layer II is known, but not decoded.
    let mut second = vec![0u8; 626];
    second[..4].copy_from_slice(&[0xff, 0xfd, 0xa0, 0x00]);
    assert!(matches!(probe(join(&[second.clone(), second.clone(), tag.clone()])), Outcome::Failed(_)));
    // Too far in, audio is not found.
    let far = vec![0u8; 1024 * 1024 - 2];
    assert!(refused(join(&[far.clone(), tag.clone()])));
    assert!(matches!(probe(join(&[far, vec![0], tag])), Outcome::Failed(_)));
}

#[test]
fn name_of_a_tag_alone_is_no_tag() {
    for name in [b"Xing", b"Info", b"VBRI"] {
        let body = join(&[vec![0; 9], name.to_vec()]);
        assert!(matches!(probe(body), Outcome::Failed(_)));
    }
}

#[test]
fn download_goes_on_until_there_is_enough() {
    let mut d = Download::new(5);
    assert!(d.take(&[1, 2]));
    assert!(d.take(&[3, 4]));
    assert_eq!(d.fetched_line(), "probe: fetched 4 bytes");
    assert!(!d.take(&[5, 6, 7]));
    assert_eq!(d.fetched_line(), "probe: fetched 5 bytes");
    assert!(!d.take(&[8]));
    assert_eq!(d.into_body(), vec![1, 2, 3, 4, 5]);
    let mut exact = Download::new(2);
    assert!(!exact.take(&[1, 2]));
    assert_eq!(exact.into_body(), vec![1, 2]);
}

#[test]
fn download_ends_with_the_stream() {
    let mut d = Download::new(1_000_000);
    assert!(d.take(&[1]));
    assert!(!d.take(&[]));
    assert_eq!(d.into_body(), vec![1]);
    let mut none = Download::new(0);
    assert!(!none.take(&[1, 2, 3]));
    assert_eq!(none.fetched_line(), "probe: fetched 0 bytes");
    assert_eq!(PROBE_CHUNK, 16384);
}

#[test]
fn download_is_the_beginning_of_the_stream() {
    let stream: Vec<u8> = (0..200u8).collect();
    for wanted in 0..=210usize {
        let mut d = Download::new(wanted);
        for chunk in stream.chunks(7) {
            if !d.take(chunk) {
                break;
            }
        }
        assert_eq!(d.into_body(), stream[..wanted.min(200)]);
    }
}
