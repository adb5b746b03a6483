use change_weather::layout::{PatchError, BUF_SIZE, FIELD_OFFSET, LENGTH_OFFSET};
use change_weather::patch::{
    copy_exact, get_existing_weather_len, patch_replay, write_frames, write_header,
    write_new_replay,
};
use change_weather::stream::FrameCursor;

fn replay(preamble: &[u8; 12], padding: &[u8; 3], field: &[u8], frames: &[u8]) -> Vec<u8> {
    let mut v = preamble.to_vec();
    v.push(field.len() as u8);
    v.extend_from_slice(padding);
    v.extend_from_slice(field);
    v.extend_from_slice(frames);
    v
}

const PREAMBLE: [u8; 12] = [1, 2, 3, 4, 5, 6, 7, 8, 9, 10, 11, 12];
const PADDING: [u8; 3] = [0xAA, 0xBB, 0xCC];

#[test]
fn example_sunny_replaces_old() {
    let mut input = vec![0u8; 12];
    input.push(0x03);
    input.extend_from_slice(&[0x10, 0x20, 0x30]);
    input.extend_from_slice(b"OLD");
    input.extend_from_slice(b"FRAMEDATA");
    let out = patch_replay(&input, b"SUNNY").unwrap();
    let mut expected = vec![0u8; 12];
    expected.push(0x05);
    expected.extend_from_slice(&[0x10, 0x20, 0x30]);
    expected.extend_from_slice(b"SUNNY");
    expected.extend_from_slice(b"FRAMEDATA");
    assert_eq!(out, expected);
}

#[test]
fn round_trip_same_field_is_identity() {
    let input = replay(&PREAMBLE, &PADDING, b"RAINY", b"\x00\x01\x02frames");
    assert_eq!(patch_replay(&input, b"RAINY").unwrap(), input);
    let empty = replay(&PREAMBLE, &PADDING, b"", b"");
    assert_eq!(patch_replay(&empty, b"").unwrap(), empty);
}

#[test]
fn patching_twice_gives_same_output() {
    let input = replay(&PREAMBLE, &PADDING, b"OLD", b"FRAMEDATA");
    let once = patch_replay(&input, b"FOGGY WEATHER").unwrap();
    let twice = patch_replay(&once, b"FOGGY WEATHER").unwrap();
    assert_eq!(once, twice);
    assert_eq!(patch_replay(&input, b"FOGGY WEATHER").unwrap(), once);
}

#[test]
fn length_prefix_and_field_written() {
    let input = replay(&PREAMBLE, &PADDING, b"OLDVALUE", b"xyz");
    for n in [0usize, 1, 7, 8, 100, 255] {
        let field: Vec<u8> = (0..n).map(|i| (i * 7 % 256) as u8).collect();
        let out = patch_replay(&input, &field).unwrap();
        assert_eq!(out[LENGTH_OFFSET] as usize, n);
        assert_eq!(&out[FIELD_OFFSET..FIELD_OFFSET + n], &field[..]);
    }
}

#[test]
fn frames_preserved_behind_new_field() {
    let frames: Vec<u8> = (0..1000u32).map(|i| (i % 251) as u8).collect();
    let input = replay(&PREAMBLE, &PADDING, b"OLD", &frames);
    let out = patch_replay(&input, b"A LONGER FIELD").unwrap();
    assert_eq!(&out[FIELD_OFFSET + 14..], &frames[..]);
    let no_frames = replay(&PREAMBLE, &PADDING, b"OLD", b"");
    let out = patch_replay(&no_frames, b"X").unwrap();
    assert_eq!(out.len(), FIELD_OFFSET + 1);
}

#[test]
fn preamble_and_padding_preserved() {
    let input = replay(&PREAMBLE, &PADDING, b"LONG OLD FIELD", b"frames");
    let out = patch_replay(&input, b"S").unwrap();
    assert_eq!(&out[0..12], &PREAMBLE[..]);
    assert_eq!(&out[13..16], &PADDING[..]);
}

#[test]
fn minimum_file_gets_new_field() {
    let input = replay(&PREAMBLE, &PADDING, b"", b"");
    assert_eq!(input.len(), 16);
    let out = patch_replay(&input, b"SUNNY").unwrap();
    assert_eq!(out, replay(&PREAMBLE, &PADDING, b"SUNNY", b""));
}

#[test]
fn maximum_field_accepted() {
    let input = replay(&PREAMBLE, &PADDING, b"OLD", b"FRAMEDATA");
    let field = vec![b'w'; 255];
    let out = patch_replay(&input, &field).unwrap();
    assert_eq!(out[12], 0xFF);
    assert_eq!(&out[16..271], &field[..]);
    assert_eq!(&out[271..], b"FRAMEDATA");
}

#[test]
fn oversized_field_rejected() {
    let input = replay(&PREAMBLE, &PADDING, b"OLD", b"FRAMEDATA");
    let field = vec![b'w'; 256];
    assert_eq!(patch_replay(&input, &field), Err(PatchError::FieldTooLong));
}

#[test]
fn truncated_input_rejected() {
    for n in 0..16usize {
        let input = vec![0u8; n];
        assert_eq!(patch_replay(&input, b"SUNNY"), Err(PatchError::TruncatedHeader));
    }
}

#[test]
fn input_ending_inside_old_field_rejected() {
    let mut input = replay(&PREAMBLE, &PADDING, b"OLD", b"");
    input.pop();
    assert_eq!(patch_replay(&input, b"SUNNY"), Err(PatchError::TruncatedFrames));
}

#[test]
fn existing_length_read_from_header() {
    let input = replay(&PREAMBLE, &PADDING, b"OLD", b"");
    assert_eq!(get_existing_weather_len(&input), Ok(3));
    assert_eq!(get_existing_weather_len(&input[..13]), Ok(3));
    assert_eq!(get_existing_weather_len(&input[..12]), Err(PatchError::TruncatedHeader));
}

#[test]
fn copy_exact_copies_range() {
    let input = [10u8, 11, 12, 13, 14];
    let mut out = vec![1u8];
    assert_eq!(copy_exact(&input, &mut out, 1, 4), Ok(3));
    assert_eq!(out, vec![1, 11, 12, 13]);
    assert_eq!(copy_exact(&input, &mut out, 2, 6), Err(PatchError::OutOfRange));
    assert_eq!(out, vec![1, 11, 12, 13]);
    assert_eq!(copy_exact(&input, &mut out, 5, 5), Ok(0));
}

#[test]
fn write_header_writes_new_header_only() {
    let input = replay(&PREAMBLE, &PADDING, b"OLD", b"FRAMEDATA");
    let mut out = Vec::new();
    write_header(&input, &mut out, b"HOT").unwrap();
    assert_eq!(out, replay(&PREAMBLE, &PADDING, b"HOT", b""));
    let mut out = vec![9u8];
    assert_eq!(write_header(&input[..15], &mut out, b"HOT"), Err(PatchError::TruncatedHeader));
    assert_eq!(out, vec![9u8]);
}

#[test]
fn write_frames_copies_large_payload_in_chunks() {
    let frames: Vec<u8> = (0..(2 * BUF_SIZE + 17)).map(|i| (i % 253) as u8).collect();
    let input = replay(&PREAMBLE, &PADDING, b"OLD", &frames);
    let mut out = vec![42u8];
    write_frames(&input, &mut out, 3).unwrap();
    assert_eq!(out.len(), frames.len() + 1);
    assert_eq!(&out[1..], &frames[..]);
    let mut out = Vec::new();
    assert_eq!(write_frames(&input[..18], &mut out, 3), Err(PatchError::TruncatedFrames));
    assert!(out.is_empty());
}

#[test]
fn write_new_replay_uses_given_old_length() {
    let input = replay(&PREAMBLE, &PADDING, b"OLD", b"FRAMEDATA");
    let mut out = Vec::new();
    write_new_replay(&input, &mut out, 3, b"SUNNY").unwrap();
    assert_eq!(out, replay(&PREAMBLE, &PADDING, b"SUNNY", b"FRAMEDATA"));
    let mut out = Vec::new();
    assert_eq!(
        write_new_replay(&input, &mut out, 200, b"SUNNY"),
        Err(PatchError::TruncatedFrames)
    );
    assert!(out.is_empty());
}

#[test]
fn frame_cursor_starts_behind_old_field_and_stops_on_empty_read() {
    assert_eq!(FrameCursor::new(18, 3).err(), Some(PatchError::TruncatedFrames));
    let mut c = FrameCursor::new(19, 3).ok().unwrap();
    assert_eq!(c.start, 19);
    assert_eq!(c.source_pos, 19);
    assert!(c.on_read(5));
    assert_eq!(c.source_pos, 24);
    assert!(!c.finished);
    assert!(!c.on_read(0));
    assert!(c.finished);
    assert_eq!(c.source_pos, 24);
}
