use disk::DiskError;
use disk::Frame;
use disk::FrameError;
use disk::from_versions;

fn sample_frame() -> Frame {
    Frame::new([1u8; 24], 5)
}

#[test]
fn full_header_layout() {
    let frame = sample_frame();
    let full = frame.full_header();
    assert_eq!(full.len(), 25);
    assert_eq!(&full[..24], &[1u8; 24][..]);
    assert_eq!(full[24], 5);
}

#[test]
fn validate_accepts_own_frame() {
    let frame = sample_frame();
    let mut bytes = frame.full_header();
    bytes.extend_from_slice(b"payload bytes");
    assert_eq!(frame.validate_header(&bytes), Ok(()));
}

#[test]
fn validate_accepts_bare_header() {
    let frame = sample_frame();
    let bytes = frame.full_header();
    assert_eq!(frame.validate_header(&bytes), Ok(()));
}

#[test]
fn validate_rejects_short_buffer() {
    let frame = sample_frame();
    let bytes = vec![1u8; 24];
    assert_eq!(frame.validate_header(&bytes), Err(FrameError::TooShort));
    assert_eq!(frame.validate_header(&[]), Err(FrameError::TooShort));
}

#[test]
fn validate_rejects_mutated_header_byte() {
    let frame = sample_frame();
    for i in 0..24 {
        let mut bytes = frame.full_header();
        bytes[i] ^= 0xff;
        assert_eq!(frame.validate_header(&bytes), Err(FrameError::HeaderMismatch));
    }
}

#[test]
fn validate_rejects_mutated_version_byte() {
    let frame = sample_frame();
    let mut bytes = frame.full_header();
    bytes[24] = 6;
    assert_eq!(frame.validate_header(&bytes), Err(FrameError::VersionMismatch));
}

#[test]
fn length_is_checked_before_content() {
    let frame = sample_frame();
    // All 24 bytes wrong, but the buffer is short: the length error wins.
    let bytes = vec![9u8; 20];
    assert_eq!(frame.validate_header(&bytes), Err(FrameError::TooShort));
}

#[test]
fn strip_header_round_trips_payload() {
    let frame = sample_frame();
    let payload = b"some serialized value".to_vec();
    let framed = frame.frame_bytes(&payload);
    assert_eq!(framed.len(), 25 + payload.len());
    let back = frame.strip_header(&framed).unwrap();
    assert_eq!(back, payload);
}

#[test]
fn strip_header_reports_first_failing_check() {
    let frame = sample_frame();
    assert_eq!(frame.strip_header(b"tiny"), Err(FrameError::TooShort));
    let other = Frame::new([2u8; 24], 5);
    let framed = other.frame_bytes(b"data");
    assert_eq!(frame.strip_header(&framed), Err(FrameError::HeaderMismatch));
    let same_header = Frame::new([1u8; 24], 9);
    let framed = same_header.frame_bytes(b"data");
    assert_eq!(frame.strip_header(&framed), Err(FrameError::VersionMismatch));
}

#[test]
fn file_version_returns_version_byte() {
    let frame = sample_frame();
    let framed = frame.frame_bytes(b"data");
    assert_eq!(frame.file_version(&framed), Ok(5));
    // A different version byte is still returned, not rejected.
    let newer = Frame::new([1u8; 24], 9);
    let framed = newer.frame_bytes(b"data");
    assert_eq!(frame.file_version(&framed), Ok(9));
}

#[test]
fn file_version_rejects_foreign_header() {
    let frame = sample_frame();
    let other = Frame::new([7u8; 24], 5);
    let framed = other.frame_bytes(b"data");
    assert_eq!(frame.file_version(&framed), Err(DiskError::Frame(FrameError::HeaderMismatch)));
    assert_eq!(frame.file_version(b"short"), Err(DiskError::Io));
}

#[test]
fn from_versions_picks_first_match() {
    let versions = vec![(2u8, "ctor_a"), (1u8, "ctor_b"), (1u8, "ctor_c")];
    assert_eq!(from_versions(1, versions), Ok((1, "ctor_b")));
}

#[test]
fn from_versions_scans_front_to_back() {
    let versions = vec![(5u8, 50i32), (4u8, 40i32), (3u8, 30i32)];
    assert_eq!(from_versions(5, versions.clone()), Ok((5, 50)));
    assert_eq!(from_versions(3, versions), Ok((3, 30)));
}

#[test]
fn from_versions_fails_when_nothing_matches() {
    let versions = vec![(2u8, "ctor_a"), (1u8, "ctor_b")];
    assert_eq!(from_versions(7, versions), Err(DiskError::NoVersionMatched));
    let empty: Vec<(u8, &str)> = Vec::new();
    assert_eq!(from_versions(0, empty), Err(DiskError::NoVersionMatched));
}
