use disk::DiskError;
use disk::DiskState;
use disk::Fault;
use disk::Sibling;
use disk::file_bytes;

fn path() -> String {
    String::from("/data/project/state.bin")
}

fn gzip_path() -> String {
    String::from("/data/project/state.bin.gz")
}

#[test]
fn save_and_read_back() {
    let mut ds = DiskState::empty();
    let m = ds.save(b"hello", &path(), &None).unwrap();
    assert_eq!(m.size(), 5);
    assert_eq!(m.path(), path());
    assert_eq!(ds.read_to_bytes().unwrap(), b"hello".to_vec());
}

#[test]
fn save_atomic_and_read_back() {
    let mut ds = DiskState::empty();
    let m = ds.save_atomic(b"hello", &path(), &None).unwrap();
    assert_eq!(m.size(), 5);
    assert_eq!(m.path(), path());
    assert_eq!(ds.read_to_bytes().unwrap(), b"hello".to_vec());
    // The temporary was consumed by the publishing rename.
    assert!(ds.read(Sibling::Tmp).is_err());
}

#[test]
fn read_of_missing_file_is_an_error() {
    let ds = DiskState::empty();
    assert_eq!(ds.read_to_bytes(), Err(DiskError::NotFound));
    assert_eq!(ds.read_to_bytes_gzip(), Err(DiskError::NotFound));
}

#[test]
fn plain_save_can_tear_the_file() {
    let mut ds = DiskState::empty();
    ds.save(b"a complete old value", &path(), &None).unwrap();
    let fault = Some(Fault::WriteInterrupted(b"a com".to_vec()));
    assert_eq!(ds.save(b"a complete new value", &path(), &fault), Err(DiskError::Io));
    // The unsafe path leaves a torn file behind.
    assert_eq!(ds.read_to_bytes().unwrap(), b"a com".to_vec());
}

#[test]
fn atomic_save_survives_interrupted_write() {
    let mut ds = DiskState::empty();
    ds.save_atomic(b"old value", &path(), &None).unwrap();
    let fault = Some(Fault::WriteInterrupted(b"new".to_vec()));
    assert_eq!(ds.save_atomic(b"new value", &path(), &fault), Err(DiskError::Io));
    // The canonical file is byte-identical to its pre-operation content,
    // and no temporary is left behind.
    assert_eq!(ds.read_to_bytes().unwrap(), b"old value".to_vec());
    assert!(ds.read(Sibling::Tmp).is_err());
}

#[test]
fn atomic_save_survives_failed_rename() {
    let mut ds = DiskState::empty();
    ds.save_atomic(b"old value", &path(), &None).unwrap();
    assert_eq!(
        ds.save_atomic(b"new value", &path(), &Some(Fault::RenameFails)),
        Err(DiskError::Io)
    );
    assert_eq!(ds.read_to_bytes().unwrap(), b"old value".to_vec());
    assert!(ds.read(Sibling::Tmp).is_err());
}

#[test]
fn crash_before_rename_leaves_old_file_and_temp_artifact() {
    let mut ds = DiskState::empty();
    ds.save_atomic(b"old value", &path(), &None).unwrap();
    assert_eq!(
        ds.save_atomic(b"new value", &path(), &Some(Fault::CrashBeforeRename)),
        Err(DiskError::Interrupted)
    );
    // No partial file at the final path: the old content is intact.
    assert_eq!(ds.read_to_bytes().unwrap(), b"old value".to_vec());
    // The fully written temporary is the recognizable leftover.
    assert_eq!(ds.read(Sibling::Tmp).unwrap(), b"new value".to_vec());
    // The standard cleanup clears it and the old file stays.
    assert_eq!(ds.rm_tmp(&None), Ok(()));
    assert!(ds.read(Sibling::Tmp).is_err());
    assert_eq!(ds.read_to_bytes().unwrap(), b"old value".to_vec());
}

#[test]
fn rm_tmp_with_nothing_to_clean_succeeds() {
    let mut ds = DiskState::empty();
    assert_eq!(ds.rm_tmp(&None), Ok(()));
    assert_eq!(ds.rm_tmp(&None), Ok(()));
}

#[test]
fn rm_tmp_twice_in_a_row_succeeds() {
    let mut ds = DiskState::empty();
    // Leave both temporaries behind with a crash in each protocol.
    let crash = Some(Fault::CrashBeforeRename);
    let _ = ds.save_atomic(b"plain", &path(), &crash);
    let _ = ds.save_atomic_gzip(b"packed", &gzip_path(), &crash);
    assert!(ds.read(Sibling::Tmp).is_ok());
    assert!(ds.read(Sibling::GzipTmp).is_ok());
    assert_eq!(ds.rm_tmp(&None), Ok(()));
    assert_eq!(ds.rm_tmp(&None), Ok(()));
    assert!(ds.read(Sibling::Tmp).is_err());
    assert!(ds.read(Sibling::GzipTmp).is_err());
}

#[test]
fn rm_tmp_with_one_leftover_succeeds() {
    let mut ds = DiskState::empty();
    let _ = ds.save_atomic_gzip(b"packed", &gzip_path(), &Some(Fault::CrashBeforeRename));
    // Only the compressed temporary exists: each leftover is removed on
    // its own, so the missing plain temporary does not fail the pass.
    assert_eq!(ds.rm_tmp(&None), Ok(()));
    assert!(ds.read(Sibling::GzipTmp).is_err());
    assert_eq!(ds.rm_tmp(&None), Ok(()));
}

#[test]
fn rm_tmp_surfaces_a_failed_deletion() {
    let mut ds = DiskState::empty();
    let _ = ds.save_atomic(b"plain", &path(), &Some(Fault::CrashBeforeRename));
    // A deletion that finds a file and cannot remove it is an error, and
    // the leftover stays; a later clean pass still clears it.
    assert_eq!(ds.rm_tmp(&Some(Fault::RemoveFails)), Err(DiskError::Io));
    assert!(ds.read(Sibling::Tmp).is_ok());
    assert_eq!(ds.rm_tmp(&None), Ok(()));
    assert!(ds.read(Sibling::Tmp).is_err());
}

#[test]
fn save_gzip_stores_a_real_gzip_stream() {
    let mut ds = DiskState::empty();
    let original = vec![7u8; 1000];
    let m = ds.save_gzip(&original, &gzip_path(), &None).unwrap();
    let stored = ds.read(Sibling::Gzip).unwrap();
    assert_eq!(m.size() as usize, stored.len());
    assert_eq!(m.path(), gzip_path());
    // Gzip magic bytes, and an actually compressed (smaller) stream.
    assert_eq!(stored[0], 0x1f);
    assert_eq!(stored[1], 0x8b);
    assert!(stored.len() < original.len());
    assert_ne!(stored, original);
}

#[test]
fn gzip_round_trip_restores_the_bytes() {
    let mut ds = DiskState::empty();
    let original = b"the quick brown fox jumps over the lazy dog".to_vec();
    ds.save_gzip(&original, &gzip_path(), &None).unwrap();
    assert_eq!(ds.read_to_bytes_gzip().unwrap(), original);
}

#[test]
fn atomic_gzip_round_trip_restores_the_bytes() {
    let mut ds = DiskState::empty();
    let original = b"compressed and published atomically".to_vec();
    ds.save_atomic_gzip(&original, &gzip_path(), &None).unwrap();
    assert_eq!(ds.read_to_bytes_gzip().unwrap(), original);
    assert!(ds.read(Sibling::GzipTmp).is_err());
}

#[test]
fn atomic_gzip_survives_failed_rename() {
    let mut ds = DiskState::empty();
    ds.save_atomic_gzip(b"old packed", &gzip_path(), &None).unwrap();
    let before = ds.read(Sibling::Gzip).unwrap();
    assert_eq!(
        ds.save_atomic_gzip(b"new packed", &gzip_path(), &Some(Fault::RenameFails)),
        Err(DiskError::Io)
    );
    assert_eq!(ds.read(Sibling::Gzip).unwrap(), before);
    assert_eq!(ds.read_to_bytes_gzip().unwrap(), b"old packed".to_vec());
}

#[test]
fn corrupt_gzip_stream_is_rejected() {
    let mut ds = DiskState::empty();
    // Write garbage straight to the gzip sibling through the unsafe path
    // of the plain save, then try to decompress it.
    ds.save_gzip(b"data", &gzip_path(), &None).unwrap();
    let fault = Some(Fault::WriteInterrupted(b"not gzip at all".to_vec()));
    assert_eq!(ds.save_gzip(b"data", &gzip_path(), &fault), Err(DiskError::Io));
    assert_eq!(ds.read_to_bytes_gzip(), Err(DiskError::Gzip));
}

#[test]
fn rm_of_missing_file_is_success_with_zero_bytes() {
    let mut ds = DiskState::empty();
    let m = ds.rm(&path(), &None).unwrap();
    assert_eq!(m.to_parts(), (0, path()));
}

#[test]
fn rm_removes_and_reports_the_size() {
    let mut ds = DiskState::empty();
    ds.save(b"12345678", &path(), &None).unwrap();
    let m = ds.rm(&path(), &None).unwrap();
    assert_eq!(m.size(), 8);
    assert_eq!(ds.read_to_bytes(), Err(DiskError::NotFound));
}

#[test]
fn rm_atomic_removes_through_the_temporary() {
    let mut ds = DiskState::empty();
    ds.save_atomic(b"value", &path(), &None).unwrap();
    let m = ds.rm_atomic(&path(), &None).unwrap();
    assert_eq!(m.size(), 5);
    assert!(ds.read_to_bytes().is_err());
    assert!(ds.read(Sibling::Tmp).is_err());
    // Removing again is success with zero bytes.
    let m = ds.rm_atomic(&path(), &None).unwrap();
    assert_eq!(m.size(), 0);
}

#[test]
fn rm_atomic_failed_rename_keeps_the_file() {
    let mut ds = DiskState::empty();
    ds.save_atomic(b"value", &path(), &None).unwrap();
    assert_eq!(ds.rm_atomic(&path(), &Some(Fault::RenameFails)), Err(DiskError::Io));
    assert_eq!(ds.read_to_bytes().unwrap(), b"value".to_vec());
}

#[test]
fn rm_atomic_failed_remove_leaves_temp_artifact() {
    let mut ds = DiskState::empty();
    ds.save_atomic(b"value", &path(), &None).unwrap();
    assert_eq!(ds.rm_atomic(&path(), &Some(Fault::RemoveFails)), Err(DiskError::Io));
    assert!(ds.read_to_bytes().is_err());
    assert_eq!(ds.read(Sibling::Tmp).unwrap(), b"value".to_vec());
    // The shared cleanup clears the artifact.
    assert_eq!(ds.rm_tmp(&None), Ok(()));
    assert!(ds.read(Sibling::Tmp).is_err());
}

#[test]
fn rm_atomic_gzip_removes_the_gzip_sibling() {
    let mut ds = DiskState::empty();
    ds.save_gzip(b"packed", &gzip_path(), &None).unwrap();
    let stored_len = ds.read(Sibling::Gzip).unwrap().len();
    let m = ds.rm_atomic_gzip(&gzip_path(), &None).unwrap();
    assert_eq!(m.size() as usize, stored_len);
    assert!(ds.read(Sibling::Gzip).is_err());
}

#[test]
fn exists_reports_size_and_path() {
    let mut ds = DiskState::empty();
    assert!(ds.exists_file(&path()).is_none());
    ds.save(b"abc", &path(), &None).unwrap();
    let m = ds.exists_file(&path()).unwrap();
    assert_eq!(m.to_parts(), (3, path()));
    assert!(ds.exists_gzip(&gzip_path()).is_none());
    ds.save_gzip(b"abc", &gzip_path(), &None).unwrap();
    assert!(ds.exists_gzip(&gzip_path()).is_some());
}

#[test]
fn file_size_errors_on_missing_file() {
    let mut ds = DiskState::empty();
    assert_eq!(ds.file_size(&path()).unwrap_err(), DiskError::NotFound);
    assert_eq!(ds.file_size_gzip(&gzip_path()).unwrap_err(), DiskError::NotFound);
    ds.save(b"four", &path(), &None).unwrap();
    assert_eq!(ds.file_size(&path()).unwrap().size(), 4);
}

#[test]
fn filesize_is_zero_for_missing_files() {
    let ds = DiskState::empty();
    assert_eq!(ds.filesize(Sibling::Canonical), 0);
    assert_eq!(ds.filesize(Sibling::Gzip), 0);
}

#[test]
fn mkdir_is_idempotent() {
    let mut ds = DiskState::empty();
    let base = String::from("/data/project");
    assert_eq!(ds.mkdir(&base), base);
    assert_eq!(ds.mkdir(&base), base);
}

#[test]
fn touch_creates_an_empty_file() {
    let mut ds = DiskState::empty();
    ds.touch().unwrap();
    assert_eq!(ds.read_to_bytes().unwrap(), Vec::<u8>::new());
}

#[test]
fn rm_project_erases_everything() {
    let mut ds = DiskState::empty();
    ds.save(b"a", &path(), &None).unwrap();
    ds.save_gzip(b"b", &gzip_path(), &None).unwrap();
    let project = String::from("/data/project");
    let m = ds.rm_project(&project).unwrap();
    assert_eq!(m.path(), project);
    assert!(ds.read_to_bytes().is_err());
    assert!(ds.read(Sibling::Gzip).is_err());
    // The directory is gone: removing again fails like the real call.
    assert_eq!(ds.rm_project(&project), Err(DiskError::NotFound));
}

#[test]
fn rm_sub_erases_the_entity_files() {
    let mut ds = DiskState::empty();
    ds.save(b"a", &path(), &None).unwrap();
    let sub = String::from("/data/project/sub");
    let m = ds.rm_sub(&sub).unwrap();
    assert_eq!(m.path(), sub);
    assert!(ds.read_to_bytes().is_err());
}

#[test]
fn file_bytes_range_is_half_open() {
    let bytes: Vec<u8> = (0u8..10).collect();
    assert_eq!(file_bytes(&bytes, 2, 6).unwrap(), vec![2, 3, 4, 5]);
    assert_eq!(file_bytes(&bytes, 0, 10).unwrap(), bytes);
}

#[test]
fn file_bytes_equal_bounds_returns_one_byte() {
    let bytes: Vec<u8> = (0u8..10).collect();
    // The documented quirk: start == end is one byte, not an empty buffer.
    assert_eq!(file_bytes(&bytes, 5, 5).unwrap(), vec![5]);
}

#[test]
fn file_bytes_rejects_inverted_range() {
    let bytes: Vec<u8> = (0u8..10).collect();
    assert_eq!(file_bytes(&bytes, 10, 5), Err(DiskError::Range));
}

#[test]
fn file_bytes_fails_like_a_short_read_past_the_end() {
    let bytes: Vec<u8> = (0u8..10).collect();
    assert_eq!(file_bytes(&bytes, 4, 11), Err(DiskError::Io));
    assert_eq!(file_bytes(&bytes, 10, 10), Err(DiskError::Io));
}
