use vstd::prelude::*;
use vstd::slice::slice_subrange;
use vstd::slice::slice_to_vec;
use vstd::string::StrSliceExecFns;

use std::io::Read;
use std::io::Write;

use crate::dir::Dir;
use crate::error::DiskError;

verus! {

/// What gzip decompression returns on a buffer: the decompressed bytes, or
/// nothing when the buffer is not a valid gzip stream.  Decompression is a
/// function of the compressed bytes alone.
pub uninterp spec fn gunzip_of(s: Seq<u8>) -> Option<Seq<u8>>;

/// Resolve the base directory of a project.
///
/// Relies on `directories::ProjectDirs`: it maps a directory kind and a
/// project name to the platform's conventional directory for that project,
/// and fails only when no home directory can be found.  For every kind but
/// [`Dir::Project`] the result hangs off that home and so is never empty;
/// for [`Dir::Project`] it is the bare project path fragment, which an
/// empty or whitespace-only project name leaves empty, so nothing is
/// claimed of it.  That a result is absolute is re-checked by the caller
/// through [`assert_safe_path`] rather than trusted.
#[verifier::external_body]
pub fn get_projectdir(dir: &Dir, project_name: &str) -> (r: Result<String, DiskError>)
    ensures
        r matches Ok(p) ==> (*dir != Dir::Project ==> p@.len() > 0),
{
    let p = match directories::ProjectDirs::from("", "", project_name) {
        Some(p) => p,
        None => return Err(DiskError::Path),
    };
    let path = match dir {
        Dir::Project => p.project_path(),
        Dir::Cache => p.cache_dir(),
        Dir::Config => p.config_dir(),
        Dir::Data => p.data_dir(),
        Dir::DataLocal => p.data_local_dir(),
        Dir::Preference => p.preference_dir(),
    };
    path.to_str().map(|s| s.to_string()).ok_or(DiskError::Path)
}

/// Compress a buffer with gzip.
///
/// Relies on `flate2::write::GzEncoder`: its output is a gzip stream that
/// decompresses back to exactly the input bytes.  The encoder writes into
/// a `Vec`, whose sink never fails, and encoding itself cannot error, so
/// compression always succeeds and the calls below cannot panic.
#[verifier::external_body]
pub(crate) fn compress(bytes: &[u8]) -> (r: Vec<u8>)
    ensures
        gunzip_of(r@) == Some(bytes@),
{
    let mut encoder = flate2::write::GzEncoder::new(Vec::new(), flate2::Compression::fast());
    encoder.write_all(bytes).unwrap();
    encoder.finish().unwrap()
}

/// Decompress a gzip buffer.
///
/// Relies on `flate2::bufread::GzDecoder`: decoding is a deterministic
/// function of the input bytes alone, it succeeds exactly on valid,
/// CRC-checked gzip streams, and its output is the decompression of the
/// input and of nothing else.
#[verifier::external_body]
pub(crate) fn decompress(bytes: &[u8]) -> (r: Result<Vec<u8>, DiskError>)
    ensures
        r matches Ok(v) ==> gunzip_of(bytes@) == Some(v@),
        gunzip_of(bytes@) is Some ==> r is Ok,
{
    let mut buf = Vec::new();
    let mut decoder = flate2::bufread::GzDecoder::new(bytes);
    match decoder.read_to_end(&mut buf) {
        Ok(_) => Ok(buf),
        Err(_) => Err(DiskError::Gzip),
    }
}

/// A path is safe to write through only when it is absolute.
pub open spec fn spec_is_absolute(p: Seq<char>) -> bool {
    p.len() > 0 && p[0] == '/'
}

/// Assert that a path is safe (absolute) before anything is read from or
/// written to it.  This is defense in depth against a misbehaving
/// directory resolver.
pub fn assert_safe_path(path: &str) -> (r: Result<(), DiskError>)
    ensures
        r is Ok <==> spec_is_absolute(path@),
        r is Err ==> r == Err::<(), DiskError>(DiskError::Path),
{
    if path.unicode_len() > 0 && path.get_char(0) == '/' {
        Ok(())
    } else {
        Err(DiskError::Path)
    }
}

/// The length of the buffer `file_bytes` hands back for a range: one byte
/// when `start == end` (a quirk kept for compatibility), the width of the
/// range otherwise.
pub open spec fn spec_range_len(start: int, end: int) -> int {
    if start == end {
        1
    } else {
        end - start
    }
}

/// Return the byte range `[start, end)` of a file's bytes.
///
/// When `start == end` this returns a single byte rather than an empty
/// buffer; the quirk is kept for compatibility.  A range with
/// `start > end` is rejected outright, and a range that reaches past the
/// end of the buffer fails the way a short read does.
pub fn file_bytes(bytes: &[u8], start: usize, end: usize) -> (r: Result<Vec<u8>, DiskError>)
    ensures
        match r {
            Ok(v) => start <= end && start + spec_range_len(start as int, end as int)
                <= bytes@.len() && v@ == bytes@.subrange(
                start as int,
                start + spec_range_len(start as int, end as int),
            ),
            Err(e) => (e == DiskError::Range && start > end) || (e == DiskError::Io && start
                <= end && start + spec_range_len(start as int, end as int) > bytes@.len()),
        },
{
    if start > end {
        return Err(DiskError::Range);
    }
    if start == end {
        if start >= bytes.len() {
            return Err(DiskError::Io);
        }
        return Ok(slice_to_vec(slice_subrange(bytes, start, start + 1)));
    }
    if end > bytes.len() {
        return Err(DiskError::Io);
    }
    Ok(slice_to_vec(slice_subrange(bytes, start, end)))
}

} // verus!
