use vstd::prelude::*;
use vstd::slice::slice_subrange;
use vstd::slice::slice_to_vec;

use crate::error::DiskError;
use crate::error::FrameError;

verus! {

/// The fixed 25-byte frame put in front of every binary payload: a 24-byte
/// header identifying the schema, followed by one version byte.
///
/// The header is fixed per schema and acts as a magic number; the version
/// identifies the payload's on-disk revision.  A payload whose first 25
/// bytes do not match both is foreign or corrupt and is rejected before any
/// decoding is attempted.
#[derive(Clone, Copy, Debug)]
pub struct Frame {
    header: [u8; 24],
    version: u8,
}

impl Frame {
    /// The 24 header bytes of this frame.
    pub closed spec fn spec_header(self) -> Seq<u8> {
        self.header@
    }

    /// The version byte of this frame.
    pub closed spec fn spec_version(self) -> u8 {
        self.version
    }

    /// The full 25-byte prefix: the header bytes with the version behind
    /// them.
    pub open spec fn spec_full(self) -> Seq<u8> {
        self.spec_header().push(self.spec_version())
    }

    /// How a buffer is checked against this frame: length first, then the
    /// 24 header bytes, then the version byte, in that order.
    pub open spec fn spec_validate(self, bytes: Seq<u8>) -> Result<(), FrameError> {
        if bytes.len() < 25 {
            Err(FrameError::TooShort)
        } else if bytes.subrange(0, 24) != self.spec_header() {
            Err(FrameError::HeaderMismatch)
        } else if bytes[24] != self.spec_version() {
            Err(FrameError::VersionMismatch)
        } else {
            Ok(())
        }
    }

    /// Create a frame from its header bytes and version byte.
    pub fn new(header: [u8; 24], version: u8) -> (r: Self)
        ensures
            r.spec_header() == header@,
            r.spec_version() == version,
    {
        Self { header, version }
    }

    /// The 24 header bytes.
    pub fn header(&self) -> (r: [u8; 24])
        ensures
            r@ == self.spec_header(),
    {
        self.header
    }

    /// The version byte.
    pub fn version(&self) -> (r: u8)
        ensures
            r == self.spec_version(),
    {
        self.version
    }

    /// Return the full 25 header bytes: the first 24 are the header, the
    /// last is the version.
    pub fn full_header(&self) -> (r: Vec<u8>)
        ensures
            r@ == self.spec_full(),
    {
        let mut v: Vec<u8> = Vec::new();
        let mut i: usize = 0;
        while i < 24
            invariant
                i <= 24,
                v@ == self.spec_header().take(i as int),
            decreases 24 - i,
        {
            v.push(self.header[i]);
            i = i + 1;
        }
        proof {
            assert(v@ =~= self.spec_header());
        }
        v.push(self.version);
        v
    }

    /// Check a buffer against this frame: `Ok` exactly when the buffer is
    /// at least 25 bytes long, begins with the header and carries the
    /// expected version byte; otherwise the error names the first check
    /// that failed.
    pub fn validate_header(&self, bytes: &[u8]) -> (r: Result<(), FrameError>)
        ensures
            r == self.spec_validate(bytes@),
    {
        if bytes.len() < 25 {
            return Err(FrameError::TooShort);
        }
        let mut i: usize = 0;
        while i < 24
            invariant
                i <= 24,
                bytes@.len() >= 25,
                forall|j: int| 0 <= j < i ==> bytes@[j] == self.spec_header()[j],
            decreases 24 - i,
        {
            if bytes[i] != self.header[i] {
                proof {
                    assert(bytes@.subrange(0, 24)[i as int] != self.spec_header()[i as int]);
                }
                return Err(FrameError::HeaderMismatch);
            }
            i = i + 1;
        }
        proof {
            assert(bytes@.subrange(0, 24) =~= self.spec_header());
        }
        if bytes[24] != self.version {
            return Err(FrameError::VersionMismatch);
        }
        Ok(())
    }

    /// Put the full 25-byte prefix in front of a payload.
    pub fn frame_bytes(&self, payload: &[u8]) -> (r: Vec<u8>)
        ensures
            r@ == self.spec_full() + payload@,
    {
        let mut v = self.full_header();
        let mut i: usize = 0;
        while i < payload.len()
            invariant
                i <= payload@.len(),
                v@ == self.spec_full() + payload@.take(i as int),
            decreases payload@.len() - i,
        {
            v.push(payload[i]);
            i = i + 1;
        }
        proof {
            assert(self.spec_full() + payload@.take(payload@.len() as int) =~= self.spec_full()
                + payload@);
        }
        v
    }

    /// Check a buffer against this frame and hand back the payload behind
    /// the 25-byte prefix; the error names the first check that failed.
    pub fn strip_header(&self, bytes: &[u8]) -> (r: Result<Vec<u8>, FrameError>)
        ensures
            match r {
                Ok(p) => self.spec_validate(bytes@) is Ok && p@ == bytes@.skip(25),
                Err(e) => self.spec_validate(bytes@) == Err::<(), FrameError>(e),
            },
    {
        match self.validate_header(bytes) {
            Ok(()) => Ok(slice_to_vec(slice_subrange(bytes, 25, bytes.len()))),
            Err(e) => Err(e),
        }
    }

    /// Given the first bytes read from the associated file, match the
    /// first 24 of them against the header and return the following byte
    /// as the on-disk version.
    ///
    /// The version byte is returned whether or not it matches this frame's
    /// own version; mismatching header bytes are an error.  Reading fewer
    /// than 25 bytes fails the way a short read does.  This is only
    /// meaningful for uncompressed files, whose prefix is stored as is.
    pub fn file_version(&self, bytes: &[u8]) -> (r: Result<u8, DiskError>)
        ensures
            match r {
                Ok(v) => bytes@.len() >= 25 && bytes@.subrange(0, 24) == self.spec_header() && v
                    == bytes@[24],
                Err(e) => (e == DiskError::Io && bytes@.len() < 25) || (e == DiskError::Frame(
                    FrameError::HeaderMismatch,
                ) && bytes@.len() >= 25 && bytes@.subrange(0, 24) != self.spec_header()),
            },
    {
        if bytes.len() < 25 {
            return Err(DiskError::Io);
        }
        let mut i: usize = 0;
        while i < 24
            invariant
                i <= 24,
                bytes@.len() >= 25,
                forall|j: int| 0 <= j < i ==> bytes@[j] == self.spec_header()[j],
            decreases 24 - i,
        {
            if bytes[i] != self.header[i] {
                proof {
                    assert(bytes@.subrange(0, 24)[i as int] != self.spec_header()[i as int]);
                }
                return Err(DiskError::Frame(FrameError::HeaderMismatch));
            }
            i = i + 1;
        }
        proof {
            assert(bytes@.subrange(0, 24) =~= self.spec_header());
        }
        Ok(bytes[24])
    }
}

/// What version-directed resolution returns: the first pair of the list
/// whose version tag equals the on-disk version, or nothing when no tag
/// matches.  Entries behind the first match are never reached, so
/// duplicate version tags resolve to the earliest entry in list order.
pub open spec fn spec_from_versions<T>(s: Seq<(u8, T)>, on_disk: u8) -> Option<(u8, T)>
    decreases s.len(),
{
    if s.len() == 0 {
        None
    } else if s[0].0 == on_disk {
        Some(s[0])
    } else {
        spec_from_versions(s.drop_first(), on_disk)
    }
}

/// Version-directed constructor resolution.
///
/// Given the version byte found on disk and a list of `(version, entry)`
/// pairs, hand back the entry of the first pair whose version tag matches,
/// together with the matched version, scanning the list front to back.
/// When no tag matches, the whole resolution fails.
#[verifier::loop_isolation(false)]
pub fn from_versions<T>(on_disk: u8, versions: Vec<(u8, T)>) -> (r: Result<(u8, T), DiskError>)
    ensures
        match r {
            Ok(p) => spec_from_versions(versions@, on_disk) == Some(p),
            Err(e) => e == DiskError::NoVersionMatched && spec_from_versions(
                versions@,
                on_disk,
            ) is None,
        },
{
    let ghost all = versions@;
    let mut rest = versions;
    let mut i: usize = 0;
    proof {
        assert(all.skip(0) =~= all);
    }
    while i < rest.len()
        invariant
            rest@ == all,
            i <= all.len(),
            spec_from_versions(all, on_disk) == spec_from_versions(all.skip(i as int), on_disk),
        decreases all.len() - i,
    {
        if rest[i].0 == on_disk {
            let pair = rest.remove(i);
            proof {
                assert(all.skip(i as int)[0] == all[i as int]);
                assert(spec_from_versions(all.skip(i as int), on_disk) == Some(all[i as int]));
            }
            return Ok(pair);
        }
        proof {
            assert(all.skip(i as int)[0] == all[i as int]);
            assert(all.skip(i as int).drop_first() =~= all.skip(i as int + 1));
        }
        i = i + 1;
    }
    proof {
        assert(all.skip(all.len() as int) =~= Seq::<(u8, T)>::empty());
    }
    Err(DiskError::NoVersionMatched)
}

/// Frame integrity, first half: a buffer that begins with a frame's own
/// full 25-byte prefix always validates against that frame, whatever
/// payload follows; and stripping the prefix gives back exactly that
/// payload, so the framing layer round-trips.
pub proof fn lemma_frame_round_trip(f: Frame, payload: Seq<u8>)
    ensures
        f.spec_validate(f.spec_full() + payload) is Ok,
        (f.spec_full() + payload).skip(25) == payload,
{
    let framed = f.spec_full() + payload;
    assert(framed.subrange(0, 24) =~= f.spec_header());
    assert(framed[24] == f.spec_version());
    assert(framed.skip(25) =~= payload);
}

/// Frame integrity, second half: a buffer that differs from a valid one in
/// exactly one of the first 25 bytes is rejected with the error naming the
/// mutated region — `HeaderMismatch` for a header byte, `VersionMismatch`
/// for the version byte — and a buffer shorter than 25 bytes is always
/// rejected as `TooShort`.
pub proof fn lemma_frame_mutation(f: Frame, good: Seq<u8>, bad: Seq<u8>, i: int)
    requires
        f.spec_validate(good) is Ok,
        bad.len() == good.len(),
        0 <= i < 25,
        bad[i] != good[i],
        forall|j: int| 0 <= j < 25 && j != i ==> bad[j] == good[j],
    ensures
        i < 24 ==> f.spec_validate(bad) == Err::<(), FrameError>(FrameError::HeaderMismatch),
        i == 24 ==> f.spec_validate(bad) == Err::<(), FrameError>(FrameError::VersionMismatch),
{
    if i < 24 {
        assert(bad.subrange(0, 24)[i] != good.subrange(0, 24)[i]);
    } else {
        assert(bad.subrange(0, 24) =~= good.subrange(0, 24));
    }
}

/// A buffer shorter than 25 bytes is rejected as `TooShort`, whatever it
/// holds.
pub proof fn lemma_frame_too_short(f: Frame, bytes: Seq<u8>)
    requires
        bytes.len() < 25,
    ensures
        f.spec_validate(bytes) == Err::<(), FrameError>(FrameError::TooShort),
{
}

} // verus!

