use vstd::prelude::*;
use vstd::slice::slice_to_vec;

use crate::error::DiskError;

verus! {

/// Which of the four sibling files of a persistable entity an operation
/// touches: the canonical file, its gzip-compressed variant, and the
/// temporary file of each, used by the atomic save and remove protocol.
#[derive(Copy, Clone, Debug, PartialEq, Eq, Structural)]
pub enum Sibling {
    /// The canonical file itself.
    Canonical,
    /// The gzip-compressed variant.
    Gzip,
    /// The temporary sibling of the canonical file.
    Tmp,
    /// The temporary sibling of the gzip-compressed variant.
    GzipTmp,
}

/// The on-disk state of one persistable entity: whether its base directory
/// exists, and the contents of its four sibling files.
///
/// The entity's logical identity (directory kind, names) is fixed; only
/// this state changes over time, and these four files are the only shared
/// mutable resource of the whole design.  Every save, load and remove
/// operation is specified and proved as a transformation of this state;
/// the thin runner that performs the same steps with real filesystem calls
/// lives outside the verified library.
pub struct DiskState {
    dir_exists: bool,
    canonical: Option<Vec<u8>>,
    gzip: Option<Vec<u8>>,
    tmp: Option<Vec<u8>>,
    gzip_tmp: Option<Vec<u8>>,
}

/// The contents of an optional file, as an optional byte sequence.
pub open spec fn opt_view(o: Option<Vec<u8>>) -> Option<Seq<u8>> {
    match o {
        Some(v) => Some(v@),
        None => None,
    }
}

impl DiskState {
    /// Whether the entity's base directory exists.
    pub closed spec fn spec_dir_exists(self) -> bool {
        self.dir_exists
    }

    /// The contents of one sibling file, or nothing when it is absent.
    pub closed spec fn spec_file(self, s: Sibling) -> Option<Seq<u8>> {
        match s {
            Sibling::Canonical => opt_view(self.canonical),
            Sibling::Gzip => opt_view(self.gzip),
            Sibling::Tmp => opt_view(self.tmp),
            Sibling::GzipTmp => opt_view(self.gzip_tmp),
        }
    }

    /// A state with no directory and no files: nothing was ever saved.
    pub fn empty() -> (r: Self)
        ensures
            !r.spec_dir_exists(),
            forall|s: Sibling| r.spec_file(s) is None,
    {
        Self { dir_exists: false, canonical: None, gzip: None, tmp: None, gzip_tmp: None }
    }

    /// Create the directories leading up to the files.  Creation is
    /// recursive and idempotent: a directory that already exists is
    /// success, and no file is touched.
    pub fn create_dir_all(&mut self)
        ensures
            final(self).spec_dir_exists(),
            forall|s: Sibling| final(self).spec_file(s) == old(self).spec_file(s),
    {
        self.dir_exists = true;
    }

    /// Remove the directory and everything under it, recursively.  Fails
    /// the way the real call does when the directory does not exist.
    pub fn remove_dir_all(&mut self) -> (r: Result<(), DiskError>)
        ensures
            r is Ok <==> old(self).spec_dir_exists(),
            r is Err ==> r == Err::<(), DiskError>(DiskError::NotFound) && *final(self) == *old(self),
            r is Ok ==> !final(self).spec_dir_exists() && forall|s: Sibling|
                final(self).spec_file(s) is None,
    {
        if !self.dir_exists {
            return Err(DiskError::NotFound);
        }
        self.dir_exists = false;
        self.canonical = None;
        self.gzip = None;
        self.tmp = None;
        self.gzip_tmp = None;
        Ok(())
    }

    /// Write a whole buffer to one sibling file, truncating or creating it
    /// as needed.  Fails when the directory the file would live in does
    /// not exist.
    pub fn write(&mut self, s: Sibling, bytes: &[u8]) -> (r: Result<(), DiskError>)
        ensures
            r is Ok <==> old(self).spec_dir_exists(),
            r is Err ==> r == Err::<(), DiskError>(DiskError::Io) && *final(self) == *old(self),
            r is Ok ==> final(self).spec_file(s) == Some(bytes@) && final(self).spec_dir_exists()
                && forall|t: Sibling| t != s ==> final(self).spec_file(t) == old(self).spec_file(t),
    {
        if !self.dir_exists {
            return Err(DiskError::Io);
        }
        let content = Some(slice_to_vec(bytes));
        match s {
            Sibling::Canonical => self.canonical = content,
            Sibling::Gzip => self.gzip = content,
            Sibling::Tmp => self.tmp = content,
            Sibling::GzipTmp => self.gzip_tmp = content,
        }
        Ok(())
    }

    /// Rename one sibling file onto another.  The target is replaced in
    /// one step, so a reader sees either its old contents or the source's
    /// contents, never a mixture; the source is gone afterwards.  Fails
    /// the way the real call does when the source does not exist.
    pub fn rename(&mut self, from: Sibling, to: Sibling) -> (r: Result<(), DiskError>)
        requires
            from != to,
        ensures
            r is Ok <==> old(self).spec_file(from) is Some,
            r is Err ==> r == Err::<(), DiskError>(DiskError::NotFound) && *final(self) == *old(self),
            r is Ok ==> final(self).spec_file(to) == old(self).spec_file(from) && final(self).spec_file(from) is None && forall|t: Sibling|
                t != from && t != to ==> final(self).spec_file(t) == old(self).spec_file(t),
            final(self).spec_dir_exists() == old(self).spec_dir_exists(),
    {
        let source = match from {
            Sibling::Canonical => &self.canonical,
            Sibling::Gzip => &self.gzip,
            Sibling::Tmp => &self.tmp,
            Sibling::GzipTmp => &self.gzip_tmp,
        };
        let copied = match source {
            Some(v) => clone_bytes(v),
            None => return Err(DiskError::NotFound),
        };
        match from {
            Sibling::Canonical => self.canonical = None,
            Sibling::Gzip => self.gzip = None,
            Sibling::Tmp => self.tmp = None,
            Sibling::GzipTmp => self.gzip_tmp = None,
        }
        match to {
            Sibling::Canonical => self.canonical = Some(copied),
            Sibling::Gzip => self.gzip = Some(copied),
            Sibling::Tmp => self.tmp = Some(copied),
            Sibling::GzipTmp => self.gzip_tmp = Some(copied),
        }
        Ok(())
    }

    /// Remove one sibling file.  Fails the way the real call does when the
    /// file does not exist.
    pub fn remove(&mut self, s: Sibling) -> (r: Result<(), DiskError>)
        ensures
            r is Ok <==> old(self).spec_file(s) is Some,
            r is Err ==> r == Err::<(), DiskError>(DiskError::NotFound) && *final(self) == *old(self),
            r is Ok ==> final(self).spec_file(s) is None && forall|t: Sibling|
                t != s ==> final(self).spec_file(t) == old(self).spec_file(t),
            final(self).spec_dir_exists() == old(self).spec_dir_exists(),
    {
        if !self.file_exists(s) {
            return Err(DiskError::NotFound);
        }
        match s {
            Sibling::Canonical => self.canonical = None,
            Sibling::Gzip => self.gzip = None,
            Sibling::Tmp => self.tmp = None,
            Sibling::GzipTmp => self.gzip_tmp = None,
        }
        Ok(())
    }

    /// Whether one sibling file exists.
    pub fn file_exists(&self, s: Sibling) -> (r: bool)
        ensures
            r == (self.spec_file(s) is Some),
    {
        match s {
            Sibling::Canonical => self.canonical.is_some(),
            Sibling::Gzip => self.gzip.is_some(),
            Sibling::Tmp => self.tmp.is_some(),
            Sibling::GzipTmp => self.gzip_tmp.is_some(),
        }
    }

    /// Read a whole sibling file.  A missing file during a read is always
    /// an error, never an empty result.
    pub fn read(&self, s: Sibling) -> (r: Result<Vec<u8>, DiskError>)
        ensures
            match r {
                Ok(v) => self.spec_file(s) == Some(v@),
                Err(e) => e == DiskError::NotFound && self.spec_file(s) is None,
            },
    {
        let content = match s {
            Sibling::Canonical => &self.canonical,
            Sibling::Gzip => &self.gzip,
            Sibling::Tmp => &self.tmp,
            Sibling::GzipTmp => &self.gzip_tmp,
        };
        match content {
            Some(v) => Ok(clone_bytes(v)),
            None => Err(DiskError::NotFound),
        }
    }

    /// The size of one sibling file in bytes, and zero when it is absent
    /// or cannot be measured: a best-effort policy for non-critical size
    /// queries.
    pub fn filesize(&self, s: Sibling) -> (r: u64)
        ensures
            r as nat == match self.spec_file(s) {
                Some(c) => c.len(),
                None => 0,
            },
    {
        let content = match s {
            Sibling::Canonical => &self.canonical,
            Sibling::Gzip => &self.gzip,
            Sibling::Tmp => &self.tmp,
            Sibling::GzipTmp => &self.gzip_tmp,
        };
        match content {
            Some(v) => v.len() as u64,
            None => 0,
        }
    }
}

/// Copy a byte buffer.
fn clone_bytes(v: &Vec<u8>) -> (r: Vec<u8>)
    ensures
        r@ == v@,
{
    let mut r: Vec<u8> = Vec::new();
    let mut i: usize = 0;
    while i < v.len()
        invariant
            i <= v@.len(),
            r@ == v@.take(i as int),
        decreases v@.len() - i,
    {
        r.push(v[i]);
        i = i + 1;
    }
    proof {
        assert(v@.take(v@.len() as int) =~= v@);
    }
    r
}

} // verus!
