use vstd::prelude::*;

use crate::common::compress;
use crate::common::decompress;
use crate::common::gunzip_of;
use crate::error::DiskError;
use crate::fs_model::DiskState;
use crate::fs_model::Sibling;
use crate::metadata::Metadata;

verus! {

/// The failure injected into one underlying filesystem call of a save or
/// remove operation, to exercise the protocol's behaviour under
/// interruption.  A clean run injects nothing; a fault aimed at a step an
/// operation never performs has no effect on it.
#[derive(Clone, Debug)]
pub enum Fault {
    /// The write is cut short: only the bytes carried here reach the
    /// file, and the write call reports an error.
    WriteInterrupted(Vec<u8>),
    /// The rename that publishes or retires a file fails.
    RenameFails,
    /// A remove fails.
    RemoveFails,
    /// The process dies right before the rename: nothing after the write
    /// runs, not even cleanup.
    CrashBeforeRename,
}

/// Whether a fault stops the atomic save protocol before it can publish.
pub open spec fn blocks_atomic_save(f: Option<Fault>) -> bool {
    ||| f matches Some(Fault::WriteInterrupted(_))
    ||| f == Some(Fault::RenameFails)
    ||| f == Some(Fault::CrashBeforeRename)
}

impl DiskState {
    /// Save bytes by writing them straight to the canonical file: the
    /// fast but unsafe path.  The directories leading up to the file are
    /// created first.  An interrupted write leaves the canonical file
    /// holding whatever part of the buffer reached the disk: this
    /// operation offers no protection against torn writes.
    pub fn save(&mut self, bytes: &[u8], path: &String, fault: &Option<Fault>) -> (r: Result<
        Metadata,
        DiskError,
    >)
        ensures
            final(self).spec_dir_exists(),
            r is Ok <==> !(fault matches Some(Fault::WriteInterrupted(_))),
            r matches Ok(m) ==> m.spec_size() == bytes@.len() && m.spec_path() == path@
                && final(self).spec_file(Sibling::Canonical) == Some(bytes@),
            fault matches Some(Fault::WriteInterrupted(p)) ==> r == Err::<Metadata, DiskError>(
                DiskError::Io,
            ) && final(self).spec_file(Sibling::Canonical) == Some(p@),
            final(self).spec_file(Sibling::Gzip) == old(self).spec_file(Sibling::Gzip),
            final(self).spec_file(Sibling::Tmp) == old(self).spec_file(Sibling::Tmp),
            final(self).spec_file(Sibling::GzipTmp) == old(self).spec_file(Sibling::GzipTmp),
    {
        self.create_dir_all();
        if let Some(Fault::WriteInterrupted(partial)) = fault {
            let _ = self.write(Sibling::Canonical, partial.as_slice());
            return Err(DiskError::Io);
        }
        let _ = self.write(Sibling::Canonical, bytes);
        Ok(Metadata::new(bytes.len() as u64, path.clone()))
    }

    /// Save bytes with the atomic protocol: write the whole buffer to the
    /// temporary sibling, then rename it onto the canonical file.
    ///
    /// Whatever fails, the canonical file holds either its old contents,
    /// byte for byte, or the whole new buffer — never a mixture and never
    /// a prefix.  A failed write or failed rename removes the temporary
    /// file before the error is surfaced; a crash right before the rename
    /// leaves the fully written temporary behind for a later cleanup, and
    /// the canonical file untouched.
    pub fn save_atomic(&mut self, bytes: &[u8], path: &String, fault: &Option<Fault>) -> (r:
        Result<Metadata, DiskError>)
        ensures
            final(self).spec_file(Sibling::Canonical) == old(self).spec_file(Sibling::Canonical)
                || final(self).spec_file(Sibling::Canonical) == Some(bytes@),
            r is Err ==> final(self).spec_file(Sibling::Canonical) == old(self).spec_file(
                Sibling::Canonical,
            ),
            r is Ok <==> !blocks_atomic_save(*fault),
            r matches Ok(m) ==> m.spec_size() == bytes@.len() && m.spec_path() == path@
                && final(self).spec_file(Sibling::Canonical) == Some(bytes@) && final(self).spec_file(Sibling::Tmp) is None,
            fault matches Some(Fault::WriteInterrupted(_)) || *fault == Some(Fault::RenameFails)
                ==> r == Err::<Metadata, DiskError>(DiskError::Io) && final(self).spec_file(
                Sibling::Tmp,
            ) is None,
            *fault == Some(Fault::CrashBeforeRename) ==> r == Err::<Metadata, DiskError>(
                DiskError::Interrupted,
            ) && final(self).spec_file(Sibling::Tmp) == Some(bytes@),
            final(self).spec_file(Sibling::Gzip) == old(self).spec_file(Sibling::Gzip),
            final(self).spec_file(Sibling::GzipTmp) == old(self).spec_file(Sibling::GzipTmp),
            final(self).spec_dir_exists(),
    {
        self.create_dir_all();
        match fault {
            Some(Fault::WriteInterrupted(partial)) => {
                let _ = self.write(Sibling::Tmp, partial.as_slice());
                let _ = self.remove(Sibling::Tmp);
                return Err(DiskError::Io);
            },
            Some(Fault::CrashBeforeRename) => {
                let _ = self.write(Sibling::Tmp, bytes);
                return Err(DiskError::Interrupted);
            },
            Some(Fault::RenameFails) => {
                let _ = self.write(Sibling::Tmp, bytes);
                let _ = self.remove(Sibling::Tmp);
                return Err(DiskError::Io);
            },
            _ => {},
        }
        let _ = self.write(Sibling::Tmp, bytes);
        let _ = self.rename(Sibling::Tmp, Sibling::Canonical);
        Ok(Metadata::new(bytes.len() as u64, path.clone()))
    }

    /// Save bytes compressed, by writing the gzip stream straight to the
    /// gzip sibling: the fast but unsafe compressed path.  Compression
    /// cannot fail, so the save succeeds whenever the write does; an
    /// interrupted write leaves the gzip sibling holding whatever part of
    /// the stream reached the disk.
    pub fn save_gzip(&mut self, bytes: &[u8], gzip_path: &String, fault: &Option<Fault>) -> (r:
        Result<Metadata, DiskError>)
        ensures
            r is Ok <==> !(fault matches Some(Fault::WriteInterrupted(_))),
            r matches Ok(m) ==> m.spec_path() == gzip_path@ && (final(self).spec_file(
                Sibling::Gzip,
            ) matches Some(c) && gunzip_of(c) == Some(bytes@) && m.spec_size() as nat == c.len()),
            fault matches Some(Fault::WriteInterrupted(p)) ==> r == Err::<Metadata, DiskError>(
                DiskError::Io,
            ) && final(self).spec_file(Sibling::Gzip) == Some(p@),
            final(self).spec_dir_exists(),
            final(self).spec_file(Sibling::Canonical) == old(self).spec_file(Sibling::Canonical),
            final(self).spec_file(Sibling::Tmp) == old(self).spec_file(Sibling::Tmp),
            final(self).spec_file(Sibling::GzipTmp) == old(self).spec_file(Sibling::GzipTmp),
    {
        let compressed = compress(bytes);
        self.create_dir_all();
        if let Some(Fault::WriteInterrupted(partial)) = fault {
            let _ = self.write(Sibling::Gzip, partial.as_slice());
            return Err(DiskError::Io);
        }
        let _ = self.write(Sibling::Gzip, compressed.as_slice());
        Ok(Metadata::new(compressed.len() as u64, gzip_path.clone()))
    }

    /// Save bytes compressed with the atomic protocol: compress, write
    /// the gzip stream to the compressed temporary sibling, then rename
    /// it onto the gzip file.  Compression cannot fail, so the save
    /// succeeds exactly when no step of the protocol is stopped; and
    /// whatever happens, the gzip file holds either its old contents or a
    /// complete stream that decompresses to the new bytes — never a
    /// mixture.
    pub fn save_atomic_gzip(&mut self, bytes: &[u8], gzip_path: &String, fault: &Option<
        Fault,
    >) -> (r: Result<Metadata, DiskError>)
        ensures
            r is Err ==> final(self).spec_file(Sibling::Gzip) == old(self).spec_file(
                Sibling::Gzip,
            ),
            r is Ok <==> !blocks_atomic_save(*fault),
            r matches Ok(m) ==> m.spec_path() == gzip_path@ && (final(self).spec_file(
                Sibling::Gzip,
            ) matches Some(c) && gunzip_of(c) == Some(bytes@) && m.spec_size() as nat == c.len())
                && final(self).spec_file(Sibling::GzipTmp) is None,
            fault matches Some(Fault::WriteInterrupted(_)) || *fault == Some(Fault::RenameFails)
                ==> r == Err::<Metadata, DiskError>(DiskError::Io) && final(self).spec_file(
                Sibling::GzipTmp,
            ) is None,
            *fault == Some(Fault::CrashBeforeRename) ==> r == Err::<Metadata, DiskError>(
                DiskError::Interrupted,
            ) && (final(self).spec_file(Sibling::GzipTmp) matches Some(c) && gunzip_of(c) == Some(
                bytes@,
            )),
            final(self).spec_dir_exists(),
            final(self).spec_file(Sibling::Canonical) == old(self).spec_file(Sibling::Canonical),
            final(self).spec_file(Sibling::Tmp) == old(self).spec_file(Sibling::Tmp),
    {
        let compressed = compress(bytes);
        self.create_dir_all();
        match fault {
            Some(Fault::WriteInterrupted(partial)) => {
                let _ = self.write(Sibling::GzipTmp, partial.as_slice());
                let _ = self.remove(Sibling::GzipTmp);
                return Err(DiskError::Io);
            },
            Some(Fault::CrashBeforeRename) => {
                let _ = self.write(Sibling::GzipTmp, compressed.as_slice());
                return Err(DiskError::Interrupted);
            },
            Some(Fault::RenameFails) => {
                let _ = self.write(Sibling::GzipTmp, compressed.as_slice());
                let _ = self.remove(Sibling::GzipTmp);
                return Err(DiskError::Io);
            },
            _ => {},
        }
        let _ = self.write(Sibling::GzipTmp, compressed.as_slice());
        let _ = self.rename(Sibling::GzipTmp, Sibling::Gzip);
        Ok(Metadata::new(compressed.len() as u64, gzip_path.clone()))
    }

    /// Read the canonical file whole.  A missing file during a read is an
    /// error, never an empty result.
    pub fn read_to_bytes(&self) -> (r: Result<Vec<u8>, DiskError>)
        ensures
            match r {
                Ok(v) => self.spec_file(Sibling::Canonical) == Some(v@),
                Err(e) => e == DiskError::NotFound && self.spec_file(Sibling::Canonical) is None,
            },
    {
        self.read(Sibling::Canonical)
    }

    /// Read the gzip sibling whole and decompress it.  Fails exactly when
    /// the file is absent or its contents are not a valid gzip stream; a
    /// stored valid stream is always read back successfully.
    pub fn read_to_bytes_gzip(&self) -> (r: Result<Vec<u8>, DiskError>)
        ensures
            self.spec_file(Sibling::Gzip) is None ==> r == Err::<Vec<u8>, DiskError>(
                DiskError::NotFound,
            ),
            r matches Ok(v) ==> (self.spec_file(Sibling::Gzip) matches Some(c) && gunzip_of(c)
                == Some(v@)),
            (self.spec_file(Sibling::Gzip) matches Some(c) && gunzip_of(c) is Some) ==> r is Ok,
            r == Err::<Vec<u8>, DiskError>(DiskError::Gzip) ==> (self.spec_file(
                Sibling::Gzip,
            ) matches Some(c) && gunzip_of(c) is None),
            r is Err ==> r == Err::<Vec<u8>, DiskError>(DiskError::NotFound) || r == Err::<
                Vec<u8>,
                DiskError,
            >(DiskError::Gzip),
    {
        let stored = match self.read(Sibling::Gzip) {
            Ok(v) => v,
            Err(_) => return Err(DiskError::NotFound),
        };
        match decompress(stored.as_slice()) {
            Ok(v) => Ok(v),
            Err(_) => Err(DiskError::Gzip),
        }
    }

    /// Delete the canonical file directly: the fast but unsafe removal.
    /// A file that does not exist is success, reported as zero bytes.
    pub fn rm(&mut self, path: &String, fault: &Option<Fault>) -> (r: Result<Metadata, DiskError>)
        ensures
            old(self).spec_file(Sibling::Canonical) is None ==> (r matches Ok(m) && m.spec_size()
                == 0 && m.spec_path() == path@) && *final(self) == *old(self),
            (old(self).spec_file(Sibling::Canonical) is Some && *fault == Some(Fault::RemoveFails))
                ==> r == Err::<Metadata, DiskError>(DiskError::Io) && *final(self) == *old(self),
            (old(self).spec_file(Sibling::Canonical) is Some && *fault != Some(Fault::RemoveFails))
                ==> (r matches Ok(m) && m.spec_path() == path@ && (old(self).spec_file(
                Sibling::Canonical,
            ) matches Some(c) && m.spec_size() as nat == c.len())) && final(self).spec_file(
                Sibling::Canonical,
            ) is None && final(self).spec_file(Sibling::Gzip) == old(self).spec_file(Sibling::Gzip)
                && final(self).spec_file(Sibling::Tmp) == old(self).spec_file(Sibling::Tmp)
                && final(self).spec_file(Sibling::GzipTmp) == old(self).spec_file(
                Sibling::GzipTmp,
            ),
    {
        if !self.file_exists(Sibling::Canonical) {
            return Ok(Metadata::zero(path.clone()));
        }
        if let Some(Fault::RemoveFails) = fault {
            return Err(DiskError::Io);
        }
        let size = self.filesize(Sibling::Canonical);
        let _ = self.remove(Sibling::Canonical);
        Ok(Metadata::new(size, path.clone()))
    }

    /// Delete the canonical file with the atomic protocol: rename it onto
    /// the temporary sibling, then delete the temporary.  A crash in the
    /// middle leaves a recognizable temporary artifact rather than a
    /// half-deleted file, and the same cleanup that serves the atomic save
    /// clears it.  A file that does not exist is success, reported as zero
    /// bytes.
    pub fn rm_atomic(&mut self, path: &String, fault: &Option<Fault>) -> (r: Result<
        Metadata,
        DiskError,
    >)
        ensures
            old(self).spec_file(Sibling::Canonical) is None ==> (r matches Ok(m) && m.spec_size()
                == 0 && m.spec_path() == path@) && *final(self) == *old(self),
            (old(self).spec_file(Sibling::Canonical) is Some && *fault == Some(Fault::RenameFails))
                ==> r == Err::<Metadata, DiskError>(DiskError::Io) && *final(self) == *old(self),
            (old(self).spec_file(Sibling::Canonical) is Some && *fault == Some(Fault::RemoveFails))
                ==> r == Err::<Metadata, DiskError>(DiskError::Io) && final(self).spec_file(
                Sibling::Canonical,
            ) is None && final(self).spec_file(Sibling::Tmp) == old(self).spec_file(
                Sibling::Canonical,
            ),
            (old(self).spec_file(Sibling::Canonical) is Some && *fault != Some(Fault::RenameFails)
                && *fault != Some(Fault::RemoveFails)) ==> (r matches Ok(m) && m.spec_path()
                == path@ && (old(self).spec_file(Sibling::Canonical) matches Some(c)
                && m.spec_size() as nat == c.len())) && final(self).spec_file(
                Sibling::Canonical,
            ) is None && final(self).spec_file(Sibling::Tmp) is None,
            final(self).spec_file(Sibling::Gzip) == old(self).spec_file(Sibling::Gzip),
            final(self).spec_file(Sibling::GzipTmp) == old(self).spec_file(Sibling::GzipTmp),
    {
        if !self.file_exists(Sibling::Canonical) {
            return Ok(Metadata::zero(path.clone()));
        }
        let size = self.filesize(Sibling::Canonical);
        match fault {
            Some(Fault::RenameFails) => {
                return Err(DiskError::Io);
            },
            Some(Fault::RemoveFails) => {
                let _ = self.rename(Sibling::Canonical, Sibling::Tmp);
                return Err(DiskError::Io);
            },
            _ => {},
        }
        let _ = self.rename(Sibling::Canonical, Sibling::Tmp);
        let _ = self.remove(Sibling::Tmp);
        Ok(Metadata::new(size, path.clone()))
    }

    /// Same as the atomic removal, for the gzip sibling and its
    /// compressed temporary.
    pub fn rm_atomic_gzip(&mut self, gzip_path: &String, fault: &Option<Fault>) -> (r: Result<
        Metadata,
        DiskError,
    >)
        ensures
            old(self).spec_file(Sibling::Gzip) is None ==> (r matches Ok(m) && m.spec_size() == 0
                && m.spec_path() == gzip_path@) && *final(self) == *old(self),
            (old(self).spec_file(Sibling::Gzip) is Some && *fault == Some(Fault::RenameFails))
                ==> r == Err::<Metadata, DiskError>(DiskError::Io) && *final(self) == *old(self),
            (old(self).spec_file(Sibling::Gzip) is Some && *fault == Some(Fault::RemoveFails))
                ==> r == Err::<Metadata, DiskError>(DiskError::Io) && final(self).spec_file(
                Sibling::Gzip,
            ) is None && final(self).spec_file(Sibling::GzipTmp) == old(self).spec_file(
                Sibling::Gzip,
            ),
            (old(self).spec_file(Sibling::Gzip) is Some && *fault != Some(Fault::RenameFails)
                && *fault != Some(Fault::RemoveFails)) ==> (r matches Ok(m) && m.spec_path()
                == gzip_path@ && (old(self).spec_file(Sibling::Gzip) matches Some(c)
                && m.spec_size() as nat == c.len())) && final(self).spec_file(Sibling::Gzip) is None
                && final(self).spec_file(Sibling::GzipTmp) is None,
            final(self).spec_file(Sibling::Canonical) == old(self).spec_file(Sibling::Canonical),
            final(self).spec_file(Sibling::Tmp) == old(self).spec_file(Sibling::Tmp),
    {
        if !self.file_exists(Sibling::Gzip) {
            return Ok(Metadata::zero(gzip_path.clone()));
        }
        let size = self.filesize(Sibling::Gzip);
        match fault {
            Some(Fault::RenameFails) => {
                return Err(DiskError::Io);
            },
            Some(Fault::RemoveFails) => {
                let _ = self.rename(Sibling::Gzip, Sibling::GzipTmp);
                return Err(DiskError::Io);
            },
            _ => {},
        }
        let _ = self.rename(Sibling::Gzip, Sibling::GzipTmp);
        let _ = self.remove(Sibling::GzipTmp);
        Ok(Metadata::new(size, gzip_path.clone()))
    }

    /// Delete any leftover temporary files of the atomic protocols.
    ///
    /// When no temporary exists this succeeds without touching anything.
    /// Each leftover is removed independently, so a missing sibling never
    /// fails the pass and cleaning up twice in a row always succeeds; a
    /// deletion that finds files and cannot remove them surfaces an error
    /// rather than swallowing it, since this operation's entire purpose
    /// is clearing leftover state.
    pub fn rm_tmp(&mut self, fault: &Option<Fault>) -> (r: Result<(), DiskError>)
        ensures
            ({
                let outcome = spec_rm_tmp(
                    old(self).spec_file(Sibling::Tmp),
                    old(self).spec_file(Sibling::GzipTmp),
                    *fault == Some(Fault::RemoveFails),
                );
                final(self).spec_file(Sibling::Tmp) == outcome.0 && final(self).spec_file(
                    Sibling::GzipTmp,
                ) == outcome.1 && (r is Ok <==> outcome.2)
            }),
            r is Err ==> r == Err::<(), DiskError>(DiskError::Io),
            final(self).spec_file(Sibling::Canonical) == old(self).spec_file(Sibling::Canonical),
            final(self).spec_file(Sibling::Gzip) == old(self).spec_file(Sibling::Gzip),
            final(self).spec_dir_exists() == old(self).spec_dir_exists(),
    {
        let has_tmp = self.file_exists(Sibling::Tmp);
        let has_gzip_tmp = self.file_exists(Sibling::GzipTmp);
        if !has_tmp && !has_gzip_tmp {
            return Ok(());
        }
        if let Some(Fault::RemoveFails) = fault {
            return Err(DiskError::Io);
        }
        if has_tmp {
            let _ = self.remove(Sibling::Tmp);
        }
        if has_gzip_tmp {
            let _ = self.remove(Sibling::GzipTmp);
        }
        Ok(())
    }

    /// Whether the canonical file exists: the size and path of the file
    /// when it does, and a plain "no" when it is simply absent.
    pub fn exists_file(&self, path: &String) -> (r: Option<Metadata>)
        ensures
            r is Some <==> self.spec_file(Sibling::Canonical) is Some,
            r matches Some(m) ==> m.spec_path() == path@ && (self.spec_file(
                Sibling::Canonical,
            ) matches Some(c) && m.spec_size() as nat == c.len()),
    {
        if self.file_exists(Sibling::Canonical) {
            Some(Metadata::new(self.filesize(Sibling::Canonical), path.clone()))
        } else {
            None
        }
    }

    /// Whether the gzip sibling exists, reported the same way.
    pub fn exists_gzip(&self, gzip_path: &String) -> (r: Option<Metadata>)
        ensures
            r is Some <==> self.spec_file(Sibling::Gzip) is Some,
            r matches Some(m) ==> m.spec_path() == gzip_path@ && (self.spec_file(
                Sibling::Gzip,
            ) matches Some(c) && m.spec_size() as nat == c.len()),
    {
        if self.file_exists(Sibling::Gzip) {
            Some(Metadata::new(self.filesize(Sibling::Gzip), gzip_path.clone()))
        } else {
            None
        }
    }

    /// The canonical file's size in bytes and its path.  A missing file
    /// is an error here, unlike in the existence check.
    pub fn file_size(&self, path: &String) -> (r: Result<Metadata, DiskError>)
        ensures
            r is Ok <==> self.spec_file(Sibling::Canonical) is Some,
            r matches Ok(m) ==> m.spec_path() == path@ && (self.spec_file(
                Sibling::Canonical,
            ) matches Some(c) && m.spec_size() as nat == c.len()),
            r is Err ==> r == Err::<Metadata, DiskError>(DiskError::NotFound),
    {
        if self.file_exists(Sibling::Canonical) {
            Ok(Metadata::new(self.filesize(Sibling::Canonical), path.clone()))
        } else {
            Err(DiskError::NotFound)
        }
    }

    /// The gzip sibling's size in bytes and its path.
    pub fn file_size_gzip(&self, gzip_path: &String) -> (r: Result<Metadata, DiskError>)
        ensures
            r is Ok <==> self.spec_file(Sibling::Gzip) is Some,
            r matches Ok(m) ==> m.spec_path() == gzip_path@ && (self.spec_file(
                Sibling::Gzip,
            ) matches Some(c) && m.spec_size() as nat == c.len()),
            r is Err ==> r == Err::<Metadata, DiskError>(DiskError::NotFound),
    {
        if self.file_exists(Sibling::Gzip) {
            Ok(Metadata::new(self.filesize(Sibling::Gzip), gzip_path.clone()))
        } else {
            Err(DiskError::NotFound)
        }
    }

    /// Create the directories leading up to the entity's files, and hand
    /// back the path that was created.  Not necessary before a save: the
    /// save operations create their directories themselves.
    pub fn mkdir(&mut self, base_path: &String) -> (r: String)
        ensures
            final(self).spec_dir_exists(),
            forall|s: Sibling| final(self).spec_file(s) == old(self).spec_file(s),
            r@ == base_path@,
    {
        self.create_dir_all();
        base_path.clone()
    }

    /// Create the entity's file empty, with its directories: a file-based
    /// signal that carries no data.
    pub fn touch(&mut self) -> (r: Result<(), DiskError>)
        ensures
            r is Ok,
            final(self).spec_dir_exists(),
            final(self).spec_file(Sibling::Canonical) == Some(Seq::<u8>::empty()),
            final(self).spec_file(Sibling::Gzip) == old(self).spec_file(Sibling::Gzip),
            final(self).spec_file(Sibling::Tmp) == old(self).spec_file(Sibling::Tmp),
            final(self).spec_file(Sibling::GzipTmp) == old(self).spec_file(Sibling::GzipTmp),
    {
        self.create_dir_all();
        let empty: Vec<u8> = Vec::new();
        match self.write(Sibling::Canonical, empty.as_slice()) {
            Ok(()) => Ok(()),
            Err(e) => Err(e),
        }
    }

    /// Recursively remove the entity's whole directory tree.  Everything
    /// under the project directory is gone afterwards.  The byte count of
    /// a removed tree mirrors the best-effort size query on the directory
    /// itself, which the model does not track: it is reported as zero.
    pub fn rm_project(&mut self, project_path: &String) -> (r: Result<Metadata, DiskError>)
        ensures
            r is Ok <==> old(self).spec_dir_exists(),
            r is Err ==> r == Err::<Metadata, DiskError>(DiskError::NotFound) && *final(self)
                == *old(self),
            r matches Ok(m) ==> m.spec_path() == project_path@ && !final(self).spec_dir_exists()
                && forall|s: Sibling| final(self).spec_file(s) is None,
    {
        match self.remove_dir_all() {
            Ok(()) => Ok(Metadata::zero(project_path.clone())),
            Err(e) => Err(e),
        }
    }

    /// Recursively remove the entity's sub-directory tree, starting from
    /// the topmost sub-directory.  For an entity this erases the same
    /// files as removing the project directory does; only the path
    /// reported differs.
    pub fn rm_sub(&mut self, sub_path: &String) -> (r: Result<Metadata, DiskError>)
        ensures
            r is Ok <==> old(self).spec_dir_exists(),
            r is Err ==> r == Err::<Metadata, DiskError>(DiskError::NotFound) && *final(self)
                == *old(self),
            r matches Ok(m) ==> m.spec_path() == sub_path@ && !final(self).spec_dir_exists()
                && forall|s: Sibling| final(self).spec_file(s) is None,
    {
        match self.remove_dir_all() {
            Ok(()) => Ok(Metadata::zero(sub_path.clone())),
            Err(e) => Err(e),
        }
    }
}

/// What one cleanup pass does to the two temporary files: which contents
/// remain, and whether the pass succeeds.  Nothing to clean is success;
/// otherwise each leftover is removed on its own, unless the injected
/// deletion failure stops the pass before it removes anything.
pub open spec fn spec_rm_tmp(tmp: Option<Seq<u8>>, gtmp: Option<Seq<u8>>, remove_fails: bool) -> (
    Option<Seq<u8>>,
    Option<Seq<u8>>,
    bool,
) {
    if tmp is None && gtmp is None {
        (tmp, gtmp, true)
    } else if remove_fails {
        (tmp, gtmp, false)
    } else {
        (None, None, true)
    }
}

/// Idempotent cleanup: a cleanup that finds nothing succeeds, a clean
/// pass always succeeds whatever is left over, and after any pass — even
/// one stopped by a failing deletion — a clean second pass succeeds.
pub proof fn lemma_rm_tmp_idempotent(tmp: Option<Seq<u8>>, gtmp: Option<Seq<u8>>)
    ensures
        spec_rm_tmp(Option::<Seq<u8>>::None, Option::<Seq<u8>>::None, false).2,
        spec_rm_tmp(tmp, gtmp, false).2,
        ({
            let first = spec_rm_tmp(tmp, gtmp, false);
            spec_rm_tmp(first.0, first.1, false).2
        }),
        ({
            let first = spec_rm_tmp(tmp, gtmp, true);
            spec_rm_tmp(first.0, first.1, false).2
        }),
{
}

/// Compression round-trip: gzip decompression is a function of the stored
/// stream alone, so the bytes a read decompresses from a stream are
/// exactly the bytes whose compression produced that stream.
pub proof fn lemma_gzip_round_trip(stored: Seq<u8>, saved: Seq<u8>, read: Seq<u8>)
    requires
        gunzip_of(stored) == Some(saved),
        gunzip_of(stored) == Some(read),
    ensures
        saved == read,
{
}

} // verus!
