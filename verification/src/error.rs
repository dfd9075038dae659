use vstd::prelude::*;

verus! {

/// Why a 25-byte header-and-version frame was rejected.
///
/// The checks are made in this order: length first, then the 24 header
/// bytes, then the version byte, so exactly one error applies to any
/// rejected buffer.
#[derive(Clone, Copy, Debug, PartialEq, Eq, Structural)]
pub enum FrameError {
    /// The buffer holds fewer than 25 bytes.
    TooShort,
    /// The first 24 bytes differ from the expected header.
    HeaderMismatch,
    /// The 25th byte differs from the expected version.
    VersionMismatch,
}

/// Why a set of path components was rejected when an entity was built.
#[derive(Clone, Copy, Debug, PartialEq, Eq, Structural)]
pub enum ConfigError {
    /// The project directory name is empty.
    EmptyProject,
    /// The file name is empty.
    EmptyFile,
    /// The project directory name is 255 bytes or longer.
    ProjectTooLong,
    /// The file name is 255 bytes or longer.
    FileTooLong,
    /// Project, sub-directories and file name together reach 4000 bytes.
    CombinedTooLong,
    /// More than ten sub-directory levels were given.
    TooManySubDirs,
    /// A single sub-directory component is empty.
    EmptySubDir,
    /// A single sub-directory component is longer than 255 bytes.
    SubDirTooLong,
    /// A component holds a character that is not allowed in a path.
    ForbiddenSymbol,
    /// A component starts or ends with a space, `/` or `\`.
    BadEdgeSymbol,
}

/// The error of every disk operation of this crate.
#[derive(Clone, Copy, Debug, PartialEq, Eq, Structural)]
pub enum DiskError {
    /// The directory resolver failed, or handed back a path that is not
    /// absolute.
    Path,
    /// The 25-byte header-and-version prefix was missing or wrong.
    Frame(FrameError),
    /// A byte range with `start` greater than `end` was requested.
    Range,
    /// No entry of a version list matched the version found on disk.
    NoVersionMatched,
    /// The file does not exist.
    NotFound,
    /// An underlying read, write, rename or remove failed.
    Io,
    /// The operation was cut short before it could publish its result.
    Interrupted,
    /// Compressed bytes could not be decoded as gzip.
    Gzip,
    /// The path components were rejected at configuration time.
    Config(ConfigError),
}

} // verus!
