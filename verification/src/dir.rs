use vstd::prelude::*;

verus! {

/// The different kinds of OS directories an entity can live under.
///
/// The mapping from a kind to a concrete absolute path follows the
/// conventions of the running platform and is delegated to an external
/// directory resolver; only the choice of kind is recorded here.
#[derive(Copy, Clone, Debug, PartialEq, Eq, Structural, PartialOrd, Ord, Hash)]
pub enum Dir {
    /// The project root itself (on Linux, the cache root of the project).
    Project,
    /// The user cache directory.
    Cache,
    /// The user configuration directory.
    Config,
    /// The user data directory.  This is the default value.
    Data,
    /// The user local (non-roaming) data directory.
    DataLocal,
    /// The user preference directory.
    Preference,
}

impl Default for Dir {
    /// The default directory kind is the user data directory.
    fn default() -> (r: Self)
        ensures
            r == Dir::Data,
    {
        Dir::Data
    }
}

} // verus!
