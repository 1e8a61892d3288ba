//! Error taxonomy: document-reading failures and validation failures.

use vstd::prelude::*;

verus! {

/// A failure while reading a configuration document onto the tree.
#[derive(Debug, Clone, Copy, PartialEq, Eq, Structural)]
pub enum ParseError {
    /// The document's line or value structure is malformed.
    Syntax,
    /// A known key carries a value of the wrong shape, a malformed unit, an
    /// unknown enumeration name, or an out-of-range magnitude.
    BadValue,
}

/// A failure of the validation pass; the operator can correct each.
#[derive(Debug, Clone, Copy, PartialEq, Eq, Structural)]
pub enum ConfigError {
    /// The storage data directory is empty.
    EmptyDataDir,
    /// The server address does not parse as a network address.
    BadAddr,
    /// The advertised server address is set but does not parse.
    BadAdvertiseAddr,
    /// The backup directory is set but is not an absolute path.
    BackupDirNotAbsolute,
    /// The consensus-log engine path collides with the main engine's
    /// derived on-disk subdirectory.
    RaftDbPathConflict,
    /// Main-engine data exists on disk but consensus-log data does not.
    KvEngineExistsWithoutRaftEngine,
    /// Consensus-log data exists on disk but main-engine data does not.
    RaftEngineExistsWithoutKvEngine,
    /// The coordination-endpoint list is empty.
    EmptyEndpoints,
    /// A coordination endpoint does not parse as a network address.
    BadEndpoint,
}

} // verus!
