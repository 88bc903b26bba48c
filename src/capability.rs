//! The permissions granted to a sandboxed process.
use vstd::prelude::*;
use crate::access::FsAccess;

verus! {

/// One granted filesystem path.
#[derive(Debug, Clone)]
pub struct FsCapability {
    /// The path as the user wrote it (may be relative or start with `~`).
    pub original: String,
    /// The absolute, canonical form of `original`.
    pub resolved: String,
    /// The access the grant gives.
    pub access: FsAccess,
    /// The grant names exactly one file rather than a directory tree.
    pub is_file: bool,
}

/// All permissions of a sandboxed process.
#[derive(Debug, Clone)]
pub struct CapabilitySet {
    /// Filesystem grants, in the order they were given.
    pub fs: Vec<FsCapability>,
    /// Network access is blocked as a whole.
    pub net_block: bool,
}

impl Default for CapabilitySet {
    /// No filesystem grants, network not blocked.
    fn default() -> (r: CapabilitySet)
        ensures
            r.fs@.len() == 0,
            !r.net_block,
    {
        CapabilitySet { fs: Vec::new(), net_block: false }
    }
}

} // verus!
