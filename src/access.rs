//! Access levels and the order in which one satisfies another.
use vstd::prelude::*;

verus! {

/// Level of filesystem access a grant gives or a query asks for.
#[derive(Debug, Clone, Copy, PartialEq, Eq, Structural)]
pub enum FsAccess {
    Read,
    Write,
    ReadWrite,
}

/// Whether a grant at level `granted` covers a request at level `requested`:
/// read-write covers everything, read and write cover only themselves.
pub open spec fn satisfies(granted: FsAccess, requested: FsAccess) -> bool {
    granted == FsAccess::ReadWrite || granted == requested
}

/// Name of the command-line flag that grants a level.
pub open spec fn flag_name(access: FsAccess) -> Seq<char> {
    match access {
        FsAccess::Read => seq!['r', 'e', 'a', 'd'],
        FsAccess::Write => seq!['w', 'r', 'i', 't', 'e'],
        FsAccess::ReadWrite => seq!['a', 'l', 'l', 'o', 'w'],
    }
}

/// Checks whether a capability's access level allows the requested operation.
pub fn access_allows(cap_access: &FsAccess, requested: FsAccess) -> (r: bool)
    ensures
        r == satisfies(*cap_access, requested),
{
    match (cap_access, requested) {
        (FsAccess::ReadWrite, _) => true,
        (FsAccess::Read, FsAccess::Read) => true,
        (FsAccess::Write, FsAccess::Write) => true,
        _ => false,
    }
}

/// The command-line flag name for an access level.
pub fn access_to_flag(access: &FsAccess) -> (r: &'static str)
    ensures
        r@ == flag_name(*access),
{
    proof {
        reveal_strlit("read");
        reveal_strlit("write");
        reveal_strlit("allow");
    }
    match access {
        FsAccess::Read => "read",
        FsAccess::Write => "write",
        FsAccess::ReadWrite => "allow",
    }
}

} // verus!
