//! Decisions on filesystem and network operations, and their presentation.
use vstd::prelude::*;
use crate::access::{access_allows, access_to_flag, flag_name, satisfies, FsAccess};
use crate::capability::{CapabilitySet, FsCapability};
use crate::error::NonoError;
use crate::path::{
    expand_tilde, has_root, is_home_error, needs_home, opt_view, path_eq, path_starts_with, path_under, same_path,
    tilde_expansion,
};

verus! {

/// Reason why an operation is allowed.
#[derive(Debug, Clone, Copy, PartialEq, Eq, Structural)]
pub enum AllowReason {
    /// Explicitly granted via --allow, --read, or --write.
    ExplicitGrant,
    /// Within the working directory.
    WithinWorkdir,
    /// System path allowed for executables.
    SystemPath,
    /// Network allowed by default.
    NetworkAllowedByDefault,
}

/// Reason why an operation is denied.
#[derive(Debug, Clone, Copy, PartialEq, Eq, Structural)]
pub enum DenyReason {
    /// Path is in the sensitive paths list.
    SensitivePath,
    /// Path is not in the list of allowed paths.
    NotInAllowedPaths,
    /// Network access is blocked.
    NetworkBlocked,
}

/// Result of a query.
#[derive(Debug)]
pub enum QueryResult {
    /// The operation would be allowed.
    Allowed { reason: AllowReason, granted_by: String },
    /// The operation would be denied; `category` is set for sensitive paths.
    Denied { reason: DenyReason, category: Option<String>, suggestion: String },
    /// Not running inside a sandbox.
    NotSandboxed { message: String },
}

/// The value a `QueryResult` stands for, with its strings as character sequences.
pub enum Verdict {
    Allowed { reason: AllowReason, granted_by: Seq<char> },
    Denied { reason: DenyReason, category: Option<Seq<char>>, suggestion: Seq<char> },
    NotSandboxed { message: Seq<char> },
}

impl View for QueryResult {
    type V = Verdict;

    open spec fn view(&self) -> Verdict {
        match self {
            QueryResult::Allowed { reason, granted_by } => Verdict::Allowed {
                reason: *reason,
                granted_by: granted_by@,
            },
            QueryResult::Denied { reason, category, suggestion } => Verdict::Denied {
                reason: *reason,
                category: match category {
                    Some(c) => Some(c@),
                    None => None,
                },
                suggestion: suggestion@,
            },
            QueryResult::NotSandboxed { message } => Verdict::NotSandboxed { message: message@ },
        }
    }
}

fn same_category(a: &Option<String>, b: &Option<String>) -> (r: bool)
    ensures
        r == (match a {
            Some(x) => Some(x@),
            None => None::<Seq<char>>,
        } == match b {
            Some(y) => Some(y@),
            None => None::<Seq<char>>,
        }),
{
    match (a, b) {
        (Some(x), Some(y)) => *x == *y,
        (None, None) => true,
        _ => false,
    }
}

impl PartialEq for QueryResult {
    fn eq(&self, other: &QueryResult) -> (r: bool) {
        match (self, other) {
            (
                QueryResult::Allowed { reason: r1, granted_by: g1 },
                QueryResult::Allowed { reason: r2, granted_by: g2 },
            ) => *r1 == *r2 && *g1 == *g2,
            (
                QueryResult::Denied { reason: r1, category: c1, suggestion: s1 },
                QueryResult::Denied { reason: r2, category: c2, suggestion: s2 },
            ) => *r1 == *r2 && same_category(c1, c2) && *s1 == *s2,
            (
                QueryResult::NotSandboxed { message: m1 },
                QueryResult::NotSandboxed { message: m2 },
            ) => *m1 == *m2,
            _ => false,
        }
    }
}

impl vstd::std_specs::cmp::PartialEqSpecImpl for QueryResult {
    open spec fn obeys_eq_spec() -> bool {
        true
    }

    /// Two results are equal when they stand for the same decision.
    open spec fn eq_spec(&self, other: &QueryResult) -> bool {
        self@ == other@
    }
}

/// `--<flag> <path>`: how to ask for `op` on `path`. It depends on the path
/// string and the access level alone, never on what lies at the path.
pub open spec fn suggestion_for(path: Seq<char>, op: FsAccess) -> Seq<char> {
    seq!['-', '-'] + flag_name(op) + seq![' '] + path
}

/// How a grant is named in an allowed result, by its flag and original path.
pub open spec fn grant_label(cap: FsCapability) -> Seq<char> {
    seq!['-', '-'] + flag_name(cap.access) + seq![' '] + cap.original@
}

/// Whether a grant covers a path, given as its expanded form and as the caller
/// wrote it. A file grant covers exactly its path; a directory grant covers its
/// path and everything under it, by components. The expanded form is compared
/// with the resolved path of the grant, the written form with its original path.
pub open spec fn grant_matches(cap: FsCapability, expanded: Seq<char>, query: Seq<char>) -> bool {
    if cap.is_file {
        same_path(expanded, cap.resolved@) || same_path(query, cap.original@)
    } else {
        path_under(expanded, cap.resolved@) || path_under(query, cap.original@)
    }
}

/// A grant that covers the path and whose access satisfies the request.
pub open spec fn grants(cap: FsCapability, expanded: Seq<char>, query: Seq<char>, op: FsAccess) -> bool {
    grant_matches(cap, expanded, query) && satisfies(cap.access, op)
}

/// The first grant, in order, that grants the request.
pub open spec fn first_grant(
    caps: Seq<FsCapability>,
    expanded: Seq<char>,
    query: Seq<char>,
    op: FsAccess,
) -> Option<FsCapability>
    decreases caps.len(),
{
    if caps.len() == 0 {
        None
    } else if grants(caps[0], expanded, query, op) {
        Some(caps[0])
    } else {
        first_grant(caps.drop_first(), expanded, query, op)
    }
}

/// The decision on a filesystem request. `category` is what the sensitive-path
/// classifier says of the path as written; `home` is the home variable's value.
/// A sensitive path is denied before anything else is looked at; otherwise a
/// failed tilde expansion is the error; otherwise the first grant that grants
/// the request allows it, and without one the request is denied.
pub open spec fn evaluate_path(
    caps: Seq<FsCapability>,
    path: Seq<char>,
    op: FsAccess,
    category: Option<Seq<char>>,
    home: Option<Seq<char>>,
) -> Result<Verdict, Seq<char>> {
    match category {
        Some(c) => Ok(
            Verdict::Denied {
                reason: DenyReason::SensitivePath,
                category: Some(c),
                suggestion: suggestion_for(path, op),
            },
        ),
        None => match tilde_expansion(path, home) {
            Err(reason) => Err(reason),
            Ok(expanded) => match first_grant(caps, expanded, path, op) {
                Some(cap) => Ok(
                    Verdict::Allowed { reason: AllowReason::ExplicitGrant, granted_by: grant_label(cap) },
                ),
                None => Ok(
                    Verdict::Denied {
                        reason: DenyReason::NotInAllowedPaths,
                        category: None,
                        suggestion: suggestion_for(path, op),
                    },
                ),
            },
        },
    }
}

/// The decision on a network request.
pub open spec fn evaluate_network(net_block: bool) -> Verdict {
    if net_block {
        Verdict::Denied {
            reason: DenyReason::NetworkBlocked,
            category: None,
            suggestion: "remove --net-block flag"@,
        }
    } else {
        Verdict::Allowed {
            reason: AllowReason::NetworkAllowedByDefault,
            granted_by: "network allowed by default"@,
        }
    }
}

/// `--<flag> <path>` for the requested access. Built from the path string and
/// the access level only: the same form for a file, a directory or nothing.
pub fn suggest_flag(path: &str, op: FsAccess) -> (r: String)
    ensures
        r@ == suggestion_for(path@, op),
{
    let mut s = String::from_str("--");
    s.append(access_to_flag(&op));
    s.append(" ");
    s.append(path);
    proof {
        reveal_strlit("--");
        reveal_strlit(" ");
        assert(s@ =~= suggestion_for(path@, op));
    }
    s
}

fn describe_grant(cap: &FsCapability) -> (r: String)
    ensures
        r@ == grant_label(*cap),
{
    let mut s = String::from_str("--");
    s.append(access_to_flag(&cap.access));
    s.append(" ");
    s.append(cap.original.as_str());
    proof {
        reveal_strlit("--");
        reveal_strlit(" ");
        assert(s@ =~= grant_label(*cap));
    }
    s
}

fn capability_matches(cap: &FsCapability, expanded: &str, query: &str) -> (r: bool)
    ensures
        r == grant_matches(*cap, expanded@, query@),
{
    if cap.is_file {
        path_eq(expanded, cap.resolved.as_str()) || path_eq(query, cap.original.as_str())
    } else {
        path_starts_with(expanded, cap.resolved.as_str()) || path_starts_with(
            query,
            cap.original.as_str(),
        )
    }
}

/// Decides whether the operation `op` on `path` would be allowed under `caps`.
///
/// `sensitive_category` is the sensitive-path classification of `path` as
/// written, and `home` the value of the home variable (`None` when unset),
/// which is used, and must be absolute, only when `path` starts with `~`.
/// No property of whatever lies at the path is consulted.
pub fn query_path(
    path: &str,
    op: FsAccess,
    caps: &CapabilitySet,
    sensitive_category: Option<&str>,
    home: Option<&str>,
) -> (r: Result<QueryResult, NonoError>)
    ensures
        match r {
            Ok(v) => evaluate_path(caps.fs@, path@, op, opt_view(sensitive_category), opt_view(home))
                == Ok::<Verdict, Seq<char>>(v@),
            Err(e) => exists|reason: Seq<char>|
                evaluate_path(caps.fs@, path@, op, opt_view(sensitive_category), opt_view(home))
                    == Err::<Verdict, Seq<char>>(reason) && #[trigger] is_home_error(e, reason),
        },
{
    if let Some(category) = sensitive_category {
        return Ok(
            QueryResult::Denied {
                reason: DenyReason::SensitivePath,
                category: Some(String::from_str(category)),
                suggestion: suggest_flag(path, op),
            },
        );
    }
    let expanded = match expand_tilde(path, home) {
        Ok(s) => s,
        Err(e) => return Err(e),
    };
    let ghost spec_caps = caps.fs@;
    let mut i: usize = 0;
    assert(spec_caps.subrange(0, spec_caps.len() as int) =~= spec_caps);
    while i < caps.fs.len()
        invariant
            spec_caps == caps.fs@,
            i <= spec_caps.len(),
            sensitive_category is None,
            tilde_expansion(path@, opt_view(home)) == Ok::<Seq<char>, Seq<char>>(expanded@),
            first_grant(spec_caps, expanded@, path@, op) == first_grant(
                spec_caps.subrange(i as int, spec_caps.len() as int),
                expanded@,
                path@,
                op,
            ),
        decreases spec_caps.len() - i,
    {
        let cap = &caps.fs[i];
        let ghost rest = spec_caps.subrange(i as int, spec_caps.len() as int);
        assert(rest[0] == *cap);
        assert(rest.drop_first() =~= spec_caps.subrange(i + 1, spec_caps.len() as int));
        if capability_matches(cap, expanded.as_str(), path) && access_allows(&cap.access, op) {
            assert(first_grant(rest, expanded@, path@, op) == Some(*cap));
            return Ok(
                QueryResult::Allowed {
                    reason: AllowReason::ExplicitGrant,
                    granted_by: describe_grant(cap),
                },
            );
        }
        i = i + 1;
    }
    Ok(
        QueryResult::Denied {
            reason: DenyReason::NotInAllowedPaths,
            category: None,
            suggestion: suggest_flag(path, op),
        },
    )
}

/// Decides whether network access to `_host`:`_port` would be allowed: it is,
/// unless the network is blocked as a whole.
pub fn query_network(_host: &str, _port: u16, caps: &CapabilitySet) -> (r: QueryResult)
    ensures
        r@ == evaluate_network(caps.net_block),
{
    if caps.net_block {
        QueryResult::Denied {
            reason: DenyReason::NetworkBlocked,
            category: None,
            suggestion: String::from_str("remove --net-block flag"),
        }
    } else {
        QueryResult::Allowed {
            reason: AllowReason::NetworkAllowedByDefault,
            granted_by: String::from_str("network allowed by default"),
        }
    }
}

/// A path that the classifier calls sensitive is denied as sensitive, with its
/// category, whatever the grants hold and whether or not tilde expansion of it
/// would fail.
pub proof fn lemma_sensitive_path_denied(
    caps: Seq<FsCapability>,
    path: Seq<char>,
    op: FsAccess,
    category: Seq<char>,
    home: Option<Seq<char>>,
)
    ensures
        evaluate_path(caps, path, op, Some(category), home) == Ok::<Verdict, Seq<char>>(
            Verdict::Denied {
                reason: DenyReason::SensitivePath,
                category: Some(category),
                suggestion: suggestion_for(path, op),
            },
        ),
{
}

/// Read-write access satisfies every request, read only a read request and
/// write only a write request; so a read grant never allows a write, nor a
/// write grant a read.
pub proof fn lemma_access_lattice(requested: FsAccess)
    ensures
        satisfies(FsAccess::ReadWrite, requested),
        satisfies(FsAccess::Read, requested) <==> requested == FsAccess::Read,
        satisfies(FsAccess::Write, requested) <==> requested == FsAccess::Write,
        !satisfies(FsAccess::Read, FsAccess::Write),
        !satisfies(FsAccess::Write, FsAccess::Read),
{
}

/// Every denial of a filesystem request suggests `--<flag> <path>`, built from
/// the requested access and the path as written alone: its form cannot tell a
/// file from a directory or from nothing at all.
pub proof fn lemma_denial_suggestion_uniform(
    caps: Seq<FsCapability>,
    path: Seq<char>,
    op: FsAccess,
    category: Option<Seq<char>>,
    home: Option<Seq<char>>,
)
    ensures
        match evaluate_path(caps, path, op, category, home) {
            Ok(Verdict::Denied { suggestion, .. }) => suggestion == suggestion_for(path, op)
                && suggestion.take(2) == seq!['-', '-'],
            _ => true,
        },
{
    let s = suggestion_for(path, op);
    assert(s.take(2) =~= seq!['-', '-']);
}

/// A missing home value is reported as not set and a relative one as not
/// absolute, each only for a path that starts with `~`; a path that does not
/// start with `~` is decided whatever the home value is.
pub proof fn lemma_home_validation(
    caps: Seq<FsCapability>,
    path: Seq<char>,
    op: FsAccess,
    home: Option<Seq<char>>,
)
    ensures
        needs_home(path) && home is None ==> evaluate_path(caps, path, op, None, home) == Err::<
            Verdict,
            Seq<char>,
        >("not set (required for tilde expansion)"@),
        needs_home(path) && home is Some && !has_root(home->0) ==> evaluate_path(
            caps,
            path,
            op,
            None,
            home,
        ) == Err::<Verdict, Seq<char>>("must be an absolute path, got: "@ + home->0),
        path.len() == 0 || path[0] != '~' ==> evaluate_path(caps, path, op, None, home) is Ok,
{
}

/// Only a sensitive-path denial carries a category: every decision on a
/// filesystem or network request has a category exactly when its reason is
/// a sensitive path.
pub proof fn lemma_category_only_for_sensitive(
    caps: Seq<FsCapability>,
    path: Seq<char>,
    op: FsAccess,
    category: Option<Seq<char>>,
    home: Option<Seq<char>>,
    net_block: bool,
)
    ensures
        match evaluate_path(caps, path, op, category, home) {
            Ok(Verdict::Denied { reason, category: c, .. }) => c is Some <==> reason
                == DenyReason::SensitivePath,
            _ => true,
        },
        match evaluate_network(net_block) {
            Verdict::Denied { reason, category: c, .. } => c is None && reason
                != DenyReason::SensitivePath,
            _ => true,
        },
{
}

} // verus!
