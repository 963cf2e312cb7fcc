//! SFTP access decisions: which hash a login is checked against, when a
//! login is accepted, and how a requested path is confined to the server's
//! directory.

use vstd::prelude::*;
use crate::text::{lead_count, lemma_lead_count, chars_of, string_from_range, str_eq};
use crate::launch::{join_path, path_join};

verus! {

/// An argon2 hash that no password is expected to match.  A login for an
/// unknown user, or for a server without an SFTP password, is checked
/// against it so that it takes as long as a real check.
pub const DUMMY_HASH: &'static str =
    "$argon2id$v=19$m=19456,t=2,p=1$c29tZXNhbHQxMjM0NTY3OA$XWJvwiTqHVwx4WF+dMxgxKTgFLO+x+lLvzPyJvqZD7I";

/// A stored password that a login can be checked against: set and
/// non-empty.
pub open spec fn has_real_password(stored: Option<&str>) -> bool {
    stored matches Some(p) && p@.len() > 0
}

/// The hash a login is checked against, and whether it is the server's own:
/// the stored SFTP password of the matching server (`stored`, `None` when
/// no server matched or it has none) when it is non-empty, else
/// [`DUMMY_HASH`].
pub fn login_hash(stored: Option<&str>) -> (r: (String, bool))
    ensures
        r.1 == has_real_password(stored),
        r.1 ==> (stored matches Some(p) && r.0@ == p@),
        !r.1 ==> r.0@ == DUMMY_HASH@,
{
    match stored {
        Some(p) => {
            if p.unicode_len() > 0 {
                (String::from_str(p), true)
            } else {
                (String::from_str(DUMMY_HASH), false)
            }
        },
        None => (String::from_str(DUMMY_HASH), false),
    }
}

/// Whether a login is accepted: the password was checked against the
/// server's own hash (`is_real`) and the check said it matches
/// (`verified` is `Some(true)`; `None` when the check failed).
pub fn login_accepted(is_real: bool, verified: Option<bool>) -> (r: bool)
    ensures
        r == (is_real && verified == Some(true)),
{
    is_real && matches!(verified, Some(true))
}

/// `s` without its leading `/` characters.
pub open spec fn without_leading_slashes(s: Seq<char>) -> Seq<char> {
    s.skip(lead_count(s, '/') as int)
}

/// The path a request names before it is resolved: the root itself for an
/// empty (or all-`/`) request, else the request, less its leading `/`,
/// joined onto the root.
pub open spec fn requested_path(root: Seq<char>, requested: Seq<char>) -> Seq<char> {
    let cleaned = without_leading_slashes(requested);
    if cleaned.len() == 0 {
        root
    } else {
        join_path(root, cleaned)
    }
}

/// The path a request names under `root` (see [`requested_path`]); the
/// caller resolves it on disk and then confines it with
/// [`confine_to_root`].
pub fn sftp_candidate(root: &str, requested: &str) -> (r: String)
    ensures
        r@ == requested_path(root@, requested@),
{
    let v = chars_of(requested);
    let n = v.len();
    let mut a: usize = 0;
    while a < n && v[a] == '/'
        invariant
            n == v@.len(),
            v@ == requested@,
            a <= n,
            forall|k: int| 0 <= k < a ==> #[trigger] v@[k] == '/',
        decreases n - a,
    {
        a = a + 1;
    }
    proof {
        lemma_lead_count(requested@, '/', a as int);
    }
    let cleaned = string_from_range(&v, a, n);
    assert(cleaned@ =~= without_leading_slashes(requested@));
    if cleaned.unicode_len() == 0 {
        String::from_str(root)
    } else {
        path_join(root, cleaned.as_str())
    }
}

/// Whether `p` lies under `base`, as `std::path::Path::starts_with` decides
/// it (whole components of `base` are a prefix of those of `p`).
pub uninterp spec fn path_starts_with(p: Seq<char>, base: Seq<char>) -> bool;

/// `std::path::Path::starts_with` on two paths given as text.  Claimed: the
/// result is the one [`path_starts_with`] names.
#[verifier::external_body]
fn starts_with_path(p: &str, base: &str) -> (r: bool)
    ensures
        r == path_starts_with(p@, base@),
{
    std::path::Path::new(p).starts_with(base)
}

/// A resolved path is handed out only when it lies under the resolved
/// root; otherwise the request is refused (`None`).
pub fn confine_to_root(resolved_root: &str, resolved: String) -> (r: Option<String>)
    ensures
        path_starts_with(resolved@, resolved_root@) ==> r == Some(resolved),
        !path_starts_with(resolved@, resolved_root@) ==> r is None,
        r matches Some(p) ==> path_starts_with(p@, resolved_root@),
{
    if starts_with_path(resolved.as_str(), resolved_root) {
        Some(resolved)
    } else {
        None
    }
}

// ─── Subsystem requests ───

/// Why a subsystem request on an SFTP session is refused.
#[derive(Clone, Copy, Debug, PartialEq, Eq, Structural)]
pub enum SubsystemRefusal {
    /// The subsystem is not `sftp`.
    UnknownSubsystem,
    /// The session has not authenticated.
    NotAuthorized,
    /// The session has no root directory.
    NoRoot,
    /// File transfer is not served yet.
    NotImplemented,
}

/// The answer to a subsystem request: every request is refused, for the
/// first reason that applies.
pub fn subsystem_refusal(name: &str, authorized: bool, has_root: bool) -> (r: SubsystemRefusal)
    ensures
        name@ != "sftp"@ ==> r == SubsystemRefusal::UnknownSubsystem,
        name@ == "sftp"@ && !authorized ==> r == SubsystemRefusal::NotAuthorized,
        name@ == "sftp"@ && authorized && !has_root ==> r == SubsystemRefusal::NoRoot,
        name@ == "sftp"@ && authorized && has_root ==> r == SubsystemRefusal::NotImplemented,
{
    if !str_eq(name, "sftp") {
        SubsystemRefusal::UnknownSubsystem
    } else if !authorized {
        SubsystemRefusal::NotAuthorized
    } else if !has_root {
        SubsystemRefusal::NoRoot
    } else {
        SubsystemRefusal::NotImplemented
    }
}

} // verus!
