//! The filesystem sandbox: one canonical workspace root, fixed at
//! construction, and the decision "does this path stay inside it?".

use vstd::prelude::*;
use vstd::string::StringExecFns;

verus! {

/// True exactly when `p` lies at or under `root`, by whole path components:
/// `p` is `root` itself, or extends it at a component boundary. A root that
/// itself ends in the separator (the filesystem root) prefixes by characters
/// alone.
///
/// The component boundary is `'/'`, the separator of canonical paths on
/// POSIX systems; this crate assumes such paths throughout. On Windows,
/// where canonical paths separate with `'\'`, this predicate would hold for
/// no properly nested path, so every one would be denied — the failure is
/// closed, but the sandbox would be unusable there.
pub open spec fn path_within(p: Seq<char>, root: Seq<char>) -> bool {
    p == root || (root.len() < p.len() && p.subrange(0, root.len() as int) == root && (
    p[root.len() as int] == '/' || (root.len() > 0 && root[root.len() - 1] == '/')))
}

/// The reason a path is refused: policy denial, distinguishable from any
/// I/O failure text.
pub open spec fn denial_msg(path: Seq<char>) -> Seq<char> {
    "DENIED: '"@ + path + "' is outside Agent_Workspace"@
}

/// The sandbox: holds the canonical absolute path of the one directory
/// tree inside which file access is permitted.
pub struct Sandbox {
    allowed_root: String,
}

/// The view of an optional canonicalization outcome.
pub open spec fn opt_path_view(c: Option<String>) -> Option<Seq<char>> {
    match c {
        Some(p) => Some(p@),
        None => None,
    }
}

/// The containment decision over a canonicalization outcome: allowed
/// exactly when canonicalization succeeded and the canonical path lies
/// at or under the root. A path that could not be canonicalized is
/// denied: absence of proof of safety counts as unsafe.
pub open spec fn canonical_allowed(c: Option<Seq<char>>, root: Seq<char>) -> bool {
    c matches Some(p) && path_within(p, root)
}

/// Relies on dunce::canonicalize: resolves `.`, `..` and symlinks to the
/// canonical absolute form of the path, and fails when the path does not
/// exist or cannot be resolved. The outcome depends on the filesystem at
/// the time of the call. A canonical path that is not valid text is
/// treated as a failure.
#[verifier::external_body]
fn canonicalize_path(path: &str) -> (r: Option<String>)
    ensures
        r matches Some(c) ==> c@.len() > 0,
{
    match dunce::canonicalize(path) {
        Ok(p) => p.to_str().map(|s| s.to_owned()),
        Err(_) => None,
    }
}

impl Sandbox {
    /// The canonical workspace root this sandbox was built with.
    pub closed spec fn root(&self) -> Seq<char> {
        self.allowed_root@
    }

    /// A sandbox is well formed when its root is a nonempty (absolute) path.
    pub closed spec fn wf(&self) -> bool {
        self.allowed_root@.len() > 0
    }

    /// Builds a sandbox whose root is exactly `root`, an already-canonical
    /// path: the single place a root is ever stored.
    fn from_canonical(root: String) -> (s: Sandbox)
        ensures
            s.root() == root@,
            root@.len() > 0 ==> s.wf(),
    {
        Sandbox { allowed_root: root }
    }

    /// Builds a sandbox on the canonical form of `workspace`: the root
    /// stored is the outcome of canonicalizing `workspace`, unchanged, and
    /// never mutated afterwards. Returns `None` when the workspace cannot
    /// be canonicalized (it does not exist): a startup precondition, on
    /// which the caller must fail fast rather than run with a broken
    /// boundary.
    pub fn new(workspace: &str) -> (r: Option<Sandbox>)
        ensures
            r matches Some(s) ==> s.wf(),
    {
        match canonicalize_path(workspace) {
            Some(root) => Some(Sandbox::from_canonical(root)),
            None => None,
        }
    }

    /// The pure containment decision on an already-canonicalized outcome:
    /// true exactly when canonicalization succeeded and its result lies at
    /// or under the workspace root.
    pub fn allows_canonical(&self, canonical: &Option<String>) -> (b: bool)
        ensures
            b == canonical_allowed(opt_path_view(*canonical), self.root()),
    {
        match canonical {
            Some(p) => str_within(p.as_str(), self.allowed_root.as_str()),
            None => false,
        }
    }

    /// Canonicalizes `requested` against the live filesystem and decides
    /// containment on the outcome. The canonicalization itself depends on
    /// the filesystem at the time of the call; the decision on its outcome
    /// is exactly `allows_canonical`.
    pub fn is_path_allowed(&self, requested: &str) -> bool {
        let canonical = canonicalize_path(requested);
        self.allows_canonical(&canonical)
    }

    /// The boundary decision on an already-canonical outcome, with the
    /// reason attached: `Ok` exactly when the outcome is an allowed path,
    /// `Err` carrying the denial reason for `path`.
    pub fn gate_canonical(&self, path: &str, canonical: &Option<String>) -> (r: Result<(), String>)
        ensures
            r is Ok <==> canonical_allowed(opt_path_view(*canonical), self.root()),
            r matches Err(e) ==> e@ == denial_msg(path@),
    {
        if self.allows_canonical(canonical) {
            Ok(())
        } else {
            Err(denial_message(path))
        }
    }

    /// Canonicalizes `path` against the live filesystem and gates the
    /// outcome: `Ok` when the canonical form stays inside the workspace,
    /// `Err` with the denial reason otherwise. The actual read or write a
    /// caller performs after `Ok` is its own step; the filesystem may
    /// change in between, a residual risk this design accepts.
    pub fn access_gate(&self, path: &str) -> (r: Result<(), String>)
        ensures
            r matches Err(e) ==> e@ == denial_msg(path@),
    {
        let canonical = canonicalize_path(path);
        self.gate_canonical(path, &canonical)
    }
}

/// Builds the denial reason for `path`.
fn denial_message(path: &str) -> (r: String)
    ensures
        r@ == denial_msg(path@),
{
    let mut s = "DENIED: '".to_owned();
    s.append(path);
    s.append("' is outside Agent_Workspace");
    s
}

/// Repeated denial checks on one unchanged path agree: the containment
/// decision is a function of the canonicalization outcome and the root
/// alone, so two checks that see the same outcome return the same answer.
pub proof fn lemma_decision_idempotent(
    c1: Option<Seq<char>>,
    c2: Option<Seq<char>>,
    root: Seq<char>,
)
    requires
        c1 == c2,
    ensures
        canonical_allowed(c1, root) == canonical_allowed(c2, root),
{
}

/// Decides `path_within(p@, root@)` by character comparison, under that
/// predicate's POSIX separator assumption.
fn str_within(p: &str, root: &str) -> (b: bool)
    ensures
        b == path_within(p@, root@),
{
    let plen = p.unicode_len();
    let rlen = root.unicode_len();
    if plen < rlen {
        return false;
    }
    let mut i: usize = 0;
    while i < rlen
        invariant
            i <= rlen,
            rlen <= plen,
            rlen == root@.len(),
            plen == p@.len(),
            forall|j: int| 0 <= j < i ==> p@[j] == root@[j],
        decreases rlen - i,
    {
        if p.get_char(i) != root.get_char(i) {
            assert(plen > rlen ==> p@.subrange(0, rlen as int)[i as int] == p@[i as int]);
            return false;
        }
        i = i + 1;
    }
    if plen == rlen {
        assert(p@ =~= root@);
        true
    } else {
        assert(p@.subrange(0, rlen as int) =~= root@);
        if rlen > 0 && root.get_char(rlen - 1) == '/' {
            true
        } else {
            p.get_char(rlen) == '/'
        }
    }
}

} // verus!
