//! The write-scope guard: which paths an agent session may mutate.

use vstd::prelude::*;

use crate::error::DomainError;
use crate::ids::DeliverableId;
use crate::path::{canonical_form, opt_view, path_equals, path_has_prefix, path_starts_with, same_path, FsPath};

verus! {

/// The paths that a session is allowed to write.
#[derive(Debug, Clone)]
pub enum WriteScope {
    /// Read-only: every write is refused.
    ReadOnly,
    /// Only within one deliverable's folder.
    DeliverableLocal { deliverable_id: DeliverableId, deliverable_path: FsPath },
    /// Only within a tool's root folder.
    ToolRootOnly { root_path: FsPath },
    /// Only the listed project-level metadata files.
    RepoMetadataOnly { allowed_files: Vec<FsPath> },
}

/// Outcome of checking a write.
#[derive(Debug, Clone)]
pub enum WriteValidation {
    Allowed,
    Denied(WriteViolation),
}

/// Why a write was refused.
#[derive(Debug, Clone)]
pub struct WriteViolation {
    pub target_path: FsPath,
    pub scope: String,
    pub reason: String,
}

/// Checks writes against declared scopes. It holds no state.
pub struct WriteGuard;

/// A path between double quotes.
pub open spec fn quoted(p: Seq<char>) -> Seq<char> {
    "\""@ + p + "\""@
}

/// The paths, each quoted, separated by `, `.
pub open spec fn quoted_list(files: Seq<FsPath>) -> Seq<char>
    decreases files.len(),
{
    if files.len() == 0 {
        Seq::empty()
    } else if files.len() == 1 {
        quoted(files[0]@)
    } else {
        quoted_list(files.drop_last()) + ", "@ + quoted(files.last()@)
    }
}

/// How a scope is named in a violation.
pub open spec fn scope_label(scope: WriteScope) -> Seq<char> {
    match scope {
        WriteScope::ReadOnly => "None"@,
        WriteScope::DeliverableLocal { deliverable_path, .. } => "DeliverableLocal("@
            + deliverable_path@ + ")"@,
        WriteScope::ToolRootOnly { root_path } => "ToolRootOnly("@ + root_path@ + ")"@,
        WriteScope::RepoMetadataOnly { .. } => "RepoMetadataOnly"@,
    }
}

/// The reason given when a scope refuses a write.
pub open spec fn denial_reason(scope: WriteScope) -> Seq<char> {
    match scope {
        WriteScope::ReadOnly => "Agent has no write permission"@,
        WriteScope::DeliverableLocal { deliverable_path, .. } =>
            "Path is outside deliverable folder: "@ + deliverable_path@,
        WriteScope::ToolRootOnly { root_path } => "Path is outside tool root: "@ + root_path@,
        WriteScope::RepoMetadataOnly { allowed_files } => "Path is not in allowed metadata files: ["@
            + quoted_list(allowed_files@) + "]"@,
    }
}

/// Containment of `child` in `parent`: on the canonical forms where both
/// resolved, else on the paths as written.
pub open spec fn contained(
    child: Seq<char>,
    parent: Seq<char>,
    child_canonical: Option<Seq<char>>,
    parent_canonical: Option<Seq<char>>,
) -> bool {
    match (child_canonical, parent_canonical) {
        (Some(c), Some(p)) => path_starts_with(c, p),
        _ => path_starts_with(child, parent),
    }
}

/// Whether `target` is one of the listed files.
pub open spec fn listed(files: Seq<FsPath>, target: Seq<char>) -> bool {
    exists|i: int| 0 <= i < files.len() && path_equals(#[trigger] files[i]@, target)
}

/// Whether `scope` admits a write to `target`, given the canonical forms of the
/// target and of the scope's root.
pub open spec fn write_permitted(
    scope: WriteScope,
    target: Seq<char>,
    target_canonical: Option<Seq<char>>,
    root_canonical: Option<Seq<char>>,
) -> bool {
    match scope {
        WriteScope::ReadOnly => false,
        WriteScope::DeliverableLocal { deliverable_path, .. } => contained(
            target,
            deliverable_path@,
            target_canonical,
            root_canonical,
        ),
        WriteScope::ToolRootOnly { root_path } => contained(
            target,
            root_path@,
            target_canonical,
            root_canonical,
        ),
        WriteScope::RepoMetadataOnly { allowed_files } => listed(allowed_files@, target),
    }
}

/// The violation that `scope` reports for a refused write to `target`.
pub open spec fn is_violation(w: WriteViolation, scope: WriteScope, target: Seq<char>) -> bool {
    &&& w.target_path@ == target
    &&& w.scope@ == scope_label(scope)
    &&& w.reason@ == denial_reason(scope)
}

/// A refusal of a write to `target` under `scope`, with its violation.
pub open spec fn is_denial(v: WriteValidation, scope: WriteScope, target: Seq<char>) -> bool {
    v matches WriteValidation::Denied(w) && is_violation(w, scope, target)
}

/// The error that surfaces a refused write to `target` under `scope`.
pub open spec fn is_write_error(e: DomainError, scope: WriteScope, target: Seq<char>) -> bool {
    e matches DomainError::WriteViolation { target_path, scope: s, reason } && target_path@
        == target && s@ == scope_label(scope) && reason@ == denial_reason(scope)
}

impl WriteGuard {
    /// Checks a write to `target_path` under `scope`, resolving the target and
    /// the scope's root on the filesystem where the scope has a root.
    ///
    /// A read-only scope refuses every path; an allow-list admits exactly its
    /// entries. Under a folder scope the outcome rests on what resolution finds
    /// on the filesystem, which this contract cannot name: the decision for each
    /// resolution outcome is `validate_write_resolved`'s. A refusal always
    /// carries the scope's violation.
    pub fn validate_write(scope: &WriteScope, target_path: &FsPath) -> (r: WriteValidation)
        ensures
            r is Allowed || is_denial(r, *scope, target_path@),
            *scope is ReadOnly ==> is_denial(r, *scope, target_path@),
            *scope matches WriteScope::RepoMetadataOnly { allowed_files } ==> (r is Allowed
                <==> listed(allowed_files@, target_path@)),
    {
        let (target_canonical, root_canonical) = match scope {
            WriteScope::DeliverableLocal { deliverable_path, .. } => (
                canonical_form(target_path),
                canonical_form(deliverable_path),
            ),
            WriteScope::ToolRootOnly { root_path } => (
                canonical_form(target_path),
                canonical_form(root_path),
            ),
            _ => (None, None),
        };
        Self::validate_write_resolved(scope, target_path, &target_canonical, &root_canonical)
    }

    /// Checks a write to `target_path` under `scope`, given the canonical forms
    /// of the target and of the scope's root (`None` where resolution failed).
    pub fn validate_write_resolved(
        scope: &WriteScope,
        target_path: &FsPath,
        target_canonical: &Option<FsPath>,
        root_canonical: &Option<FsPath>,
    ) -> (r: WriteValidation)
        ensures
            write_permitted(*scope, target_path@, opt_view(*target_canonical), opt_view(*root_canonical))
                ==> r is Allowed,
            !write_permitted(*scope, target_path@, opt_view(*target_canonical), opt_view(*root_canonical))
                ==> is_denial(r, *scope, target_path@),
    {
        match scope {
            WriteScope::ReadOnly => WriteValidation::Denied(
                WriteViolation {
                    target_path: target_path.duplicate(),
                    scope: String::from_str("None"),
                    reason: String::from_str("Agent has no write permission"),
                },
            ),
            WriteScope::DeliverableLocal { deliverable_path, .. } => {
                if Self::is_within(target_path, deliverable_path, target_canonical, root_canonical) {
                    WriteValidation::Allowed
                } else {
                    WriteValidation::Denied(
                        WriteViolation {
                            target_path: target_path.duplicate(),
                            scope: String::from_str("DeliverableLocal(").concat(
                                deliverable_path.as_str(),
                            ).concat(")"),
                            reason: String::from_str("Path is outside deliverable folder: ").concat(
                                deliverable_path.as_str(),
                            ),
                        },
                    )
                }
            },
            WriteScope::ToolRootOnly { root_path } => {
                if Self::is_within(target_path, root_path, target_canonical, root_canonical) {
                    WriteValidation::Allowed
                } else {
                    WriteValidation::Denied(
                        WriteViolation {
                            target_path: target_path.duplicate(),
                            scope: String::from_str("ToolRootOnly(").concat(
                                root_path.as_str(),
                            ).concat(")"),
                            reason: String::from_str("Path is outside tool root: ").concat(
                                root_path.as_str(),
                            ),
                        },
                    )
                }
            },
            WriteScope::RepoMetadataOnly { allowed_files } => {
                if Self::is_listed(allowed_files, target_path) {
                    WriteValidation::Allowed
                } else {
                    WriteValidation::Denied(
                        WriteViolation {
                            target_path: target_path.duplicate(),
                            scope: String::from_str("RepoMetadataOnly"),
                            reason: String::from_str("Path is not in allowed metadata files: [").concat(
                                Self::quote_all(allowed_files).as_str(),
                            ).concat("]"),
                        },
                    )
                }
            },
        }
    }

    /// Whether `child` lies within `parent`: a prefix test on the canonical
    /// forms where both resolved, else on the paths as written.
    pub fn is_within(
        child: &FsPath,
        parent: &FsPath,
        child_canonical: &Option<FsPath>,
        parent_canonical: &Option<FsPath>,
    ) -> (r: bool)
        ensures
            r == contained(child@, parent@, opt_view(*child_canonical), opt_view(*parent_canonical)),
    {
        match (child_canonical, parent_canonical) {
            (Some(c), Some(p)) => path_has_prefix(c, p),
            _ => path_has_prefix(child, parent),
        }
    }

    /// Whether `target` equals one of `files`.
    fn is_listed(files: &Vec<FsPath>, target: &FsPath) -> (r: bool)
        ensures
            r == listed(files@, target@),
    {
        let mut i: usize = 0;
        while i < files.len()
            invariant
                i <= files@.len(),
                forall|k: int| 0 <= k < i ==> !path_equals(#[trigger] files@[k]@, target@),
            decreases files@.len() - i,
        {
            if same_path(&files[i], target) {
                return true;
            }
            i = i + 1;
        }
        false
    }

    /// The files, each quoted, separated by `, `.
    fn quote_all(files: &Vec<FsPath>) -> (r: String)
        ensures
            r@ == quoted_list(files@),
    {
        let mut out = String::new();
        let mut i: usize = 0;
        while i < files.len()
            invariant
                i <= files@.len(),
                out@ == quoted_list(files@.subrange(0, i as int)),
            decreases files@.len() - i,
        {
            if i > 0 {
                out.append(", ");
            }
            out.append("\"");
            out.append(files[i].as_str());
            out.append("\"");
            proof {
                let next = files@.subrange(0, i + 1);
                assert(next.drop_last() =~= files@.subrange(0, i as int));
                assert(next.last() == files@[i as int]);
                if i == 0 {
                    assert(out@ =~= quoted(files@[0]@));
                } else {
                    assert(out@ =~= quoted_list(files@.subrange(0, i as int)) + ", "@ + quoted(
                        files@[i as int]@,
                    ));
                }
            }
            i = i + 1;
        }
        assert(files@.subrange(0, files@.len() as int) =~= files@);
        out
    }

    /// Requires a write to `target_path` to be allowed under `scope`, and
    /// surfaces the violation as an error where it is not.
    pub fn ensure_allowed(scope: &WriteScope, target_path: &FsPath) -> (r: Result<(), DomainError>)
        ensures
            r is Ok || (r is Err && is_write_error(r->Err_0, *scope, target_path@)),
            *scope is ReadOnly ==> r is Err,
            *scope matches WriteScope::RepoMetadataOnly { allowed_files } ==> (r is Ok <==> listed(
                allowed_files@,
                target_path@,
            )),
    {
        match Self::validate_write(scope, target_path) {
            WriteValidation::Allowed => Ok(()),
            WriteValidation::Denied(violation) => Err(
                DomainError::WriteViolation {
                    target_path: violation.target_path,
                    scope: violation.scope,
                    reason: violation.reason,
                },
            ),
        }
    }
}

/// A refusal under a deliverable scope cites the scope's root: its reason ends
/// with the deliverable's folder.
pub proof fn lemma_deliverable_denial_cites_root(
    scope: WriteScope,
    target: Seq<char>,
    v: WriteValidation,
)
    requires
        scope is DeliverableLocal,
        is_denial(v, scope, target),
    ensures
        v matches WriteValidation::Denied(w) && w.reason@.len() >= scope->deliverable_path@.len()
            && w.reason@.subrange(
            w.reason@.len() - scope->deliverable_path@.len(),
            w.reason@.len() as int,
        ) == scope->deliverable_path@,
{
    let root = scope->deliverable_path@;
    let prefix = "Path is outside deliverable folder: "@;
    assert((prefix + root).subrange(prefix.len() as int, (prefix + root).len() as int) =~= root);
}

} // verus!
