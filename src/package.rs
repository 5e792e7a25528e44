//! Packages: flat, non-overlapping scope partitions of a project.

use vstd::prelude::*;

use crate::ids::{is_generated_id, PackageId, ProjectId};
use crate::text::zero_padded;

verus! {

/// A scope partition owned by one project, with the folder it lives in.
#[derive(Debug, Clone)]
pub struct Package {
    pub id: PackageId,
    pub project_id: ProjectId,
    pub label: String,
    pub scope_items: Vec<String>,
    pub folder_name: String,
}

/// What `char::is_alphanumeric` says of a character.
pub uninterp spec fn alphanumeric(c: char) -> bool;

/// Relies on `char::is_alphanumeric`: whether the character is alphabetic or
/// numeric in Unicode's terms.
#[verifier::external_body]
fn is_alphanumeric(c: char) -> (r: bool)
    ensures
        r == alphanumeric(c),
{
    c.is_alphanumeric()
}

/// A label made safe for a folder name: each character that is neither
/// alphanumeric nor `_` becomes `_`.
pub open spec fn sanitized(label: Seq<char>) -> Seq<char> {
    label.map_values(|c: char| if alphanumeric(c) || c == '_' { c } else { '_' })
}

impl Package {
    /// A new package with a fresh identifier and no scope items, in the folder
    /// named by its sanitized label.
    pub fn new(project_id: ProjectId, label: &str) -> (r: Self)
        ensures
            is_generated_id(r.id@, "pkg:"@),
            r.project_id == project_id,
            r.label@ == label@,
            r.scope_items@.len() == 0,
            r.folder_name@ == sanitized(label@),
    {
        let id = PackageId::new();
        let folder_name = Self::derive_folder_name(label);
        Package {
            id,
            project_id,
            label: String::from_str(label),
            scope_items: Vec::new(),
            folder_name,
        }
    }

    /// The package under its legacy identifier `PKG-nnn`, in the folder named
    /// by that identifier and its sanitized label.
    pub fn with_legacy_id(self, num: u32) -> (r: Self)
        ensures
            r.id@ == "PKG-"@ + zero_padded(num as nat, 3),
            r.folder_name@ == r.id@ + "_"@ + sanitized(self.label@),
            r.project_id == self.project_id,
            r.label == self.label,
            r.scope_items == self.scope_items,
    {
        let mut p = self;
        p.id = PackageId::from_legacy(num);
        p.folder_name = Self::derive_legacy_folder_name(&p.id, p.label.as_str());
        p
    }

    /// The package with its scope items replaced.
    pub fn with_scope_items(self, items: Vec<String>) -> (r: Self)
        ensures
            r == (Package { scope_items: items, ..self }),
    {
        let mut p = self;
        p.scope_items = items;
        p
    }

    /// The folder name of a package without a legacy number: its sanitized label.
    fn derive_folder_name(label: &str) -> (r: String)
        ensures
            r@ == sanitized(label@),
    {
        Self::sanitize_label(label)
    }

    /// The folder name of a package with a legacy identifier: the identifier,
    /// `_`, the sanitized label.
    fn derive_legacy_folder_name(id: &PackageId, label: &str) -> (r: String)
        ensures
            r@ == id@ + "_"@ + sanitized(label@),
    {
        String::from_str(id.as_str()).concat("_").concat(Self::sanitize_label(label).as_str())
    }

    /// The label with each character that is neither alphanumeric nor `_`
    /// replaced by `_`.
    fn sanitize_label(label: &str) -> (r: String)
        ensures
            r@ == sanitized(label@),
    {
        let n = label.unicode_len();
        let mut out = String::new();
        let mut i: usize = 0;
        while i < n
            invariant
                n == label@.len(),
                i <= n,
                out@ == sanitized(label@).subrange(0, i as int),
            decreases n - i,
        {
            let c = label.get_char(i);
            if is_alphanumeric(c) || c == '_' {
                out.append(label.substring_char(i, i + 1));
            } else {
                out.append("_");
            }
            proof {
                reveal_strlit("_");
            }
            assert(out@ =~= sanitized(label@).subrange(0, i + 1));
            i = i + 1;
        }
        assert(out@ =~= sanitized(label@));
        out
    }
}

} // verus!
