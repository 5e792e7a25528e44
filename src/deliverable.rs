//! Deliverables: the primary unit of production within a package.

use vstd::prelude::*;

use crate::error::DomainError;
use crate::ids::{is_generated_id, DeliverableId, DocumentId, PackageId};
use crate::path::FsPath;
use crate::state_machines::{deliverable_state_name, deliverable_step, is_transition_error, DeliverableState};
use crate::text::zero_padded;

verus! {

/// A unit of production: its documents and its place in the lifecycle.
#[derive(Debug, Clone)]
pub struct Deliverable {
    pub id: DeliverableId,
    pub package_id: PackageId,
    pub label: String,
    pub deliverable_type: Option<String>,
    pub discipline: Option<String>,
    pub responsible_party: Option<String>,
    pub state: DeliverableState,
    pub folder_path: FsPath,
    pub documents: Vec<DocumentRef>,
    pub anticipated_artifacts: Vec<String>,
}

/// Reference to a document within a deliverable.
#[derive(Debug, Clone)]
pub struct DocumentRef {
    pub id: DocumentId,
    pub document_type: DocumentType,
    pub file_path: FsPath,
}

/// Kinds of documents in a deliverable: four core documents and five
/// metadata files.
#[derive(Debug, Clone, Copy, PartialEq, Eq, Hash, Structural)]
pub enum DocumentType {
    Datasheet,
    Specification,
    Guidance,
    Procedure,
    Context,
    Status,
    Dependencies,
    References,
    Semantic,
}

/// The file name of a kind of document.
pub open spec fn document_filename(t: DocumentType) -> Seq<char> {
    match t {
        DocumentType::Datasheet => "Datasheet.md"@,
        DocumentType::Specification => "Specification.md"@,
        DocumentType::Guidance => "Guidance.md"@,
        DocumentType::Procedure => "Procedure.md"@,
        DocumentType::Context => "_CONTEXT.md"@,
        DocumentType::Status => "_STATUS.md"@,
        DocumentType::Dependencies => "_DEPENDENCIES.md"@,
        DocumentType::References => "_REFERENCES.md"@,
        DocumentType::Semantic => "_SEMANTIC.md"@,
    }
}

/// The four core documents.
pub open spec fn is_core_document(t: DocumentType) -> bool {
    t == DocumentType::Datasheet || t == DocumentType::Specification || t
        == DocumentType::Guidance || t == DocumentType::Procedure
}

impl DocumentType {
    /// The file name of this kind of document.
    pub fn filename(&self) -> (r: &'static str)
        ensures
            r@ == document_filename(*self),
    {
        match self {
            DocumentType::Datasheet => "Datasheet.md",
            DocumentType::Specification => "Specification.md",
            DocumentType::Guidance => "Guidance.md",
            DocumentType::Procedure => "Procedure.md",
            DocumentType::Context => "_CONTEXT.md",
            DocumentType::Status => "_STATUS.md",
            DocumentType::Dependencies => "_DEPENDENCIES.md",
            DocumentType::References => "_REFERENCES.md",
            DocumentType::Semantic => "_SEMANTIC.md",
        }
    }

    /// Whether this is one of the four core documents.
    pub fn is_core(&self) -> (r: bool)
        ensures
            r == is_core_document(*self),
    {
        matches!(
            self,
            DocumentType::Datasheet | DocumentType::Specification | DocumentType::Guidance
                | DocumentType::Procedure
        )
    }

    /// Whether this is a metadata file: every kind that is not core.
    pub fn is_metadata(&self) -> (r: bool)
        ensures
            r == !is_core_document(*self),
    {
        !self.is_core()
    }
}

/// `a` and `b` agree on everything but the optional descriptors.
pub open spec fn same_but_descriptors(a: Deliverable, b: Deliverable) -> bool {
    &&& a.id == b.id
    &&& a.package_id == b.package_id
    &&& a.label == b.label
    &&& a.state == b.state
    &&& a.folder_path == b.folder_path
    &&& a.documents == b.documents
    &&& a.anticipated_artifacts == b.anticipated_artifacts
}

/// `o` holds text equal to `s`.
pub open spec fn holds_text(o: Option<String>, s: Seq<char>) -> bool {
    o matches Some(t) && t@ == s
}

impl Deliverable {
    /// A new deliverable in state Open, with a fresh identifier, no descriptors
    /// and no documents.
    pub fn new(package_id: PackageId, label: &str, folder_path: FsPath) -> (r: Self)
        ensures
            is_generated_id(r.id@, "del:"@),
            r.package_id == package_id,
            r.label@ == label@,
            r.deliverable_type is None,
            r.discipline is None,
            r.responsible_party is None,
            r.state == DeliverableState::Open,
            r.folder_path == folder_path,
            r.documents@.len() == 0,
            r.anticipated_artifacts@.len() == 0,
    {
        Deliverable {
            id: DeliverableId::new(),
            package_id,
            label: String::from_str(label),
            deliverable_type: None,
            discipline: None,
            responsible_party: None,
            state: DeliverableState::Open,
            folder_path,
            documents: Vec::new(),
            anticipated_artifacts: Vec::new(),
        }
    }

    /// The deliverable under its legacy identifier `DEL-pp.dd`.
    pub fn with_legacy_id(self, package_num: u32, deliverable_num: u32) -> (r: Self)
        ensures
            r.id@ == "DEL-"@ + zero_padded(package_num as nat, 2) + "."@ + zero_padded(
                deliverable_num as nat,
                2,
            ),
            r == (Deliverable { id: r.id, ..self }),
    {
        let mut d = self;
        d.id = DeliverableId::from_legacy(package_num, deliverable_num);
        d
    }

    /// The deliverable with its type set.
    pub fn with_type(self, deliverable_type: &str) -> (r: Self)
        ensures
            holds_text(r.deliverable_type, deliverable_type@),
            r == (Deliverable { deliverable_type: r.deliverable_type, ..self }),
    {
        let mut d = self;
        d.deliverable_type = Some(String::from_str(deliverable_type));
        d
    }

    /// The deliverable with its discipline set.
    pub fn with_discipline(self, discipline: &str) -> (r: Self)
        ensures
            holds_text(r.discipline, discipline@),
            r == (Deliverable { discipline: r.discipline, ..self }),
    {
        let mut d = self;
        d.discipline = Some(String::from_str(discipline));
        d
    }

    /// The deliverable with its responsible party set.
    pub fn with_responsible_party(self, party: &str) -> (r: Self)
        ensures
            holds_text(r.responsible_party, party@),
            r == (Deliverable { responsible_party: r.responsible_party, ..self }),
    {
        let mut d = self;
        d.responsible_party = Some(String::from_str(party));
        d
    }

    /// Appends a document reference.
    pub fn add_document(&mut self, doc_ref: DocumentRef)
        ensures
            final(self).documents@ == old(self).documents@.push(doc_ref),
            *final(self) == (Deliverable { documents: final(self).documents, ..*old(self) }),
    {
        self.documents.push(doc_ref);
    }

    /// Moves the deliverable to `target` where the transition table allows it;
    /// otherwise leaves it unchanged and reports the refused move.
    pub fn transition_to(&mut self, target: DeliverableState) -> (r: Result<(), DomainError>)
        ensures
            deliverable_step(old(self).state, target) ==> r is Ok && *final(self) == (Deliverable {
                state: target,
                ..*old(self)
            }),
            !deliverable_step(old(self).state, target) ==> r is Err && *final(self) == *old(self)
                && is_transition_error(
                r->Err_0,
                "Deliverable"@,
                deliverable_state_name(old(self).state),
                deliverable_state_name(target),
            ),
    {
        match self.state.transition_to(target) {
            Ok(s) => {
                self.state = s;
                Ok(())
            },
            Err(e) => Err(e),
        }
    }
}

} // verus!
