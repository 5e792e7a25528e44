//! Documents: content-addressed artifacts of a deliverable.

use vstd::prelude::*;

use crate::clock::{utc_now, Timestamp};
use crate::deliverable::DocumentType;
use crate::ids::{is_generated_id, ActorId, ContentHash, DeliverableId, DocumentId};
use crate::path::FsPath;

verus! {

/// A content-addressed document within a deliverable, with its provenance.
#[derive(Debug, Clone)]
pub struct Document {
    pub id: DocumentId,
    pub deliverable_id: DeliverableId,
    pub document_type: DocumentType,
    pub file_path: FsPath,
    pub content_hash: ContentHash,
    pub state: DocumentState,
    pub created_at: Timestamp,
    pub updated_at: Timestamp,
    pub created_by: ActorId,
    pub updated_by: ActorId,
}

/// Review state of a document.
#[derive(Debug, Clone, Copy, PartialEq, Eq, Hash, Structural)]
pub enum DocumentState {
    /// Initial, working state.
    Draft,
    /// A human has reviewed it.
    Reviewed,
    /// Released with its deliverable.
    Issued,
}

/// The document transition table: Draft ⇄ Reviewed → Issued.
pub open spec fn document_step(from: DocumentState, to: DocumentState) -> bool {
    match (from, to) {
        (DocumentState::Draft, DocumentState::Reviewed) => true,
        (DocumentState::Reviewed, DocumentState::Draft) => true,
        (DocumentState::Reviewed, DocumentState::Issued) => true,
        _ => false,
    }
}

impl DocumentState {
    /// Whether the table holds a move from `self` to `target`.
    pub fn can_transition_to(&self, target: &DocumentState) -> (r: bool)
        ensures
            r == document_step(*self, *target),
    {
        match (self, target) {
            (DocumentState::Draft, DocumentState::Reviewed) => true,
            (DocumentState::Reviewed, DocumentState::Draft) => true,
            (DocumentState::Reviewed, DocumentState::Issued) => true,
            _ => false,
        }
    }
}

/// Two actors are the same kind with the same identifier.
pub open spec fn same_actor(a: ActorId, b: ActorId) -> bool {
    a.kind == b.kind && a.id@ == b.id@
}

impl Document {
    /// A new draft document with a fresh identifier, created and last updated
    /// now by `created_by`.
    pub fn new(
        deliverable_id: DeliverableId,
        document_type: DocumentType,
        file_path: FsPath,
        content_hash: ContentHash,
        created_by: ActorId,
    ) -> (r: Self)
        ensures
            is_generated_id(r.id@, "doc:"@),
            r.deliverable_id == deliverable_id,
            r.document_type == document_type,
            r.file_path == file_path,
            r.content_hash == content_hash,
            r.state == DocumentState::Draft,
            r.created_at == r.updated_at,
            r.created_at.wf(),
            r.created_by == created_by,
            same_actor(r.updated_by, created_by),
    {
        let now = utc_now();
        let updated_by = created_by.duplicate();
        Document {
            id: DocumentId::new(),
            deliverable_id,
            document_type,
            file_path,
            content_hash,
            state: DocumentState::Draft,
            created_at: now,
            updated_at: now,
            created_by,
            updated_by,
        }
    }

    /// Records new content: the hash, the time of the change and who made it.
    pub fn update_content(&mut self, new_hash: ContentHash, updated_by: ActorId)
        ensures
            final(self).content_hash == new_hash,
            final(self).updated_by == updated_by,
            final(self).updated_at.wf(),
            *final(self) == (Document {
                content_hash: new_hash,
                updated_at: final(self).updated_at,
                updated_by,
                ..*old(self)
            }),
    {
        self.content_hash = new_hash;
        self.updated_at = utc_now();
        self.updated_by = updated_by;
    }
}

} // verus!
