use chirality_domain::{
    encode, ActorId, ActorKind, CommitHash, ContentHash, Deliverable, DeliverableId,
    DeliverableState, Document, DocumentId, DocumentRef, DocumentState, DocumentType, FsPath,
    Package, PackageId, Project, ProjectId, SessionId,
};

fn is_ulid_text(s: &str) -> bool {
    s.len() == 26 && s.chars().all(|c| "0123456789ABCDEFGHJKMNPQRSTVWXYZ".contains(c))
}

#[test]
fn generated_ids_carry_prefix_and_ulid() {
    let cases = [
        (ProjectId::new().as_str().to_string(), "proj:"),
        (PackageId::new().as_str().to_string(), "pkg:"),
        (DeliverableId::new().as_str().to_string(), "del:"),
        (DocumentId::new().as_str().to_string(), "doc:"),
        (SessionId::new().as_str().to_string(), "session:"),
        (ProjectId::default().as_str().to_string(), "proj:"),
    ];
    for (id, prefix) in cases {
        assert!(id.starts_with(prefix));
        assert!(is_ulid_text(&id[prefix.len()..]), "{}", id);
    }
    assert_ne!(DocumentId::new(), DocumentId::new());
}

#[test]
fn legacy_ids_are_zero_padded() {
    assert_eq!(PackageId::from_legacy(7).as_str(), "PKG-007");
    assert_eq!(PackageId::from_legacy(0).as_str(), "PKG-000");
    assert_eq!(PackageId::from_legacy(1234).as_str(), "PKG-1234");
    assert_eq!(DeliverableId::from_legacy(2, 1).as_str(), "DEL-02.01");
    assert_eq!(DeliverableId::from_legacy(12, 345).as_str(), "DEL-12.345");
    assert_eq!(DeliverableId::from_legacy(u32::MAX, 0).as_str(), "DEL-4294967295.00");
}

#[test]
fn ids_keep_their_text() {
    assert_eq!(ProjectId::from_string("proj:x").as_str(), "proj:x");
    assert_eq!(CommitHash::from_string("abc123").as_str(), "abc123");
    assert_eq!(ContentHash::from_string("sha256:00").as_str(), "sha256:00");
    assert_eq!(SessionId::from_string("s").as_str(), "s");
}

#[test]
fn content_hash_of_bytes() {
    assert_eq!(
        ContentHash::from_bytes(b"").as_str(),
        "sha256:e3b0c44298fc1c149afbf4c8996fb92427ae41e4649b934ca495991b7852b855"
    );
    assert_eq!(
        ContentHash::from_bytes(b"abc").as_str(),
        "sha256:ba7816bf8f01cfea414140de5dae2223b00361a396177a9cb410ff61f20015ad"
    );
    assert_eq!(ContentHash::from_bytes(b"a longer input of bytes").as_str().len(), 71);
    assert_eq!(ContentHash::from_digest(&[0x00, 0xff, 0x1a]).as_str(), "sha256:00ff1a");
}

#[test]
fn hex_encoding() {
    assert_eq!(encode(&[]), "");
    assert_eq!(encode(&[0x01, 0xab, 0xcd, 0xef, 0x90]), "01abcdef90");
}

#[test]
fn actors() {
    let h = ActorId::human("alice");
    assert!(h.is_human());
    assert_eq!(h.to_string(), "HUMAN:alice");
    let a = ActorId::agent("4_DOCUMENTS");
    assert!(!a.is_human());
    assert_eq!(a.kind, ActorKind::Agent);
    assert_eq!(a.to_string(), "AGENT:4_DOCUMENTS");
    let s = ActorId::system();
    assert_eq!(s.id, "system");
    assert_eq!(s.to_string(), "SYSTEM:system");
    assert_eq!(ActorKind::Human.to_string(), "HUMAN");
}

#[test]
fn document_types() {
    let all = [
        (DocumentType::Datasheet, "Datasheet.md", true),
        (DocumentType::Specification, "Specification.md", true),
        (DocumentType::Guidance, "Guidance.md", true),
        (DocumentType::Procedure, "Procedure.md", true),
        (DocumentType::Context, "_CONTEXT.md", false),
        (DocumentType::Status, "_STATUS.md", false),
        (DocumentType::Dependencies, "_DEPENDENCIES.md", false),
        (DocumentType::References, "_REFERENCES.md", false),
        (DocumentType::Semantic, "_SEMANTIC.md", false),
    ];
    for (t, name, core) in all {
        assert_eq!(t.filename(), name);
        assert_eq!(t.is_core(), core);
        assert_eq!(t.is_metadata(), !core);
    }
}

#[test]
fn document_state_table() {
    let all = [DocumentState::Draft, DocumentState::Reviewed, DocumentState::Issued];
    for from in all {
        for to in all {
            let legal = matches!(
                (from, to),
                (DocumentState::Draft, DocumentState::Reviewed)
                    | (DocumentState::Reviewed, DocumentState::Draft)
                    | (DocumentState::Reviewed, DocumentState::Issued)
            );
            assert_eq!(from.can_transition_to(&to), legal);
        }
    }
}

#[test]
fn deliverable_construction() {
    let mut d = Deliverable::new(PackageId::from_legacy(2), "Pump skid", FsPath::new("/p/PKG-002/DEL-02.01"))
        .with_legacy_id(2, 1)
        .with_type("Equipment")
        .with_discipline("Mechanical")
        .with_responsible_party("Vendor");
    assert_eq!(d.id.as_str(), "DEL-02.01");
    assert_eq!(d.package_id.as_str(), "PKG-002");
    assert_eq!(d.label, "Pump skid");
    assert_eq!(d.deliverable_type.as_deref(), Some("Equipment"));
    assert_eq!(d.discipline.as_deref(), Some("Mechanical"));
    assert_eq!(d.responsible_party.as_deref(), Some("Vendor"));
    assert_eq!(d.state, DeliverableState::Open);
    assert!(d.documents.is_empty());
    d.add_document(DocumentRef {
        id: DocumentId::from_string("doc:1"),
        document_type: DocumentType::Datasheet,
        file_path: FsPath::new("/p/PKG-002/DEL-02.01/Datasheet.md"),
    });
    assert_eq!(d.documents.len(), 1);
    assert_eq!(d.documents[0].document_type, DocumentType::Datasheet);
}

#[test]
fn fresh_deliverable_has_generated_id() {
    let d = Deliverable::new(PackageId::from_string("pkg:x"), "L", FsPath::new("/p"));
    assert!(d.id.as_str().starts_with("del:"));
    assert!(d.deliverable_type.is_none());
}

#[test]
fn package_folder_names() {
    let p = Package::new(ProjectId::from_string("proj:1"), "Site works/Civil-2");
    assert!(p.id.as_str().starts_with("pkg:"));
    assert_eq!(p.folder_name, "Site_works_Civil_2");
    let p = p.with_legacy_id(3).with_scope_items(vec!["Earthworks".to_string()]);
    assert_eq!(p.id.as_str(), "PKG-003");
    assert_eq!(p.folder_name, "PKG-003_Site_works_Civil_2");
    assert_eq!(p.scope_items, vec!["Earthworks".to_string()]);
    assert_eq!(p.label, "Site works/Civil-2");
}

#[test]
fn package_label_keeps_unicode_letters() {
    let p = Package::new(ProjectId::from_string("proj:1"), "Bâtiment_A 1").with_legacy_id(12);
    assert_eq!(p.folder_name, "PKG-012_Bâtiment_A_1");
}

#[test]
fn project_construction() {
    let p = Project::new("Plant", FsPath::new("/work/plant"), ActorId::human("bob"))
        .with_description("Process plant")
        .with_decomposition(FsPath::new("/work/plant/_Decomposition.md"));
    assert!(p.id.as_str().starts_with("proj:"));
    assert_eq!(p.name, "Plant");
    assert_eq!(p.description.as_deref(), Some("Process plant"));
    assert_eq!(p.decomposition_path.as_ref().map(|x| x.as_str()), Some("/work/plant/_Decomposition.md"));
    assert!(p.created_at.secs > 1_600_000_000);
    assert!(p.created_at.nanos < 1_000_000_000);
}

#[test]
fn document_updates_record_provenance() {
    let mut doc = Document::new(
        DeliverableId::from_string("DEL-01.01"),
        DocumentType::Guidance,
        FsPath::new("/p/Guidance.md"),
        ContentHash::from_bytes(b"v1"),
        ActorId::agent("4_DOCUMENTS"),
    );
    assert_eq!(doc.state, DocumentState::Draft);
    assert_eq!(doc.created_at, doc.updated_at);
    assert_eq!(doc.updated_by, doc.created_by);
    assert!(doc.id.as_str().starts_with("doc:"));
    let before = doc.updated_at;
    doc.update_content(ContentHash::from_bytes(b"v2"), ActorId::human("carol"));
    assert_eq!(doc.content_hash, ContentHash::from_bytes(b"v2"));
    assert_eq!(doc.updated_by, ActorId::human("carol"));
    assert_eq!(doc.created_by, ActorId::agent("4_DOCUMENTS"));
    assert!((doc.updated_at.secs, doc.updated_at.nanos) >= (before.secs, before.nanos));
}
