use chirality_domain::{BriefParser, DomainError, JsonValue, SessionBrief};

fn text(s: &str) -> JsonValue {
    JsonValue::Text(s.to_string())
}

fn texts(items: &[&str]) -> JsonValue {
    JsonValue::Array(items.iter().map(|s| text(s)).collect())
}

fn object(members: Vec<(&str, JsonValue)>) -> JsonValue {
    JsonValue::Object(members.into_iter().map(|(k, v)| (k.to_string(), v)).collect())
}

fn brief_with_inputs(inputs: JsonValue) -> SessionBrief {
    SessionBrief {
        task_definition: "Generate docs".to_string(),
        scope_description: String::new(),
        output_contract: vec![],
        constraints: vec![],
        success_criteria: vec![],
        inputs,
    }
}

fn reason_of(r: Result<(), DomainError>) -> String {
    match r {
        Err(DomainError::InvalidBrief { reason }) => reason,
        other => panic!("unexpected {:?}", other),
    }
}

#[test]
fn parse_valid_brief() {
    let input = object(vec![
        ("task_definition", text("Generate initial drafts for deliverable")),
        ("scope_description", text("Single deliverable DEL-01.01")),
        (
            "output_contract",
            texts(&["Datasheet.md", "Specification.md", "Guidance.md", "Procedure.md"]),
        ),
        ("constraints", texts(&["Use existing references only", "Mark unknowns as TBD"])),
        ("success_criteria", texts(&["All four documents exist", "No placeholder content"])),
        ("inputs", object(vec![("deliverable_id", text("del:01234567890123456789012345"))])),
    ]);

    let brief = BriefParser::parse(input).unwrap();
    assert_eq!(brief.task_definition, "Generate initial drafts for deliverable");
    assert_eq!(brief.output_contract.len(), 4);
}

#[test]
fn validate_4_documents_requires_deliverable() {
    let brief = brief_with_inputs(object(vec![]));
    let result = BriefParser::validate(&brief, "4_DOCUMENTS");
    assert!(result.is_err());
}

#[test]
fn minimal_brief_defaults() {
    let brief = BriefParser::parse(object(vec![("task_definition", text("X"))])).unwrap();
    assert_eq!(brief.task_definition, "X");
    assert_eq!(brief.scope_description, "");
    assert!(brief.output_contract.is_empty());
    assert!(brief.constraints.is_empty());
    assert!(brief.success_criteria.is_empty());
    assert!(brief.inputs.is_null());
    assert_eq!(
        reason_of(BriefParser::validate(&brief, "4_DOCUMENTS")),
        "4_DOCUMENTS requires deliverable_id in inputs"
    );
    assert!(BriefParser::validate(&brief, "SOME_OTHER_AGENT").is_ok());
}

#[test]
fn parse_keeps_fields_and_drops_non_text_entries() {
    let input = object(vec![
        ("task_definition", text("Check")),
        ("scope_description", JsonValue::Number("3".to_string())),
        (
            "constraints",
            JsonValue::Array(vec![text("a"), JsonValue::Bool(true), text("b"), JsonValue::Null]),
        ),
        ("success_criteria", text("not an array")),
        ("inputs", object(vec![("project_id", text("proj:1"))])),
    ]);
    let brief = BriefParser::parse(input).unwrap();
    assert_eq!(brief.scope_description, "");
    assert_eq!(brief.constraints, vec!["a".to_string(), "b".to_string()]);
    assert!(brief.success_criteria.is_empty());
    assert!(brief.inputs.get("project_id").is_some());
    assert_eq!(brief.inputs.get("project_id").unwrap().as_str(), Some("proj:1"));
}

#[test]
fn parse_rejects_missing_or_empty_task_definition() {
    match BriefParser::parse(object(vec![("scope_description", text("s"))])) {
        Err(DomainError::InvalidBrief { reason }) => assert_eq!(reason, "Missing task_definition"),
        other => panic!("unexpected {:?}", other),
    }
    match BriefParser::parse(object(vec![("task_definition", JsonValue::Number("1".to_string()))])) {
        Err(DomainError::InvalidBrief { reason }) => assert_eq!(reason, "Missing task_definition"),
        other => panic!("unexpected {:?}", other),
    }
    match BriefParser::parse(object(vec![("task_definition", text(""))])) {
        Err(DomainError::InvalidBrief { reason }) => {
            assert_eq!(reason, "task_definition cannot be empty")
        }
        other => panic!("unexpected {:?}", other),
    }
    assert!(BriefParser::parse(JsonValue::Null).is_err());
}

#[test]
fn first_member_of_a_repeated_key_counts() {
    let input = object(vec![("task_definition", text("first")), ("task_definition", text("second"))]);
    assert_eq!(BriefParser::parse(input).unwrap().task_definition, "first");
}

#[test]
fn validate_rejects_empty_task_definition() {
    let mut brief = brief_with_inputs(object(vec![("deliverable_id", text("d"))]));
    brief.task_definition = String::new();
    assert_eq!(reason_of(BriefParser::validate(&brief, "ANY")), "task_definition cannot be empty");
}

#[test]
fn validate_per_agent_requirements() {
    let none = brief_with_inputs(object(vec![]));
    let del = brief_with_inputs(object(vec![("deliverable_id", text("d"))]));
    let pkg = brief_with_inputs(object(vec![("package_id", text("p"))]));
    let proj = brief_with_inputs(object(vec![("project_id", text("p"))]));

    assert!(BriefParser::validate(&del, "4_DOCUMENTS").is_ok());
    assert!(BriefParser::validate(&pkg, "4_DOCUMENTS").is_err());

    assert!(BriefParser::validate(&pkg, "PREPARATION").is_ok());
    assert!(BriefParser::validate(&proj, "PREPARATION").is_ok());
    assert_eq!(
        reason_of(BriefParser::validate(&del, "PREPARATION")),
        "PREPARATION requires package_id or project_id in inputs"
    );

    assert!(BriefParser::validate(&del, "CHIRALITY_FRAMEWORK").is_ok());
    assert_eq!(
        reason_of(BriefParser::validate(&proj, "CHIRALITY_FRAMEWORK")),
        "CHIRALITY_FRAMEWORK requires deliverable_id in inputs"
    );

    for b in [&del, &pkg, &proj] {
        assert!(BriefParser::validate(b, "DEPENDENCIES").is_ok());
    }
    assert_eq!(
        reason_of(BriefParser::validate(&none, "DEPENDENCIES")),
        "DEPENDENCIES requires a scope (deliverable_id, package_id, or project_id)"
    );

    assert!(BriefParser::validate(&proj, "AGGREGATION").is_ok());
    assert_eq!(
        reason_of(BriefParser::validate(&pkg, "AGGREGATION")),
        "AGGREGATION requires project_id in inputs"
    );

    assert!(BriefParser::validate(&none, "HELP_HUMAN").is_ok());
    assert!(BriefParser::validate(&none, "4_documents").is_ok());
}

#[test]
fn revalidation_gives_the_same_result() {
    let valid = brief_with_inputs(object(vec![("deliverable_id", text("d"))]));
    for _ in 0..3 {
        assert!(BriefParser::validate(&valid, "4_DOCUMENTS").is_ok());
    }
    let invalid = brief_with_inputs(JsonValue::Null);
    let first = reason_of(BriefParser::validate(&invalid, "AGGREGATION"));
    let second = reason_of(BriefParser::validate(&invalid, "AGGREGATION"));
    assert_eq!(first, second);
    assert_eq!(valid.task_definition, "Generate docs");
}
