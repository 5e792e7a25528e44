//! Session briefs: reading them from structured input, and checking them
//! against what each agent needs.

use vstd::prelude::*;

use crate::error::DomainError;
use crate::json::{json_get, JsonValue};
use crate::session::SessionBrief;
use crate::text::same_text;

verus! {

/// Reads and checks session briefs.
pub struct BriefParser;

/// The text under `key`, where the input holds text there.
pub open spec fn text_member(input: JsonValue, key: Seq<char>) -> Option<Seq<char>> {
    match json_get(input, key) {
        Some(JsonValue::Text(s)) => Some(s@),
        _ => None,
    }
}

/// The text elements of `items`, in order; other elements are dropped.
pub open spec fn text_items(items: Seq<JsonValue>) -> Seq<Seq<char>>
    decreases items.len(),
{
    if items.len() == 0 {
        Seq::empty()
    } else {
        let rest = text_items(items.drop_last());
        match items.last() {
            JsonValue::Text(s) => rest.push(s@),
            _ => rest,
        }
    }
}

/// The text elements of the array under `key`; empty where there is no array.
pub open spec fn text_list_member(input: JsonValue, key: Seq<char>) -> Seq<Seq<char>> {
    match json_get(input, key) {
        Some(JsonValue::Array(items)) => text_items(items@),
        _ => Seq::empty(),
    }
}

/// The texts of a list of strings.
pub open spec fn texts(v: Seq<String>) -> Seq<Seq<char>> {
    v.map_values(|s: String| s@)
}

/// `b` holds what `input` gives: its task definition, its scope description
/// (empty by default), the text elements of its three lists (empty by
/// default), and its inputs (null by default).
pub open spec fn brief_of(input: JsonValue, b: SessionBrief) -> bool {
    &&& text_member(input, "task_definition"@) == Some(b.task_definition@)
    &&& b.scope_description@ == match text_member(input, "scope_description"@) {
        Some(s) => s,
        None => Seq::empty(),
    }
    &&& texts(b.output_contract@) == text_list_member(input, "output_contract"@)
    &&& texts(b.constraints@) == text_list_member(input, "constraints"@)
    &&& texts(b.success_criteria@) == text_list_member(input, "success_criteria"@)
    &&& b.inputs == match json_get(input, "inputs"@) {
        Some(v) => v,
        None => JsonValue::Null,
    }
}

/// An invalid-brief error with the given reason.
pub open spec fn is_brief_error(e: DomainError, reason: Seq<char>) -> bool {
    e matches DomainError::InvalidBrief { reason: r } && r@ == reason
}

/// Whether the brief's inputs name `key`.
pub open spec fn has_input(brief: SessionBrief, key: Seq<char>) -> bool {
    json_get(brief.inputs, key) is Some
}

/// What is wrong with `brief` for the agent named `agent`, if anything.
pub open spec fn brief_problem(brief: SessionBrief, agent: Seq<char>) -> Option<Seq<char>> {
    if brief.task_definition@.len() == 0 {
        Some("task_definition cannot be empty"@)
    } else if agent == "4_DOCUMENTS"@ {
        if has_input(brief, "deliverable_id"@) {
            None
        } else {
            Some("4_DOCUMENTS requires deliverable_id in inputs"@)
        }
    } else if agent == "PREPARATION"@ {
        if has_input(brief, "package_id"@) || has_input(brief, "project_id"@) {
            None
        } else {
            Some("PREPARATION requires package_id or project_id in inputs"@)
        }
    } else if agent == "CHIRALITY_FRAMEWORK"@ {
        if has_input(brief, "deliverable_id"@) {
            None
        } else {
            Some("CHIRALITY_FRAMEWORK requires deliverable_id in inputs"@)
        }
    } else if agent == "DEPENDENCIES"@ {
        if has_input(brief, "deliverable_id"@) || has_input(brief, "package_id"@) || has_input(
            brief,
            "project_id"@,
        ) {
            None
        } else {
            Some("DEPENDENCIES requires a scope (deliverable_id, package_id, or project_id)"@)
        }
    } else if agent == "AGGREGATION"@ {
        if has_input(brief, "project_id"@) {
            None
        } else {
            Some("AGGREGATION requires project_id in inputs"@)
        }
    } else {
        None
    }
}

/// `r` is the outcome of validating `brief` for `agent`: success where nothing
/// is wrong, else an invalid-brief error with the problem as its reason.
pub open spec fn validation_outcome(
    brief: SessionBrief,
    agent: Seq<char>,
    r: Result<(), DomainError>,
) -> bool {
    match brief_problem(brief, agent) {
        None => r is Ok,
        Some(reason) => r is Err && is_brief_error(r->Err_0, reason),
    }
}

/// Two outcomes agree: both succeed, or both fail with the same reason.
pub open spec fn same_outcome(a: Result<(), DomainError>, b: Result<(), DomainError>) -> bool {
    match (a, b) {
        (Ok(_), Ok(_)) => true,
        (
            Err(DomainError::InvalidBrief { reason: x }),
            Err(DomainError::InvalidBrief { reason: y }),
        ) => x@ == y@,
        _ => false,
    }
}

/// Validating is repeatable: any two validations of one brief for one agent
/// agree, so re-validating a valid brief succeeds again.
pub proof fn lemma_validation_repeatable(
    brief: SessionBrief,
    agent: Seq<char>,
    first: Result<(), DomainError>,
    second: Result<(), DomainError>,
)
    requires
        validation_outcome(brief, agent, first),
        validation_outcome(brief, agent, second),
    ensures
        same_outcome(first, second),
        first is Ok ==> second is Ok,
{
}

impl BriefParser {
    /// Reads a brief from `input`. The task definition must be non-empty text.
    pub fn parse(input: JsonValue) -> (r: Result<SessionBrief, DomainError>)
        ensures
            match text_member(input, "task_definition"@) {
                None => r is Err && is_brief_error(r->Err_0, "Missing task_definition"@),
                Some(t) => if t.len() == 0 {
                    r is Err && is_brief_error(r->Err_0, "task_definition cannot be empty"@)
                } else {
                    r is Ok && brief_of(input, r->Ok_0)
                },
            },
    {
        let task_definition = match input.get("task_definition") {
            Some(v) => match v.as_str() {
                Some(s) => String::from_str(s),
                None => {
                    return Err(
                        DomainError::InvalidBrief { reason: String::from_str("Missing task_definition") },
                    );
                },
            },
            None => {
                return Err(
                    DomainError::InvalidBrief { reason: String::from_str("Missing task_definition") },
                );
            },
        };
        if task_definition.as_str().unicode_len() == 0 {
            return Err(
                DomainError::InvalidBrief {
                    reason: String::from_str("task_definition cannot be empty"),
                },
            );
        }
        let scope_description = match input.get("scope_description") {
            Some(v) => match v.as_str() {
                Some(s) => String::from_str(s),
                None => String::new(),
            },
            None => String::new(),
        };
        let output_contract = Self::parse_string_array(input.get("output_contract"));
        let constraints = Self::parse_string_array(input.get("constraints"));
        let success_criteria = Self::parse_string_array(input.get("success_criteria"));
        let ghost given = input;
        let inputs = match input.take("inputs") {
            Some(v) => v,
            None => JsonValue::Null,
        };
        let brief = SessionBrief {
            task_definition,
            scope_description,
            output_contract,
            constraints,
            success_criteria,
            inputs,
        };
        assert(brief_of(given, brief));
        Ok(brief)
    }

    /// The text elements of an array value, in order; empty for anything else.
    fn parse_string_array(value: Option<&JsonValue>) -> (r: Vec<String>)
        ensures
            texts(r@) == match value {
                Some(JsonValue::Array(items)) => text_items(items@),
                _ => Seq::<Seq<char>>::empty(),
            },
    {
        let mut out: Vec<String> = Vec::new();
        match value {
            Some(v) => match v.as_array() {
                Some(items) => {
                    let mut i: usize = 0;
                    while i < items.len()
                        invariant
                            i <= items@.len(),
                            texts(out@) == text_items(items@.subrange(0, i as int)),
                        decreases items@.len() - i,
                    {
                        proof {
                            let next = items@.subrange(0, i + 1);
                            assert(next.drop_last() =~= items@.subrange(0, i as int));
                            assert(next.last() == items@[i as int]);
                        }
                        match items[i].as_str() {
                            Some(s) => {
                                let ghost before = out@;
                                out.push(String::from_str(s));
                                assert(texts(out@) =~= texts(before).push(s@));
                            },
                            None => {},
                        }
                        i = i + 1;
                    }
                    assert(items@.subrange(0, items@.len() as int) =~= items@);
                },
                None => {},
            },
            None => {},
        }
        out
    }

    /// Checks `brief` for the agent named `agent_name`: the task definition must
    /// be non-empty, and the inputs must hold the references that the agent needs.
    pub fn validate(brief: &SessionBrief, agent_name: &str) -> (r: Result<(), DomainError>)
        ensures
            validation_outcome(*brief, agent_name@, r),
    {
        proof {
            reveal_strlit("4_DOCUMENTS");
            reveal_strlit("PREPARATION");
            reveal_strlit("CHIRALITY_FRAMEWORK");
            reveal_strlit("DEPENDENCIES");
            reveal_strlit("AGGREGATION");
        }
        if brief.task_definition.as_str().unicode_len() == 0 {
            return Err(
                DomainError::InvalidBrief {
                    reason: String::from_str("task_definition cannot be empty"),
                },
            );
        }
        if same_text(agent_name, "4_DOCUMENTS") {
            Self::validate_4_documents_brief(brief)
        } else if same_text(agent_name, "PREPARATION") {
            Self::validate_preparation_brief(brief)
        } else if same_text(agent_name, "CHIRALITY_FRAMEWORK") {
            Self::validate_chirality_framework_brief(brief)
        } else if same_text(agent_name, "DEPENDENCIES") {
            Self::validate_dependencies_brief(brief)
        } else if same_text(agent_name, "AGGREGATION") {
            Self::validate_aggregation_brief(brief)
        } else {
            Ok(())
        }
    }

    /// Whether the brief's inputs name `key`.
    fn names_input(brief: &SessionBrief, key: &str) -> (r: bool)
        ensures
            r == has_input(*brief, key@),
    {
        brief.inputs.get(key).is_some()
    }

    fn validate_4_documents_brief(brief: &SessionBrief) -> (r: Result<(), DomainError>)
        ensures
            has_input(*brief, "deliverable_id"@) ==> r is Ok,
            !has_input(*brief, "deliverable_id"@) ==> r is Err && is_brief_error(
                r->Err_0,
                "4_DOCUMENTS requires deliverable_id in inputs"@,
            ),
    {
        if !Self::names_input(brief, "deliverable_id") {
            return Err(
                DomainError::InvalidBrief {
                    reason: String::from_str("4_DOCUMENTS requires deliverable_id in inputs"),
                },
            );
        }
        Ok(())
    }

    fn validate_preparation_brief(brief: &SessionBrief) -> (r: Result<(), DomainError>)
        ensures
            has_input(*brief, "package_id"@) || has_input(*brief, "project_id"@) ==> r is Ok,
            !(has_input(*brief, "package_id"@) || has_input(*brief, "project_id"@)) ==> r is Err
                && is_brief_error(
                r->Err_0,
                "PREPARATION requires package_id or project_id in inputs"@,
            ),
    {
        if !Self::names_input(brief, "package_id") && !Self::names_input(brief, "project_id") {
            return Err(
                DomainError::InvalidBrief {
                    reason: String::from_str(
                        "PREPARATION requires package_id or project_id in inputs",
                    ),
                },
            );
        }
        Ok(())
    }

    fn validate_chirality_framework_brief(brief: &SessionBrief) -> (r: Result<(), DomainError>)
        ensures
            has_input(*brief, "deliverable_id"@) ==> r is Ok,
            !has_input(*brief, "deliverable_id"@) ==> r is Err && is_brief_error(
                r->Err_0,
                "CHIRALITY_FRAMEWORK requires deliverable_id in inputs"@,
            ),
    {
        if !Self::names_input(brief, "deliverable_id") {
            return Err(
                DomainError::InvalidBrief {
                    reason: String::from_str(
                        "CHIRALITY_FRAMEWORK requires deliverable_id in inputs",
                    ),
                },
            );
        }
        Ok(())
    }

    fn validate_dependencies_brief(brief: &SessionBrief) -> (r: Result<(), DomainError>)
        ensures
            has_input(*brief, "deliverable_id"@) || has_input(*brief, "package_id"@) || has_input(
                *brief,
                "project_id"@,
            ) ==> r is Ok,
            !(has_input(*brief, "deliverable_id"@) || has_input(*brief, "package_id"@)
                || has_input(*brief, "project_id"@)) ==> r is Err && is_brief_error(
                r->Err_0,
                "DEPENDENCIES requires a scope (deliverable_id, package_id, or project_id)"@,
            ),
    {
        if !Self::names_input(brief, "deliverable_id") && !Self::names_input(brief, "package_id")
            && !Self::names_input(brief, "project_id") {
            return Err(
                DomainError::InvalidBrief {
                    reason: String::from_str(
                        "DEPENDENCIES requires a scope (deliverable_id, package_id, or project_id)",
                    ),
                },
            );
        }
        Ok(())
    }

    fn validate_aggregation_brief(brief: &SessionBrief) -> (r: Result<(), DomainError>)
        ensures
            has_input(*brief, "project_id"@) ==> r is Ok,
            !has_input(*brief, "project_id"@) ==> r is Err && is_brief_error(
                r->Err_0,
                "AGGREGATION requires project_id in inputs"@,
            ),
    {
        if !Self::names_input(brief, "project_id") {
            return Err(
                DomainError::InvalidBrief {
                    reason: String::from_str("AGGREGATION requires project_id in inputs"),
                },
            );
        }
        Ok(())
    }
}

} // verus!
