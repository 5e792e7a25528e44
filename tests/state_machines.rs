use chirality_domain::{
    ActorId, AgentClass, AgentSession, AgentType, Deliverable, DeliverableState, DomainError,
    FsPath, PackageId, SessionBrief, SessionScope, SessionState, JsonValue, ProjectId, WriteScope,
};

const ALL_DELIVERABLE: [DeliverableState; 6] = [
    DeliverableState::Open,
    DeliverableState::Initialized,
    DeliverableState::SemanticReady,
    DeliverableState::InProgress,
    DeliverableState::Checking,
    DeliverableState::Issued,
];

const ALL_SESSION: [SessionState; 6] = [
    SessionState::Created,
    SessionState::Active,
    SessionState::Paused,
    SessionState::Completed,
    SessionState::Failed,
    SessionState::Cancelled,
];

#[test]
fn deliverable_lifecycle_happy_path() {
    let state = DeliverableState::Open;
    let state = state.transition_to(DeliverableState::Initialized).unwrap();
    let state = state.transition_to(DeliverableState::InProgress).unwrap();
    let state = state.transition_to(DeliverableState::Checking).unwrap();
    let state = state.transition_to(DeliverableState::Issued).unwrap();
    assert!(state.is_terminal());
}

#[test]
fn deliverable_can_skip_semantic() {
    let state = DeliverableState::Initialized;
    assert!(state.can_transition_to(&DeliverableState::InProgress));
}

#[test]
fn deliverable_can_reject_from_checking() {
    let state = DeliverableState::Checking;
    assert!(state.can_transition_to(&DeliverableState::InProgress));
}

#[test]
fn task_session_cannot_pause() {
    let state = SessionState::Active;
    assert!(!state.can_pause(AgentClass::Task));
    assert!(!state.can_transition_to(&SessionState::Paused, AgentClass::Task));
}

#[test]
fn persona_session_can_pause() {
    let state = SessionState::Active;
    assert!(state.can_pause(AgentClass::Persona));
    assert!(state.can_transition_to(&SessionState::Paused, AgentClass::Persona));
}

#[test]
fn deliverable_table_has_exactly_seven_moves() {
    let legal = [
        (DeliverableState::Open, DeliverableState::Initialized),
        (DeliverableState::Initialized, DeliverableState::SemanticReady),
        (DeliverableState::Initialized, DeliverableState::InProgress),
        (DeliverableState::SemanticReady, DeliverableState::InProgress),
        (DeliverableState::InProgress, DeliverableState::Checking),
        (DeliverableState::Checking, DeliverableState::InProgress),
        (DeliverableState::Checking, DeliverableState::Issued),
    ];
    for from in ALL_DELIVERABLE {
        for to in ALL_DELIVERABLE {
            let expected = legal.contains(&(from, to));
            assert_eq!(from.can_transition_to(&to), expected);
            assert_eq!(from.transition_to(to).is_ok(), expected);
        }
    }
}

#[test]
fn illegal_deliverable_move_reports_names() {
    match DeliverableState::Open.transition_to(DeliverableState::Issued) {
        Err(DomainError::InvalidStateTransition { entity, from, to }) => {
            assert_eq!(entity, "Deliverable");
            assert_eq!(from, "Open");
            assert_eq!(to, "Issued");
        }
        other => panic!("unexpected {:?}", other),
    }
}

#[test]
fn refused_deliverable_move_keeps_stored_state() {
    let mut d = Deliverable::new(
        PackageId::from_string("PKG-001"),
        "Pump",
        FsPath::new("/project/PKG-001/DEL-01.01"),
    );
    let err = d.transition_to(DeliverableState::Checking).unwrap_err();
    assert!(matches!(err, DomainError::InvalidStateTransition { .. }));
    assert_eq!(d.state, DeliverableState::Open);
    d.transition_to(DeliverableState::Initialized).unwrap();
    assert_eq!(d.state, DeliverableState::Initialized);
}

#[test]
fn issued_is_final_and_terminal() {
    for to in ALL_DELIVERABLE {
        assert!(DeliverableState::Issued.transition_to(to).is_err());
    }
    for s in ALL_DELIVERABLE {
        assert_eq!(s.is_terminal(), s == DeliverableState::Issued);
    }
}

#[test]
fn work_allowed_only_in_working_states() {
    let working = [
        DeliverableState::Initialized,
        DeliverableState::SemanticReady,
        DeliverableState::InProgress,
    ];
    for s in ALL_DELIVERABLE {
        assert_eq!(s.allows_work(), working.contains(&s));
    }
}

#[test]
fn task_class_never_reaches_paused() {
    for from in ALL_SESSION {
        assert!(!from.can_transition_to(&SessionState::Paused, AgentClass::Task));
        assert!(from.transition_to(SessionState::Paused, AgentClass::Task).is_err());
    }
}

#[test]
fn persona_pause_resume_and_finish() {
    let s = SessionState::Active;
    let s = s.transition_to(SessionState::Paused, AgentClass::Persona).unwrap();
    let s = s.transition_to(SessionState::Active, AgentClass::Persona).unwrap();
    assert_eq!(s, SessionState::Active);
    assert!(SessionState::Paused.transition_to(SessionState::Completed, AgentClass::Persona).is_ok());
    assert!(SessionState::Paused.transition_to(SessionState::Failed, AgentClass::Persona).is_ok());
}

#[test]
fn cancellation_from_live_states_only() {
    for class in [AgentClass::Persona, AgentClass::Task] {
        for from in ALL_SESSION {
            let ok = from.transition_to(SessionState::Cancelled, class).is_ok();
            assert_eq!(ok, !from.is_terminal());
        }
    }
}

#[test]
fn session_predicates() {
    for s in ALL_SESSION {
        assert_eq!(s.is_active(), s == SessionState::Active);
        assert_eq!(
            s.is_terminal(),
            matches!(s, SessionState::Completed | SessionState::Failed | SessionState::Cancelled)
        );
        assert!(!s.can_pause(AgentClass::Task));
    }
    assert!(!SessionState::Paused.can_pause(AgentClass::Persona));
    assert_eq!(SessionState::default(), SessionState::Created);
    assert_eq!(DeliverableState::default(), DeliverableState::Open);
}

#[test]
fn illegal_session_move_reports_names() {
    match SessionState::Created.transition_to(SessionState::Completed, AgentClass::Task) {
        Err(DomainError::InvalidStateTransition { entity, from, to }) => {
            assert_eq!(entity, "AgentSession");
            assert_eq!(from, "Created");
            assert_eq!(to, "Completed");
        }
        other => panic!("unexpected {:?}", other),
    }
}

#[test]
fn task_session_entity_refuses_pause() {
    let brief = SessionBrief {
        task_definition: "Draft".to_string(),
        scope_description: String::new(),
        output_contract: vec![],
        constraints: vec![],
        success_criteria: vec![],
        inputs: JsonValue::Null,
    };
    let mut s = AgentSession::new_task(
        "4_DOCUMENTS",
        brief,
        SessionScope::Project { project_id: ProjectId::from_string("proj:1") },
        WriteScope::ReadOnly,
        ActorId::human("alice"),
    );
    assert_eq!(s.agent_class, AgentClass::Task);
    assert_eq!(s.agent_type, AgentType::Specialist);
    s.transition_to(SessionState::Active).unwrap();
    assert!(s.transition_to(SessionState::Paused).is_err());
    assert_eq!(s.state, SessionState::Active);
    s.complete().unwrap();
    assert_eq!(s.state, SessionState::Completed);
    assert!(s.fail().is_err());
    assert_eq!(s.state, SessionState::Completed);
    assert!(s.completed_at.is_some());
}

#[test]
fn persona_session_entity_pauses() {
    let mut s = AgentSession::new_persona(
        "ORCHESTRATOR",
        AgentType::Manager,
        SessionScope::Project { project_id: ProjectId::from_string("proj:1") },
        WriteScope::ReadOnly,
        ActorId::system(),
    )
    .with_branch("work/orchestrator");
    assert!(s.brief.is_none());
    assert_eq!(s.git_branch.as_deref(), Some("work/orchestrator"));
    assert!(s.id.as_str().starts_with("session:"));
    s.transition_to(SessionState::Active).unwrap();
    s.transition_to(SessionState::Paused).unwrap();
    assert_eq!(s.state, SessionState::Paused);
    s.fail().unwrap();
    assert_eq!(s.state, SessionState::Failed);
    assert!(s.transition_to(SessionState::Cancelled).is_err());
}

#[test]
fn ending_a_session_follows_the_table() {
    let mut s = AgentSession::new_persona(
        "ORCHESTRATOR",
        AgentType::Manager,
        SessionScope::Project { project_id: ProjectId::from_string("proj:1") },
        WriteScope::ReadOnly,
        ActorId::system(),
    );
    match s.complete() {
        Err(DomainError::InvalidStateTransition { entity, from, to }) => {
            assert_eq!(entity, "AgentSession");
            assert_eq!(from, "Created");
            assert_eq!(to, "Completed");
        }
        other => panic!("unexpected {:?}", other),
    }
    assert_eq!(s.state, SessionState::Created);
    assert!(s.completed_at.is_none());
    s.transition_to(SessionState::Active).unwrap();
    s.fail().unwrap();
    assert_eq!(s.state, SessionState::Failed);
    assert!(s.completed_at.is_some());
    assert!(s.complete().is_err());
    assert_eq!(s.state, SessionState::Failed);
}
