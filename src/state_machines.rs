//! The two lifecycles: deliverable production and agent-session execution.

use vstd::prelude::*;

use crate::error::DomainError;
use crate::session::AgentClass;

verus! {

/// Production state of a deliverable.
///
/// Open → Initialized → (SemanticReady →) InProgress ⇄ Checking → Issued.
#[derive(Debug, Clone, Copy, PartialEq, Eq, Hash, Structural)]
pub enum DeliverableState {
    /// Folder exists, awaiting initialization.
    Open,
    /// Drafts of the documents exist.
    Initialized,
    /// The optional semantic pass has run.
    SemanticReady,
    /// Active human and agent work.
    InProgress,
    /// Under review.
    Checking,
    /// Released; terminal.
    Issued,
}

/// The deliverable transition table.
pub open spec fn deliverable_step(from: DeliverableState, to: DeliverableState) -> bool {
    match (from, to) {
        (DeliverableState::Open, DeliverableState::Initialized) => true,
        (DeliverableState::Initialized, DeliverableState::SemanticReady) => true,
        (DeliverableState::Initialized, DeliverableState::InProgress) => true,
        (DeliverableState::SemanticReady, DeliverableState::InProgress) => true,
        (DeliverableState::InProgress, DeliverableState::Checking) => true,
        (DeliverableState::Checking, DeliverableState::InProgress) => true,
        (DeliverableState::Checking, DeliverableState::Issued) => true,
        _ => false,
    }
}

/// The name under which a deliverable state is reported.
pub open spec fn deliverable_state_name(s: DeliverableState) -> Seq<char> {
    match s {
        DeliverableState::Open => "Open"@,
        DeliverableState::Initialized => "Initialized"@,
        DeliverableState::SemanticReady => "SemanticReady"@,
        DeliverableState::InProgress => "InProgress"@,
        DeliverableState::Checking => "Checking"@,
        DeliverableState::Issued => "Issued"@,
    }
}

/// The error that reports a refused move of `entity` from `from` to `to`.
pub open spec fn is_transition_error(
    e: DomainError,
    entity: Seq<char>,
    from: Seq<char>,
    to: Seq<char>,
) -> bool {
    e matches DomainError::InvalidStateTransition { entity: en, from: f, to: t } && en@ == entity
        && f@ == from && t@ == to
}

impl DeliverableState {
    /// Whether the transition table holds a move from `self` to `target`.
    pub fn can_transition_to(&self, target: &DeliverableState) -> (r: bool)
        ensures
            r == deliverable_step(*self, *target),
    {
        match (self, target) {
            (DeliverableState::Open, DeliverableState::Initialized) => true,
            (DeliverableState::Initialized, DeliverableState::SemanticReady) => true,
            (DeliverableState::Initialized, DeliverableState::InProgress) => true,
            (DeliverableState::SemanticReady, DeliverableState::InProgress) => true,
            (DeliverableState::InProgress, DeliverableState::Checking) => true,
            (DeliverableState::Checking, DeliverableState::InProgress) => true,
            (DeliverableState::Checking, DeliverableState::Issued) => true,
            _ => false,
        }
    }

    /// The state reached by moving to `target`, or the error that refuses it.
    pub fn transition_to(self, target: DeliverableState) -> (r: Result<DeliverableState, DomainError>)
        ensures
            deliverable_step(self, target) ==> r == Ok::<DeliverableState, DomainError>(target),
            !deliverable_step(self, target) ==> r is Err && is_transition_error(
                r->Err_0,
                "Deliverable"@,
                deliverable_state_name(self),
                deliverable_state_name(target),
            ),
    {
        if self.can_transition_to(&target) {
            Ok(target)
        } else {
            Err(
                DomainError::InvalidStateTransition {
                    entity: String::from_str("Deliverable"),
                    from: self.name(),
                    to: target.name(),
                },
            )
        }
    }

    /// Whether the state is terminal: only `Issued` is.
    pub fn is_terminal(&self) -> (r: bool)
        ensures
            r == (*self == DeliverableState::Issued),
    {
        matches!(self, DeliverableState::Issued)
    }

    /// Whether an agent may be dispatched against a deliverable in this state.
    pub fn allows_work(&self) -> (r: bool)
        ensures
            r == (*self == DeliverableState::Initialized || *self == DeliverableState::SemanticReady
                || *self == DeliverableState::InProgress),
    {
        matches!(
            self,
            DeliverableState::Initialized | DeliverableState::SemanticReady
                | DeliverableState::InProgress
        )
    }

    /// The state's name, as errors report it.
    pub fn name(&self) -> (r: String)
        ensures
            r@ == deliverable_state_name(*self),
    {
        match self {
            DeliverableState::Open => String::from_str("Open"),
            DeliverableState::Initialized => String::from_str("Initialized"),
            DeliverableState::SemanticReady => String::from_str("SemanticReady"),
            DeliverableState::InProgress => String::from_str("InProgress"),
            DeliverableState::Checking => String::from_str("Checking"),
            DeliverableState::Issued => String::from_str("Issued"),
        }
    }
}

impl Default for DeliverableState {
    fn default() -> (r: Self)
        ensures
            r == DeliverableState::Open,
    {
        DeliverableState::Open
    }
}

/// Execution state of an agent session.
///
/// Persona: Created → Active ⇄ Paused → Completed / Failed / Cancelled.
/// Task: Created → Active → Completed / Failed / Cancelled; never Paused.
#[derive(Debug, Clone, Copy, PartialEq, Eq, Hash, Structural)]
pub enum SessionState {
    Created,
    Active,
    /// Reachable by Persona sessions only.
    Paused,
    Completed,
    Failed,
    Cancelled,
}

/// Terminal session states.
pub open spec fn session_terminal(s: SessionState) -> bool {
    s == SessionState::Completed || s == SessionState::Failed || s == SessionState::Cancelled
}

/// The session transition table, which depends on the agent class.
pub open spec fn session_step(from: SessionState, to: SessionState, class: AgentClass) -> bool {
    match (from, to) {
        (SessionState::Created, SessionState::Active) => true,
        (SessionState::Active, SessionState::Completed) => true,
        (SessionState::Active, SessionState::Failed) => true,
        (SessionState::Active, SessionState::Paused) => class == AgentClass::Persona,
        (SessionState::Paused, SessionState::Active) => class == AgentClass::Persona,
        (SessionState::Paused, SessionState::Completed) => class == AgentClass::Persona,
        (SessionState::Paused, SessionState::Failed) => class == AgentClass::Persona,
        (_, SessionState::Cancelled) => !session_terminal(from),
        _ => false,
    }
}

/// The name under which a session state is reported.
pub open spec fn session_state_name(s: SessionState) -> Seq<char> {
    match s {
        SessionState::Created => "Created"@,
        SessionState::Active => "Active"@,
        SessionState::Paused => "Paused"@,
        SessionState::Completed => "Completed"@,
        SessionState::Failed => "Failed"@,
        SessionState::Cancelled => "Cancelled"@,
    }
}

impl SessionState {
    /// Whether a session of `agent_class` may pause now: only an active Persona session may.
    pub fn can_pause(&self, agent_class: AgentClass) -> (r: bool)
        ensures
            r == (agent_class == AgentClass::Persona && *self == SessionState::Active),
    {
        agent_class == AgentClass::Persona && *self == SessionState::Active
    }

    /// Whether the transition table of `agent_class` holds a move from `self` to `target`.
    pub fn can_transition_to(&self, target: &SessionState, agent_class: AgentClass) -> (r: bool)
        ensures
            r == session_step(*self, *target, agent_class),
    {
        match (self, target, agent_class) {
            (SessionState::Created, SessionState::Active, _) => true,
            (SessionState::Active, SessionState::Completed, _) => true,
            (SessionState::Active, SessionState::Failed, _) => true,
            (SessionState::Active, SessionState::Paused, AgentClass::Persona) => true,
            (SessionState::Paused, SessionState::Active, AgentClass::Persona) => true,
            (SessionState::Paused, SessionState::Completed, AgentClass::Persona) => true,
            (SessionState::Paused, SessionState::Failed, AgentClass::Persona) => true,
            (s, SessionState::Cancelled, _) => !s.is_terminal(),
            _ => false,
        }
    }

    /// The state reached by moving to `target`, or the error that refuses it.
    pub fn transition_to(self, target: SessionState, agent_class: AgentClass) -> (r: Result<
        SessionState,
        DomainError,
    >)
        ensures
            session_step(self, target, agent_class) ==> r == Ok::<SessionState, DomainError>(
                target,
            ),
            !session_step(self, target, agent_class) ==> r is Err && is_transition_error(
                r->Err_0,
                "AgentSession"@,
                session_state_name(self),
                session_state_name(target),
            ),
    {
        if self.can_transition_to(&target, agent_class) {
            Ok(target)
        } else {
            Err(
                DomainError::InvalidStateTransition {
                    entity: String::from_str("AgentSession"),
                    from: self.name(),
                    to: target.name(),
                },
            )
        }
    }

    /// Whether the state is terminal: Completed, Failed or Cancelled.
    pub fn is_terminal(&self) -> (r: bool)
        ensures
            r == session_terminal(*self),
    {
        matches!(self, SessionState::Completed | SessionState::Failed | SessionState::Cancelled)
    }

    /// Whether the session is running: only `Active` is.
    pub fn is_active(&self) -> (r: bool)
        ensures
            r == (*self == SessionState::Active),
    {
        matches!(self, SessionState::Active)
    }

    /// The state's name, as errors report it.
    pub fn name(&self) -> (r: String)
        ensures
            r@ == session_state_name(*self),
    {
        match self {
            SessionState::Created => String::from_str("Created"),
            SessionState::Active => String::from_str("Active"),
            SessionState::Paused => String::from_str("Paused"),
            SessionState::Completed => String::from_str("Completed"),
            SessionState::Failed => String::from_str("Failed"),
            SessionState::Cancelled => String::from_str("Cancelled"),
        }
    }
}

impl Default for SessionState {
    fn default() -> (r: Self)
        ensures
            r == SessionState::Created,
    {
        SessionState::Created
    }
}

/// Issued is final: the table holds no move out of it.
pub proof fn lemma_issued_is_final(target: DeliverableState)
    ensures
        !deliverable_step(DeliverableState::Issued, target),
{
}

/// A Task session never reaches Paused: no source state moves there.
pub proof fn lemma_task_never_pauses(from: SessionState)
    ensures
        !session_step(from, SessionState::Paused, AgentClass::Task),
{
}

/// Cancellation is legal exactly from the non-terminal states, whatever the class.
pub proof fn lemma_cancel_exactly_when_live(from: SessionState, class: AgentClass)
    ensures
        session_step(from, SessionState::Cancelled, class) == !session_terminal(from),
{
}

} // verus!
