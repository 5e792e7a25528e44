//! Agent sessions: the execution context of one agent invocation.

use vstd::prelude::*;

use crate::clock::{utc_now, Timestamp};
use crate::error::DomainError;
use crate::ids::{is_generated_id, ActorId, ContentHash, DeliverableId, PackageId, ProjectId, SessionId};
use crate::json::JsonValue;
use crate::path::FsPath;
use crate::state_machines::{is_transition_error, session_state_name, session_step, SessionState};
use crate::write_guard::WriteScope;

verus! {

/// Execution mode of an agent session, fixed for the session's life.
#[derive(Debug, Clone, Copy, PartialEq, Eq, Hash, Structural)]
pub enum AgentClass {
    /// Interactive; may pause for human input.
    Persona,
    /// Straight-through; never pauses.
    Task,
}

/// Place of an agent in the authority hierarchy.
#[derive(Debug, Clone, Copy, PartialEq, Eq, Hash, Structural)]
pub enum AgentType {
    /// Maintains standards and contracts.
    Architect,
    /// Orchestrates interactively.
    Manager,
    /// Executes bounded tasks.
    Specialist,
}

/// The entity a session operates on.
#[derive(Debug, Clone)]
pub enum SessionScope {
    Project { project_id: ProjectId },
    Package { package_id: PackageId },
    Deliverable { deliverable_id: DeliverableId },
}

/// Structured task input that a Task session starts from.
#[derive(Debug)]
pub struct SessionBrief {
    pub task_definition: String,
    pub scope_description: String,
    pub output_contract: Vec<String>,
    pub constraints: Vec<String>,
    pub success_criteria: Vec<String>,
    /// Free-form inputs; null where none were given.
    pub inputs: JsonValue,
}

/// An artifact that a session produced.
#[derive(Debug, Clone)]
pub struct SessionOutput {
    pub output_type: OutputType,
    pub path: FsPath,
    pub content_hash: ContentHash,
    pub description: Option<String>,
}

/// Kind of artifact that a session produced.
#[derive(Debug, Clone, Copy, PartialEq, Eq, Hash, Structural)]
pub enum OutputType {
    Document,
    Snapshot,
    Report,
    Metadata,
}

/// Execution context of one agent invocation.
#[derive(Debug)]
pub struct AgentSession {
    pub id: SessionId,
    pub agent_type: AgentType,
    pub agent_class: AgentClass,
    pub agent_name: String,
    pub scope: SessionScope,
    pub brief: Option<SessionBrief>,
    pub state: SessionState,
    pub write_scope: WriteScope,
    pub outputs: Vec<SessionOutput>,
    pub git_branch: Option<String>,
    pub started_at: Timestamp,
    pub completed_at: Option<Timestamp>,
    pub started_by: ActorId,
}

impl AgentSession {
    /// The session's invariant: a Task session carries a brief and is never
    /// paused, and its timestamps are well formed.
    pub open spec fn wf(&self) -> bool {
        &&& self.agent_class == AgentClass::Task ==> self.brief is Some && self.state
            != SessionState::Paused
        &&& self.started_at.wf()
        &&& self.completed_at matches Some(t) ==> t.wf()
    }

    /// A new Task session of a specialist, created now and not yet started.
    pub fn new_task(
        agent_name: &str,
        brief: SessionBrief,
        scope: SessionScope,
        write_scope: WriteScope,
        started_by: ActorId,
    ) -> (r: Self)
        ensures
            r.wf(),
            is_generated_id(r.id@, "session:"@),
            r.agent_type == AgentType::Specialist,
            r.agent_class == AgentClass::Task,
            r.agent_name@ == agent_name@,
            r.scope == scope,
            r.brief == Some(brief),
            r.state == SessionState::Created,
            r.write_scope == write_scope,
            r.outputs@.len() == 0,
            r.git_branch is None,
            r.started_at.wf(),
            r.completed_at is None,
            r.started_by == started_by,
    {
        AgentSession {
            id: SessionId::new(),
            agent_type: AgentType::Specialist,
            agent_class: AgentClass::Task,
            agent_name: String::from_str(agent_name),
            scope,
            brief: Some(brief),
            state: SessionState::Created,
            write_scope,
            outputs: Vec::new(),
            git_branch: None,
            started_at: utc_now(),
            completed_at: None,
            started_by,
        }
    }

    /// A new Persona session, created now and not yet started; it has no brief.
    pub fn new_persona(
        agent_name: &str,
        agent_type: AgentType,
        scope: SessionScope,
        write_scope: WriteScope,
        started_by: ActorId,
    ) -> (r: Self)
        ensures
            r.wf(),
            is_generated_id(r.id@, "session:"@),
            r.agent_type == agent_type,
            r.agent_class == AgentClass::Persona,
            r.agent_name@ == agent_name@,
            r.scope == scope,
            r.brief is None,
            r.state == SessionState::Created,
            r.write_scope == write_scope,
            r.outputs@.len() == 0,
            r.git_branch is None,
            r.started_at.wf(),
            r.completed_at is None,
            r.started_by == started_by,
    {
        AgentSession {
            id: SessionId::new(),
            agent_type,
            agent_class: AgentClass::Persona,
            agent_name: String::from_str(agent_name),
            scope,
            brief: None,
            state: SessionState::Created,
            write_scope,
            outputs: Vec::new(),
            git_branch: None,
            started_at: utc_now(),
            completed_at: None,
            started_by,
        }
    }

    /// The session with its version-control branch set.
    pub fn with_branch(self, branch: &str) -> (r: Self)
        ensures
            r.git_branch matches Some(b) && b@ == branch@,
            r == (AgentSession { git_branch: r.git_branch, ..self }),
            self.wf() ==> r.wf(),
    {
        let mut s = self;
        s.git_branch = Some(String::from_str(branch));
        s
    }

    /// Appends an output.
    pub fn add_output(&mut self, output: SessionOutput)
        ensures
            final(self).outputs@ == old(self).outputs@.push(output),
            *final(self) == (AgentSession { outputs: final(self).outputs, ..*old(self) }),
            old(self).wf() ==> final(self).wf(),
    {
        self.outputs.push(output);
    }

    /// Ends the session as Completed, now, where its class's transition table
    /// allows it; otherwise leaves it unchanged and reports the refused move.
    pub fn complete(&mut self) -> (r: Result<(), DomainError>)
        ensures
            session_step(old(self).state, SessionState::Completed, old(self).agent_class) ==> (r is Ok
                && (final(self).completed_at matches Some(t) && t.wf()) && *final(self) == (
            AgentSession {
                state: SessionState::Completed,
                completed_at: final(self).completed_at,
                ..*old(self)
            })),
            !session_step(old(self).state, SessionState::Completed, old(self).agent_class) ==> r is Err
                && *final(self) == *old(self) && is_transition_error(
                r->Err_0,
                "AgentSession"@,
                session_state_name(old(self).state),
                session_state_name(SessionState::Completed),
            ),
            old(self).wf() ==> final(self).wf(),
    {
        self.finish(SessionState::Completed)
    }

    /// Ends the session as Failed, now, where its class's transition table
    /// allows it; otherwise leaves it unchanged and reports the refused move.
    pub fn fail(&mut self) -> (r: Result<(), DomainError>)
        ensures
            session_step(old(self).state, SessionState::Failed, old(self).agent_class) ==> (r is Ok
                && (final(self).completed_at matches Some(t) && t.wf()) && *final(self) == (
            AgentSession {
                state: SessionState::Failed,
                completed_at: final(self).completed_at,
                ..*old(self)
            })),
            !session_step(old(self).state, SessionState::Failed, old(self).agent_class) ==> r is Err
                && *final(self) == *old(self) && is_transition_error(
                r->Err_0,
                "AgentSession"@,
                session_state_name(old(self).state),
                session_state_name(SessionState::Failed),
            ),
            old(self).wf() ==> final(self).wf(),
    {
        self.finish(SessionState::Failed)
    }

    /// Moves the session to the end state `end` and records the time, where the
    /// table allows it; otherwise leaves it unchanged and reports the move.
    fn finish(&mut self, end: SessionState) -> (r: Result<(), DomainError>)
        ensures
            session_step(old(self).state, end, old(self).agent_class) ==> (r is Ok
                && (final(self).completed_at matches Some(t) && t.wf()) && *final(self) == (
            AgentSession { state: end, completed_at: final(self).completed_at, ..*old(self) })),
            !session_step(old(self).state, end, old(self).agent_class) ==> r is Err && *final(self)
                == *old(self) && is_transition_error(
                r->Err_0,
                "AgentSession"@,
                session_state_name(old(self).state),
                session_state_name(end),
            ),
            old(self).wf() && end != SessionState::Paused ==> final(self).wf(),
    {
        match self.state.transition_to(end, self.agent_class) {
            Ok(s) => {
                self.state = s;
                self.completed_at = Some(utc_now());
                Ok(())
            },
            Err(e) => Err(e),
        }
    }

    /// Moves the session to `target` where its class's transition table allows
    /// it; otherwise leaves it unchanged and reports the refused move.
    pub fn transition_to(&mut self, target: SessionState) -> (r: Result<(), DomainError>)
        ensures
            session_step(old(self).state, target, old(self).agent_class) ==> r is Ok
                && *final(self) == (AgentSession { state: target, ..*old(self) }),
            !session_step(old(self).state, target, old(self).agent_class) ==> r is Err
                && *final(self) == *old(self) && is_transition_error(
                r->Err_0,
                "AgentSession"@,
                session_state_name(old(self).state),
                session_state_name(target),
            ),
            old(self).wf() ==> final(self).wf(),
    {
        match self.state.transition_to(target, self.agent_class) {
            Ok(s) => {
                self.state = s;
                Ok(())
            },
            Err(e) => Err(e),
        }
    }
}

} // verus!
