//! Values exchanged with the collaborators around the core: the workspace,
//! version control, the blob store, agent execution and identity.

use vstd::prelude::*;

use crate::clock::Timestamp;
use crate::ids::{ActorId, CommitHash};
use crate::path::FsPath;
use crate::session::SessionOutput;
use crate::write_guard::WriteScope;

verus! {

/// What an agent is run with.
#[derive(Debug, Clone)]
pub struct ExecutionContext {
    /// Root of the workspace.
    pub workspace_path: FsPath,
    /// The agent's instructions.
    pub agent_instructions: String,
    /// What the session may write.
    pub write_scope: WriteScope,
    /// The deliverable's folder, where the session is scoped to one.
    pub deliverable_path: Option<FsPath>,
    /// Further files to read for context.
    pub context_files: Vec<FsPath>,
}

/// Result of running a Task session.
#[derive(Debug, Clone)]
pub struct TaskResult {
    pub success: bool,
    pub outputs: Vec<SessionOutput>,
    pub log: String,
    pub error: Option<String>,
}

/// Handle to a running Persona session.
#[derive(Debug, Clone)]
pub struct PersonaSession {
    pub session_id: String,
    pub agent_name: String,
    pub conversation_history: Vec<ConversationTurn>,
}

/// One turn of a Persona conversation.
#[derive(Debug, Clone)]
pub struct ConversationTurn {
    pub role: ConversationRole,
    pub content: String,
}

/// Who spoke in a conversation turn.
#[derive(Debug, Clone, Copy, PartialEq, Eq, Structural)]
pub enum ConversationRole {
    Human,
    Agent,
    System,
}

/// Reply of a Persona session; `awaiting_input` signals that it waits for a human.
#[derive(Debug, Clone)]
pub struct PersonaResponse {
    pub content: String,
    pub awaiting_input: bool,
    pub outputs: Vec<SessionOutput>,
}

/// A commit as version control reports it.
#[derive(Debug, Clone)]
pub struct CommitInfo {
    pub hash: CommitHash,
    pub message: String,
    pub author_name: String,
    pub author_email: String,
    pub timestamp: Timestamp,
}

/// Identity claims of a validated token.
#[derive(Debug, Clone)]
pub struct IdentityClaims {
    pub actor_id: ActorId,
    pub email: Option<String>,
    pub name: Option<String>,
    pub roles: Vec<String>,
}

/// A change that a workspace watcher saw.
#[derive(Debug, Clone)]
pub struct FsChangeEvent {
    pub path: FsPath,
    pub change_type: FsChangeType,
}

/// Kind of workspace change.
#[derive(Debug, Clone, Copy, PartialEq, Eq, Structural)]
pub enum FsChangeType {
    Created,
    Modified,
    Deleted,
}

/// Failures that collaborators report.
#[derive(Debug, Clone)]
pub enum PortError {
    FileNotFound { path: FsPath },
    PermissionDenied { path: FsPath },
    Io { message: String },
    Git { message: String },
    BranchNotFound { branch: String },
    MergeConflict { files: Vec<FsPath> },
    BlobNotFound { hash: String },
    Storage { message: String },
    AgentExecution { message: String },
    AgentNotFound { name: String },
    SessionNotFound { id: String },
    InvalidToken { reason: String },
    AuthenticationRequired,
    Internal { message: String },
}

} // verus!
