//! Domain core of a deliverable-production workspace: strongly typed
//! identities, the deliverable and agent-session lifecycles, the write-scope
//! guard and the session-brief parser.
//!
//! Every operation is a pure decision over its inputs; storage, version
//! control and agent execution stay with the caller.

pub mod brief_parser;
pub mod clock;
pub mod deliverable;
pub mod document;
pub mod error;
pub mod ids;
pub mod json;
pub mod package;
pub mod path;
pub mod ports;
pub mod project;
pub mod session;
pub mod state_machines;
pub mod text;
pub mod write_guard;

pub use brief_parser::BriefParser;
pub use clock::Timestamp;
pub use deliverable::{Deliverable, DocumentRef, DocumentType};
pub use document::{Document, DocumentState};
pub use error::DomainError;
pub use ids::{
    ActorId, ActorKind, CommitHash, ContentHash, DeliverableId, DocumentId, PackageId, ProjectId,
    SessionId,
};
pub use json::JsonValue;
pub use package::Package;
pub use path::FsPath;
pub use ports::{
    CommitInfo, ConversationRole, ConversationTurn, ExecutionContext, FsChangeEvent, FsChangeType,
    IdentityClaims, PersonaResponse, PersonaSession, PortError, TaskResult,
};
pub use project::Project;
pub use session::{
    AgentClass, AgentSession, AgentType, OutputType, SessionBrief, SessionOutput, SessionScope,
};
pub use state_machines::{DeliverableState, SessionState};
pub use text::encode;
pub use write_guard::{WriteGuard, WriteScope, WriteValidation, WriteViolation};
