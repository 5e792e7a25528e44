//! Projects: the aggregate root of a workspace.

use vstd::prelude::*;

use crate::clock::{utc_now, Timestamp};
use crate::ids::{is_generated_id, ActorId, ProjectId};
use crate::path::FsPath;

verus! {

/// A project: its workspace and, once known, its decomposition document.
#[derive(Debug, Clone)]
pub struct Project {
    pub id: ProjectId,
    pub name: String,
    pub description: Option<String>,
    pub workspace_path: FsPath,
    pub decomposition_path: Option<FsPath>,
    pub created_at: Timestamp,
    pub created_by: ActorId,
}

impl Project {
    /// A new project with a fresh identifier, created now by `created_by`.
    pub fn new(name: &str, workspace_path: FsPath, created_by: ActorId) -> (r: Self)
        ensures
            is_generated_id(r.id@, "proj:"@),
            r.name@ == name@,
            r.description is None,
            r.workspace_path == workspace_path,
            r.decomposition_path is None,
            r.created_at.wf(),
            r.created_by == created_by,
    {
        Project {
            id: ProjectId::new(),
            name: String::from_str(name),
            description: None,
            workspace_path,
            decomposition_path: None,
            created_at: utc_now(),
            created_by,
        }
    }

    /// The project with its description set.
    pub fn with_description(self, description: &str) -> (r: Self)
        ensures
            r.description matches Some(d) && d@ == description@,
            r == (Project { description: r.description, ..self }),
    {
        let mut p = self;
        p.description = Some(String::from_str(description));
        p
    }

    /// The project with its decomposition document set.
    pub fn with_decomposition(self, path: FsPath) -> (r: Self)
        ensures
            r == (Project { decomposition_path: Some(path), ..self }),
    {
        let mut p = self;
        p.decomposition_path = Some(path);
        p
    }
}

} // verus!
