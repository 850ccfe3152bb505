//! The configuration record that the process is started with.
//!
//! Reading and validating the record is left to the caller; the library
//! takes it as it is and never reads it again.

use crate::engine::{Engine, EngineView, Phase};
use crate::remote::{RemoteDescriptor, RemoteDescriptorView};
use vstd::prelude::*;

verus! {

/// What the process is configured with: the working copy, the repository
/// and branch that it follows, the token, and how long the poll loop sleeps
/// between two cycles.
///
/// The repository is named in one of two ways. Where `query_url` and
/// `repository_host` are both given they address it in full; otherwise the
/// organization, the project and the repository name it on the hosting
/// service.
#[derive(Debug)]
pub struct AppConfig {
    pub repo_path: String,
    pub organization: String,
    pub project: String,
    pub repository: String,
    pub target_branch: String,
    pub pat: String,
    pub check_interval_seconds: u64,
    pub query_url: Option<String>,
    pub repository_host: Option<String>,
}

impl AppConfig {
    /// The remote that the record describes.
    pub open spec fn remote_view(&self) -> RemoteDescriptorView {
        match (self.query_url, self.repository_host) {
            (Some(query_url), Some(repository_host)) => RemoteDescriptorView::Direct {
                query_url: query_url@,
                repository_host: repository_host@,
                branch: self.target_branch@,
                token: self.pat@,
            },
            _ => RemoteDescriptorView::Hosted {
                organization: self.organization@,
                project: self.project@,
                repository: self.repository@,
                branch: self.target_branch@,
                token: self.pat@,
            },
        }
    }

    /// The descriptor of the remote that the record describes.
    pub fn remote(&self) -> (remote: RemoteDescriptor)
        ensures
            remote@ == self.remote_view(),
    {
        match (&self.query_url, &self.repository_host) {
            (Some(query_url), Some(repository_host)) => RemoteDescriptor::Direct {
                query_url: query_url.clone(),
                repository_host: repository_host.clone(),
                branch: self.target_branch.clone(),
                token: self.pat.clone(),
            },
            _ => RemoteDescriptor::Hosted {
                organization: self.organization.clone(),
                project: self.project.clone(),
                repository: self.repository.clone(),
                branch: self.target_branch.clone(),
                token: self.pat.clone(),
            },
        }
    }

    /// An engine for the working copy and the remote of the record, with no
    /// cycle open.
    pub fn engine(&self) -> (engine: Engine)
        ensures
            engine@ == (EngineView {
                repo_path: self.repo_path@,
                remote: self.remote_view(),
                phase: Phase::Idle,
                remote_id: Seq::empty(),
                local_id: Seq::empty(),
            }),
    {
        Engine::new(self.repo_path.clone(), self.remote())
    }
}

} // verus!
