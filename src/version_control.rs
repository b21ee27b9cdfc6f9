//! Where a project's source lives.

use vstd::prelude::*;

verus! {

#[derive(Debug, Clone, PartialEq, Eq, PartialOrd, Ord, Hash)]
pub enum VersionControlRef {
    Github(GithubVersionControlRef),
}

#[derive(Debug, Clone, PartialEq, Eq, PartialOrd, Ord, Hash)]
pub enum GithubVersionControlRef {
    Normal { owner: String, repo: String },
    Fork {
        owner: String,
        repo: String,
        fork_owner: String,
        fork_repo: String,
        pull_requests: Vec<PullRequest>,
    },
}

#[derive(Debug, Clone, Copy, PartialEq, Eq, PartialOrd, Ord, Hash, Structural)]
pub enum PRStatus {
    Open,
    Closed,
    Merged,
}

#[derive(Debug, Clone, PartialEq, Eq, PartialOrd, Ord, Hash)]
pub struct PullRequest {
    pub id: u64,
    pub status: PRStatus,
    pub from_branch: String,
    pub to_branch: String,
}

} // verus!
