use vstd::prelude::*;

verus! {

/// The owner of a repository.
#[derive(Debug, Clone)]
pub struct OwnerInfo {
    pub login: String,
}

/// A repository of the authenticated user, with its counters and owner.
#[derive(Debug, Clone)]
pub struct Repo {
    pub name: String,
    pub stargazers_count: u32,
    pub forks_count: u32,
    pub open_issues_count: u32,
    pub owner: OwnerInfo,
}

/// The commit at the tip of a branch.
#[derive(Debug)]
pub struct CommitInfo {
    pub sha: String,
}

/// A branch of a repository and the commit at its tip.
#[derive(Debug)]
pub struct BranchInfo {
    pub name: String,
    pub commit: CommitInfo,
}

} // verus!
