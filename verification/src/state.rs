use vstd::prelude::*;

verus! {

/// Information about a single GitHub repository, as the user-repositories
/// listing of the GitHub API reports it. A description or language that the API
/// leaves null is the empty string.
#[derive(Debug, Clone)]
pub struct RepositoryInfo {
    pub name: String,
    pub html_url: String,
    pub description: String,
    pub language: String,
    pub stargazers_count: u32,
}

/// Whether the shared-state module is present; it always is.
pub fn state_exists() -> (present: bool)
    ensures
        present,
{
    true
}

} // verus!
