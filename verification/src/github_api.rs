use vstd::prelude::*;

verus! {

/// The `User-Agent` header of the blocking repository request; the GitHub API
/// refuses requests without one.
pub const REPOS_USER_AGENT: &'static str = "github-dashboard-rust-app-blocking";

/// The `Accept` header of the blocking repository request: version 3 of the API.
pub const REPOS_ACCEPT: &'static str = "application/vnd.github.v3+json";

/// The address of a user's public repositories in the GitHub API.
pub open spec fn user_repos_url(username: Seq<char>) -> Seq<char> {
    "https://api.github.com/users/"@ + username + "/repos"@
}

/// The address of `username`'s public repositories. An empty username gives an
/// address that the API answers with 404, which the fetch reports as an error.
pub fn repos_url(username: &str) -> (url: String)
    ensures
        url@ == user_repos_url(username@),
{
    let mut url = String::from_str("https://api.github.com/users/");
    url.append(username);
    url.append("/repos");
    url
}

/// Whether the API module is present; it always is.
pub fn api_exists() -> (present: bool)
    ensures
        present,
{
    true
}

} // verus!
