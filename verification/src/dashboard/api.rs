use vstd::prelude::*;
use crate::status::{status_line, status_text};

verus! {

/// The GitHub API address of the authenticated user's repositories.
pub const USER_REPOS_URL: &'static str = "https://api.github.com/user/repos";

/// The `User-Agent` header of the dashboard's requests.
pub const CLIENT_USER_AGENT: &'static str = "egui-client";

/// The address of the branches of `owner`'s repository `repo_name`.
pub open spec fn branches_address(owner: Seq<char>, repo_name: Seq<char>) -> Seq<char> {
    "https://api.github.com/repos/"@ + owner + "/"@ + repo_name + "/branches"@
}

/// The address of the branches of `owner`'s repository `repo_name`.
pub fn branches_url(owner: &str, repo_name: &str) -> (url: String)
    ensures
        url@ == branches_address(owner@, repo_name@),
{
    let mut url = String::from_str("https://api.github.com/repos/");
    url.append(owner);
    url.append("/");
    url.append(repo_name);
    url.append("/branches");
    url
}

/// The message of a request that could not be sent: "Request error: " and
/// the error's text.
pub fn request_error(detail: &str) -> (message: String)
    ensures
        message@ == "Request error: "@ + detail@,
{
    let mut message = String::from_str("Request error: ");
    message.append(detail);
    message
}

/// The message of a reply whose body is not the expected JSON:
/// "JSON parse error: " and the parser's text.
pub fn json_error(detail: &str) -> (message: String)
    ensures
        message@ == "JSON parse error: "@ + detail@,
{
    let mut message = String::from_str("JSON parse error: ");
    message.append(detail);
    message
}

/// The message of a repository listing answered with a failure status:
/// "GitHub API error: " and the status as it prints.
pub fn repos_status_error(code: u16) -> (message: String)
    requires
        100 <= code <= 999,
    ensures
        message@ == "GitHub API error: "@ + status_line(code),
{
    let mut message = String::from_str("GitHub API error: ");
    let status = status_text(code);
    message.append(status.as_str());
    message
}

/// The message of a branch listing answered with a failure status:
/// "GitHub API error: ", the status as it prints, " - " and the reply's body.
pub fn branches_status_error(code: u16, body: &str) -> (message: String)
    requires
        100 <= code <= 999,
    ensures
        message@ == "GitHub API error: "@ + status_line(code) + " - "@ + body@,
{
    let mut message = repos_status_error(code);
    message.append(" - ");
    message.append(body);
    message
}

} // verus!
