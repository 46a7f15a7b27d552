use vstd::prelude::*;
use crate::state::RepositoryInfo;
use crate::text::{decimal, decimal_text, same_text, starts_with};

verus! {

/// The status that a fetch in progress shows.
pub open spec fn fetching_status() -> Seq<char> {
    "Fetching..."@
}

/// The "Fetch Repositories" button is enabled unless a fetch is in progress.
pub fn fetch_button_enabled(status: &str) -> (enabled: bool)
    ensures
        enabled == (status@ != fetching_status()),
{
    !same_text(status, "Fetching...")
}

/// The status line under the button: "Status: " and the status.
pub fn status_label(status: &str) -> (label: String)
    ensures
        label@ == "Status: "@ + status@,
{
    let mut label = String::from_str("Status: ");
    label.append(status);
    label
}

/// The note shown in place of an empty repository list, chosen by the status;
/// `None` for any other status, whose own line already says what went wrong.
pub open spec fn empty_list_note(status: Seq<char>) -> Option<Seq<char>> {
    if status == "Idle"@ {
        Some("Enter GitHub username in Settings and click 'Fetch Repositories'."@)
    } else if "Fetching"@.is_prefix_of(status) {
        Some("Loading repositories..."@)
    } else if "Success"@.is_prefix_of(status) {
        Some("No repositories found for the user, or none match criteria."@)
    } else if "Error: Username is empty"@.is_prefix_of(status) {
        Some("Please enter a GitHub username in the Settings page."@)
    } else {
        None
    }
}

/// The note for an empty repository list under the given status.
pub fn empty_list_message(status: &str) -> (note: Option<&'static str>)
    ensures
        match note {
            Some(n) => empty_list_note(status@) == Some(n@),
            None => empty_list_note(status@) is None,
        },
{
    if same_text(status, "Idle") {
        Some("Enter GitHub username in Settings and click 'Fetch Repositories'.")
    } else if starts_with(status, "Fetching") {
        Some("Loading repositories...")
    } else if starts_with(status, "Success") {
        Some("No repositories found for the user, or none match criteria.")
    } else if starts_with(status, "Error: Username is empty") {
        Some("Please enter a GitHub username in the Settings page.")
    } else {
        None
    }
}

/// The description line of a repository: its description, or
/// "No description provided." when it has none.
pub fn description_text(repo: &RepositoryInfo) -> (text: &str)
    ensures
        text@ == (if repo.description@.len() == 0 {
            "No description provided."@
        } else {
            repo.description@
        }),
{
    if repo.description.as_str().is_empty() {
        "No description provided."
    } else {
        repo.description.as_str()
    }
}

/// The language shown for a repository: its language, or "N/A" when it has none.
pub open spec fn shown_language(repo: RepositoryInfo) -> Seq<char> {
    if repo.language@.len() == 0 {
        "N/A"@
    } else {
        repo.language@
    }
}

/// The language line of a repository: "Language: " and the shown language.
pub fn language_label(repo: &RepositoryInfo) -> (label: String)
    ensures
        label@ == "Language: "@ + shown_language(*repo),
{
    let mut label = String::from_str("Language: ");
    if repo.language.as_str().is_empty() {
        label.append("N/A");
    } else {
        label.append(repo.language.as_str());
    }
    label
}

/// The star line of a repository: "Stars: " and its star count in decimal.
pub fn stars_label(repo: &RepositoryInfo) -> (label: String)
    ensures
        label@ == "Stars: "@ + decimal(repo.stargazers_count as nat),
{
    let mut label = String::from_str("Stars: ");
    let count = decimal_text(repo.stargazers_count as u64);
    label.append(count.as_str());
    label
}

} // verus!
