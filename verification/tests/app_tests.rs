use github_dashboard::app::{GitHubApp, Route};
use github_dashboard::github_api::{api_exists, repos_url, REPOS_ACCEPT, REPOS_USER_AGENT};
use github_dashboard::pages::repositories::{
    description_text, empty_list_message, fetch_button_enabled, language_label, stars_label,
    status_label,
};
use github_dashboard::pages::settings::current_username_label;
use github_dashboard::state::{state_exists, RepositoryInfo};

fn repo(description: &str, language: &str, stars: u32) -> RepositoryInfo {
    RepositoryInfo {
        name: "hello-world".to_string(),
        html_url: "https://github.com/octocat/hello-world".to_string(),
        description: description.to_string(),
        language: language.to_string(),
        stargazers_count: stars,
    }
}

#[test]
fn modules_are_present() {
    assert!(state_exists());
    assert!(api_exists());
}

#[test]
fn repos_address_and_headers() {
    assert_eq!(repos_url("octocat"), "https://api.github.com/users/octocat/repos");
    assert_eq!(repos_url(""), "https://api.github.com/users//repos");
    assert_eq!(REPOS_USER_AGENT, "github-dashboard-rust-app-blocking");
    assert_eq!(REPOS_ACCEPT, "application/vnd.github.v3+json");
}

#[test]
fn new_app_starts_on_dashboard() {
    let app = GitHubApp::new();
    assert_eq!(app.current_route(), Route::Dashboard);
    assert_eq!(app.github_username(), "");
    assert!(app.repositories().is_empty());
    assert_eq!(app.repo_fetch_status(), "Idle");
}

#[test]
fn navigation_labels_in_order() {
    let routes = Route::nav_order();
    assert_eq!(
        routes,
        vec![Route::Dashboard, Route::Repositories, Route::Issues, Route::Activity, Route::Settings]
    );
    let labels: Vec<&str> = routes.iter().map(|r| r.nav_label()).collect();
    assert_eq!(labels, vec!["Dashboard", "Repositories", "Issues & PRs", "Activity Feed", "Settings"]);
}

#[test]
fn last_click_wins() {
    let mut app = GitHubApp::new();
    app.navigate(Route::Issues);
    app.navigate(Route::Settings);
    assert_eq!(app.current_route(), Route::Settings);
    let selected: Vec<bool> = Route::nav_order().into_iter().map(|r| app.is_selected(r)).collect();
    assert_eq!(selected, vec![false, false, false, false, true]);
}

#[test]
fn blank_username_is_refused() {
    let mut app = GitHubApp::new();
    app.set_github_username("  ".to_string());
    assert_eq!(app.trigger_repo_fetch(), None);
    assert_eq!(app.repo_fetch_status(), "Error: Username is empty");
    assert_eq!(
        empty_list_message(app.repo_fetch_status()),
        Some("Please enter a GitHub username in the Settings page.")
    );
}

#[test]
fn fetch_runs_then_reports() {
    let mut app = GitHubApp::new();
    app.set_github_username("octocat".to_string());
    assert_eq!(app.trigger_repo_fetch(), Some("octocat".to_string()));
    assert_eq!(app.repo_fetch_status(), "Fetching...");
    assert!(!fetch_button_enabled(app.repo_fetch_status()));
    assert_eq!(empty_list_message(app.repo_fetch_status()), Some("Loading repositories..."));
    app.finish_repo_fetch(Ok(vec![repo("", "", 3)]));
    assert_eq!(app.repo_fetch_status(), "Success");
    assert_eq!(app.repositories().len(), 1);
    assert!(fetch_button_enabled(app.repo_fetch_status()));
    app.finish_repo_fetch(Err("HTTP status client error (404 Not Found)".to_string()));
    assert_eq!(app.repo_fetch_status(), "Error: HTTP status client error (404 Not Found)");
    assert_eq!(app.repositories().len(), 1);
    assert_eq!(empty_list_message(app.repo_fetch_status()), None);
    app.finish_repo_fetch(Ok(vec![]));
    assert_eq!(
        empty_list_message(app.repo_fetch_status()),
        Some("No repositories found for the user, or none match criteria.")
    );
}

#[test]
fn repositories_page_texts() {
    assert_eq!(status_label("Idle"), "Status: Idle");
    assert_eq!(
        empty_list_message("Idle"),
        Some("Enter GitHub username in Settings and click 'Fetch Repositories'.")
    );
    assert_eq!(empty_list_message("Idle "), None);
    assert_eq!(
        empty_list_message("Success: No repositories found"),
        Some("No repositories found for the user, or none match criteria.")
    );
    assert_eq!(empty_list_message("Error: API Error"), None);
    assert!(fetch_button_enabled("Fetching"));
    let bare = repo("", "", 0);
    assert_eq!(description_text(&bare), "No description provided.");
    assert_eq!(language_label(&bare), "Language: N/A");
    assert_eq!(stars_label(&bare), "Stars: 0");
    let full = repo("My first repository", "Rust", 1523);
    assert_eq!(description_text(&full), "My first repository");
    assert_eq!(language_label(&full), "Language: Rust");
    assert_eq!(stars_label(&full), "Stars: 1523");
}

#[test]
fn settings_page_texts() {
    assert_eq!(current_username_label("octocat"), "Current username: octocat");
    assert_eq!(current_username_label(""), "Current username: ");
}
