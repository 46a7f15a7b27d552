use github_dashboard::dashboard::api::{
    branches_status_error, branches_url, json_error, repos_status_error, request_error,
    CLIENT_USER_AGENT, USER_REPOS_URL,
};
use github_dashboard::dashboard::labels::{
    branch_line, branches_heading, fetch_error_label, repo_label, short_sha,
};
use github_dashboard::dashboard::panel::{BranchBody, DashboardPanel};
use github_dashboard::dashboard::types::{BranchInfo, CommitInfo, OwnerInfo, Repo};
use github_dashboard::dashboard::DashboardApp;

fn repo(name: &str, owner: &str) -> Repo {
    Repo {
        name: name.to_string(),
        stargazers_count: 42,
        forks_count: 7,
        open_issues_count: 0,
        owner: OwnerInfo { login: owner.to_string() },
    }
}

fn branch(name: &str, sha: &str) -> BranchInfo {
    BranchInfo { name: name.to_string(), commit: CommitInfo { sha: sha.to_string() } }
}

fn saved_app() -> DashboardApp {
    let mut app = DashboardApp::default();
    app.set_github_token("ghp_secret".to_string());
    app.save_token();
    app
}

#[test]
fn test_deserialize_branch_info() {
    let json_data = r#"
        {
          "name": "feature/new-ux",
          "commit": {
            "sha": "a1b2c3d4e5f6a7b8c9d0e1f2a3b4c5d6e7f8g9h0",
            "url": "https://api.github.com/repos/user/repo/commits/a1b2c3d4e5f6a7b8c9d0e1f2a3b4c5d6e7f8g9h0"
          },
          "protected": false
        }
        "#;
    let result: Result<serde_json::Value, _> = serde_json::from_str(json_data);
    assert!(result.is_ok(), "Failed to deserialize BranchInfo: {:?}", result.err());
    let value = result.unwrap();
    let branch_info = BranchInfo {
        name: value["name"].as_str().unwrap().to_string(),
        commit: CommitInfo { sha: value["commit"]["sha"].as_str().unwrap().to_string() },
    };
    assert_eq!(branch_info.name, "feature/new-ux");
    assert_eq!(branch_info.commit.sha, "a1b2c3d4e5f6a7b8c9d0e1f2a3b4c5d6e7f8g9h0");
    assert_eq!(branch_line(&branch_info), "🌳 feature/new-ux (commit: a1b2c3d)");
}

#[test]
fn new_dashboard_asks_for_token() {
    let app = DashboardApp::default();
    assert!(!app.token_saved());
    assert_eq!(app.github_token(), "");
    assert_eq!(app.repo_count(), 0);
    assert!(matches!(app.panel(), DashboardPanel::Nothing));
}

#[test]
fn empty_token_is_not_saved() {
    let mut app = DashboardApp::default();
    app.save_token();
    assert!(!app.token_saved());
    let mut app = DashboardApp::default();
    assert_eq!(app.start_repo_fetch(), None);
    app.set_github_token("t".to_string());
    app.save_token();
    assert!(app.token_saved());
}

#[test]
fn repositories_are_fetched_once() {
    let mut app = saved_app();
    assert_eq!(app.start_repo_fetch(), Some("ghp_secret".to_string()));
    assert!(matches!(app.panel(), DashboardPanel::FetchingRepositories));
    assert_eq!(app.start_repo_fetch(), None);
    app.receive_repos(Ok(vec![repo("a", "me")]));
    assert_eq!(app.start_repo_fetch(), None);
    assert!(matches!(app.panel(), DashboardPanel::SelectRepository));
}

#[test]
fn repository_error_keeps_list() {
    let mut app = saved_app();
    app.start_repo_fetch();
    assert_eq!(app.fetch_error_line(), None);
    app.receive_repos(Ok(vec![repo("a", "me"), repo("b", "you")]));
    app.receive_repos(Err("GitHub API error: 401 Unauthorized".to_string()));
    assert_eq!(app.repo_count(), 2);
    assert_eq!(
        app.fetch_error_line(),
        Some("❌ Error: GitHub API error: 401 Unauthorized".to_string())
    );
    app.receive_repos(Ok(vec![]));
    assert_eq!(app.fetch_error_line(), None);
    assert_eq!(app.repo_count(), 0);
    // The answered fetch still counts as under way, as its channel stays open.
    assert!(matches!(app.panel(), DashboardPanel::FetchingRepositories));
}

#[test]
fn selecting_a_repository_loads_its_branches_once() {
    let mut app = saved_app();
    app.start_repo_fetch();
    app.receive_repos(Ok(vec![repo("alpha", "me"), repo("beta", "org")]));
    assert_eq!(
        app.repo_entry(1),
        ("📦 beta (Owner: org) | ⭐ 42 | 🍴 7 | 🐞 0".to_string(), false)
    );
    assert!(app.start_branch_fetch().is_none());
    app.click_repo(1);
    assert!(app.repo_entry(1).1);
    assert!(!app.repo_entry(0).1);
    match app.panel() {
        DashboardPanel::Branches { heading, body } => {
            assert_eq!(heading, "Branches for beta:");
            assert!(matches!(body, BranchBody::Loading));
        },
        _ => panic!("branches expected"),
    }
    let request = app.start_branch_fetch().unwrap();
    assert_eq!(request.owner, "org");
    assert_eq!(request.repo_name, "beta");
    assert_eq!(request.token, "ghp_secret");
    assert!(app.start_branch_fetch().is_none());
    app.click_repo(1);
    assert!(app.start_branch_fetch().is_none());
}

fn selected_app() -> (DashboardApp, github_dashboard::dashboard::panel::BranchRequest) {
    let mut app = saved_app();
    app.start_repo_fetch();
    app.receive_repos(Ok(vec![repo("alpha", "me"), repo("beta", "org")]));
    app.click_repo(0);
    let request = app.start_branch_fetch().unwrap();
    (app, request)
}

#[test]
fn branch_answers_end_loading() {
    let (mut app, request) = selected_app();
    app.receive_branches(
        &request,
        Ok(vec![branch("main", "0123456789abcdef"), branch("dev", "abc")]),
    );
    assert_eq!(app.branch_count(), 2);
    assert_eq!(app.branch_entry(0), "🌳 main (commit: 0123456)");
    assert_eq!(app.branch_entry(1), "🌳 dev (commit: abc)");
    match app.panel() {
        DashboardPanel::Branches { body, .. } => assert!(matches!(body, BranchBody::Listed)),
        _ => panic!("branches expected"),
    }
    // A second answer is not awaited any more.
    app.receive_branches(&request, Ok(vec![]));
    assert_eq!(app.branch_count(), 2);

    let (mut app, request) = selected_app();
    app.receive_branches(&request, Err("GitHub API error: 404 Not Found - {}".to_string()));
    assert_eq!(app.branch_count(), 0);
    match app.panel() {
        DashboardPanel::Branches { body: BranchBody::Failed(line), .. } => {
            assert_eq!(line, "❌ Error fetching branches: GitHub API error: 404 Not Found - {}");
        },
        _ => panic!("failure expected"),
    }

    let (mut app, request) = selected_app();
    app.receive_branches(&request, Ok(vec![]));
    match app.panel() {
        DashboardPanel::Branches { body, .. } => assert!(matches!(body, BranchBody::NoBranches)),
        _ => panic!("branches expected"),
    }
}

#[test]
fn answer_for_earlier_selection_is_ignored() {
    let (mut app, request_alpha) = selected_app();
    app.click_repo(1);
    app.receive_branches(&request_alpha, Ok(vec![branch("stale", "0000000")]));
    assert_eq!(app.branch_count(), 0);
    let request_beta = app.start_branch_fetch().unwrap();
    app.receive_branches(&request_alpha, Err("late".to_string()));
    match app.panel() {
        DashboardPanel::Branches { body, .. } => assert!(matches!(body, BranchBody::Loading)),
        _ => panic!("branches expected"),
    }
    app.receive_branches(&request_beta, Ok(vec![branch("main", "1111111")]));
    assert_eq!(app.branch_count(), 1);
    assert_eq!(app.branch(0).name, "main");
}

#[test]
fn saved_token_does_not_change() {
    let mut app = saved_app();
    app.set_github_token("other".to_string());
    assert_eq!(app.github_token(), "ghp_secret");
    assert_eq!(app.start_repo_fetch(), Some("ghp_secret".to_string()));
}

#[test]
fn hashes_show_seven_bytes() {
    assert_eq!(short_sha("a1b2c3d4e5f6"), "a1b2c3d");
    assert_eq!(short_sha("a1b2c3d"), "a1b2c3d");
    assert_eq!(short_sha("a1"), "a1");
    assert_eq!(short_sha(""), "");
    assert_eq!(short_sha("ééé-x"), "ééé-");
    assert_eq!(short_sha("ééé"), "ééé");
}

#[test]
fn dashboard_texts() {
    assert_eq!(
        repo_label(&repo("alpha", "me")),
        "📦 alpha (Owner: me) | ⭐ 42 | 🍴 7 | 🐞 0"
    );
    assert_eq!(fetch_error_label("boom"), "❌ Error: boom");
    assert_eq!(branches_heading("alpha"), "Branches for alpha:");
}

#[test]
fn request_addresses_and_messages() {
    assert_eq!(USER_REPOS_URL, "https://api.github.com/user/repos");
    assert_eq!(CLIENT_USER_AGENT, "egui-client");
    assert_eq!(branches_url("octocat", "hello"), "https://api.github.com/repos/octocat/hello/branches");
    assert_eq!(request_error("timed out"), "Request error: timed out");
    assert_eq!(json_error("missing field `name`"), "JSON parse error: missing field `name`");
    assert_eq!(repos_status_error(401), "GitHub API error: 401 Unauthorized");
    assert_eq!(
        branches_status_error(404, "{\"message\":\"Not Found\"}"),
        "GitHub API error: 404 Not Found - {\"message\":\"Not Found\"}"
    );
}
