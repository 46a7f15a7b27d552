use vstd::prelude::*;
use crate::pages::repositories::{empty_list_note, fetching_status};
use crate::state::RepositoryInfo;
use crate::text::{is_blank, is_blank_text};

verus! {

/// The pages of the application, one per entry of the navigation panel.
#[derive(Debug, PartialEq, Eq, Structural, Clone, Copy)]
pub enum Route {
    Dashboard,
    Repositories,
    Issues,
    Activity,
    Settings,
}

/// The routes in the order in which the navigation panel lists them.
pub open spec fn nav_routes() -> Seq<Route> {
    seq![Route::Dashboard, Route::Repositories, Route::Issues, Route::Activity, Route::Settings]
}

/// The text of a route's entry in the navigation panel.
pub open spec fn nav_text(route: Route) -> Seq<char> {
    match route {
        Route::Dashboard => "Dashboard"@,
        Route::Repositories => "Repositories"@,
        Route::Issues => "Issues & PRs"@,
        Route::Activity => "Activity Feed"@,
        Route::Settings => "Settings"@,
    }
}

impl Route {
    /// The routes in the order of the navigation panel.
    pub fn nav_order() -> (routes: Vec<Route>)
        ensures
            routes@ == nav_routes(),
    {
        let routes = vec![
            Route::Dashboard,
            Route::Repositories,
            Route::Issues,
            Route::Activity,
            Route::Settings,
        ];
        assert(routes@ =~= nav_routes());
        routes
    }

    /// The text of this route's entry in the navigation panel.
    pub fn nav_label(self) -> (label: &'static str)
        ensures
            label@ == nav_text(self),
    {
        match self {
            Route::Dashboard => "Dashboard",
            Route::Repositories => "Repositories",
            Route::Issues => "Issues & PRs",
            Route::Activity => "Activity Feed",
            Route::Settings => "Settings",
        }
    }
}

/// The state of the application, as its contracts speak of it.
pub struct GitHubAppState {
    pub current_route: Route,
    pub github_username: Seq<char>,
    pub repositories: Seq<RepositoryInfo>,
    pub repo_fetch_status: Seq<char>,
}

/// The main application: the page on show, the GitHub user whose repositories
/// are listed, the repositories last fetched, and the state of the fetch.
pub struct GitHubApp {
    current_route: Route,
    github_username: String,
    repositories: Vec<RepositoryInfo>,
    repo_fetch_status: String,
}

impl View for GitHubApp {
    type V = GitHubAppState;

    open spec fn view(&self) -> GitHubAppState {
        self.state()
    }
}

/// The state in which the application starts: the dashboard, no username, no
/// repositories, and an idle fetch.
pub open spec fn initial_state() -> GitHubAppState {
    GitHubAppState {
        current_route: Route::Dashboard,
        github_username: Seq::empty(),
        repositories: Seq::empty(),
        repo_fetch_status: "Idle"@,
    }
}

/// The state after the navigation entry of `route` is clicked.
pub open spec fn after_navigate(s: GitHubAppState, route: Route) -> GitHubAppState {
    GitHubAppState { current_route: route, ..s }
}

/// The username that a fetch asks for, or `None` when the username is blank.
pub open spec fn fetch_request(s: GitHubAppState) -> Option<Seq<char>> {
    if is_blank_text(s.github_username) {
        None
    } else {
        Some(s.github_username)
    }
}

/// The state after the "Fetch Repositories" button is pressed: a blank username
/// is refused with an error status; otherwise the fetch is in progress.
pub open spec fn after_trigger(s: GitHubAppState) -> GitHubAppState {
    if is_blank_text(s.github_username) {
        GitHubAppState { repo_fetch_status: "Error: Username is empty"@, ..s }
    } else {
        GitHubAppState { repo_fetch_status: fetching_status(), ..s }
    }
}

/// The state after a fetch ends: the repositories it found and a success
/// status, or the previous repositories and "Error: " with the error's text.
pub open spec fn after_finish(
    s: GitHubAppState,
    result: Result<Seq<RepositoryInfo>, Seq<char>>,
) -> GitHubAppState {
    match result {
        Ok(repos) => GitHubAppState { repositories: repos, repo_fetch_status: "Success"@, ..s },
        Err(msg) => GitHubAppState { repo_fetch_status: "Error: "@ + msg, ..s },
    }
}

impl GitHubApp {
    /// The state that the contracts speak of.
    pub closed spec fn state(&self) -> GitHubAppState {
        GitHubAppState {
            current_route: self.current_route,
            github_username: self.github_username@,
            repositories: self.repositories@,
            repo_fetch_status: self.repo_fetch_status@,
        }
    }

    /// A new application, on the dashboard page.
    pub fn new() -> (app: Self)
        ensures
            app@ == initial_state(),
    {
        GitHubApp {
            current_route: Route::Dashboard,
            github_username: String::new(),
            repositories: Vec::new(),
            repo_fetch_status: String::from_str("Idle"),
        }
    }

    /// The page on show.
    pub fn current_route(&self) -> (route: Route)
        ensures
            route == self@.current_route,
    {
        self.current_route
    }

    /// Whether the navigation entry of `route` is shown selected: it is the
    /// page on show.
    pub fn is_selected(&self, route: Route) -> (selected: bool)
        ensures
            selected == (self@.current_route == route),
    {
        self.current_route == route
    }

    /// The navigation entry of `route` was clicked: its page is shown.
    pub fn navigate(&mut self, route: Route)
        ensures
            final(self)@ == after_navigate(old(self)@, route),
            final(self)@.current_route == route,
            final(self)@.github_username == old(self)@.github_username,
            final(self)@.repositories == old(self)@.repositories,
            final(self)@.repo_fetch_status == old(self)@.repo_fetch_status,
    {
        self.current_route = route;
    }

    /// The GitHub username entered in the settings.
    pub fn github_username(&self) -> (name: &String)
        ensures
            name@ == self@.github_username,
    {
        &self.github_username
    }

    /// The settings' username field now holds `name`.
    pub fn set_github_username(&mut self, name: String)
        ensures
            final(self)@ == (GitHubAppState { github_username: name@, ..old(self)@ }),
    {
        self.github_username = name;
    }

    /// The repositories last fetched.
    pub fn repositories(&self) -> (repos: &Vec<RepositoryInfo>)
        ensures
            repos@ == self@.repositories,
    {
        &self.repositories
    }

    /// The state of the repository fetch, as the repositories page shows it.
    pub fn repo_fetch_status(&self) -> (status: &String)
        ensures
            status@ == self@.repo_fetch_status,
    {
        &self.repo_fetch_status
    }

    /// The "Fetch Repositories" button was pressed. Returns the username whose
    /// repositories are to be fetched, or `None` when the username is blank.
    pub fn trigger_repo_fetch(&mut self) -> (request: Option<String>)
        ensures
            final(self)@ == after_trigger(old(self)@),
            match request {
                Some(name) => fetch_request(old(self)@) == Some(name@),
                None => fetch_request(old(self)@) is None,
            },
    {
        if is_blank(self.github_username.as_str()) {
            self.repo_fetch_status = String::from_str("Error: Username is empty");
            None
        } else {
            self.repo_fetch_status = String::from_str("Fetching...");
            Some(self.github_username.clone())
        }
    }

    /// A fetch ended with `result`: the repositories found, or the error's text.
    pub fn finish_repo_fetch(&mut self, result: Result<Vec<RepositoryInfo>, String>)
        ensures
            final(self)@ == after_finish(
                old(self)@,
                match result {
                    Ok(repos) => Ok(repos@),
                    Err(msg) => Err(msg@),
                },
            ),
    {
        match result {
            Ok(repos) => {
                self.repositories = repos;
                self.repo_fetch_status = String::from_str("Success");
            },
            Err(msg) => {
                let mut status = String::from_str("Error: ");
                status.append(msg.as_str());
                self.repo_fetch_status = status;
            },
        }
    }
}

/// Of several navigation clicks, the last one decides the page shown.
pub proof fn lemma_last_click_wins(s: GitHubAppState, first: Route, second: Route)
    ensures
        after_navigate(after_navigate(s, first), second) == after_navigate(s, second),
{
}

/// In every state exactly one entry of the navigation panel is shown selected.
pub proof fn lemma_one_entry_selected(s: GitHubAppState)
    ensures
        exists|i: int| 0 <= i < nav_routes().len() && nav_routes()[i] == s.current_route,
        forall|i: int, j: int|
            0 <= i < nav_routes().len() && 0 <= j < nav_routes().len() && nav_routes()[i]
                == s.current_route && nav_routes()[j] == s.current_route ==> i == j,
{
    let r = nav_routes();
    match s.current_route {
        Route::Dashboard => assert(r[0] == s.current_route),
        Route::Repositories => assert(r[1] == s.current_route),
        Route::Issues => assert(r[2] == s.current_route),
        Route::Activity => assert(r[3] == s.current_route),
        Route::Settings => assert(r[4] == s.current_route),
    }
}

/// Asking for the repositories of a blank username leaves the repository list
/// as it was and, when that list is empty, the page asks for a username.
pub proof fn lemma_blank_username_asks_for_one(s: GitHubAppState)
    requires
        is_blank_text(s.github_username),
    ensures
        fetch_request(s) is None,
        after_trigger(s).repositories == s.repositories,
        empty_list_note(after_trigger(s).repo_fetch_status) == Some(
            "Please enter a GitHub username in the Settings page."@,
        ),
{
    reveal_strlit("Error: Username is empty");
    reveal_strlit("Idle");
    reveal_strlit("Fetching");
    reveal_strlit("Success");
    let st = after_trigger(s).repo_fetch_status;
    assert(st[0] == 'E' && "Idle"@[0] == 'I' && "Fetching"@[0] == 'F' && "Success"@[0] == 'S');
    assert(st != "Idle"@);
    assert(!"Fetching"@.is_prefix_of(st));
    assert(!"Success"@.is_prefix_of(st));
    assert("Error: Username is empty"@.is_prefix_of(st));
}

/// Once a fetch is under way the fetch button is disabled and an empty list
/// reads as loading.
pub proof fn lemma_fetch_in_progress(s: GitHubAppState)
    requires
        !is_blank_text(s.github_username),
    ensures
        fetch_request(s) == Some(s.github_username),
        after_trigger(s).repo_fetch_status == fetching_status(),
        empty_list_note(after_trigger(s).repo_fetch_status) == Some("Loading repositories..."@),
{
    reveal_strlit("Fetching...");
    reveal_strlit("Idle");
    reveal_strlit("Fetching");
    let st = after_trigger(s).repo_fetch_status;
    assert(st[0] == 'F' && "Idle"@[0] == 'I');
    assert(st != "Idle"@);
    assert("Fetching"@.is_prefix_of(st));
}

/// A fetch that finds no repository leaves an empty list that reads as "none
/// found", and one that finds some shows exactly those.
pub proof fn lemma_fetch_success(s: GitHubAppState, repos: Seq<RepositoryInfo>)
    ensures
        after_finish(s, Ok(repos)).repositories == repos,
        repos.len() == 0 ==> empty_list_note(after_finish(s, Ok(repos)).repo_fetch_status)
            == Some("No repositories found for the user, or none match criteria."@),
{
    reveal_strlit("Success");
    reveal_strlit("Idle");
    reveal_strlit("Fetching");
    let st = after_finish(s, Ok(repos)).repo_fetch_status;
    assert(st[0] == 'S' && "Idle"@[0] == 'I' && "Fetching"@[0] == 'F');
    assert(st != "Idle"@);
    assert(!"Fetching"@.is_prefix_of(st));
    assert("Success"@.is_prefix_of(st));
}

/// Clicking the entry of a route shows that route, whichever it is and
/// whichever page was shown before, and touches nothing else; that entry is
/// then the selected one and every other entry is not.
pub proof fn lemma_navigate_shows_route(s: GitHubAppState, route: Route)
    ensures
        after_navigate(s, route).current_route == route,
        after_navigate(s, route).github_username == s.github_username,
        after_navigate(s, route).repositories == s.repositories,
        after_navigate(s, route).repo_fetch_status == s.repo_fetch_status,
        forall|i: int|
            0 <= i < nav_routes().len() ==> ((nav_routes()[i] == after_navigate(
                s,
                route,
            ).current_route) <==> (nav_routes()[i] == route)),
{
}

} // verus!
