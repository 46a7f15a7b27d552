use vstd::prelude::*;
use vstd::utf8::encode_utf8;
use crate::dashboard::labels::{
    branch_error_label, branch_line, branch_text, branches_heading, fetch_error_label,
    repo_label, repo_text, sha_cut_ok,
};
use crate::dashboard::types::{BranchInfo, Repo};

verus! {

/// The characters of an optional text.
pub open spec fn text_of(o: Option<String>) -> Option<Seq<char>> {
    match o {
        Some(s) => Some(s@),
        None => None,
    }
}

/// The state of the dashboard, as its contracts speak of it. The two
/// `..._pending` flags say whether a fetch has been handed out whose result
/// has not come back yet.
pub struct DashboardState {
    pub github_token: Seq<char>,
    pub token_saved: bool,
    pub repos: Seq<Repo>,
    pub fetch_error: Option<Seq<char>>,
    pub fetch_triggered: bool,
    pub repo_fetch_pending: bool,
    pub selected_repo_owner: Option<Seq<char>>,
    pub selected_repo_name: Option<Seq<char>>,
    pub branches: Seq<BranchInfo>,
    pub branch_fetch_error: Option<Seq<char>>,
    pub is_fetching_branches: bool,
    pub branch_fetch_pending: bool,
}

/// A dashboard of the repositories that a personal access token reaches, and
/// of the branches of the repository selected among them.
pub struct DashboardApp {
    github_token: String,
    token_saved: bool,
    repos: Vec<Repo>,
    fetch_error: Option<String>,
    fetch_triggered: bool,
    repo_fetch_pending: bool,
    selected_repo_owner: Option<String>,
    selected_repo_name: Option<String>,
    branches: Vec<BranchInfo>,
    branch_fetch_error: Option<String>,
    is_fetching_branches: bool,
    branch_fetch_pending: bool,
}

impl View for DashboardApp {
    type V = DashboardState;

    open spec fn view(&self) -> DashboardState {
        self.state()
    }
}

/// The state of a new dashboard: no token, nothing fetched, nothing selected.
pub open spec fn initial_dashboard() -> DashboardState {
    DashboardState {
        github_token: Seq::empty(),
        token_saved: false,
        repos: Seq::empty(),
        fetch_error: None,
        fetch_triggered: false,
        repo_fetch_pending: false,
        selected_repo_owner: None,
        selected_repo_name: None,
        branches: Seq::empty(),
        branch_fetch_error: None,
        is_fetching_branches: false,
        branch_fetch_pending: false,
    }
}

/// The state after "Save" is pressed: a non-empty token is saved, an empty
/// one is not.
pub open spec fn after_save(s: DashboardState) -> DashboardState {
    if s.github_token.len() > 0 {
        DashboardState { token_saved: true, ..s }
    } else {
        s
    }
}

/// Whether the repositories are to be fetched now: the token is saved and no
/// fetch was started before.
pub open spec fn repo_fetch_due(s: DashboardState) -> bool {
    s.token_saved && !s.fetch_triggered
}

/// The state after the fetch of the repositories is considered.
pub open spec fn after_start_repo_fetch(s: DashboardState) -> DashboardState {
    if repo_fetch_due(s) {
        DashboardState { fetch_triggered: true, repo_fetch_pending: true, ..s }
    } else {
        s
    }
}

/// The state after the repository fetch answered: the repositories and no
/// error, or the error with the repositories as they were.
pub open spec fn after_receive_repos(
    s: DashboardState,
    result: Result<Seq<Repo>, Seq<char>>,
) -> DashboardState {
    match result {
        Ok(repos) => DashboardState { repos: repos, fetch_error: None, ..s },
        Err(e) => DashboardState { fetch_error: Some(e), ..s },
    }
}

/// Whether the `i`-th repository is the selected one.
pub open spec fn repo_selected(s: DashboardState, i: int) -> bool {
    s.selected_repo_name == Some(s.repos[i].name@)
}

/// The state after the `i`-th repository is clicked: the selected one stays as
/// it is; another becomes selected and its branches are to be loaded afresh.
pub open spec fn after_click_repo(s: DashboardState, i: int) -> DashboardState {
    if repo_selected(s, i) {
        s
    } else {
        DashboardState {
            selected_repo_name: Some(s.repos[i].name@),
            selected_repo_owner: Some(s.repos[i].owner.login@),
            is_fetching_branches: true,
            branches: Seq::empty(),
            branch_fetch_error: None,
            branch_fetch_pending: false,
            ..s
        }
    }
}

/// Whether the branches of the selected repository are to be fetched now.
pub open spec fn branch_fetch_due(s: DashboardState) -> bool {
    &&& s.is_fetching_branches
    &&& !s.branch_fetch_pending
    &&& s.selected_repo_owner is Some
    &&& s.selected_repo_name is Some
}

/// The state after the fetch of the branches is considered.
pub open spec fn after_start_branch_fetch(s: DashboardState) -> DashboardState {
    if branch_fetch_due(s) {
        DashboardState { branch_fetch_pending: true, ..s }
    } else {
        s
    }
}

/// The state after the token field is edited to `token`: a saved token no
/// longer changes, as its field is no longer shown.
pub open spec fn after_token_edit(s: DashboardState, token: Seq<char>) -> DashboardState {
    if s.token_saved {
        s
    } else {
        DashboardState { github_token: token, ..s }
    }
}

/// Whether an answer to the branch fetch for `owner`'s repository `repo_name`
/// is the one awaited: a fetch is under way and it is for the repository
/// selected now.
pub open spec fn answers_selection(
    s: DashboardState,
    owner: Seq<char>,
    repo_name: Seq<char>,
) -> bool {
    &&& s.branch_fetch_pending
    &&& s.selected_repo_owner == Some(owner)
    &&& s.selected_repo_name == Some(repo_name)
}

/// The state once an awaited branch answer is stored: the branches and no
/// error, or the error and no branches; either way loading is over.
pub open spec fn store_branch_answer(
    s: DashboardState,
    result: Result<Seq<BranchInfo>, Seq<char>>,
) -> DashboardState {
    match result {
        Ok(branches) => DashboardState {
            branches: branches,
            branch_fetch_error: None,
            is_fetching_branches: false,
            branch_fetch_pending: false,
            ..s
        },
        Err(e) => DashboardState {
            branches: Seq::empty(),
            branch_fetch_error: Some(e),
            is_fetching_branches: false,
            branch_fetch_pending: false,
            ..s
        },
    }
}

/// The state after the branch fetch for `owner`'s repository `repo_name`
/// answered with `result`: the awaited answer is stored; an answer for an
/// earlier selection, or one not awaited, changes nothing.
pub open spec fn after_receive_branches(
    s: DashboardState,
    owner: Seq<char>,
    repo_name: Seq<char>,
    result: Result<Seq<BranchInfo>, Seq<char>>,
) -> DashboardState {
    if answers_selection(s, owner, repo_name) {
        store_branch_answer(s, result)
    } else {
        s
    }
}

/// What the lower part of the saved-token view shows.
pub enum PanelKind {
    Branches,
    FetchingRepositories,
    SelectRepository,
    Nothing,
}

/// What the lower part of the saved-token view shows in state `s`.
pub open spec fn panel_kind(s: DashboardState) -> PanelKind {
    if s.selected_repo_name is Some {
        PanelKind::Branches
    } else if s.token_saved && s.repos.len() > 0 && !s.fetch_triggered {
        PanelKind::FetchingRepositories
    } else if s.token_saved && s.repos.len() == 0 && s.fetch_triggered && s.fetch_error is None
        && s.repo_fetch_pending {
        PanelKind::FetchingRepositories
    } else if s.token_saved && s.repos.len() > 0 && s.selected_repo_name is None {
        PanelKind::SelectRepository
    } else {
        PanelKind::Nothing
    }
}

/// What the branch section shows.
pub enum BranchBodyKind {
    Loading,
    Failed,
    Listed,
    NoBranches,
}

/// What the branch section shows in state `s`.
pub open spec fn branch_body_kind(s: DashboardState) -> BranchBodyKind {
    if s.is_fetching_branches {
        BranchBodyKind::Loading
    } else if s.branch_fetch_error is Some {
        BranchBodyKind::Failed
    } else if s.branches.len() > 0 {
        BranchBodyKind::Listed
    } else {
        BranchBodyKind::NoBranches
    }
}

/// A branch listing to fetch: whose repository, which one, and with what token.
#[derive(Clone)]
pub struct BranchRequest {
    pub owner: String,
    pub repo_name: String,
    pub token: String,
}

/// The branch section, as it is to be drawn.
pub enum BranchBody {
    /// "⏳ Loading branches..."
    Loading,
    /// The error line, in red.
    Failed(String),
    /// The lines of the branches, one per branch, in a scrolling list.
    Listed,
    /// "No branches found for this repository."
    NoBranches,
}

/// The lower part of the saved-token view, as it is to be drawn.
pub enum DashboardPanel {
    /// The heading of the selected repository's branches, then the branches.
    Branches { heading: String, body: BranchBody },
    /// "Fetching repositories..."
    FetchingRepositories,
    /// A separator, then "Select a repository to view its branches."
    SelectRepository,
    /// Nothing.
    Nothing,
}

impl DashboardApp {
    /// The state that the contracts speak of.
    pub closed spec fn state(&self) -> DashboardState {
        DashboardState {
            github_token: self.github_token@,
            token_saved: self.token_saved,
            repos: self.repos@,
            fetch_error: text_of(self.fetch_error),
            fetch_triggered: self.fetch_triggered,
            repo_fetch_pending: self.repo_fetch_pending,
            selected_repo_owner: text_of(self.selected_repo_owner),
            selected_repo_name: text_of(self.selected_repo_name),
            branches: self.branches@,
            branch_fetch_error: text_of(self.branch_fetch_error),
            is_fetching_branches: self.is_fetching_branches,
            branch_fetch_pending: self.branch_fetch_pending,
        }
    }

    /// The token typed so far.
    pub fn github_token(&self) -> (token: &String)
        ensures
            token@ == self@.github_token,
    {
        &self.github_token
    }

    /// The token field was edited to `token`. Once saved, the token no longer
    /// changes.
    pub fn set_github_token(&mut self, token: String)
        ensures
            final(self)@ == after_token_edit(old(self)@, token@),
            old(self)@.token_saved ==> final(self)@ == old(self)@,
            !old(self)@.token_saved ==> final(self)@ == (DashboardState {
                github_token: token@,
                ..old(self)@
            }),
    {
        if !self.token_saved {
            self.github_token = token;
        }
    }

    /// Whether the token is saved.
    pub fn token_saved(&self) -> (saved: bool)
        ensures
            saved == self@.token_saved,
    {
        self.token_saved
    }

    /// "Save" was pressed.
    pub fn save_token(&mut self)
        ensures
            final(self)@ == after_save(old(self)@),
    {
        if !self.github_token.as_str().is_empty() {
            self.token_saved = true;
        }
    }

    /// Starts the fetch of the repositories when it is due: returns the token
    /// to fetch them with, once; `None` at every later call.
    pub fn start_repo_fetch(&mut self) -> (token: Option<String>)
        ensures
            final(self)@ == after_start_repo_fetch(old(self)@),
            match token {
                Some(t) => repo_fetch_due(old(self)@) && t@ == old(self)@.github_token,
                None => !repo_fetch_due(old(self)@),
            },
    {
        if self.token_saved && !self.fetch_triggered {
            let token = self.github_token.clone();
            self.repo_fetch_pending = true;
            self.fetch_triggered = true;
            Some(token)
        } else {
            None
        }
    }

    /// Whether a repository fetch has been handed out; its answer is awaited
    /// from then on.
    pub fn repo_fetch_pending(&self) -> (pending: bool)
        ensures
            pending == self@.repo_fetch_pending,
    {
        self.repo_fetch_pending
    }

    /// Whether a branch fetch has been handed out whose answer has not come
    /// back; a new selection gives up waiting for it.
    pub fn branch_fetch_pending(&self) -> (pending: bool)
        ensures
            pending == self@.branch_fetch_pending,
    {
        self.branch_fetch_pending
    }

    /// The repository fetch answered with `result`.
    pub fn receive_repos(&mut self, result: Result<Vec<Repo>, String>)
        ensures
            final(self)@ == after_receive_repos(
                old(self)@,
                match result {
                    Ok(repos) => Ok(repos@),
                    Err(e) => Err(e@),
                },
            ),
    {
        match result {
            Ok(repos) => {
                self.repos = repos;
                self.fetch_error = None;
            },
            Err(e) => {
                self.fetch_error = Some(e);
            },
        }
    }

    /// The error line of the repository fetch, if it failed.
    pub fn fetch_error_line(&self) -> (line: Option<String>)
        ensures
            match line {
                Some(l) => self@.fetch_error is Some && l@ == "❌ Error: "@
                    + self@.fetch_error->0,
                None => self@.fetch_error is None,
            },
    {
        match &self.fetch_error {
            Some(e) => Some(fetch_error_label(e.as_str())),
            None => None,
        }
    }

    /// How many repositories are listed.
    pub fn repo_count(&self) -> (count: usize)
        ensures
            count == self@.repos.len(),
    {
        self.repos.len()
    }

    /// The line of the `i`-th repository and whether it is shown selected.
    pub fn repo_entry(&self, i: usize) -> (entry: (String, bool))
        requires
            i < self@.repos.len(),
        ensures
            entry.0@ == repo_text(self@.repos[i as int]),
            entry.1 == repo_selected(self@, i as int),
            entry.1 == (self@.selected_repo_name == Some(self@.repos[i as int].name@)),
    {
        let repo = &self.repos[i];
        let label = repo_label(repo);
        let selected = match &self.selected_repo_name {
            Some(name) => *name == repo.name,
            None => false,
        };
        (label, selected)
    }

    /// The `i`-th repository was clicked.
    pub fn click_repo(&mut self, i: usize)
        requires
            i < old(self)@.repos.len(),
        ensures
            final(self)@ == after_click_repo(old(self)@, i as int),
    {
        let already = match &self.selected_repo_name {
            Some(name) => *name == self.repos[i].name,
            None => false,
        };
        if !already {
            let name = self.repos[i].name.clone();
            let owner = self.repos[i].owner.login.clone();
            self.selected_repo_name = Some(name);
            self.selected_repo_owner = Some(owner);
            self.is_fetching_branches = true;
            self.branches.clear();
            self.branch_fetch_error = None;
            self.branch_fetch_pending = false;
        }
    }

    /// Starts the fetch of the selected repository's branches when it is due:
    /// returns its owner, its name and the token, once per selection.
    pub fn start_branch_fetch(&mut self) -> (request: Option<BranchRequest>)
        ensures
            final(self)@ == after_start_branch_fetch(old(self)@),
            match request {
                Some(r) => {
                    &&& branch_fetch_due(old(self)@)
                    &&& old(self)@.selected_repo_owner == Some(r.owner@)
                    &&& old(self)@.selected_repo_name == Some(r.repo_name@)
                    &&& r.token@ == old(self)@.github_token
                },
                None => !branch_fetch_due(old(self)@),
            },
    {
        if self.is_fetching_branches && !self.branch_fetch_pending {
            match (&self.selected_repo_owner, &self.selected_repo_name) {
                (Some(owner), Some(repo_name)) => {
                    let request = BranchRequest {
                        owner: owner.clone(),
                        repo_name: repo_name.clone(),
                        token: self.github_token.clone(),
                    };
                    self.branch_fetch_pending = true;
                    Some(request)
                },
                _ => None,
            }
        } else {
            None
        }
    }

    /// The branch fetch asked by `request` answered with `result`. The answer
    /// is stored only when it is awaited and for the repository selected now.
    pub fn receive_branches(&mut self, request: &BranchRequest, result: Result<Vec<BranchInfo>, String>)
        ensures
            final(self)@ == after_receive_branches(
                old(self)@,
                request.owner@,
                request.repo_name@,
                match result {
                    Ok(branches) => Ok(branches@),
                    Err(e) => Err(e@),
                },
            ),
    {
        let awaited = self.branch_fetch_pending && match (
            &self.selected_repo_owner,
            &self.selected_repo_name,
        ) {
            (Some(owner), Some(repo_name)) => *owner == request.owner && *repo_name
                == request.repo_name,
            _ => false,
        };
        if !awaited {
            return ;
        }
        match result {
            Ok(branches) => {
                self.branches = branches;
                self.branch_fetch_error = None;
            },
            Err(e) => {
                self.branch_fetch_error = Some(e);
                self.branches.clear();
            },
        }
        self.is_fetching_branches = false;
        self.branch_fetch_pending = false;
    }

    /// How many branches are listed.
    pub fn branch_count(&self) -> (count: usize)
        ensures
            count == self@.branches.len(),
    {
        self.branches.len()
    }

    /// The `i`-th branch listed.
    pub fn branch(&self, i: usize) -> (branch: &BranchInfo)
        requires
            i < self@.branches.len(),
        ensures
            *branch == self@.branches[i as int],
    {
        &self.branches[i]
    }

    /// The line of the `i`-th branch. The shown part of its hash must end
    /// between two characters.
    pub fn branch_entry(&self, i: usize) -> (line: String)
        requires
            i < self@.branches.len(),
            encode_utf8(self@.branches[i as int].commit.sha@).len() <= usize::MAX,
            sha_cut_ok(self@.branches[i as int].commit.sha@),
        ensures
            line@ == branch_text(self@.branches[i as int]),
    {
        branch_line(&self.branches[i])
    }

    /// The lower part of the saved-token view.
    pub fn panel(&self) -> (panel: DashboardPanel)
        ensures
            match panel {
                DashboardPanel::Branches { heading, body } => {
                    &&& panel_kind(self@) is Branches
                    &&& heading@ == "Branches for "@ + self@.selected_repo_name->0 + ":"@
                    &&& match body {
                        BranchBody::Loading => branch_body_kind(self@) is Loading,
                        BranchBody::Failed(line) => {
                            &&& branch_body_kind(self@) is Failed
                            &&& line@ == "❌ Error fetching branches: "@
                                + self@.branch_fetch_error->0
                        },
                        BranchBody::Listed => branch_body_kind(self@) is Listed,
                        BranchBody::NoBranches => branch_body_kind(self@) is NoBranches,
                    }
                },
                DashboardPanel::FetchingRepositories => panel_kind(self@) is FetchingRepositories,
                DashboardPanel::SelectRepository => panel_kind(self@) is SelectRepository,
                DashboardPanel::Nothing => panel_kind(self@) is Nothing,
            },
    {
        match &self.selected_repo_name {
            Some(name) => {
                let heading = branches_heading(name.as_str());
                let body = if self.is_fetching_branches {
                    BranchBody::Loading
                } else {
                    match &self.branch_fetch_error {
                        Some(e) => BranchBody::Failed(branch_error_label(e.as_str())),
                        None => if self.branches.len() > 0 {
                            BranchBody::Listed
                        } else {
                            BranchBody::NoBranches
                        },
                    }
                };
                DashboardPanel::Branches { heading, body }
            },
            None => {
                let n: usize = self.repos.len();
                if self.token_saved && n > 0 && !self.fetch_triggered {
                    DashboardPanel::FetchingRepositories
                } else if self.token_saved && n == 0 && self.fetch_triggered
                    && self.fetch_error.is_none() && self.repo_fetch_pending {
                    DashboardPanel::FetchingRepositories
                } else if self.token_saved && n > 0 {
                    DashboardPanel::SelectRepository
                } else {
                    DashboardPanel::Nothing
                }
            },
        }
    }
}

impl Default for DashboardApp {
    /// A new dashboard, asking for a token.
    fn default() -> (app: Self)
        ensures
            app@ == initial_dashboard(),
    {
        DashboardApp {
            github_token: String::new(),
            token_saved: false,
            repos: Vec::new(),
            fetch_error: None,
            fetch_triggered: false,
            repo_fetch_pending: false,
            selected_repo_owner: None,
            selected_repo_name: None,
            branches: Vec::new(),
            branch_fetch_error: None,
            is_fetching_branches: false,
            branch_fetch_pending: false,
        }
    }
}

/// A token is saved only when it is not empty, and nothing is fetched before it
/// is saved.
pub proof fn lemma_save_needs_token(s: DashboardState)
    ensures
        after_save(s).token_saved == (s.token_saved || s.github_token.len() > 0),
        !s.token_saved ==> !repo_fetch_due(s),
{
}

/// The repositories are fetched once: once the fetch has started, no later
/// step starts it again.
pub proof fn lemma_repos_fetched_once(
    s: DashboardState,
    i: int,
    repos: Result<Seq<Repo>, Seq<char>>,
    branches: Result<Seq<BranchInfo>, Seq<char>>,
    token: Seq<char>,
    owner: Seq<char>,
    repo_name: Seq<char>,
)
    ensures
        after_start_repo_fetch(s).token_saved ==> after_start_repo_fetch(s).fetch_triggered,
        !repo_fetch_due(after_start_repo_fetch(s)),
        s.fetch_triggered ==> {
            &&& after_save(s).fetch_triggered
            &&& after_token_edit(s, token).fetch_triggered
            &&& after_start_repo_fetch(s).fetch_triggered
            &&& after_receive_repos(s, repos).fetch_triggered
            &&& after_click_repo(s, i).fetch_triggered
            &&& after_start_branch_fetch(s).fetch_triggered
            &&& after_receive_branches(s, owner, repo_name, branches).fetch_triggered
        },
{
}

/// A failed repository fetch keeps the repositories already listed.
pub proof fn lemma_repo_error_keeps_list(s: DashboardState, e: Seq<char>)
    ensures
        after_receive_repos(s, Err(e)).repos == s.repos,
        after_receive_repos(s, Err(e)).fetch_error == Some(e),
{
}

/// Clicking the selected repository again changes nothing.
pub proof fn lemma_click_selected_again(s: DashboardState, i: int)
    requires
        0 <= i < s.repos.len(),
    ensures
        repo_selected(after_click_repo(s, i), i),
        after_click_repo(after_click_repo(s, i), i) == after_click_repo(s, i),
{
}

/// Of repositories with distinct names, at most one is shown selected.
pub proof fn lemma_one_repo_selected(s: DashboardState, i: int, j: int)
    requires
        0 <= i < s.repos.len(),
        0 <= j < s.repos.len(),
        i != j,
        s.repos[i].name@ != s.repos[j].name@,
    ensures
        !(repo_selected(s, i) && repo_selected(s, j)),
{
}

/// Selecting another repository shows its branches as loading and asks, once,
/// for the branches of that repository.
pub proof fn lemma_new_selection_loads_its_branches(s: DashboardState, i: int)
    requires
        0 <= i < s.repos.len(),
        !repo_selected(s, i),
    ensures
        after_click_repo(s, i).selected_repo_name == Some(s.repos[i].name@),
        after_click_repo(s, i).selected_repo_owner == Some(s.repos[i].owner.login@),
        after_click_repo(s, i).branches.len() == 0,
        panel_kind(after_click_repo(s, i)) is Branches,
        branch_body_kind(after_click_repo(s, i)) is Loading,
        branch_fetch_due(after_click_repo(s, i)),
        !branch_fetch_due(after_start_branch_fetch(after_click_repo(s, i))),
{
}

/// Once saved, the token stays as it was saved.
pub proof fn lemma_saved_token_stays(s: DashboardState, token: Seq<char>)
    requires
        s.token_saved,
    ensures
        after_token_edit(s, token) == s,
        after_save(s) == s,
{
}

/// The awaited answer to a branch fetch ends the loading: the section shows
/// the error, the branches, or that there are none.
pub proof fn lemma_branch_answer_ends_loading(
    s: DashboardState,
    owner: Seq<char>,
    repo_name: Seq<char>,
    result: Result<Seq<BranchInfo>, Seq<char>>,
)
    requires
        answers_selection(s, owner, repo_name),
    ensures
        !branch_fetch_due(after_receive_branches(s, owner, repo_name, result)),
        match result {
            Ok(b) => {
                &&& after_receive_branches(s, owner, repo_name, result).branches == b
                &&& if b.len() > 0 {
                    branch_body_kind(after_receive_branches(s, owner, repo_name, result)) is Listed
                } else {
                    branch_body_kind(
                        after_receive_branches(s, owner, repo_name, result),
                    ) is NoBranches
                }
            },
            Err(e) => {
                &&& branch_body_kind(after_receive_branches(s, owner, repo_name, result)) is Failed
                &&& after_receive_branches(s, owner, repo_name, result).branch_fetch_error == Some(
                    e,
                )
                &&& after_receive_branches(s, owner, repo_name, result).branches.len() == 0
            },
        },
{
}

/// Only answers for the repository selected now are stored: whatever the
/// branches and their error hold came from a fetch for that repository, and
/// any other answer leaves the state as it was.
pub proof fn lemma_only_current_answers_stored(
    s: DashboardState,
    owner: Seq<char>,
    repo_name: Seq<char>,
    result: Result<Seq<BranchInfo>, Seq<char>>,
)
    ensures
        after_receive_branches(s, owner, repo_name, result) != s ==> {
            &&& s.selected_repo_owner == Some(owner)
            &&& s.selected_repo_name == Some(repo_name)
        },
        !answers_selection(s, owner, repo_name) ==> after_receive_branches(
            s,
            owner,
            repo_name,
            result,
        ) == s,
{
}

/// After repository `i` was selected and then another one, `j`, with a
/// different name, the answer to the fetch for `i` is never stored, even once
/// the fetch for `j` is under way.
pub proof fn lemma_answer_for_earlier_selection_ignored(
    s: DashboardState,
    i: int,
    j: int,
    result: Result<Seq<BranchInfo>, Seq<char>>,
)
    requires
        0 <= i < s.repos.len(),
        0 <= j < s.repos.len(),
        s.repos[i].name@ != s.repos[j].name@,
        repo_selected(s, i),
    ensures
        ({
            let t = after_click_repo(s, j);
            let u = after_start_branch_fetch(t);
            &&& t.selected_repo_name == Some(s.repos[j].name@)
            &&& after_receive_branches(
                t,
                s.repos[i].owner.login@,
                s.repos[i].name@,
                result,
            ) == t
            &&& after_receive_branches(
                u,
                s.repos[i].owner.login@,
                s.repos[i].name@,
                result,
            ) == u
        }),
{
}

/// Before it is saved, the token field holds exactly what was typed, the
/// empty text included, and nothing else changes; so a cleared field is not
/// saved.
pub proof fn lemma_token_edit_stores_text(s: DashboardState, token: Seq<char>)
    requires
        !s.token_saved,
    ensures
        after_token_edit(s, token).github_token == token,
        after_token_edit(s, token) == (DashboardState { github_token: token, ..s }),
        !after_save(after_token_edit(s, Seq::empty())).token_saved,
        token.len() > 0 ==> after_save(after_token_edit(s, token)).token_saved,
{
}

/// A failed repository fetch is never shown as still running: with an error,
/// a fetch started and nothing selected, the panel is not "Fetching
/// repositories..."; a failure with no repository listed shows nothing.
pub proof fn lemma_failed_fetch_not_in_progress(s: DashboardState, e: Seq<char>)
    ensures
        s.fetch_error is Some && s.fetch_triggered && s.selected_repo_name is None
            ==> !(panel_kind(s) is FetchingRepositories),
        ({
            let t = after_receive_repos(s, Err(e));
            t.repos.len() == 0 && t.selected_repo_name is None ==> panel_kind(t) is Nothing
        }),
        ({
            let t = after_receive_repos(after_start_repo_fetch(s), Err(e));
            t.selected_repo_name is None ==> !(panel_kind(t) is FetchingRepositories)
        }),
{
}

/// Whether an entry is shown selected depends only on the list and the
/// selected name, not on loading: two states that agree on these agree on it.
pub proof fn lemma_selection_ignores_loading(s: DashboardState, t: DashboardState, i: int)
    requires
        s.repos == t.repos,
        s.selected_repo_name == t.selected_repo_name,
    ensures
        repo_selected(s, i) == repo_selected(t, i),
        repo_selected(s, i) == (s.selected_repo_name == Some(s.repos[i].name@)),
{
}

/// A clicked repository stays shown selected while its branches load and once
/// they arrive, and clicking it again then changes nothing.
pub proof fn lemma_selected_after_branches_arrive(
    s: DashboardState,
    i: int,
    result: Result<Seq<BranchInfo>, Seq<char>>,
)
    requires
        0 <= i < s.repos.len(),
    ensures
        ({
            let t = after_start_branch_fetch(after_click_repo(s, i));
            let u = after_receive_branches(
                t,
                s.repos[i].owner.login@,
                s.repos[i].name@,
                result,
            );
            &&& repo_selected(after_click_repo(s, i), i)
            &&& repo_selected(t, i)
            &&& repo_selected(u, i)
            &&& after_click_repo(u, i) == u
        }),
{
}

/// With nothing selected: before the token is saved nothing is shown; while
/// the first fetch is under way with no answer and no error, "Fetching
/// repositories..."; once repositories are listed, the invitation to select
/// one. With a repository selected, its branches.
pub proof fn lemma_panel_cases(s: DashboardState)
    ensures
        s.selected_repo_name is Some ==> panel_kind(s) is Branches,
        s.selected_repo_name is None && !s.token_saved ==> panel_kind(s) is Nothing,
        s.selected_repo_name is None && s.token_saved && s.fetch_triggered && s.repo_fetch_pending
            && s.repos.len() == 0 && s.fetch_error is None ==> panel_kind(s) is FetchingRepositories,
        s.selected_repo_name is None && s.token_saved && s.fetch_triggered && s.repos.len() > 0
            ==> panel_kind(s) is SelectRepository,
{
}

} // verus!
