use vstd::prelude::*;
use vstd::utf8::*;
use vstd::string::StringSliceAdditionalSpecFns;
use crate::dashboard::types::{BranchInfo, Repo};
use crate::text::{decimal, decimal_text, digits_value, lemma_decimal_reads_back};

verus! {

broadcast use {encode_utf8_decode_utf8, encode_utf8_valid_utf8};

/// The dashboard's title.
pub const DASHBOARD_HEADING: &'static str = "GitHub Repo Dashboard";

/// Shown once the token is saved.
pub const TOKEN_SAVED: &'static str = "✅ GitHub token saved!";

/// The prompt above the token field.
pub const TOKEN_PROMPT: &'static str = "🔑 Enter your GitHub Personal Access Token:";

/// The hint inside the empty token field.
pub const TOKEN_HINT: &'static str = "ghp_xxx...";

/// The warning under the token field.
pub const TOKEN_WARNING: &'static str = "⚠️ This token is not stored permanently.";

/// Shown while the branches of the selected repository are on their way.
pub const LOADING_BRANCHES: &'static str = "⏳ Loading branches...";

/// Shown when the selected repository has no branch.
pub const NO_BRANCHES: &'static str = "No branches found for this repository.";

/// Shown while the repositories are on their way.
pub const FETCHING_REPOSITORIES: &'static str = "Fetching repositories...";

/// Shown when repositories are listed and none is selected.
pub const SELECT_REPOSITORY: &'static str = "Select a repository to view its branches.";

/// The line of a repository in the list: name, owner, stars, forks and open issues.
pub open spec fn repo_text(repo: Repo) -> Seq<char> {
    "📦 "@ + repo.name@ + " (Owner: "@ + repo.owner.login@ + ") | ⭐ "@ + decimal(
        repo.stargazers_count as nat,
    ) + " | 🍴 "@ + decimal(repo.forks_count as nat) + " | 🐞 "@ + decimal(
        repo.open_issues_count as nat,
    )
}

/// The line of a repository in the list.
pub fn repo_label(repo: &Repo) -> (label: String)
    ensures
        label@ == repo_text(*repo),
{
    let mut label = String::from_str("📦 ");
    label.append(repo.name.as_str());
    label.append(" (Owner: ");
    label.append(repo.owner.login.as_str());
    label.append(") | ⭐ ");
    let stars = decimal_text(repo.stargazers_count as u64);
    label.append(stars.as_str());
    label.append(" | 🍴 ");
    let forks = decimal_text(repo.forks_count as u64);
    label.append(forks.as_str());
    label.append(" | 🐞 ");
    let issues = decimal_text(repo.open_issues_count as u64);
    label.append(issues.as_str());
    label
}

/// The error line of a failed repository fetch: "❌ Error: " and the error.
pub fn fetch_error_label(error: &str) -> (label: String)
    ensures
        label@ == "❌ Error: "@ + error@,
{
    let mut label = String::from_str("❌ Error: ");
    label.append(error);
    label
}

/// The heading of the branch section: "Branches for ", the repository, ":".
pub fn branches_heading(repo_name: &str) -> (heading: String)
    ensures
        heading@ == "Branches for "@ + repo_name@ + ":"@,
{
    let mut heading = String::from_str("Branches for ");
    heading.append(repo_name);
    heading.append(":");
    heading
}

/// The error line of a failed branch fetch: "❌ Error fetching branches: " and
/// the error.
pub fn branch_error_label(error: &str) -> (label: String)
    ensures
        label@ == "❌ Error fetching branches: "@ + error@,
{
    let mut label = String::from_str("❌ Error fetching branches: ");
    label.append(error);
    label
}

/// How many bytes of a commit hash are shown: seven, or all of a shorter one.
pub open spec fn sha_cut(sha: Seq<char>) -> int {
    let n: nat = encode_utf8(sha).len();
    if n < 7 {
        n as int
    } else {
        7
    }
}

/// Whether the shown part of a hash ends between two characters; the first
/// bytes of a hash can be cut out only then.
pub open spec fn sha_cut_ok(sha: Seq<char>) -> bool {
    is_char_boundary(encode_utf8(sha), sha_cut(sha))
}

/// The shown part of a commit hash: its first seven bytes, or all of it.
pub open spec fn short_sha_text(sha: Seq<char>) -> Seq<char> {
    decode_utf8(encode_utf8(sha).subrange(0, sha_cut(sha)))
}

/// The shown part of a commit hash: its first seven bytes, or all of it when
/// it is shorter. The cut must fall between two characters, and the hash's
/// length in bytes fits in `usize`, as that of any string in memory does.
pub fn short_sha(sha: &str) -> (short: &str)
    requires
        encode_utf8(sha@).len() <= usize::MAX,
        sha_cut_ok(sha@),
    ensures
        encode_utf8(short@) == encode_utf8(sha@).subrange(0, sha_cut(sha@)),
        short@ == short_sha_text(sha@),
{
    let cut: usize = if sha.len() < 7 {
        sha.len()
    } else {
        7
    };
    assert(sha.spec_bytes() == encode_utf8(sha@));
    assert(cut == sha_cut(sha@));
    let (short, _rest) = sha.split_at(cut);
    assert(short.spec_bytes() == encode_utf8(short@));
    short
}

/// A hash made of ASCII characters, as GitHub's hexadecimal hashes are, can be
/// cut anywhere, and shows as its first seven characters.
pub proof fn lemma_ascii_sha_shows_seven_chars(sha: Seq<char>)
    requires
        is_ascii_chars(sha),
    ensures
        sha_cut_ok(sha),
        sha_cut(sha) == if sha.len() < 7 {
            sha.len() as int
        } else {
            7
        },
        short_sha_text(sha) == sha.subrange(0, sha_cut(sha)),
{
    let bytes = encode_utf8(sha);
    is_ascii_chars_encode_utf8(sha);
    let k: int = sha_cut(sha);
    let prefix = sha.subrange(0, k);
    assert(is_ascii_chars(prefix));
    is_ascii_chars_encode_utf8(prefix);
    assert(encode_utf8(prefix) =~= bytes.subrange(0, k));
    if k == bytes.len() {
        is_char_boundary_start_end_of_seq(bytes);
    } else {
        is_char_boundary_iff_is_leading_byte(bytes, k);
        assert(sha[k] as u8 == bytes[k]);
    }
}

/// The line of a branch: "🌳 ", its name, " (commit: ", the shown part of its
/// commit hash, ")".
pub open spec fn branch_text(branch: BranchInfo) -> Seq<char> {
    "🌳 "@ + branch.name@ + " (commit: "@ + short_sha_text(branch.commit.sha@) + ")"@
}

/// The line of a branch in the branch list.
pub fn branch_line(branch: &BranchInfo) -> (line: String)
    requires
        encode_utf8(branch.commit.sha@).len() <= usize::MAX,
        sha_cut_ok(branch.commit.sha@),
    ensures
        line@ == branch_text(*branch),
{
    let mut line = String::from_str("🌳 ");
    line.append(branch.name.as_str());
    line.append(" (commit: ");
    line.append(short_sha(branch.commit.sha.as_str()));
    line.append(")");
    line
}

/// A repository's line shows its three counters in decimal, in the order
/// stars, forks, open issues, each read back as the repository's own count,
/// and ends with " | 🐞 " and the open-issue count.
pub proof fn lemma_repo_line_shows_counts(repo: Repo)
    ensures
        exists|head: Seq<char>|
            repo_text(repo) == head + decimal(repo.stargazers_count as nat) + " | 🍴 "@ + decimal(
                repo.forks_count as nat,
            ) + " | 🐞 "@ + decimal(repo.open_issues_count as nat),
        digits_value(decimal(repo.stargazers_count as nat)) == repo.stargazers_count,
        digits_value(decimal(repo.forks_count as nat)) == repo.forks_count,
        digits_value(decimal(repo.open_issues_count as nat)) == repo.open_issues_count,
        ({
            let t = repo_text(repo);
            let tail = " | 🐞 "@ + decimal(repo.open_issues_count as nat);
            &&& t.len() >= tail.len()
            &&& t.subrange(t.len() - tail.len(), t.len() as int) == tail
            &&& digits_value(
                t.subrange(
                    t.len() - decimal(repo.open_issues_count as nat).len(),
                    t.len() as int,
                ),
            ) == repo.open_issues_count
        }),
{
    lemma_decimal_reads_back(repo.stargazers_count as nat);
    lemma_decimal_reads_back(repo.forks_count as nat);
    lemma_decimal_reads_back(repo.open_issues_count as nat);
    let head = "📦 "@ + repo.name@ + " (Owner: "@ + repo.owner.login@ + ") | ⭐ "@;
    let t = repo_text(repo);
    let d = decimal(repo.open_issues_count as nat);
    let tail = " | 🐞 "@ + d;
    let front = head + decimal(repo.stargazers_count as nat) + " | 🍴 "@ + decimal(
        repo.forks_count as nat,
    );
    assert(t == head + decimal(repo.stargazers_count as nat) + " | 🍴 "@ + decimal(
        repo.forks_count as nat,
    ) + " | 🐞 "@ + d);
    assert(t =~= front + tail);
    assert(t.subrange(t.len() - tail.len(), t.len() as int) =~= tail);
    assert(t.subrange(t.len() - d.len(), t.len() as int) =~= d);
}

/// The line of a branch with an ASCII hash, as GitHub's are, ends with
/// " (commit: ", the hash's first seven characters (all of a shorter one), ")".
pub proof fn lemma_branch_line_shows_hash_prefix(branch: BranchInfo)
    requires
        is_ascii_chars(branch.commit.sha@),
    ensures
        ({
            let sha = branch.commit.sha@;
            let k: int = if sha.len() < 7 {
                sha.len() as int
            } else {
                7
            };
            branch_text(branch) == "🌳 "@ + branch.name@ + " (commit: "@ + sha.subrange(0, k)
                + ")"@
        }),
{
    lemma_ascii_sha_shows_seven_chars(branch.commit.sha@);
}

} // verus!
