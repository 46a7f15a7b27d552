# github_dashboard

A small desktop dashboard for GitHub, in two windows: one with a navigation
panel (dashboard, repositories, issues, activity, settings) that lists a user's
public repositories, and one that takes a personal access token, lists the
repositories it reaches and shows the branches of the one selected.

- `src/` is the verified library: navigation (`app`), the repository and
  settings pages (`pages`), the token dashboard as a state machine with its
  texts and requests (`dashboard`), the request addresses (`github_api`), the
  printing of HTTP statuses (`status`) and of numbers and other text helpers
  (`text`).
- `app/` holds the windows (eframe/egui), the HTTP requests (reqwest, tokio) and
  the JSON decoding (serde); it calls the library for its decisions and for the
  texts built from data, while fixed headings and button captions stay literal there.
- `tests/` exercises the library on concrete values.
