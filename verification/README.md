# gat

Git Account Tracker: keep several git identities (user name, e-mail and
personal access token) and apply one to a repository, or clone with it.

- `src/` is the verified library: the profile file format (`profiles.rs`),
  the application state (`app.rs`), what each key does (`events.rs`), the git
  commands (`git.rs`), the footer texts (`ui.rs`) and the screen layout
  (`layout.rs`).
- `app/` is the terminal program: it reads and writes `~/.gat`, runs the git
  commands, and draws the screens with ratatui.
- `tests/` exercises the library on concrete profiles, keys and areas.
