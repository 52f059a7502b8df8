//! The git commands that apply a profile to a repository or clone with it.
use vstd::prelude::*;

use crate::entry::EntryView;

verus! {

/// A run of the `git` program: its arguments and the directory it runs in.
/// The arguments reach git one by one, each exactly as given.
pub struct GitCommand {
    /// The working directory of the command.
    pub dir: String,
    /// The arguments handed to `git`.
    pub args: Vec<String>,
}

/// The mathematical content of a [`GitCommand`].
pub struct GitCommandView {
    pub dir: Seq<char>,
    pub args: Seq<Seq<char>>,
}

/// The views of a sequence of strings.
pub open spec fn string_views(v: Seq<String>) -> Seq<Seq<char>> {
    v.map_values(|a: String| a@)
}

impl View for GitCommand {
    type V = GitCommandView;

    open spec fn view(&self) -> GitCommandView {
        GitCommandView { dir: self.dir@, args: string_views(self.args@) }
    }
}

/// The views of a sequence of commands.
pub open spec fn command_views(cs: Seq<GitCommand>) -> Seq<GitCommandView> {
    cs.map_values(|c: GitCommand| c@)
}

/// The commands that make the repository in `dir` commit under this user name
/// and e-mail: `git config --local user.name <username>` and
/// `git config --local user.email <email>`, each value one argument.
pub open spec fn config_commands(username: Seq<char>, email: Seq<char>, dir: Seq<char>) -> Seq<
    GitCommandView,
> {
    seq![
        GitCommandView { dir, args: seq!["config"@, "--local"@, "user.name"@, username] },
        GitCommandView { dir, args: seq!["config"@, "--local"@, "user.email"@, email] },
    ]
}

/// The url that clones `url` (given without its `https://` scheme) with the
/// credentials of the profile `e`.
pub open spec fn clone_url(e: EntryView, url: Seq<char>) -> Seq<char> {
    "https://"@ + e.username + seq![':'] + e.pa_token + seq!['@'] + url
}

/// The command that clones `url` (given without its `https://` scheme) into
/// the directory `dir` with the credentials of the profile `e`.
pub open spec fn clone_command(e: EntryView, url: Seq<char>, dir: Seq<char>) -> GitCommandView {
    GitCommandView { dir, args: seq!["clone"@, clone_url(e, url)] }
}

/// What a regular expression's named capture group holds in its first match
/// in `haystack`: `None` where the pattern is not valid, nothing matches, or
/// the group takes no part in the match.
pub uninterp spec fn regex_named_capture(
    pattern: Seq<char>,
    group: Seq<char>,
    haystack: Seq<char>,
) -> Option<Seq<char>>;

/// The text holds no line feed.
pub open spec fn no_line_feed(t: Seq<char>) -> bool {
    forall|i: int| 0 <= i < t.len() ==> t[i] != '\n'
}

/// `u` ends with `/<name>.git`, the name starting at position `n` and holding
/// no `/`, and no `git` begins in `u` at any position from 1 up to `n`.
pub open spec fn names_repository_at(u: Seq<char>, n: int) -> bool {
    &&& 1 <= n && n + 4 <= u.len()
    &&& u[n - 1] == '/'
    &&& u.subrange(u.len() - 4, u.len() as int) == ".git"@
    &&& forall|i: int| n <= i < u.len() - 4 ==> u[i] != '/'
    &&& forall|i: int|
        1 <= i <= n ==> !(#[trigger] u[i] == 'g' && u[i + 1] == 'i' && u[i + 2] == 't')
}

/// The text of the group `group` in the first match of the regular expression
/// `pattern` in `haystack`, by `regex::Regex::new`, `Regex::captures`,
/// `Captures::name` and `Match::as_str`. Claims that the result is the value
/// of `regex_named_capture` on the arguments, and two facts that the regex
/// crate's documented syntax and semantics give (leftmost-first matches,
/// greedy repetition, `.` any character but a line feed, `[^/]` any character
/// but `/`, `^` and `$` the ends of the haystack):
/// - `^https://(?<url>.+)$` on `https://` followed by at least one character
///   and no line feed captures everything after `https://` as `url`;
/// - `(?<path>[^/]*).git` on a text that ends with `/<name>.git`, whose name
///   holds no `/`, and where no `git` begins before the name (apart from at
///   the very start), captures the name as `path`: no match can start earlier,
///   since it would need a `git` right after a character reachable without
///   crossing a `/`, and from the name's start the greedy `[^/]*` stops right
///   before the final `.git`.
/// The matching rules in general are left to `regex_named_capture`.
#[verifier::external_body]
pub(crate) fn named_capture(pattern: &str, group: &str, haystack: &str) -> (r: Option<String>)
    ensures
        match r {
            Some(s) => regex_named_capture(pattern@, group@, haystack@) == Some(s@),
            None => regex_named_capture(pattern@, group@, haystack@) is None,
        },
        pattern@ == "^https://(?<url>.+)$"@ && group@ == "url"@ && haystack@.len() > 8
            && haystack@.take(8) == "https://"@ && no_line_feed(haystack@.skip(8))
            ==> r is Some && r->0@ == haystack@.skip(8),
        forall|n: int|
            pattern@ == "(?<path>[^/]*).git"@ && group@ == "path"@
                && #[trigger] names_repository_at(haystack@, n)
                ==> r is Some && r->0@ == haystack@.subrange(n, haystack@.len() - 4),
{
    match regex::Regex::new(pattern) {
        Ok(re) => match re.captures(haystack) {
            Some(caps) => match caps.name(group) {
                Some(m) => Some(m.as_str().to_string()),
                None => None,
            },
            None => None,
        },
        Err(_) => None,
    }
}

fn config_command(key: &str, value: &String, dir: &String) -> (c: GitCommand)
    ensures
        c@ == (GitCommandView { dir: dir@, args: seq!["config"@, "--local"@, key@, value@] }),
{
    let mut args: Vec<String> = Vec::new();
    args.push(String::from_str("config"));
    args.push(String::from_str("--local"));
    args.push(String::from_str(key));
    args.push(value.clone());
    assert(string_views(args@) =~= seq!["config"@, "--local"@, key@, value@]);
    GitCommand { dir: dir.clone(), args }
}

/// The two commands that set this user name and e-mail in the repository at `dir`.
pub(crate) fn config_commands_for(username: &String, email: &String, dir: &String) -> (cs: Vec<
    GitCommand,
>)
    ensures
        command_views(cs@) == config_commands(username@, email@, dir@),
{
    let mut cs: Vec<GitCommand> = Vec::new();
    cs.push(config_command("user.name", username, dir));
    cs.push(config_command("user.email", email, dir));
    assert(command_views(cs@) =~= config_commands(username@, email@, dir@));
    cs
}

} // verus!
