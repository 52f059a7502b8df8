use vstd::prelude::*;

use crate::text::push_char;

verus! {

/// One stored git profile.
pub struct Entry {
    /// The name shown to the user when browsing profiles.
    pub alias: String,
    /// The git user name used for commits.
    pub username: String,
    /// The e-mail address used for commits.
    pub email: String,
    /// The personal access token used to log in to the git host.
    pub pa_token: String,
}

/// The mathematical content of an [`Entry`]: its four fields as character sequences.
pub struct EntryView {
    pub alias: Seq<char>,
    pub username: Seq<char>,
    pub email: Seq<char>,
    pub pa_token: Seq<char>,
}

impl View for Entry {
    type V = EntryView;

    open spec fn view(&self) -> EntryView {
        EntryView {
            alias: self.alias@,
            username: self.username@,
            email: self.email@,
            pa_token: self.pa_token@,
        }
    }
}

/// The views of a sequence of entries.
pub open spec fn entry_views(es: Seq<Entry>) -> Seq<EntryView> {
    es.map_values(|e: Entry| e@)
}

/// The line that stores a profile: its four fields joined by commas.
pub open spec fn entry_line(e: EntryView) -> Seq<char> {
    e.alias + seq![','] + e.username + seq![','] + e.email + seq![','] + e.pa_token
}

impl Entry {
    /// The storage line of this profile: `alias,username,email,token`.
    pub fn to_string(&self) -> (line: String)
        ensures
            line@ == entry_line(self@),
            line@.len() == self@.alias.len() + self@.username.len() + self@.email.len()
                + self@.pa_token.len() + 3,
            line@.take(self@.alias.len() as int) == self@.alias,
            line@[self@.alias.len() as int] == ',',
            line@.skip(line@.len() - self@.pa_token.len()) == self@.pa_token,
            line@[line@.len() - self@.pa_token.len() - 1] == ',',
    {
        let mut line = self.alias.clone();
        push_char(&mut line, ',');
        line.append(self.username.as_str());
        push_char(&mut line, ',');
        line.append(self.email.as_str());
        push_char(&mut line, ',');
        line.append(self.pa_token.as_str());
        proof {
            let a = self@.alias;
            let rest = seq![','] + self@.username + seq![','] + self@.email + seq![','];
            assert(line@ =~= a + rest + self@.pa_token);
            assert(line@.take(a.len() as int) =~= a);
            assert(line@.skip(line@.len() - self@.pa_token.len()) =~= self@.pa_token);
        }
        line
    }
}

} // verus!
