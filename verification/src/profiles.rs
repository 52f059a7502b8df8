//! The profile file: one profile per line, fields separated by commas.
use vstd::prelude::*;

use crate::entry::{entry_line, entry_views, Entry, EntryView};
use crate::text::{chars_of, push_char};

verus! {

/// The pieces of `s` between occurrences of `sep`, as `str::split` with a
/// character pattern gives them (always at least one piece).
pub open spec fn split_on(s: Seq<char>, sep: char) -> Seq<Seq<char>>
    decreases s.len(),
{
    if s.len() == 0 {
        seq![Seq::<char>::empty()]
    } else {
        let prev = split_on(s.drop_last(), sep);
        if s.last() == sep {
            prev.push(Seq::<char>::empty())
        } else {
            prev.update(prev.len() - 1, prev.last().push(s.last()))
        }
    }
}

/// A line without the carriage return that ends it, if any.
pub open spec fn strip_cr(line: Seq<char>) -> Seq<char> {
    if line.len() > 0 && line.last() == '\r' {
        line.drop_last()
    } else {
        line
    }
}

/// The lines of `s`, as `str::lines` gives them: split at `\n`, a `\r` right
/// before a `\n` dropped, no empty line after a final line ending.
pub open spec fn lines_of(s: Seq<char>) -> Seq<Seq<char>> {
    let pieces = split_on(s, '\n');
    let ended = pieces.drop_last().map_values(|l: Seq<char>| strip_cr(l));
    if pieces.last().len() == 0 {
        ended
    } else {
        ended.push(pieces.last())
    }
}

/// The profile a line describes: a non-empty line of exactly four comma-separated fields.
pub open spec fn line_entry(line: Seq<char>) -> Option<EntryView> {
    let fields = split_on(line, ',');
    if line.len() >= 1 && fields.len() == 4 {
        Some(
            EntryView {
                alias: fields[0],
                username: fields[1],
                email: fields[2],
                pa_token: fields[3],
            },
        )
    } else {
        None
    }
}

/// The profiles described by a sequence of lines, in order; other lines are skipped.
pub open spec fn entries_from_lines(lines: Seq<Seq<char>>) -> Seq<EntryView>
    decreases lines.len(),
{
    if lines.len() == 0 {
        Seq::empty()
    } else {
        let prev = entries_from_lines(lines.drop_last());
        match line_entry(lines.last()) {
            Some(e) => prev.push(e),
            None => prev,
        }
    }
}

/// The profiles stored in the contents of a profile file.
pub open spec fn parse_profiles(content: Seq<char>) -> Seq<EntryView> {
    entries_from_lines(lines_of(content))
}

/// The contents of a profile file that stores `es`: each profile's line followed by `\n`.
pub open spec fn serialize_profiles(es: Seq<EntryView>) -> Seq<char>
    decreases es.len(),
{
    if es.len() == 0 {
        Seq::empty()
    } else {
        serialize_profiles(es.drop_last()) + entry_line(es.last()) + seq!['\n']
    }
}

/// A field that a profile line can hold unchanged: no comma, no line feed.
pub open spec fn storable_field(f: Seq<char>) -> bool {
    forall|i: int| 0 <= i < f.len() ==> f[i] != ',' && f[i] != '\n'
}

/// A profile that the profile file stores faithfully: no field holds a comma
/// or a line feed, and the token does not end with a carriage return.
pub open spec fn storable(e: EntryView) -> bool {
    &&& storable_field(e.alias)
    &&& storable_field(e.username)
    &&& storable_field(e.email)
    &&& storable_field(e.pa_token)
    &&& (e.pa_token.len() == 0 || e.pa_token.last() != '\r')
}

/// The views of a sequence of character vectors.
pub open spec fn char_views(v: Seq<Vec<char>>) -> Seq<Seq<char>> {
    v.map_values(|x: Vec<char>| x@)
}

proof fn lemma_split_on_nonempty(s: Seq<char>, sep: char)
    ensures
        split_on(s, sep).len() >= 1,
    decreases s.len(),
{
    if s.len() > 0 {
        lemma_split_on_nonempty(s.drop_last(), sep);
    }
}

/// Splitting a text without the separator gives the text itself.
proof fn lemma_split_on_free(s: Seq<char>, sep: char)
    requires
        forall|i: int| 0 <= i < s.len() ==> s[i] != sep,
    ensures
        split_on(s, sep) == seq![s],
    decreases s.len(),
{
    if s.len() > 0 {
        lemma_split_on_free(s.drop_last(), sep);
        assert(s.drop_last().push(s.last()) =~= s);
        assert(split_on(s, sep) =~= seq![s]);
    } else {
        assert(s =~= Seq::<char>::empty());
    }
}

/// Splitting a concatenation: the last piece of the left part and the first
/// piece of the right part join.
proof fn lemma_split_on_concat(x: Seq<char>, y: Seq<char>, sep: char)
    ensures
        split_on(x + y, sep) == split_on(x, sep).drop_last() + seq![
            split_on(x, sep).last() + split_on(y, sep)[0],
        ] + split_on(y, sep).skip(1),
    decreases y.len(),
{
    let p = split_on(x, sep);
    lemma_split_on_nonempty(x, sep);
    if y.len() == 0 {
        assert(x + y =~= x);
        assert(p.last() + Seq::<char>::empty() =~= p.last());
        assert(p.drop_last() + seq![p.last()] + seq![Seq::<char>::empty()].skip(1) =~= p);
    } else {
        let y1 = y.drop_last();
        let c = y.last();
        lemma_split_on_concat(x, y1, sep);
        lemma_split_on_nonempty(y1, sep);
        assert((x + y).drop_last() =~= x + y1);
        assert((x + y).last() == c);
        let q1 = split_on(y1, sep);
        let q = split_on(y, sep);
        let r1 = split_on(x + y1, sep);
        if c == sep {
            assert(q == q1.push(Seq::<char>::empty()));
            assert(q[0] == q1[0]);
            assert(q.skip(1) =~= q1.skip(1).push(Seq::<char>::empty()));
            assert(split_on(x + y, sep) == r1.push(Seq::<char>::empty()));
            assert(split_on(x + y, sep) =~= p.drop_last() + seq![p.last() + q[0]] + q.skip(1));
        } else {
            assert(q == q1.update(q1.len() - 1, q1.last().push(c)));
            assert(split_on(x + y, sep) == r1.update(r1.len() - 1, r1.last().push(c)));
            if q1.len() == 1 {
                assert(q[0] == q1[0].push(c));
                assert((p.last() + q1[0]).push(c) =~= p.last() + q1[0].push(c));
                assert(q.skip(1) =~= Seq::<Seq<char>>::empty());
                assert(q1.skip(1) =~= Seq::<Seq<char>>::empty());
                assert(split_on(x + y, sep) =~= p.drop_last() + seq![p.last() + q[0]] + q.skip(1));
            } else {
                assert(q[0] == q1[0]);
                assert(q.skip(1) =~= q1.skip(1).update(
                    q1.len() - 2,
                    q1.last().push(c),
                ));
                assert(split_on(x + y, sep) =~= p.drop_last() + seq![p.last() + q[0]] + q.skip(1));
            }
        }
    }
}


proof fn lemma_split_field_comma(f: Seq<char>)
    requires
        storable_field(f),
    ensures
        split_on(f + seq![','], ',') == seq![f, Seq::<char>::empty()],
{
    lemma_split_on_free(f, ',');
    assert((f + seq![',']).drop_last() =~= f);
}

/// The line of a storable profile splits back into its four fields, holds no
/// line feed and does not end with a carriage return.
proof fn lemma_line_of_storable(e: EntryView)
    requires
        storable(e),
    ensures
        split_on(entry_line(e), ',') == seq![e.alias, e.username, e.email, e.pa_token],
        forall|i: int| 0 <= i < entry_line(e).len() ==> entry_line(e)[i] != '\n',
        entry_line(e).len() >= 3,
        strip_cr(entry_line(e)) == entry_line(e),
        line_entry(entry_line(e)) == Some(e),
{
    let c = seq![','];
    let e0 = Seq::<char>::empty();
    let x1 = e.alias + c;
    let x2 = x1 + (e.username + c);
    let x3 = x2 + (e.email + c);
    let x4 = x3 + e.pa_token;
    assert(x4 =~= entry_line(e));
    lemma_split_field_comma(e.alias);
    lemma_split_field_comma(e.username);
    lemma_split_field_comma(e.email);
    lemma_split_on_free(e.pa_token, ',');
    lemma_split_on_concat(x1, e.username + c, ',');
    assert(e0 + e.username =~= e.username);
    assert(split_on(x2, ',') =~= seq![e.alias, e.username, e0]);
    lemma_split_on_concat(x2, e.email + c, ',');
    assert(e0 + e.email =~= e.email);
    assert(split_on(x3, ',') =~= seq![e.alias, e.username, e.email, e0]);
    lemma_split_on_concat(x3, e.pa_token, ',');
    assert(e0 + e.pa_token =~= e.pa_token);
    assert(split_on(x4, ',') =~= seq![e.alias, e.username, e.email, e.pa_token]);
    let l = entry_line(e);
    assert forall|i: int| 0 <= i < l.len() implies l[i] != '\n' by {
        if i < e.alias.len() {
            assert(l[i] == e.alias[i]);
        } else if i == e.alias.len() {
        } else if i < e.alias.len() + 1 + e.username.len() {
            assert(l[i] == e.username[i - e.alias.len() - 1]);
        } else if i == e.alias.len() + 1 + e.username.len() {
        } else if i < e.alias.len() + 2 + e.username.len() + e.email.len() {
            assert(l[i] == e.email[i - e.alias.len() - 2 - e.username.len()]);
        } else if i == e.alias.len() + 2 + e.username.len() + e.email.len() {
        } else {
            assert(l[i] == e.pa_token[i - e.alias.len() - 3 - e.username.len() - e.email.len()]);
        }
    }
    if e.pa_token.len() > 0 {
        assert(l.last() == e.pa_token.last());
    } else {
        assert(l.last() == ',');
    }
    assert(split_on(l, ',').len() == 4);
    assert(line_entry(l) =~= Some(e));
}

/// The pieces between the line feeds of a stored file are the profile lines,
/// followed by the empty piece after the last line feed.
proof fn lemma_serialized_pieces(es: Seq<EntryView>)
    requires
        forall|i: int| 0 <= i < es.len() ==> storable(#[trigger] es[i]),
    ensures
        split_on(serialize_profiles(es), '\n') == es.map_values(|e: EntryView| entry_line(e)).push(
            Seq::<char>::empty(),
        ),
    decreases es.len(),
{
    let e0 = Seq::<char>::empty();
    if es.len() == 0 {
        assert(es.map_values(|e: EntryView| entry_line(e)) =~= Seq::<Seq<char>>::empty());
        assert(split_on(e0, '\n') =~= seq![e0]);
    } else {
        let prev = es.drop_last();
        let e = es.last();
        assert(storable(es[es.len() - 1]));
        lemma_serialized_pieces(prev);
        lemma_line_of_storable(e);
        let l = entry_line(e);
        let y = l + seq!['\n'];
        lemma_split_on_free(l, '\n');
        assert(y.drop_last() =~= l);
        assert(split_on(y, '\n') =~= seq![l, e0]);
        let x = serialize_profiles(prev);
        assert(serialize_profiles(es) =~= x + y);
        lemma_split_on_concat(x, y, '\n');
        assert(e0 + l =~= l);
        assert(es.map_values(|e: EntryView| entry_line(e)) =~= prev.map_values(
            |e: EntryView| entry_line(e),
        ).push(l));
        assert(split_on(serialize_profiles(es), '\n') =~= es.map_values(
            |e: EntryView| entry_line(e),
        ).push(e0));
    }
}

proof fn lemma_entries_from_lines_of_storable(es: Seq<EntryView>)
    requires
        forall|i: int| 0 <= i < es.len() ==> storable(#[trigger] es[i]),
    ensures
        entries_from_lines(es.map_values(|e: EntryView| entry_line(e))) == es,
    decreases es.len(),
{
    let lines = es.map_values(|e: EntryView| entry_line(e));
    if es.len() == 0 {
        assert(lines =~= Seq::<Seq<char>>::empty());
        assert(es =~= Seq::<EntryView>::empty());
    } else {
        let prev = es.drop_last();
        assert(storable(es[es.len() - 1]));
        lemma_entries_from_lines_of_storable(prev);
        lemma_line_of_storable(es.last());
        assert(lines.drop_last() =~= prev.map_values(|e: EntryView| entry_line(e)));
        assert(prev.push(es.last()) =~= es);
    }
}

/// Reading back a stored profile file gives the stored profiles, provided no
/// field holds a comma or a line feed and no token ends with a carriage return.
pub proof fn lemma_profiles_round_trip(es: Seq<EntryView>)
    requires
        forall|i: int| 0 <= i < es.len() ==> storable(#[trigger] es[i]),
    ensures
        parse_profiles(serialize_profiles(es)) == es,
{
    let lines = es.map_values(|e: EntryView| entry_line(e));
    lemma_serialized_pieces(es);
    let pieces = split_on(serialize_profiles(es), '\n');
    assert(pieces.drop_last() =~= lines);
    assert forall|i: int| 0 <= i < lines.len() implies strip_cr(lines[i]) == lines[i] by {
        assert(storable(es[i]));
        lemma_line_of_storable(es[i]);
    }
    assert(lines.map_values(|l: Seq<char>| strip_cr(l)) =~= lines);
    assert(lines_of(serialize_profiles(es)) == lines);
    lemma_entries_from_lines_of_storable(es);
}

/// The pieces of `s` between occurrences of `sep`.
fn split_chars(s: &Vec<char>, sep: char) -> (pieces: Vec<Vec<char>>)
    ensures
        char_views(pieces@) == split_on(s@, sep),
{
    let mut done: Vec<Vec<char>> = Vec::new();
    let mut cur: Vec<char> = Vec::new();
    let mut i: usize = 0;
    assert(s@.take(0) =~= Seq::<char>::empty());
    assert(char_views(done@).push(cur@) =~= split_on(s@.take(0), sep));
    while i < s.len()
        invariant
            i <= s.len(),
            char_views(done@).push(cur@) == split_on(s@.take(i as int), sep),
        decreases s.len() - i,
    {
        let c = s[i];
        assert(s@.take(i + 1).drop_last() =~= s@.take(i as int));
        assert(s@.take(i + 1).last() == c);
        let ghost before = char_views(done@).push(cur@);
        if c == sep {
            done.push(cur);
            cur = Vec::new();
            assert(char_views(done@).push(cur@) =~= before.push(Seq::<char>::empty()));
        } else {
            cur.push(c);
            assert(char_views(done@).push(cur@) =~= before.update(
                before.len() - 1,
                before.last().push(c),
            ));
        }
        i += 1;
    }
    assert(s@.take(s.len() as int) =~= s@);
    let ghost last = cur@;
    done.push(cur);
    assert(char_views(done@) =~= char_views(done@).drop_last().push(last));
    done
}

/// A character vector without the carriage return that ends it, if any.
fn strip_cr_chars(line: Vec<char>) -> (r: Vec<char>)
    ensures
        r@ == strip_cr(line@),
{
    let mut line = line;
    let n = line.len();
    if n > 0 && line[n - 1] == '\r' {
        line.pop();
    }
    line
}

/// The lines of `s`.
fn split_lines(s: &Vec<char>) -> (lines: Vec<Vec<char>>)
    ensures
        char_views(lines@) == lines_of(s@),
{
    let pieces = split_chars(s, '\n');
    let ghost pv = split_on(s@, '\n');
    proof {
        lemma_split_on_nonempty(s@, '\n');
    }
    let n = pieces.len();
    let mut lines: Vec<Vec<char>> = Vec::new();
    let mut i: usize = 0;
    while i + 1 < n
        invariant
            n == pieces.len(),
            n >= 1,
            char_views(pieces@) == pv,
            i + 1 <= n,
            char_views(lines@) == pv.drop_last().take(i as int).map_values(
                |l: Seq<char>| strip_cr(l),
            ),
        decreases n - i,
    {
        let piece = pieces[i].clone();
        assert(piece@ == pv[i as int]);
        let line = strip_cr_chars(piece);
        let ghost before = char_views(lines@);
        lines.push(line);
        assert(char_views(lines@) =~= before.push(strip_cr(pv[i as int])));
        assert(pv.drop_last().take(i + 1) =~= pv.drop_last().take(i as int).push(pv[i as int]));
        assert(char_views(lines@) =~= pv.drop_last().take(i + 1).map_values(
            |l: Seq<char>| strip_cr(l),
        ));
        i += 1;
    }
    assert(pv.drop_last().take(i as int) =~= pv.drop_last());
    let last = pieces[n - 1].clone();
    assert(last@ == pv.last());
    if last.len() > 0 {
        let ghost before = char_views(lines@);
        lines.push(last);
        assert(char_views(lines@) =~= before.push(pv.last()));
    }
    lines
}

/// A string with the given characters.
pub(crate) fn string_from_chars(v: &Vec<char>) -> (s: String)
    ensures
        s@ == v@,
{
    let mut s = String::new();
    let mut i: usize = 0;
    while i < v.len()
        invariant
            i <= v.len(),
            s@ == v@.take(i as int),
        decreases v.len() - i,
    {
        push_char(&mut s, v[i]);
        assert(v@.take(i + 1) =~= v@.take(i as int).push(v@[i as int]));
        i += 1;
    }
    assert(v@.take(v.len() as int) =~= v@);
    s
}

/// The profile a line describes, if it describes one.
fn entry_of_line(line: &Vec<char>) -> (r: Option<Entry>)
    ensures
        match r {
            Some(e) => line_entry(line@) == Some(e@),
            None => line_entry(line@) is None,
        },
{
    if line.len() < 1 {
        return None;
    }
    let fields = split_chars(line, ',');
    if fields.len() != 4 {
        return None;
    }
    assert(fields[0]@ == split_on(line@, ',')[0]);
    assert(fields[1]@ == split_on(line@, ',')[1]);
    assert(fields[2]@ == split_on(line@, ',')[2]);
    assert(fields[3]@ == split_on(line@, ',')[3]);
    Some(
        Entry {
            alias: string_from_chars(&fields[0]),
            username: string_from_chars(&fields[1]),
            email: string_from_chars(&fields[2]),
            pa_token: string_from_chars(&fields[3]),
        },
    )
}

/// The profiles stored in the contents of a profile file, in order.
pub(crate) fn parse_entries(content: &str) -> (entries: Vec<Entry>)
    ensures
        entry_views(entries@) == parse_profiles(content@),
{
    let chars = chars_of(content);
    let lines = split_lines(&chars);
    let ghost lv = lines_of(content@);
    let mut entries: Vec<Entry> = Vec::new();
    let mut i: usize = 0;
    assert(lv.take(0) =~= Seq::<Seq<char>>::empty());
    assert(entry_views(entries@) =~= entries_from_lines(lv.take(0)));
    while i < lines.len()
        invariant
            i <= lines.len(),
            char_views(lines@) == lv,
            entry_views(entries@) == entries_from_lines(lv.take(i as int)),
        decreases lines.len() - i,
    {
        assert(lines[i as int]@ == lv[i as int]);
        assert(lv.take(i + 1).drop_last() =~= lv.take(i as int));
        assert(lv.take(i + 1).last() == lv[i as int]);
        let ghost before = entry_views(entries@);
        match entry_of_line(&lines[i]) {
            Some(e) => {
                entries.push(e);
                assert(entry_views(entries@) =~= before.push(entries@.last()@));
            },
            None => {},
        }
        i += 1;
    }
    assert(lv.take(lines.len() as int) =~= lv);
    entries
}

/// The contents of a profile file that stores `entries`.
pub(crate) fn serialize_entries(entries: &Vec<Entry>) -> (content: String)
    ensures
        content@ == serialize_profiles(entry_views(entries@)),
{
    let ghost ev = entry_views(entries@);
    let mut content = String::new();
    let mut i: usize = 0;
    assert(ev.take(0) =~= Seq::<EntryView>::empty());
    while i < entries.len()
        invariant
            i <= entries.len(),
            ev == entry_views(entries@),
            content@ == serialize_profiles(ev.take(i as int)),
        decreases entries.len() - i,
    {
        let line = entries[i].to_string();
        content.append(line.as_str());
        push_char(&mut content, '\n');
        assert(ev.take(i + 1).drop_last() =~= ev.take(i as int));
        assert(ev.take(i + 1).last() == entries@[i as int]@);
        i += 1;
    }
    assert(ev.take(entries.len() as int) =~= ev);
    content
}

} // verus!
