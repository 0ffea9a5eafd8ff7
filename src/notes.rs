use vstd::prelude::*;
use crate::text::push_char;
use chrono::Datelike;
use crate::app::model::{EpicPaneState, NotesListState};
use crate::view::Constraint;
use crate::worktree::{slug_of, slugify_text};
use crate::text::{join_path, joined_path};

verus! {

/// What `char::to_uppercase` yields for a character.
pub uninterp spec fn upper_of(c: char) -> Seq<char>;

/// What `Path::file_stem` gives for a path: the last component without
/// its extension, if there is a last component.
pub uninterp spec fn file_stem_of(path: Seq<char>) -> Option<Seq<char>>;

/// The (year, month, day) that `NaiveDate::parse_from_str` reads from a
/// text in the `%Y-%m-%d` format, if it reads a date.
pub uninterp spec fn iso_date_of(s: Seq<char>) -> Option<(i32, u32, u32)>;

/// What `NaiveDate::format` with `%a, %b %-d %Y` writes for a date, or
/// `None` where `NaiveDate::from_ymd_opt` finds no such date.
pub uninterp spec fn date_label_of(year: i32, month: u32, day: u32) -> Option<Seq<char>>;

/// Relies on `char::to_uppercase`: the characters it yields, collected.
#[verifier::external_body]
fn char_to_upper(c: char) -> (r: String)
    ensures
        r@ == upper_of(c),
{
    c.to_uppercase().collect()
}

/// Relies on `Path::file_stem`: the stem of the path, as text.
#[verifier::external_body]
fn path_file_stem(path: &str) -> (r: Option<String>)
    ensures
        match r {
            Some(s) => file_stem_of(path@) == Some(s@),
            None => file_stem_of(path@).is_none(),
        },
{
    std::path::Path::new(path).file_stem().and_then(|s| s.to_str()).map(|s| s.to_string())
}

/// Relies on `NaiveDate::parse_from_str` with the format `%Y-%m-%d`: the
/// date it reads, as year, month and day.
#[verifier::external_body]
fn parse_iso_date(s: &str) -> (r: Option<(i32, u32, u32)>)
    ensures
        r == iso_date_of(s@),
{
    chrono::NaiveDate::parse_from_str(s, "%Y-%m-%d").ok().map(|d| (d.year(), d.month(), d.day()))
}

/// Relies on `NaiveDate::format` with `%a, %b %-d %Y` (as in
/// "Tue, Feb 18 2026"), for the date that `NaiveDate::from_ymd_opt` makes.
#[verifier::external_body]
fn date_label(year: i32, month: u32, day: u32) -> (r: Option<String>)
    ensures
        match r {
            Some(s) => date_label_of(year, month, day) == Some(s@),
            None => date_label_of(year, month, day).is_none(),
        },
{
    chrono::NaiveDate::from_ymd_opt(year, month, day).map(|d| d.format("%a, %b %-d %Y").to_string())
}

/// The rest of `s` after `prefix`, if `s` starts with it.
pub open spec fn stripped(s: Seq<char>, prefix: Seq<char>) -> Option<Seq<char>> {
    if prefix.len() <= s.len() && s.subrange(0, prefix.len() as int) == prefix {
        Some(s.subrange(prefix.len() as int, s.len() as int))
    } else {
        None
    }
}

/// What a position of a slug becomes in its title: a dash becomes a space,
/// the first letter of a word is upper-cased, other characters stay.
pub open spec fn slug_piece(s: Seq<char>, i: int) -> Seq<char> {
    if s[i] == '-' {
        seq![' ']
    } else if i == 0 || s[i - 1] == '-' {
        upper_of(s[i])
    } else {
        seq![s[i]]
    }
}

/// The title of a dash-separated slug: its words, each with the first
/// letter upper-cased, joined by spaces.
pub open spec fn slug_title(s: Seq<char>) -> Seq<char>
    decreases s.len(),
{
    if s.len() == 0 {
        Seq::empty()
    } else {
        slug_title(s.drop_last()) + slug_piece(s, s.len() - 1)
    }
}

/// The title of a daily note's stem `daily-YYYY-MM-DD`, if it is one.
pub open spec fn daily_name_of(stem: Seq<char>) -> Option<Seq<char>> {
    match stripped(stem, "daily-"@) {
        Some(rest) => match iso_date_of(rest) {
            Some(date) => date_label_of(date.0, date.1, date.2),
            None => None,
        },
        None => None,
    }
}

/// The name a note is listed under: for a daily note its date, spelled
/// out; otherwise the title of its file's stem; "???" for a path without
/// a stem.
pub open spec fn display_name_of(path: Seq<char>, is_daily: bool) -> Seq<char> {
    match file_stem_of(path) {
        None => "???"@,
        Some(stem) => if is_daily && daily_name_of(stem).is_some() {
            daily_name_of(stem).unwrap()
        } else {
            slug_title(stem)
        },
    }
}

/// The rest of `s` after `prefix`, if `s` starts with it.
pub fn strip_prefix<'a>(s: &'a str, prefix: &str) -> (r: Option<&'a str>)
    ensures
        match r {
            Some(t) => stripped(s@, prefix@) == Some(t@),
            None => stripped(s@, prefix@).is_none(),
        },
{
    let n = s.unicode_len();
    let p = prefix.unicode_len();
    if p > n {
        return None;
    }
    let mut i: usize = 0;
    while i < p
        invariant
            p <= n,
            n == s@.len(),
            p == prefix@.len(),
            i <= p,
            forall|j: int| 0 <= j < i ==> s@[j] == prefix@[j],
        decreases p - i,
    {
        if s.get_char(i) != prefix.get_char(i) {
            assert(s@.subrange(0, p as int)[i as int] != prefix@[i as int]);
            return None;
        }
        i = i + 1;
    }
    assert(s@.subrange(0, p as int) =~= prefix@);
    Some(s.substring_char(p, n))
}

/// Formats a slug like `iteration-42-sprint-name` as "Iteration 42 Sprint
/// Name".
pub fn format_slug(stem: &str) -> (r: String)
    ensures
        r@ == slug_title(stem@),
{
    let n = stem.unicode_len();
    let mut out = String::new();
    let mut prev_dash = true;
    let mut i: usize = 0;
    while i < n
        invariant
            n == stem@.len(),
            i <= n,
            out@ == slug_title(stem@.subrange(0, i as int)),
            prev_dash == (i == 0 || stem@[i - 1] == '-'),
        decreases n - i,
    {
        let c = stem.get_char(i);
        let ghost pre = stem@.subrange(0, i as int);
        let ghost next = stem@.subrange(0, i + 1);
        assert(next.drop_last() =~= pre);
        assert(slug_piece(next, i as int) == slug_piece(stem@, i as int));
        if c == '-' {
            push_char(&mut out, ' ');
        } else if prev_dash {
            let up = char_to_upper(c);
            out.append(up.as_str());
        } else {
            push_char(&mut out, c);
        }
        assert(out@ =~= slug_title(next));
        prev_dash = c == '-';
        i = i + 1;
    }
    assert(stem@.subrange(0, n as int) =~= stem@);
    out
}

/// Formats a daily note's stem like `daily-2026-02-18` as "Wed, Feb 18
/// 2026"; `None` for a stem that is not a daily note's.
pub fn format_daily_name(stem: &str) -> (r: Option<String>)
    ensures
        match r {
            Some(s) => daily_name_of(stem@) == Some(s@),
            None => daily_name_of(stem@).is_none(),
        },
{
    let rest = match strip_prefix(stem, "daily-") {
        Some(rest) => rest,
        None => {
            return None;
        },
    };
    match parse_iso_date(rest) {
        Some((y, m, d)) => date_label(y, m, d),
        None => None,
    }
}

/// The name a note is listed under.
pub fn display_name(path: &str, is_daily: bool) -> (r: String)
    ensures
        r@ == display_name_of(path@, is_daily),
{
    let stem = match path_file_stem(path) {
        Some(s) => s,
        None => {
            return String::from_str("???");
        },
    };
    if is_daily {
        if let Some(formatted) = format_daily_name(stem.as_str()) {
            return formatted;
        }
    }
    format_slug(stem.as_str())
}

/// The height of a bordered list of `count` notes: two lines a note and
/// one for each border, capped at the largest height.
pub open spec fn list_height(count: nat) -> u16 {
    if count * 2 + 2 > u16::MAX {
        u16::MAX
    } else {
        (count * 2 + 2) as u16
    }
}

/// The rows of one section of the notes pane: a header line, the list and
/// a blank line.
pub open spec fn section_rows(count: nat) -> Seq<Constraint> {
    if count == 0 {
        Seq::empty()
    } else {
        seq![Constraint::Length(1), Constraint::Length(list_height(count)), Constraint::Length(1)]
    }
}

/// The vertical layout of the notes pane: the rows of each section that
/// has notes, daily notes first, without the blank line after the last
/// one, and then the rest of the room.
pub open spec fn notes_layout_of(daily: nat, other: nat) -> Seq<Constraint> {
    let rows = section_rows(daily) + section_rows(other);
    let trimmed = if rows.len() > 0 {
        rows.drop_last()
    } else {
        rows
    };
    trimmed.push(Constraint::Min(0))
}

/// The height of a list of `count` notes.
fn note_list_height(count: usize) -> (r: u16)
    ensures
        r == list_height(count as nat),
{
    if count > 32766 {
        65535
    } else {
        (count * 2 + 2) as u16
    }
}

/// The vertical layout of the notes pane for the given numbers of daily
/// and other notes.
pub fn notes_layout(daily: usize, other: usize) -> (r: Vec<Constraint>)
    ensures
        r@ == notes_layout_of(daily as nat, other as nat),
{
    let mut rows: Vec<Constraint> = Vec::new();
    if daily > 0 {
        rows.push(Constraint::Length(1));
        rows.push(Constraint::Length(note_list_height(daily)));
        rows.push(Constraint::Length(1));
    }
    let ghost first = rows@;
    assert(first =~= section_rows(daily as nat));
    if other > 0 {
        rows.push(Constraint::Length(1));
        rows.push(Constraint::Length(note_list_height(other)));
        rows.push(Constraint::Length(1));
    }
    assert(rows@ =~= section_rows(daily as nat) + section_rows(other as nat));
    if rows.len() > 0 {
        rows.pop();
    }
    rows.push(Constraint::Min(0));
    assert(rows@ =~= notes_layout_of(daily as nat, other as nat));
    rows
}

/// The character of a decimal digit.
pub open spec fn digit_of(d: nat) -> char {
    if d == 0 {
        '0'
    } else if d == 1 {
        '1'
    } else if d == 2 {
        '2'
    } else if d == 3 {
        '3'
    } else if d == 4 {
        '4'
    } else if d == 5 {
        '5'
    } else if d == 6 {
        '6'
    } else if d == 7 {
        '7'
    } else if d == 8 {
        '8'
    } else {
        '9'
    }
}

/// The decimal digits of a number, most significant first.
pub open spec fn digits_of(n: nat) -> Seq<char>
    decreases n,
{
    if n < 10 {
        seq![digit_of(n)]
    } else {
        digits_of(n / 10).push(digit_of(n % 10))
    }
}

/// A number written in decimal, with a minus sign when negative.
pub open spec fn decimal_of(n: int) -> Seq<char> {
    if n < 0 {
        seq!['-'] + digits_of((-n) as nat)
    } else {
        digits_of(n as nat)
    }
}

fn digit_char(d: u64) -> (r: char)
    requires
        d < 10,
    ensures
        r == digit_of(d as nat),
{
    if d == 0 {
        '0'
    } else if d == 1 {
        '1'
    } else if d == 2 {
        '2'
    } else if d == 3 {
        '3'
    } else if d == 4 {
        '4'
    } else if d == 5 {
        '5'
    } else if d == 6 {
        '6'
    } else if d == 7 {
        '7'
    } else if d == 8 {
        '8'
    } else {
        '9'
    }
}

fn digits(n: u64) -> (r: String)
    ensures
        r@ == digits_of(n as nat),
    decreases n,
{
    if n < 10 {
        let mut s = String::new();
        push_char(&mut s, digit_char(n));
        assert(s@ =~= seq![digit_of(n as nat)]);
        s
    } else {
        let mut s = digits(n / 10);
        push_char(&mut s, digit_char(n % 10));
        s
    }
}

/// Writes a number in decimal.
pub fn decimal(n: i64) -> (r: String)
    ensures
        r@ == decimal_of(n as int),
{
    if n < 0 {
        let magnitude = (0i128 - n as i128) as u64;
        let mut s = String::from_str("-");
        proof {
            reveal_strlit("-");
        }
        s.append(digits(magnitude).as_str());
        assert(s@ =~= decimal_of(n as int));
        s
    } else {
        digits(n as u64)
    }
}

/// Whether a note's file name is a daily note's: it starts with `daily-`.
pub fn is_daily_note(file_name: &str) -> (r: bool)
    ensures
        r == stripped(file_name@, "daily-"@).is_some(),
{
    strip_prefix(file_name, "daily-").is_some()
}

/// The file name of a story's note: `sc-`, the story id, a dash, the
/// slug of its name and `.md`.
pub open spec fn note_file_name_of(story_id: i64, story_name: Seq<char>) -> Seq<char> {
    "sc-"@ + decimal_of(story_id as int) + "-"@ + slug_of(story_name) + ".md"@
}

/// The directory of a story's note: `iteration-<id>` under the notes
/// directory for a story in an iteration, the notes directory otherwise.
pub open spec fn note_dir_of(notes_dir: Seq<char>, iteration_id: Option<i64>) -> Seq<char> {
    match iteration_id {
        Some(id) => joined_path(notes_dir, "iteration-"@ + decimal_of(id as int)),
        None => notes_dir,
    }
}

/// The file name of a story's note.
pub fn note_file_name(story_id: i64, story_name: &str) -> (r: String)
    ensures
        r@ == note_file_name_of(story_id, story_name@),
{
    let r = String::from_str("sc-");
    let r = r.concat(decimal(story_id).as_str());
    let r = r.concat("-");
    let r = r.concat(slugify_text(story_name).as_str());
    r.concat(".md")
}

/// The directory of a story's note.
pub fn note_dir(notes_dir: &str, iteration_id: Option<i64>) -> (r: String)
    ensures
        r@ == note_dir_of(notes_dir@, iteration_id),
{
    match iteration_id {
        Some(id) => {
            let name = String::from_str("iteration-").concat(decimal(id).as_str());
            join_path(notes_dir, name.as_str())
        },
        None => String::from_str(notes_dir),
    }
}

/// The notes pane as drawn: a view of the notes list state.
pub struct NotesListView<'a> {
    pub state: &'a NotesListState,
}

impl<'a> NotesListView<'a> {
    /// A view of the given notes.
    pub fn new(state: &'a NotesListState) -> (r: Self)
        ensures
            *r.state == *state,
    {
        Self { state }
    }
}

/// The epic pane as drawn: a view of its state and whether it has the focus.
pub struct EpicView<'a> {
    pub state: &'a EpicPaneState,
    pub is_focused: bool,
}

impl<'a> EpicView<'a> {
    /// A view of the epic pane.
    pub fn new(state: &'a EpicPaneState, is_focused: bool) -> (r: Self)
        ensures
            *r.state == *state,
            r.is_focused == is_focused,
    {
        Self { state, is_focused }
    }
}

} // verus!
