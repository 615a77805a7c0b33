//! What a run decides between its requests: the credentials, the addresses
//! to ask, the bookkeeping over the pages and the closing summary.

use vstd::prelude::*;
use vstd::string::*;
use crate::filter::{blocked_texts, filter, passes};
use crate::model::{entry_views, text_view, Entry, EntryView, Failure};
use crate::present::{line_of, present, push_text};
use crate::text::{chars_of, decimal, decimal_of, extend_chars, text_of};

verus! {

/// A credential is usable when it is set and not empty.
pub open spec fn usable(value: Option<String>) -> bool {
    value is Some && value->0@.len() > 0
}

/// Checks the two credentials, the client identifier first. Both come back
/// unchanged where both are usable.
pub fn credentials(client_id: Option<String>, token: Option<String>) -> (r: Result<
    (String, String),
    Failure,
>)
    ensures
        match r {
            Ok(pair) => usable(client_id) && usable(token) && client_id == Some(pair.0) && token
                == Some(pair.1),
            Err(f) => if usable(client_id) {
                !usable(token) && f is MissingToken
            } else {
                f is MissingClientId
            },
        },
{
    let id: String = match client_id {
        Some(s) => s,
        None => { return Err(Failure::MissingClientId); },
    };
    if id.as_str().unicode_len() == 0 {
        return Err(Failure::MissingClientId);
    }
    let secret: String = match token {
        Some(s) => s,
        None => { return Err(Failure::MissingToken); },
    };
    if secret.as_str().unicode_len() == 0 {
        return Err(Failure::MissingToken);
    }
    Ok((id, secret))
}

/// The value of the authorization header for a bearer token.
pub fn authorization(token: &str) -> (r: String)
    ensures
        r@ == "Bearer "@ + token@,
{
    String::from_str("Bearer ").concat(token)
}

/// The address of a page: `url` itself for the first page, else `url` with
/// the cursor appended as the `after` parameter.
pub open spec fn page_address(after: Option<Seq<char>>, url: Seq<char>) -> Seq<char> {
    match after {
        Some(cursor) => url + "&after="@ + cursor,
        None => url,
    }
}

/// The address to request for the page that `after` points to.
pub fn request_url(after: &Option<String>, url: &str) -> (r: String)
    ensures
        r@ == page_address(text_view(*after), url@),
{
    match after {
        Some(cursor) => String::from_str(url).concat("&after=").concat(cursor.as_str()),
        None => String::from_str(url),
    }
}

/// The address of a category listing: the top categories for an empty term,
/// else the search with the term as it was typed.
pub open spec fn categories_address(term: Seq<char>) -> Seq<char> {
    if term.len() == 0 {
        "https://api.twitch.tv/helix/games/top"@
    } else {
        "https://api.twitch.tv/helix/search/categories?query="@ + term
    }
}

/// The address to request for the categories that match `term`.
pub fn categories_url(term: &str) -> (r: String)
    ensures
        r@ == categories_address(term@),
{
    if term.unicode_len() == 0 {
        String::from_str("https://api.twitch.tv/helix/games/top")
    } else {
        String::from_str("https://api.twitch.tv/helix/search/categories?query=").concat(term)
    }
}

/// The address to request for the live broadcasts of the category `id`, a
/// hundred to the page.
pub fn streams_url(id: &str) -> (r: String)
    ensures
        r@ == "https://api.twitch.tv/helix/streams?first=100&game_id="@ + id@,
{
    String::from_str("https://api.twitch.tv/helix/streams?first=100&game_id=").concat(id)
}

/// The block-list of a plain run: the empty name alone.
pub fn default_blocked() -> (r: Vec<String>)
    ensures
        blocked_texts(r@) == seq![Seq::<char>::empty()],
{
    let mut out: Vec<String> = Vec::new();
    out.push(String::new());
    assert(blocked_texts(out@) =~= seq![Seq::<char>::empty()]);
    out
}

/// The lines of the entries that pass the filter, in the order of the page.
pub open spec fn shown_lines(
    entries: Seq<EntryView>,
    term: Seq<char>,
    blocked: Seq<Seq<char>>,
) -> Seq<Seq<char>>
    decreases entries.len(),
{
    if entries.len() == 0 {
        Seq::<Seq<char>>::empty()
    } else if passes(entries.last(), term, blocked) {
        shown_lines(entries.drop_last(), term, blocked).push(line_of(entries.last()))
    } else {
        shown_lines(entries.drop_last(), term, blocked)
    }
}

/// The texts of a run of strings.
pub open spec fn line_texts(lines: Seq<String>) -> Seq<Seq<char>> {
    Seq::new(lines.len(), |i: int| lines[i]@)
}

/// Filters one page and renders what passes. No page yields more lines than
/// it has entries.
pub fn scan_page(entries: &Vec<Entry>, term: &str, blocked: &Vec<String>) -> (r: Vec<String>)
    ensures
        line_texts(r@) == shown_lines(entry_views(entries@), term@, blocked_texts(blocked@)),
        r.len() <= entries.len(),
{
    let mut out: Vec<String> = Vec::new();
    let mut i: usize = 0;
    let ghost all = entry_views(entries@);
    assert(line_texts(out@) =~= Seq::<Seq<char>>::empty());
    while i < entries.len()
        invariant
            i <= entries.len(),
            out.len() <= i,
            all == entry_views(entries@),
            line_texts(out@) == shown_lines(all.subrange(0, i as int), term@, blocked_texts(blocked@)),
        decreases entries.len() - i,
    {
        proof {
            assert(all.subrange(0, i + 1).drop_last() =~= all.subrange(0, i as int));
            assert(all.subrange(0, i + 1).last() == entries@[i as int]@);
        }
        if filter(&entries[i], term, blocked) {
            let line: String = present(&entries[i]);
            let ghost before = out@;
            out.push(line);
            assert(line_texts(out@) =~= line_texts(before).push(line@));
        }
        i += 1;
    }
    assert(all.subrange(0, i as int) =~= all);
    out
}

/// Where a run stands between two pages.
#[derive(Debug)]
pub struct Progress {
    /// The cursor of the page to ask for next; none before the first page
    /// and after the last.
    pub cursor: Option<String>,
    /// Entries seen so far.
    pub total: usize,
    /// Entries shown so far.
    pub found: usize,
    /// The last page has been read.
    pub done: bool,
}

impl Progress {
    /// No more was shown than was seen, and a finished run holds no cursor.
    pub open spec fn well_formed(&self) -> bool {
        self.found <= self.total && (self.done ==> self.cursor is None)
    }

    /// The state before the first page.
    pub fn start() -> (r: Progress)
        ensures
            r.well_formed(),
            r.cursor is None,
            r.total == 0,
            r.found == 0,
            !r.done,
    {
        Progress { cursor: None, total: 0, found: 0, done: false }
    }

    /// Takes in one page: its entries are counted, those that pass the filter
    /// are rendered and counted, and the run is done exactly when the page
    /// carries no cursor, however many entries it holds.
    pub fn turn_page(
        self,
        entries: &Vec<Entry>,
        next: Option<String>,
        term: &str,
        blocked: &Vec<String>,
    ) -> (r: (Progress, Vec<String>))
        requires
            self.well_formed(),
            self.total + entries.len() <= usize::MAX,
        ensures
            r.0.well_formed(),
            r.0.done == (next is None),
            r.0.cursor == next,
            r.0.total == self.total + entries.len(),
            r.0.found == self.found + r.1.len(),
            line_texts(r.1@) == shown_lines(entry_views(entries@), term@, blocked_texts(blocked@)),
    {
        let lines: Vec<String> = scan_page(entries, term, blocked);
        let done: bool = next.is_none();
        let after: Progress = Progress {
            cursor: next,
            total: self.total + entries.len(),
            found: self.found + lines.len(),
            done,
        };
        (after, lines)
    }
}

/// The closing line: how many were shown, how many seen, and the time it
/// took in seconds and hundredths of a second.
pub open spec fn summary_text(found: nat, total: nat, secs: nat, subsec_nanos: nat) -> Seq<char> {
    "Done! Found "@ + decimal(found) + "/"@ + decimal(total) + " streams in "@ + decimal(secs)
        + "."@ + decimal(subsec_nanos / 10_000_000) + " seconds."@
}

/// Renders the closing line.
pub fn summary(found: usize, total: usize, secs: u64, subsec_nanos: u32) -> (r: String)
    ensures
        r@ == summary_text(found as nat, total as nat, secs as nat, subsec_nanos as nat),
{
    let mut out: Vec<char> = chars_of("Done! Found ");
    extend_chars(&mut out, &decimal_of(found as u128));
    push_text(&mut out, "/");
    extend_chars(&mut out, &decimal_of(total as u128));
    push_text(&mut out, " streams in ");
    extend_chars(&mut out, &decimal_of(secs as u128));
    push_text(&mut out, ".");
    extend_chars(&mut out, &decimal_of((subsec_nanos / 10_000_000) as u128));
    push_text(&mut out, " seconds.");
    text_of(&out)
}

/// What is said of a failure on the error stream.
pub open spec fn failure_text(f: Failure) -> Seq<char> {
    match f {
        Failure::MissingClientId => "Client id missing"@,
        Failure::MissingToken => "OAuth token missing"@,
        Failure::Transport { detail } => "request failed: "@ + detail@,
        Failure::Body { detail } => "failed to serialize json: "@ + detail@,
        Failure::Field { key } => "missing or mistyped field: "@ + key@,
        Failure::NoData => Seq::<char>::empty(),
    }
}

/// The message for a failure; nothing is said where the response held no
/// data.
pub fn failure_message(f: &Failure) -> (r: String)
    ensures
        r@ == failure_text(*f),
{
    match f {
        Failure::MissingClientId => String::from_str("Client id missing"),
        Failure::MissingToken => String::from_str("OAuth token missing"),
        Failure::Transport { detail } => String::from_str("request failed: ").concat(
            detail.as_str(),
        ),
        Failure::Body { detail } => String::from_str("failed to serialize json: ").concat(
            detail.as_str(),
        ),
        Failure::Field { key } => String::from_str("missing or mistyped field: ").concat(
            key.as_str(),
        ),
        Failure::NoData => String::new(),
    }
}

} // verus!
