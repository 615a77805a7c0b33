//! The title filter and the block-list.

use vstd::prelude::*;
use crate::model::{Entry, EntryView};
use crate::text::{chars_of, contains_text, find_text};

verus! {

/// The text that `str::to_lowercase` makes of `s`.
pub uninterp spec fn lowercased(s: Seq<char>) -> Seq<char>;

/// Trusted: calls `str::to_lowercase`, which maps the text to lower case by
/// the Unicode rules. The contract only names the outcome.
#[verifier::external_body]
fn lower(s: &str) -> (r: String)
    ensures
        r@ == lowercased(s@),
{
    s.to_lowercase()
}

/// The block-list as plain texts.
pub open spec fn blocked_texts(names: Seq<String>) -> Seq<Seq<char>> {
    Seq::new(names.len(), |i: int| names[i]@)
}

/// The decision on texts that are already in lower case: a blocked name
/// loses whatever its title; any other entry passes exactly when the title
/// holds the term as a contiguous part.
pub open spec fn admits(
    name: Seq<char>,
    title: Seq<char>,
    term: Seq<char>,
    blocked: Seq<Seq<char>>,
) -> bool {
    !blocked.contains(name) && contains_text(title, term)
}

/// Whether `entry` passes the filter. Name and title are taken in lower
/// case; `term` and the block-list are taken as they are, so a caller who
/// wants the test to ignore case hands them over in lower case.
pub open spec fn passes(entry: EntryView, term: Seq<char>, blocked: Seq<Seq<char>>) -> bool {
    admits(lowercased(entry.display_name), lowercased(entry.title), term, blocked)
}

/// A name on the block-list never passes, whatever the title and the term.
pub proof fn lemma_blocked_never_passes(
    entry: EntryView,
    term: Seq<char>,
    blocked: Seq<Seq<char>>,
)
    requires
        blocked.contains(lowercased(entry.display_name)),
    ensures
        !passes(entry, term, blocked),
{
}

/// With a name that is not blocked, the filter is the plain test whether the
/// title in lower case holds the term.
pub proof fn lemma_unblocked_is_substring_test(
    entry: EntryView,
    term: Seq<char>,
    blocked: Seq<Seq<char>>,
)
    requires
        !blocked.contains(lowercased(entry.display_name)),
    ensures
        passes(entry, term, blocked) == contains_text(lowercased(entry.title), term),
{
}

/// The two texts hold the same characters.
pub fn same_text(a: &Vec<char>, b: &Vec<char>) -> (r: bool)
    ensures
        r == (a@ == b@),
{
    if a.len() != b.len() {
        return false;
    }
    let mut i: usize = 0;
    while i < a.len()
        invariant
            i <= a.len(),
            a.len() == b.len(),
            forall|j: int| 0 <= j < i ==> a@[j] == b@[j],
        decreases a.len() - i,
    {
        if a[i] != b[i] {
            return false;
        }
        i += 1;
    }
    assert(a@ =~= b@);
    true
}

/// Whether `name` is one of `blocked`, compared character by character.
pub fn is_blocked(name: &Vec<char>, blocked: &Vec<String>) -> (r: bool)
    ensures
        r == blocked_texts(blocked@).contains(name@),
{
    let mut i: usize = 0;
    while i < blocked.len()
        invariant
            i <= blocked.len(),
            forall|j: int| 0 <= j < i ==> blocked_texts(blocked@)[j] != name@,
        decreases blocked.len() - i,
    {
        let candidate: Vec<char> = chars_of(blocked[i].as_str());
        if same_text(name, &candidate) {
            assert(blocked_texts(blocked@)[i as int] == name@);
            return true;
        }
        i += 1;
    }
    false
}

/// The filter on a name and a title that were already put in lower case.
pub fn filter_lowered(
    name: &Vec<char>,
    title: &Vec<char>,
    term: &Vec<char>,
    blocked: &Vec<String>,
) -> (r: bool)
    ensures
        r == admits(name@, title@, term@, blocked_texts(blocked@)),
{
    if is_blocked(name, blocked) {
        false
    } else {
        find_text(title, term)
    }
}

/// Whether `entry` is to be shown: its name in lower case is not on the
/// block-list and its title in lower case holds `term`.
pub fn filter(entry: &Entry, term: &str, ignored_names: &Vec<String>) -> (r: bool)
    ensures
        r == passes(entry@, term@, blocked_texts(ignored_names@)),
        blocked_texts(ignored_names@).contains(lowercased(entry@.display_name)) ==> !r,
{
    let name: String = lower(entry.display_name.as_str());
    let title: String = lower(entry.title.as_str());
    let name_chars: Vec<char> = chars_of(name.as_str());
    let title_chars: Vec<char> = chars_of(title.as_str());
    let term_chars: Vec<char> = chars_of(term);
    filter_lowered(&name_chars, &title_chars, &term_chars, ignored_names)
}

/// The search term in lower case, as the filter wants it.
pub fn lower_term(term: &str) -> (r: String)
    ensures
        r@ == lowercased(term@),
{
    lower(term)
}

} // verus!
