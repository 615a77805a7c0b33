//! The two prompts: a free-text term and a choice from a numbered list.

use vstd::prelude::*;
use vstd::string::*;
use crate::model::Games;
use crate::text::{chars_of, decimal, decimal_of, extend_chars, text_of};

verus! {

/// Whether `c` is white space: one of the code points that carry Unicode's
/// property `White_Space`.
pub open spec fn white_space(c: char) -> bool {
    let n = c as int;
    ||| 0x09 <= n <= 0x0D
    ||| n == 0x20
    ||| n == 0x85
    ||| n == 0xA0
    ||| n == 0x1680
    ||| 0x2000 <= n <= 0x200A
    ||| n == 0x2028
    ||| n == 0x2029
    ||| n == 0x202F
    ||| n == 0x205F
    ||| n == 0x3000
}

/// Trusted: calls `char::is_whitespace`, which tells whether the character
/// has Unicode's property `White_Space`. The contract says that these are
/// the code points listed in `white_space`.
#[verifier::external_body]
fn is_space(c: char) -> (r: bool)
    ensures
        r == white_space(c),
{
    c.is_whitespace()
}

/// `s` without the white space it begins with.
pub open spec fn trim_front(s: Seq<char>) -> Seq<char>
    decreases s.len(),
{
    if s.len() > 0 && white_space(s[0]) {
        trim_front(s.drop_first())
    } else {
        s
    }
}

/// `s` without the white space it ends with.
pub open spec fn trim_back(s: Seq<char>) -> Seq<char>
    decreases s.len(),
{
    if s.len() > 0 && white_space(s.last()) {
        trim_back(s.drop_last())
    } else {
        s
    }
}

/// `s` without the white space around it.
pub open spec fn trimmed(s: Seq<char>) -> Seq<char> {
    trim_back(trim_front(s))
}

/// Removes the white space around `s`.
pub fn trim(s: &Vec<char>) -> (r: Vec<char>)
    ensures
        r@ == trimmed(s@),
{
    let n: usize = s.len();
    let mut lo: usize = 0;
    assert(s@.subrange(0, n as int) =~= s@);
    while lo < n && is_space(s[lo])
        invariant
            lo <= n,
            n == s.len(),
            trim_front(s@) == trim_front(s@.subrange(lo as int, n as int)),
        decreases n - lo,
    {
        assert(s@.subrange(lo as int, n as int).drop_first() =~= s@.subrange(lo + 1, n as int));
        lo += 1;
    }
    assert(trim_front(s@) == s@.subrange(lo as int, n as int));
    let mut hi: usize = n;
    while hi > lo && is_space(s[hi - 1])
        invariant
            lo <= hi <= n,
            n == s.len(),
            trim_back(s@.subrange(lo as int, n as int)) == trim_back(
                s@.subrange(lo as int, hi as int),
            ),
        decreases hi,
    {
        assert(s@.subrange(lo as int, hi as int).drop_last() =~= s@.subrange(lo as int, hi - 1));
        hi -= 1;
    }
    assert(trim_back(s@.subrange(lo as int, hi as int)) == s@.subrange(lo as int, hi as int));
    let mut out: Vec<char> = Vec::new();
    let mut i: usize = lo;
    while i < hi
        invariant
            lo <= i <= hi <= n,
            n == s.len(),
            out@ == s@.subrange(lo as int, i as int),
        decreases hi - i,
    {
        out.push(s[i]);
        i += 1;
        assert(out@ =~= s@.subrange(lo as int, i as int));
    }
    out
}

/// Trimming leaves no white space at either end, and a text without any at
/// its ends is left as it is.
pub proof fn lemma_trimmed_ends(s: Seq<char>)
    ensures
        trimmed(s).len() > 0 ==> !white_space(trimmed(s)[0]) && !white_space(trimmed(s).last()),
        s.len() > 0 && !white_space(s[0]) && !white_space(s.last()) ==> trimmed(s) == s,
        s.len() == 0 ==> trimmed(s) == s,
{
    lemma_trim_front(s);
    lemma_trim_back(trim_front(s));
}

/// A text with no white space at its ends comes back from the line that
/// holds it and the newline typed after it.
pub proof fn lemma_newline_trims_away(s: Seq<char>)
    requires
        s.len() > 0,
        !white_space(s[0]),
        !white_space(s.last()),
    ensures
        trimmed(s.push('\n')) == s,
{
    let line = s.push('\n');
    assert(line[0] == s[0]);
    assert(trim_front(line) == line);
    assert(line.drop_last() =~= s);
    assert(white_space('\n'));
    assert(trim_back(line) == trim_back(s));
}

/// What `trim_front` leaves is the end of `s` from its first character that
/// is no white space on.
pub proof fn lemma_trim_front(s: Seq<char>)
    ensures
        trim_front(s).len() <= s.len(),
        trim_front(s) == s.subrange(s.len() - trim_front(s).len(), s.len() as int),
        trim_front(s).len() > 0 ==> !white_space(trim_front(s)[0]),
    decreases s.len(),
{
    if s.len() > 0 && white_space(s[0]) {
        let t = s.drop_first();
        lemma_trim_front(t);
        assert(t.subrange(t.len() - trim_front(t).len(), t.len() as int) =~= s.subrange(
            s.len() - trim_front(t).len(),
            s.len() as int,
        ));
    } else {
        assert(s.subrange(0, s.len() as int) =~= s);
    }
}

/// What `trim_back` leaves is the beginning of `s` up to its last character
/// that is no white space.
pub proof fn lemma_trim_back(s: Seq<char>)
    ensures
        trim_back(s).len() <= s.len(),
        trim_back(s) == s.subrange(0, trim_back(s).len() as int),
        trim_back(s).len() > 0 ==> !white_space(trim_back(s).last()),
    decreases s.len(),
{
    if s.len() > 0 && white_space(s.last()) {
        let t = s.drop_last();
        lemma_trim_back(t);
        assert(t.subrange(0, trim_back(t).len() as int) =~= s.subrange(
            0,
            trim_back(t).len() as int,
        ));
    } else {
        assert(s.subrange(0, s.len() as int) =~= s);
    }
}

/// The term that a typed line stands for: the line without the white space
/// around it.
pub fn choose_term(line: &str) -> (r: String)
    ensures
        r@ == trimmed(line@),
{
    let chars: Vec<char> = chars_of(line);
    text_of(&trim(&chars))
}

/// One of the ten ASCII digits.
pub open spec fn is_digit(c: char) -> bool {
    48 <= c as int <= 57
}

/// The value of a digit, zero for any other character.
pub open spec fn digit_value(c: char) -> nat {
    if is_digit(c) {
        (c as int - 48) as nat
    } else {
        0
    }
}

/// The number that a run of digits writes in base ten.
pub open spec fn digits_value(s: Seq<char>) -> nat
    decreases s.len(),
{
    if s.len() == 0 {
        0
    } else {
        digits_value(s.drop_last()) * 10 + digit_value(s.last())
    }
}

/// Every character of `s` is a digit.
pub open spec fn all_digits(s: Seq<char>) -> bool {
    forall|i: int| 0 <= i < s.len() ==> is_digit(#[trigger] s[i])
}

/// `s` without one leading plus sign.
pub open spec fn number_body(s: Seq<char>) -> Seq<char> {
    if s.len() > 0 && s[0] == '+' {
        s.drop_first()
    } else {
        s
    }
}

/// The index that `s` writes: an optional plus sign, then one digit or
/// more, with a value that a `usize` can hold. Anything else is no index.
pub open spec fn parsed_index(s: Seq<char>) -> Option<nat> {
    let body = number_body(s);
    if body.len() > 0 && all_digits(body) && digits_value(body) <= usize::MAX {
        Some(digits_value(body))
    } else {
        None
    }
}

/// A longer run of digits writes no smaller a number than its beginning.
pub proof fn lemma_value_grows(s: Seq<char>, k: int)
    requires
        0 <= k <= s.len(),
    ensures
        digits_value(s.subrange(0, k)) <= digits_value(s),
    decreases s.len() - k,
{
    if k == s.len() {
        assert(s.subrange(0, k) =~= s);
    } else {
        assert(s.subrange(0, k + 1).drop_last() =~= s.subrange(0, k));
        lemma_value_grows(s, k + 1);
    }
}

/// Reads an index from `s`.
pub fn parse_index(s: &Vec<char>) -> (r: Option<usize>)
    ensures
        match r {
            Some(n) => parsed_index(s@) == Some(n as nat),
            None => parsed_index(s@) is None,
        },
{
    let n: usize = s.len();
    let start: usize = if n > 0 && s[0] == '+' {
        1
    } else {
        0
    };
    let ghost body = number_body(s@);
    assert(body =~= s@.subrange(start as int, n as int));
    if start == n {
        return None;
    }
    let mut acc: usize = 0;
    let mut i: usize = start;
    assert(body.subrange(0, 0) =~= Seq::<char>::empty());
    while i < n
        invariant
            start <= i <= n,
            n == s.len(),
            body == s@.subrange(start as int, n as int),
            body == number_body(s@),
            all_digits(body.subrange(0, i - start)),
            acc == digits_value(body.subrange(0, i - start)),
        decreases n - i,
    {
        let c: char = s[i];
        if c < '0' || c > '9' {
            assert(!is_digit(body[i - start]));
            return None;
        }
        let code: u8 = c as u8;
        let d: usize = (code - 48) as usize;
        proof {
            assert(body.subrange(0, i - start + 1).drop_last() =~= body.subrange(0, i - start));
            assert(body.subrange(0, i - start + 1).last() == s@[i as int]);
            assert(digit_value(s@[i as int]) == d);
        }
        if acc > (usize::MAX - d) / 10 {
            proof {
                assert(digits_value(body.subrange(0, i - start + 1)) == acc * 10 + d);
                lemma_value_grows(body, i - start + 1);
            }
            return None;
        }
        acc = acc * 10 + d;
        i += 1;
    }
    assert(body.subrange(0, n - start) =~= body);
    Some(acc)
}

/// What a typed line means against a list of `count` items.
#[derive(Clone, Copy, Debug, PartialEq, Eq, Structural)]
pub enum Choice {
    /// The index of an item of the list.
    Picked(usize),
    /// The line writes no number.
    NotANumber,
    /// The line writes a number that is no index of the list.
    OutOfRange,
}

/// What the text `s`, already trimmed, means against a list of `count`
/// items.
pub open spec fn choice_of(s: Seq<char>, count: nat) -> Choice {
    match parsed_index(s) {
        None => Choice::NotANumber,
        Some(n) => if n < count {
            Choice::Picked(n as usize)
        } else {
            Choice::OutOfRange
        },
    }
}

/// Classifies a trimmed line against a list of `count` items.
pub fn classify(s: &Vec<char>, count: usize) -> (r: Choice)
    ensures
        r == choice_of(s@, count as nat),
{
    match parse_index(s) {
        None => Choice::NotANumber,
        Some(n) => if n < count {
            Choice::Picked(n)
        } else {
            Choice::OutOfRange
        },
    }
}

/// What follows a typed line: the choice is made, or the user is asked
/// again.
#[derive(Debug)]
pub enum Step {
    /// The identifier of the chosen category and the line that confirms it.
    Chosen { id: String, confirmation: String },
    /// The corrective message to show before the next line is read.
    Retry { prompt: String },
}

/// The corrective message for a number out of range: the bounds of the
/// list, or, for a list without items, that there is nothing to choose.
pub open spec fn range_prompt(count: nat) -> Seq<char> {
    if count == 0 {
        "There is no category to choose from:"@
    } else {
        "Please enter a number between 0 and "@ + decimal((count - 1) as nat) + ":"@
    }
}

impl Step {
    /// The step ends the prompt with this identifier and this confirmation.
    pub open spec fn chooses(&self, id: Seq<char>, confirmation: Seq<char>) -> bool {
        match self {
            Step::Chosen { id: i, confirmation: c } => i@ == id && c@ == confirmation,
            _ => false,
        }
    }

    /// The step asks again with this message.
    pub open spec fn asks(&self, prompt: Seq<char>) -> bool {
        match self {
            Step::Retry { prompt: p } => p@ == prompt,
            _ => false,
        }
    }
}

/// `r` is the step that the choice `c` calls for on the list `games`.
pub open spec fn step_for(games: Seq<Games>, c: Choice, r: Step) -> bool {
    match c {
        Choice::Picked(i) => {
            let game = games[i as int];
            r.chooses(game.id@, "Category: "@ + game.name@)
        },
        Choice::NotANumber => r.asks("Please enter a number:"@),
        Choice::OutOfRange => r.asks(range_prompt(games.len())),
    }
}

/// Acts on a choice that was already classified. An index of the list ends
/// the prompt with that category's identifier; anything else asks again and
/// changes nothing.
pub fn resolve(games: &Vec<Games>, c: Choice) -> (r: Step)
    requires
        c is Picked ==> c->Picked_0 < games.len(),
    ensures
        step_for(games@, c, r),
{
    match c {
        Choice::Picked(i) => {
            let mut line: Vec<char> = chars_of("Category: ");
            let name: Vec<char> = chars_of(games[i].name.as_str());
            extend_chars(&mut line, &name);
            Step::Chosen { id: games[i].id.clone(), confirmation: text_of(&line) }
        },
        Choice::NotANumber => Step::Retry { prompt: String::from_str("Please enter a number:") },
        Choice::OutOfRange => {
            if games.len() == 0 {
                return Step::Retry {
                    prompt: String::from_str("There is no category to choose from:"),
                };
            }
            let mut line: Vec<char> = chars_of("Please enter a number between 0 and ");
            let top: Vec<char> = decimal_of((games.len() - 1) as u128);
            extend_chars(&mut line, &top);
            let colon: Vec<char> = chars_of(":");
            extend_chars(&mut line, &colon);
            Step::Retry { prompt: text_of(&line) }
        },
    }
}

/// One round of the category prompt on the typed `line`: the first line
/// that writes an index of the list chooses; every other line asks again.
/// On a list without items no line chooses.
pub fn choose_game(games: &Vec<Games>, line: &str) -> (r: Step)
    ensures
        step_for(games@, choice_of(trimmed(line@), games.len() as nat), r),
        r is Chosen <==> choice_of(trimmed(line@), games.len() as nat) is Picked,
        games.len() == 0 ==> r is Retry,
{
    let chars: Vec<char> = trim(&chars_of(line));
    let c: Choice = classify(&chars, games.len());
    resolve(games, c)
}

/// A line chooses only by an index of the list: whatever is typed, a step
/// for a list of `count` items is a choice exactly when the line writes a
/// number below `count`, and so never on a list without items.
pub proof fn lemma_only_an_index_chooses(games: Seq<Games>, line: Seq<char>, r: Step)
    requires
        step_for(games, choice_of(line, games.len()), r),
    ensures
        r is Chosen <==> (parsed_index(line) is Some && parsed_index(line)->0 < games.len()),
        r is Retry <==> !(r is Chosen),
        games.len() == 0 ==> r is Retry,
{
}

/// The line that lists item `index` of the menu.
pub open spec fn menu_line(index: nat, name: Seq<char>) -> Seq<char> {
    decimal(index) + ": "@ + name
}

/// The menu: one line for each category, numbered from zero, in the order
/// of the list.
pub fn menu(games: &Vec<Games>) -> (r: Vec<String>)
    ensures
        r.len() == games.len(),
        forall|i: int| 0 <= i < games.len() ==> (#[trigger] r[i])@ == menu_line(
            i as nat,
            games[i].name@,
        ),
{
    let mut out: Vec<String> = Vec::new();
    let mut i: usize = 0;
    while i < games.len()
        invariant
            i <= games.len(),
            out.len() == i,
            forall|j: int| 0 <= j < i ==> (#[trigger] out[j])@ == menu_line(
                j as nat,
                games[j].name@,
            ),
        decreases games.len() - i,
    {
        let mut line: Vec<char> = decimal_of(i as u128);
        let sep: Vec<char> = chars_of(": ");
        extend_chars(&mut line, &sep);
        let name: Vec<char> = chars_of(games[i].name.as_str());
        extend_chars(&mut line, &name);
        out.push(text_of(&line));
        i += 1;
    }
    out
}

} // verus!
