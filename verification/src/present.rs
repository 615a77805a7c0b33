//! The result line of one broadcast.

use vstd::prelude::*;
use crate::model::{Entry, EntryView};
use crate::text::{
    chars_of, decimal, extend_chars, filler, pad_end, pad_start, padded_end, padded_start,
    signed_decimal, signed_decimal_of, text_of,
};

verus! {

/// One of the two square brackets.
pub open spec fn is_bracket(c: char) -> bool {
    c == '[' || c == ']'
}

/// `s` without the brackets it begins with.
pub open spec fn strip_front(s: Seq<char>) -> Seq<char>
    decreases s.len(),
{
    if s.len() > 0 && is_bracket(s[0]) {
        strip_front(s.drop_first())
    } else {
        s
    }
}

/// `s` without the brackets it ends with.
pub open spec fn strip_back(s: Seq<char>) -> Seq<char>
    decreases s.len(),
{
    if s.len() > 0 && is_bracket(s.last()) {
        strip_back(s.drop_last())
    } else {
        s
    }
}

/// `s` without the brackets around it.
pub open spec fn strip_brackets(s: Seq<char>) -> Seq<char> {
    strip_back(strip_front(s))
}

/// `s` with every double quote dropped and a space put after every comma.
pub open spec fn spaced(s: Seq<char>) -> Seq<char>
    decreases s.len(),
{
    if s.len() == 0 {
        s
    } else if s.last() == '"' {
        spaced(s.drop_last())
    } else if s.last() == ',' {
        spaced(s.drop_last()).push(',').push(' ')
    } else {
        spaced(s.drop_last()).push(s.last())
    }
}

/// The tag list as a phrase: brackets stripped, quotes dropped, commas
/// spaced.
pub open spec fn tag_phrase(tags: Seq<char>) -> Seq<char> {
    spaced(strip_brackets(tags))
}

/// What stands before the language: nothing for an entry without tags, else
/// the tag phrase and ` tags | `.
pub open spec fn tag_prefix(tags: Seq<char>) -> Seq<char> {
    if tags.len() > 0 {
        tag_phrase(tags) + " tags | "@
    } else {
        Seq::<char>::empty()
    }
}

/// The address field: the channel's address with the name filled up with
/// spaces to fourteen characters.
pub open spec fn address_field(name: Seq<char>) -> Seq<char> {
    "https://twitch.tv/"@ + padded_end(name, 14, ' ')
}

/// The viewers field: the count right-aligned in four characters, then the
/// word `viewers`.
pub open spec fn viewers_field(count: int) -> Seq<char> {
    padded_start(signed_decimal(count), 4, ' ') + " viewers"@
}

/// The whole line of an entry, newline included.
pub open spec fn line_of(e: EntryView) -> Seq<char> {
    tag_prefix(e.tags) + e.lang + " | "@ + address_field(e.display_name) + " | "@ + viewers_field(
        e.viewer_count,
    ) + " | "@ + e.live_duration + " | "@ + e.title + "\n"@
}

/// No character of `s` is a vertical bar.
pub open spec fn bar_free(s: Seq<char>) -> bool {
    forall|i: int| 0 <= i < s.len() ==> s[i] != '|'
}

/// The last three characters of `s` are the separator ` | `.
pub open spec fn ends_with_separator(s: Seq<char>) -> bool {
    s.len() >= 3 && s[s.len() - 3] == ' ' && s[s.len() - 2] == '|' && s[s.len() - 1] == ' '
}

/// How many times the separator ` | ` occurs in `s`.
pub open spec fn separator_count(s: Seq<char>) -> nat
    decreases s.len(),
{
    if s.len() == 0 {
        0
    } else if ends_with_separator(s) {
        separator_count(s.drop_last()) + 1
    } else {
        separator_count(s.drop_last())
    }
}

/// `s` does not end with a vertical bar.
pub open spec fn closed(s: Seq<char>) -> bool {
    s.len() == 0 || s.last() != '|'
}

/// `s` does not begin with a vertical bar.
pub open spec fn opened(s: Seq<char>) -> bool {
    s.len() == 0 || s[0] != '|'
}

/// How many separators lie across the seam where `y` is put after `x`: one
/// where `x` ends with a space and a bar and `y` begins with a space, one
/// where `x` ends with a space and `y` begins with a bar and a space.
pub open spec fn seam(x: Seq<char>, y: Seq<char>) -> nat {
    let before: nat = if x.len() >= 2 && y.len() >= 1 && x[x.len() - 2] == ' ' && x[x.len() - 1]
        == '|' && y[0] == ' ' {
        1
    } else {
        0
    };
    let after: nat = if x.len() >= 1 && y.len() >= 2 && x[x.len() - 1] == ' ' && y[0] == '|'
        && y[1] == ' ' {
        1
    } else {
        0
    };
    before + after
}

/// The last character of `a` as a text, empty where `a` is empty.
pub open spec fn last_of(a: Seq<char>) -> Seq<char> {
    if a.len() > 0 {
        seq![a.last()]
    } else {
        Seq::<char>::empty()
    }
}

/// The first character of `b` as a text, empty where `b` is empty.
pub open spec fn first_of(b: Seq<char>) -> Seq<char> {
    if b.len() > 0 {
        seq![b[0]]
    } else {
        Seq::<char>::empty()
    }
}

/// A text of fewer than three characters holds no separator.
pub proof fn lemma_short_has_none(s: Seq<char>)
    requires
        s.len() < 3,
    ensures
        separator_count(s) == 0,
    decreases s.len(),
{
    if s.len() > 0 {
        lemma_short_has_none(s.drop_last());
    }
}

/// The separators of a joined text are those of its two parts and those
/// across the seam.
pub proof fn lemma_join_exact(x: Seq<char>, y: Seq<char>)
    ensures
        separator_count(x + y) == separator_count(x) + separator_count(y) + seam(x, y),
    decreases y.len(),
{
    if y.len() == 0 {
        assert(x + y =~= x);
    } else {
        let y1 = y.drop_last();
        let z = x + y;
        assert(z.drop_last() =~= x + y1);
        lemma_join_exact(x, y1);
        assert(z[z.len() - 1] == y[y.len() - 1]);
        if y.len() >= 2 {
            assert(z[z.len() - 2] == y[y.len() - 2]);
            assert(y1[0] == y[0]);
        } else if x.len() >= 1 {
            assert(z[z.len() - 2] == x[x.len() - 1]);
        }
        if y.len() >= 3 {
            assert(z[z.len() - 3] == y[y.len() - 3]);
            assert(y1[1] == y[1]);
        } else if y.len() == 2 && x.len() >= 1 {
            assert(z[z.len() - 3] == x[x.len() - 1]);
        } else if y.len() == 1 && x.len() >= 2 {
            assert(z[z.len() - 3] == x[x.len() - 2]);
        }
    }
}

/// Where no bar stands at the seam, the separators of a joined text are
/// those of its two parts.
pub proof fn lemma_join(x: Seq<char>, y: Seq<char>)
    requires
        closed(x),
        opened(y),
    ensures
        separator_count(x + y) == separator_count(x) + separator_count(y),
{
    lemma_join_exact(x, y);
}

/// A text `f` set between `a` and `b`, neither of which has a bar next to
/// it, adds the separators that it makes with the one character on either
/// side, and no other.
pub proof fn lemma_embed(a: Seq<char>, f: Seq<char>, b: Seq<char>)
    requires
        closed(a),
        opened(b),
    ensures
        separator_count(a + f + b) == separator_count(a) + separator_count(b) + separator_count(
            last_of(a) + f + first_of(b),
        ),
{
    let l = last_of(a);
    let r = first_of(b);
    lemma_join_exact(a, f);
    lemma_join_exact(a + f, b);
    lemma_join_exact(l, f);
    lemma_join_exact(l + f, r);
    lemma_short_has_none(l);
    lemma_short_has_none(r);
    assert(seam(a, f) == seam(l, f));
    let af = a + f;
    let lf = l + f;
    if f.len() >= 2 {
        assert(af[af.len() - 1] == f[f.len() - 1] && af[af.len() - 2] == f[f.len() - 2]);
        assert(lf[lf.len() - 1] == f[f.len() - 1] && lf[lf.len() - 2] == f[f.len() - 2]);
    } else if f.len() == 1 {
        assert(af[af.len() - 1] == f[0]);
        assert(lf[lf.len() - 1] == f[0]);
        if a.len() > 0 {
            assert(af[af.len() - 2] == a.last());
            assert(lf[lf.len() - 2] == a.last());
        }
    } else {
        assert(af =~= a);
        assert(lf =~= l);
    }
    assert(seam(af, b) == seam(lf, r));
}

/// A text without a bar holds no separator and has no bar at either end.
pub proof fn lemma_bar_free_quiet(s: Seq<char>)
    requires
        bar_free(s),
    ensures
        separator_count(s) == 0,
        opened(s),
        closed(s),
    decreases s.len(),
{
    if s.len() > 0 {
        lemma_bar_free_quiet(s.drop_last());
    }
}

/// The separator holds itself once.
pub proof fn lemma_separator_alone()
    ensures
        separator_count(" | "@) == 1,
        " | "@.len() == 3,
        " | "@[0] == ' ',
        " | "@[2] == ' ',
{
    reveal_strlit(" | ");
    let sep = " | "@;
    lemma_short_has_none(sep.drop_last());
}

/// Digits hold no bar.
pub proof fn lemma_decimal_bar_free(n: nat)
    ensures
        bar_free(decimal(n)),
    decreases n,
{
    if n >= 10 {
        lemma_decimal_bar_free(n / 10);
    }
}

/// The viewers field holds no bar.
pub proof fn lemma_viewers_bar_free(count: int)
    ensures
        bar_free(viewers_field(count)),
        viewers_field(count).len() > 0,
{
    reveal_strlit(" viewers");
    if count < 0 {
        lemma_decimal_bar_free((-count) as nat);
    } else {
        lemma_decimal_bar_free(count as nat);
    }
    assert(bar_free(signed_decimal(count)));
}

/// A space where `present` holds, nothing otherwise.
pub open spec fn space_if(present: bool) -> Seq<char> {
    if present {
        seq![' ']
    } else {
        Seq::<char>::empty()
    }
}

/// The separators that every line has: one after the tag phrase where the
/// entry has tags, then one each after language, address, viewers and
/// elapsed time.
pub open spec fn fixed_separators(e: EntryView) -> nat {
    if e.tags.len() > 0 {
        5
    } else {
        4
    }
}

/// The separators that the texts of an entry bring into its line: those
/// that each text makes together with the one character that stands before
/// it in the line and the one that stands after it.
pub open spec fn stray_separators(e: EntryView) -> nat {
    let with_tags = e.tags.len() > 0;
    let in_tags: nat = if with_tags {
        separator_count(tag_phrase(e.tags) + seq![' '])
    } else {
        0
    };
    in_tags + separator_count(space_if(with_tags) + e.lang + seq![' ']) + separator_count(
        seq!['/'] + e.display_name + seq![' '],
    ) + separator_count(seq![' '] + e.live_duration + seq![' ']) + separator_count(
        seq![' '] + e.title + seq!['\n'],
    )
}

/// The line of every entry holds its fixed separators and, beyond them,
/// exactly the strays that its texts bring in. So it holds exactly four
/// separators, five with tags, if and only if its texts bring in none; and
/// it ends with a newline.
pub proof fn lemma_separators(e: EntryView)
    ensures
        separator_count(line_of(e)) == fixed_separators(e) + stray_separators(e),
        separator_count(line_of(e)) >= fixed_separators(e),
        separator_count(line_of(e)) == fixed_separators(e) <==> stray_separators(e) == 0,
        line_of(e).len() > 0 && line_of(e).last() == '\n',
{
    reveal_strlit(" tags | ");
    reveal_strlit(" tags");
    reveal_strlit(" | ");
    reveal_strlit("https://twitch.tv/");
    reveal_strlit("\n");
    lemma_separator_alone();
    lemma_viewers_bar_free(e.viewer_count);
    let sep = " | "@;
    let head = "https://twitch.tv/"@;
    let pad = filler(' ', 14 - e.display_name.len());
    let view = viewers_field(e.viewer_count);
    let nl = "\n"@;
    let none = Seq::<char>::empty();
    let with_tags = e.tags.len() > 0;

    // What stands before the language.
    let a0 = tag_prefix(e.tags);
    if with_tags {
        let phrase = tag_phrase(e.tags);
        let g0 = " tags | "@;
        assert(bar_free(" tags"@));
        lemma_bar_free_quiet(" tags"@);
        assert(g0 =~= " tags"@ + sep);
        lemma_join(" tags"@, sep);
        lemma_embed(none, phrase, g0);
        assert(none + phrase + g0 =~= a0);
        assert(last_of(none) + phrase + first_of(g0) =~= phrase + seq![' ']);
        assert(last_of(a0) =~= space_if(with_tags));
    } else {
        assert(last_of(a0) =~= space_if(with_tags));
    }

    // The language, then the separator and the head of the address.
    let g1 = sep + head;
    assert(bar_free(head));
    lemma_bar_free_quiet(head);
    lemma_join(sep, head);
    lemma_embed(a0, e.lang, g1);
    let a1 = a0 + e.lang + g1;
    assert(first_of(g1) =~= seq![' ']);
    assert(last_of(a1) =~= seq!['/']);

    // The name, then its padding and the separator.
    let g2 = pad + sep;
    assert(bar_free(pad));
    lemma_bar_free_quiet(pad);
    lemma_join(pad, sep);
    lemma_embed(a1, e.display_name, g2);
    let a2 = a1 + e.display_name + g2;
    assert(first_of(g2) =~= seq![' ']);

    // The viewers and the separator.
    let g3 = view + sep;
    lemma_bar_free_quiet(view);
    lemma_join(view, sep);
    lemma_join(a2, g3);
    let a3 = a2 + g3;
    assert(last_of(a3) =~= seq![' ']);

    // The elapsed time and the separator.
    lemma_embed(a3, e.live_duration, sep);
    let a4 = a3 + e.live_duration + sep;
    assert(first_of(sep) =~= seq![' ']);
    assert(last_of(a4) =~= seq![' ']);

    // The title and the newline.
    lemma_short_has_none(nl);
    lemma_embed(a4, e.title, nl);
    let a5 = a4 + e.title + nl;
    assert(first_of(nl) =~= seq!['\n']);

    assert(address_field(e.display_name) =~= head + e.display_name + pad);
    assert(line_of(e) =~= a5);
}

/// Texts without a bar bring in no stray separator.
pub proof fn lemma_no_bar_no_stray(e: EntryView)
    requires
        e.tags.len() > 0 ==> bar_free(tag_phrase(e.tags)),
        bar_free(e.lang),
        bar_free(e.display_name),
        bar_free(e.live_duration),
        bar_free(e.title),
    ensures
        stray_separators(e) == 0,
        separator_count(line_of(e)) == fixed_separators(e),
{
    if e.tags.len() > 0 {
        lemma_bar_free_quiet(tag_phrase(e.tags) + seq![' ']);
    }
    lemma_bar_free_quiet(space_if(e.tags.len() > 0) + e.lang + seq![' ']);
    lemma_bar_free_quiet(seq!['/'] + e.display_name + seq![' ']);
    lemma_bar_free_quiet(seq![' '] + e.live_duration + seq![' ']);
    lemma_bar_free_quiet(seq![' '] + e.title + seq!['\n']);
    lemma_separators(e);
}

/// Strips the brackets around `s`.
pub fn strip(s: &Vec<char>) -> (r: Vec<char>)
    ensures
        r@ == strip_brackets(s@),
{
    let n: usize = s.len();
    let mut lo: usize = 0;
    assert(s@.subrange(0, n as int) =~= s@);
    while lo < n && (s[lo] == '[' || s[lo] == ']')
        invariant
            lo <= n,
            n == s.len(),
            strip_front(s@) == strip_front(s@.subrange(lo as int, n as int)),
        decreases n - lo,
    {
        assert(s@.subrange(lo as int, n as int).drop_first() =~= s@.subrange(lo + 1, n as int));
        lo += 1;
    }
    assert(strip_front(s@) == s@.subrange(lo as int, n as int));
    let mut hi: usize = n;
    while hi > lo && (s[hi - 1] == '[' || s[hi - 1] == ']')
        invariant
            lo <= hi <= n,
            n == s.len(),
            strip_back(s@.subrange(lo as int, n as int)) == strip_back(
                s@.subrange(lo as int, hi as int),
            ),
        decreases hi,
    {
        assert(s@.subrange(lo as int, hi as int).drop_last() =~= s@.subrange(lo as int, hi - 1));
        hi -= 1;
    }
    assert(strip_back(s@.subrange(lo as int, hi as int)) == s@.subrange(lo as int, hi as int));
    let mut out: Vec<char> = Vec::new();
    let mut i: usize = lo;
    while i < hi
        invariant
            lo <= i <= hi <= n,
            n == s.len(),
            out@ == s@.subrange(lo as int, i as int),
        decreases hi - i,
    {
        out.push(s[i]);
        i += 1;
        assert(out@ =~= s@.subrange(lo as int, i as int));
    }
    out
}

/// Drops the double quotes of `s` and puts a space after each comma.
pub fn space_out(s: &Vec<char>) -> (r: Vec<char>)
    ensures
        r@ == spaced(s@),
{
    let mut out: Vec<char> = Vec::new();
    let mut i: usize = 0;
    while i < s.len()
        invariant
            i <= s.len(),
            out@ == spaced(s@.subrange(0, i as int)),
        decreases s.len() - i,
    {
        assert(s@.subrange(0, i + 1).drop_last() =~= s@.subrange(0, i as int));
        let c: char = s[i];
        if c == '"' {
        } else if c == ',' {
            out.push(',');
            out.push(' ');
        } else {
            out.push(c);
        }
        i += 1;
    }
    assert(s@.subrange(0, i as int) =~= s@);
    out
}

/// Appends the characters of `s` to `out`.
pub fn push_text(out: &mut Vec<char>, s: &str)
    ensures
        final(out)@ == old(out)@ + s@,
{
    let chars: Vec<char> = chars_of(s);
    extend_chars(out, &chars);
}

/// The line that shows `entry`: the tag phrase where there are tags, then
/// language, address, viewers, elapsed time and title, each two parted by
/// ` | `, and a newline.
pub fn present(entry: &Entry) -> (r: String)
    ensures
        r@ == line_of(entry@),
{
    let mut out: Vec<char> = Vec::new();
    let tags: Vec<char> = chars_of(entry.tags.as_str());
    if tags.len() > 0 {
        let phrase: Vec<char> = space_out(&strip(&tags));
        extend_chars(&mut out, &phrase);
        push_text(&mut out, " tags | ");
    }
    assert(out@ =~= tag_prefix(entry@.tags));
    push_text(&mut out, entry.lang.as_str());
    push_text(&mut out, " | ");
    push_text(&mut out, "https://twitch.tv/");
    let name: Vec<char> = pad_end(&chars_of(entry.display_name.as_str()), 14, ' ');
    extend_chars(&mut out, &name);
    push_text(&mut out, " | ");
    let count: Vec<char> = pad_start(&signed_decimal_of(entry.viewer_count), 4, ' ');
    extend_chars(&mut out, &count);
    push_text(&mut out, " viewers");
    push_text(&mut out, " | ");
    push_text(&mut out, entry.live_duration.as_str());
    push_text(&mut out, " | ");
    push_text(&mut out, entry.title.as_str());
    push_text(&mut out, "\n");
    assert(out@ =~= line_of(entry@));
    text_of(&out)
}

} // verus!
