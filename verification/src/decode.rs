//! From decoded JSON records to categories and broadcasts.

use vstd::prelude::*;
use vstd::string::*;
use serde_json::Value;
use crate::clock::{current_time, duration_text, live_duration, parsed_start, Moment};
use crate::json::{
    cursor_of, data_items, data_of, decode_body, integer_field, json_parsed, next_cursor,
    raw_field, raw_text, required_integer, required_text, text_field,
};
use crate::model::{
    entry_views, games_views, text_view, Entry, EntryView, Failure, Games, GamesView,
};

verus! {

/// What one record of a stream listing decodes to at the time `now`: the
/// broadcast, or the name of the first required field that is absent or
/// mistyped. The fields are tried in the order `language`, `user_name`,
/// `title`, `game_id`, `viewer_count`, `started_at`, `id`; `tags` is
/// optional, and a start time that cannot be read empties only the duration.
pub open spec fn decoded_entry(v: Value, now: Moment) -> Result<EntryView, Seq<char>> {
    if text_field(v, "language"@) is None {
        Err("language"@)
    } else if text_field(v, "user_name"@) is None {
        Err("user_name"@)
    } else if text_field(v, "title"@) is None {
        Err("title"@)
    } else if text_field(v, "game_id"@) is None {
        Err("game_id"@)
    } else if integer_field(v, "viewer_count"@) is None {
        Err("viewer_count"@)
    } else if text_field(v, "started_at"@) is None {
        Err("started_at"@)
    } else if text_field(v, "id"@) is None {
        Err("id"@)
    } else {
        Ok(
            EntryView {
                lang: text_field(v, "language"@)->0,
                display_name: text_field(v, "user_name"@)->0,
                title: text_field(v, "title"@)->0,
                game_id: text_field(v, "game_id"@)->0,
                viewer_count: integer_field(v, "viewer_count"@)->0 as int,
                live_duration: duration_text(
                    parsed_start(text_field(v, "started_at"@)->0),
                    now,
                ),
                user_id: text_field(v, "id"@)->0,
                tags: raw_field(v, "tags"@),
            },
        )
    }
}

/// What one record of a category listing decodes to: the category, or the
/// name of the first required field that is absent, mistyped or, for `id`,
/// empty.
pub open spec fn decoded_category(v: Value) -> Result<GamesView, Seq<char>> {
    if text_field(v, "name"@) is None {
        Err("name"@)
    } else if text_field(v, "id"@) is None || text_field(v, "id"@)->0.len() == 0 {
        Err("id"@)
    } else {
        Ok(GamesView { name: text_field(v, "name"@)->0, id: text_field(v, "id"@)->0 })
    }
}

/// A run of records decoded in order: all the broadcasts, or the field named
/// by the first record that fails.
pub open spec fn decoded_entries(items: Seq<Value>, now: Moment) -> Result<
    Seq<EntryView>,
    Seq<char>,
>
    decreases items.len(),
{
    if items.len() == 0 {
        Ok(Seq::<EntryView>::empty())
    } else {
        match decoded_entries(items.drop_last(), now) {
            Err(k) => Err(k),
            Ok(head) => match decoded_entry(items.last(), now) {
                Ok(e) => Ok(head.push(e)),
                Err(k) => Err(k),
            },
        }
    }
}

/// A run of records decoded in order: all the categories, or the field named
/// by the first record that fails.
pub open spec fn decoded_categories(items: Seq<Value>) -> Result<Seq<GamesView>, Seq<char>>
    decreases items.len(),
{
    if items.len() == 0 {
        Ok(Seq::<GamesView>::empty())
    } else {
        match decoded_categories(items.drop_last()) {
            Err(k) => Err(k),
            Ok(head) => match decoded_category(items.last()) {
                Ok(g) => Ok(head.push(g)),
                Err(k) => Err(k),
            },
        }
    }
}

/// A start time that cannot be read empties the elapsed time and touches
/// nothing else: the record still decodes, and every other field is what the
/// record holds.
pub proof fn lemma_unreadable_start(v: Value, now: Moment)
    requires
        decoded_entry(v, now) is Ok,
        parsed_start(text_field(v, "started_at"@)->0) is None,
    ensures
        decoded_entry(v, now) == Ok::<EntryView, Seq<char>>(
            EntryView {
                lang: text_field(v, "language"@)->0,
                display_name: text_field(v, "user_name"@)->0,
                title: text_field(v, "title"@)->0,
                game_id: text_field(v, "game_id"@)->0,
                viewer_count: integer_field(v, "viewer_count"@)->0 as int,
                live_duration: Seq::<char>::empty(),
                user_id: text_field(v, "id"@)->0,
                tags: raw_field(v, "tags"@),
            },
        ),
{
}

/// The clock decides nothing but the elapsed time: a record decodes at one
/// time exactly when it decodes at another, fails on the same field, and the
/// two broadcasts agree in every other field.
pub proof fn lemma_clock_touches_only_duration(v: Value, a: Moment, b: Moment)
    ensures
        decoded_entry(v, a) is Ok <==> decoded_entry(v, b) is Ok,
        decoded_entry(v, a) is Err ==> decoded_entry(v, a) == decoded_entry(v, b),
        decoded_entry(v, a) is Ok ==> decoded_entry(v, a)->Ok_0 == (EntryView {
            live_duration: decoded_entry(v, a)->Ok_0.live_duration,
            ..decoded_entry(v, b)->Ok_0
        }),
{
}

/// `r` is what the record `v` decodes to at `now`: the broadcast, or the
/// failure that names the first field at fault.
pub open spec fn entry_outcome(v: Value, now: Moment, r: Result<Entry, Failure>) -> bool {
    match r {
        Ok(e) => decoded_entry(v, now) == Ok::<EntryView, Seq<char>>(e@),
        Err(f) => decoded_entry(v, now) is Err && f.names_field(decoded_entry(v, now)->Err_0),
    }
}

/// Decodes one record of a stream listing as seen at `now`.
pub fn to_entry_at(value: &Value, now: Moment) -> (r: Result<Entry, Failure>)
    ensures
        entry_outcome(*value, now, r),
{
    let lang: String = match required_text(value, "language") {
        Ok(s) => s,
        Err(f) => { return Err(f); },
    };
    let display_name: String = match required_text(value, "user_name") {
        Ok(s) => s,
        Err(f) => { return Err(f); },
    };
    let title: String = match required_text(value, "title") {
        Ok(s) => s,
        Err(f) => { return Err(f); },
    };
    let game_id: String = match required_text(value, "game_id") {
        Ok(s) => s,
        Err(f) => { return Err(f); },
    };
    let viewer_count: i64 = match required_integer(value, "viewer_count") {
        Ok(n) => n,
        Err(f) => { return Err(f); },
    };
    let started_at: String = match required_text(value, "started_at") {
        Ok(s) => s,
        Err(f) => { return Err(f); },
    };
    let user_id: String = match required_text(value, "id") {
        Ok(s) => s,
        Err(f) => { return Err(f); },
    };
    let live: String = live_duration(started_at.as_str(), now);
    let tags: String = raw_text(value, "tags");
    Ok(
        Entry {
            lang,
            display_name,
            title,
            game_id,
            viewer_count,
            live_duration: live,
            user_id,
            tags,
        },
    )
}

/// Decodes one record of a stream listing as seen on the system clock. Which
/// fields are required does not depend on the clock, so the record fails
/// here exactly when it fails at every time.
pub fn to_entry(value: &Value) -> (r: Result<Entry, Failure>)
    ensures
        exists|now: Moment| entry_outcome(*value, now, r),
{
    let now: Moment = current_time();
    let r = to_entry_at(value, now);
    assert(entry_outcome(*value, now, r));
    r
}

/// Decodes one record of a category listing. The category that comes back is
/// well formed.
pub fn to_category(value: &Value) -> (r: Result<Games, Failure>)
    ensures
        match r {
            Ok(g) => decoded_category(*value) == Ok::<GamesView, Seq<char>>(g@) && g.well_formed(),
            Err(f) => decoded_category(*value) is Err && f.names_field(
                decoded_category(*value)->Err_0,
            ),
        },
{
    let name: String = match required_text(value, "name") {
        Ok(s) => s,
        Err(f) => { return Err(f); },
    };
    let id: String = match required_text(value, "id") {
        Ok(s) => s,
        Err(f) => { return Err(f); },
    };
    if id.as_str().unicode_len() == 0 {
        return Err(Failure::Field { key: String::from_str("id") });
    }
    Ok(Games { name, id })
}

/// Every category in `list` has an identifier.
pub open spec fn all_well_formed(list: Seq<Games>) -> bool {
    forall|i: int| 0 <= i < list.len() ==> (#[trigger] list[i]).well_formed()
}

/// What a category response decodes to: `Failure::NoData` where it has no
/// `data` array, the first record's failing field otherwise, else all the
/// categories in the order of the response.
pub open spec fn categories_outcome(body: Value, r: Result<Vec<Games>, Failure>) -> bool {
    match data_of(body) {
        None => r matches Err(f) && f is NoData,
        Some(items) => match decoded_categories(items) {
            Ok(list) => r matches Ok(gs) && games_views(gs@) == list && all_well_formed(gs@),
            Err(k) => r matches Err(f) && f.names_field(k),
        },
    }
}

/// Decodes the categories of a response.
pub fn to_categories(body: &Value) -> (r: Result<Vec<Games>, Failure>)
    ensures
        categories_outcome(*body, r),
{
    let items: &Vec<Value> = match data_items(body) {
        Some(a) => a,
        None => { return Err(Failure::NoData); },
    };
    let mut out: Vec<Games> = Vec::new();
    let mut i: usize = 0;
    assert(games_views(out@) =~= Seq::<GamesView>::empty());
    while i < items.len()
        invariant
            i <= items.len(),
            data_of(*body) == Some(items@),
            decoded_categories(items@.subrange(0, i as int)) == Ok::<Seq<GamesView>, Seq<char>>(
                games_views(out@),
            ),
            all_well_formed(out@),
        decreases items.len() - i,
    {
        proof {
            assert(items@.subrange(0, i + 1).drop_last() =~= items@.subrange(0, i as int));
        }
        match to_category(&items[i]) {
            Ok(g) => {
                let ghost before = out@;
                out.push(g);
                assert(games_views(out@) =~= games_views(before).push(g@));
            },
            Err(f) => {
                proof {
                    lemma_categories_fail(items@, i as int);
                }
                return Err(f);
            },
        }
        i += 1;
    }
    assert(items@.subrange(0, i as int) =~= items@);
    Ok(out)
}

/// Once a prefix of the records has failed, the whole run fails on the same
/// field.
pub proof fn lemma_categories_fail(items: Seq<Value>, i: int)
    requires
        0 <= i < items.len(),
        decoded_categories(items.subrange(0, i + 1)) is Err,
    ensures
        decoded_categories(items) == decoded_categories(items.subrange(0, i + 1)),
    decreases items.len() - i,
{
    if i + 1 == items.len() {
        assert(items.subrange(0, i + 1) =~= items);
    } else {
        assert(items.subrange(0, i + 2).drop_last() =~= items.subrange(0, i + 1));
        lemma_categories_fail(items, i + 1);
    }
}

/// Once a prefix of the records has failed, the whole run fails on the same
/// field.
pub proof fn lemma_entries_fail(items: Seq<Value>, now: Moment, i: int)
    requires
        0 <= i < items.len(),
        decoded_entries(items.subrange(0, i + 1), now) is Err,
    ensures
        decoded_entries(items, now) == decoded_entries(items.subrange(0, i + 1), now),
    decreases items.len() - i,
{
    if i + 1 == items.len() {
        assert(items.subrange(0, i + 1) =~= items);
    } else {
        assert(items.subrange(0, i + 2).drop_last() =~= items.subrange(0, i + 1));
        lemma_entries_fail(items, now, i + 1);
    }
}

/// What a stream response decodes to at `now`: `Failure::NoData` where it
/// has no `data` array, the first record's failing field otherwise, else all
/// the broadcasts in the order of the response with the cursor of the next
/// page.
pub open spec fn streams_outcome(
    body: Value,
    now: Moment,
    r: Result<(Vec<Entry>, Option<String>), Failure>,
) -> bool {
    match data_of(body) {
        None => r matches Err(f) && f is NoData,
        Some(items) => match decoded_entries(items, now) {
            Ok(list) => r matches Ok(page) && entry_views(page.0@) == list && text_view(page.1)
                == cursor_of(body),
            Err(k) => r matches Err(f) && f.names_field(k),
        },
    }
}

/// Decodes the broadcasts of a response as seen at `now`, with the cursor of
/// the page that follows. A page without records is a page like any other:
/// its cursor is handed on.
pub fn to_streams(body: &Value, now: Moment) -> (r: Result<(Vec<Entry>, Option<String>), Failure>)
    ensures
        streams_outcome(*body, now, r),
{
    let items: &Vec<Value> = match data_items(body) {
        Some(a) => a,
        None => { return Err(Failure::NoData); },
    };
    let mut out: Vec<Entry> = Vec::new();
    let mut i: usize = 0;
    assert(entry_views(out@) =~= Seq::<EntryView>::empty());
    while i < items.len()
        invariant
            i <= items.len(),
            data_of(*body) == Some(items@),
            decoded_entries(items@.subrange(0, i as int), now) == Ok::<
                Seq<EntryView>,
                Seq<char>,
            >(entry_views(out@)),
        decreases items.len() - i,
    {
        proof {
            assert(items@.subrange(0, i + 1).drop_last() =~= items@.subrange(0, i as int));
        }
        match to_entry_at(&items[i], now) {
            Ok(e) => {
                let ghost before = out@;
                out.push(e);
                assert(entry_views(out@) =~= entry_views(before).push(e@));
            },
            Err(f) => {
                proof {
                    lemma_entries_fail(items@, now, i as int);
                }
                return Err(f);
            },
        }
        i += 1;
    }
    assert(items@.subrange(0, i as int) =~= items@);
    let cursor: Option<String> = next_cursor(body);
    Ok((out, cursor))
}

/// Categories from the text of a response: `Failure::Body` where the text is
/// not JSON, else what the decoded response gives.
pub fn fetch_categories(body_text: &str) -> (r: Result<Vec<Games>, Failure>)
    ensures
        match json_parsed(body_text@) {
            None => r matches Err(f) && f is Body,
            Some(body) => categories_outcome(body, r),
        },
{
    match decode_body(body_text) {
        Ok(body) => to_categories(&body),
        Err(f) => Err(f),
    }
}

/// Broadcasts and next cursor from the text of a response, with durations
/// taken against the system clock: `Failure::Body` where the text is not
/// JSON, else what the decoded response gives at some time.
pub fn fetch_streams(body_text: &str) -> (r: Result<(Vec<Entry>, Option<String>), Failure>)
    ensures
        json_parsed(body_text@) is None ==> (r matches Err(f) && f is Body),
        json_parsed(body_text@) is Some ==> exists|now: Moment| #[trigger]
            streams_outcome(json_parsed(body_text@)->0, now, r),
{
    match decode_body(body_text) {
        Ok(body) => {
            let now: Moment = current_time();
            let r = to_streams(&body, now);
            assert(streams_outcome(json_parsed(body_text@)->0, now, r));
            r
        },
        Err(f) => Err(f),
    }
}

} // verus!
