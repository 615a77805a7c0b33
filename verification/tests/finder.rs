use streamfind::clock::{duration_since, format_clock, live_duration, seconds_between, to_instant, Moment};
use streamfind::decode::{
    fetch_categories, fetch_streams, to_categories, to_category, to_entry, to_entry_at, to_streams,
};
use streamfind::filter::{filter, filter_lowered, is_blocked, lower_term, same_text};
use streamfind::json::{
    data_items, decode_body, next_cursor, raw_text, required_integer, required_text,
};
use streamfind::model::{Entry, Failure, Games};
use streamfind::present::{present, space_out, strip};
use streamfind::select::{
    choose_game, choose_term, classify, menu, parse_index, resolve, trim, Choice, Step,
};
use streamfind::session::{
    authorization, categories_url, credentials, default_blocked, failure_message, request_url,
    scan_page, streams_url, summary, Progress,
};
use streamfind::text::{
    chars_of, decimal_of, find_text, matches_at, pad_end, pad_start, signed_decimal_of, text_of,
};

const EPOCH_2021: i64 = 1_609_459_200;

fn chars(s: &str) -> Vec<char> {
    s.chars().collect()
}

fn entry(name: &str, title: &str) -> Entry {
    Entry {
        lang: "en".to_string(),
        display_name: name.to_string(),
        title: title.to_string(),
        game_id: "33214".to_string(),
        viewer_count: 42,
        live_duration: "01:30".to_string(),
        user_id: "9001".to_string(),
        tags: String::new(),
    }
}

fn record(name: &str, title: &str) -> String {
    format!(
        "{{\"id\":\"9001\",\"user_name\":\"{}\",\"game_id\":\"33214\",\"title\":\"{}\",\"viewer_count\":17,\"started_at\":\"2021-01-01T00:00:00Z\",\"language\":\"en\",\"tags\":[\"English\",\"Chill\"]}}",
        name, title
    )
}

fn page(records: &[String], cursor: Option<&str>) -> String {
    let tail = match cursor {
        Some(c) => format!("{{\"cursor\":\"{}\"}}", c),
        None => "{}".to_string(),
    };
    format!("{{\"data\":[{}],\"pagination\":{}}}", records.join(","), tail)
}

fn games() -> Vec<Games> {
    vec![
        Games { name: "Chess".to_string(), id: "743".to_string() },
        Games { name: "Fortnite".to_string(), id: "33214".to_string() },
        Games { name: "Tetris".to_string(), id: "2748".to_string() },
    ]
}

fn count_of(hay: &str, needle: &str) -> usize {
    hay.matches(needle).count()
}

#[test]
fn present_without_tags_has_four_separators() {
    let line = present(&entry("Streamer", "Ranked Matches Tonight!"));
    assert_eq!(
        line,
        "en | https://twitch.tv/Streamer       |   42 viewers | 01:30 | Ranked Matches Tonight!\n"
    );
    assert_eq!(count_of(&line, " | "), 4);
}

#[test]
fn present_with_tags_has_five_separators() {
    let mut e = entry("Streamer", "Ranked Matches Tonight!");
    e.tags = "[\"English\",\"Speedrun\"]".to_string();
    let line = present(&e);
    assert_eq!(
        line,
        "English, Speedrun tags | en | https://twitch.tv/Streamer       |   42 viewers | 01:30 | Ranked Matches Tonight!\n"
    );
    assert_eq!(count_of(&line, " | "), 5);
}

fn separators(text: &str) -> usize {
    let all: Vec<char> = text.chars().collect();
    all.windows(3).filter(|w| w[0] == ' ' && w[1] == '|' && w[2] == ' ').count()
}

fn strays(e: &Entry) -> usize {
    let phrase: String = space_out(&strip(&chars(&e.tags))).into_iter().collect();
    let (in_tags, lead) = if e.tags.is_empty() {
        (0, "")
    } else {
        (separators(&format!("{} ", phrase)), " ")
    };
    in_tags
        + separators(&format!("{}{} ", lead, e.lang))
        + separators(&format!("/{} ", e.display_name))
        + separators(&format!(" {} ", e.live_duration))
        + separators(&format!(" {}\n", e.title))
}

#[test]
fn separators_are_the_fixed_ones_and_the_strays() {
    let texts = ["", "x", "|", " |", "| ", " | ", "a|b", "a | b", "| |", " | | ", "||", "a |", "| a"];
    let tags = ["", "[\"a\",\"b\"]", "[\"a |\"]", "[\"x\",| y]", "|"];
    let mut seen_stray = false;
    for tag in tags {
        for lang in texts {
            for other in texts {
                let e = Entry {
                    lang: lang.to_string(),
                    display_name: other.to_string(),
                    title: other.to_string(),
                    game_id: String::new(),
                    viewer_count: 7,
                    live_duration: lang.to_string(),
                    user_id: String::new(),
                    tags: tag.to_string(),
                };
                let line = present(&e);
                let fixed = if tag.is_empty() { 4 } else { 5 };
                assert_eq!(separators(&line), fixed + strays(&e), "{:?}", e);
                assert!(line.ends_with('\n'));
                seen_stray = seen_stray || strays(&e) > 0;
            }
        }
    }
    assert!(seen_stray);
    let mut e = entry("Streamer", "a|b");
    assert_eq!(separators(&present(&e)), 4);
    e.title = "a | b".to_string();
    assert_eq!(separators(&present(&e)), 5);
    e.title = "t".to_string();
    e.lang = " |".to_string();
    assert_eq!(separators(&present(&e)), 5);
}

#[test]
fn present_keeps_long_names_and_wide_counts() {
    let mut e = entry("AVeryLongChannelName", "t");
    e.viewer_count = 123_456;
    e.live_duration = String::new();
    assert_eq!(present(&e), "en | https://twitch.tv/AVeryLongChannelName | 123456 viewers |  | t\n");
    e.viewer_count = -5;
    assert_eq!(present(&e), "en | https://twitch.tv/AVeryLongChannelName |   -5 viewers |  | t\n");
}

#[test]
fn strip_removes_outer_brackets_only() {
    assert_eq!(strip(&chars("[[a,[b]]]")), chars("a,[b"));
    assert_eq!(strip(&chars("null")), chars("null"));
    assert_eq!(strip(&chars("[]")), chars(""));
    assert_eq!(strip(&chars("")), chars(""));
}

#[test]
fn space_out_drops_quotes_and_spaces_commas() {
    assert_eq!(space_out(&chars("\"a\",\"b\",c")), chars("a, b, c"));
    assert_eq!(space_out(&chars("")), chars(""));
}

#[test]
fn filter_rejects_blocked_name_whatever_the_title() {
    let blocked = vec!["shadowbanneduser".to_string()];
    let e = entry("ShadowBannedUser", "Ranked Matches Tonight!");
    assert!(!filter(&e, "ranked", &blocked));
    assert!(!filter(&e, "", &blocked));
    assert!(filter(&entry("SomeoneElse", "Ranked Matches Tonight!"), "ranked", &blocked));
}

#[test]
fn filter_is_substring_test_on_lowered_title() {
    let blocked = default_blocked();
    let e = entry("Streamer", "Ranked Matches Tonight!");
    assert!(filter(&e, "ranked", &blocked));
    assert!(!filter(&e, "unranked", &blocked));
    assert!(filter(&e, "", &blocked));
    assert!(filter(&e, "tonight!", &blocked));
}

#[test]
fn filter_takes_the_term_as_it_is() {
    let blocked = default_blocked();
    let e = entry("Streamer", "Ranked Matches Tonight!");
    assert!(!filter(&e, "Ranked", &blocked));
    assert!(filter(&e, &lower_term("Ranked"), &blocked));
    assert_eq!(lower_term("SpeedRUN"), "speedrun");
}

#[test]
fn default_block_list_blocks_only_the_empty_name() {
    let blocked = default_blocked();
    assert_eq!(blocked, vec![String::new()]);
    assert!(!filter(&entry("", "anything"), "", &blocked));
}

#[test]
fn filter_lowered_and_block_test_agree_with_the_rule() {
    let blocked = vec!["a".to_string(), "bc".to_string()];
    assert!(is_blocked(&chars("bc"), &blocked));
    assert!(!is_blocked(&chars("b"), &blocked));
    assert!(!is_blocked(&chars("BC"), &blocked));
    assert!(filter_lowered(&chars("x"), &chars("hello world"), &chars("o w"), &blocked));
    assert!(!filter_lowered(&chars("a"), &chars("hello world"), &chars("o w"), &blocked));
    assert!(!filter_lowered(&chars("x"), &chars("hello world"), &chars("ow"), &blocked));
    assert!(same_text(&chars("abc"), &chars("abc")));
    assert!(!same_text(&chars("abc"), &chars("abd")));
    assert!(!same_text(&chars("abc"), &chars("ab")));
}

#[test]
fn find_text_finds_parts_at_every_place() {
    assert!(find_text(&chars("abcabd"), &chars("abd")));
    assert!(find_text(&chars("abc"), &chars("abc")));
    assert!(find_text(&chars("abc"), &chars("")));
    assert!(find_text(&chars(""), &chars("")));
    assert!(!find_text(&chars("abc"), &chars("abcd")));
    assert!(!find_text(&chars("abc"), &chars("ca")));
    assert!(matches_at(&chars("abc"), &chars("bc"), 1));
    assert!(!matches_at(&chars("abc"), &chars("bc"), 0));
    assert!(!matches_at(&chars("abc"), &chars("bc"), 2));
    assert!(!matches_at(&chars("abc"), &chars(""), 4));
    assert!(matches_at(&chars("abc"), &chars(""), 3));
}

#[test]
fn text_round_trip_and_numbers() {
    assert_eq!(text_of(&chars_of("héllo | wörld")), "héllo | wörld");
    assert_eq!(chars_of("ab"), vec!['a', 'b']);
    assert_eq!(decimal_of(0), chars("0"));
    assert_eq!(decimal_of(1_234_567_890), chars("1234567890"));
    assert_eq!(decimal_of(u128::MAX), chars(&u128::MAX.to_string()));
    assert_eq!(signed_decimal_of(i64::MIN), chars("-9223372036854775808"));
    assert_eq!(signed_decimal_of(-7), chars("-7"));
    assert_eq!(signed_decimal_of(70), chars("70"));
    assert_eq!(pad_start(&chars("7"), 4, ' '), chars("   7"));
    assert_eq!(pad_start(&chars("12345"), 4, ' '), chars("12345"));
    assert_eq!(pad_end(&chars("ab"), 4, '.'), chars("ab.."));
    assert_eq!(pad_end(&chars("abcd"), 4, '.'), chars("abcd"));
}

#[test]
fn turn_page_stops_only_without_cursor() {
    let blocked = default_blocked();
    let empty: Vec<Entry> = Vec::new();
    let (p, lines) = Progress::start().turn_page(&empty, Some("c1".to_string()), "x", &blocked);
    assert!(!p.done);
    assert_eq!(p.cursor, Some("c1".to_string()));
    assert_eq!(p.total, 0);
    assert_eq!(p.found, 0);
    assert!(lines.is_empty());
    let full = vec![entry("A", "x marks"), entry("B", "nothing")];
    let (p, lines) = p.turn_page(&full, None, "x", &blocked);
    assert!(p.done);
    assert_eq!(p.cursor, None);
    assert_eq!(p.total, 2);
    assert_eq!(p.found, 1);
    assert_eq!(lines.len(), 1);
}

#[test]
fn start_is_blank() {
    let p = Progress::start();
    assert!(!p.done);
    assert_eq!(p.cursor, None);
    assert_eq!((p.found, p.total), (0, 0));
}

#[test]
fn live_duration_formats_hours_and_minutes() {
    let at = |minutes: i64| Moment { secs: EPOCH_2021 + minutes * 60, nanos: 0 };
    assert_eq!(live_duration("2021-01-01T00:00:00Z", at(90)), "01:30");
    assert_eq!(live_duration("2021-01-01T00:00:00Z", at(1500)), "25:00");
    assert_eq!(live_duration("2021-01-01T00:00:00Z", at(0)), "00:00");
    assert_eq!(live_duration("2021-01-01 00:00:00+00:00", at(61)), "01:01");
    assert_eq!(live_duration("2021-01-01T01:00:00+01:00", at(59)), "00:59");
    assert_eq!(live_duration("2021-01-01T00:00:00Z", at(6000 * 60 + 5)), "6000:05");
}

#[test]
fn live_duration_counts_whole_seconds() {
    let now = Moment { secs: EPOCH_2021 + 60, nanos: 400_000_000 };
    assert_eq!(live_duration("2021-01-01T00:00:00.5Z", now), "00:00");
    let now = Moment { secs: EPOCH_2021 + 60, nanos: 500_000_000 };
    assert_eq!(live_duration("2021-01-01T00:00:00.5Z", now), "00:01");
    let start = Moment { secs: 10, nanos: 900_000_000 };
    assert_eq!(seconds_between(start, Moment { secs: 12, nanos: 0 }), 1);
    assert_eq!(seconds_between(start, Moment { secs: 12, nanos: 900_000_000 }), 2);
    assert_eq!(
        seconds_between(Moment { secs: i64::MIN, nanos: 0 }, Moment { secs: i64::MAX, nanos: 0 }),
        u64::MAX as u128
    );
}

#[test]
fn elapsed_time_agrees_with_chrono() {
    let cases = [
        ("2021-01-01T12:30:60Z", "2021-01-01T13:00:00Z"),
        ("2021-01-01T12:30:60Z", "2021-01-01T12:31:00Z"),
        ("2021-01-01T12:30:60.5Z", "2021-01-02T12:30:00Z"),
        ("2021-01-01T12:30:60.5Z", "2021-01-02T12:31:00.25Z"),
        ("2021-01-01T12:30:00Z", "2021-01-01T12:59:60Z"),
        ("2021-01-01T12:30:00.75Z", "2021-01-02T11:59:60.5Z"),
        ("2021-01-01T23:59:60Z", "2021-01-02T00:59:59.999Z"),
        ("2021-01-01T23:59:60.9Z", "2021-01-01T23:59:60.95Z"),
        ("1969-12-31T23:00:00Z", "1970-01-01T00:30:00Z"),
        ("1900-06-15T08:00:00.000000001Z", "1969-12-31T23:59:59Z"),
        ("0001-01-01T00:00:00Z", "9999-12-31T23:59:59.999999999Z"),
        ("2021-01-01T00:00:00.5Z", "2021-01-01T00:01:00.499999999Z"),
        ("2021-01-01T00:00:00+05:30", "2021-01-01T00:00:00Z"),
    ];
    for (start, now) in cases {
        let s = start.parse::<chrono::DateTime<chrono::Utc>>().unwrap();
        let n = now.parse::<chrono::DateTime<chrono::Utc>>().unwrap();
        let d = n - s;
        assert!(d.num_seconds() >= 0, "{} {}", start, now);
        let at = Moment { secs: n.timestamp(), nanos: n.timestamp_subsec_nanos() };
        let from = Moment { secs: s.timestamp(), nanos: s.timestamp_subsec_nanos() };
        assert_eq!(seconds_between(from, at), d.num_seconds() as u128, "{} {}", start, now);
        assert_eq!(
            live_duration(start, at),
            format!("{:02}:{:02}", d.num_hours(), d.num_minutes() % 60),
            "{} {}",
            start,
            now
        );
    }
}

#[test]
fn live_duration_is_never_negative() {
    let before = Moment { secs: EPOCH_2021 - 5400, nanos: 0 };
    assert_eq!(live_duration("2021-01-01T00:00:00Z", before), "00:00");
    assert_eq!(seconds_between(Moment { secs: 5, nanos: 0 }, Moment { secs: 4, nanos: 999 }), 0);
}

#[test]
fn live_duration_of_unreadable_start_is_empty() {
    let now = Moment { secs: EPOCH_2021, nanos: 0 };
    assert_eq!(live_duration("", now), "");
    assert_eq!(live_duration("yesterday", now), "");
    assert_eq!(to_instant(""), "");
    assert_eq!(duration_since(None, now), "");
    assert_eq!(duration_since(Some(Moment { secs: EPOCH_2021 - 60, nanos: 0 }), now), "00:01");
    assert_eq!(format_clock(3599), chars("00:59"));
    assert_eq!(format_clock(3600), chars("01:00"));
}

#[test]
fn to_instant_reads_the_system_clock() {
    let start = chrono::Utc::now() - chrono::TimeDelta::minutes(90) - chrono::TimeDelta::seconds(20);
    assert_eq!(to_instant(&start.to_rfc3339()), "01:30");
    let start = chrono::Utc::now() - chrono::TimeDelta::minutes(1500) - chrono::TimeDelta::seconds(20);
    assert_eq!(to_instant(&start.to_rfc3339()), "25:00");
}

#[test]
fn to_entry_reads_every_field() {
    let v = decode_body(&record("Streamer", "Ranked Matches")).unwrap();
    let now = Moment { secs: EPOCH_2021 + 5400, nanos: 0 };
    let e = to_entry_at(&v, now).unwrap();
    assert_eq!(e.lang, "en");
    assert_eq!(e.display_name, "Streamer");
    assert_eq!(e.title, "Ranked Matches");
    assert_eq!(e.game_id, "33214");
    assert_eq!(e.viewer_count, 17);
    assert_eq!(e.live_duration, "01:30");
    assert_eq!(e.user_id, "9001");
    assert_eq!(e.tags, "[\"English\",\"Chill\"]");
    let live = to_entry(&v).unwrap();
    assert_eq!(live.display_name, "Streamer");
    assert!(live.live_duration.len() >= 5);
}

#[test]
fn unreadable_start_empties_only_the_duration() {
    let text = "{\"id\":\"1\",\"user_name\":\"N\",\"game_id\":\"2\",\"title\":\"T\",\"viewer_count\":3,\"started_at\":\"\",\"language\":\"de\"}";
    let v = decode_body(text).unwrap();
    let e = to_entry_at(&v, Moment { secs: EPOCH_2021, nanos: 0 }).unwrap();
    assert_eq!(e.live_duration, "");
    assert_eq!(e.lang, "de");
    assert_eq!(e.display_name, "N");
    assert_eq!(e.title, "T");
    assert_eq!(e.game_id, "2");
    assert_eq!(e.viewer_count, 3);
    assert_eq!(e.user_id, "1");
    assert_eq!(e.tags, "");
}

#[test]
fn to_entry_names_the_first_field_at_fault() {
    let now = Moment { secs: EPOCH_2021, nanos: 0 };
    let v = decode_body("{\"language\":\"en\",\"user_name\":7}").unwrap();
    assert!(matches!(to_entry_at(&v, now), Err(Failure::Field { key }) if key == "user_name"));
    let v = decode_body("{}").unwrap();
    assert!(matches!(to_entry_at(&v, now), Err(Failure::Field { key }) if key == "language"));
    let text = "{\"id\":\"1\",\"user_name\":\"N\",\"game_id\":\"2\",\"title\":\"T\",\"viewer_count\":\"3\",\"started_at\":\"\",\"language\":\"de\"}";
    let v = decode_body(text).unwrap();
    assert!(matches!(to_entry_at(&v, now), Err(Failure::Field { key }) if key == "viewer_count"));
    let text = "{\"id\":\"1\",\"user_name\":\"N\",\"game_id\":\"2\",\"title\":\"T\",\"viewer_count\":3.5,\"started_at\":\"\",\"language\":\"de\"}";
    let v = decode_body(text).unwrap();
    assert!(matches!(to_entry(&v), Err(Failure::Field { key }) if key == "viewer_count"));
}

#[test]
fn json_accessors_read_members() {
    let v = decode_body("{\"a\":\"x\",\"n\":-12,\"l\":[1,\"two\"],\"o\":{\"k\":null}}").unwrap();
    assert_eq!(required_text(&v, "a").unwrap(), "x");
    assert!(matches!(required_text(&v, "n"), Err(Failure::Field { key }) if key == "n"));
    assert!(matches!(required_text(&v, "zz"), Err(Failure::Field { key }) if key == "zz"));
    assert_eq!(required_integer(&v, "n").unwrap(), -12);
    assert!(matches!(required_integer(&v, "a"), Err(Failure::Field { key }) if key == "a"));
    assert_eq!(raw_text(&v, "l"), "[1,\"two\"]");
    assert_eq!(raw_text(&v, "o"), "{\"k\":null}");
    assert_eq!(raw_text(&v, "a"), "\"x\"");
    assert_eq!(raw_text(&v, "missing"), "");
    assert!(data_items(&v).is_none());
    let list = decode_body("[1,2]").unwrap();
    assert!(matches!(required_text(&list, "a"), Err(Failure::Field { .. })));
}

#[test]
fn decode_body_rejects_what_is_not_json() {
    match decode_body("<html>") {
        Err(Failure::Body { detail }) => assert!(!detail.is_empty()),
        _ => panic!("a body that is not JSON must fail"),
    }
    assert!(matches!(decode_body(""), Err(Failure::Body { .. })));
    assert!(matches!(fetch_categories("{"), Err(Failure::Body { .. })));
    assert!(matches!(fetch_streams("nope"), Err(Failure::Body { .. })));
}

#[test]
fn next_cursor_needs_a_string_that_is_not_empty() {
    let cursor = |text: &str| next_cursor(&decode_body(text).unwrap());
    assert_eq!(cursor("{\"pagination\":{\"cursor\":\"c1\"}}"), Some("c1".to_string()));
    assert_eq!(cursor("{\"pagination\":{\"cursor\":\"\"}}"), None);
    assert_eq!(cursor("{\"pagination\":{\"cursor\":5}}"), None);
    assert_eq!(cursor("{\"pagination\":{}}"), None);
    assert_eq!(cursor("{\"pagination\":\"c1\"}"), None);
    assert_eq!(cursor("{\"data\":[]}"), None);
}

#[test]
fn missing_data_array_is_no_data() {
    let now = Moment { secs: EPOCH_2021, nanos: 0 };
    let v = decode_body("{\"error\":\"Unauthorized\"}").unwrap();
    assert!(matches!(to_categories(&v), Err(Failure::NoData)));
    assert!(matches!(to_streams(&v, now), Err(Failure::NoData)));
    let v = decode_body("{\"data\":\"none\"}").unwrap();
    assert!(matches!(to_categories(&v), Err(Failure::NoData)));
    assert!(matches!(to_streams(&v, now), Err(Failure::NoData)));
    assert!(matches!(fetch_streams("{\"data\":7}"), Err(Failure::NoData)));
    assert!(data_items(&decode_body("{\"data\":[1,2,3]}").unwrap()).unwrap().len() == 3);
}

#[test]
fn categories_decode_in_order() {
    let body = "{\"data\":[{\"id\":\"743\",\"name\":\"Chess\"},{\"id\":\"2748\",\"name\":\"Tetris\",\"box_art_url\":\"u\"}]}";
    let list = fetch_categories(body).unwrap();
    assert_eq!(list.len(), 2);
    assert_eq!((list[0].name.as_str(), list[0].id.as_str()), ("Chess", "743"));
    assert_eq!((list[1].name.as_str(), list[1].id.as_str()), ("Tetris", "2748"));
    assert!(fetch_categories("{\"data\":[]}").unwrap().is_empty());
}

#[test]
fn categories_fail_on_the_first_bad_record() {
    let body = "{\"data\":[{\"id\":\"743\",\"name\":\"Chess\"},{\"id\":\"1\"},{\"name\":\"x\"}]}";
    assert!(matches!(fetch_categories(body), Err(Failure::Field { key }) if key == "name"));
    let body = "{\"data\":[{\"id\":743,\"name\":\"Chess\"}]}";
    assert!(matches!(fetch_categories(body), Err(Failure::Field { key }) if key == "id"));
    let v = decode_body("{\"id\":\"\",\"name\":\"Chess\"}").unwrap();
    assert!(matches!(to_category(&v), Err(Failure::Field { key }) if key == "id"));
}

#[test]
fn streams_decode_with_their_cursor() {
    let now = Moment { secs: EPOCH_2021 + 1500 * 60, nanos: 0 };
    let text = page(&[record("A", "one"), record("B", "two")], Some("c1"));
    let (entries, cursor) = to_streams(&decode_body(&text).unwrap(), now).unwrap();
    assert_eq!(entries.len(), 2);
    assert_eq!(entries[0].display_name, "A");
    assert_eq!(entries[1].title, "two");
    assert_eq!(entries[1].live_duration, "25:00");
    assert_eq!(cursor, Some("c1".to_string()));
    let (entries, cursor) = fetch_streams(&page(&[], Some("c2"))).unwrap();
    assert!(entries.is_empty());
    assert_eq!(cursor, Some("c2".to_string()));
    let (entries, cursor) = fetch_streams(&page(&[record("A", "one")], None)).unwrap();
    assert_eq!(entries.len(), 1);
    assert_eq!(cursor, None);
    let bad = page(&[record("A", "one"), "{\"language\":\"en\"}".to_string()], None);
    assert!(matches!(fetch_streams(&bad), Err(Failure::Field { key }) if key == "user_name"));
}

#[test]
fn choose_term_trims_the_line() {
    assert_eq!(choose_term("  speedrun \n"), "speedrun");
    assert_eq!(choose_term("\n"), "");
    assert_eq!(choose_term("two words\r\n"), "two words");
}

#[test]
fn trim_removes_white_space_at_both_ends_only() {
    for text in ["", " ", "a", "  a b  ", "\t\r\n x \n", "\u{3000}x\u{a0}", "\u{2003}\u{85}", "x\u{200b} ", " [ ] "] {
        assert_eq!(trim(&chars(text)), chars(text.trim()), "{:?}", text);
        assert_eq!(choose_term(text), text.trim());
    }
}

#[test]
fn choose_game_asks_again_until_an_index_comes() {
    let list = games();
    match choose_game(&list, "abc\n") {
        Step::Retry { prompt } => assert_eq!(prompt, "Please enter a number:"),
        _ => panic!("a word is no choice"),
    }
    match choose_game(&list, "3\n") {
        Step::Retry { prompt } => assert_eq!(prompt, "Please enter a number between 0 and 2:"),
        _ => panic!("3 is out of range"),
    }
    match choose_game(&list, "-1\n") {
        Step::Retry { prompt } => assert_eq!(prompt, "Please enter a number:"),
        _ => panic!("-1 is no index"),
    }
    match choose_game(&list, "\n") {
        Step::Retry { prompt } => assert_eq!(prompt, "Please enter a number:"),
        _ => panic!("an empty line is no choice"),
    }
    match choose_game(&list, " 2 \n") {
        Step::Chosen { id, confirmation } => {
            assert_eq!(id, "2748");
            assert_eq!(confirmation, "Category: Tetris");
        },
        _ => panic!("2 is in range"),
    }
    match choose_game(&list, "0") {
        Step::Chosen { id, .. } => assert_eq!(id, "743"),
        _ => panic!("0 is in range"),
    }
}

#[test]
fn choose_game_on_an_empty_list_always_asks_again() {
    let none: Vec<Games> = Vec::new();
    for line in ["0\n", "abc\n", "\n", "7", "-1", " 0 "] {
        match choose_game(&none, line) {
            Step::Retry { prompt } => {
                let number = line.trim().parse::<usize>().is_ok();
                let expected = if number {
                    "There is no category to choose from:"
                } else {
                    "Please enter a number:"
                };
                assert_eq!(prompt, expected, "{:?}", line);
            },
            Step::Chosen { .. } => panic!("nothing can be chosen from an empty list"),
        }
    }
    assert!(matches!(resolve(&none, Choice::OutOfRange), Step::Retry { .. }));
    assert!(matches!(resolve(&none, Choice::NotANumber), Step::Retry { .. }));
    let one = vec![Games { name: "Chess".to_string(), id: "743".to_string() }];
    match choose_game(&one, "1") {
        Step::Retry { prompt } => assert_eq!(prompt, "Please enter a number between 0 and 0:"),
        _ => panic!("1 is out of range"),
    }
}

#[test]
fn white_space_is_what_std_calls_white_space() {
    for code in 0..=0x10FFFFu32 {
        if let Some(c) = char::from_u32(code) {
            let kept = trim(&vec![c]).len() == 1;
            assert_eq!(kept, !c.is_whitespace(), "U+{:04X}", code);
        }
    }
    assert_eq!(trim(&chars(" \u{1680}a\u{205f}b\u{2029}")), chars("a\u{205f}b"));
}

#[test]
fn parse_index_reads_what_usize_reads() {
    for text in ["0", "7", "+7", "007", "18446744073709551615", "18446744073709551616", "", "+", "-0", "1 2", "１", "0x10", "99999999999999999999999999", "++1", "1+"] {
        assert_eq!(parse_index(&chars(text)), text.parse::<usize>().ok(), "{}", text);
    }
    assert_eq!(classify(&chars("2"), 3), Choice::Picked(2));
    assert_eq!(classify(&chars("3"), 3), Choice::OutOfRange);
    assert_eq!(classify(&chars("x"), 3), Choice::NotANumber);
    assert_eq!(classify(&chars("0"), 0), Choice::OutOfRange);
    assert!(matches!(resolve(&games(), Choice::Picked(1)), Step::Chosen { id, .. } if id == "33214"));
}

#[test]
fn menu_numbers_from_zero() {
    assert_eq!(menu(&games()), vec!["0: Chess", "1: Fortnite", "2: Tetris"]);
    assert!(menu(&Vec::new()).is_empty());
}

#[test]
fn credentials_need_both_values() {
    let some = |s: &str| Some(s.to_string());
    assert_eq!(credentials(some("id"), some("tok")).unwrap(), ("id".to_string(), "tok".to_string()));
    assert!(matches!(credentials(None, some("tok")), Err(Failure::MissingClientId)));
    assert!(matches!(credentials(some(""), some("tok")), Err(Failure::MissingClientId)));
    assert!(matches!(credentials(None, None), Err(Failure::MissingClientId)));
    assert!(matches!(credentials(some("id"), None), Err(Failure::MissingToken)));
    assert!(matches!(credentials(some("id"), some("")), Err(Failure::MissingToken)));
    assert_eq!(authorization("tok"), "Bearer tok");
}

#[test]
fn failures_map_to_exit_codes_and_messages() {
    let text = |s: &str| s.to_string();
    assert_eq!(Failure::NoData.exit_code(), 0);
    assert_eq!(Failure::MissingClientId.exit_code(), 1);
    assert_eq!(Failure::MissingToken.exit_code(), 1);
    assert_eq!(Failure::Transport { detail: text("dns") }.exit_code(), 1);
    assert_eq!(Failure::Body { detail: text("eof") }.exit_code(), 1);
    assert_eq!(Failure::Field { key: text("id") }.exit_code(), 1);
    assert_eq!(failure_message(&Failure::MissingClientId), "Client id missing");
    assert_eq!(failure_message(&Failure::MissingToken), "OAuth token missing");
    assert_eq!(failure_message(&Failure::Transport { detail: text("dns") }), "request failed: dns");
    assert_eq!(failure_message(&Failure::Body { detail: text("eof") }), "failed to serialize json: eof");
    assert_eq!(failure_message(&Failure::Field { key: text("id") }), "missing or mistyped field: id");
    assert_eq!(failure_message(&Failure::NoData), "");
}

#[test]
fn addresses_follow_the_term_and_the_cursor() {
    assert_eq!(categories_url(""), "https://api.twitch.tv/helix/games/top");
    assert_eq!(
        categories_url("rocket league"),
        "https://api.twitch.tv/helix/search/categories?query=rocket league"
    );
    let base = streams_url("33214");
    assert_eq!(base, "https://api.twitch.tv/helix/streams?first=100&game_id=33214");
    assert_eq!(request_url(&None, &base), base);
    assert_eq!(
        request_url(&Some("c1".to_string()), &base),
        "https://api.twitch.tv/helix/streams?first=100&game_id=33214&after=c1"
    );
}

#[test]
fn summary_shows_counts_and_hundredths() {
    assert_eq!(summary(5, 140, 3, 250_000_000), "Done! Found 5/140 streams in 3.25 seconds.");
    assert_eq!(summary(0, 0, 0, 9_999_999), "Done! Found 0/0 streams in 0.0 seconds.");
    assert_eq!(summary(1, 2, 12, 50_000_000), "Done! Found 1/2 streams in 12.5 seconds.");
    assert_eq!(summary(1, 2, 12, 999_999_999), "Done! Found 1/2 streams in 12.99 seconds.");
}

#[test]
fn scan_page_keeps_the_order_of_the_page() {
    let blocked = vec!["b".to_string()];
    let entries = vec![entry("A", "Speedrun one"), entry("B", "speedrun two"), entry("C", "other"), entry("D", "a SPEEDRUN")];
    let lines = scan_page(&entries, "speedrun", &blocked);
    assert_eq!(lines.len(), 2);
    assert_eq!(lines[0], present(&entries[0]));
    assert_eq!(lines[1], present(&entries[3]));
}

#[test]
fn two_pages_end_to_end() {
    assert_eq!(categories_url(&choose_term("\n")), "https://api.twitch.tv/helix/games/top");
    let listing = "{\"data\":[{\"id\":\"743\",\"name\":\"Chess\"},{\"id\":\"33214\",\"name\":\"Fortnite\"},{\"id\":\"2748\",\"name\":\"Tetris\"}]}";
    let list = fetch_categories(listing).unwrap();
    let id = match choose_game(&list, "2\n") {
        Step::Chosen { id, .. } => id,
        _ => panic!("index 2 is in range"),
    };
    assert_eq!(id, "2748");
    let term = lower_term(&choose_term("speedrun\n"));
    let blocked = default_blocked();
    let title = |i: usize, hits: &[usize]| {
        if hits.contains(&i) { format!("Speedrun attempt {}", i) } else { format!("Casual {}", i) }
    };
    let first: Vec<String> = (0..100).map(|i| record("Chan", &title(i, &[3, 50, 99]))).collect();
    let second: Vec<String> = (0..40).map(|i| record("Chan", &title(i, &[0, 39]))).collect();
    let base = streams_url(&id);

    let mut progress = Progress::start();
    assert_eq!(request_url(&progress.cursor, &base), base);
    let (entries, next) = fetch_streams(&page(&first, Some("c1"))).unwrap();
    assert_eq!(entries.len(), 100);
    let (after, lines) = progress.turn_page(&entries, next, &term, &blocked);
    progress = after;
    assert_eq!(lines.len(), 3);
    assert!(!progress.done);
    assert_eq!(request_url(&progress.cursor, &base), format!("{}&after=c1", base));

    let (entries, next) = fetch_streams(&page(&second, None)).unwrap();
    assert_eq!(entries.len(), 40);
    let (after, lines) = progress.turn_page(&entries, next, &term, &blocked);
    progress = after;
    assert_eq!(lines.len(), 2);
    assert!(progress.done);
    assert_eq!((progress.found, progress.total), (5, 140));
    assert_eq!(
        summary(progress.found, progress.total, 1, 0),
        "Done! Found 5/140 streams in 1.0 seconds."
    );
}
