use kv_browser::browser::{key_for_char, App, Command, Event, Key, Mode};
use kv_browser::cache::{DetailCache, Lookup};
use kv_browser::details::{classify, clone_fields, format_count, format_ttl, KeyDetails, KeyType};
use kv_browser::fetch::{Fetch, Progress, Reply, Request};
use kv_browser::filter::{apply_filter, clone_keys, keep_containing};
use kv_browser::frame::{body_of, help_line, Body, MainRegion};
use kv_browser::text::{decimal_text, join, signed_decimal_text};

fn strings(items: &[&str]) -> Vec<String> {
    items.iter().map(|s| s.to_string()).collect()
}

fn loaded(items: &[&str]) -> App {
    let mut app = App::new();
    app.load_keys(Ok(strings(items)));
    app
}

fn string_details(value: &str, ttl: i64) -> KeyDetails {
    let f = match Fetch::begin("k".to_string()).advance(Reply::Type("string".to_string())) {
        Progress::Ask(f) => f,
        _ => panic!("type answer should lead on"),
    };
    let f = match f.advance(Reply::Ttl(ttl)) {
        Progress::Ask(f) => f,
        _ => panic!("ttl answer should lead on"),
    };
    match f.advance(Reply::Value(value.to_string())) {
        Progress::Done(_, d) => d,
        _ => panic!("value answer should finish"),
    }
}

fn is_continue(c: &Command) -> bool {
    matches!(c, Command::Continue)
}

fn string_replies(value: &str, ttl: i64) -> Vec<Reply> {
    vec![Reply::Type("string".to_string()), Reply::Ttl(ttl), Reply::Value(value.to_string())]
}

fn hash_replies(n: usize) -> Vec<Reply> {
    let fields = (1..=n).map(|i| (format!("f{}", i), format!("v{}", i))).collect();
    vec![Reply::Type("hash".to_string()), Reply::Ttl(-1), Reply::HashFields(fields)]
}

/// Presses `Enter` and plays the store: answers the questions of the fetch
/// with `replies`, in order. Returns the questions that were asked.
fn enter_and_answer(app: &mut App, replies: Vec<Reply>) -> Vec<Request> {
    let mut asked = Vec::new();
    let mut command = app.handle_key_events(Key::Enter);
    let mut replies = replies.into_iter();
    loop {
        match command {
            Command::Ask(fetch) => {
                asked.push(fetch.request());
                let reply = replies.next().expect("the store was asked once more than planned");
                command = app.load_key_details(fetch, reply);
            }
            Command::Continue => return asked,
            _ => panic!("a fetch neither quits nor reloads"),
        }
    }
}

#[test]
fn filter_keeps_every_key_that_contains_the_query() {
    let keys = strings(&["alpha", "beta", "gamma"]);
    assert_eq!(apply_filter(&keys, "a"), strings(&["alpha", "beta", "gamma"]));
}

#[test]
fn filter_narrows_to_the_single_match() {
    let keys = strings(&["alpha", "beta", "gamma"]);
    assert_eq!(apply_filter(&keys, "al"), strings(&["alpha"]));
}

#[test]
fn filter_ignores_case_on_both_sides() {
    let keys = strings(&["Alpha", "BETA", "gamma", "delta"]);
    assert_eq!(apply_filter(&keys, "ET"), strings(&["BETA"]));
    assert_eq!(apply_filter(&keys, "alp"), strings(&["Alpha"]));
    assert_eq!(apply_filter(&keys, "MM"), strings(&["gamma"]));
}

#[test]
fn filter_preserves_order_and_duplicates() {
    let keys = strings(&["b1", "a", "b2", "b1", "c"]);
    assert_eq!(apply_filter(&keys, "b"), strings(&["b1", "b2", "b1"]));
}

#[test]
fn filter_without_match_is_empty() {
    let keys = strings(&["alpha", "beta"]);
    assert_eq!(apply_filter(&keys, "zz"), Vec::<String>::new());
}

#[test]
fn filter_with_empty_query_keeps_all() {
    let keys = strings(&["alpha", "beta"]);
    assert_eq!(apply_filter(&keys, ""), keys);
}

#[test]
fn filter_lowercases_beyond_ascii() {
    let keys = strings(&["ÄPFEL", "birne"]);
    assert_eq!(apply_filter(&keys, "äpf"), strings(&["ÄPFEL"]));
}

#[test]
fn keep_containing_goes_by_the_companion_text() {
    let keys = strings(&["ONE", "TWO", "THREE"]);
    let folded = strings(&["one", "two", "three"]);
    assert_eq!(keep_containing(&keys, &folded, "t"), strings(&["TWO", "THREE"]));
    assert_eq!(keep_containing(&keys, &folded, "T"), Vec::<String>::new());
}

#[test]
fn clone_keys_copies_the_list() {
    let keys = strings(&["x", "y"]);
    assert_eq!(clone_keys(&keys), keys);
}

#[test]
fn ttl_renders_by_its_sentinels() {
    assert_eq!(format_ttl(-1), "Never expires");
    assert_eq!(format_ttl(-2), "Key does not exist");
    assert_eq!(format_ttl(42), "42 seconds");
}

#[test]
fn ttl_renders_other_values_in_decimal() {
    assert_eq!(format_ttl(0), "0 seconds");
    assert_eq!(format_ttl(-3), "-3 seconds");
    assert_eq!(format_ttl(i64::MAX), "9223372036854775807 seconds");
    assert_eq!(format_ttl(i64::MIN), "-9223372036854775808 seconds");
}

#[test]
fn counts_render_by_type() {
    assert_eq!(format_count(KeyType::Hash, 2), "Hash type, 2 fields");
    assert_eq!(format_count(KeyType::List, 10), "List type, 10 elements");
    assert_eq!(format_count(KeyType::UnorderedSet, 0), "Set type, 0 elements");
    assert_eq!(format_count(KeyType::SortedSet, 1234567), "ZSet type, 1234567 elements");
    assert_eq!(format_count(KeyType::String, 5), "");
}

#[test]
fn type_tags_are_classified() {
    assert_eq!(classify("string"), KeyType::String);
    assert_eq!(classify("hash"), KeyType::Hash);
    assert_eq!(classify("list"), KeyType::List);
    assert_eq!(classify("set"), KeyType::UnorderedSet);
    assert_eq!(classify("zset"), KeyType::SortedSet);
    assert_eq!(classify("stream"), KeyType::Unknown);
    assert_eq!(classify("String"), KeyType::Unknown);
}

#[test]
fn fetch_of_a_hash_asks_type_ttl_fields() {
    let f = Fetch::begin("h".to_string());
    assert_eq!(f.request(), Request::Type);
    let f = match f.advance(Reply::Type("hash".to_string())) {
        Progress::Ask(f) => f,
        _ => panic!("expected another question"),
    };
    assert_eq!(f.request(), Request::Ttl);
    assert_eq!(f.raw_type, "hash");
    let f = match f.advance(Reply::Ttl(60)) {
        Progress::Ask(f) => f,
        _ => panic!("expected another question"),
    };
    assert_eq!(f.request(), Request::HashFields);
    let fields = vec![
        ("f1".to_string(), "v1".to_string()),
        ("f2".to_string(), "v2".to_string()),
    ];
    match f.advance(Reply::HashFields(fields.clone())) {
        Progress::Done(key, d) => {
            assert_eq!(key, "h");
            assert_eq!(d.key_type, KeyType::Hash);
            assert_eq!(d.raw_type, "hash");
            assert_eq!(d.ttl, 60);
            assert_eq!(d.summary, "Hash type, 2 fields");
            assert_eq!(d.fields, Some(fields));
            assert_eq!(d.rows(), 2);
        }
        _ => panic!("expected the details"),
    }
}

#[test]
fn fetch_of_a_string_takes_the_value_as_summary() {
    let d = string_details("hello", -1);
    assert_eq!(d.key_type, KeyType::String);
    assert_eq!(d.summary, "hello");
    assert_eq!(d.ttl, -1);
    assert_eq!(d.fields, None);
    assert_eq!(d.rows(), 1);
}

#[test]
fn fetch_of_counted_types_asks_for_the_count() {
    for (tag, kind, question, summary) in [
        ("list", KeyType::List, Request::ListLength, "List type, 3 elements"),
        ("set", KeyType::UnorderedSet, Request::SetSize, "Set type, 3 elements"),
        ("zset", KeyType::SortedSet, Request::SortedSetSize, "ZSet type, 3 elements"),
    ] {
        let f = match Fetch::begin("k".to_string()).advance(Reply::Type(tag.to_string())) {
            Progress::Ask(f) => f,
            _ => panic!("expected another question"),
        };
        let f = match f.advance(Reply::Ttl(5)) {
            Progress::Ask(f) => f,
            _ => panic!("expected another question"),
        };
        assert_eq!(f.request(), question);
        match f.advance(Reply::Count(3)) {
            Progress::Done(_, d) => {
                assert_eq!(d.key_type, kind);
                assert_eq!(d.summary, summary);
                assert_eq!(d.fields, None);
            }
            _ => panic!("expected the details"),
        }
    }
}

#[test]
fn fetch_of_an_unknown_type_ends_with_the_ttl() {
    let f = match Fetch::begin("k".to_string()).advance(Reply::Type("stream".to_string())) {
        Progress::Ask(f) => f,
        _ => panic!("expected another question"),
    };
    match f.advance(Reply::Ttl(-1)) {
        Progress::Done(_, d) => {
            assert_eq!(d.key_type, KeyType::Unknown);
            assert_eq!(d.summary, "Unknown type stream");
            assert_eq!(d.raw_type, "stream");
        }
        _ => panic!("expected the details"),
    }
}

#[test]
fn fetch_fails_with_the_text_of_the_store() {
    match Fetch::begin("k".to_string()).advance(Reply::Failed("timed out".to_string())) {
        Progress::Failed(m) => assert_eq!(m, "timed out"),
        _ => panic!("expected a failure"),
    }
}

#[test]
fn fetch_refuses_an_answer_that_does_not_fit() {
    match Fetch::begin("k".to_string()).advance(Reply::Count(3)) {
        Progress::Failed(m) => assert_eq!(m, "unexpected reply from the store"),
        _ => panic!("expected a failure"),
    }
    let f = match Fetch::begin("k".to_string()).advance(Reply::Type("list".to_string())) {
        Progress::Ask(f) => f,
        _ => panic!("expected another question"),
    };
    let f = match f.advance(Reply::Ttl(1)) {
        Progress::Ask(f) => f,
        _ => panic!("expected another question"),
    };
    match f.advance(Reply::Value("v".to_string())) {
        Progress::Failed(m) => assert_eq!(m, "unexpected reply from the store"),
        _ => panic!("expected a failure"),
    }
}

#[test]
fn a_new_browser_is_not_connected() {
    let app = App::new();
    assert_eq!(app.status(), "not connected");
    assert_eq!(app.mode(), Mode::Listing);
    assert_eq!(app.selection(), None);
    assert_eq!(app.query(), "");
    assert!(app.keys().is_empty());
    assert!(app.cache().is_empty());
}

#[test]
fn set_status_replaces_the_status_line() {
    let mut app = App::new();
    app.set_status("hello".to_string());
    assert_eq!(app.status(), "hello");
}

#[test]
fn loading_keys_reports_the_count() {
    let app = loaded(&["a", "b", "c"]);
    assert_eq!(app.status(), "3 keys found");
    assert_eq!(app.keys(), &strings(&["a", "b", "c"]));
    assert_eq!(app.selection(), None);
}

#[test]
fn a_failed_reload_changes_the_status_only() {
    let mut app = loaded(&["a", "b"]);
    app.handle_key_events(Key::Down);
    app.load_keys(Err("connection lost".to_string()));
    assert_eq!(app.status(), "connection lost");
    assert_eq!(app.keys(), &strings(&["a", "b"]));
    assert_eq!(app.selection(), Some(0));
}

#[test]
fn a_failed_first_connection_names_the_address() {
    let mut app = App::new();
    app.connect_redis("redis://h:1", Err("refused".to_string()));
    assert_eq!(app.status(), "Connection failed: refused URL: redis://h:1");
    assert!(app.keys().is_empty());
    let mut app = App::new();
    app.connect_redis("redis://h:1", Ok(strings(&["k"])));
    assert_eq!(app.status(), "1 keys found");
}

#[test]
fn up_from_the_first_key_wraps_to_the_last() {
    let mut app = loaded(&["a", "b", "c"]);
    app.handle_key_events(Key::Down);
    assert_eq!(app.selection(), Some(0));
    app.handle_key_events(Key::Up);
    assert_eq!(app.selection(), Some(2));
}

#[test]
fn down_from_the_last_key_wraps_to_the_first() {
    let mut app = loaded(&["a", "b", "c"]);
    app.handle_key_events(Key::Up);
    assert_eq!(app.selection(), Some(2));
    app.handle_key_events(Key::Down);
    assert_eq!(app.selection(), Some(0));
    app.handle_key_events(Key::Down);
    assert_eq!(app.selection(), Some(1));
    app.handle_key_events(Key::Up);
    assert_eq!(app.selection(), Some(0));
}

#[test]
fn arrows_keep_the_selection_in_bounds() {
    let mut app = loaded(&["a", "b", "c"]);
    let presses = [Key::Up, Key::Up, Key::Down, Key::Down, Key::Down, Key::Down, Key::Up];
    for _ in 0..5 {
        for key in presses {
            app.handle_key_events(key);
            assert!(app.selection().unwrap() < 3);
        }
    }
}

#[test]
fn arrows_do_nothing_on_an_empty_list() {
    let mut app = App::new();
    app.handle_key_events(Key::Down);
    assert_eq!(app.selection(), None);
    app.handle_key_events(Key::Up);
    assert_eq!(app.selection(), None);
}

#[test]
fn typing_filters_and_drops_the_selection() {
    let mut app = loaded(&["alpha", "beta", "gamma"]);
    app.handle_key_events(Key::Down);
    assert!(is_continue(&app.handle_key_events(Key::Char('a'))));
    assert_eq!(app.query(), "a");
    assert_eq!(app.selection(), None);
    assert_eq!(app.visible_keys(), &strings(&["alpha", "beta", "gamma"]));
    app.handle_key_events(Key::Char('l'));
    assert_eq!(app.query(), "al");
    assert_eq!(app.visible_keys(), &strings(&["alpha"]));
}

#[test]
fn backspace_widens_the_filter_again() {
    let mut app = loaded(&["alpha", "beta", "gamma"]);
    app.handle_key_events(Key::Char('b'));
    app.handle_key_events(Key::Char('e'));
    assert_eq!(app.visible_keys(), &strings(&["beta"]));
    app.handle_key_events(Key::Down);
    app.handle_key_events(Key::Backspace);
    assert_eq!(app.query(), "b");
    assert_eq!(app.selection(), None);
    assert_eq!(app.visible_keys(), &strings(&["beta"]));
    app.handle_key_events(Key::Backspace);
    assert_eq!(app.query(), "");
    assert_eq!(app.visible_keys(), &strings(&["alpha", "beta", "gamma"]));
    app.handle_key_events(Key::Backspace);
    assert_eq!(app.query(), "");
}

#[test]
fn navigation_moves_over_the_filtered_list() {
    let mut app = loaded(&["alpha", "beta", "gamma", "delta"]);
    app.handle_key_events(Key::Char('l'));
    assert_eq!(app.visible_keys(), &strings(&["alpha", "delta"]));
    app.handle_key_events(Key::Up);
    assert_eq!(app.selection(), Some(1));
    app.handle_key_events(Key::Down);
    assert_eq!(app.selection(), Some(0));
    assert_eq!(app.selected_key(), Some("alpha".to_string()));
    app.handle_key_events(Key::Up);
    assert_eq!(app.selected_key(), Some("delta".to_string()));
}

#[test]
fn quit_and_refresh_keys_are_commands() {
    let mut app = loaded(&["a"]);
    assert!(matches!(app.handle_key_events(Key::Char('Q')), Command::Quit));
    assert!(matches!(app.handle_key_events(Key::Interrupt), Command::Quit));
    assert!(matches!(app.handle_key_events(Key::Char('R')), Command::Reload));
    assert_eq!(app.query(), "");
    assert!(is_continue(&app.handle_key_events(Key::Other)));
    assert!(is_continue(&app.handle_key_events(Key::Esc)));
}

#[test]
fn enter_without_a_selection_does_nothing() {
    let mut app = loaded(&["a", "b"]);
    assert!(is_continue(&app.handle_key_events(Key::Enter)));
    assert_eq!(app.mode(), Mode::Listing);
}

#[test]
fn enter_asks_for_the_details_of_the_selected_key() {
    let mut app = loaded(&["a", "b"]);
    app.handle_key_events(Key::Down);
    app.handle_key_events(Key::Down);
    let fetch = match app.handle_key_events(Key::Enter) {
        Command::Ask(fetch) => fetch,
        _ => panic!("expected a fetch"),
    };
    assert_eq!(fetch.key, "b");
    assert_eq!(fetch.request(), Request::Type);
    assert_eq!(app.mode(), Mode::Listing);
    let fetch = match app.load_key_details(fetch, Reply::Type("string".to_string())) {
        Command::Ask(fetch) => fetch,
        _ => panic!("expected the second question"),
    };
    assert_eq!(fetch.request(), Request::Ttl);
    assert_eq!(app.mode(), Mode::Listing);
    let fetch = match app.load_key_details(fetch, Reply::Ttl(42)) {
        Command::Ask(fetch) => fetch,
        _ => panic!("expected the third question"),
    };
    assert_eq!(fetch.request(), Request::Value);
    assert!(app.cache().is_empty());
    assert!(is_continue(&app.load_key_details(fetch, Reply::Value("value of b".to_string()))));
    assert_eq!(app.mode(), Mode::Detail);
    assert_eq!(app.scroll(), 0);
    assert!(app.cache().contains("b"));
    assert_eq!(app.cache().get("b").unwrap().summary, "value of b");
    assert_eq!(app.cache().get("b").unwrap().ttl, 42);
}

#[test]
fn a_failed_fetch_stays_in_the_list() {
    let mut app = loaded(&["a", "b"]);
    app.handle_key_events(Key::Down);
    let asked = enter_and_answer(
        &mut app,
        vec![Reply::Type("list".to_string()), Reply::Failed("timed out".to_string())],
    );
    assert_eq!(asked, vec![Request::Type, Request::Ttl]);
    assert_eq!(app.mode(), Mode::Listing);
    assert_eq!(app.status(), "timed out");
    assert!(app.cache().is_empty());
    assert_eq!(app.selection(), Some(0));
    assert_eq!(app.keys(), &strings(&["a", "b"]));
}

#[test]
fn a_second_enter_is_a_cache_hit() {
    let mut app = loaded(&["a", "b"]);
    app.handle_key_events(Key::Down);
    let asked = enter_and_answer(&mut app, string_replies("first", 7));
    assert_eq!(asked, vec![Request::Type, Request::Ttl, Request::Value]);
    app.handle_key_events(Key::Esc);
    assert_eq!(app.mode(), Mode::Listing);
    assert!(is_continue(&app.handle_key_events(Key::Enter)));
    assert_eq!(app.mode(), Mode::Detail);
    assert_eq!(app.cache().get("a").unwrap().summary, "first");
    assert_eq!(app.cache().get("a").unwrap().ttl, 7);
}

#[test]
fn esc_keeps_filter_and_selection() {
    let mut app = loaded(&["alpha", "beta", "gamma"]);
    app.handle_key_events(Key::Char('m'));
    app.handle_key_events(Key::Down);
    enter_and_answer(&mut app, string_replies("g", -1));
    assert_eq!(app.mode(), Mode::Detail);
    assert!(app.cache().contains("gamma"));
    app.handle_key_events(Key::Esc);
    assert_eq!(app.mode(), Mode::Listing);
    assert_eq!(app.query(), "m");
    assert_eq!(app.selection(), Some(0));
    assert_eq!(app.visible_keys(), &strings(&["gamma"]));
}

#[test]
fn the_detail_view_ignores_typing() {
    let mut app = loaded(&["a"]);
    app.handle_key_events(Key::Down);
    enter_and_answer(&mut app, string_replies("v", 1));
    app.handle_key_events(Key::Char('x'));
    app.handle_key_events(Key::Backspace);
    assert!(is_continue(&app.handle_key_events(Key::Enter)));
    assert_eq!(app.query(), "");
    assert_eq!(app.selection(), Some(0));
    assert_eq!(app.mode(), Mode::Detail);
}

fn hash_details(n: usize) -> KeyDetails {
    let f = match Fetch::begin("h".to_string()).advance(Reply::Type("hash".to_string())) {
        Progress::Ask(f) => f,
        _ => panic!("expected another question"),
    };
    let f = match f.advance(Reply::Ttl(-1)) {
        Progress::Ask(f) => f,
        _ => panic!("expected another question"),
    };
    let fields = (1..=n).map(|i| (format!("f{}", i), format!("v{}", i))).collect();
    match f.advance(Reply::HashFields(fields)) {
        Progress::Done(_, d) => d,
        _ => panic!("expected the details"),
    }
}

#[test]
fn the_detail_view_scrolls_within_its_rows() {
    let mut app = loaded(&["h"]);
    app.handle_key_events(Key::Down);
    enter_and_answer(&mut app, hash_replies(3));
    assert_eq!(app.scroll(), 0);
    app.handle_key_events(Key::Up);
    assert_eq!(app.scroll(), 0);
    app.handle_key_events(Key::Down);
    assert_eq!(app.scroll(), 1);
    app.handle_key_events(Key::Down);
    assert_eq!(app.scroll(), 2);
    app.handle_key_events(Key::Down);
    assert_eq!(app.scroll(), 2);
    app.handle_key_events(Key::Up);
    assert_eq!(app.scroll(), 1);
    assert_eq!(app.selection(), Some(0));
    app.handle_key_events(Key::Esc);
    assert_eq!(app.scroll(), 0);
}

#[test]
fn reload_in_the_detail_view_empties_the_cache() {
    let mut app = loaded(&["a", "b"]);
    app.handle_key_events(Key::Down);
    enter_and_answer(&mut app, string_replies("stale", 9));
    assert_eq!(app.mode(), Mode::Detail);
    assert!(!app.cache().is_empty());
    assert!(matches!(app.render().main, MainRegion::Detail(_)));
    assert!(matches!(app.handle_key_events(Key::Char('R')), Command::Reload));
    app.load_keys(Ok(strings(&["b", "c", "d"])));
    assert!(app.cache().is_empty());
    assert_eq!(app.selection(), None);
    assert_eq!(app.status(), "3 keys found");
    match app.render().main {
        MainRegion::Listing(list) => {
            assert_eq!(list.items, strings(&["b", "c", "d"]));
            assert_eq!(list.selected, None);
        }
        MainRegion::Detail(_) => panic!("stale details must not show"),
    }
}

#[test]
fn reload_refilters_under_a_standing_query() {
    let mut app = loaded(&["alpha", "beta"]);
    app.handle_key_events(Key::Char('a'));
    app.handle_key_events(Key::Char('l'));
    app.load_keys(Ok(strings(&["gamma", "salt", "ALTO"])));
    assert_eq!(app.visible_keys(), &strings(&["salt", "ALTO"]));
}

#[test]
fn the_list_frame_shows_query_title_and_help() {
    let mut app = loaded(&["alpha", "beta", "gamma"]);
    app.handle_key_events(Key::Char('a'));
    app.handle_key_events(Key::Char('l'));
    app.handle_key_events(Key::Down);
    let frame = app.render();
    assert_eq!(frame.status, "3 keys found");
    let help: Vec<(&str, &str)> =
        frame.help.iter().map(|(k, v)| (k.as_str(), v.as_str())).collect();
    assert_eq!(
        help,
        vec![("Q", "Quit"), ("R", "Refresh"), ("Enter", "View Details"), ("ESC", "Back")]
    );
    match frame.main {
        MainRegion::Listing(list) => {
            assert_eq!(list.search, "Search: al");
            assert_eq!(list.title, "Redis Keys (1/3)");
            assert_eq!(list.items, strings(&["alpha"]));
            assert_eq!(list.selected, Some(0));
        }
        MainRegion::Detail(_) => panic!("expected the list"),
    }
}

#[test]
fn the_detail_frame_of_a_hash_lists_its_fields_in_order() {
    let mut app = loaded(&["h"]);
    app.handle_key_events(Key::Down);
    let asked = enter_and_answer(&mut app, hash_replies(2));
    assert_eq!(asked, vec![Request::Type, Request::Ttl, Request::HashFields]);
    assert_eq!(app.cache().get("h").unwrap().summary, "Hash type, 2 fields");
    match app.render().main {
        MainRegion::Detail(d) => {
            assert_eq!(d.key, "h");
            assert_eq!(d.type_tag, "hash");
            assert_eq!(d.ttl, "Never expires");
            assert_eq!(d.scroll, 0);
            match d.body {
                Body::Table(rows) => assert_eq!(
                    rows,
                    vec![
                        ("f1".to_string(), "v1".to_string()),
                        ("f2".to_string(), "v2".to_string()),
                    ]
                ),
                Body::Text(_) => panic!("expected a table"),
            }
        }
        MainRegion::Listing(_) => panic!("expected the details"),
    }
}

#[test]
fn the_detail_frame_of_a_string_shows_its_value() {
    let mut app = loaded(&["s"]);
    app.handle_key_events(Key::Down);
    enter_and_answer(&mut app, string_replies("the value", 42));
    match app.render().main {
        MainRegion::Detail(d) => {
            assert_eq!(d.type_tag, "string");
            assert_eq!(d.ttl, "42 seconds");
            assert!(matches!(d.body, Body::Text(ref t) if t == "the value"));
        }
        MainRegion::Listing(_) => panic!("expected the details"),
    }
}

#[test]
fn run_dispatches_every_event() {
    let mut app = App::new();
    assert!(is_continue(&app.run(Event::Keys(Ok(strings(&["a", "b"]))))));
    assert_eq!(app.status(), "2 keys found");
    assert!(is_continue(&app.run(Event::Key(Key::Down))));
    let mut command = app.run(Event::Key(Key::Enter));
    let mut replies = string_replies("v", 1).into_iter();
    let mut questions = 0;
    while let Command::Ask(fetch) = command {
        assert_eq!(fetch.key, "a");
        questions += 1;
        command = app.run(Event::Answer(fetch, replies.next().unwrap()));
    }
    assert_eq!(questions, 3);
    assert!(is_continue(&command));
    assert_eq!(app.mode(), Mode::Detail);
    assert!(is_continue(&app.run(Event::Keys(Err("down".to_string())))));
    assert_eq!(app.status(), "down");
    assert!(is_continue(&app.run(Event::Answer(
        Fetch::begin("b".to_string()),
        Reply::Failed("gone".to_string())
    ))));
    assert_eq!(app.status(), "gone");
    assert!(!app.cache().contains("b"));
    assert!(matches!(app.run(Event::Key(Key::Char('Q'))), Command::Quit));
}


#[test]
fn details_arriving_for_another_key_are_cached_only() {
    let mut app = loaded(&["a", "b"]);
    app.handle_key_events(Key::Down);
    let mut command = app.load_key_details(Fetch::begin("b".to_string()), Reply::Type("x".to_string()));
    while let Command::Ask(fetch) = command {
        command = app.load_key_details(fetch, Reply::Ttl(3));
    }
    assert!(app.cache().contains("b"));
    assert_eq!(app.cache().get("b").unwrap().summary, "Unknown type x");
    assert_eq!(app.mode(), Mode::Listing);
}

#[test]
fn the_detail_frame_of_an_unknown_type_shows_the_tag() {
    let mut app = loaded(&["u"]);
    app.handle_key_events(Key::Down);
    let asked = enter_and_answer(
        &mut app,
        vec![Reply::Type("stream".to_string()), Reply::Ttl(-2)],
    );
    assert_eq!(asked, vec![Request::Type, Request::Ttl]);
    match app.render().main {
        MainRegion::Detail(d) => {
            assert_eq!(d.type_tag, "stream");
            assert_eq!(d.ttl, "Key does not exist");
            assert!(matches!(d.body, Body::Text(ref t) if t == "stream"));
        }
        MainRegion::Listing(_) => panic!("expected the details"),
    }
}

#[test]
fn the_cache_answers_for_known_keys_and_hands_out_fetches_for_others() {
    let mut cache = DetailCache::new();
    assert!(cache.is_empty());
    match cache.ensure_details("k".to_string()) {
        Lookup::Miss(fetch) => {
            assert_eq!(fetch.key, "k");
            assert_eq!(fetch.request(), Request::Type);
        }
        Lookup::Hit(_) => panic!("an empty cache knows no key"),
    }
    cache.insert("k".to_string(), string_details("v1", 1));
    cache.insert("j".to_string(), string_details("w", 2));
    for _ in 0..2 {
        match cache.ensure_details("k".to_string()) {
            Lookup::Hit(d) => {
                assert_eq!(d.summary, "v1");
                assert_eq!(d.ttl, 1);
            }
            Lookup::Miss(_) => panic!("the key was inserted"),
        }
    }
    assert!(cache.contains("j"));
    assert!(!cache.contains("i"));
    assert!(cache.get("i").is_none());
    cache.insert("k".to_string(), string_details("v2", 3));
    assert_eq!(cache.get("k").unwrap().summary, "v2");
    assert_eq!(cache.get("j").unwrap().summary, "w");
    cache.clear();
    assert!(cache.is_empty());
    assert!(!cache.contains("k"));
}

#[test]
fn characters_decode_to_keys() {
    assert_eq!(key_for_char('c', true), Key::Interrupt);
    assert_eq!(key_for_char('C', true), Key::Interrupt);
    assert_eq!(key_for_char('x', true), Key::Other);
    assert_eq!(key_for_char('c', false), Key::Char('c'));
    assert_eq!(key_for_char('Q', false), Key::Char('Q'));
}

#[test]
fn numbers_render_in_decimal() {
    assert_eq!(decimal_text(0), "0");
    assert_eq!(decimal_text(7), "7");
    assert_eq!(decimal_text(10), "10");
    assert_eq!(decimal_text(9081726354), "9081726354");
    assert_eq!(decimal_text(u64::MAX), "18446744073709551615");
    assert_eq!(signed_decimal_text(0), "0");
    assert_eq!(signed_decimal_text(-1), "-1");
    assert_eq!(signed_decimal_text(120), "120");
    assert_eq!(signed_decimal_text(i64::MIN), "-9223372036854775808");
}

#[test]
fn join_appends() {
    assert_eq!(join("ab".to_string(), "cd"), "abcd");
    assert_eq!(join(String::new(), ""), "");
}

#[test]
fn bodies_follow_the_type() {
    assert!(matches!(body_of(&string_details("v", 1)), Body::Text(ref t) if t == "v"));
    match body_of(&hash_details(1)) {
        Body::Table(rows) => assert_eq!(rows, vec![("f1".to_string(), "v1".to_string())]),
        Body::Text(_) => panic!("expected a table"),
    }
    let fields = vec![("a".to_string(), "b".to_string())];
    assert_eq!(clone_fields(&fields), fields);
    assert_eq!(help_line().len(), 4);
}

#[test]
fn typing_quit_and_refresh_letters_in_lower_case_filters() {
    let mut app = loaded(&["quiet", "roar"]);
    assert!(is_continue(&app.handle_key_events(Key::Char('q'))));
    assert_eq!(app.query(), "q");
    assert_eq!(app.visible_keys(), &strings(&["quiet"]));
    app.handle_key_events(Key::Backspace);
    assert!(is_continue(&app.handle_key_events(Key::Char('r'))));
    assert_eq!(app.visible_keys(), &strings(&["roar"]));
}
