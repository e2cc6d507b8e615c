use edge_router::error::LocationError;
use edge_router::location::{
    query_parameter, resolve_location, HostEnvironment, LOCAL_TEST_HOST, LOCATION_PARAMETER,
};
use edge_router::text::{char_range, matches_at, str_eq, to_chars};

fn environment(host_name: Option<&str>, location: Option<&str>) -> HostEnvironment {
    HostEnvironment {
        host_name: host_name.map(|s| s.to_string()),
        location: location.map(|s| s.to_string()),
    }
}

fn value(query: &str, name: &str) -> Option<String> {
    query_parameter(query, name)
}

#[test]
fn parameter_values_are_found_by_name() {
    assert_eq!(value("foo=bar&baz=qux", "foo"), Some("bar".to_string()));
    assert_eq!(value("foo=bar&baz=qux", "baz"), Some("qux".to_string()));
    assert_eq!(value("foo=bar&baz=qux", "other"), None);
}

#[test]
fn first_occurrence_of_a_parameter_counts() {
    assert_eq!(value("pop=AMS&pop=AKL", "pop"), Some("AMS".to_string()));
    assert_eq!(value("x=1&pop=AKL&pop=AMS", "pop"), Some("AKL".to_string()));
}

#[test]
fn parameter_name_must_match_the_whole_key() {
    assert_eq!(value("popx=1&pop=AMS", "pop"), Some("AMS".to_string()));
    assert_eq!(value("xpop=1", "pop"), None);
    assert_eq!(value("po=1", "pop"), None);
    assert_eq!(value("POP=AMS", "pop"), None);
    assert_eq!(value("pop", "pop"), None);
    assert_eq!(value("pop&pop=AMS", "pop"), Some("AMS".to_string()));
}

#[test]
fn parameter_value_may_be_empty_or_hold_an_equals_sign() {
    assert_eq!(value("pop=", "pop"), Some("".to_string()));
    assert_eq!(value("pop=&x=1", "pop"), Some("".to_string()));
    assert_eq!(value("pop=a=b&x=1", "pop"), Some("a=b".to_string()));
}

#[test]
fn parameter_value_is_not_decoded() {
    assert_eq!(value("pop=A%4DS", "pop"), Some("A%4DS".to_string()));
    assert_eq!(value("pop=A+S", "pop"), Some("A+S".to_string()));
    assert_eq!(value("pop=\u{e9}t\u{e9}&x=1", "pop"), Some("\u{e9}t\u{e9}".to_string()));
    assert_eq!(value("\u{e9}=1&pop=AMS", "pop"), Some("AMS".to_string()));
}

#[test]
fn empty_segments_and_empty_queries_hold_nothing() {
    assert_eq!(value("", "pop"), None);
    assert_eq!(value("&", "pop"), None);
    assert_eq!(value("&&pop=AMS&", "pop"), Some("AMS".to_string()));
    assert_eq!(value("x=1&", "pop"), None);
    assert_eq!(value("=AMS", ""), Some("AMS".to_string()));
    assert_eq!(value("", ""), None);
}

#[test]
fn location_parameter_is_pop() {
    assert_eq!(LOCATION_PARAMETER, "pop");
    assert_eq!(LOCAL_TEST_HOST, "localhost");
}

#[test]
fn chosen_location_comes_first() {
    let production = environment(Some("cache-ams1234"), Some("AMS"));
    assert_eq!(
        resolve_location(Some("AKL".to_string()), &production, "SJC"),
        Ok("AKL".to_string())
    );
    let local = environment(Some("localhost"), None);
    assert_eq!(resolve_location(Some("AKL".to_string()), &local, "SJC"), Ok("AKL".to_string()));
    let nothing = environment(None, None);
    assert_eq!(
        resolve_location(Some("whatever".to_string()), &nothing, "SJC"),
        Ok("whatever".to_string())
    );
    assert_eq!(resolve_location(Some("".to_string()), &nothing, "SJC"), Ok("".to_string()));
}

#[test]
fn local_test_server_stands_for_the_default_location() {
    let local = environment(Some("localhost"), None);
    assert_eq!(resolve_location(None, &local, "SJC"), Ok("SJC".to_string()));
    let local_with_location = environment(Some("localhost"), Some("AMS"));
    assert_eq!(resolve_location(None, &local_with_location, "LHR"), Ok("LHR".to_string()));
}

#[test]
fn production_location_is_what_the_host_reports() {
    let production = environment(Some("cache-ams1234"), Some("AMS"));
    assert_eq!(resolve_location(None, &production, "SJC"), Ok("AMS".to_string()));
    let almost_local = environment(Some("localhost.example"), Some("BOS"));
    assert_eq!(resolve_location(None, &almost_local, "SJC"), Ok("BOS".to_string()));
    let upper = environment(Some("LOCALHOST"), Some("BOG"));
    assert_eq!(resolve_location(None, &upper, "SJC"), Ok("BOG".to_string()));
}

#[test]
fn missing_production_location_is_an_error() {
    let production = environment(Some("cache-ams1234"), None);
    assert_eq!(resolve_location(None, &production, "SJC"), Err(LocationError::MissingLocation));
}

#[test]
fn missing_host_name_is_an_error() {
    assert_eq!(
        resolve_location(None, &environment(None, None), "SJC"),
        Err(LocationError::MissingHostName)
    );
    assert_eq!(
        resolve_location(None, &environment(None, Some("AMS")), "SJC"),
        Err(LocationError::MissingHostName)
    );
}

#[test]
fn strings_are_equal_when_their_texts_are() {
    assert!(str_eq("", ""));
    assert!(str_eq("GET", "GET"));
    assert!(!str_eq("GET", "GE"));
    assert!(!str_eq("GET", "GEX"));
    assert!(!str_eq("GET", "get"));
    assert!(str_eq("\u{e9}t\u{e9}", "\u{e9}t\u{e9}"));
    assert!(!str_eq("\u{e9}", "e"));
}

#[test]
fn text_helpers_count_characters_not_bytes() {
    assert_eq!(to_chars("a\u{e9}b"), vec!['a', '\u{e9}', 'b']);
    assert_eq!(to_chars(""), Vec::<char>::new());
    assert_eq!(char_range("a\u{e9}bc", 1, 3), "\u{e9}b");
    assert_eq!(char_range("abc", 3, 3), "");
    assert_eq!(char_range("abc", 0, 3), "abc");
    let hay = to_chars("s3.x.com");
    assert!(matches_at(&hay, 0, &to_chars("s3.")));
    assert!(matches_at(&hay, 4, &to_chars(".com")));
    assert!(matches_at(&hay, 8, &to_chars("")));
    assert!(!matches_at(&hay, 9, &to_chars("")));
    assert!(!matches_at(&hay, 5, &to_chars(".com")));
    assert!(!matches_at(&hay, 1, &to_chars("s3.")));
    assert!(!matches_at(&hay, usize::MAX, &to_chars("s")));
}
