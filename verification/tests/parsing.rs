use encyclopedia::query::{parse_query, parse_search, search_value, submit_search};

#[test]
fn parses_plain_integers() {
    assert_eq!(parse_search("0"), 0);
    assert_eq!(parse_search("12"), 12);
    assert_eq!(parse_search("007"), 7);
    assert_eq!(parse_search("+5"), 5);
    assert_eq!(parse_search("-7"), -7);
}

#[test]
fn malformed_input_degrades_to_zero() {
    assert_eq!(parse_search(""), 0);
    assert_eq!(parse_search("+"), 0);
    assert_eq!(parse_search("-"), 0);
    assert_eq!(parse_search("abc"), 0);
    assert_eq!(parse_search("1x"), 0);
    assert_eq!(parse_search(" 1"), 0);
    assert_eq!(parse_search("1 "), 0);
    assert_eq!(parse_search("--1"), 0);
    assert_eq!(parse_search("1.5"), 0);
    assert_eq!(parse_search("\u{fe0f}12"), 0);
}

#[test]
fn representable_bounds_are_kept() {
    assert_eq!(parse_search("2147483647"), i32::MAX);
    assert_eq!(parse_search("-2147483648"), i32::MIN);
}

#[test]
fn out_of_range_values_degrade_to_zero() {
    assert_eq!(parse_search("2147483648"), 0);
    assert_eq!(parse_search("-2147483649"), 0);
    assert_eq!(parse_search("99999999999999999999"), 0);
    assert_eq!(parse_search("-99999999999999999999"), 0);
}

#[test]
fn query_string_splits_into_pairs() {
    let qm = parse_query("q=12&p=secret");
    assert_eq!(qm.get("q"), Some("12".to_string()));
    assert_eq!(qm.get("p"), Some("secret".to_string()));
    assert_eq!(qm.get("missing"), None);
}

#[test]
fn segment_without_equals_has_empty_value() {
    let qm = parse_query("flag&q=3");
    assert_eq!(qm.get("flag"), Some(String::new()));
    assert_eq!(qm.get("q"), Some("3".to_string()));
}

#[test]
fn later_duplicate_overwrites_earlier() {
    let qm = parse_query("q=1&q=2");
    assert_eq!(qm.get("q"), Some("2".to_string()));
}

#[test]
fn empty_query_string_has_no_q() {
    let qm = parse_query("");
    assert_eq!(qm.get("q"), None);
    assert_eq!(search_value(&qm), 0);
}

#[test]
fn search_value_reads_q() {
    assert_eq!(search_value(&parse_query("q=5")), 5);
    assert_eq!(search_value(&parse_query("p=1&q=-3")), -3);
    assert_eq!(search_value(&parse_query("q=oops")), 0);
    assert_eq!(search_value(&parse_query("p=9")), 0);
}

#[test]
fn search_field_round_trip() {
    // typing 12 into the field rewrites the URL query string to q=12,
    // and parsing that URL yields 12 again
    let url_query = submit_search("12");
    assert_eq!(url_query, "q=12");
    let qm = parse_query(&url_query);
    assert_eq!(qm.get("q"), Some("12".to_string()));
    assert_eq!(search_value(&qm), 12);
}

#[test]
fn round_trip_keeps_malformed_input_at_zero() {
    let url_query = submit_search("12abc");
    assert_eq!(url_query, "q=12abc");
    assert_eq!(search_value(&parse_query(&url_query)), 0);
}
