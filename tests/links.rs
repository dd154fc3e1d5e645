use holo_bot::links::{parse_u64, tweet_id_from_capture, tweet_id_from_link};

#[test]
fn tweet_ids_are_read_from_links() {
    assert_eq!(tweet_id_from_link("https://twitter.com/123/status/456789"), Some(456789));
    assert_eq!(tweet_id_from_link("see https://twitter.com/1/status/42/ here"), Some(42));
    assert_eq!(tweet_id_from_link("https://twitter.com/user/status/42"), None);
    assert_eq!(tweet_id_from_link("https://twitterXcom/1/status/42"), None);
    assert_eq!(tweet_id_from_link(""), None);
}

#[test]
fn ids_that_do_not_fit_are_refused() {
    assert_eq!(
        tweet_id_from_link("https://twitter.com/1/status/99999999999999999999"),
        None
    );
    assert_eq!(tweet_id_from_link("https://twitter.com/1/status/\u{661}\u{662}"), None);
}

#[test]
fn captures_are_read_as_numbers() {
    assert_eq!(tweet_id_from_capture(Some("17")), Some(17));
    assert_eq!(tweet_id_from_capture(None), None);
}

#[test]
fn unsigned_numbers_parse_like_std() {
    for s in ["0", "+12", "+", "", "-1", "18446744073709551615", "18446744073709551616", "12a", "007"] {
        assert_eq!(parse_u64(s), s.parse::<u64>().ok(), "{}", s);
    }
}
