use azure_dispatch::hint::parse_retry_hint;

#[test]
fn plain_hint_is_parsed() {
    assert_eq!(parse_retry_hint("try again in 30 seconds"), Some(30));
}

#[test]
fn hint_is_found_mid_message() {
    assert_eq!(
        parse_retry_hint("Rate limit exceeded. Please try again in 12 seconds."),
        Some(12)
    );
}

#[test]
fn marker_match_ignores_ascii_case() {
    assert_eq!(parse_retry_hint("Try again in 9 seconds"), Some(9));
    assert_eq!(parse_retry_hint("TRY AGAIN IN 9 SECONDS"), Some(9));
}

#[test]
fn extra_spaces_before_the_number_are_skipped() {
    assert_eq!(parse_retry_hint("try again in   5 seconds"), Some(5));
}

#[test]
fn message_without_marker_has_no_hint() {
    assert_eq!(parse_retry_hint("rate limit exceeded"), None);
    assert_eq!(parse_retry_hint(""), None);
    assert_eq!(parse_retry_hint("try again later"), None);
}

#[test]
fn non_numeric_token_has_no_hint() {
    assert_eq!(parse_retry_hint("try again in soon"), None);
    assert_eq!(parse_retry_hint("try again in 5s"), None);
}

#[test]
fn zero_hint_is_discarded() {
    assert_eq!(parse_retry_hint("try again in 0 seconds"), None);
}

#[test]
fn empty_tail_has_no_hint() {
    assert_eq!(parse_retry_hint("please try again in "), None);
    assert_eq!(parse_retry_hint("please try again in    "), None);
}

#[test]
fn number_at_end_of_message_is_parsed() {
    assert_eq!(parse_retry_hint("try again in 42"), Some(42));
}

#[test]
fn first_marker_occurrence_wins() {
    assert_eq!(
        parse_retry_hint("try again in 3 seconds or try again in 60 seconds"),
        Some(3)
    );
}

#[test]
fn largest_representable_hint_is_kept() {
    assert_eq!(
        parse_retry_hint("try again in 18446744073709551615 seconds"),
        Some(u64::MAX)
    );
}

#[test]
fn oversized_number_has_no_hint() {
    assert_eq!(
        parse_retry_hint("try again in 99999999999999999999 seconds"),
        None
    );
}
