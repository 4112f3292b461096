use axum_prometheus::content_length::{exact_body_size, parse_content_length};

#[test]
fn digits_are_read_as_a_number() {
    assert_eq!(parse_content_length(b"0"), Some(0));
    assert_eq!(parse_content_length(b"7"), Some(7));
    assert_eq!(parse_content_length(b"123"), Some(123));
    assert_eq!(parse_content_length(b"007"), Some(7));
    assert_eq!(parse_content_length(b"1048576"), Some(1_048_576));
}

#[test]
fn a_leading_plus_is_accepted() {
    assert_eq!(parse_content_length(b"+5"), Some(5));
    assert_eq!(parse_content_length(b"+0"), Some(0));
}

#[test]
fn what_is_not_a_number_is_refused() {
    assert_eq!(parse_content_length(b""), None);
    assert_eq!(parse_content_length(b"+"), None);
    assert_eq!(parse_content_length(b"-"), None);
    assert_eq!(parse_content_length(b"-1"), None);
    assert_eq!(parse_content_length(b"++1"), None);
    assert_eq!(parse_content_length(b"12a"), None);
    assert_eq!(parse_content_length(b"a12"), None);
    assert_eq!(parse_content_length(b" 12"), None);
    assert_eq!(parse_content_length(b"12 "), None);
    assert_eq!(parse_content_length(b"1_000"), None);
    assert_eq!(parse_content_length(b"1.5"), None);
    assert_eq!(parse_content_length(b"\t1"), None);
    assert_eq!(parse_content_length(&[0x31, 0xff]), None);
}

#[test]
fn the_largest_number_fits_and_the_next_does_not() {
    assert_eq!(parse_content_length(b"18446744073709551615"), Some(u64::MAX));
    assert_eq!(parse_content_length(b"18446744073709551616"), None);
    assert_eq!(parse_content_length(b"18446744073709551620"), None);
    assert_eq!(parse_content_length(b"99999999999999999999"), None);
    assert_eq!(parse_content_length(b"184467440737095516150"), None);
    assert_eq!(parse_content_length(b"000018446744073709551615"), Some(u64::MAX));
}

#[test]
fn reads_what_the_standard_library_reads() {
    let samples = [
        "", "0", "1", "+1", "-1", "+", "12", "0012", "12x", "x12", " 1", "1 ", "+-1",
        "18446744073709551615", "18446744073709551616", "9223372036854775808", "1e3",
    ];
    for sample in samples {
        assert_eq!(parse_content_length(sample.as_bytes()), sample.parse::<u64>().ok(), "{:?}", sample);
    }
}

#[test]
fn the_size_that_the_body_gives_comes_first() {
    assert_eq!(exact_body_size(Some(3), &Some(b"5".to_vec())), Some(3));
    assert_eq!(exact_body_size(Some(3), &None), Some(3));
    assert_eq!(exact_body_size(Some(0), &Some(b"nonsense".to_vec())), Some(0));
}

#[test]
fn the_header_counts_where_the_body_gives_no_size() {
    assert_eq!(exact_body_size(None, &Some(b"5".to_vec())), Some(5));
    assert_eq!(exact_body_size(None, &Some(b"five".to_vec())), None);
    assert_eq!(exact_body_size(None, &None), None);
}
