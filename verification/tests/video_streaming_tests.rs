//! Tests for the byte ranges of a streaming request and the answer to it.

use yt_rs::media::{parse_range, range_start, stream_plan};

#[test]
fn range_with_both_ends() {
    assert_eq!(parse_range("bytes=0-1023", 2048), Some((0, 1023)));
    assert_eq!(parse_range("bytes=100-199", 200), Some((100, 199)));
}

#[test]
fn range_without_end_runs_to_the_last_byte() {
    assert_eq!(parse_range("bytes=500-", 1000), Some((500, 999)));
    assert_eq!(parse_range("bytes=0-", 1), Some((0, 0)));
    assert_eq!(parse_range("bytes=5", 10), Some((5, 9)));
}

#[test]
fn unreadable_end_runs_to_the_last_byte() {
    assert_eq!(parse_range("bytes=10-abc", 100), Some((10, 99)));
    assert_eq!(parse_range("bytes=10-20-30", 100), Some((10, 20)));
}

#[test]
fn refused_ranges() {
    assert_eq!(parse_range("bytes=0-2048", 2048), None);
    assert_eq!(parse_range("bytes=50-10", 100), None);
    assert_eq!(parse_range("bytes=-500", 1000), None);
    assert_eq!(parse_range("items=0-10", 100), None);
    assert_eq!(parse_range("bytes=x-10", 100), None);
    assert_eq!(parse_range("bytes=100-", 100), None);
    assert_eq!(parse_range("", 100), None);
}

#[test]
fn range_numbers_follow_integer_parsing() {
    assert_eq!(parse_range("bytes=+5-+9", 100), Some((5, 9)));
    assert_eq!(parse_range("bytes=18446744073709551616-", 100), None);
}

#[test]
fn range_start_of_a_header() {
    assert_eq!(range_start("bytes=42-"), Some(42));
    assert_eq!(range_start("bytes=-1"), None);
    assert_eq!(range_start("pages=1-"), None);
}

#[test]
fn partial_answer_names_the_range() {
    let plan = stream_plan(Some((100, 199)), 1000);
    assert_eq!(plan.status, 206);
    assert_eq!(plan.start, 100);
    assert_eq!(plan.length, 100);
    assert_eq!(plan.content_range.as_deref(), Some("bytes 100-199/1000"));
}

#[test]
fn whole_answer_without_a_range() {
    let plan = stream_plan(None, 5000);
    assert_eq!(plan.status, 200);
    assert_eq!(plan.start, 0);
    assert_eq!(plan.length, 5000);
    assert!(plan.content_range.is_none());
}
