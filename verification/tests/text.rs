use vs_git_ui::text::{bracketed_count, decimal, format_relative_time, join3, last_segment, short_sha};

#[test]
fn last_segment_is_behind_the_last_slash() {
    assert_eq!(last_segment("refs/remotes/origin/main"), "main");
    assert_eq!(last_segment("main"), "main");
    assert_eq!(last_segment(""), "");
    assert_eq!(last_segment("origin/"), "");
    assert_eq!(last_segment("/"), "");
    assert_eq!(last_segment("origin/fix/größe"), "größe");
}

#[test]
fn short_sha_keeps_seven_bytes() {
    assert_eq!(short_sha("0123456789abcdef"), "0123456");
    assert_eq!(short_sha("0123456"), "0123456");
    assert_eq!(short_sha("abc"), "abc");
    assert_eq!(short_sha(""), "");
    assert_eq!(short_sha("abcdeü-rest"), "abcdeü");
}

#[test]
fn decimal_writes_numbers() {
    assert_eq!(decimal(0), "0");
    assert_eq!(decimal(9), "9");
    assert_eq!(decimal(10), "10");
    assert_eq!(decimal(12345678901234567890), "12345678901234567890");
    assert_eq!(decimal(u64::MAX), format!("{}", u64::MAX));
}

#[test]
fn counts_stand_in_brackets() {
    assert_eq!(bracketed_count(3, ")"), "(3)");
    assert_eq!(bracketed_count(0, " files)"), "(0 files)");
    assert_eq!(join3("a", "", "c"), "ac");
}

#[test]
fn relative_time_in_each_unit() {
    let now: i64 = 1_700_000_000;
    assert_eq!(format_relative_time(now, now), "just now");
    assert_eq!(format_relative_time(now - 59, now), "just now");
    assert_eq!(format_relative_time(now - 60, now), "1m ago");
    assert_eq!(format_relative_time(now - 3599, now), "59m ago");
    assert_eq!(format_relative_time(now - 3600, now), "1h ago");
    assert_eq!(format_relative_time(now - 86399, now), "23h ago");
    assert_eq!(format_relative_time(now - 86400, now), "1d ago");
    assert_eq!(format_relative_time(now - 604799, now), "6d ago");
    assert_eq!(format_relative_time(now - 604800, now), "1w ago");
    assert_eq!(format_relative_time(now - 2591999, now), "4w ago");
    assert_eq!(format_relative_time(now - 2592000, now), "1mo ago");
    assert_eq!(format_relative_time(now - 10 * 2592000, now), "10mo ago");
}

#[test]
fn relative_time_of_the_future_and_of_the_far_past() {
    assert_eq!(format_relative_time(1000, 0), "just now");
    assert_eq!(format_relative_time(i64::MAX, 0), "just now");
    assert_eq!(format_relative_time(-2592000, 0), "1mo ago");
}
