use github_dashboard::status::{status_is_success, status_text};
use github_dashboard::text::{decimal_text, is_blank, same_text, starts_with, white_space};

#[test]
fn decimal_renders_like_display() {
    assert_eq!(decimal_text(0), "0");
    assert_eq!(decimal_text(7), "7");
    assert_eq!(decimal_text(10), "10");
    assert_eq!(decimal_text(404), "404");
    assert_eq!(decimal_text(u64::MAX), u64::MAX.to_string());
    for n in [1u64, 9, 99, 100, 1234567890, 4294967295] {
        assert_eq!(decimal_text(n), n.to_string());
    }
}

#[test]
fn decimal_reads_back() {
    for n in [0u64, 5, 42, 1000, 65535] {
        let text = decimal_text(n);
        assert_eq!(text.parse::<u64>().unwrap(), n);
        assert!(text == "0" || !text.starts_with('0'));
    }
}

#[test]
fn prefixes_and_equality() {
    assert!(starts_with("Fetching...", "Fetching"));
    assert!(starts_with("abc", ""));
    assert!(!starts_with("Fetch", "Fetching"));
    assert!(!starts_with("Success", "success"));
    assert!(starts_with("日本語", "日本"));
    assert!(same_text("Idle", "Idle"));
    assert!(!same_text("Idle", "Idle "));
    assert!(!same_text("", "x"));
}

#[test]
fn blank_text_is_only_white_space() {
    assert!(is_blank(""));
    assert!(is_blank("  \t\n"));
    assert!(is_blank("\u{3000}\u{a0}"));
    assert!(!is_blank(" octocat "));
    assert!(white_space('\u{2009}'));
    assert!(!white_space('x'));
    for c in ['\u{85}', '\u{1680}', '\u{2028}', '\u{202f}', '\u{205f}', '\u{200b}', 'a', '\u{0}'] {
        assert_eq!(white_space(c), c.is_whitespace());
    }
}

#[test]
fn status_prints_number_and_reason() {
    assert_eq!(status_text(404), "404 Not Found");
    assert_eq!(status_text(200), "200 OK");
    assert_eq!(status_text(503), "503 Service Unavailable");
    assert_eq!(status_text(299), "299 <unknown status code>");
    assert_eq!(status_text(999), "999 <unknown status code>");
}

#[test]
fn success_is_the_two_hundreds() {
    assert!(status_is_success(200));
    assert!(status_is_success(299));
    assert!(!status_is_success(300));
    assert!(!status_is_success(199));
    assert!(!status_is_success(404));
}
