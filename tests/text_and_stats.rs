use kir_bot::model::{win_rate, win_rate_whole};
use kir_bot::text::{char_is_space, same_text, split_name_tag, strip_prefix, token_length, trim};

#[test]
fn trim_removes_outer_white_space_only() {
    assert_eq!(trim("  Faker#KR1 \t\n"), "Faker#KR1");
    assert_eq!(trim("a b"), "a b");
    assert_eq!(trim("   "), "");
    assert_eq!(trim(""), "");
}

#[test]
fn split_on_first_hash() {
    assert_eq!(split_name_tag("Faker#KR1"), ("Faker", "KR1"));
    assert_eq!(split_name_tag("a#b#c"), ("a", "b#c"));
    assert_eq!(split_name_tag("NoTag"), ("NoTag", ""));
    assert_eq!(split_name_tag("#only"), ("", "only"));
    assert_eq!(split_name_tag(""), ("", ""));
}

#[test]
fn token_length_stops_at_white_space() {
    assert_eq!(token_length("help me"), 4);
    assert_eq!(token_length("help"), 4);
    assert_eq!(token_length(" x"), 0);
}

#[test]
fn prefix_is_stripped_only_when_present() {
    assert_eq!(strip_prefix("/kir help", "/kir "), Some("help"));
    assert_eq!(strip_prefix("/kirhelp", "/kir "), None);
    assert_eq!(strip_prefix("/ki", "/kir "), None);
    assert!(same_text("abc", "abc"));
    assert!(!same_text("abc", "abd"));
    assert!(!same_text("abc", "ab"));
}

#[test]
fn win_rate_is_zero_without_games() {
    assert_eq!(win_rate(0, 0), 0);
    assert_eq!(win_rate_whole(0, 0), 0);
}

#[test]
fn win_rate_to_two_decimals() {
    assert_eq!(win_rate(53, 47), 5300);
    assert_eq!(win_rate(1, 2), 3333);
    assert_eq!(win_rate(2, 1), 6667);
    assert_eq!(win_rate(10, 0), 10000);
    assert_eq!(win_rate(0, 10), 0);
    for (w, l) in [(7u128, 3u128), (123, 456), (1, 999), (999, 1), (5, 5)] {
        let expected = format!("{:.2}", w as f64 / (w + l) as f64 * 100.0);
        let got = win_rate(w, l);
        assert_eq!(format!("{}.{:02}", got / 100, got % 100), expected);
    }
}

#[test]
fn whole_percent_win_rate_rounds_half_up() {
    assert_eq!(win_rate_whole(1, 2), 33);
    assert_eq!(win_rate_whole(2, 1), 67);
    assert_eq!(win_rate_whole(1, 7), 13);
    assert_eq!(win_rate_whole(11, 7), 61);
    assert_eq!(win_rate_whole(3, 0), 100);
}

#[test]
fn white_space_agrees_with_std() {
    for u in 0u32..=0x10FFFF {
        if let Some(c) = char::from_u32(u) {
            assert_eq!(char_is_space(c), c.is_whitespace(), "U+{:04X}", u);
        }
    }
}
