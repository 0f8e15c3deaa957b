use video_maker::command::{download_url, format_seconds, stamped_name, upload_path};
use video_maker::decimal::{
    decimal_digits, decimal_string, digit_of, digit_to_value, is_all_digits, parse_decimal,
};
use video_maker::text::{
    chars_of, is_whitespace, join_with_spaces, same_text, split_words, string_of,
    text_ends_with, text_is_blank,
};

#[test]
fn whitespace_is_the_white_space_property() {
    for code in 0..=0x10FFFFu32 {
        if let Some(c) = char::from_u32(code) {
            assert_eq!(is_whitespace(c), c.is_whitespace(), "U+{:04X}", code);
        }
    }
}

#[test]
fn words_are_the_runs_without_whitespace() {
    let samples = [
        "",
        " ",
        "one",
        "  one  ",
        "one two",
        "one\ttwo\nthree\r\nfour",
        "a\u{a0}b\u{2003}c\u{3000}d\u{85}e\u{1680}f",
        "no\u{200b}break",
        " leading and trailing ",
    ];
    for text in samples {
        let expected: Vec<String> = text.split_whitespace().map(|w| w.to_string()).collect();
        assert_eq!(split_words(text), expected);
        assert_eq!(text_is_blank(text), text.trim().is_empty());
        assert_eq!(text_is_blank(text), split_words(text).is_empty());
    }
    assert_eq!(split_words("a  b"), vec!["a".to_string(), "b".to_string()]);
}

#[test]
fn texts_convert_to_characters_and_back() {
    let text = "héllo, wörld \u{1F600}";
    let chars = chars_of(text);
    assert_eq!(chars, text.chars().collect::<Vec<char>>());
    assert_eq!(string_of(&chars), text);
    assert_eq!(string_of(&[]), "");
}

#[test]
fn words_are_joined_with_single_spaces() {
    let words = vec!["a".to_string(), "bc".to_string(), "d".to_string()];
    assert_eq!(join_with_spaces(&words), "a bc d");
    assert_eq!(join_with_spaces(&words[..1].to_vec()), "a");
    assert_eq!(join_with_spaces(&Vec::new()), "");
}

#[test]
fn texts_are_compared_by_their_characters() {
    assert!(same_text("9:16", "9:16"));
    assert!(same_text("", ""));
    assert!(!same_text("9:16", "16:9"));
    assert!(!same_text("abc", "abcd"));
    assert!(!same_text("abd", "abc"));
    assert!(text_ends_with("photo.png", ".png"));
    assert!(text_ends_with(".png", ".png"));
    assert!(text_ends_with("anything", ""));
    assert!(!text_ends_with("png", ".png"));
    assert!(!text_ends_with("photo.png.txt", ".png"));
}

#[test]
fn numerals_are_decimal() {
    for n in [0u64, 1, 9, 10, 99, 100, 101, 1234567890, u64::MAX] {
        assert_eq!(decimal_string(n), n.to_string());
        assert_eq!(string_of(&decimal_digits(n)), n.to_string());
        assert_eq!(parse_decimal(&chars_of(&n.to_string())), Some(n));
    }
    for d in 0..10u8 {
        assert_eq!(digit_of(d), (b'0' + d) as char);
        assert_eq!(digit_to_value(digit_of(d)), Some(d));
    }
    assert_eq!(digit_to_value('a'), None);
    assert_eq!(digit_to_value('/'), None);
    assert_eq!(digit_to_value(':'), None);
    assert_eq!(digit_to_value('\u{0663}'), None);
}

#[test]
fn digit_strings_are_read_with_leading_zeros_and_limits() {
    assert_eq!(parse_decimal(&chars_of("")), Some(0));
    assert_eq!(parse_decimal(&chars_of("007")), Some(7));
    assert_eq!(parse_decimal(&chars_of("18446744073709551615")), Some(u64::MAX));
    assert_eq!(parse_decimal(&chars_of("18446744073709551616")), None);
    assert_eq!(parse_decimal(&chars_of("00018446744073709551615")), Some(u64::MAX));
    assert_eq!(parse_decimal(&chars_of("12a")), None);
    assert_eq!(parse_decimal(&chars_of("-1")), None);
    assert_eq!(parse_decimal(&chars_of("+1")), None);
    assert!(is_all_digits(&chars_of("0123456789")));
    assert!(is_all_digits(&[]));
    assert!(!is_all_digits(&chars_of("12.5")));
}

#[test]
fn durations_are_seconds_with_three_decimals() {
    assert_eq!(format_seconds(0), "0.000");
    assert_eq!(format_seconds(2000), "2.000");
    assert_eq!(format_seconds(3428), "3.428");
    assert_eq!(format_seconds(61_005), "61.005");
    assert_eq!(format_seconds(u64::MAX), "18446744073709551.615");
}

#[test]
fn names_carry_the_time_stamp() {
    assert_eq!(stamped_name("output_", 1700000000, ".mp3"), "output_1700000000.mp3");
    assert_eq!(stamped_name("", 0, ""), "0");
    assert_eq!(upload_path("video_5.mp4"), "uploads/video_5.mp4");
    assert_eq!(download_url("video_5.mp4"), "/download/video_5.mp4");
}
