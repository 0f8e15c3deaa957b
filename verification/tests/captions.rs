use video_maker::captions::{
    caption_cues_from_text, caption_segments, generate_captions_from_text,
};
use video_maker::error::ErrorKind;
use video_maker::segment::{segment_words, word_ends_clause};
use video_maker::srt::{format_time, parse_time, render_cue_block, render_document};
use video_maker::text::split_words;
use video_maker::timing::{assign_cues, estimate_rate, CaptionCue};

fn owned(words: &[&str]) -> Vec<String> {
    words.iter().map(|w| w.to_string()).collect()
}

fn sizes(segments: &[Vec<String>]) -> Vec<usize> {
    segments.iter().map(|s| s.len()).collect()
}

#[test]
fn hello_world_is_one_segment_over_the_whole_audio() {
    let (document, status) =
        generate_captions_from_text("Hello world. This is great!", 4000).unwrap();
    assert_eq!(
        document,
        "1\n00:00:00,000 --> 00:00:04,000\nHELLO WORLD. THIS IS GREAT!\n\n"
    );
    assert_eq!(status, "Generated 1 caption segments");
}

#[test]
fn hello_world_rate_and_spans() {
    let words = split_words("Hello world. This is great!");
    assert_eq!(words.len(), 5);
    let rate = estimate_rate(5, 4000).unwrap();
    assert_eq!(rate.per_second_milli(), 1250);
    assert_eq!(rate.word_count(), 5);
    assert_eq!(rate.duration(), 4000);
    let groups = vec![owned(&["Hello", "world.", "This", "is"]), owned(&["great!"])];
    let cues = assign_cues(&groups, &rate);
    assert_eq!(cues.len(), 2);
    assert_eq!(cues[0].text, "Hello world. This is");
    assert_eq!((cues[0].start_ms, cues[0].end_ms), (0, 3200));
    assert_eq!(cues[1].text, "great!");
    assert_eq!((cues[1].start_ms, cues[1].end_ms), (3200, 4000));
    assert_eq!(
        render_document(&cues),
        "1\n00:00:00,000 --> 00:00:03,200\nHELLO WORLD. THIS IS\n\n\
         2\n00:00:03,200 --> 00:00:04,000\nGREAT!\n\n"
    );
}

#[test]
fn empty_text_gives_empty_document_and_status() {
    let (document, status) = generate_captions_from_text("", 4000).unwrap();
    assert_eq!(document, "");
    assert_eq!(status, "No text to generate captions");
    let (document, status) = generate_captions_from_text(" \t\n ", 0).unwrap();
    assert_eq!(document, "");
    assert_eq!(status, "No text to generate captions");
    assert!(caption_cues_from_text("", 1).unwrap().is_empty());
    assert!(caption_segments("").is_empty());
}

#[test]
fn zero_duration_is_refused() {
    let failure = generate_captions_from_text("some words here", 0).unwrap_err();
    assert_eq!(failure.kind, ErrorKind::Duration);
    assert_eq!(failure.message, "Audio duration must be positive");
    let failure = caption_cues_from_text("word", 0).unwrap_err();
    assert_eq!(failure.kind, ErrorKind::Duration);
    let failure = estimate_rate(3, 0).unwrap_err();
    assert_eq!(failure.kind, ErrorKind::Duration);
    assert!(estimate_rate(0, 1).is_ok());
}

#[test]
fn segments_close_at_six_words_without_punctuation() {
    let text = "a b c d e f g h i j k l m n o p q r s t";
    let segments = caption_segments(text);
    assert_eq!(sizes(&segments), vec![6, 6, 6, 2]);
    assert_eq!(segments[3], owned(&["s", "t"]));
}

#[test]
fn segments_close_at_punctuation_from_four_words_on() {
    let segments = caption_segments("one, two. three! four? five six seven, eight nine ten");
    assert_eq!(
        segments,
        vec![
            owned(&["one,", "two.", "three!", "four?"]),
            owned(&["five", "six", "seven,", "eight", "nine", "ten"]),
        ]
    );
    let segments = caption_segments("a b c d e, f g h i");
    assert_eq!(sizes(&segments), vec![5, 4]);
    let segments = caption_segments("a. b. c.");
    assert_eq!(sizes(&segments), vec![3]);
}

#[test]
fn segment_sizes_stay_within_bounds() {
    let mut text = String::new();
    for i in 0..200 {
        text.push_str("w");
        if i % 7 == 0 {
            text.push('.');
        }
        if i % 11 == 0 {
            text.push(',');
        }
        text.push(' ');
        let segments = caption_segments(&text);
        let total: usize = segments.iter().map(|s| s.len()).sum();
        assert_eq!(total, i + 1);
        for (k, segment) in segments.iter().enumerate() {
            assert!(segment.len() >= 1 && segment.len() <= 6);
            if k + 1 < segments.len() {
                assert!(segment.len() >= 4);
            }
        }
    }
}

#[test]
fn segmenting_twice_gives_the_same_segments() {
    let text = "The quick brown fox, they say, jumps over the lazy dog. Twice! Or not?";
    assert_eq!(caption_segments(text), caption_segments(text));
    let words = split_words(text);
    assert_eq!(segment_words(&words), segment_words(&words));
}

#[test]
fn break_marks_are_the_four_of_the_rule() {
    for word in ["end.", "end!", "end?", "end,", ","] {
        assert!(word_ends_clause(word));
    }
    for word in ["end", "end;", "end:", ".end", "", "end.\u{201d}"] {
        assert!(!word_ends_clause(word));
    }
}

#[test]
fn cues_are_contiguous_and_end_with_the_audio() {
    let text = "one two three four five six seven eight nine ten eleven twelve thirteen";
    for duration in [1u64, 7, 999, 1000, 12_345, 3_600_001, u64::MAX] {
        let cues = caption_cues_from_text(text, duration).unwrap();
        assert_eq!(cues.len(), 3);
        assert_eq!(cues[0].start_ms, 0);
        for k in 0..cues.len() {
            assert!(cues[k].start_ms <= cues[k].end_ms);
            assert!(cues[k].end_ms <= duration);
            if k + 1 < cues.len() {
                assert_eq!(cues[k].end_ms, cues[k + 1].start_ms);
            }
        }
        assert_eq!(cues[2].end_ms, duration);
    }
    let cues = caption_cues_from_text(text, 13_000).unwrap();
    assert_eq!((cues[0].start_ms, cues[0].end_ms), (0, 6000));
    assert_eq!((cues[1].start_ms, cues[1].end_ms), (6000, 12_000));
    assert_eq!((cues[2].start_ms, cues[2].end_ms), (12_000, 13_000));
    assert_eq!(cues[2].text, "thirteen");
}

#[test]
fn spans_round_down_to_the_millisecond() {
    let rate = estimate_rate(3, 1000).unwrap();
    assert_eq!(rate.elapsed(0), 0);
    assert_eq!(rate.elapsed(1), 333);
    assert_eq!(rate.elapsed(2), 666);
    assert_eq!(rate.elapsed(3), 1000);
    assert_eq!(rate.per_second_milli(), 3000);
    let groups = vec![owned(&["a"]), owned(&["b"]), owned(&["c"])];
    let cues = assign_cues(&groups, &rate);
    assert_eq!((cues[1].start_ms, cues[1].end_ms), (333, 666));
}

#[test]
fn times_are_formatted_by_division_and_remainder() {
    assert_eq!(format_time(0), "00:00:00,000");
    assert_eq!(format_time(3200), "00:00:03,200");
    assert_eq!(format_time(3_723_004), "01:02:03,004");
    assert_eq!(format_time(359_999_999), "99:59:59,999");
    assert_eq!(format_time(360_000_000), "100:00:00,000");
    assert_eq!(format_time(u64::MAX), "5124095576030:25:51,615");
}

#[test]
fn formatted_times_read_back_exactly() {
    let samples = [
        0u64,
        1,
        999,
        1000,
        59_999,
        60_000,
        3_599_999,
        3_600_000,
        359_999_999,
        360_000_000,
        86_400_000,
        u64::MAX,
    ];
    for ms in samples {
        assert_eq!(parse_time(&format_time(ms)), Some(ms));
    }
    let mut ms: u64 = 1;
    while ms < u64::MAX / 3 {
        assert_eq!(parse_time(&format_time(ms)), Some(ms));
        ms = ms * 3 + 17;
    }
}

#[test]
fn malformed_times_are_not_read() {
    assert_eq!(parse_time("00:00:03,200"), Some(3200));
    assert_eq!(parse_time("000:00:03,200"), Some(3200));
    for text in [
        "",
        "0:00:03,200",
        "00:00:03.200",
        "00-00-03,200",
        "00:60:00,000",
        "00:00:60,000",
        "aa:00:00,000",
        "00:00:00,00a",
        "00:00:03,2000",
        " 00:00:03,200",
        "99999999999999999999:00:00,000",
        "5124095576030:25:51,616",
    ] {
        assert_eq!(parse_time(text), None);
    }
}

#[test]
fn a_block_holds_index_range_text_and_an_empty_line() {
    assert_eq!(
        render_cue_block(12, 61_001, 3_600_000, "SHOWN AS GIVEN"),
        "12\n00:01:01,001 --> 01:00:00,000\nSHOWN AS GIVEN\n\n"
    );
    let cues = vec![CaptionCue { text: "straße one".to_string(), start_ms: 5, end_ms: 6 }];
    assert_eq!(
        render_document(&cues),
        "1\n00:00:00,005 --> 00:00:00,006\nSTRASSE ONE\n\n"
    );
    assert_eq!(render_document(&Vec::new()), "");
}

#[test]
fn status_counts_the_segments() {
    let text = "a b c d e f g h i j k l m n o p q r s t u v w x y z a b c d e f g h i j k l m n o \
                p q r s t u v w x y z a b c d e f g h";
    let (document, status) = generate_captions_from_text(text, 60_000).unwrap();
    assert_eq!(status, "Generated 10 caption segments");
    assert!(document.starts_with("1\n00:00:00,000 --> 00:00:06,000\nA B C D E F\n\n2\n"));
    assert!(document.ends_with("10\n00:00:54,000 --> 00:01:00,000\nC D E F G H\n\n"));
}
