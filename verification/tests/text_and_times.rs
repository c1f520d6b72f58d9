use screen_recorder::progress::{duration_fields, is_progress_line, progress_fields, PROGRESS_PATTERN};
use screen_recorder::text::{concat2, concat3, contains, same_text, split};

fn s(x: &str) -> String {
    x.to_string()
}

#[test]
fn contains_finds_pieces() {
    assert!(contains("frame=1 out_time=00:00:01.0", "out_time="));
    assert!(!contains("frame=1 time=00:00:01.0", "out_time="));
    assert!(contains("abc", ""));
    assert!(contains("", ""));
    assert!(!contains("", "a"));
    assert!(contains("aab", "ab"));
}

#[test]
fn same_text_compares_characters() {
    assert!(same_text("0:0:0", "0:0:0"));
    assert!(!same_text("0:0:0", "0:0:00"));
    assert!(same_text("", ""));
    assert!(!same_text("é", "e"));
}

#[test]
fn split_keeps_empty_pieces() {
    assert_eq!(split("01:02:03", ':'), vec![s("01"), s("02"), s("03")]);
    assert_eq!(split(":a::", ':'), vec![s(""), s("a"), s(""), s("")]);
    assert_eq!(split("", ':'), vec![s("")]);
    assert_eq!(split("a\nb", '\n'), vec![s("a"), s("b")]);
}

#[test]
fn concatenation() {
    assert_eq!(concat2("ab", "cd"), "abcd");
    assert_eq!(concat3("a", "|", "b"), "a|b");
}

#[test]
fn duration_fields_of_three_parts() {
    assert_eq!(duration_fields("01:02:03.5"), Some((s("01"), s("02"), s("03.5"))));
    assert_eq!(duration_fields("0:0:0"), Some((s("0"), s("0"), s("0"))));
    assert_eq!(duration_fields("::"), Some((s(""), s(""), s(""))));
}

#[test]
fn duration_fields_refuse_other_shapes() {
    assert_eq!(duration_fields("1:2"), None);
    assert_eq!(duration_fields("1:2:3:4"), None);
    assert_eq!(duration_fields(""), None);
}

#[test]
fn clock_fields_round_trip() {
    let text = screen_recorder::edit::clock("12", "34", "56.7");
    assert_eq!(text, "12:34:56.7");
    assert_eq!(duration_fields(&text), Some((s("12"), s("34"), s("56.7"))));
}

#[test]
fn progress_lines_are_recognised() {
    assert!(is_progress_line("out_time=00:00:01.500000"));
    assert!(!is_progress_line("out_time_ms=1500000"));
    assert!(!is_progress_line("frame=30"));
}

#[test]
fn progress_fields_from_ffmpeg_line() {
    assert_eq!(
        progress_fields("out_time=00:01:02.500000"),
        Some((s("00"), s("01"), s("02.500000")))
    );
    assert_eq!(
        progress_fields("frame=42 fps=30 time=1:2:3.25 bitrate=1kbits/s"),
        Some((s("1"), s("2"), s("3.25")))
    );
}

#[test]
fn progress_fields_need_a_fraction() {
    assert_eq!(progress_fields("out_time=00:01:02"), None);
    assert_eq!(progress_fields("nothing here"), None);
    assert_eq!(progress_fields(""), None);
}

#[test]
fn progress_pattern_text() {
    assert_eq!(PROGRESS_PATTERN, r"time=(\d+):(\d+):(\d+\.\d+)");
}

#[test]
fn split_then_join_gives_text_back() {
    for text in ["a:b:c", ":", "", "::x::", "no separator"] {
        assert_eq!(split(text, ':').join(":"), text);
    }
}

#[test]
fn duration_fields_rejoin() {
    let (h, m, sec) = duration_fields("10:20:30.5").unwrap();
    assert_eq!(screen_recorder::edit::clock(&h, &m, &sec), "10:20:30.5");
}
