use panic_hook::{
    build_records, capture_raw_frames, contains_substr, position_code, process_fault,
    strip_first_line, Coordinator, FaultEvent, FaultLocation, Position, RelevantFrame,
};
use panic_hook::text::str_equal;

#[test]
fn contains_substr_finds_fragments() {
    assert!(contains_substr("home/rustc-nightly/core.rs", "rustc"));
    assert!(contains_substr("abc", ""));
    assert!(contains_substr("abc", "abc"));
    assert!(!contains_substr("ab", "abc"));
    assert!(!contains_substr("src/app.rs", "rustc"));
    assert!(contains_substr("xxabcx", "abc"));
}

#[test]
fn str_equal_compares_characters() {
    assert!(str_equal("main", "main"));
    assert!(!str_equal("main", "worker"));
    assert!(!str_equal("main", "mai"));
    assert!(str_equal("", ""));
}

#[test]
fn strip_first_line_drops_the_banner() {
    assert_eq!(strip_first_line("banner\ndetail"), "detail");
    assert_eq!(strip_first_line("banner"), "");
    assert_eq!(strip_first_line(""), "");
    assert_eq!(strip_first_line("a\nb\nc"), "b\nc");
    assert_eq!(strip_first_line("\nrest"), "rest");
}

#[test]
fn position_codes_are_zero_one_two() {
    assert_eq!(position_code(Position::First), 0);
    assert_eq!(position_code(Position::Middle), 1);
    assert_eq!(position_code(Position::Last), 2);
}

#[test]
fn gate_admits_one_holder_at_a_time() {
    let mut gate = Coordinator::new();
    assert!(gate.try_acquire());
    assert!(!gate.try_acquire());
    assert!(!gate.try_acquire());
    gate.release();
    assert!(gate.try_acquire());
    gate.release();
}

#[test]
fn build_records_encodes_frame_positions() {
    let ev = FaultEvent {
        message: "banner\ndetail".to_string(),
        location: None,
        thread_name: Some("worker".to_string()),
    };
    let frames = vec![
        RelevantFrame {
            file: "src/outer.rs".to_string(),
            line: 5,
            pos: Position::First,
        },
        RelevantFrame {
            file: "src/mid.rs".to_string(),
            line: 6,
            pos: Position::Middle,
        },
        RelevantFrame {
            file: "src/inner.rs".to_string(),
            line: 7,
            pos: Position::Last,
        },
    ];
    let records = build_records(&ev, &frames);
    assert_eq!(records.len(), 3);
    assert_eq!(records[0].pos, 0);
    assert_eq!(records[1].pos, 1);
    assert_eq!(records[2].pos, 2);
    for (record, frame) in records.iter().zip(frames.iter()) {
        assert!(record.multi_frame);
        assert_eq!(record.message, "detail");
        assert_eq!(record.thread_name, "worker");
        assert_eq!(record.lang, "rs");
        assert_eq!(record.file, frame.file);
        assert_eq!(record.line_no, frame.line);
    }
}

#[test]
fn captured_stack_processes_to_records() {
    // A real capture of this test's stack; with no file contents supplied,
    // every frame is dropped and the fallback record carries the event's own
    // location.
    let frames = capture_raw_frames();
    let contents: Vec<Option<Vec<String>>> = frames.iter().map(|_| None).collect();
    let ev = FaultEvent {
        message: "banner\ncaptured".to_string(),
        location: Some(FaultLocation {
            file: "tests/components.rs".to_string(),
            line: 1,
        }),
        thread_name: None,
    };
    let records = process_fault(&ev, &frames, &contents);
    assert_eq!(records.len(), 1);
    assert_eq!(records[0].file, "tests/components.rs");
    assert_eq!(records[0].line_no, 1);
    assert_eq!(records[0].pos, 0);
    assert!(!records[0].multi_frame);
    assert_eq!(records[0].message, "captured");
}
