use panic_hook::filter::exclusion_marker;
use panic_hook::{
    filter_relevant_frames, process_fault, FaultEvent, FaultLocation, Position, RawFrame,
    SymbolInfo,
};

fn frame(file: &str, line: u32) -> RawFrame {
    RawFrame {
        symbols: vec![SymbolInfo {
            filename: Some(file.to_string()),
            lineno: Some(line),
        }],
    }
}

fn lines(texts: &[&str]) -> Option<Vec<String>> {
    Some(texts.iter().map(|t| t.to_string()).collect())
}

fn event(message: &str, location: Option<(&str, u32)>, thread_name: Option<&str>) -> FaultEvent {
    FaultEvent {
        message: message.to_string(),
        location: location.map(|(file, line)| FaultLocation {
            file: file.to_string(),
            line,
        }),
        thread_name: thread_name.map(|n| n.to_string()),
    }
}

#[test]
fn fault_with_marked_frame_yields_two_reversed_records() {
    // Three captured frames, innermost first; the middle one points at a
    // source line carrying the exclusion marker.
    let marked = format!("let x = 1; {}", exclusion_marker());
    let frames = vec![
        frame("src/inner.rs", 1),
        frame("src/marked.rs", 2),
        frame("src/outer.rs", 1),
    ];
    let contents = vec![
        lines(&["inner line one"]),
        lines(&["fine line", &marked]),
        lines(&["outer line one"]),
    ];
    let ev = event(
        "index out of range\ndetail line",
        Some(("src/inner.rs", 1)),
        None,
    );
    let records = process_fault(&ev, &frames, &contents);
    assert_eq!(records.len(), 2);
    for record in &records {
        assert_eq!(record.message, "detail line");
        assert!(record.multi_frame);
        assert_eq!(record.lang, "rs");
        assert_eq!(record.thread_name, "");
    }
    // Presented outermost-first: the outer frame comes first.
    assert_eq!(records[0].file, "src/outer.rs");
    assert_eq!(records[0].pos, 0);
    assert_eq!(records[1].file, "src/inner.rs");
    assert_eq!(records[1].pos, 2);
}

#[test]
fn unresolved_frames_fall_back_to_unknown() {
    // No frame resolves: no symbols, or a symbol missing its file or line.
    let frames = vec![
        RawFrame { symbols: vec![] },
        RawFrame {
            symbols: vec![SymbolInfo {
                filename: None,
                lineno: Some(3),
            }],
        },
        RawFrame {
            symbols: vec![SymbolInfo {
                filename: Some("src/nofile.rs".to_string()),
                lineno: None,
            }],
        },
    ];
    let contents = vec![lines(&["a"]), lines(&["b"]), lines(&["c"])];
    let ev = event("banner\nreason", None, None);
    let records = process_fault(&ev, &frames, &contents);
    assert_eq!(records.len(), 1);
    assert_eq!(records[0].file, "unknown");
    assert_eq!(records[0].line_no, 0);
    assert_eq!(records[0].pos, 0);
    assert!(!records[0].multi_frame);
    assert_eq!(records[0].message, "reason");
}

#[test]
fn single_relevant_frame_is_first_and_not_multi() {
    let frames = vec![frame("src/only.rs", 1)];
    let contents = vec![lines(&["only line"])];
    let relevant = filter_relevant_frames(&frames, &contents);
    assert_eq!(relevant.len(), 1);
    assert!(matches!(relevant[0].pos, Position::First));
    let ev = event("banner\nboom", None, None);
    let records = process_fault(&ev, &frames, &contents);
    assert_eq!(records.len(), 1);
    assert!(!records[0].multi_frame);
    assert_eq!(records[0].pos, 0);
    assert_eq!(records[0].file, "src/only.rs");
    assert_eq!(records[0].line_no, 1);
}

#[test]
fn zero_relevant_frames_use_event_location() {
    let frames: Vec<RawFrame> = vec![];
    let contents: Vec<Option<Vec<String>>> = vec![];
    let ev = event("banner\nwhy it broke", Some(("src/origin.rs", 17)), None);
    let records = process_fault(&ev, &frames, &contents);
    assert_eq!(records.len(), 1);
    assert_eq!(records[0].file, "src/origin.rs");
    assert_eq!(records[0].line_no, 17);
    assert_eq!(records[0].pos, 0);
    assert!(!records[0].multi_frame);
    assert_eq!(records[0].message, "why it broke");
}

#[test]
fn filter_length_counts_passing_frames() {
    let frames = vec![
        frame("src/keep_one.rs", 1),
        frame("toolchain/rustc/lib.rs", 1),
        frame("src/keep_two.rs", 2),
        frame("src/unreadable.rs", 1),
    ];
    let contents = vec![
        lines(&["ok"]),
        lines(&["ok"]),
        lines(&["ok", "also ok"]),
        None,
    ];
    let relevant = filter_relevant_frames(&frames, &contents);
    assert_eq!(relevant.len(), 2);
    assert_eq!(relevant[0].file, "src/keep_two.rs");
    assert_eq!(relevant[1].file, "src/keep_one.rs");
}

#[test]
fn rerunning_filter_gives_identical_output() {
    let frames = vec![
        frame("src/alpha.rs", 1),
        frame("vctools/internal.rs", 1),
        frame("src/beta.rs", 1),
    ];
    let contents = vec![lines(&["a"]), lines(&["b"]), lines(&["c"])];
    let first_run = filter_relevant_frames(&frames, &contents);
    let second_run = filter_relevant_frames(&frames, &contents);
    assert_eq!(first_run.len(), second_run.len());
    for (a, b) in first_run.iter().zip(second_run.iter()) {
        assert_eq!(a.file, b.file);
        assert_eq!(a.line, b.line);
        assert!(a.pos == b.pos);
    }
}

#[test]
fn infrastructure_paths_are_dropped() {
    let frames = vec![
        frame("home/rustc-nightly/core.rs", 1),
        frame("deps/backtrace/capture.rs", 1),
        frame("msvc/vctools/crt.rs", 1),
        frame("src/app.rs", 1),
    ];
    let contents = vec![
        lines(&["x"]),
        lines(&["x"]),
        lines(&["x"]),
        lines(&["x"]),
    ];
    let relevant = filter_relevant_frames(&frames, &contents);
    assert_eq!(relevant.len(), 1);
    assert_eq!(relevant[0].file, "src/app.rs");
}

#[test]
fn out_of_range_or_zero_line_is_dropped() {
    let frames = vec![
        frame("src/past_end.rs", 3),
        frame("src/line_zero.rs", 0),
        frame("src/at_end.rs", 2),
    ];
    let contents = vec![
        lines(&["one", "two"]),
        lines(&["one"]),
        lines(&["one", "two"]),
    ];
    let relevant = filter_relevant_frames(&frames, &contents);
    assert_eq!(relevant.len(), 1);
    assert_eq!(relevant[0].file, "src/at_end.rs");
    assert_eq!(relevant[0].line, 2);
}

#[test]
fn marker_line_is_dropped() {
    let marked = format!("bookkeeping(); {}", exclusion_marker());
    let frames = vec![frame("src/instrumented.rs", 1)];
    let contents = vec![lines(&[&marked])];
    let relevant = filter_relevant_frames(&frames, &contents);
    assert_eq!(relevant.len(), 0);
}

#[test]
fn three_relevant_frames_get_all_three_markers() {
    let frames = vec![
        frame("src/one.rs", 1),
        frame("src/two.rs", 1),
        frame("src/three.rs", 1),
    ];
    let contents = vec![lines(&["a"]), lines(&["b"]), lines(&["c"])];
    let relevant = filter_relevant_frames(&frames, &contents);
    assert_eq!(relevant.len(), 3);
    assert!(matches!(relevant[0].pos, Position::First));
    assert!(matches!(relevant[1].pos, Position::Middle));
    assert!(matches!(relevant[2].pos, Position::Last));
    assert_eq!(relevant[0].file, "src/three.rs");
    assert_eq!(relevant[1].file, "src/two.rs");
    assert_eq!(relevant[2].file, "src/one.rs");
}

#[test]
fn primary_thread_reports_empty_name() {
    let ev = event("banner\nmsg", None, Some("main"));
    let records = process_fault(&ev, &vec![], &vec![]);
    assert_eq!(records[0].thread_name, "");
}

#[test]
fn worker_thread_reports_its_name() {
    let ev = event("banner\nmsg", None, Some("worker-3"));
    let records = process_fault(&ev, &vec![], &vec![]);
    assert_eq!(records[0].thread_name, "worker-3");
}

#[test]
fn unnamed_thread_reports_empty_name() {
    let ev = event("banner\nmsg", None, None);
    let records = process_fault(&ev, &vec![], &vec![]);
    assert_eq!(records[0].thread_name, "");
}

#[test]
fn message_without_newline_strips_to_empty() {
    let ev = event("single banner line", None, None);
    let records = process_fault(&ev, &vec![], &vec![]);
    assert_eq!(records[0].message, "");
}

#[test]
fn message_keeps_later_newlines() {
    let ev = event("banner\nfirst detail\nsecond detail", None, None);
    let records = process_fault(&ev, &vec![], &vec![]);
    assert_eq!(records[0].message, "first detail\nsecond detail");
}
