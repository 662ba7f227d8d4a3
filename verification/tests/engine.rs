use paramtest::digits::usize_to_string;
use paramtest::executor::run_cases;
use paramtest::report::{
    case_label, diagnostic_header, failed_count, render_report, run_report, status_line,
    summary_message, CaseRecord, RunOutcome,
};
use paramtest::sink::OutputSink;
use paramtest::style::{plain_status, status, status_text};

fn record(label: &str, passed: bool, captured: &str) -> CaseRecord {
    CaseRecord { label: label.to_string(), passed, captured: captured.to_string() }
}

#[test]
fn test_ok() {
    let params: Vec<i32> = (0..10).collect();
    let rendered: Vec<String> = params.iter().map(|i| format!("{}", i)).collect();
    let records = run_cases("", rendered, params, |i: i32, mut sink: OutputSink| {
        sink.emit(&format!("{}\n", i));
        (sink, true)
    });
    let (lines, outcome) = render_report(&records, false);
    assert_eq!(lines.len(), 10);
    for (i, line) in lines.iter().enumerate() {
        assert_eq!(line, &format!("test  ({}) ... ok", i));
    }
    assert!(matches!(outcome, RunOutcome::Passed));
}

#[test]
#[should_panic]
fn test_failed() {
    let params: Vec<i32> = (0..10).collect();
    let rendered: Vec<String> = params.iter().map(|i| format!("{}", i)).collect();
    let records = run_cases("", rendered, params, |i: i32, mut sink: OutputSink| {
        sink.emit(&format!("{}\n", i));
        (sink, i % 3 == 0)
    });
    let (_lines, outcome) = render_report(&records, false);
    if let RunOutcome::Failed { message, .. } = outcome {
        panic!("{}", message);
    }
}

#[test]
fn odd_cases_fail_even_cases_pass() {
    let params: Vec<u64> = vec![0, 1, 2];
    let rendered: Vec<String> = params.iter().map(|i| format!("{}", i)).collect();
    let records = run_cases("run", rendered, params, |i: u64, mut sink: OutputSink| {
        sink.emit(&format!("{}", i));
        (sink, i % 2 == 0)
    });
    let (lines, outcome) = render_report(&records, false);
    let expected = vec![
        "test run (0) ... ok".to_string(),
        "test run (1) ... FAILED".to_string(),
        "test run (2) ... ok".to_string(),
        "".to_string(),
        "---- run (1) stdout ----".to_string(),
        "1".to_string(),
        "".to_string(),
    ];
    assert_eq!(lines, expected);
    match outcome {
        RunOutcome::Failed { failed, total, message } => {
            assert_eq!(failed, 1);
            assert_eq!(total, 3);
            assert_eq!(message, "1 of 3 tests failed");
        }
        RunOutcome::Passed => panic!("run with a failing case reported as passed"),
    }
}

#[test]
fn empty_parameter_sequence_passes_trivially() {
    let params: Vec<u64> = vec![];
    let records = run_cases("run", vec![], params, |_i: u64, sink: OutputSink| (sink, true));
    assert!(records.is_empty());
    let (lines, outcome) = render_report(&records, false);
    assert!(lines.is_empty());
    assert!(matches!(outcome, RunOutcome::Passed));
}

#[test]
fn all_cases_fail() {
    let params: Vec<u64> = vec![7, 8, 9];
    let rendered: Vec<String> = params.iter().map(|i| format!("{}", i)).collect();
    let records = run_cases("run", rendered, params, |i: u64, mut sink: OutputSink| {
        sink.emit(&format!("case {}", i));
        (sink, false)
    });
    let (lines, outcome) = render_report(&records, false);
    let expected = vec![
        "test run (7) ... FAILED".to_string(),
        "test run (8) ... FAILED".to_string(),
        "test run (9) ... FAILED".to_string(),
        "".to_string(),
        "---- run (7) stdout ----".to_string(),
        "case 7".to_string(),
        "".to_string(),
        "---- run (8) stdout ----".to_string(),
        "case 8".to_string(),
        "".to_string(),
        "---- run (9) stdout ----".to_string(),
        "case 9".to_string(),
        "".to_string(),
    ];
    assert_eq!(lines, expected);
    match outcome {
        RunOutcome::Failed { failed, total, message } => {
            assert_eq!(failed, 3);
            assert_eq!(total, 3);
            assert_eq!(message, "3 of 3 tests failed");
        }
        RunOutcome::Passed => panic!("run with failing cases reported as passed"),
    }
}

#[test]
fn successful_case_output_is_discarded() {
    let records = vec![record("run (a)", true, "noise from a passing case\n")];
    let (lines, outcome) = render_report(&records, false);
    assert_eq!(lines, vec!["test run (a) ... ok".to_string()]);
    assert!(matches!(outcome, RunOutcome::Passed));
}

#[test]
fn status_line_and_header_share_the_label() {
    let label = "group (Point { x: 1, y: 2 })";
    let line = status_line(label, false, false);
    let header = diagnostic_header(label);
    assert_eq!(line, format!("test {} ... FAILED", label));
    assert_eq!(header, format!("---- {} stdout ----", label));
    assert_eq!(&line[5..5 + label.len()], label);
    assert_eq!(&header[5..5 + label.len()], label);
}

#[test]
fn case_label_composition() {
    assert_eq!(case_label("run", "0"), "run (0)");
    assert_eq!(case_label("", "[1, 2]"), " ([1, 2])");
}

#[test]
fn plain_status_words() {
    assert_eq!(plain_status(true), "ok");
    assert_eq!(plain_status(false), "FAILED");
}

#[test]
fn colored_status_words() {
    assert_eq!(status_text(true, false), "ok");
    assert_eq!(status_text(false, false), "FAILED");
    assert_eq!(status_text(true, true), "\u{1b}[38;5;2mok\u{1b}[39m");
    assert_eq!(status_text(false, true), "\u{1b}[38;5;1mFAILED\u{1b}[39m");
}

#[test]
fn ambient_status_is_one_of_the_two_renderings() {
    let s = status(true);
    assert!(s == "ok" || s == "\u{1b}[38;5;2mok\u{1b}[39m");
    let f = status(false);
    assert!(f == "FAILED" || f == "\u{1b}[38;5;1mFAILED\u{1b}[39m");
}

#[test]
fn captured_sink_accumulates_in_order() {
    let mut sink = OutputSink::captured();
    sink.emit("first ");
    sink.emit("second");
    sink.emit("");
    sink.emit(" third");
    assert_eq!(sink.drain(), "first second third");
}

#[test]
fn direct_sink_captures_nothing() {
    let mut sink = OutputSink::direct();
    sink.emit("passes straight through\n");
    assert_eq!(sink.drain(), "");
}

#[test]
fn failed_count_mixed() {
    let records = vec![
        record("a", true, ""),
        record("b", false, ""),
        record("c", false, ""),
        record("d", true, ""),
    ];
    assert_eq!(failed_count(&records), 2);
}

#[test]
fn decimal_rendering() {
    assert_eq!(usize_to_string(0), "0");
    assert_eq!(usize_to_string(7), "7");
    assert_eq!(usize_to_string(10), "10");
    assert_eq!(usize_to_string(409), "409");
    assert_eq!(usize_to_string(12345), "12345");
}

#[test]
fn summary_counts() {
    assert_eq!(summary_message(1, 3), "1 of 3 tests failed");
    assert_eq!(summary_message(10, 10), "10 of 10 tests failed");
}

#[test]
fn run_report_outcome_matches_records() {
    let records = vec![record("x", true, ""), record("y", false, "boom\n")];
    let (lines, outcome) = run_report(&records);
    assert_eq!(lines.len(), 2 + 3 + 1);
    match outcome {
        RunOutcome::Failed { failed, total, message } => {
            assert_eq!(failed, 1);
            assert_eq!(total, 2);
            assert_eq!(message, "1 of 2 tests failed");
        }
        RunOutcome::Passed => panic!("run with a failing case reported as passed"),
    }
}
