use std::time::Instant;

use searchkit::outcome::{CapturedOutput, SearchError};
use searchkit::request::SearchParams;
use searchkit::search::{complete_search, search_with_grep_output, search_with_ripgrep_output};

fn params(engine: &str) -> SearchParams {
    SearchParams {
        path: "/src".to_string(),
        engine: engine.to_string(),
        pattern: "needle".to_string(),
        case_sensitive: true,
        whole_word: false,
        use_regex: true,
        max_depth: None,
        file_types: Vec::new(),
        exclude_patterns: Vec::new(),
        max_results: 100,
        timeout_seconds: 60,
    }
}

fn captured(code: Option<i32>, success: bool, stdout: &[u8], stderr: &[u8]) -> CapturedOutput {
    CapturedOutput {
        code,
        success,
        stdout: stdout.to_vec(),
        stderr: stderr.to_vec(),
    }
}

const MATCH_LINE: &str = "{\"type\":\"match\",\"data\":{\"path\":{\"text\":\"src/a.rs\"},\"lines\":{\"text\":\"hello world\"},\"line_number\":7}}";

const SUMMARY_LINE: &str =
    "{\"type\":\"summary\",\"data\":{\"elapsed_total\":{\"secs\":0,\"nanos\":5,\"human\":\"0s\"}}}";

#[test]
fn exit_code_one_is_empty_result_not_error() {
    let p = params("grep");
    let start = Instant::now();
    let out = captured(Some(1), false, b"", b"random stderr noise");
    let r = search_with_grep_output(&p, &start, 0, 0, &out).unwrap();
    assert!(r.is_empty());

    let p = params("ripgrep");
    let out = captured(Some(1), false, b"ignored", b"more noise");
    let r = search_with_ripgrep_output(&p, &start, 0, 0, &out).unwrap();
    assert!(r.is_empty());
}

#[test]
fn other_failure_exits_carry_stderr() {
    let p = params("grep");
    let start = Instant::now();
    let out = captured(Some(2), false, b"", b"boom");
    match search_with_grep_output(&p, &start, 0, 0, &out) {
        Err(SearchError::EngineExecutionFailed(msg)) => assert_eq!(msg, "boom"),
        _ => panic!("a failed exit must surface the execution error"),
    }
}

#[test]
fn elapsed_over_budget_is_timeout_and_discards_results() {
    let p = params("grep");
    let start = Instant::now();
    let out = captured(Some(0), true, b"a.rs:1:hit\n", b"");
    match search_with_grep_output(&p, &start, 61, 0, &out) {
        Err(SearchError::Timeout(t)) => assert_eq!(t, 60),
        _ => panic!("an exceeded budget must be a timeout"),
    }
    match search_with_grep_output(&p, &start, 60, 1, &out) {
        Err(SearchError::Timeout(t)) => assert_eq!(t, 60),
        _ => panic!("any nanosecond past the budget counts"),
    }
    let r = search_with_grep_output(&p, &start, 60, 0, &out).unwrap();
    assert_eq!(r.len(), 1);
}

#[test]
fn one_match_and_one_summary_yield_one_result() {
    let p = params("ripgrep");
    let start = Instant::now();
    let stdout = format!("{}\n{}\n", MATCH_LINE, SUMMARY_LINE);
    let out = captured(Some(0), true, stdout.as_bytes(), b"");
    let r = search_with_ripgrep_output(&p, &start, 0, 0, &out).unwrap();
    assert_eq!(r.len(), 1);
    assert_eq!(r[0].path, "src/a.rs");
    assert_eq!(r[0].line_number, 7);
    assert_eq!(r[0].content, "hello world");
}

#[test]
fn malformed_structured_lines_are_skipped() {
    let p = params("ripgrep");
    let start = Instant::now();
    let stdout = format!(
        "not json at all\n{{\"type\":\"begin\"}}\n{}\n{{\"type\":\"match\",\"data\":{{}}}}\n",
        MATCH_LINE
    );
    let out = captured(Some(0), true, stdout.as_bytes(), b"");
    let r = search_with_ripgrep_output(&p, &start, 0, 0, &out).unwrap();
    assert_eq!(r.len(), 1);
    assert_eq!(r[0].path, "src/a.rs");
}

#[test]
fn result_count_never_exceeds_cap() {
    let start = Instant::now();

    let mut p = params("grep");
    p.max_results = 2;
    let stdout = b"a:1:x\na:2:y\nbad line\na:3:z\na:4:w\n";
    let out = captured(Some(0), true, stdout, b"");
    let r = search_with_grep_output(&p, &start, 0, 0, &out).unwrap();
    assert_eq!(r.len(), 2);
    assert_eq!(r[0].line_number, 1);
    assert_eq!(r[1].line_number, 2);

    let mut p = params("ripgrep");
    p.max_results = 2;
    let stdout = format!("{}\n{}\n{}\n{}\n", MATCH_LINE, MATCH_LINE, MATCH_LINE, SUMMARY_LINE);
    let out = captured(Some(0), true, stdout.as_bytes(), b"");
    let r = search_with_ripgrep_output(&p, &start, 0, 0, &out).unwrap();
    assert_eq!(r.len(), 2);
}

#[test]
fn structured_line_numbers_keep_low_bits() {
    let p = params("ripgrep");
    let start = Instant::now();
    let line = "{\"type\":\"match\",\"data\":{\"path\":{\"text\":\"f\"},\"lines\":{\"text\":\"t\"},\"line_number\":4294967297}}";
    let out = captured(Some(0), true, format!("{}\n", line).as_bytes(), b"");
    let r = search_with_ripgrep_output(&p, &start, 0, 0, &out).unwrap();
    assert_eq!(r.len(), 1);
    assert_eq!(r[0].line_number, 1);
}

#[test]
fn structured_zero_line_numbers_are_dropped() {
    let p = params("ripgrep");
    let start = Instant::now();
    let zero = "{\"type\":\"match\",\"data\":{\"path\":{\"text\":\"f\"},\"lines\":{\"text\":\"t\"},\"line_number\":0}}";
    let wrapped = "{\"type\":\"match\",\"data\":{\"path\":{\"text\":\"f\"},\"lines\":{\"text\":\"t\"},\"line_number\":4294967296}}";
    let stdout = format!("{}\n{}\n{}\n", zero, wrapped, MATCH_LINE);
    let out = captured(Some(0), true, stdout.as_bytes(), b"");
    let r = search_with_ripgrep_output(&p, &start, 0, 0, &out).unwrap();
    assert_eq!(r.len(), 1);
    assert_eq!(r[0].line_number, 7);
}

#[test]
fn grep_zero_line_numbers_are_dropped() {
    let p = params("grep");
    let start = Instant::now();
    let out = captured(Some(0), true, b"a:0:x\nb:3:y\n", b"");
    let r = search_with_grep_output(&p, &start, 0, 0, &out).unwrap();
    assert_eq!(r.len(), 1);
    assert_eq!(r[0].path, "b");
    assert_eq!(r[0].line_number, 3);
}

#[test]
fn unknown_engine_is_unsupported_whatever_the_output() {
    let p = params("sed");
    let start = Instant::now();
    let out = captured(Some(0), true, b"a:1:x\n", b"");
    match complete_search(&p, &start, 0, 0, &out) {
        Err(SearchError::UnsupportedEngine) => {}
        _ => panic!("an unknown engine must be rejected"),
    }
}

#[test]
fn dispatch_reaches_each_engine() {
    let start = Instant::now();
    let p = params("grep");
    let out = captured(Some(0), true, b"a.go:9:line\n", b"");
    let r = complete_search(&p, &start, 0, 0, &out).unwrap();
    assert_eq!(r.len(), 1);
    assert_eq!(r[0].path, "a.go");

    let p = params("ripgrep");
    let stdout = format!("{}\n", MATCH_LINE);
    let out = captured(Some(0), true, stdout.as_bytes(), b"");
    let r = complete_search(&p, &start, 0, 0, &out).unwrap();
    assert_eq!(r.len(), 1);
    assert_eq!(r[0].path, "src/a.rs");
}

#[test]
fn empty_stdout_is_empty_result() {
    let start = Instant::now();
    for engine in ["grep", "ripgrep"] {
        let p = params(engine);
        let out = captured(Some(0), true, b"", b"");
        let r = complete_search(&p, &start, 0, 0, &out).unwrap();
        assert!(r.is_empty());
    }
}
