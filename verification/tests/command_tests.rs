use searchkit::digits::u64_to_dec;
use searchkit::outcome::SearchError;
use searchkit::request::{default_max_results, default_timeout_seconds, SearchParams};
use searchkit::search::{engine_capabilities, plan_search};

fn base_params(engine: &str) -> SearchParams {
    SearchParams {
        path: "/src".to_string(),
        engine: engine.to_string(),
        pattern: "needle".to_string(),
        case_sensitive: true,
        whole_word: false,
        use_regex: true,
        max_depth: None,
        file_types: Vec::new(),
        exclude_patterns: Vec::new(),
        max_results: default_max_results(),
        timeout_seconds: default_timeout_seconds(),
    }
}

#[test]
fn defaults_are_documented_values() {
    assert_eq!(default_max_results(), 100);
    assert_eq!(default_timeout_seconds(), 60);
}

#[test]
fn decimal_rendering_is_exact() {
    assert_eq!(u64_to_dec(0), "0");
    assert_eq!(u64_to_dec(7), "7");
    assert_eq!(u64_to_dec(100), "100");
    assert_eq!(u64_to_dec(4042), "4042");
    assert_eq!(u64_to_dec(u64::MAX), "18446744073709551615");
}

#[test]
fn ripgrep_args_minimal_request() {
    let p = base_params("ripgrep");
    let plan = plan_search(&p).unwrap();
    assert_eq!(plan.program, "rg");
    assert_eq!(
        plan.args,
        vec!["--json", "--line-number", "--max-count", "100", "needle", "/src"]
    );
}

#[test]
fn ripgrep_args_every_feature() {
    let mut p = base_params("ripgrep");
    p.case_sensitive = false;
    p.whole_word = true;
    p.use_regex = false;
    p.max_depth = Some(3);
    p.file_types = vec!["*.rs".to_string(), "*.toml".to_string()];
    p.exclude_patterns = vec!["target".to_string()];
    p.max_results = 25;
    let plan = plan_search(&p).unwrap();
    assert_eq!(
        plan.args,
        vec![
            "--json",
            "--line-number",
            "--max-count",
            "25",
            "-i",
            "-w",
            "--fixed-strings",
            "--max-depth",
            "3",
            "-g",
            "*.rs",
            "-g",
            "*.toml",
            "--glob",
            "!target",
            "needle",
            "/src"
        ]
    );
}

#[test]
fn grep_args_literal_request() {
    let mut p = base_params("grep");
    p.case_sensitive = false;
    p.whole_word = true;
    p.use_regex = false;
    p.max_results = 50;
    let plan = plan_search(&p).unwrap();
    assert_eq!(plan.program, "grep");
    assert_eq!(
        plan.args,
        vec![
            "--line-number",
            "--with-filename",
            "--max-count",
            "50",
            "--ignore-case",
            "--word-regexp",
            "--fixed-strings",
            "needle",
            "/src"
        ]
    );
}

#[test]
fn grep_args_regex_request() {
    let p = base_params("grep");
    let plan = plan_search(&p).unwrap();
    assert!(plan.args.contains(&"--extended-regexp".to_string()));
    assert!(!plan.args.contains(&"--fixed-strings".to_string()));
}

#[test]
fn grep_args_ignore_unsupported_features() {
    let mut p = base_params("grep");
    p.max_depth = Some(2);
    p.file_types = vec!["*.go".to_string()];
    p.exclude_patterns = vec!["vendor".to_string()];
    let plan = plan_search(&p).unwrap();
    assert!(!plan.args.contains(&"--max-depth".to_string()));
    assert!(!plan.args.contains(&"-g".to_string()));
    assert!(!plan.args.contains(&"--glob".to_string()));
}

#[test]
fn literal_flag_present_for_both_engines_when_not_regex() {
    for engine in ["ripgrep", "grep"] {
        let mut p = base_params(engine);
        p.use_regex = false;
        let plan = plan_search(&p).unwrap();
        assert!(plan.args.contains(&"--fixed-strings".to_string()));
        let n = plan.args.len();
        assert_eq!(plan.args[n - 2], "needle");
        assert_eq!(plan.args[n - 1], "/src");
    }
}

#[test]
fn unknown_engine_is_rejected_before_planning() {
    let p = base_params("ack");
    match plan_search(&p) {
        Err(SearchError::UnsupportedEngine) => {}
        _ => panic!("an unknown engine must be rejected"),
    }
}

#[test]
fn capability_sets_per_engine() {
    let rg = engine_capabilities(&"ripgrep".to_string()).unwrap();
    assert!(rg.case_insensitive && rg.whole_word && rg.regex_literal);
    assert!(rg.depth_limit && rg.type_filter && rg.exclude_glob);
    let g = engine_capabilities(&"grep".to_string()).unwrap();
    assert!(g.case_insensitive && g.whole_word && g.regex_literal);
    assert!(!g.depth_limit && !g.type_filter && !g.exclude_glob);
    assert!(engine_capabilities(&"ack".to_string()).is_none());
}

#[test]
fn error_messages_are_descriptive() {
    assert_eq!(
        SearchError::UnsupportedEngine.message(),
        "Unsupported search engine"
    );
    assert_eq!(
        SearchError::Timeout(60).message(),
        "Search timeout: operation took longer than 60 seconds"
    );
    assert_eq!(
        SearchError::EngineExecutionFailed("boom".to_string()).message(),
        "search failed: boom"
    );
    assert_eq!(
        SearchError::ProcessSpawnFailed("no such file".to_string()).message(),
        "failed to launch search process: no such file"
    );
}
