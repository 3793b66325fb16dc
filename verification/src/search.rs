use vstd::prelude::*;
use vstd::string::StringExecFns;
use crate::args::{build_grep_args, build_ripgrep_args, spec_grep_args, spec_ripgrep_args};
use crate::grep_parse::{parse_grep_line, spec_grep_line};
use crate::lines::{spec_lines, split_lines};
use crate::outcome::{CapturedOutput, CapturedOutputView, SearchError};
use crate::request::{SearchParams, SearchResult, SearchResultView};
use crate::rg_parse::{collect_matches, decode_rg_line, rg_event_of, spec_collect_matches, spec_decode_rg, RgEvent, RgEventView};
use crate::textenc::{utf8_lossy, utf8_lossy_of};
use crate::timing::{elapsed_parts, exceeds_budget, spec_exceeds};

verus! {

/// The records drawn from the line-oriented engine's output lines: each line
/// that parses yields one record, in order, and collection stops once `max`
/// records stand.
pub open spec fn spec_collect_grep(lines: Seq<Seq<u8>>, max: nat) -> Seq<SearchResultView>
    decreases lines.len(),
{
    if lines.len() == 0 || max == 0 {
        Seq::empty()
    } else {
        match spec_grep_line(lines[0]) {
            Some(r) => seq![r] + spec_collect_grep(lines.skip(1), (max - 1) as nat),
            None => spec_collect_grep(lines.skip(1), max),
        }
    }
}

/// Law: grep collection never yields more records than its cap.
pub proof fn lemma_collect_grep_caps(lines: Seq<Seq<u8>>, max: nat)
    ensures
        spec_collect_grep(lines, max).len() <= max,
    decreases lines.len(),
{
    if lines.len() > 0 && max > 0 {
        match spec_grep_line(lines[0]) {
            Some(r) => {
                lemma_collect_grep_caps(lines.skip(1), (max - 1) as nat);
            },
            None => {
                lemma_collect_grep_caps(lines.skip(1), max);
            },
        }
    }
}

/// Law: every collected record carries a 1-based line number, as the data
/// model requires.
pub proof fn lemma_collect_grep_line_numbers(lines: Seq<Seq<u8>>, max: nat)
    ensures
        forall|k: int|
            0 <= k < spec_collect_grep(lines, max).len()
                ==> #[trigger] spec_collect_grep(lines, max)[k].line_number >= 1,
    decreases lines.len(),
{
    let whole = spec_collect_grep(lines, max);
    if lines.len() > 0 && max > 0 {
        match spec_grep_line(lines[0]) {
            Some(r) => {
                assert(r.line_number >= 1);
                lemma_collect_grep_line_numbers(lines.skip(1), (max - 1) as nat);
                assert forall|k: int| 0 <= k < whole.len() implies #[trigger] whole[k].line_number
                    >= 1 by {
                    if k == 0 {
                        assert(whole[0] == r);
                    } else {
                        assert(whole[k] == spec_collect_grep(lines.skip(1), (max - 1) as nat)[k
                            - 1]);
                    }
                }
            },
            None => {
                lemma_collect_grep_line_numbers(lines.skip(1), max);
                assert forall|k: int| 0 <= k < whole.len() implies #[trigger] whole[k].line_number
                    >= 1 by {
                    assert(whole[k] == spec_collect_grep(lines.skip(1), max)[k]);
                }
            },
        }
    }
}

/// Walks the output lines of the line-oriented engine, checking the
/// wall-clock budget once per line. On time, the collected records are
/// exactly `spec_collect_grep` of the lines; past the budget, the whole call
/// yields the timeout error and every record gathered so far is discarded.
fn collect_grep_lines(
    lines: &Vec<Vec<u8>>,
    max: usize,
    start: &std::time::Instant,
    timeout_secs: u64,
) -> (r: Result<Vec<SearchResult>, SearchError>)
    requires
        max >= 1,
    ensures
        r matches Ok(v) ==> v.deep_view() == spec_collect_grep(lines.deep_view(), max as nat)
            && v@.len() <= max,
        r matches Err(e) ==> e == SearchError::Timeout(timeout_secs),
{
    let ghost all = lines.deep_view();
    let mut out: Vec<SearchResult> = Vec::new();
    let mut i: usize = 0;
    proof {
        assert(all.skip(0) =~= all);
        assert(out.deep_view() =~= Seq::<SearchResultView>::empty());
    }
    while i < lines.len()
        invariant
            i <= lines.len(),
            all == lines.deep_view(),
            lines@.len() == all.len(),
            out@.len() < max,
            out.deep_view() + spec_collect_grep(all.skip(i as int), (max - out@.len()) as nat)
                =~= spec_collect_grep(all, max as nat),
        decreases lines.len() - i,
    {
        let (secs, nanos) = elapsed_parts(start);
        if exceeds_budget(secs, nanos, timeout_secs) {
            return Err(SearchError::Timeout(timeout_secs));
        }
        let ghost rem = all.skip(i as int);
        let ghost before = out.deep_view();
        proof {
            assert(rem[0] == lines@[i as int].deep_view());
            assert(lines@[i as int].deep_view() =~= lines@[i as int]@);
            assert(rem.skip(1) =~= all.skip(i as int + 1));
        }
        match parse_grep_line(&lines[i]) {
            Some(res) => {
                let ghost resv = res@;
                out.push(res);
                proof {
                    assert(out.deep_view() =~= before.push(resv));
                    assert(spec_grep_line(rem[0]) == Some(resv));
                    assert(out.deep_view() + spec_collect_grep(
                        all.skip(i as int + 1),
                        (max - out@.len()) as nat,
                    ) =~= spec_collect_grep(all, max as nat));
                }
                if out.len() >= max {
                    proof {
                        assert(spec_collect_grep(all.skip(i as int + 1), 0) =~= Seq::<
                            SearchResultView,
                        >::empty());
                        assert(out.deep_view() =~= spec_collect_grep(all, max as nat));
                    }
                    return Ok(out);
                }
            },
            None => {
                proof {
                    assert(spec_grep_line(rem[0]) is None);
                    assert(spec_collect_grep(rem, (max - out@.len()) as nat)
                        == spec_collect_grep(all.skip(i as int + 1), (max - out@.len()) as nat));
                }
            },
        }
        i = i + 1;
    }
    proof {
        assert(all.skip(all.len() as int) =~= Seq::<Seq<u8>>::empty());
        assert(out.deep_view() =~= spec_collect_grep(all, max as nat));
    }
    Ok(out)
}

/// Walks the output lines of the structured engine, checking the wall-clock
/// budget once per line, decoding each line and keeping the decoded events,
/// exactly as `spec_decode_rg` describes: decoding stops once `max` match
/// events stand. Past the budget, the whole call yields the timeout error
/// and every event gathered so far is discarded.
fn decode_rg_lines(
    lines: &Vec<Vec<u8>>,
    max: usize,
    start: &std::time::Instant,
    timeout_secs: u64,
) -> (r: Result<Vec<RgEvent>, SearchError>)
    requires
        max >= 1,
    ensures
        r matches Ok(evs) ==> evs.deep_view() == spec_decode_rg(lines.deep_view(), max as nat),
        r matches Err(e) ==> e == SearchError::Timeout(timeout_secs),
{
    let ghost all = lines.deep_view();
    let mut events: Vec<RgEvent> = Vec::new();
    let mut matches_seen: usize = 0;
    let mut i: usize = 0;
    proof {
        assert(all.skip(0) =~= all);
        assert(events.deep_view() =~= Seq::<RgEventView>::empty());
    }
    while i < lines.len()
        invariant
            i <= lines.len(),
            all == lines.deep_view(),
            lines@.len() == all.len(),
            matches_seen < max,
            events.deep_view() + spec_decode_rg(all.skip(i as int), (max - matches_seen) as nat)
                =~= spec_decode_rg(all, max as nat),
        decreases lines.len() - i,
    {
        let (secs, nanos) = elapsed_parts(start);
        if exceeds_budget(secs, nanos, timeout_secs) {
            return Err(SearchError::Timeout(timeout_secs));
        }
        let ghost rem = all.skip(i as int);
        let ghost before = events.deep_view();
        proof {
            assert(rem[0] == lines@[i as int].deep_view());
            assert(lines@[i as int].deep_view() =~= lines@[i as int]@);
            assert(rem.skip(1) =~= all.skip(i as int + 1));
        }
        let text = utf8_lossy(lines[i].as_slice());
        let decoded = decode_rg_line(text.as_str());
        let ghost dv = decoded.deep_view();
        proof {
            assert(dv == rg_event_of(utf8_lossy_of(rem[0])));
        }
        match decoded {
            Some(ev) => {
                let is_match = match &ev {
                    RgEvent::Match { .. } => true,
                    RgEvent::Summary => false,
                };
                let ghost evv = ev.deep_view();
                proof {
                    assert(dv == Some(evv));
                    assert(is_match == (evv is Match));
                }
                events.push(ev);
                proof {
                    assert(events.deep_view() =~= before.push(evv));
                }
                if is_match {
                    matches_seen = matches_seen + 1;
                    proof {
                        assert(events.deep_view() + spec_decode_rg(
                            all.skip(i as int + 1),
                            (max - matches_seen) as nat,
                        ) =~= spec_decode_rg(all, max as nat));
                    }
                    if matches_seen >= max {
                        proof {
                            assert(spec_decode_rg(all.skip(i as int + 1), 0) =~= Seq::<
                                RgEventView,
                            >::empty());
                            assert(events.deep_view() =~= spec_decode_rg(all, max as nat));
                        }
                        return Ok(events);
                    }
                } else {
                    proof {
                        assert(events.deep_view() + spec_decode_rg(
                            all.skip(i as int + 1),
                            (max - matches_seen) as nat,
                        ) =~= spec_decode_rg(all, max as nat));
                    }
                }
            },
            None => {
                proof {
                    assert(spec_decode_rg(rem, (max - matches_seen) as nat) == spec_decode_rg(
                        all.skip(i as int + 1),
                        (max - matches_seen) as nat,
                    ));
                }
            },
        }
        i = i + 1;
    }
    proof {
        assert(all.skip(all.len() as int) =~= Seq::<Seq<u8>>::empty());
        assert(events.deep_view() =~= spec_decode_rg(all, max as nat));
    }
    Ok(events)
}

/// Whether an exit code is the engines' "ran fine, found nothing" report.
pub open spec fn spec_is_no_match(code: Option<i32>) -> bool {
    code matches Some(c) && c == 1
}

/// What every engine's completion handling guarantees, whatever the engine
/// printed: a budget already exceeded at completion yields the timeout error
/// and nothing else; exit code one yields an empty result sequence; any other
/// failed exit yields the execution error carrying the decoded stderr text;
/// and the only errors are execution failure and timeout.
pub open spec fn spec_common_outcome(
    r: Result<Vec<SearchResult>, SearchError>,
    timeout_secs: u64,
    elapsed_secs: u64,
    elapsed_nanos: u32,
    out: CapturedOutputView,
) -> bool {
    &&& spec_exceeds(elapsed_secs, elapsed_nanos, timeout_secs) ==> (r matches Err(e) && e
        == SearchError::Timeout(timeout_secs))
    &&& (!spec_exceeds(elapsed_secs, elapsed_nanos, timeout_secs) && spec_is_no_match(out.code))
        ==> (r matches Ok(v) && v@.len() == 0)
    &&& (!spec_exceeds(elapsed_secs, elapsed_nanos, timeout_secs) && !spec_is_no_match(out.code)
        && !out.success) ==> (r matches Err(e) && e matches SearchError::EngineExecutionFailed(msg)
        && msg@ == utf8_lossy_of(out.stderr))
    &&& r matches Err(e) ==> (e is EngineExecutionFailed || e is Timeout)
}

/// On a successful exit within budget, the line-oriented engine's results are
/// exactly the parse of its stdout, unless the per-line budget check fired.
pub open spec fn spec_grep_success_outcome(
    r: Result<Vec<SearchResult>, SearchError>,
    max_results: usize,
    timeout_secs: u64,
    elapsed_secs: u64,
    elapsed_nanos: u32,
    out: CapturedOutputView,
) -> bool {
    (!spec_exceeds(elapsed_secs, elapsed_nanos, timeout_secs) && !spec_is_no_match(out.code)
        && out.success) ==> {
        ||| r matches Ok(v) && v.deep_view() == spec_collect_grep(
            spec_lines(out.stdout),
            max_results as nat,
        )
        ||| r matches Err(e) && e == SearchError::Timeout(timeout_secs)
    }
}

/// Handles a completed run of the line-oriented engine: the post-completion
/// budget check, the exit-status policy, and the parse of stdout with the
/// per-line budget check.
pub fn search_with_grep_output(
    params: &SearchParams,
    start: &std::time::Instant,
    elapsed_secs: u64,
    elapsed_nanos: u32,
    output: &CapturedOutput,
) -> (r: Result<Vec<SearchResult>, SearchError>)
    requires
        params@.valid(),
    ensures
        spec_common_outcome(r, params.timeout_seconds, elapsed_secs, elapsed_nanos, output@),
        spec_grep_success_outcome(
            r,
            params.max_results,
            params.timeout_seconds,
            elapsed_secs,
            elapsed_nanos,
            output@,
        ),
        r matches Ok(v) ==> v@.len() <= params.max_results,
        r matches Ok(v) ==> forall|k: int|
            0 <= k < v.deep_view().len() ==> #[trigger] v.deep_view()[k].line_number >= 1,
{
    if exceeds_budget(elapsed_secs, elapsed_nanos, params.timeout_seconds) {
        return Err(SearchError::Timeout(params.timeout_seconds));
    }
    let is_no_match = match output.code {
        Some(c) => c == 1,
        None => false,
    };
    if is_no_match {
        let empty: Vec<SearchResult> = Vec::new();
        proof {
            assert(empty.deep_view() =~= Seq::<SearchResultView>::empty());
        }
        return Ok(empty);
    }
    if !output.success {
        let msg = utf8_lossy(output.stderr.as_slice());
        return Err(SearchError::EngineExecutionFailed(msg));
    }
    let stdout_lines = split_lines(&output.stdout);
    let r = collect_grep_lines(&stdout_lines, params.max_results, start, params.timeout_seconds);
    proof {
        lemma_collect_grep_caps(spec_lines(output@.stdout), params.max_results as nat);
        lemma_collect_grep_line_numbers(spec_lines(output@.stdout), params.max_results as nat);
    }
    r
}

/// On a successful exit within budget, the structured engine's results are
/// exactly the collection of the match events decoded from its stdout lines,
/// unless the per-line budget check fired.
pub open spec fn spec_rg_success_outcome(
    r: Result<Vec<SearchResult>, SearchError>,
    max_results: usize,
    timeout_secs: u64,
    elapsed_secs: u64,
    elapsed_nanos: u32,
    out: CapturedOutputView,
) -> bool {
    (!spec_exceeds(elapsed_secs, elapsed_nanos, timeout_secs) && !spec_is_no_match(out.code)
        && out.success) ==> {
        ||| r matches Ok(v) && v.deep_view() == spec_collect_matches(
            spec_decode_rg(spec_lines(out.stdout), max_results as nat),
            max_results as nat,
        )
        ||| r matches Err(e) && e == SearchError::Timeout(timeout_secs)
    }
}

/// Handles a completed run of the structured engine: the post-completion
/// budget check, the exit-status policy, then decoding stdout line by line
/// (with the per-line budget check) and collecting the match events.
pub fn search_with_ripgrep_output(
    params: &SearchParams,
    start: &std::time::Instant,
    elapsed_secs: u64,
    elapsed_nanos: u32,
    output: &CapturedOutput,
) -> (r: Result<Vec<SearchResult>, SearchError>)
    requires
        params@.valid(),
    ensures
        spec_common_outcome(r, params.timeout_seconds, elapsed_secs, elapsed_nanos, output@),
        spec_rg_success_outcome(
            r,
            params.max_results,
            params.timeout_seconds,
            elapsed_secs,
            elapsed_nanos,
            output@,
        ),
        r matches Ok(v) ==> v@.len() <= params.max_results,
        r matches Ok(v) ==> forall|k: int|
            0 <= k < v.deep_view().len() ==> #[trigger] v.deep_view()[k].line_number >= 1,
{
    if exceeds_budget(elapsed_secs, elapsed_nanos, params.timeout_seconds) {
        return Err(SearchError::Timeout(params.timeout_seconds));
    }
    let is_no_match = match output.code {
        Some(c) => c == 1,
        None => false,
    };
    if is_no_match {
        let empty: Vec<SearchResult> = Vec::new();
        proof {
            assert(empty.deep_view() =~= Seq::<SearchResultView>::empty());
        }
        return Ok(empty);
    }
    if !output.success {
        let msg = utf8_lossy(output.stderr.as_slice());
        return Err(SearchError::EngineExecutionFailed(msg));
    }
    let stdout_lines = split_lines(&output.stdout);
    match decode_rg_lines(&stdout_lines, params.max_results, start, params.timeout_seconds) {
        Ok(events) => {
            let results = collect_matches(&events, params.max_results);
            Ok(results)
        },
        Err(e) => Err(e),
    }
}

/// A concrete engine invocation: the executable to run and its arguments, in
/// order.
#[derive(Debug)]
pub struct SearchPlan {
    pub program: String,
    pub args: Vec<String>,
}

/// Whether an engine identifier names a recognized engine.
pub open spec fn spec_engine_known(engine: Seq<char>) -> bool {
    engine == "ripgrep"@ || engine == "grep"@
}

/// Maps a request to its engine's invocation. An unknown engine identifier is
/// rejected here, before anything could be spawned.
pub fn plan_search(params: &SearchParams) -> (r: Result<SearchPlan, SearchError>)
    ensures
        params.engine@ == "ripgrep"@ ==> (r matches Ok(p) && p.program@ == "rg"@
            && p.args.deep_view() == spec_ripgrep_args(params@)),
        params.engine@ == "grep"@ ==> (r matches Ok(p) && p.program@ == "grep"@
            && p.args.deep_view() == spec_grep_args(params@)),
        !spec_engine_known(params.engine@) ==> (r matches Err(e) && e
            == SearchError::UnsupportedEngine),
{
    proof {
        reveal_strlit("ripgrep");
        reveal_strlit("grep");
        assert("ripgrep"@.len() == 7);
        assert("grep"@.len() == 4);
        assert("ripgrep"@ != "grep"@);
    }
    if params.engine == String::from_str("ripgrep") {
        Ok(SearchPlan { program: String::from_str("rg"), args: build_ripgrep_args(params) })
    } else if params.engine == String::from_str("grep") {
        Ok(SearchPlan { program: String::from_str("grep"), args: build_grep_args(params) })
    } else {
        Err(SearchError::UnsupportedEngine)
    }
}

/// Finishes a search whose engine process has completed: dispatches on the
/// engine identifier to that engine's completion handling, and rejects an
/// unknown identifier.
pub fn complete_search(
    params: &SearchParams,
    start: &std::time::Instant,
    elapsed_secs: u64,
    elapsed_nanos: u32,
    output: &CapturedOutput,
) -> (r: Result<Vec<SearchResult>, SearchError>)
    requires
        params@.valid(),
    ensures
        !spec_engine_known(params.engine@) ==> (r matches Err(e) && e
            == SearchError::UnsupportedEngine),
        spec_engine_known(params.engine@) ==> spec_common_outcome(
            r,
            params.timeout_seconds,
            elapsed_secs,
            elapsed_nanos,
            output@,
        ),
        params.engine@ == "grep"@ ==> spec_grep_success_outcome(
            r,
            params.max_results,
            params.timeout_seconds,
            elapsed_secs,
            elapsed_nanos,
            output@,
        ),
        params.engine@ == "ripgrep"@ ==> spec_rg_success_outcome(
            r,
            params.max_results,
            params.timeout_seconds,
            elapsed_secs,
            elapsed_nanos,
            output@,
        ),
        r matches Ok(v) ==> v@.len() <= params.max_results,
        r matches Ok(v) ==> forall|k: int|
            0 <= k < v.deep_view().len() ==> #[trigger] v.deep_view()[k].line_number >= 1,
{
    proof {
        reveal_strlit("ripgrep");
        reveal_strlit("grep");
        assert("ripgrep"@.len() == 7);
        assert("grep"@.len() == 4);
        assert("ripgrep"@ != "grep"@);
    }
    if params.engine == String::from_str("ripgrep") {
        search_with_ripgrep_output(params, start, elapsed_secs, elapsed_nanos, output)
    } else if params.engine == String::from_str("grep") {
        search_with_grep_output(params, start, elapsed_secs, elapsed_nanos, output)
    } else {
        Err(SearchError::UnsupportedEngine)
    }
}

/// Which request features each engine's command line can honor. Features a
/// request asks for beyond these are silently ignored for that engine.
#[derive(Debug)]
pub struct EngineCapabilities {
    pub case_insensitive: bool,
    pub whole_word: bool,
    pub regex_literal: bool,
    pub depth_limit: bool,
    pub type_filter: bool,
    pub exclude_glob: bool,
}

/// The capability set of each recognized engine: the structured engine honors
/// every request feature, the line-oriented engine only the case, word and
/// literal flags.
pub fn engine_capabilities(engine: &String) -> (r: Option<EngineCapabilities>)
    ensures
        engine@ == "ripgrep"@ ==> (r matches Some(c) && c == (EngineCapabilities {
            case_insensitive: true,
            whole_word: true,
            regex_literal: true,
            depth_limit: true,
            type_filter: true,
            exclude_glob: true,
        })),
        engine@ == "grep"@ ==> (r matches Some(c) && c == (EngineCapabilities {
            case_insensitive: true,
            whole_word: true,
            regex_literal: true,
            depth_limit: false,
            type_filter: false,
            exclude_glob: false,
        })),
        !spec_engine_known(engine@) ==> r is None,
{
    proof {
        reveal_strlit("ripgrep");
        reveal_strlit("grep");
        assert("ripgrep"@.len() == 7);
        assert("grep"@.len() == 4);
        assert("ripgrep"@ != "grep"@);
    }
    if *engine == String::from_str("ripgrep") {
        Some(
            EngineCapabilities {
                case_insensitive: true,
                whole_word: true,
                regex_literal: true,
                depth_limit: true,
                type_filter: true,
                exclude_glob: true,
            },
        )
    } else if *engine == String::from_str("grep") {
        Some(
            EngineCapabilities {
                case_insensitive: true,
                whole_word: true,
                regex_literal: true,
                depth_limit: false,
                type_filter: false,
                exclude_glob: false,
            },
        )
    } else {
        None
    }
}

} // verus!
