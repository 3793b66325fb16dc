use vstd::prelude::*;
use crate::request::{SearchResult, SearchResultView};
use crate::textenc::utf8_lossy_of;

verus! {

/// One decoded event of the structured engine's output stream: a match with
/// its fields, or the end-of-stream summary record.
#[derive(Debug)]
pub enum RgEvent {
    Match { path: String, line_number: u64, text: String },
    Summary,
}

/// Mathematical image of an `RgEvent`.
pub ghost enum RgEventView {
    Match { path: Seq<char>, line_number: u64, text: Seq<char> },
    Summary,
}

impl View for RgEvent {
    type V = RgEventView;

    open spec fn view(&self) -> RgEventView {
        match self {
            RgEvent::Match { path, line_number, text } => RgEventView::Match {
                path: path@,
                line_number: *line_number,
                text: text@,
            },
            RgEvent::Summary => RgEventView::Summary,
        }
    }
}

impl DeepView for RgEvent {
    type V = RgEventView;

    open spec fn deep_view(&self) -> RgEventView {
        self@
    }
}

/// What one line of structured-engine output decodes to: the match event
/// with the fields at `data.path.text`, `data.line_number` and
/// `data.lines.text` when the line is a JSON object tagged `match` carrying
/// all three; the summary marker when it is tagged `summary`; nothing
/// otherwise. It is a function of the line text alone.
pub uninterp spec fn rg_event_of(line: Seq<char>) -> Option<RgEventView>;

/// Relies on serde_json::from_str::<Value> and the Value accessors `get`,
/// `as_str` and `as_u64`: decodes one line of structured-engine output, as
/// `rg_event_of` names it. A line that is not well-formed JSON, carries
/// another tag, or lacks one of the match fields yields nothing.
#[verifier::external_body]
pub(crate) fn decode_rg_line(line: &str) -> (r: Option<RgEvent>)
    ensures
        r.deep_view() == rg_event_of(line@),
{
    let v: serde_json::Value = serde_json::from_str(line).ok()?;
    match v.get("type")?.as_str()? {
        "match" => {
            let d = v.get("data")?;
            let path = d.get("path")?.get("text")?.as_str()?.to_owned();
            let line_number = d.get("line_number")?.as_u64()?;
            let text = d.get("lines")?.get("text")?.as_str()?.to_owned();
            Some(RgEvent::Match { path, line_number, text })
        },
        "summary" => Some(RgEvent::Summary),
        _ => None,
    }
}

/// The events drawn from a sequence of output lines, each line decoded after
/// lossy text decoding, in order; decoding stops once `budget` match events
/// stand (summaries in between are kept, lines that decode to nothing are
/// skipped).
pub open spec fn spec_decode_rg(lines: Seq<Seq<u8>>, budget: nat) -> Seq<RgEventView>
    decreases lines.len(),
{
    if lines.len() == 0 || budget == 0 {
        Seq::empty()
    } else {
        match rg_event_of(utf8_lossy_of(lines[0])) {
            Some(ev) => match ev {
                RgEventView::Match { .. } => seq![ev] + spec_decode_rg(
                    lines.skip(1),
                    (budget - 1) as nat,
                ),
                RgEventView::Summary => seq![ev] + spec_decode_rg(lines.skip(1), budget),
            },
            None => spec_decode_rg(lines.skip(1), budget),
        }
    }
}

/// The low 32 bits of a 64-bit line number, as the normalized record keeps
/// it.
pub open spec fn trunc32(n: u64) -> u32 {
    (n % 0x1_0000_0000) as u32
}

/// The normalized record that one match event yields.
pub open spec fn spec_result_of_match(path: Seq<char>, line_number: u64, text: Seq<char>)
    -> SearchResultView {
    SearchResultView { path, line_number: trunc32(line_number), content: text }
}

/// The records drawn from a sequence of decoded events: each match event
/// yields one record in order of emission, summaries yield nothing, and
/// collection stops once `max` records stand. Line numbers are 1-based, so a
/// match whose kept line-number bits are zero is dropped like a summary.
pub open spec fn spec_collect_matches(events: Seq<RgEventView>, max: nat) -> Seq<SearchResultView>
    decreases events.len(),
{
    if events.len() == 0 || max == 0 {
        Seq::empty()
    } else {
        match events[0] {
            RgEventView::Match { path, line_number, text } => if trunc32(line_number) == 0 {
                spec_collect_matches(events.skip(1), max)
            } else {
                seq![spec_result_of_match(path, line_number, text)] + spec_collect_matches(
                    events.skip(1),
                    (max - 1) as nat,
                )
            },
            RgEventView::Summary => spec_collect_matches(events.skip(1), max),
        }
    }
}

/// Law: the collection never yields more records than its cap.
pub proof fn lemma_collect_matches_caps(events: Seq<RgEventView>, max: nat)
    ensures
        spec_collect_matches(events, max).len() <= max,
    decreases events.len(),
{
    if events.len() > 0 && max > 0 {
        match events[0] {
            RgEventView::Match { path, line_number, text } => {
                if trunc32(line_number) == 0 {
                    lemma_collect_matches_caps(events.skip(1), max);
                } else {
                    lemma_collect_matches_caps(events.skip(1), (max - 1) as nat);
                }
            },
            RgEventView::Summary => {
                lemma_collect_matches_caps(events.skip(1), max);
            },
        }
    }
}

/// Law: every collected record carries a 1-based line number.
pub proof fn lemma_collect_matches_line_numbers(events: Seq<RgEventView>, max: nat)
    ensures
        forall|k: int|
            0 <= k < spec_collect_matches(events, max).len()
                ==> #[trigger] spec_collect_matches(events, max)[k].line_number >= 1,
    decreases events.len(),
{
    let whole = spec_collect_matches(events, max);
    if events.len() > 0 && max > 0 {
        match events[0] {
            RgEventView::Match { path, line_number, text } => {
                if trunc32(line_number) == 0 {
                    lemma_collect_matches_line_numbers(events.skip(1), max);
                    assert forall|k: int| 0 <= k < whole.len() implies #[trigger] whole[k].line_number
                        >= 1 by {
                        assert(whole[k] == spec_collect_matches(events.skip(1), max)[k]);
                    }
                } else {
                    lemma_collect_matches_line_numbers(events.skip(1), (max - 1) as nat);
                    assert forall|k: int| 0 <= k < whole.len() implies #[trigger] whole[k].line_number
                        >= 1 by {
                        if k == 0 {
                            assert(whole[0].line_number == trunc32(line_number));
                        } else {
                            assert(whole[k] == spec_collect_matches(
                                events.skip(1),
                                (max - 1) as nat,
                            )[k - 1]);
                        }
                    }
                }
            },
            RgEventView::Summary => {
                lemma_collect_matches_line_numbers(events.skip(1), max);
                assert forall|k: int| 0 <= k < whole.len() implies #[trigger] whole[k].line_number
                    >= 1 by {
                    assert(whole[k] == spec_collect_matches(events.skip(1), max)[k]);
                }
            },
        }
    }
}

/// Turns decoded events into normalized records, exactly as
/// `spec_collect_matches` describes; at most `max` records are returned, and
/// each carries a 1-based line number.
pub fn collect_matches(events: &Vec<RgEvent>, max: usize) -> (r: Vec<SearchResult>)
    ensures
        r.deep_view() == spec_collect_matches(events.deep_view(), max as nat),
        r@.len() <= max,
        forall|k: int|
            0 <= k < r.deep_view().len() ==> #[trigger] r.deep_view()[k].line_number >= 1,
{
    let ghost all = events.deep_view();
    let mut r: Vec<SearchResult> = Vec::new();
    let mut i: usize = 0;
    proof {
        assert(all.skip(0) =~= all);
        assert(r.deep_view() =~= Seq::<SearchResultView>::empty());
    }
    while i < events.len()
        invariant
            i <= events.len(),
            all == events.deep_view(),
            events@.len() == all.len(),
            r@.len() <= max,
            r.deep_view() + spec_collect_matches(all.skip(i as int), (max - r@.len()) as nat)
                =~= spec_collect_matches(all, max as nat),
        decreases events.len() - i,
    {
        let ghost rem = all.skip(i as int);
        let ghost before = r.deep_view();
        proof {
            assert(rem[0] == events@[i as int].deep_view());
            assert(rem.skip(1) =~= all.skip(i as int + 1));
        }
        if r.len() >= max {
            proof {
                assert(spec_collect_matches(rem, 0) =~= Seq::<SearchResultView>::empty());
                assert(r.deep_view() =~= spec_collect_matches(all, max as nat));
                lemma_collect_matches_line_numbers(all, max as nat);
            }
            return r;
        }
        match &events[i] {
            RgEvent::Match { path, line_number, text } => {
                let ln32: u32 = (*line_number % 0x1_0000_0000) as u32;
                if ln32 == 0 {
                    proof {
                        assert(trunc32(*line_number) == 0);
                        assert(spec_collect_matches(rem, (max - r@.len()) as nat)
                            == spec_collect_matches(
                            all.skip(i as int + 1),
                            (max - r@.len()) as nat,
                        ));
                    }
                } else {
                    let res = SearchResult {
                        path: path.clone(),
                        line_number: ln32,
                        content: text.clone(),
                    };
                    proof {
                        assert(res@ == spec_result_of_match(path@, *line_number, text@));
                    }
                    r.push(res);
                    proof {
                        assert(r.deep_view() =~= before.push(res@));
                        assert(r.deep_view() + spec_collect_matches(
                            all.skip(i as int + 1),
                            (max - r@.len()) as nat,
                        ) =~= spec_collect_matches(all, max as nat));
                    }
                }
            },
            RgEvent::Summary => {
                proof {
                    assert(spec_collect_matches(rem, (max - r@.len()) as nat)
                        == spec_collect_matches(all.skip(i as int + 1), (max - r@.len()) as nat));
                }
            },
        }
        i = i + 1;
    }
    proof {
        assert(all.skip(all.len() as int) =~= Seq::<RgEventView>::empty());
        assert(r.deep_view() =~= spec_collect_matches(all, max as nat));
        lemma_collect_matches_line_numbers(all, max as nat);
    }
    r
}

} // verus!
