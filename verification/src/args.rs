use vstd::prelude::*;
use vstd::string::StringExecFns;
use crate::digits::{dec_str, u64_to_dec};
use crate::request::{SearchParams, SearchParamsView};

verus! {

/// A flag that is present only under a condition.
pub open spec fn opt_flag(cond: bool, f: Seq<char>) -> Seq<Seq<char>> {
    if cond {
        seq![f]
    } else {
        Seq::empty()
    }
}

/// One type/glob inclusion flag pair per file-type filter, in the order given.
pub open spec fn type_filter_args(ts: Seq<Seq<char>>) -> Seq<Seq<char>>
    decreases ts.len(),
{
    if ts.len() == 0 {
        Seq::empty()
    } else {
        seq!["-g"@, ts[0]] + type_filter_args(ts.skip(1))
    }
}

/// One negated glob exclusion flag pair per exclude pattern, in the order
/// given; the glob is prefixed with the negation marker.
pub open spec fn exclude_args(ps: Seq<Seq<char>>) -> Seq<Seq<char>>
    decreases ps.len(),
{
    if ps.len() == 0 {
        Seq::empty()
    } else {
        seq!["--glob"@, seq!['!'] + ps[0]] + exclude_args(ps.skip(1))
    }
}

pub proof fn lemma_type_filter_args_len(ts: Seq<Seq<char>>)
    ensures
        type_filter_args(ts).len() == 2 * ts.len(),
    decreases ts.len(),
{
    if ts.len() > 0 {
        lemma_type_filter_args_len(ts.skip(1));
    }
}

pub proof fn lemma_exclude_args_len(ps: Seq<Seq<char>>)
    ensures
        exclude_args(ps).len() == 2 * ps.len(),
    decreases ps.len(),
{
    if ps.len() > 0 {
        lemma_exclude_args_len(ps.skip(1));
    }
}

pub proof fn lemma_type_filter_args_snoc(ts: Seq<Seq<char>>)
    requires
        ts.len() > 0,
    ensures
        type_filter_args(ts) == type_filter_args(ts.drop_last()) + seq!["-g"@, ts.last()],
    decreases ts.len(),
{
    if ts.len() == 1 {
        assert(ts.drop_last() =~= Seq::<Seq<char>>::empty());
        assert(ts.skip(1) =~= Seq::<Seq<char>>::empty());
        assert(type_filter_args(ts) =~= type_filter_args(ts.drop_last()) + seq![
            "-g"@,
            ts.last(),
        ]);
    } else {
        let t = ts.skip(1);
        lemma_type_filter_args_snoc(t);
        assert(t.drop_last() =~= ts.drop_last().skip(1));
        assert(t.last() == ts.last());
        assert(type_filter_args(ts) =~= type_filter_args(ts.drop_last()) + seq![
            "-g"@,
            ts.last(),
        ]);
    }
}

pub proof fn lemma_exclude_args_snoc(ps: Seq<Seq<char>>)
    requires
        ps.len() > 0,
    ensures
        exclude_args(ps) == exclude_args(ps.drop_last()) + seq![
            "--glob"@,
            seq!['!'] + ps.last(),
        ],
    decreases ps.len(),
{
    if ps.len() == 1 {
        assert(ps.drop_last() =~= Seq::<Seq<char>>::empty());
        assert(ps.skip(1) =~= Seq::<Seq<char>>::empty());
        assert(exclude_args(ps) =~= exclude_args(ps.drop_last()) + seq![
            "--glob"@,
            seq!['!'] + ps.last(),
        ]);
    } else {
        let t = ps.skip(1);
        lemma_exclude_args_snoc(t);
        assert(t.drop_last() =~= ps.drop_last().skip(1));
        assert(t.last() == ps.last());
        assert(exclude_args(ps) =~= exclude_args(ps.drop_last()) + seq![
            "--glob"@,
            seq!['!'] + ps.last(),
        ]);
    }
}

/// The full argument vector for the structured engine, in the fixed order:
/// structured output and line numbers, the result-cap hint, the conditional
/// case/word/literal flags, the optional depth limit, the type filters, the
/// exclusions, and finally the pattern and the root path.
pub open spec fn spec_ripgrep_args(p: SearchParamsView) -> Seq<Seq<char>> {
    seq!["--json"@, "--line-number"@, "--max-count"@, dec_str(p.max_results as nat)]
        + opt_flag(!p.case_sensitive, "-i"@) + opt_flag(p.whole_word, "-w"@) + opt_flag(
        !p.use_regex,
        "--fixed-strings"@,
    ) + (match p.max_depth {
        Some(d) => seq!["--max-depth"@, dec_str(d as nat)],
        None => Seq::empty(),
    }) + type_filter_args(p.file_types) + exclude_args(p.exclude_patterns) + seq![
        p.pattern,
        p.path,
    ]
}

/// The full argument vector for the line-oriented engine: line numbers and
/// filename prefixes, the result-cap hint, the conditional case/word flags,
/// extended-regex or fixed-strings, then the pattern and the root path.
/// File-type filters, exclusions and the depth limit have no equivalent here.
pub open spec fn spec_grep_args(p: SearchParamsView) -> Seq<Seq<char>> {
    seq!["--line-number"@, "--with-filename"@, "--max-count"@, dec_str(p.max_results as nat)]
        + opt_flag(!p.case_sensitive, "--ignore-case"@) + opt_flag(p.whole_word, "--word-regexp"@)
        + (if p.use_regex {
        seq!["--extended-regexp"@]
    } else {
        seq!["--fixed-strings"@]
    }) + seq![p.pattern, p.path]
}

/// Builds the structured engine's argument vector, exactly as
/// `spec_ripgrep_args` describes.
pub fn build_ripgrep_args(p: &SearchParams) -> (args: Vec<String>)
    ensures
        args.deep_view() == spec_ripgrep_args(p@),
{
    let ghost base: Seq<Seq<char>> = seq![
        "--json"@,
        "--line-number"@,
        "--max-count"@,
        dec_str(p@.max_results as nat),
    ] + opt_flag(!p@.case_sensitive, "-i"@) + opt_flag(p@.whole_word, "-w"@) + opt_flag(
        !p@.use_regex,
        "--fixed-strings"@,
    ) + (match p@.max_depth {
        Some(d) => seq!["--max-depth"@, dec_str(d as nat)],
        None => Seq::empty(),
    });

    let mut args: Vec<String> = Vec::new();
    args.push(String::from_str("--json"));
    args.push(String::from_str("--line-number"));
    args.push(String::from_str("--max-count"));
    args.push(u64_to_dec(p.max_results as u64));
    if !p.case_sensitive {
        args.push(String::from_str("-i"));
    }
    if p.whole_word {
        args.push(String::from_str("-w"));
    }
    if !p.use_regex {
        args.push(String::from_str("--fixed-strings"));
    }
    match p.max_depth {
        Some(depth) => {
            args.push(String::from_str("--max-depth"));
            args.push(u64_to_dec(depth as u64));
        },
        None => {},
    }
    proof {
        assert(args.deep_view() =~= base);
    }

    let mut i: usize = 0;
    while i < p.file_types.len()
        invariant
            i <= p.file_types.len(),
            args.deep_view() =~= base + type_filter_args(p@.file_types.take(i as int)),
        decreases p.file_types.len() - i,
    {
        let ghost before = args.deep_view();
        args.push(String::from_str("-g"));
        args.push(p.file_types[i].clone());
        proof {
            let ghost ft = p@.file_types[i as int];
            assert(p.file_types@[i as int].deep_view() == ft);
            assert(args.deep_view() =~= before + seq!["-g"@, ft]);
            let ts = p@.file_types.take(i as int + 1);
            assert(ts.drop_last() =~= p@.file_types.take(i as int));
            assert(ts.last() == ft);
            lemma_type_filter_args_snoc(ts);
            assert(args.deep_view() =~= base + type_filter_args(ts));
        }
        i = i + 1;
    }
    proof {
        assert(p@.file_types.take(p.file_types.len() as int) =~= p@.file_types);
    }

    let ghost base2: Seq<Seq<char>> = base + type_filter_args(p@.file_types);
    let mut j: usize = 0;
    while j < p.exclude_patterns.len()
        invariant
            j <= p.exclude_patterns.len(),
            args.deep_view() =~= base2 + exclude_args(p@.exclude_patterns.take(j as int)),
        decreases p.exclude_patterns.len() - j,
    {
        let ghost before = args.deep_view();
        args.push(String::from_str("--glob"));
        let mut glob = String::from_str("!");
        glob.append(p.exclude_patterns[j].as_str());
        proof {
            reveal_strlit("!");
            assert(p.exclude_patterns@[j as int].deep_view() == p@.exclude_patterns[j as int]);
            assert(glob@ =~= seq!['!'] + p@.exclude_patterns[j as int]);
        }
        args.push(glob);
        proof {
            let ghost pat = p@.exclude_patterns[j as int];
            assert(args.deep_view() =~= before + seq!["--glob"@, seq!['!'] + pat]);
            let ps = p@.exclude_patterns.take(j as int + 1);
            assert(ps.drop_last() =~= p@.exclude_patterns.take(j as int));
            assert(ps.last() == pat);
            lemma_exclude_args_snoc(ps);
            assert(args.deep_view() =~= base2 + exclude_args(ps));
        }
        j = j + 1;
    }
    proof {
        assert(p@.exclude_patterns.take(p.exclude_patterns.len() as int) =~= p@.exclude_patterns);
    }

    args.push(p.pattern.clone());
    args.push(p.path.clone());
    proof {
        assert(args.deep_view() =~= spec_ripgrep_args(p@));
    }
    args
}

/// Builds the line-oriented engine's argument vector, exactly as
/// `spec_grep_args` describes.
pub fn build_grep_args(p: &SearchParams) -> (args: Vec<String>)
    ensures
        args.deep_view() == spec_grep_args(p@),
{
    let mut args: Vec<String> = Vec::new();
    args.push(String::from_str("--line-number"));
    args.push(String::from_str("--with-filename"));
    args.push(String::from_str("--max-count"));
    args.push(u64_to_dec(p.max_results as u64));
    if !p.case_sensitive {
        args.push(String::from_str("--ignore-case"));
    }
    if p.whole_word {
        args.push(String::from_str("--word-regexp"));
    }
    if p.use_regex {
        args.push(String::from_str("--extended-regexp"));
    } else {
        args.push(String::from_str("--fixed-strings"));
    }
    args.push(p.pattern.clone());
    args.push(p.path.clone());
    proof {
        assert(args.deep_view() =~= spec_grep_args(p@));
    }
    args
}

/// Law: a request that does not ask for regex interpretation reaches both
/// engines with the literal/fixed-string flag present, and for every request
/// the pattern and the root path are handed over verbatim as the two final
/// positional arguments, so the pattern is never rewritten on the way to the
/// engine.
pub proof fn lemma_literal_search_uses_fixed_strings(p: SearchParamsView)
    requires
        !p.use_regex,
    ensures
        spec_ripgrep_args(p).contains("--fixed-strings"@),
        spec_grep_args(p).contains("--fixed-strings"@),
{
    let rg = spec_ripgrep_args(p);
    let ci: int = if !p.case_sensitive {
        1
    } else {
        0
    };
    let ww: int = if p.whole_word {
        1
    } else {
        0
    };
    assert(rg[4 + ci + ww] == "--fixed-strings"@);
    assert(rg.contains("--fixed-strings"@));

    let g = spec_grep_args(p);
    assert(g[4 + ci + ww] == "--fixed-strings"@);
    assert(g.contains("--fixed-strings"@));
}

/// Law: both argument vectors end with the pattern and then the root path.
pub proof fn lemma_pattern_and_path_are_positional(p: SearchParamsView)
    ensures
        spec_ripgrep_args(p).len() >= 2,
        spec_ripgrep_args(p)[spec_ripgrep_args(p).len() - 2] == p.pattern,
        spec_ripgrep_args(p).last() == p.path,
        spec_grep_args(p).len() >= 2,
        spec_grep_args(p)[spec_grep_args(p).len() - 2] == p.pattern,
        spec_grep_args(p).last() == p.path,
{
    lemma_type_filter_args_len(p.file_types);
    lemma_exclude_args_len(p.exclude_patterns);
}

} // verus!
