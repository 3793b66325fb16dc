use vstd::prelude::*;

verus! {

/// One normalized match reported by a search engine: the file that matched,
/// the 1-based line number, and the raw line content.
#[derive(Debug)]
pub struct SearchResult {
    pub path: String,
    pub line_number: u32,
    pub content: String,
}

/// Mathematical image of a `SearchResult`: its strings as character sequences.
pub ghost struct SearchResultView {
    pub path: Seq<char>,
    pub line_number: u32,
    pub content: Seq<char>,
}

impl View for SearchResult {
    type V = SearchResultView;

    open spec fn view(&self) -> SearchResultView {
        SearchResultView {
            path: self.path@,
            line_number: self.line_number,
            content: self.content@,
        }
    }
}

impl DeepView for SearchResult {
    type V = SearchResultView;

    open spec fn deep_view(&self) -> SearchResultView {
        self@
    }
}

/// A caller-constructed description of one search: which engine to run,
/// what to look for, where, and the limits the run must respect.
#[derive(Debug)]
pub struct SearchParams {
    pub path: String,
    pub engine: String,
    pub pattern: String,
    pub case_sensitive: bool,
    pub whole_word: bool,
    pub use_regex: bool,
    pub max_depth: Option<u32>,
    pub file_types: Vec<String>,
    pub exclude_patterns: Vec<String>,
    pub max_results: usize,
    pub timeout_seconds: u64,
}

/// Mathematical image of a `SearchParams`.
pub ghost struct SearchParamsView {
    pub path: Seq<char>,
    pub engine: Seq<char>,
    pub pattern: Seq<char>,
    pub case_sensitive: bool,
    pub whole_word: bool,
    pub use_regex: bool,
    pub max_depth: Option<u32>,
    pub file_types: Seq<Seq<char>>,
    pub exclude_patterns: Seq<Seq<char>>,
    pub max_results: usize,
    pub timeout_seconds: u64,
}

impl View for SearchParams {
    type V = SearchParamsView;

    open spec fn view(&self) -> SearchParamsView {
        SearchParamsView {
            path: self.path@,
            engine: self.engine@,
            pattern: self.pattern@,
            case_sensitive: self.case_sensitive,
            whole_word: self.whole_word,
            use_regex: self.use_regex,
            max_depth: self.max_depth,
            file_types: self.file_types.deep_view(),
            exclude_patterns: self.exclude_patterns.deep_view(),
            max_results: self.max_results,
            timeout_seconds: self.timeout_seconds,
        }
    }
}

impl SearchParamsView {
    /// The request invariant: pattern and root path are non-empty, the result
    /// cap is positive, and the time budget is positive.
    pub open spec fn valid(self) -> bool {
        &&& self.pattern.len() > 0
        &&& self.path.len() > 0
        &&& self.max_results >= 1
        &&& self.timeout_seconds >= 1
    }
}

/// Default result cap for a request that does not set one.
pub fn default_max_results() -> (r: usize)
    ensures
        r == 100usize,
{
    100
}

/// Default wall-clock budget, in seconds, for a request that does not set one.
pub fn default_timeout_seconds() -> (r: u64)
    ensures
        r == 60u64,
{
    60
}

} // verus!
