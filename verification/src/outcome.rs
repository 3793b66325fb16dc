use vstd::prelude::*;
use vstd::string::StringExecFns;
use crate::digits::{dec_str, u64_to_dec};

verus! {

/// The uniform error taxonomy of the search layer. A call either returns a
/// complete result sequence or exactly one of these.
#[derive(Debug)]
pub enum SearchError {
    /// The requested engine identifier names no recognized engine.
    UnsupportedEngine,
    /// The engine executable could not be launched; carries the OS error text.
    ProcessSpawnFailed(String),
    /// The engine exited with a failure status other than the no-match status;
    /// carries the captured stderr text.
    EngineExecutionFailed(String),
    /// The wall-clock budget was exceeded; carries the configured budget in
    /// seconds.
    Timeout(u64),
}

/// The descriptive text of each error.
pub open spec fn spec_message(e: SearchError) -> Seq<char> {
    match e {
        SearchError::UnsupportedEngine => "Unsupported search engine"@,
        SearchError::ProcessSpawnFailed(detail) => "failed to launch search process: "@
            + detail@,
        SearchError::EngineExecutionFailed(detail) => "search failed: "@ + detail@,
        SearchError::Timeout(t) => "Search timeout: operation took longer than "@ + dec_str(
            t as nat,
        ) + " seconds"@,
    }
}

impl SearchError {
    /// Renders the error as the text `spec_message` describes.
    pub fn message(&self) -> (r: String)
        ensures
            r@ == spec_message(*self),
    {
        match self {
            SearchError::UnsupportedEngine => {
                let r = String::from_str("Unsupported search engine");
                r
            },
            SearchError::ProcessSpawnFailed(detail) => {
                let mut r = String::from_str("failed to launch search process: ");
                r.append(detail.as_str());
                proof {
                    assert(r@ =~= spec_message(*self));
                }
                r
            },
            SearchError::EngineExecutionFailed(detail) => {
                let mut r = String::from_str("search failed: ");
                r.append(detail.as_str());
                proof {
                    assert(r@ =~= spec_message(*self));
                }
                r
            },
            SearchError::Timeout(t) => {
                let mut r = String::from_str("Search timeout: operation took longer than ");
                let digits = u64_to_dec(*t);
                r.append(digits.as_str());
                r.append(" seconds");
                proof {
                    assert(r@ =~= spec_message(*self));
                }
                r
            },
        }
    }
}

/// What the host captured from one finished engine process: the exit code if
/// there was one, whether the exit status was success, and the raw output
/// streams.
#[derive(Debug)]
pub struct CapturedOutput {
    pub code: Option<i32>,
    pub success: bool,
    pub stdout: Vec<u8>,
    pub stderr: Vec<u8>,
}

/// Mathematical image of a `CapturedOutput`.
pub ghost struct CapturedOutputView {
    pub code: Option<i32>,
    pub success: bool,
    pub stdout: Seq<u8>,
    pub stderr: Seq<u8>,
}

impl View for CapturedOutput {
    type V = CapturedOutputView;

    open spec fn view(&self) -> CapturedOutputView {
        CapturedOutputView {
            code: self.code,
            success: self.success,
            stdout: self.stdout@,
            stderr: self.stderr@,
        }
    }
}

} // verus!
