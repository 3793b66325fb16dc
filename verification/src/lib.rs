pub mod args;
pub mod digits;
pub mod grep_parse;
pub mod lines;
pub mod outcome;
pub mod request;
pub mod rg_parse;
pub mod search;
pub mod textenc;
pub mod timing;
