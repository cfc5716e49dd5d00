//! Errors of the analysis run.

use vstd::prelude::*;
use vstd::string::StringExecFns;

verus! {

/// What can go wrong while analyzing an event list.
#[derive(Debug, Clone, PartialEq, Eq)]
pub enum AnalyzeError {
    /// A plan code was handed to a per-plan counter map that was not
    /// pre-seeded with it: pricing definitions and classification have
    /// drifted out of sync, which is fatal to the run.
    UnknownPlanCode(String),
    /// The event list was empty, so the first/last timestamps of the run
    /// are undefined.
    EmptyEventList,
    /// A configured pattern was rejected by the regex engine.
    InvalidPattern(String),
}

impl AnalyzeError {
    pub open spec fn spec_message(self) -> Seq<char> {
        match self {
            AnalyzeError::UnknownPlanCode(code) => "plan code "@ + code@
                + " not found in initialized count stats"@,
            AnalyzeError::EmptyEventList => "the event list holds no event"@,
            AnalyzeError::InvalidPattern(pattern) => "invalid pattern: "@ + pattern@,
        }
    }

    /// A human-readable account of the error.
    pub fn message(&self) -> (r: String)
        ensures
            r@ == self.spec_message(),
    {
        match self {
            AnalyzeError::UnknownPlanCode(code) => {
                let mut s = String::from_str("plan code ");
                s.append(code.as_str());
                s.append(" not found in initialized count stats");
                s
            },
            AnalyzeError::EmptyEventList => String::from_str("the event list holds no event"),
            AnalyzeError::InvalidPattern(pattern) => {
                let mut s = String::from_str("invalid pattern: ");
                s.append(pattern.as_str());
                s
            },
        }
    }
}

} // verus!
