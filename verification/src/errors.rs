//! The uniform error taxonomy every validation outcome is classified into.

use vstd::prelude::*;

verus! {

/// One failure kind per way a candidate, or the walk itself, can go wrong.
pub enum WgslError {
    /// Syntax failure: the parser's rendered message and its natively
    /// reported line and column, passed through untouched.
    Parse { error: String, line: usize, pos: usize },
    /// Parsed but semantically invalid: the original source text, the
    /// structured validation error rendered as text, and the validator's
    /// own emitted diagnostic.
    Validate { src: String, error: String, emitted: String },
    /// The candidate file could not be read.
    Io { message: String },
    /// Reading a directory during the walk failed.
    Traversal { message: String },
    /// Unclassified fallback.
    Other { message: String },
}

impl WgslError {
    /// Builds the syntax-failure value from the parser's rendered message
    /// and the location it reported, when it reported one; line and
    /// column fall back to 0 when it did not.
    pub fn from_parse_err(error: String, location: Option<(usize, usize)>) -> (r: WgslError)
        ensures
            r matches WgslError::Parse { error: e, line, pos } && e@ == error@ && (match location {
                Some(lp) => line == lp.0 && pos == lp.1,
                None => line == 0 && pos == 0,
            }),
    {
        match location {
            Some((line, pos)) => WgslError::Parse { error, line, pos },
            None => WgslError::Parse { error, line: 0, pos: 0 },
        }
    }
}

} // verus!
