//! The orchestration context of one run: the canonicalized root, the
//! validation adapter, and the append-only outcome collector, all
//! exclusively owned by the loop that drives the run.

use crate::errors::WgslError;
use crate::messages::OutputMessage;
use crate::messages::fallback_text;
use crate::messages::parse_text;
use crate::messages::success_text;
use crate::messages::validate_text;
use crate::paths::display_path;
use crate::paths::display_path_spec;
use crate::report::exit_code;
use crate::report::has_failure;
use crate::report::partitioned;
use crate::report::sort_messages;
use crate::validator::Naga;
use crate::validator::wgsl_parse_error_of;
use crate::validator::wgsl_semantic_error_of;
use vstd::prelude::*;

verus! {

/// The per-run state: the root every path is displayed against, the
/// validation adapter, and the outcomes in encounter order.
pub struct RunContext {
    pub root: String,
    pub naga: Naga,
    pub messages: Vec<OutputMessage>,
}

impl RunContext {
    /// A fresh context for a run rooted at `root`, with no outcomes yet.
    pub fn new(root: String) -> (r: RunContext)
        ensures
            r.root@ == root@,
            r.messages@.len() == 0,
    {
        RunContext { root, naga: Naga::new(), messages: Vec::new() }
    }

    /// Records the outcome of one candidate and nothing else: a read
    /// failure becomes an I/O failure outcome; otherwise the contents
    /// go through the parser and then the semantic checks. Exactly one
    /// outcome is appended, whatever happened, and earlier outcomes are
    /// untouched.
    pub fn process_file(&mut self, path: &str, read: Result<String, String>)
        ensures
            final(self).root@ == old(self).root@,
            final(self).messages@.len() == old(self).messages@.len() + 1,
            final(self).messages@.subrange(0, old(self).messages@.len() as int) == old(
                self,
            ).messages@,
            ({
                let m = final(self).messages@.last();
                let rel = display_path_spec(old(self).root@, path@);
                match read {
                    Err(message) => m.is_err && m.text@ == fallback_text(rel, message@),
                    Ok(source) => match wgsl_parse_error_of(source@) {
                        Some(pe) => m.is_err && m.text@ == parse_text(
                            rel,
                            pe.0,
                            (match pe.1 {
                                Some(lp) => lp.0 as nat,
                                None => 0,
                            }),
                            (match pe.1 {
                                Some(lp) => lp.1 as nat,
                                None => 0,
                            }),
                        ),
                        None => match wgsl_semantic_error_of(source@) {
                            None => !m.is_err && m.text@ == success_text(rel),
                            Some(se) => m.is_err && m.text@ == validate_text(rel, se.0, se.1),
                        },
                    },
                }
            }),
    {
        let rel = display_path(self.root.as_str(), path);
        let msg = match read {
            Err(message) => OutputMessage::error(rel.as_str(), WgslError::Io { message }),
            Ok(source) => {
                match self.naga.validate_source(source.as_str()) {
                    Ok(()) => OutputMessage::success(rel.as_str()),
                    Err(err) => OutputMessage::error(rel.as_str(), err),
                }
            },
        };
        self.messages.push(msg);
        proof {
            assert(self.messages@.subrange(0, old(self).messages@.len() as int) =~= old(
                self,
            ).messages@);
        }
    }

    /// Records a directory-walk failure as one outcome with no
    /// associated candidate path; the walk itself goes on and earlier
    /// outcomes are untouched.
    pub fn record_traversal_error(&mut self, message: String)
        ensures
            final(self).root@ == old(self).root@,
            final(self).messages@.len() == old(self).messages@.len() + 1,
            final(self).messages@.subrange(0, old(self).messages@.len() as int) == old(
                self,
            ).messages@,
            final(self).messages@.last().is_err,
            final(self).messages@.last().text@ == message@,
    {
        self.messages.push(OutputMessage { is_err: true, text: message });
        proof {
            assert(self.messages@.subrange(0, old(self).messages@.len() as int) =~= old(
                self,
            ).messages@);
        }
    }

    /// Ends the run: every collected outcome in report order, successes
    /// before failures, and the exit code derived from them. The report
    /// holds exactly one line per collected outcome, none suppressed and
    /// none invented.
    pub fn finish(self) -> (r: (Vec<OutputMessage>, i32))
        ensures
            r.0@ == partitioned(self.messages@),
            r.0@.len() == self.messages@.len(),
            r.0@.to_multiset() =~= self.messages@.to_multiset(),
            r.1 == if has_failure(self.messages@) {
                1i32
            } else {
                0i32
            },
    {
        let ghost collected = self.messages@;
        let sorted = sort_messages(self.messages);
        let code = exit_code(&sorted);
        proof {
            crate::report::lemma_has_failure_partition(collected);
            crate::report::lemma_partition_len(collected);
            crate::report::lemma_partition_multiset(collected);
        }
        (sorted, code)
    }
}

} // verus!
