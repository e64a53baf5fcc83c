//! One formatted line per outcome, with the exact text pinned down for
//! every failure kind.

use crate::decimal::dec_str;
use crate::decimal::usize_to_string;
use crate::errors::WgslError;
use vstd::prelude::*;

verus! {

/// One outcome as reported to the user: a display line, and whether it
/// reports a failure.
pub struct OutputMessage {
    pub is_err: bool,
    pub text: String,
}

/// The success line for a displayed path.
pub open spec fn success_text(path: Seq<char>) -> Seq<char> {
    "✅ Success "@ + path
}

/// The syntax-failure line: the location first, the message below it.
pub open spec fn parse_text(path: Seq<char>, error: Seq<char>, line: nat, pos: nat) -> Seq<char> {
    "--> "@ + path + ":"@ + dec_str(line) + ":"@ + dec_str(pos) + "\nerror: "@ + error
}

/// The semantic-failure line: the structured error first, the
/// validator's own diagnostic after it.
pub open spec fn validate_text(path: Seq<char>, error: Seq<char>, emitted: Seq<char>) -> Seq<char> {
    "❌ "@ + path + " \n"@ + error + " "@ + emitted
}

/// The line for every other failure: the path and the full detail.
pub open spec fn fallback_text(path: Seq<char>, message: Seq<char>) -> Seq<char> {
    "❌ "@ + path + " \n"@ + message
}

/// The display line of a failure value, by its kind.
pub open spec fn error_text(path: Seq<char>, e: WgslError) -> Seq<char> {
    match e {
        WgslError::Parse { error, line, pos } => parse_text(path, error@, line as nat, pos as nat),
        WgslError::Validate { src: _, error, emitted } => validate_text(path, error@, emitted@),
        WgslError::Io { message } => fallback_text(path, message@),
        WgslError::Traversal { message } => fallback_text(path, message@),
        WgslError::Other { message } => fallback_text(path, message@),
    }
}

impl OutputMessage {
    /// The success outcome for a displayed path.
    pub fn success(path: &str) -> (r: OutputMessage)
        ensures
            !r.is_err,
            r.text@ == success_text(path@),
    {
        let mut text = String::from_str("✅ Success ");
        text.append(path);
        OutputMessage { is_err: false, text }
    }

    /// The failure outcome for a displayed path, formatted by kind.
    pub fn error(path: &str, error: WgslError) -> (r: OutputMessage)
        ensures
            r.is_err,
            r.text@ == error_text(path@, error),
    {
        let text = match error {
            WgslError::Parse { error: msg, line, pos } => {
                let mut t = String::from_str("--> ");
                t.append(path);
                t.append(":");
                let line_str = usize_to_string(line);
                t.append(line_str.as_str());
                t.append(":");
                let pos_str = usize_to_string(pos);
                t.append(pos_str.as_str());
                t.append("\nerror: ");
                t.append(msg.as_str());
                proof {
                    assert(t@ =~= parse_text(path@, msg@, line as nat, pos as nat));
                }
                t
            },
            WgslError::Validate { src: _, error: err, emitted } => {
                let mut t = String::from_str("❌ ");
                t.append(path);
                t.append(" \n");
                t.append(err.as_str());
                t.append(" ");
                t.append(emitted.as_str());
                proof {
                    assert(t@ =~= validate_text(path@, err@, emitted@));
                }
                t
            },
            WgslError::Io { message } => {
                let t = fallback_line(path, message.as_str());
                t
            },
            WgslError::Traversal { message } => {
                let t = fallback_line(path, message.as_str());
                t
            },
            WgslError::Other { message } => {
                let t = fallback_line(path, message.as_str());
                t
            },
        };
        OutputMessage { is_err: true, text }
    }
}

fn fallback_line(path: &str, message: &str) -> (t: String)
    ensures
        t@ == fallback_text(path@, message@),
{
    let mut t = String::from_str("❌ ");
    t.append(path);
    t.append(" \n");
    t.append(message);
    proof {
        assert(t@ =~= fallback_text(path@, message@));
    }
    t
}

} // verus!
