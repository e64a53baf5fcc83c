//! The validation adapter: the parsing and semantic-checking calls into
//! the external shader front end, and the classification of their raw
//! results into the error taxonomy.

use crate::errors::WgslError;
use vstd::prelude::*;

verus! {

#[verifier::external_type_specification]
#[verifier::external_body]
pub struct ExModule(naga::Module);

/// What parsing a WGSL source text yields, as far as the contracts need
/// it: nothing for a source that parses, else the parser's rendered
/// message together with the location it reported, if any. Parsing is a
/// function of the source text alone.
pub uninterp spec fn wgsl_parse_error_of(source: Seq<char>) -> Option<
    (Seq<char>, Option<(usize, usize)>),
>;

/// The semantic verdict on a source text that parses, as far as the
/// contracts need it: nothing for a module that passes the checks, else
/// the structured error's debug rendering together with the diagnostic
/// the validator emits for that source. The verdict is a function of
/// the source text alone, because the checking validator is constructed
/// afresh, with the same fixed configuration, for every candidate.
pub uninterp spec fn wgsl_semantic_error_of(source: Seq<char>) -> Option<(Seq<char>, Seq<char>)>;

/// A successfully parsed module, kept together with the very source
/// text it was parsed from; only the parser wrapper constructs one, so
/// the pair can never come apart.
pub struct ParsedModule {
    module: naga::Module,
    source: String,
}

impl ParsedModule {
    /// The source text this module was parsed from.
    pub closed spec fn src(&self) -> Seq<char> {
        self.source@
    }
}

/// Relies on naga::front::wgsl::parse_str, ParseError::emit_to_string
/// and ParseError::location: parsing is deterministic in the source
/// text alone, and the rendered message and reported location are
/// functions of the resulting error and that same source.
#[verifier::external_body]
fn parse_wgsl(source: &str) -> (r: Result<ParsedModule, (String, Option<(usize, usize)>)>)
    ensures
        r is Ok <==> wgsl_parse_error_of(source@) is None,
        r matches Ok(pm) ==> pm.src() == source@,
        r matches Err(e) ==> wgsl_parse_error_of(source@) == Some((e.0@, e.1)),
{
    match naga::front::wgsl::parse_str(source) {
        Ok(module) => Ok(ParsedModule { module, source: source.to_owned() }),
        Err(err) => {
            let message = err.emit_to_string(source);
            let location = err.location(source).map(
                |loc| (loc.line_number as usize, loc.line_position as usize),
            );
            Err((message, location))
        },
    }
}

/// The validation adapter, the one value the orchestration loop threads
/// through the run. It holds no reusable validator instance: naga's
/// `Validator::reset` does not clear the ray-tracing payload state a
/// previous module may have left behind, so a reused instance could
/// judge a candidate by its predecessors. Each candidate is therefore
/// checked by a freshly constructed validator, which keeps the verdict
/// a function of the candidate's source text alone.
pub struct Naga {}

impl Naga {
    /// A fresh adapter.
    pub fn new() -> Naga {
        Naga {}
    }

    /// Relies on naga::valid::Validator::new and Validator::validate: a
    /// freshly constructed validator with the fixed all-rules,
    /// all-capabilities configuration judges exactly the given module,
    /// and the module travels with the source it was parsed from — so
    /// the verdict, the error's debug rendering (WithSpan is rendered
    /// by WithSpan::emit_to_string against that source) and the emitted
    /// diagnostic are functions of that source alone.
    #[verifier::external_body]
    fn validate_parsed(&mut self, parsed: &ParsedModule) -> (r: Result<(), (String, String)>)
        ensures
            r is Ok <==> wgsl_semantic_error_of(parsed.src()) is None,
            r matches Err(e) ==> wgsl_semantic_error_of(parsed.src()) == Some((e.0@, e.1@)),
    {
        let mut validator = naga::valid::Validator::new(
            naga::valid::ValidationFlags::all(),
            naga::valid::Capabilities::all(),
        );
        match validator.validate(&parsed.module) {
            Ok(_) => Ok(()),
            Err(err) => {
                let emitted = err.emit_to_string(&parsed.source);
                Err((format!("{:?}", err), emitted))
            },
        }
    }

    /// Validates one candidate's source text: parse first, then the
    /// semantic checks. A syntax failure carries the parser's message
    /// and its reported location untouched; a source that parses passes
    /// exactly when the semantic verdict is clean, and fails with a
    /// semantic error carrying this very source text and the verdict's
    /// own renderings.
    pub fn validate_source(&mut self, source: &str) -> (r: Result<(), WgslError>)
        ensures
            wgsl_parse_error_of(source@) matches Some(pe) ==> r matches Err(e) && (
            e matches WgslError::Parse { error, line, pos } && error@ == pe.0 && (match pe.1 {
                Some(lp) => line == lp.0 && pos == lp.1,
                None => line == 0 && pos == 0,
            })),
            wgsl_parse_error_of(source@) is None ==> (match wgsl_semantic_error_of(source@) {
                None => r is Ok,
                Some(se) => r matches Err(e) && (e matches WgslError::Validate {
                    src,
                    error,
                    emitted,
                } && src@ == source@ && error@ == se.0 && emitted@ == se.1),
            }),
    {
        match parse_wgsl(source) {
            Err((message, location)) => Err(WgslError::from_parse_err(message, location)),
            Ok(parsed) => {
                match self.validate_parsed(&parsed) {
                    Ok(()) => Ok(()),
                    Err((error, emitted)) => Err(
                        WgslError::Validate { src: source.to_owned(), error, emitted },
                    ),
                }
            },
        }
    }
}

} // verus!
