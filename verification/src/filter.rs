//! Which severity filter the log sink starts with.
//!
//! The filter is a text of directives, as `tracing_subscriber::EnvFilter`
//! reads them. The program may be given one from outside. It is used if the
//! filter's parser accepts it; where none is given, or the parser rejects
//! what is given, the filter is `info` for all sources.

use vstd::prelude::*;
use vstd::string::is_ascii;
use vstd::string::is_ascii_spec_bytes;
use vstd::utf8::is_ascii_chars;

verus! {

/// The directives in force where none are configured or the configured ones
/// do not parse.
pub const DEFAULT_DIRECTIVES: &'static str = "info";

/// Whether `tracing_subscriber::EnvFilter::try_new` accepts `text`: every
/// directive in it parses.
pub uninterp spec fn directives_parse(text: Seq<char>) -> bool;

/// Whether `text` is simple: ASCII throughout and without an opening brace,
/// so that it holds no field matcher. Only simple texts are handed to the
/// parser by this crate: on others the parser slices text at offsets that need
/// not be character boundaries, or compiles a field's pattern into an
/// automaton of unbounded size.
pub open spec fn is_simple(text: Seq<char>) -> bool {
    is_ascii_chars(text) && !text.contains('{')
}

/// The directives to use, given what is configured and whether the parser
/// accepts it.
pub open spec fn settled(configured: Option<Seq<char>>, accepted: bool) -> Seq<char> {
    match configured {
        Some(text) if accepted => text,
        _ => DEFAULT_DIRECTIVES@,
    }
}

/// What [`select`] found.
#[derive(Clone, Debug, PartialEq, Eq)]
pub enum Selection {
    /// The directives to start the log sink with.
    Directives(String),
    /// The configured text is not simple, so it was not handed to the parser.
    /// The caller may parse it and call [`settle`] with the outcome.
    Deferred,
}

/// Calls `tracing_subscriber::EnvFilter::try_new` on `text` and tells whether
/// it returned `Ok`. The contract claims that this outcome depends on `text`
/// alone, and that the call returns on every simple text: its parser then
/// walks the text once and slices it at ASCII characters only.
#[verifier::external_body]
fn parser_accepts(text: &str) -> (accepted: bool)
    requires
        is_simple(text@),
    ensures
        accepted == directives_parse(text@),
{
    tracing_subscriber::EnvFilter::try_new(text).is_ok()
}

/// Whether `text` is simple.
pub fn check_simple(text: &str) -> (simple: bool)
    ensures
        simple == is_simple(text@),
{
    if !text.is_ascii() {
        return false;
    }
    let bytes = text.as_bytes();
    proof {
        is_ascii_spec_bytes(text);
    }
    let mut i: usize = 0;
    while i < bytes.len()
        invariant
            is_ascii(text),
            bytes@.len() == text@.len(),
            forall|k: int| 0 <= k < bytes@.len() ==> bytes@[k] == text@[k] as u8,
            i <= bytes@.len(),
            forall|k: int| 0 <= k < i ==> text@[k] != '{',
        decreases bytes@.len() - i,
    {
        if bytes[i] == 123u8 {
            assert(text@[i as int] as u8 == 123u8);
            assert(text@[i as int] == '{');
            return false;
        }
        assert(text@[i as int] != '{');
        i = i + 1;
    }
    true
}

/// Decides between the configured directives and the default ones, given the
/// parser's verdict on the configured text: the configured text where there is
/// one and it was accepted, `info` otherwise.
pub fn settle(configured: Option<&str>, accepted: bool) -> (directives: String)
    ensures
        directives@ == settled(
            match configured {
                Some(text) => Some(text@),
                None => None,
            },
            accepted,
        ),
{
    match configured {
        Some(text) => {
            if accepted {
                text.to_owned()
            } else {
                DEFAULT_DIRECTIVES.to_owned()
            }
        },
        None => DEFAULT_DIRECTIVES.to_owned(),
    }
}

/// Selects the directives to start the log sink with. With nothing
/// configured they are `info`. A simple configured text is handed to the
/// parser and is used if it parses, `info` if not. A text that is not simple
/// is left to the caller.
pub fn select(configured: Option<&str>) -> (selection: Selection)
    ensures
        match configured {
            None => selection matches Selection::Directives(d) && d@ == DEFAULT_DIRECTIVES@,
            Some(text) => if is_simple(text@) {
                selection matches Selection::Directives(d) && d@ == settled(
                    Some(text@),
                    directives_parse(text@),
                )
            } else {
                selection is Deferred
            },
        },
{
    match configured {
        None => Selection::Directives(settle(None, false)),
        Some(text) => {
            if check_simple(text) {
                let accepted = parser_accepts(text);
                Selection::Directives(settle(configured, accepted))
            } else {
                Selection::Deferred
            }
        },
    }
}

} // verus!
