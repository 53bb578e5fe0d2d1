//! The typed error taxonomy, and the translation of the engine's
//! out-of-band error state into it.
//!
//! The engine does not return typed errors: after each call the caller
//! must read a side channel holding a numeric code and up to three
//! descriptive strings. [`translate`] turns one reading of that channel
//! into an [`AugeasError`], and [`wrap`] turns a call's value plus that
//! reading into a `Result`.

use vstd::prelude::*;
use vstd::string::StringExecFns;

verus! {

/// The engine's closed taxonomy of error codes, plus a catch-all for
/// codes a newer engine may introduce.
#[derive(Clone, Copy, PartialEq, Eq, Structural, Debug)]
pub enum ErrorCode {
    /// Out of memory, or the engine instance could not be created.
    NoMem,
    /// Internal engine error.
    Internal,
    /// Invalid path expression.
    PathExpr,
    /// No node matched where one was needed.
    NoMatch,
    /// More than one node matched where exactly one was needed.
    ManyMatches,
    /// Syntax error in a lens file.
    Syntax,
    /// No lens is registered for the file.
    NoLens,
    /// More than one transform matches the file.
    MultipleTransforms,
    /// No span information is available for the node.
    NoSpan,
    /// The destination of a move is a descendant of the source.
    MoveDescendant,
    /// A command could not be run.
    CMDRun,
    /// Invalid argument in a call.
    BadArg,
    /// Invalid label.
    Label,
    /// The destination of a copy is a descendant of the source.
    CopyDescendant,
    /// A code this taxonomy does not know; kept for forward
    /// compatibility with newer engines.
    Unknown,
}

/// The meaning of each raw code of the engine's side channel: the
/// sentinel `0` means "no error", each known code maps to its variant,
/// and every other value decodes to [`ErrorCode::Unknown`].
pub open spec fn spec_from_raw(code: u32) -> Option<ErrorCode> {
    match code {
        0u32 => None,
        1u32 => Some(ErrorCode::NoMem),
        2u32 => Some(ErrorCode::Internal),
        3u32 => Some(ErrorCode::PathExpr),
        4u32 => Some(ErrorCode::NoMatch),
        5u32 => Some(ErrorCode::ManyMatches),
        6u32 => Some(ErrorCode::Syntax),
        7u32 => Some(ErrorCode::NoLens),
        8u32 => Some(ErrorCode::MultipleTransforms),
        9u32 => Some(ErrorCode::NoSpan),
        10u32 => Some(ErrorCode::MoveDescendant),
        11u32 => Some(ErrorCode::CMDRun),
        12u32 => Some(ErrorCode::BadArg),
        13u32 => Some(ErrorCode::Label),
        14u32 => Some(ErrorCode::CopyDescendant),
        _ => Some(ErrorCode::Unknown),
    }
}

impl ErrorCode {
    /// Decode a raw code read from the engine's side channel: `None`
    /// for the no-error sentinel, the typed code otherwise.
    pub fn from_raw(code: u32) -> (r: Option<ErrorCode>)
        ensures
            r == spec_from_raw(code),
    {
        match code {
            0u32 => None,
            1u32 => Some(ErrorCode::NoMem),
            2u32 => Some(ErrorCode::Internal),
            3u32 => Some(ErrorCode::PathExpr),
            4u32 => Some(ErrorCode::NoMatch),
            5u32 => Some(ErrorCode::ManyMatches),
            6u32 => Some(ErrorCode::Syntax),
            7u32 => Some(ErrorCode::NoLens),
            8u32 => Some(ErrorCode::MultipleTransforms),
            9u32 => Some(ErrorCode::NoSpan),
            10u32 => Some(ErrorCode::MoveDescendant),
            11u32 => Some(ErrorCode::CMDRun),
            12u32 => Some(ErrorCode::BadArg),
            13u32 => Some(ErrorCode::Label),
            14u32 => Some(ErrorCode::CopyDescendant),
            _ => Some(ErrorCode::Unknown),
        }
    }

    /// The name of this code, as it appears in a rendered error.
    pub open spec fn spec_name(self) -> Seq<char> {
        match self {
            ErrorCode::NoMem => "NoMem"@,
            ErrorCode::Internal => "Internal"@,
            ErrorCode::PathExpr => "PathExpr"@,
            ErrorCode::NoMatch => "NoMatch"@,
            ErrorCode::ManyMatches => "ManyMatches"@,
            ErrorCode::Syntax => "Syntax"@,
            ErrorCode::NoLens => "NoLens"@,
            ErrorCode::MultipleTransforms => "MultipleTransforms"@,
            ErrorCode::NoSpan => "NoSpan"@,
            ErrorCode::MoveDescendant => "MoveDescendant"@,
            ErrorCode::CMDRun => "CMDRun"@,
            ErrorCode::BadArg => "BadArg"@,
            ErrorCode::Label => "Label"@,
            ErrorCode::CopyDescendant => "CopyDescendant"@,
            ErrorCode::Unknown => "Unknown"@,
        }
    }

    /// The name of this code, as it appears in a rendered error.
    pub fn name(self) -> (r: &'static str)
        ensures
            r@ == self.spec_name(),
    {
        match self {
            ErrorCode::NoMem => "NoMem",
            ErrorCode::Internal => "Internal",
            ErrorCode::PathExpr => "PathExpr",
            ErrorCode::NoMatch => "NoMatch",
            ErrorCode::ManyMatches => "ManyMatches",
            ErrorCode::Syntax => "Syntax",
            ErrorCode::NoLens => "NoLens",
            ErrorCode::MultipleTransforms => "MultipleTransforms",
            ErrorCode::NoSpan => "NoSpan",
            ErrorCode::MoveDescendant => "MoveDescendant",
            ErrorCode::CMDRun => "CMDRun",
            ErrorCode::BadArg => "BadArg",
            ErrorCode::Label => "Label",
            ErrorCode::CopyDescendant => "CopyDescendant",
            ErrorCode::Unknown => "Unknown",
        }
    }
}

/// An error reported by the engine through its side channel: a code and
/// up to three descriptive strings, each independently possibly absent.
#[derive(Clone, PartialEq, Eq, Debug)]
pub struct AugeasError {
    /// The typed code.
    pub code: ErrorCode,
    /// The human-readable message.
    pub message: Option<String>,
    /// An elaboration of the message.
    pub minor_message: Option<String>,
    /// Details, such as the text the engine choked on.
    pub details: Option<String>,
}

impl AugeasError {
    /// The error reported when the engine could not produce an
    /// instance at all, so its side channel cannot be read either.
    pub fn new_no_mem(message: &str) -> (r: AugeasError)
        ensures
            r.code == ErrorCode::NoMem,
            r.message matches Some(m) && m@ == message@,
            r.minor_message is None,
            r.details is None,
    {
        AugeasError {
            code: ErrorCode::NoMem,
            message: Some(message.to_owned()),
            minor_message: None,
            details: None,
        }
    }

    /// An error holding a code and nothing else; used where the engine
    /// signalled a failure in-band but left the side channel silent.
    pub fn bare(code: ErrorCode) -> (r: AugeasError)
        ensures
            r == spec_bare_error(code),
    {
        AugeasError { code, message: None, minor_message: None, details: None }
    }

    /// The message, or a placeholder when the engine gave none.
    pub fn description(&self) -> (r: &str)
        ensures
            self.message matches Some(m) ==> r@ == m@,
            self.message is None ==> r@ == "No description"@,
    {
        match &self.message {
            None => "No description",
            Some(s) => s.as_str(),
        }
    }

    /// The text of this error when rendered:
    /// `augeas error:{code}:{message}`, followed by the minor message
    /// and the details, each on an indented line of its own where
    /// present.
    pub open spec fn spec_render(self) -> Seq<char> {
        "augeas error:"@ + self.code.spec_name() + ":"@ + (match self.message {
            Some(m) => m@,
            None => Seq::<char>::empty(),
        }) + "\n"@ + (match self.minor_message {
            Some(m) => "      "@ + m@ + "\n"@,
            None => Seq::<char>::empty(),
        }) + (match self.details {
            Some(d) => "      "@ + d@ + "\n"@,
            None => Seq::<char>::empty(),
        })
    }

    /// Render this error as text, one line per present string.
    pub fn render(&self) -> (r: String)
        ensures
            r@ == self.spec_render(),
    {
        let mut out = String::from_str("augeas error:");
        out.append(self.code.name());
        out.append(":");
        if let Some(message) = &self.message {
            out.append(message.as_str());
        }
        out.append("\n");
        if let Some(minor_message) = &self.minor_message {
            out.append("      ");
            out.append(minor_message.as_str());
            out.append("\n");
        }
        if let Some(details) = &self.details {
            out.append("      ");
            out.append(details.as_str());
            out.append("\n");
        }
        proof {
            assert(out@ =~= self.spec_render());
        }
        out
    }
}

/// An error holding a code and nothing else.
pub open spec fn spec_bare_error(code: ErrorCode) -> AugeasError {
    AugeasError { code, message: None, minor_message: None, details: None }
}

/// A string handed to the engine could not be marshaled because it
/// holds an embedded terminator character.
#[derive(Clone, Copy, PartialEq, Eq, Structural, Debug)]
pub struct NulError {
    /// Index, in characters, of the first embedded terminator.
    pub position: usize,
}

/// A higher-level failure of a bulk text conversion, read from the
/// diagnostic node the engine fills instead of its error channel.
#[derive(Clone, PartialEq, Eq, Debug)]
pub struct ParseError {
    /// The value of the diagnostic node.
    pub kind: String,
}

/// Exactly one error is live per failed operation.
#[derive(Clone, PartialEq, Eq, Debug)]
pub enum Error {
    /// The engine reported an error through its side channel.
    Augeas(AugeasError),
    /// A supplied string held an embedded terminator character.
    Nul(NulError),
    /// A bulk text conversion failed; see the diagnostic node's value.
    Parse(ParseError),
}

impl From<AugeasError> for Error {
    fn from(err: AugeasError) -> (r: Error) {
        Error::Augeas(err)
    }
}

impl vstd::std_specs::convert::FromSpecImpl<AugeasError> for Error {
    open spec fn obeys_from_spec() -> bool {
        true
    }

    open spec fn from_spec(err: AugeasError) -> Error {
        Error::Augeas(err)
    }
}

impl From<NulError> for Error {
    fn from(err: NulError) -> (r: Error) {
        Error::Nul(err)
    }
}

impl vstd::std_specs::convert::FromSpecImpl<NulError> for Error {
    open spec fn obeys_from_spec() -> bool {
        true
    }

    open spec fn from_spec(err: NulError) -> Error {
        Error::Nul(err)
    }
}

/// One reading of the side channel, as [`translate`] interprets it:
/// the sentinel code means no error; any other code becomes a typed
/// error carrying the three strings as they were read.
pub open spec fn spec_translate(
    code: u32,
    message: Option<String>,
    minor_message: Option<String>,
    details: Option<String>,
) -> Option<AugeasError> {
    match spec_from_raw(code) {
        None => None,
        Some(c) => Some(
            AugeasError { code: c, message, minor_message, details },
        ),
    }
}

/// Translate one reading of the engine's error side channel: the raw
/// code, and the three descriptive strings as the engine's
/// introspection calls returned them.
pub fn translate(
    code: u32,
    message: Option<String>,
    minor_message: Option<String>,
    details: Option<String>,
) -> (r: Option<AugeasError>)
    ensures
        r == spec_translate(code, message, minor_message, details),
{
    match ErrorCode::from_raw(code) {
        None => None,
        Some(c) => Some(
            AugeasError { code: c, message, minor_message, details },
        ),
    }
}

/// A move whose destination lies under its source fails with the
/// descendant-move error and nothing else: the engine reports such a
/// move on its side channel with the descendant-move code, and
/// whatever descriptive strings stand beside it, translating that
/// reading always yields an error, and always the typed
/// descendant-move one — so an operation that saw this code can never
/// surface success or another error.
pub proof fn lemma_descendant_move_is_error(
    message: Option<String>,
    minor_message: Option<String>,
    details: Option<String>,
)
    ensures
        spec_translate(10, message, minor_message, details) matches Some(e) && e.code
            == ErrorCode::MoveDescendant,
{
}

/// Turn a call's value and the translated side channel into a result:
/// the value if the channel was silent, the typed error otherwise.
pub fn wrap<T>(value: T, err: Option<AugeasError>) -> (r: Result<T, Error>)
    ensures
        err matches Some(e) ==> r == Result::<T, Error>::Err(Error::Augeas(e)),
        err is None ==> r == Result::<T, Error>::Ok(value),
{
    match err {
        Some(e) => Err(Error::Augeas(e)),
        None => Ok(value),
    }
}

} // verus!
