//! Decision rules of the path-expression operations.
//!
//! Every operation follows the same protocol: marshal the string
//! arguments, invoke the engine primitive, then decide the typed result
//! from what came back — the in-band return value, any returned
//! strings, and the translated error side channel. The unverified shim
//! performs the call; each decision stands here, as a function from
//! those plain values to the operation's documented result.

use vstd::prelude::*;
use vstd::string::StringExecFns;

use crate::error::{spec_bare_error, AugeasError, Error, ErrorCode, ParseError};

verus! {

/// Where `insert` creates the new sibling relative to the matched
/// node.
#[derive(Clone, Copy, PartialEq, Eq, Structural, Debug)]
pub enum Position {
    /// Immediately before the matched node.
    Before,
    /// Immediately after the matched node.
    After,
}

impl Position {
    /// The engine's convention for the in-band selector: nonzero means
    /// "before".
    pub open spec fn spec_flag(self) -> u32 {
        match self {
            Position::Before => 1,
            Position::After => 0,
        }
    }

    /// The engine's convention for the in-band selector: nonzero means
    /// "before".
    #[verifier::when_used_as_spec(spec_flag)]
    pub fn flag(self) -> (r: u32)
        ensures
            r == self.spec_flag(),
    {
        match self {
            Position::Before => 1,
            Position::After => 0,
        }
    }
}

/// A half-open byte range in the text a node was read from.
#[derive(Clone, Copy, PartialEq, Eq, Structural, Debug)]
pub struct SpanRange {
    /// First byte of the region.
    pub start: u32,
    /// One past the last byte of the region.
    pub end: u32,
}

/// Where in its source text a node was read: byte ranges of the label,
/// of the value and of the whole region, and the source file if the
/// engine reported one.
#[derive(Clone, PartialEq, Eq, Debug)]
pub struct Span {
    /// Range of the node's label.
    pub label: SpanRange,
    /// Range of the node's value.
    pub value: SpanRange,
    /// Range of the node's whole region.
    pub span: SpanRange,
    /// Path of the file the node was read from.
    pub filename: Option<String>,
}

/// One member of a namespace variable's result set; each field is
/// independently optional.
#[derive(Clone, PartialEq, Eq, Debug)]
pub struct Attr {
    /// The node's label.
    pub label: Option<String>,
    /// The node's value.
    pub value: Option<String>,
    /// The file the node originates from.
    pub file_path: Option<String>,
}

/// Decide the result of session creation: `got_instance` says whether
/// the engine produced an instance. A null instance leaves no side
/// channel to read, so it is reported as an initialization
/// (out-of-memory) failure.
pub fn init_outcome(got_instance: bool) -> (r: Result<(), Error>)
    ensures
        got_instance ==> r is Ok,
        !got_instance ==> (r matches Err(e) ==> e matches Error::Augeas(a) && {
            &&& a.code == ErrorCode::NoMem
            &&& (a.message matches Some(m) && m@ == "Failed to initialize Augeas"@)
            &&& a.minor_message is None
            &&& a.details is None
        }),
        !got_instance ==> r is Err,
{
    if got_instance {
        Ok(())
    } else {
        Err(Error::Augeas(AugeasError::new_no_mem("Failed to initialize Augeas")))
    }
}

/// Decide the result of an operation whose in-band return is a count
/// (`matches`, `count`, `rm`, `setm`): the side channel wins, a
/// non-negative count is the result, and a negative count beside a
/// silent channel is an internal engine inconsistency.
pub fn count_outcome(ret: i32, err: Option<AugeasError>) -> (r: Result<usize, Error>)
    ensures
        err matches Some(e) ==> r == Result::<usize, Error>::Err(Error::Augeas(e)),
        err is None && ret >= 0 ==> r == Result::<usize, Error>::Ok(ret as usize),
        err is None && ret < 0 ==> r == Result::<usize, Error>::Err(
            Error::Augeas(spec_bare_error(ErrorCode::Internal)),
        ),
{
    match err {
        Some(e) => Err(Error::Augeas(e)),
        None => if ret >= 0 {
            Ok(ret as usize)
        } else {
            Err(Error::Augeas(AugeasError::bare(ErrorCode::Internal)))
        },
    }
}

/// Decide the result of `span`, which must tell three outcomes apart: a
/// no-span error code means the node simply has no span information (a
/// successful absent result), any other error is surfaced, and a silent
/// channel makes the six positions and the file name the span.
pub fn span_outcome(
    err: Option<AugeasError>,
    filename: Option<String>,
    label_start: u32,
    label_end: u32,
    value_start: u32,
    value_end: u32,
    span_start: u32,
    span_end: u32,
) -> (r: Result<Option<Span>, Error>)
    ensures
        err matches Some(e) ==> r == (if e.code == ErrorCode::NoSpan {
            Result::<Option<Span>, Error>::Ok(None)
        } else {
            Result::<Option<Span>, Error>::Err(Error::Augeas(e))
        }),
        err is None ==> r == Result::<Option<Span>, Error>::Ok(
            Some(
                Span {
                    label: SpanRange { start: label_start, end: label_end },
                    value: SpanRange { start: value_start, end: value_end },
                    span: SpanRange { start: span_start, end: span_end },
                    filename,
                },
            ),
        ),
{
    match err {
        Some(e) => if e.code == ErrorCode::NoSpan {
            Ok(None)
        } else {
            Err(Error::Augeas(e))
        },
        None => Ok(
            Some(
                Span {
                    label: SpanRange { start: label_start, end: label_end },
                    value: SpanRange { start: value_start, end: value_end },
                    span: SpanRange { start: span_start, end: span_end },
                    filename,
                },
            ),
        ),
    }
}

/// Decide the result of `defnode`: the side channel wins, a negative
/// in-band count beside a silent channel is an internal inconsistency,
/// and otherwise the `created` out-parameter says whether a node was
/// created (`true`) or an existing set was bound (`false`).
pub fn defnode_outcome(ret: i32, created: i32, err: Option<AugeasError>) -> (r: Result<
    bool,
    Error,
>)
    ensures
        err matches Some(e) ==> r == Result::<bool, Error>::Err(Error::Augeas(e)),
        err is None && ret >= 0 ==> r == Result::<bool, Error>::Ok(created != 0),
        err is None && ret < 0 ==> r == Result::<bool, Error>::Err(
            Error::Augeas(spec_bare_error(ErrorCode::Internal)),
        ),
{
    match err {
        Some(e) => Err(Error::Augeas(e)),
        None => if ret >= 0 {
            Ok(created != 0)
        } else {
            Err(Error::Augeas(AugeasError::bare(ErrorCode::Internal)))
        },
    }
}

/// Decide the result of `ns_attr`: the side channel wins; an in-band
/// return below one beside a silent channel means the variable is
/// unbound or the index is out of range, which surfaces as a no-match
/// error; otherwise the three strings form the attribute record.
pub fn ns_attr_outcome(
    ret: i32,
    err: Option<AugeasError>,
    label: Option<String>,
    value: Option<String>,
    file_path: Option<String>,
) -> (r: Result<Attr, Error>)
    ensures
        err matches Some(e) ==> r == Result::<Attr, Error>::Err(Error::Augeas(e)),
        err is None && ret >= 1 ==> r == Result::<Attr, Error>::Ok(
            Attr { label, value, file_path },
        ),
        err is None && ret < 1 ==> r == Result::<Attr, Error>::Err(
            Error::Augeas(spec_bare_error(ErrorCode::NoMatch)),
        ),
{
    match err {
        Some(e) => Err(Error::Augeas(e)),
        None => if ret >= 1 {
            Ok(Attr { label, value, file_path })
        } else {
            Err(Error::Augeas(AugeasError::bare(ErrorCode::NoMatch)))
        },
    }
}

/// Decide the result of `ns_label`: as [`ns_attr_outcome`], except that
/// success owes a present label, so an absent one also surfaces as a
/// no-match error.
pub fn ns_label_outcome(ret: i32, err: Option<AugeasError>, label: Option<String>) -> (r: Result<
    String,
    Error,
>)
    ensures
        err matches Some(e) ==> r == Result::<String, Error>::Err(Error::Augeas(e)),
        err is None && ret >= 1 ==> (label matches Some(l) ==> r == Result::<String, Error>::Ok(
            l,
        )),
        err is None && (ret < 1 || label is None) ==> r == Result::<String, Error>::Err(
            Error::Augeas(spec_bare_error(ErrorCode::NoMatch)),
        ),
{
    match err {
        Some(e) => Err(Error::Augeas(e)),
        None => if ret >= 1 {
            match label {
                Some(l) => Ok(l),
                None => Err(Error::Augeas(AugeasError::bare(ErrorCode::NoMatch))),
            }
        } else {
            Err(Error::Augeas(AugeasError::bare(ErrorCode::NoMatch)))
        },
    }
}

/// Decide the result of `ns_index`: as [`ns_attr_outcome`], except that
/// success owes a non-negative index, so a negative one also surfaces
/// as a no-match error.
pub fn ns_index_outcome(ret: i32, err: Option<AugeasError>, index: i32) -> (r: Result<
    usize,
    Error,
>)
    ensures
        err matches Some(e) ==> r == Result::<usize, Error>::Err(Error::Augeas(e)),
        err is None && ret >= 1 && index >= 0 ==> r == Result::<usize, Error>::Ok(index as usize),
        err is None && (ret < 1 || index < 0) ==> r == Result::<usize, Error>::Err(
            Error::Augeas(spec_bare_error(ErrorCode::NoMatch)),
        ),
{
    match err {
        Some(e) => Err(Error::Augeas(e)),
        None => if ret >= 1 && index >= 0 {
            Ok(index as usize)
        } else {
            Err(Error::Augeas(AugeasError::bare(ErrorCode::NoMatch)))
        },
    }
}

/// Decide the result of `ns_value` and of `ns_path`: as
/// [`ns_attr_outcome`], with the possibly absent string as the result.
pub fn ns_string_outcome(ret: i32, err: Option<AugeasError>, value: Option<String>) -> (r: Result<
    Option<String>,
    Error,
>)
    ensures
        err matches Some(e) ==> r == Result::<Option<String>, Error>::Err(Error::Augeas(e)),
        err is None && ret >= 1 ==> r == Result::<Option<String>, Error>::Ok(value),
        err is None && ret < 1 ==> r == Result::<Option<String>, Error>::Err(
            Error::Augeas(spec_bare_error(ErrorCode::NoMatch)),
        ),
{
    match err {
        Some(e) => Err(Error::Augeas(e)),
        None => if ret >= 1 {
            Ok(value)
        } else {
            Err(Error::Augeas(AugeasError::bare(ErrorCode::NoMatch)))
        },
    }
}

/// Decide the result of `ns_count`: the side channel wins; a negative
/// in-band count beside a silent channel means the variable is unbound,
/// which surfaces as a no-match error.
pub fn ns_count_outcome(ret: i32, err: Option<AugeasError>) -> (r: Result<usize, Error>)
    ensures
        err matches Some(e) ==> r == Result::<usize, Error>::Err(Error::Augeas(e)),
        err is None && ret >= 0 ==> r == Result::<usize, Error>::Ok(ret as usize),
        err is None && ret < 0 ==> r == Result::<usize, Error>::Err(
            Error::Augeas(spec_bare_error(ErrorCode::NoMatch)),
        ),
{
    match err {
        Some(e) => Err(Error::Augeas(e)),
        None => if ret >= 0 {
            Ok(ret as usize)
        } else {
            Err(Error::Augeas(AugeasError::bare(ErrorCode::NoMatch)))
        },
    }
}

/// Accept the engine's match array once each element was copied into a
/// host value: the result keeps every path in document order. The
/// engine owes a path for every reported match, so an absent element
/// is an internal engine inconsistency, not a value.
pub fn collect_paths(items: Vec<Option<String>>) -> (r: Result<Vec<String>, Error>)
    ensures
        r matches Ok(v) ==> {
            &&& v@.len() == items@.len()
            &&& forall|i: int|
                0 <= i < items@.len() ==> ((#[trigger] items@[i]) matches Some(s) && v@[i] == s)
        },
        r is Err <==> exists|i: int| 0 <= i < items@.len() && items@[i] is None,
        r is Err ==> r == Result::<Vec<String>, Error>::Err(
            Error::Augeas(spec_bare_error(ErrorCode::Internal)),
        ),
{
    let n = items.len();
    let mut out: Vec<String> = Vec::new();
    let mut i: usize = 0;
    while i < n
        invariant
            n == items@.len(),
            i <= n,
            out@.len() == i,
            forall|j: int| 0 <= j < i ==> ((#[trigger] items@[j]) matches Some(s) && out@[j] == s),
        decreases n - i,
    {
        match &items[i] {
            Some(s) => out.push(s.clone()),
            None => {
                return Err(Error::Augeas(AugeasError::bare(ErrorCode::Internal)));
            },
        }
        i = i + 1;
    }
    Ok(out)
}

/// Path of the diagnostic node the engine fills when a bulk text
/// conversion at `path` fails to parse.
pub fn text_error_path(path: &str) -> (r: String)
    ensures
        r@ == "/augeas/text"@ + path@ + "/error"@,
{
    let mut out = String::from_str("/augeas/text");
    out.append(path);
    out.append("/error");
    proof {
        assert(out@ =~= "/augeas/text"@ + path@ + "/error"@);
    }
    out
}

/// Decide the result of a bulk text conversion from its epilogue: a
/// present diagnostic value is preferred over the native channel and
/// surfaces as a parse error; otherwise the channel decides.
pub fn text_outcome(err: Option<AugeasError>, diagnostic: Option<String>) -> (r: Result<
    (),
    Error,
>)
    ensures
        diagnostic matches Some(kind) ==> r == Result::<(), Error>::Err(
            Error::Parse(ParseError { kind }),
        ),
        diagnostic is None ==> (err matches Some(e) ==> r == Result::<(), Error>::Err(
            Error::Augeas(e),
        )),
        diagnostic is None && err is None ==> r is Ok,
{
    match diagnostic {
        Some(kind) => Err(Error::Parse(ParseError { kind })),
        None => match err {
            Some(e) => Err(Error::Augeas(e)),
            None => Ok(()),
        },
    }
}

} // verus!
