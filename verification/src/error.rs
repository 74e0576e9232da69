//! The crate's error type: plain descriptions of what went wrong, free of
//! any transport- or platform-specific payload.

use vstd::prelude::*;

verus! {

/// What a fallible operation of this crate reports.
#[derive(Debug)]
pub enum ErrorKind {
    /// Input that could not be understood or used.
    ParseError(String),
    /// The course service answered with a failure the caller must see.
    CourseError(String),
}

impl ErrorKind {
    /// The description the error carries.
    pub open spec fn spec_message(self) -> Seq<char> {
        match self {
            ErrorKind::ParseError(m) => m@,
            ErrorKind::CourseError(m) => m@,
        }
    }

    /// Executable form of [`ErrorKind::spec_message`].
    pub fn message(&self) -> (msg: &String)
        ensures
            msg@ == self.spec_message(),
    {
        match self {
            ErrorKind::ParseError(m) => m,
            ErrorKind::CourseError(m) => m,
        }
    }
}

/// Relies on core::fmt's `Debug` formatting to render a foreign error value
/// as text; the text is informational only.
#[verifier::external_body]
fn debug_text<E: core::fmt::Debug>(err: &E) -> String {
    format!("{:?}", err)
}

/// Wrap a foreign error value (a JavaScript exception, say) into the crate's
/// own error type, keeping its debug rendering as the description.
pub fn js_err_to_string<E: core::fmt::Debug>(err: E) -> (kind: ErrorKind)
    ensures
        kind is ParseError,
{
    ErrorKind::ParseError(debug_text(&err))
}

} // verus!
