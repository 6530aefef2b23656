//! The error taxonomy of the dispatch pipeline.

use vstd::prelude::*;
use vstd::string::StringExecFns;

verus! {

/// Everything that can abort one dispatch. Any of these moves the
/// dispatch to its failed terminal state; none is retried.
#[derive(Clone, Copy, Debug, PartialEq, Eq, Structural)]
pub enum PipelineError {
    /// The HTTP round trip itself failed.
    Transport,
    /// The response body is not valid JSON (or not valid UTF-8).
    Deserialize,
    /// The response JSON carries no usable `result` field.
    NoResult,
    /// A numeric result is not a well-formed hexadecimal numeral, or
    /// its value does not fit the arithmetic of the pipeline.
    ParseError,
    /// A call payload does not begin with the expected selector.
    SelectorMismatch,
    /// A call payload field cannot be read from its word.
    MalformedField,
    /// An address string is not twenty bytes of hexadecimal digits.
    AddressParse,
    /// The private key was rejected, or the transaction cannot be
    /// signed at all (a chain id too large to bind).
    Signing,
}

impl PipelineError {
    /// The human-readable detail of the error.
    pub open spec fn message_view(self) -> Seq<char> {
        match self {
            PipelineError::Transport => "transport failure"@,
            PipelineError::Deserialize => "response is not valid JSON"@,
            PipelineError::NoResult => "response carries no result"@,
            PipelineError::ParseError => "malformed hexadecimal numeral"@,
            PipelineError::SelectorMismatch => "call payload has a mismatched selector"@,
            PipelineError::MalformedField => "call payload has a malformed field"@,
            PipelineError::AddressParse => "malformed address"@,
            PipelineError::Signing => "signing failed"@,
        }
    }

    /// The human-readable detail of the error.
    pub fn message(&self) -> (r: String)
        ensures
            r@ == self.message_view(),
    {
        match self {
            PipelineError::Transport => String::from_str("transport failure"),
            PipelineError::Deserialize => String::from_str("response is not valid JSON"),
            PipelineError::NoResult => String::from_str("response carries no result"),
            PipelineError::ParseError => String::from_str("malformed hexadecimal numeral"),
            PipelineError::SelectorMismatch => String::from_str(
                "call payload has a mismatched selector",
            ),
            PipelineError::MalformedField => String::from_str("call payload has a malformed field"),
            PipelineError::AddressParse => String::from_str("malformed address"),
            PipelineError::Signing => String::from_str("signing failed"),
        }
    }
}

} // verus!
