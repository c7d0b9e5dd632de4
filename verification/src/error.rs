use vstd::prelude::*;

verus! {

/// Details of a provider-reported error; both fields are optional on the wire.
#[derive(Debug, Clone, PartialEq)]
pub struct OpenAiErrorDetails {
    pub code: Option<String>,
    pub message: Option<String>,
}

/// The error envelope the provider may return in place of a completion.
#[derive(Debug, Clone, PartialEq)]
pub struct OpenAIError {
    pub error: Option<OpenAiErrorDetails>,
}

/// The closed set of failure kinds of this library. Every failure is
/// surfaced to the caller as one of these; none is swallowed or replaced
/// by a default value.
#[derive(Debug, Clone, PartialEq)]
pub enum TirError {
    /// Transport-level failure (connection, timeout, malformed transport
    /// response) before a well-formed envelope of either known shape was
    /// obtained; carries the transport's own description.
    Request(String),
    /// The provider returned a recognized error envelope.
    OpenAIError(OpenAIError),
    /// A well-formed success envelope contained zero candidates.
    EmptyChoiceVec,
    /// The model's reply broke the machine-parseable score contract: no
    /// `%digits%` marker was present, or its digits exceed the score range.
    ParseContractViolation,
}

} // verus!
