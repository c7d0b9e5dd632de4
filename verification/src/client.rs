use crate::error::{OpenAIError, TirError};
use vstd::prelude::*;
use vstd::string::*;

verus! {

/// One message of a chat-completion request: a role (`system` or `user`)
/// and its text content.
#[derive(Debug, Clone, PartialEq)]
pub struct OpenAIRequestMessage {
    pub role: String,
    pub content: String,
}

impl OpenAIRequestMessage {
    pub fn from_parts(role: String, content: String) -> (r: Self)
        ensures
            r.role == role,
            r.content == content,
    {
        Self { role, content }
    }

    pub fn with_system_role(content: String) -> (r: Self)
        ensures
            r.role@ == "system"@,
            r.content == content,
    {
        Self { role: String::from_str("system"), content }
    }

    pub fn with_user_role(content: String) -> (r: Self)
        ensures
            r.role@ == "user"@,
            r.content == content,
    {
        Self { role: String::from_str("user"), content }
    }
}

/// The full request payload for one completion call: the message list, the
/// token budget, and the fixed model identifier.
#[derive(Debug, Clone, PartialEq)]
pub struct OpenAIRequest {
    pub messages: Vec<OpenAIRequestMessage>,
    pub max_tokens: u32,
    pub model: String,
}

/// One candidate completion's message.
#[derive(Debug, Clone, PartialEq)]
pub struct ChoiceMessage {
    pub role: String,
    pub content: String,
}

/// One candidate completion within a response.
#[derive(Debug, Clone, PartialEq)]
pub struct Choice {
    pub message: ChoiceMessage,
}

/// A successful completion response: the ordered list of candidates.
#[derive(Debug, Clone, PartialEq)]
pub struct OpenAIResponse {
    pub choices: Vec<Choice>,
}

/// The two shapes a well-formed provider reply can take, as a tagged union:
/// exactly one of them holds for a given reply, decided by a single
/// discriminated decode rather than sequential best-effort attempts.
#[derive(Debug, Clone, PartialEq)]
pub enum ProviderEnvelope {
    /// A success envelope: `choices` was present.
    Success(OpenAIResponse),
    /// A provider-error envelope: an `error` object was present.
    Failure(OpenAIError),
}

/// The transport client: owns the credential for the completion endpoint.
/// It holds no other state, so repeated calls with identical input are
/// interpreted identically (see [`lemma_send_idempotent`]).
#[derive(Debug, Clone, PartialEq)]
pub struct Client {
    pub secret_key: String,
}

/// What a transport outcome means: a success envelope yields its response
/// unchanged; a provider-error envelope yields [`TirError::OpenAIError`];
/// a transport-level failure yields [`TirError::Request`].
pub open spec fn interpret_spec(outcome: Result<ProviderEnvelope, String>) -> Result<
    OpenAIResponse,
    TirError,
> {
    match outcome {
        Ok(ProviderEnvelope::Success(resp)) => Ok(resp),
        Ok(ProviderEnvelope::Failure(err)) => Err(TirError::OpenAIError(err)),
        Err(msg) => Err(TirError::Request(msg)),
    }
}

impl Client {
    pub fn new(secret_key: String) -> (r: Self)
        ensures
            r.secret_key == secret_key,
    {
        Self { secret_key }
    }

    /// Build the payload for one request/response cycle: the given messages
    /// and token budget under the fixed model identifier.
    pub fn build_request(&self, messages: Vec<OpenAIRequestMessage>, max_tokens: u32) -> (r:
        OpenAIRequest)
        ensures
            r.messages == messages,
            r.max_tokens == max_tokens,
            r.model@ == "gpt-3.5-turbo"@,
    {
        OpenAIRequest { messages, max_tokens, model: String::from_str("gpt-3.5-turbo") }
    }

    /// Turn the outcome of the network exchange into the library's result:
    /// the exact mapping is [`interpret_spec`]. No retry, no recovery.
    pub fn interpret_reply(&self, outcome: Result<ProviderEnvelope, String>) -> (r: Result<
        OpenAIResponse,
        TirError,
    >)
        ensures
            r == interpret_spec(outcome),
    {
        match outcome {
            Ok(ProviderEnvelope::Success(resp)) => Ok(resp),
            Ok(ProviderEnvelope::Failure(err)) => Err(TirError::OpenAIError(err)),
            Err(msg) => Err(TirError::Request(msg)),
        }
    }
}

/// Law: a reply decoded as a success envelope is returned as-is, so a
/// response carrying N candidates yields exactly those N candidates, in
/// their original order.
pub proof fn lemma_success_preserves_candidates(resp: OpenAIResponse)
    ensures
        interpret_spec(Ok(ProviderEnvelope::Success(resp))) == Ok::<
            OpenAIResponse,
            TirError,
        >(resp),
        interpret_spec(Ok(ProviderEnvelope::Success(resp)))->Ok_0.choices@ == resp.choices@,
{
}

/// Law: a reply decoded as a provider-error envelope surfaces as
/// [`TirError::OpenAIError`] with the embedded details, never as a panic
/// and never as an empty default; in particular this is what a provider's
/// rejection of an empty message list becomes.
pub proof fn lemma_provider_error_surfaces(err: OpenAIError)
    ensures
        interpret_spec(Ok(ProviderEnvelope::Failure(err))) == Err::<
            OpenAIResponse,
            TirError,
        >(TirError::OpenAIError(err)),
{
}

/// Law: sending is free of hidden state. The request payload and the
/// interpretation of the provider's reply are pinned by the contracts of
/// [`Client::build_request`] and [`Client::interpret_reply`] as functions
/// of their arguments alone, so two calls with identical input against a
/// provider that answers identically return identical output.
pub proof fn lemma_send_idempotent(
    outcome: Result<ProviderEnvelope, String>,
    r1: Result<OpenAIResponse, TirError>,
    r2: Result<OpenAIResponse, TirError>,
)
    requires
        r1 == interpret_spec(outcome),
        r2 == interpret_spec(outcome),
    ensures
        r1 == r2,
{
}

} // verus!
