//! What goes out to the inference provider and how its reply is judged.
//!
//! The transport itself is the caller's business: the caller posts
//! [`CompletionRequest::body`] to [`endpoint`] and reports what happened as a
//! [`ProviderReply`].

use vstd::prelude::*;
use vstd::string::StringExecFns;

use crate::ai::model::ModelSelection;
use crate::ai::model::ModelType;

verus! {

/// Why a provider call failed.
#[derive(Debug, PartialEq, Eq)]
pub enum NetworkError {
    /// No response arrived; the text is the transport's account of it.
    Connection(String),
    /// The provider answered with this status, which is not a success.
    Status(u16),
    /// The provider answered with a success, but the body could not be read.
    Body(String),
}

/// The mathematical value of a [`NetworkError`].
pub enum NetworkErrorView {
    Connection(Seq<char>),
    Status(u16),
    Body(Seq<char>),
}

impl View for NetworkError {
    type V = NetworkErrorView;

    open spec fn view(&self) -> NetworkErrorView {
        match self {
            NetworkError::Connection(detail) => NetworkErrorView::Connection(detail@),
            NetworkError::Status(status) => NetworkErrorView::Status(*status),
            NetworkError::Body(detail) => NetworkErrorView::Body(detail@),
        }
    }
}

/// What the transport observed after one POST.
#[derive(Debug, PartialEq, Eq)]
pub enum ProviderReply {
    /// No response arrived.
    ConnectionFailed(String),
    /// A response arrived and its body was read in full.
    Response { status: u16, body: String },
    /// A response arrived, but reading its body failed.
    UnreadableBody { status: u16, detail: String },
}

/// The mathematical value of a [`ProviderReply`].
pub enum ProviderReplyView {
    ConnectionFailed(Seq<char>),
    Response { status: u16, body: Seq<char> },
    UnreadableBody { status: u16, detail: Seq<char> },
}

impl View for ProviderReply {
    type V = ProviderReplyView;

    open spec fn view(&self) -> ProviderReplyView {
        match self {
            ProviderReply::ConnectionFailed(detail) => ProviderReplyView::ConnectionFailed(detail@),
            ProviderReply::Response { status, body } => ProviderReplyView::Response {
                status: *status,
                body: body@,
            },
            ProviderReply::UnreadableBody { status, detail } => ProviderReplyView::UnreadableBody {
                status: *status,
                detail: detail@,
            },
        }
    }
}

/// Whether an HTTP status code reports success.
pub open spec fn is_success(status: u16) -> bool {
    200 <= status <= 299
}

impl ProviderReplyView {
    /// The response text that a reply carries, or the error that it amounts
    /// to. The status is looked at before the body.
    pub open spec fn outcome(self) -> Result<Seq<char>, NetworkErrorView> {
        match self {
            ProviderReplyView::ConnectionFailed(detail) => Err(
                NetworkErrorView::Connection(detail),
            ),
            ProviderReplyView::Response { status, body } => if is_success(status) {
                Ok(body)
            } else {
                Err(NetworkErrorView::Status(status))
            },
            ProviderReplyView::UnreadableBody { status, detail } => if is_success(status) {
                Err(NetworkErrorView::Body(detail))
            } else {
                Err(NetworkErrorView::Status(status))
            },
        }
    }
}

/// The mathematical value of the result of a provider call.
pub open spec fn outcome_view(outcome: Result<String, NetworkError>) -> Result<
    Seq<char>,
    NetworkErrorView,
> {
    match outcome {
        Ok(text) => Ok(text@),
        Err(error) => Err(error@),
    }
}

impl ProviderReply {
    /// Judges a reply: the full body of a successful response, or the error.
    pub fn into_outcome(self) -> (outcome: Result<String, NetworkError>)
        ensures
            outcome_view(outcome) == self@.outcome(),
    {
        match self {
            ProviderReply::ConnectionFailed(detail) => Err(NetworkError::Connection(detail)),
            ProviderReply::Response { status, body } => {
                if 200 <= status && status <= 299 {
                    Ok(body)
                } else {
                    Err(NetworkError::Status(status))
                }
            },
            ProviderReply::UnreadableBody { status, detail } => {
                if 200 <= status && status <= 299 {
                    Err(NetworkError::Body(detail))
                } else {
                    Err(NetworkError::Status(status))
                }
            },
        }
    }
}

/// The address that every completion request is posted to.
pub fn endpoint() -> (url: &'static str)
    ensures
        url@ == "http://localhost:11434/api/generate"@,
{
    "http://localhost:11434/api/generate"
}

/// The text that `serde_json` writes for the JSON object with the two given
/// members, each value a JSON string.
pub uninterp spec fn json_object_text(
    first_key: Seq<char>,
    first_value: Seq<char>,
    second_key: Seq<char>,
    second_value: Seq<char>,
) -> Seq<char>;

/// Serialises a JSON object of two string members.
///
/// Trusted: the body builds a `serde_json::Value::Object` and renders it with
/// the `Display` impl of `serde_json::Value`, which writes compact JSON and
/// cannot fail on string keys and string values. The contract only gives that
/// rendering a name: the same four texts always yield the same text.
#[verifier::external_body]
fn json_object(first_key: &str, first_value: &str, second_key: &str, second_value: &str) -> (text:
    String)
    ensures
        text@ == json_object_text(first_key@, first_value@, second_key@, second_value@),
{
    let mut members = serde_json::Map::new();
    members.insert(first_key.to_string(), serde_json::Value::String(first_value.to_string()));
    members.insert(second_key.to_string(), serde_json::Value::String(second_value.to_string()));
    serde_json::Value::Object(members).to_string()
}

/// The body of the request that asks `model` to complete `prompt`.
pub open spec fn request_body_text(prompt: Seq<char>, model: ModelSelection) -> Seq<char> {
    json_object_text("model"@, model.name(), "prompt"@, prompt)
}

/// One completion request: the input text and the model that was current
/// when the request was made.
#[derive(Debug, PartialEq, Eq)]
pub struct CompletionRequest {
    pub prompt: String,
    pub model: ModelType,
}

/// The mathematical value of a [`CompletionRequest`].
pub struct CompletionRequestView {
    pub prompt: Seq<char>,
    pub model: ModelSelection,
}

impl View for CompletionRequest {
    type V = CompletionRequestView;

    open spec fn view(&self) -> CompletionRequestView {
        CompletionRequestView { prompt: self.prompt@, model: self.model@ }
    }
}

impl CompletionRequest {
    /// The JSON document to post: the prompt and the model's identifier.
    pub fn body(&self) -> (body: String)
        ensures
            body@ == request_body_text(self@.prompt, self@.model),
    {
        let name = self.model.name();
        json_object("model", name.as_str(), "prompt", self.prompt.as_str())
    }
}

} // verus!
