//! The inference proxy: translates a user message into an authenticated
//! upstream request, and an upstream outcome (a transport failure, or a
//! status and body) into either the generated text or a tagged error.
//!
//! The network call itself is I/O and sits outside the library: a caller
//! plans the request with [`plan_request`], performs the HTTP exchange, and
//! hands what came back to [`finish_response`].

use vstd::prelude::*;
use vstd::string::*;

use crate::textfmt::json_escaped;
use crate::textfmt::json_escape;
use crate::textfmt::decimal_rep;
use crate::textfmt::u16_to_decimal;

verus! {

/// The fixed upstream endpoint: one hosted text-generation model.
pub open spec fn api_url() -> Seq<char> {
    "https://api-inference.huggingface.co/models/gpt2"@
}

/// The `Authorization` header value for `token`.
pub open spec fn bearer_of(token: Seq<char>) -> Seq<char> {
    "Bearer "@ + token
}

/// The request body carrying `message` verbatim as the `inputs` field.
pub open spec fn payload_of(message: Seq<char>) -> Seq<char> {
    "{\"inputs\":\""@ + json_escaped(message) + "\"}"@
}

/// A 2xx status, the upstream's signal that the body holds a reply.
pub open spec fn status_is_success(status: u16) -> bool {
    200 <= status < 300
}

/// Everything a caller needs to perform the one outbound HTTP call: the
/// endpoint, the `Authorization` header value, and the JSON body.
pub struct InferenceRequest {
    pub url: String,
    pub auth_header: String,
    pub payload: String,
}

/// Why an inference attempt produced no reply, one variant per category:
/// missing credential, transport failure, upstream non-success status, or a
/// response body without the expected text.
#[derive(Clone, Debug, PartialEq, Eq)]
pub enum InferenceError {
    MissingToken,
    Transport(String),
    Upstream { status: u16, body: String },
    TextNotFound,
}

/// The one human-readable string each error is flattened to at the command
/// boundary.
pub open spec fn error_message(e: InferenceError) -> Seq<char> {
    match e {
        InferenceError::MissingToken => "HF_TOKEN not set: environment variable not found"@,
        InferenceError::Transport(detail) => "Failed to send request to Hugging Face API: "@
            + detail@,
        InferenceError::Upstream { status, body } => "Hugging Face API error: "@ + decimal_rep(
            status as int,
        ) + " - "@ + body@,
        InferenceError::TextNotFound => "Generated text not found in response."@,
    }
}

impl InferenceError {
    /// Flattens the error to its descriptive string.
    pub fn message(&self) -> (r: String)
        ensures
            r@ == error_message(*self),
    {
        match self {
            InferenceError::MissingToken => "HF_TOKEN not set: environment variable not found".to_owned(),
            InferenceError::Transport(detail) => {
                let mut r = "Failed to send request to Hugging Face API: ".to_owned();
                r.append(detail.as_str());
                r
            },
            InferenceError::Upstream { status, body } => {
                let mut r = "Hugging Face API error: ".to_owned();
                let num = u16_to_decimal(*status);
                r.append(num.as_str());
                r.append(" - ");
                r.append(body.as_str());
                r
            },
            InferenceError::TextNotFound => "Generated text not found in response.".to_owned(),
        }
    }
}

/// Builds the upstream request for `message`, or reports the missing
/// credential. No request value exists on the error path, so nothing is ever
/// sent for a caller without a token.
pub fn plan_request(message: &str, token: Option<String>) -> (r: Result<
    InferenceRequest,
    InferenceError,
>)
    ensures
        match token {
            None => r == Err::<InferenceRequest, InferenceError>(InferenceError::MissingToken),
            Some(t) => r matches Ok(req) && req.url@ == api_url() && req.auth_header@ == bearer_of(
                t@,
            ) && req.payload@ == payload_of(message@),
        },
{
    match token {
        None => Err(InferenceError::MissingToken),
        Some(t) => {
            let mut auth = "Bearer ".to_owned();
            auth.append(t.as_str());
            let mut payload = "{\"inputs\":\"".to_owned();
            let escaped = json_escape(message);
            payload.append(escaped.as_str());
            payload.append("\"}");
            Ok(
                InferenceRequest {
                    url: "https://api-inference.huggingface.co/models/gpt2".to_owned(),
                    auth_header: auth,
                    payload,
                },
            )
        },
    }
}

/// The generated text inside an upstream success body, if any: what parsing
/// `body` as JSON and reading the string at element 0's `generated_text`
/// field yields. A function of the body alone.
pub uninterp spec fn generated_text_of(body: Seq<char>) -> Option<Seq<char>>;

/// Relies on serde_json: `from_str` parses the body into a JSON value,
/// `Value::get` reads element 0 of an array and then the `generated_text`
/// member of an object (`None` on any shape mismatch), and `Value::as_str`
/// gives the member only if it is a string. All are functions of `body`
/// alone; their composition is named `generated_text_of`.
#[verifier::external_body]
fn extract_generated_text(body: &str) -> (r: Option<String>)
    ensures
        match r {
            Some(t) => generated_text_of(body@) == Some(t@),
            None => generated_text_of(body@) is None,
        },
{
    let parsed: serde_json::Value = match serde_json::from_str(body) {
        Ok(v) => v,
        Err(_) => return None,
    };
    match parsed.get(0).and_then(|e| e.get("generated_text")).and_then(|t| t.as_str()) {
        Some(s) => Some(s.to_owned()),
        None => None,
    }
}

/// Turns an upstream HTTP response into the command result: on a success
/// status the body must carry the generated text, anything else is reported
/// with the status and the raw body.
pub fn handle_upstream_response(status: u16, body: String) -> (r: Result<String, InferenceError>)
    ensures
        !status_is_success(status) ==> r == Err::<String, InferenceError>(
            InferenceError::Upstream { status, body },
        ),
        status_is_success(status) && generated_text_of(body@) is None ==> r == Err::<
            String,
            InferenceError,
        >(InferenceError::TextNotFound),
        status_is_success(status) && generated_text_of(body@) is Some ==> (r matches Ok(t) && Some(
            t@,
        ) == generated_text_of(body@)),
{
    if 200 <= status && status < 300 {
        match extract_generated_text(body.as_str()) {
            Some(text) => Ok(text),
            None => Err(InferenceError::TextNotFound),
        }
    } else {
        Err(InferenceError::Upstream { status, body })
    }
}

/// What one attempt at the outbound HTTP call produced: a response, or a
/// transport-level failure described by the transport's own words.
pub enum UpstreamOutcome {
    Response { status: u16, body: String },
    TransportFailure(String),
}

/// Turns the outcome of the HTTP exchange into the command result. Transport
/// failures keep their description; responses go through
/// [`handle_upstream_response`].
pub fn finish_response(outcome: UpstreamOutcome) -> (r: Result<String, InferenceError>)
    ensures
        match outcome {
            UpstreamOutcome::TransportFailure(detail) => r == Err::<String, InferenceError>(
                InferenceError::Transport(detail),
            ),
            UpstreamOutcome::Response { status, body } => {
                &&& !status_is_success(status) ==> r == Err::<String, InferenceError>(
                    (InferenceError::Upstream { status, body }),
                )
                &&& status_is_success(status) && generated_text_of(body@) is None ==> r == Err::<
                    String,
                    InferenceError,
                >(InferenceError::TextNotFound)
                &&& status_is_success(status) && generated_text_of(body@) is Some ==> (r matches Ok(
                    t,
                ) && Some(t@) == generated_text_of(body@))
            },
        },
{
    match outcome {
        UpstreamOutcome::TransportFailure(detail) => Err(InferenceError::Transport(detail)),
        UpstreamOutcome::Response { status, body } => handle_upstream_response(status, body),
    }
}

} // verus!
