//! What goes over the wire and what may come back. The HTTP call itself is
//! made by the caller: this module says what to send and how to read the
//! outcome.

use vstd::prelude::*;
use vstd::string::*;
use crate::error::HotdogError;
use crate::prompt::{Prompt, PromptView};
use crate::response::PromptResponse;
use crate::wire::{prompt_json, to_json};

verus! {

/// Address of the chat-completion service.
pub const ENDPOINT: &'static str = "https://api.openai.com/v1/chat/completions";

/// Value of the `Content-Type` header.
pub const CONTENT_TYPE: &'static str = "application/json";

/// What the `Authorization` header starts with, ahead of the token.
pub const BEARER: &'static str = "Bearer ";

/// One POST: where it goes, its two headers, and its body, which is the JSON
/// text of a payload.
#[derive(Debug)]
pub struct Request {
    pub url: String,
    pub content_type: String,
    pub authorization: String,
    pub body: String,
}

/// What became of the body of an answer.
#[derive(Debug)]
pub enum Body {
    /// It could not be read.
    Unreadable,
    /// It was read, but is not JSON of the expected shape.
    Malformed,
    /// It was read and decoded.
    Parsed(PromptResponse),
}

/// What became of a request.
#[derive(Debug)]
pub enum Exchange {
    /// No answer arrived.
    Failed,
    /// An answer arrived. Its body counts only under a status in 2xx.
    Answered { status: u16, body: Body },
}

/// Whether a status code reports success.
pub open spec fn is_success(status: u16) -> bool {
    200 <= status < 300
}

/// The decoded answer of an exchange, or the kind of its failure: a missing
/// answer and a status outside 2xx are API failures, whatever the body holds;
/// after that the body decides.
pub open spec fn response_of(exchange: Exchange) -> Result<PromptResponse, HotdogError> {
    match exchange {
        Exchange::Failed => Err(HotdogError::Api),
        Exchange::Answered { status, body } => if !is_success(status) {
            Err(HotdogError::Api)
        } else {
            match body {
                Body::Unreadable => Err(HotdogError::Io),
                Body::Malformed => Err(HotdogError::Json),
                Body::Parsed(response) => Ok(response),
            }
        },
    }
}

/// Forms the value of the `Authorization` header for a bearer token.
pub fn authorization(token: &str) -> (header: String)
    ensures
        header@ == BEARER@ + token@,
{
    String::from_str(BEARER).concat(token)
}

/// Whether `request` carries `prompt` to the service on behalf of `token`.
pub open spec fn carries(request: Request, prompt: PromptView, token: Seq<char>) -> bool {
    &&& request.url@ == ENDPOINT@
    &&& request.content_type@ == CONTENT_TYPE@
    &&& request.authorization@ == BEARER@ + token
    &&& request.body@ == prompt_json(prompt)
}

/// Wraps a payload into the one request that carries it to the service. Every
/// payload has a request, so the result is always `Ok`.
pub fn request_for(prompt: &Prompt, token: &str) -> (request: Result<Request, HotdogError>)
    ensures
        request matches Ok(r) && carries(r, prompt@, token@),
{
    match to_json(prompt) {
        Ok(body) => Ok(
            Request {
                url: String::from_str(ENDPOINT),
                content_type: String::from_str(CONTENT_TYPE),
                authorization: authorization(token),
                body,
            },
        ),
        Err(e) => Err(e),
    }
}

/// Takes the decoded answer out of an exchange, or names the failure.
pub fn send_prompt(exchange: Exchange) -> (result: Result<PromptResponse, HotdogError>)
    ensures
        result == response_of(exchange),
{
    match exchange {
        Exchange::Failed => Err(HotdogError::Api),
        Exchange::Answered { status, body } => {
            if status < 200 || status >= 300 {
                return Err(HotdogError::Api);
            }
            match body {
                Body::Unreadable => Err(HotdogError::Io),
                Body::Malformed => Err(HotdogError::Json),
                Body::Parsed(response) => Ok(response),
            }
        },
    }
}

} // verus!
