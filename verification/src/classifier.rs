//! The classification from end to end, around the one HTTP call that the
//! caller makes: first the request for an image, then the reading of the
//! exchange.

use vstd::prelude::*;
use crate::base64::{base64_encode, encode};
use crate::error::HotdogError;
use crate::prompt::{hotdog_prompt, hotdog_prompt_of};
use crate::response::{is_yes, verdict, verdict_of, PromptResponse};
use crate::wire::{hotdog_body, lemma_hotdog_wire_form};
use crate::transport::{
    carries, is_success, request_for, response_of, send_prompt, Body, Exchange, Request,
};

verus! {

/// The answer that an exchange gives: its failure if it has one, else the
/// verdict of the decoded answer.
pub open spec fn classification_of(exchange: Exchange) -> Result<bool, HotdogError> {
    match response_of(exchange) {
        Ok(response) => verdict_of(response),
        Err(e) => Err(e),
    }
}

/// Builds the request that asks whether the image with these bytes shows a
/// hot dog. The image travels inside the payload, as a data URI of its Base64
/// text. Every image has a request, so the result is always `Ok`.
pub fn classification_request(image: &[u8], token: &str) -> (request: Result<
    Request,
    HotdogError,
>)
    ensures
        request matches Ok(r) && carries(r, hotdog_prompt_of(encode(image@)), token@),
        request matches Ok(r) && r.body@ == hotdog_body(encode(image@)),
{
    proof {
        lemma_hotdog_wire_form(encode(image@));
    }
    let encoded = base64_encode(image);
    let prompt = hotdog_prompt(encoded.as_str());
    request_for(&prompt, token)
}

/// Reads the classification out of an exchange: `true` for a hot dog, `false`
/// for anything else, or the kind of failure.
pub fn hotdog_or_not_hotdog(exchange: Exchange) -> (result: Result<bool, HotdogError>)
    ensures
        result == classification_of(exchange),
{
    match send_prompt(exchange) {
        Ok(response) => verdict(&response),
        Err(e) => Err(e),
    }
}

/// Each failure keeps its kind: no answer, or a status outside 2xx, is an API
/// error whatever the body holds; under a status in 2xx an unreadable body is
/// an I/O error, a malformed one a serialization error, and a decoded answer
/// without choices a mismatch.
pub proof fn lemma_error_kinds(status: u16, body: Body)
    ensures
        classification_of(Exchange::Failed) == Err::<bool, HotdogError>(HotdogError::Api),
        !is_success(status) ==> classification_of((Exchange::Answered { status, body }))
            == Err::<bool, HotdogError>(HotdogError::Api),
        is_success(status) && body is Unreadable ==> classification_of(
            (Exchange::Answered { status, body }),
        ) == Err::<bool, HotdogError>(HotdogError::Io),
        is_success(status) && body is Malformed ==> classification_of(
            (Exchange::Answered { status, body }),
        ) == Err::<bool, HotdogError>(HotdogError::Json),
        is_success(status) && body is Parsed && body->Parsed_0.choices@.len() == 0
            ==> classification_of((Exchange::Answered { status, body })) == Err::<bool, HotdogError>(
            HotdogError::MismatchMessage,
        ),
{
}

/// A decoded answer under a status in 2xx whose first choice is plain text
/// classifies as a hot dog exactly when that text is `yes` in any mix of
/// capital and small letters.
pub proof fn lemma_answer(status: u16, response: PromptResponse)
    requires
        is_success(status),
        response.choices@.len() > 0,
        response.choices@[0].message is Chat,
    ensures
        classification_of((Exchange::Answered { status, body: Body::Parsed(response) })) == Ok::<
            bool,
            HotdogError,
        >(is_yes(response.choices@[0].message->Chat_0.content@)),
{
}

} // verus!
