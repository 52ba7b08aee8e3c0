//! The answer of the chat-completion service and what it says about the image.

use vstd::prelude::*;
use vstd::string::*;
use crate::error::HotdogError;
use crate::prompt::Message;

verus! {

/// Token counts reported by the service.
#[derive(Debug)]
pub struct Usage {
    pub completion_tokens: u32,
    pub prompt_tokens: u32,
    pub total_tokens: u32,
}

/// Why the service stopped writing, in its detailed form.
#[derive(Debug)]
pub struct FinishDetails {
    pub kind: String,
    pub stop: String,
}

/// One candidate answer.
#[derive(Debug)]
pub struct Choice {
    pub finish_details: Option<FinishDetails>,
    pub finish_reason: Option<String>,
    pub index: u32,
    pub message: Message,
}

/// The envelope of an answer. Only the first choice's text is looked at.
#[derive(Debug)]
pub struct PromptResponse {
    pub choices: Vec<Choice>,
    pub created: u64,
    pub id: String,
    pub model: String,
    pub object: String,
    pub usage: Usage,
}

/// `c` with an ASCII capital letter replaced by its small letter.
pub open spec fn ascii_lower(c: char) -> char {
    if 'A' <= c <= 'Z' {
        (c as u8 + 32) as u8 as char
    } else {
        c
    }
}

/// `text` with every ASCII capital letter replaced by its small letter.
pub open spec fn ascii_lowercase(text: Seq<char>) -> Seq<char> {
    Seq::new(text.len(), |i: int| ascii_lower(text[i]))
}

/// Whether `content` is the word `yes` in any mix of capital and small
/// letters, with nothing before or after it.
pub open spec fn is_yes(content: Seq<char>) -> bool {
    ascii_lowercase(content) == "yes"@
}

/// What an answer says: the first choice must be plain text, and that text
/// decides.
pub open spec fn verdict_of(response: PromptResponse) -> Result<bool, HotdogError> {
    if response.choices@.len() == 0 {
        Err(HotdogError::MismatchMessage)
    } else {
        match response.choices@[0].message {
            Message::Chat(m) => Ok(is_yes(m.content@)),
            Message::Vision(_) => Err(HotdogError::MismatchMessage),
        }
    }
}

/// `is_yes`, letter by letter.
pub proof fn lemma_is_yes(content: Seq<char>)
    ensures
        is_yes(content) <==> {
            &&& content.len() == 3
            &&& (content[0] == 'y' || content[0] == 'Y')
            &&& (content[1] == 'e' || content[1] == 'E')
            &&& (content[2] == 's' || content[2] == 'S')
        },
{
    reveal_strlit("yes");
    let low = ascii_lowercase(content);
    if is_yes(content) {
        assert(low.len() == 3);
        assert(low[0] == 'y' && low[1] == 'e' && low[2] == 's');
    }
    if content.len() == 3 && (content[0] == 'y' || content[0] == 'Y') && (content[1] == 'e'
        || content[1] == 'E') && (content[2] == 's' || content[2] == 'S') {
        assert(low =~= "yes"@);
    }
}

/// Tells whether the service's text means yes: after ASCII lowercasing it
/// must be exactly `yes`. Nothing is trimmed.
pub fn answers_yes(content: &str) -> (yes: bool)
    ensures
        yes == is_yes(content@),
{
    proof {
        lemma_is_yes(content@);
    }
    if content.unicode_len() != 3 {
        return false;
    }
    let c0 = content.get_char(0);
    let c1 = content.get_char(1);
    let c2 = content.get_char(2);
    (c0 == 'y' || c0 == 'Y') && (c1 == 'e' || c1 == 'E') && (c2 == 's' || c2 == 'S')
}

/// Reads the classification out of an answer: `true` if the first choice is
/// plain text that means yes, `false` if it is any other plain text.
pub fn verdict(response: &PromptResponse) -> (result: Result<bool, HotdogError>)
    ensures
        result == verdict_of(*response),
{
    if response.choices.len() == 0 {
        return Err(HotdogError::MismatchMessage);
    }
    match &response.choices[0].message {
        Message::Chat(m) => Ok(answers_yes(m.content.as_str())),
        Message::Vision(_) => Err(HotdogError::MismatchMessage),
    }
}

} // verus!
