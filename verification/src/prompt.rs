//! The request payload of the chat-completion service, and the one prompt
//! this crate sends: a fixed instruction followed by a question and an image.

use vstd::prelude::*;
use vstd::string::*;

verus! {

/// Model that receives the classification prompt.
pub const MODEL: &'static str = "gpt-4-vision-preview";

/// Upper bound on the length of the answer, in tokens.
pub const MAX_TOKENS: u64 = 50;

/// Instruction given in the system turn.
pub const INSTRUCTION: &'static str =
    "You are a hotdog detection expert. Is this is an edible hotdog? If it is, then respond with yes if not then respond with no. Only respond with yes or no. Do not end with punctuation.";

/// Question asked in the user turn, ahead of the image.
pub const QUESTION: &'static str = "Is this a hot dog or not a hot dog?";

/// What every data URI built here starts with. The media type is fixed.
pub const DATA_URI_PREFIX: &'static str = "data:image/jpeg;base64,";

/// Reference to an image, here always a data URI.
#[derive(Debug)]
pub struct ImageUrl {
    pub url: String,
}

/// One part of a multimodal turn: a type tag and either a text or an image.
#[derive(Debug)]
pub struct Content {
    pub kind: String,
    pub text: Option<String>,
    pub image_url: Option<ImageUrl>,
}

/// A turn whose content is a sequence of parts.
#[derive(Debug)]
pub struct VisionMessage {
    pub role: String,
    pub content: Vec<Content>,
}

/// A turn whose content is plain text.
#[derive(Debug)]
pub struct ChatMessage {
    pub role: String,
    pub content: String,
}

/// A turn of the conversation, told apart by the shape of its content.
#[derive(Debug)]
pub enum Message {
    Chat(ChatMessage),
    Vision(VisionMessage),
}

/// Requested format of the answer.
#[derive(Debug)]
pub struct ResponseFormat {
    pub kind: String,
}

/// The request payload.
#[derive(Debug)]
pub struct Prompt {
    pub model: String,
    pub messages: Vec<Message>,
    pub max_tokens: Option<u64>,
    pub response_format: Option<ResponseFormat>,
}

/// A part as a mathematical value.
pub struct ContentView {
    pub kind: Seq<char>,
    pub text: Option<Seq<char>>,
    pub image_url: Option<Seq<char>>,
}

/// A turn as a mathematical value.
pub enum MessageView {
    Chat { role: Seq<char>, content: Seq<char> },
    Vision { role: Seq<char>, parts: Seq<ContentView> },
}

/// A request payload as a mathematical value.
pub struct PromptView {
    pub model: Seq<char>,
    pub messages: Seq<MessageView>,
    pub max_tokens: Option<u64>,
    pub response_format: Option<Seq<char>>,
}

impl View for Content {
    type V = ContentView;

    open spec fn view(&self) -> ContentView {
        ContentView {
            kind: self.kind@,
            text: match self.text {
                Some(t) => Some(t@),
                None => None,
            },
            image_url: match self.image_url {
                Some(i) => Some(i.url@),
                None => None,
            },
        }
    }
}

impl View for Message {
    type V = MessageView;

    open spec fn view(&self) -> MessageView {
        match self {
            Message::Chat(m) => MessageView::Chat { role: m.role@, content: m.content@ },
            Message::Vision(m) => MessageView::Vision {
                role: m.role@,
                parts: Seq::new(m.content@.len(), |i: int| m.content@[i]@),
            },
        }
    }
}

impl View for Prompt {
    type V = PromptView;

    open spec fn view(&self) -> PromptView {
        PromptView {
            model: self.model@,
            messages: Seq::new(self.messages@.len(), |i: int| self.messages@[i]@),
            max_tokens: self.max_tokens,
            response_format: match self.response_format {
                Some(f) => Some(f.kind@),
                None => None,
            },
        }
    }
}

/// The text part that carries `text`.
pub open spec fn text_part(text: Seq<char>) -> ContentView {
    ContentView { kind: "text"@, text: Some(text), image_url: None }
}

/// The image part that points to `url`.
pub open spec fn image_part(url: Seq<char>) -> ContentView {
    ContentView { kind: "image_url"@, text: None, image_url: Some(url) }
}

impl ContentView {
    /// A part carries exactly one payload, the one its tag announces.
    pub open spec fn well_formed(self) -> bool {
        ||| self.kind == "text"@ && self.text is Some && self.image_url is None
        ||| self.kind == "image_url"@ && self.text is None && self.image_url is Some
    }
}

/// The data URI that inlines an image given in Base64.
pub open spec fn data_uri_of(encoded: Seq<char>) -> Seq<char> {
    DATA_URI_PREFIX@ + encoded
}

/// The prompt that asks whether the image with Base64 text `encoded` shows a
/// hot dog: a system turn with the instruction, then a user turn with the
/// question and the image.
pub open spec fn hotdog_prompt_of(encoded: Seq<char>) -> PromptView {
    PromptView {
        model: MODEL@,
        messages: seq![
            MessageView::Vision { role: "system"@, parts: seq![text_part(INSTRUCTION@)] },
            MessageView::Vision {
                role: "user"@,
                parts: seq![text_part(QUESTION@), image_part(data_uri_of(encoded))],
            },
        ],
        max_tokens: Some(MAX_TOKENS),
        response_format: None,
    }
}

impl Content {
    /// A text part.
    pub fn text(text: &str) -> (part: Content)
        ensures
            part@ == text_part(text@),
    {
        Content { kind: String::from_str("text"), text: Some(String::from_str(text)), image_url: None }
    }

    /// An image part.
    pub fn image(url: String) -> (part: Content)
        ensures
            part@ == image_part(url@),
    {
        Content {
            kind: String::from_str("image_url"),
            text: None,
            image_url: Some(ImageUrl { url }),
        }
    }
}

/// Forms the data URI of a JPEG image from its Base64 text.
pub fn data_uri(encoded: &str) -> (uri: String)
    ensures
        uri@ == data_uri_of(encoded@),
{
    String::from_str(DATA_URI_PREFIX).concat(encoded)
}

/// Builds the classification prompt for an image given in Base64.
pub fn hotdog_prompt(encoded: &str) -> (prompt: Prompt)
    ensures
        prompt@ == hotdog_prompt_of(encoded@),
{
    let mut system_parts: Vec<Content> = Vec::new();
    system_parts.push(Content::text(INSTRUCTION));
    let mut user_parts: Vec<Content> = Vec::new();
    user_parts.push(Content::text(QUESTION));
    user_parts.push(Content::image(data_uri(encoded)));
    let system = Message::Vision(
        VisionMessage { role: String::from_str("system"), content: system_parts },
    );
    let user = Message::Vision(
        VisionMessage { role: String::from_str("user"), content: user_parts },
    );
    proof {
        assert(system@->Vision_parts =~= seq![text_part(INSTRUCTION@)]);
        assert(user@->Vision_parts =~= seq![
            text_part(QUESTION@),
            image_part(data_uri_of(encoded@)),
        ]);
    }
    let mut messages: Vec<Message> = Vec::new();
    messages.push(system);
    messages.push(user);
    let prompt = Prompt {
        model: String::from_str(MODEL),
        messages,
        max_tokens: Some(MAX_TOKENS),
        response_format: None,
    };
    proof {
        assert(prompt@.messages =~= hotdog_prompt_of(encoded@).messages);
    }
    prompt
}

/// The classification prompt has exactly two turns, the system turn first;
/// the user turn has exactly two parts, the text ahead of the image, and the
/// image is the data URI of the input; every part is well formed; and no
/// response format is asked for.
pub proof fn lemma_prompt_shape(encoded: Seq<char>)
    ensures
        hotdog_prompt_of(encoded).messages.len() == 2,
        hotdog_prompt_of(encoded).messages[0] is Vision,
        hotdog_prompt_of(encoded).messages[0]->Vision_role == "system"@,
        hotdog_prompt_of(encoded).messages[0]->Vision_parts.len() == 1,
        hotdog_prompt_of(encoded).messages[0]->Vision_parts[0].well_formed(),
        hotdog_prompt_of(encoded).messages[1] is Vision,
        hotdog_prompt_of(encoded).messages[1]->Vision_role == "user"@,
        hotdog_prompt_of(encoded).messages[1]->Vision_parts.len() == 2,
        hotdog_prompt_of(encoded).messages[1]->Vision_parts[0].text is Some,
        hotdog_prompt_of(encoded).messages[1]->Vision_parts[0].well_formed(),
        hotdog_prompt_of(encoded).messages[1]->Vision_parts[1].image_url == Some(
            data_uri_of(encoded),
        ),
        hotdog_prompt_of(encoded).messages[1]->Vision_parts[1].well_formed(),
        hotdog_prompt_of(encoded).response_format is None,
{
}

} // verus!
