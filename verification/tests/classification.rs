use hotdog::classifier::{classification_request, hotdog_or_not_hotdog};
use hotdog::error::HotdogError;
use hotdog::prompt::{ChatMessage, Content, Message, VisionMessage};
use hotdog::response::{answers_yes, verdict, Choice, PromptResponse, Usage};
use hotdog::transport::{authorization, send_prompt, Body, Exchange};

fn response_with(messages: Vec<Message>) -> PromptResponse {
    let mut choices = Vec::new();
    for (i, message) in messages.into_iter().enumerate() {
        choices.push(Choice {
            finish_details: None,
            finish_reason: Some(String::from("stop")),
            index: i as u32,
            message,
        });
    }
    PromptResponse {
        choices,
        created: 1_700_000_000,
        id: String::from("chatcmpl-1"),
        model: String::from("gpt-4-vision-preview"),
        object: String::from("chat.completion"),
        usage: Usage { completion_tokens: 1, prompt_tokens: 100, total_tokens: 101 },
    }
}

fn assistant(text: &str) -> Message {
    Message::Chat(ChatMessage { role: String::from("assistant"), content: String::from(text) })
}

fn answered(status: u16, text: &str) -> Exchange {
    Exchange::Answered { status, body: Body::Parsed(response_with(vec![assistant(text)])) }
}

#[test]
fn yes_in_any_case_is_true() {
    assert!(answers_yes("yes"));
    assert!(answers_yes("YES"));
    assert!(answers_yes("Yes"));
    assert!(answers_yes("yEs"));
}

#[test]
fn anything_else_is_false() {
    assert!(!answers_yes("no"));
    assert!(!answers_yes(""));
    assert!(!answers_yes("Yes."));
    assert!(!answers_yes(" yes"));
    assert!(!answers_yes("yes "));
    assert!(!answers_yes("yes\n"));
    assert!(!answers_yes("ye"));
    assert!(!answers_yes("yess"));
    assert!(!answers_yes("y\u{e9}s"));
}

#[test]
fn happy_path() {
    assert_eq!(hotdog_or_not_hotdog(answered(200, "yes")), Ok(true));
    assert_eq!(hotdog_or_not_hotdog(answered(201, "Yes")), Ok(true));
}

#[test]
fn negative_classification() {
    assert_eq!(hotdog_or_not_hotdog(answered(200, "no")), Ok(false));
    assert_eq!(hotdog_or_not_hotdog(answered(200, "Yes.")), Ok(false));
}

#[test]
fn shape_violation() {
    let exchange = Exchange::Answered { status: 200, body: Body::Parsed(response_with(vec![])) };
    assert_eq!(hotdog_or_not_hotdog(exchange), Err(HotdogError::MismatchMessage));
}

#[test]
fn multimodal_first_choice_is_a_mismatch() {
    let vision = Message::Vision(VisionMessage {
        role: String::from("assistant"),
        content: vec![Content::text("yes")],
    });
    let response = response_with(vec![vision, assistant("yes")]);
    assert_eq!(verdict(&response), Err(HotdogError::MismatchMessage));
}

#[test]
fn only_the_first_choice_counts() {
    assert_eq!(verdict(&response_with(vec![assistant("no"), assistant("yes")])), Ok(false));
    assert_eq!(verdict(&response_with(vec![assistant("yes"), assistant("no")])), Ok(true));
}

#[test]
fn unauthorized_is_an_api_error() {
    let exchange = Exchange::Answered { status: 401, body: Body::Unreadable };
    assert_eq!(hotdog_or_not_hotdog(exchange), Err(HotdogError::Api));
    assert_eq!(hotdog_or_not_hotdog(answered(401, "yes")), Err(HotdogError::Api));
}

#[test]
fn statuses_outside_2xx_are_api_errors() {
    assert_eq!(hotdog_or_not_hotdog(answered(199, "yes")), Err(HotdogError::Api));
    assert_eq!(hotdog_or_not_hotdog(answered(300, "yes")), Err(HotdogError::Api));
    assert_eq!(hotdog_or_not_hotdog(answered(500, "yes")), Err(HotdogError::Api));
    assert_eq!(hotdog_or_not_hotdog(answered(299, "yes")), Ok(true));
}

#[test]
fn no_answer_is_an_api_error() {
    assert_eq!(hotdog_or_not_hotdog(Exchange::Failed), Err(HotdogError::Api));
}

#[test]
fn malformed_body_is_a_serialization_error() {
    let exchange = Exchange::Answered { status: 200, body: Body::Malformed };
    assert_eq!(hotdog_or_not_hotdog(exchange), Err(HotdogError::Json));
}

#[test]
fn unreadable_body_is_an_io_error() {
    let exchange = Exchange::Answered { status: 200, body: Body::Unreadable };
    assert_eq!(hotdog_or_not_hotdog(exchange), Err(HotdogError::Io));
}

#[test]
fn send_prompt_hands_the_answer_on() {
    let response = send_prompt(answered(200, "no")).unwrap();
    assert_eq!(response.id, "chatcmpl-1");
    assert_eq!(response.choices.len(), 1);
    assert!(matches!(send_prompt(Exchange::Failed), Err(HotdogError::Api)));
}

#[test]
fn error_messages_name_the_kind() {
    assert_eq!(HotdogError::Api.message(), "api error");
    assert_eq!(HotdogError::Json.message(), "serialization error");
    assert_eq!(HotdogError::Io.message(), "io error");
    assert_eq!(HotdogError::MismatchMessage.message(), "mismatch chat message in response");
}

#[test]
fn bearer_header() {
    assert_eq!(authorization("sk-test"), "Bearer sk-test");
}

#[test]
fn request_carries_the_image() {
    let request = classification_request(b"Man", "sk-test").unwrap();
    assert_eq!(request.url, "https://api.openai.com/v1/chat/completions");
    assert_eq!(request.content_type, "application/json");
    assert_eq!(request.authorization, "Bearer sk-test");
    assert!(request.body.contains("\"url\":\"data:image/jpeg;base64,TWFu\""));
    assert!(!request.body.contains("response_format"));
}

#[test]
fn request_for_an_empty_image() {
    let request = classification_request(&[], "t").unwrap();
    assert!(request.body.contains("\"url\":\"data:image/jpeg;base64,\""));
}
