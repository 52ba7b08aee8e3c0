use hotdog::prompt::{data_uri, hotdog_prompt, Content, Message};

#[test]
fn data_uri_is_prefix_and_payload() {
    assert_eq!(data_uri("TWFu"), "data:image/jpeg;base64,TWFu");
    assert_eq!(data_uri(""), "data:image/jpeg;base64,");
}

#[test]
fn text_part_holds_only_text() {
    let part = Content::text("hello");
    assert_eq!(part.kind, "text");
    assert_eq!(part.text.as_deref(), Some("hello"));
    assert!(part.image_url.is_none());
}

#[test]
fn image_part_holds_only_image() {
    let part = Content::image(String::from("data:image/jpeg;base64,AAAA"));
    assert_eq!(part.kind, "image_url");
    assert!(part.text.is_none());
    assert_eq!(part.image_url.unwrap().url, "data:image/jpeg;base64,AAAA");
}

#[test]
fn hotdog_prompt_has_two_turns() {
    let prompt = hotdog_prompt("TWFu");
    assert_eq!(prompt.model, "gpt-4-vision-preview");
    assert_eq!(prompt.max_tokens, Some(50));
    assert!(prompt.response_format.is_none());
    assert_eq!(prompt.messages.len(), 2);
    match &prompt.messages[0] {
        Message::Vision(m) => {
            assert_eq!(m.role, "system");
            assert_eq!(m.content.len(), 1);
            assert_eq!(m.content[0].kind, "text");
            assert_eq!(
                m.content[0].text.as_deref(),
                Some("You are a hotdog detection expert. Is this is an edible hotdog? If it is, then respond with yes if not then respond with no. Only respond with yes or no. Do not end with punctuation.")
            );
            assert!(m.content[0].image_url.is_none());
        }
        Message::Chat(_) => panic!("the system turn is multimodal"),
    }
    match &prompt.messages[1] {
        Message::Vision(m) => {
            assert_eq!(m.role, "user");
            assert_eq!(m.content.len(), 2);
            assert_eq!(m.content[0].kind, "text");
            assert_eq!(m.content[0].text.as_deref(), Some("Is this a hot dog or not a hot dog?"));
            assert!(m.content[0].image_url.is_none());
            assert_eq!(m.content[1].kind, "image_url");
            assert!(m.content[1].text.is_none());
            assert_eq!(
                m.content[1].image_url.as_ref().unwrap().url,
                "data:image/jpeg;base64,TWFu"
            );
        }
        Message::Chat(_) => panic!("the user turn is multimodal"),
    }
}
