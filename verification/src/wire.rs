//! The JSON text of a request payload. Members appear in a fixed order, and
//! what is absent is left out: a part carries only the payload it has, and
//! the token limit and the response format are written only when there is
//! one.

use vstd::prelude::*;
use vstd::string::*;
use crate::error::HotdogError;
use crate::json::{json_string, to_json_string};
use crate::prompt::{
    data_uri_of, hotdog_prompt_of, image_part, text_part, Content, ContentView, Message,
    MessageView, Prompt, PromptView, INSTRUCTION, MODEL, QUESTION,
};
use crate::text::push_char;

verus! {

/// The decimal digit for `d`.
pub open spec fn digit(d: nat) -> char {
    (48 + d) as u8 as char
}

/// The decimal numeral of `n`, without leading zeros.
pub open spec fn decimal(n: nat) -> Seq<char>
    decreases n,
{
    if n < 10 {
        seq![digit(n)]
    } else {
        decimal(n / 10).push(digit(n % 10))
    }
}

/// The items of a list, with a comma between neighbours.
pub open spec fn joined(items: Seq<Seq<char>>) -> Seq<char>
    decreases items.len(),
{
    if items.len() == 0 {
        Seq::empty()
    } else if items.len() == 1 {
        items[0]
    } else {
        joined(items.drop_last()) + ","@ + items.last()
    }
}

/// A member that is written only when its value is there.
pub open spec fn optional(member: Option<Seq<char>>) -> Seq<char> {
    match member {
        Some(text) => text,
        None => Seq::empty(),
    }
}

/// The JSON object of a part: its type, then its text or its image.
pub open spec fn part_json(part: ContentView) -> Seq<char> {
    "{\"type\":"@ + json_string(part.kind) + optional(
        match part.text {
            Some(text) => Some(",\"text\":"@ + json_string(text)),
            None => None,
        },
    ) + optional(
        match part.image_url {
            Some(url) => Some(",\"image_url\":{\"url\":"@ + json_string(url) + "}"@),
            None => None,
        },
    ) + "}"@
}

/// The JSON object of a turn: its role, then its content as a string or as
/// an array of parts.
pub open spec fn message_json(message: MessageView) -> Seq<char> {
    match message {
        MessageView::Chat { role, content } => "{\"role\":"@ + json_string(role)
            + ",\"content\":"@ + json_string(content) + "}"@,
        MessageView::Vision { role, parts } => "{\"role\":"@ + json_string(role)
            + ",\"content\":["@ + joined(parts.map_values(|p: ContentView| part_json(p)))
            + "]}"@,
    }
}

/// The JSON object of a payload: model and turns, then the token limit and
/// the response format, each only if there is one.
pub open spec fn prompt_json(prompt: PromptView) -> Seq<char> {
    "{\"model\":"@ + json_string(prompt.model) + ",\"messages\":["@ + joined(
        prompt.messages.map_values(|m: MessageView| message_json(m)),
    ) + "]"@ + optional(
        match prompt.max_tokens {
            Some(n) => Some(",\"max_tokens\":"@ + decimal(n as nat)),
            None => None,
        },
    ) + optional(
        match prompt.response_format {
            Some(kind) => Some(",\"response_format\":{\"type\":"@ + json_string(kind) + "}"@),
            None => None,
        },
    ) + "}"@
}

/// Maps the outcome of writing a value as JSON: the text on success, a
/// serialization error otherwise.
pub fn quoted(result: Result<String, serde_json::Error>) -> (out: Result<String, HotdogError>)
    ensures
        match result {
            Ok(text) => out == Ok::<String, HotdogError>(text),
            Err(_) => out == Err::<String, HotdogError>(HotdogError::Json),
        },
{
    match result {
        Ok(text) => Ok(text),
        Err(_) => Err(HotdogError::Json),
    }
}

/// Appends the JSON string of `text`.
fn write_string(out: &mut String, text: &str) -> (done: Result<(), HotdogError>)
    ensures
        done is Ok,
        final(out)@ == old(out)@ + json_string(text@),
{
    match quoted(to_json_string(text)) {
        Ok(q) => {
            out.append(q.as_str());
            Ok(())
        },
        Err(e) => Err(e),
    }
}

/// Appends the decimal numeral of `n`.
fn write_decimal(out: &mut String, n: u64)
    ensures
        final(out)@ == old(out)@ + decimal(n as nat),
    decreases n,
{
    if n >= 10 {
        write_decimal(out, n / 10);
    }
    push_char(out, ((n % 10) as u8 + 48) as char);
    proof {
        if n >= 10 {
            assert(out@ =~= old(out)@ + decimal((n / 10) as nat).push(
                digit((n % 10) as nat),
            ));
        } else {
            assert(out@ =~= old(out)@ + seq![digit(n as nat)]);
        }
    }
}

/// The JSON objects of the parts of a turn, in order.
pub open spec fn part_items(parts: Seq<Content>) -> Seq<Seq<char>> {
    Seq::new(parts.len(), |i: int| part_json(parts[i]@))
}

/// The JSON objects of the turns of a payload, in order.
pub open spec fn message_items(messages: Seq<Message>) -> Seq<Seq<char>> {
    Seq::new(messages.len(), |i: int| message_json(messages[i]@))
}

/// A list that grows by one item grows by a comma and that item, or by the
/// item alone if it is the first.
proof fn lemma_joined_next(items: Seq<Seq<char>>, i: int)
    requires
        0 <= i < items.len(),
    ensures
        joined(items.take(i + 1)) == if i == 0 {
            items[0]
        } else {
            joined(items.take(i)) + ","@ + items[i]
        },
        joined(items.take(0)) == Seq::<char>::empty(),
{
    assert(items.take(i + 1).drop_last() =~= items.take(i));
}

/// Appends the JSON object of a part.
fn write_part(out: &mut String, part: &Content) -> (done: Result<(), HotdogError>)
    ensures
        done is Ok,
        final(out)@ == old(out)@ + part_json(part@),
{
    out.append("{\"type\":");
    match write_string(out, part.kind.as_str()) {
        Ok(_) => {},
        Err(e) => {
            return Err(e);
        },
    }
    match &part.text {
        Some(text) => {
            out.append(",\"text\":");
            match write_string(out, text.as_str()) {
                Ok(_) => {},
                Err(e) => {
                    return Err(e);
                },
            }
        },
        None => {},
    }
    match &part.image_url {
        Some(image) => {
            out.append(",\"image_url\":{\"url\":");
            match write_string(out, image.url.as_str()) {
                Ok(_) => {},
                Err(e) => {
                    return Err(e);
                },
            }
            out.append("}");
        },
        None => {},
    }
    out.append("}");
    proof {
        assert(out@ =~= old(out)@ + part_json(part@));
    }
    Ok(())
}

/// Appends the JSON objects of the parts of a turn, separated by commas.
fn write_parts(out: &mut String, parts: &Vec<Content>) -> (done: Result<(), HotdogError>)
    ensures
        done is Ok,
        final(out)@ == old(out)@ + joined(part_items(parts@)),
{
    let ghost items = part_items(parts@);
    let mut i: usize = 0;
    while i < parts.len()
        invariant
            i <= parts@.len(),
            items == part_items(parts@),
            out@ == old(out)@ + joined(items.take(i as int)),
        decreases parts@.len() - i,
    {
        if i > 0 {
            out.append(",");
        }
        match write_part(out, &parts[i]) {
            Ok(_) => {},
            Err(e) => {
                return Err(e);
            },
        }
        proof {
            lemma_joined_next(items, i as int);
            assert(out@ =~= old(out)@ + joined(items.take(i + 1)));
        }
        i += 1;
    }
    proof {
        assert(items.take(i as int) =~= items);
    }
    Ok(())
}

/// Appends the JSON object of a turn.
fn write_message(out: &mut String, message: &Message) -> (done: Result<(), HotdogError>)
    ensures
        done is Ok,
        final(out)@ == old(out)@ + message_json(message@),
{
    out.append("{\"role\":");
    match message {
        Message::Chat(m) => {
            match write_string(out, m.role.as_str()) {
                Ok(_) => {},
                Err(e) => {
                    return Err(e);
                },
            }
            out.append(",\"content\":");
            match write_string(out, m.content.as_str()) {
                Ok(_) => {},
                Err(e) => {
                    return Err(e);
                },
            }
            out.append("}");
        },
        Message::Vision(m) => {
            match write_string(out, m.role.as_str()) {
                Ok(_) => {},
                Err(e) => {
                    return Err(e);
                },
            }
            out.append(",\"content\":[");
            match write_parts(out, &m.content) {
                Ok(_) => {},
                Err(e) => {
                    return Err(e);
                },
            }
            out.append("]}");
            proof {
                assert(message@->Vision_parts.map_values(|p: ContentView| part_json(p))
                    =~= part_items(m.content@));
            }
        },
    }
    proof {
        assert(out@ =~= old(out)@ + message_json(message@));
    }
    Ok(())
}

/// Appends the JSON objects of the turns of a payload, separated by commas.
fn write_messages(out: &mut String, messages: &Vec<Message>) -> (done: Result<(), HotdogError>)
    ensures
        done is Ok,
        final(out)@ == old(out)@ + joined(message_items(messages@)),
{
    let ghost items = message_items(messages@);
    let mut i: usize = 0;
    while i < messages.len()
        invariant
            i <= messages@.len(),
            items == message_items(messages@),
            out@ == old(out)@ + joined(items.take(i as int)),
        decreases messages@.len() - i,
    {
        if i > 0 {
            out.append(",");
        }
        match write_message(out, &messages[i]) {
            Ok(_) => {},
            Err(e) => {
                return Err(e);
            },
        }
        proof {
            lemma_joined_next(items, i as int);
            assert(out@ =~= old(out)@ + joined(items.take(i + 1)));
        }
        i += 1;
    }
    proof {
        assert(items.take(i as int) =~= items);
    }
    Ok(())
}

/// Writes a payload as JSON. Every payload can be written, so the result is
/// always `Ok`.
pub fn to_json(prompt: &Prompt) -> (text: Result<String, HotdogError>)
    ensures
        text matches Ok(t) && t@ == prompt_json(prompt@),
{
    let mut out = String::new();
    out.append("{\"model\":");
    match write_string(&mut out, prompt.model.as_str()) {
        Ok(_) => {},
        Err(e) => {
            return Err(e);
        },
    }
    out.append(",\"messages\":[");
    match write_messages(&mut out, &prompt.messages) {
        Ok(_) => {},
        Err(e) => {
            return Err(e);
        },
    }
    out.append("]");
    match prompt.max_tokens {
        Some(n) => {
            out.append(",\"max_tokens\":");
            write_decimal(&mut out, n);
        },
        None => {},
    }
    match &prompt.response_format {
        Some(format) => {
            out.append(",\"response_format\":{\"type\":");
            match write_string(&mut out, format.kind.as_str()) {
                Ok(_) => {},
                Err(e) => {
                    return Err(e);
                },
            }
            out.append("}");
        },
        None => {},
    }
    out.append("}");
    proof {
        assert(prompt@.messages.map_values(|m: MessageView| message_json(m)) =~= message_items(
            prompt.messages@,
        ));
        assert(out@ =~= prompt_json(prompt@));
    }
    Ok(out)
}

/// The members that every payload has: its model and its turns.
pub open spec fn required_members(prompt: PromptView) -> Seq<char> {
    "{\"model\":"@ + json_string(prompt.model) + ",\"messages\":["@ + joined(
        prompt.messages.map_values(|m: MessageView| message_json(m)),
    ) + "]"@
}

/// A member that is absent is left out, never written as `null`: the object
/// holds the token limit only if there is one, and the response format only
/// if there is one, the token limit first.
pub proof fn lemma_optional_members(prompt: PromptView)
    ensures
        prompt.max_tokens is None && prompt.response_format is None ==> prompt_json(prompt)
            == required_members(prompt) + "}"@,
        prompt.max_tokens is Some && prompt.response_format is None ==> prompt_json(prompt)
            == required_members(prompt) + ",\"max_tokens\":"@ + decimal(
            prompt.max_tokens->0 as nat,
        ) + "}"@,
        prompt.max_tokens is None && prompt.response_format is Some ==> prompt_json(prompt)
            == required_members(prompt) + ",\"response_format\":{\"type\":"@ + json_string(
            prompt.response_format->0,
        ) + "}"@ + "}"@,
        prompt.max_tokens is Some && prompt.response_format is Some ==> prompt_json(prompt)
            == required_members(prompt) + ",\"max_tokens\":"@ + decimal(
            prompt.max_tokens->0 as nat,
        ) + ",\"response_format\":{\"type\":"@ + json_string(prompt.response_format->0) + "}"@
            + "}"@,
{
    let r = required_members(prompt);
    if prompt.max_tokens is None && prompt.response_format is None {
        assert(prompt_json(prompt) =~= r + "}"@);
    } else if prompt.max_tokens is Some && prompt.response_format is None {
        assert(prompt_json(prompt) =~= r + ",\"max_tokens\":"@ + decimal(
            prompt.max_tokens->0 as nat,
        ) + "}"@);
    } else if prompt.max_tokens is None {
        assert(prompt_json(prompt) =~= r + ",\"response_format\":{\"type\":"@ + json_string(
            prompt.response_format->0,
        ) + "}"@ + "}"@);
    } else {
        assert(prompt_json(prompt) =~= r + ",\"max_tokens\":"@ + decimal(
            prompt.max_tokens->0 as nat,
        ) + ",\"response_format\":{\"type\":"@ + json_string(prompt.response_format->0)
            + "}"@ + "}"@);
    }
}

/// The JSON object of a text part, written out.
pub open spec fn text_part_json(text: Seq<char>) -> Seq<char> {
    "{\"type\":"@ + json_string("text"@) + ",\"text\":"@ + json_string(text) + "}"@
}

/// The JSON object of an image part, written out.
pub open spec fn image_part_json(url: Seq<char>) -> Seq<char> {
    "{\"type\":"@ + json_string("image_url"@) + ",\"image_url\":{\"url\":"@ + json_string(url)
        + "}"@ + "}"@
}

/// The JSON object of the system turn of the classification prompt.
pub open spec fn system_turn_json() -> Seq<char> {
    "{\"role\":"@ + json_string("system"@) + ",\"content\":["@ + text_part_json(INSTRUCTION@)
        + "]}"@
}

/// The JSON object of the user turn of the classification prompt.
pub open spec fn user_turn_json(encoded: Seq<char>) -> Seq<char> {
    "{\"role\":"@ + json_string("user"@) + ",\"content\":["@ + (text_part_json(QUESTION@) + ","@
        + image_part_json(data_uri_of(encoded))) + "]}"@
}

/// A text part is written as its type and its text, an image part as its
/// type and its image: the member that a part lacks is left out.
pub proof fn lemma_part_forms(text: Seq<char>, url: Seq<char>)
    ensures
        part_json(text_part(text)) == text_part_json(text),
        part_json(image_part(url)) == image_part_json(url),
{
    assert(part_json(text_part(text)) =~= text_part_json(text));
    assert(part_json(image_part(url)) =~= image_part_json(url));
}

/// The two turns of the classification prompt on the wire.
proof fn lemma_turn_forms(encoded: Seq<char>)
    ensures
        message_json(hotdog_prompt_of(encoded).messages[0]) == system_turn_json(),
        message_json(hotdog_prompt_of(encoded).messages[1]) == user_turn_json(encoded),
{
    let prompt = hotdog_prompt_of(encoded);
    let system_items = prompt.messages[0]->Vision_parts.map_values(
        |p: ContentView| part_json(p),
    );
    let user_items = prompt.messages[1]->Vision_parts.map_values(|p: ContentView| part_json(p));
    lemma_part_forms(INSTRUCTION@, data_uri_of(encoded));
    lemma_part_forms(QUESTION@, data_uri_of(encoded));
    reveal_with_fuel(joined, 3);
    assert(system_items.len() == 1);
    assert(joined(system_items) == text_part_json(INSTRUCTION@));
    assert(user_items.len() == 2);
    assert(user_items.drop_last().len() == 1);
    assert(user_items.drop_last()[0] == text_part_json(QUESTION@));
    assert(joined(user_items) == text_part_json(QUESTION@) + ","@ + image_part_json(
        data_uri_of(encoded),
    ));
}

/// The numeral of the classification prompt's token limit.
proof fn lemma_decimal_fifty()
    ensures
        decimal(50) == seq!['5', '0'],
{
    reveal_with_fuel(decimal, 3);
    assert(decimal(50) =~= seq!['5', '0']);
}

/// The body that asks about the image with Base64 text `encoded`, written
/// out: the model, then two turns, the system turn ahead of the user turn,
/// then a token limit of 50, and no response format.
pub open spec fn hotdog_body(encoded: Seq<char>) -> Seq<char> {
    "{\"model\":"@ + json_string(MODEL@) + ",\"messages\":["@ + (system_turn_json() + ","@
        + user_turn_json(encoded)) + "]"@ + ",\"max_tokens\":"@ + seq!['5', '0'] + "}"@
}

/// The classification prompt is written as `hotdog_body` says.
pub proof fn lemma_hotdog_wire_form(encoded: Seq<char>)
    ensures
        prompt_json(hotdog_prompt_of(encoded)) == hotdog_body(encoded),
{
    let prompt = hotdog_prompt_of(encoded);
    let items = prompt.messages.map_values(|m: MessageView| message_json(m));
    lemma_turn_forms(encoded);
    lemma_decimal_fifty();
    lemma_optional_members(prompt);
    reveal_with_fuel(joined, 3);
    assert(items.len() == 2);
    assert(items.drop_last().len() == 1);
    assert(items.drop_last()[0] == system_turn_json());
    assert(joined(items) == system_turn_json() + ","@ + user_turn_json(encoded));
}

} // verus!
