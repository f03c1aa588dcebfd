//! What the plugin reads from a chat-completion request body: the model it
//! names and the text of its messages.

use vstd::prelude::*;
use vstd::utf8::encode_utf8;
use crate::json::{JsonValue, json_get, json_str, get_member, as_text, parsed_json, parse_json};

verus! {

/// The text an element of an array `content` contributes: its `text` member
/// when its `type` member is the string `"text"`, else nothing.
pub open spec fn part_text(part: JsonValue) -> Seq<char> {
    if json_str(json_get(part, "type"@)) == Some("text"@) {
        match json_str(json_get(part, "text"@)) {
            Some(t) => t,
            None => Seq::empty(),
        }
    } else {
        Seq::empty()
    }
}

/// The texts of `parts`, one after another.
pub open spec fn parts_text(parts: Seq<JsonValue>) -> Seq<char>
    decreases parts.len(),
{
    if parts.len() == 0 {
        Seq::empty()
    } else {
        parts_text(parts.drop_last()) + part_text(parts.last())
    }
}

/// The text a message contributes: its `content` when that is a string, the
/// texts of its parts when it is an array, else nothing.
pub open spec fn message_text(msg: JsonValue) -> Seq<char> {
    match json_get(msg, "content"@) {
        Some(JsonValue::Str(s)) => s@,
        Some(JsonValue::Array(parts)) => parts_text(parts@),
        _ => Seq::empty(),
    }
}

/// The texts of `msgs`, one after another.
pub open spec fn messages_text(msgs: Seq<JsonValue>) -> Seq<char>
    decreases msgs.len(),
{
    if msgs.len() == 0 {
        Seq::empty()
    } else {
        messages_text(msgs.drop_last()) + message_text(msgs.last())
    }
}

/// The text of a request document: the texts of its `messages` array, or
/// nothing when it has none.
pub open spec fn document_text(doc: JsonValue) -> Seq<char> {
    match json_get(doc, "messages"@) {
        Some(JsonValue::Array(msgs)) => messages_text(msgs@),
        _ => Seq::empty(),
    }
}

/// The model a request document names: its `model` member when that is a
/// string, else the empty string. A body that does not parse names none.
pub open spec fn document_model(doc: Option<JsonValue>) -> Seq<char> {
    match doc {
        Some(v) => match json_str(json_get(v, "model"@)) {
            Some(m) => m,
            None => Seq::empty(),
        },
        None => Seq::empty(),
    }
}

/// The number of UTF-8 bytes of the text of a request; zero when the body
/// does not parse.
pub open spec fn document_text_bytes(doc: Option<JsonValue>) -> usize {
    match doc {
        Some(v) => encode_utf8(document_text(v)).len() as usize,
        None => 0,
    }
}

fn append_part_text(out: &mut String, part: &JsonValue)
    ensures
        final(out)@ == old(out)@ + part_text(*part),
{
    let ty = as_text(get_member(part, "type"));
    let is_text = match ty {
        Some(t) => crate::text::same_text(t.as_str(), "text"),
        None => false,
    };
    if is_text {
        if let Some(t) = as_text(get_member(part, "text")) {
            out.append(t.as_str());
        } else {
            assert(old(out)@ + Seq::<char>::empty() =~= old(out)@);
        }
    } else {
        assert(old(out)@ + Seq::<char>::empty() =~= old(out)@);
    }
}

fn append_message_text(out: &mut String, msg: &JsonValue)
    ensures
        final(out)@ == old(out)@ + message_text(*msg),
{
    match get_member(msg, "content") {
        Some(JsonValue::Str(s)) => {
            out.append(s.as_str());
        },
        Some(JsonValue::Array(parts)) => {
            let ghost start = out@;
            let mut i: usize = 0;
            assert(parts@.take(0) =~= Seq::<JsonValue>::empty());
            assert(start + Seq::<char>::empty() =~= start);
            while i < parts.len()
                invariant
                    i <= parts@.len(),
                    out@ == start + parts_text(parts@.take(i as int)),
                decreases parts.len() - i,
            {
                append_part_text(out, &parts[i]);
                proof {
                    let t = parts@.take(i + 1);
                    assert(t.drop_last() =~= parts@.take(i as int));
                    assert(t.last() == parts@[i as int]);
                    assert(start + parts_text(parts@.take(i as int)) + part_text(parts@[i as int])
                        =~= start + parts_text(t));
                }
                i += 1;
            }
            assert(parts@.take(i as int) =~= parts@);
        },
        _ => {
            assert(old(out)@ + Seq::<char>::empty() =~= old(out)@);
        },
    }
}

/// The text of the messages of a request document, as the plugin gathers it
/// before it estimates tokens.
pub fn document_text_of(doc: &JsonValue) -> (r: String)
    ensures
        r@ == document_text(*doc),
{
    let mut out = String::new();
    match get_member(doc, "messages") {
        Some(JsonValue::Array(msgs)) => {
            let mut i: usize = 0;
            assert(msgs@.take(0) =~= Seq::<JsonValue>::empty());
            while i < msgs.len()
                invariant
                    i <= msgs@.len(),
                    out@ == messages_text(msgs@.take(i as int)),
                decreases msgs.len() - i,
            {
                append_message_text(&mut out, &msgs[i]);
                proof {
                    let t = msgs@.take(i + 1);
                    assert(t.drop_last() =~= msgs@.take(i as int));
                    assert(t.last() == msgs@[i as int]);
                }
                i += 1;
            }
            assert(msgs@.take(i as int) =~= msgs@);
        },
        _ => {},
    }
    out
}

/// The number of UTF-8 bytes of the text of a parsed request body; zero when
/// the body did not parse.
pub fn text_bytes_of(doc: &Option<JsonValue>) -> (r: usize)
    ensures
        r == document_text_bytes(*doc),
{
    match doc {
        Some(v) => {
            let t = document_text_of(v);
            t.as_str().len()
        },
        None => 0,
    }
}

/// The model a parsed request body names, or the empty string.
pub fn model_of(doc: &Option<JsonValue>) -> (r: String)
    ensures
        r@ == document_model(*doc),
{
    match doc {
        Some(v) => match as_text(get_member(v, "model")) {
            Some(m) => m.clone(),
            None => String::new(),
        },
        None => String::new(),
    }
}

/// The number of UTF-8 bytes of the message text of a request body, the
/// quantity the fuzzy token estimate scales; zero when the body is not JSON.
pub fn body_text_bytes(body: &[u8]) -> (r: usize)
    ensures
        r == document_text_bytes(parsed_json(body@)),
{
    let doc = parse_json(body);
    text_bytes_of(&doc)
}

/// The model a request body names, or the empty string when it names none
/// or is not JSON.
pub fn body_model(body: &[u8]) -> (r: String)
    ensures
        r@ == document_model(parsed_json(body@)),
{
    let doc = parse_json(body);
    model_of(&doc)
}

} // verus!
