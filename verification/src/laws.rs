//! Properties that span several operations of the plugin.

use multimap::MultiMap;
use vstd::prelude::*;
use vstd::utf8::{valid_utf8, decode_utf8, encode_utf8, encode_utf8_valid_utf8, encode_utf8_decode_utf8};
use crate::body::{
    document_model, document_text, document_text_bytes, message_text, messages_text,
    part_text, parts_text,
};
use crate::config::PilotConfig;
use crate::pilot::{describes_pilot_call, reply_outcome, PilotCall, PilotReply};
use crate::prelude::{estimate_of, TokenEstimate, whitelisted, needs_prelude, forbids_prelude,
    MODEL_HEADER, PRIVATE_MODEL_KEY, PROVIDER_HEADER, PROVIDER_INTERNAL};
use crate::text::has_substring;
use crate::config::TokenPreludeConfig;
use crate::headers::first_header;
use crate::json::{JsonValue, json_get};
use crate::prelude::{
    ContextValue, context_flag, context_text, estimates_body, holds_request, internal_model_only,
    response_token_header, NEED_TOKEN_PRELUDE_CTX, TOKEN_PRELUDE_HEADER, WQ_USE_MODEL_HEADER,
    WQ_USE_MODEL_INTERNAL,
};
use crate::text::lemma_split_single_piece;

verus! {

/// A flag stored in the context reads back as stored, and storing under one
/// key leaves what every other key reads unchanged.
pub proof fn lemma_context_flag_read_after_write(
    ctx: Map<Seq<char>, ContextValue>,
    key: Seq<char>,
    b: bool,
    other: Seq<char>,
)
    ensures
        context_flag(ctx.insert(key, ContextValue::Bool(b)), key) == b,
        context_text(ctx.insert(key, ContextValue::Bool(b)), key) == Seq::<char>::empty(),
        other != key ==> context_flag(ctx.insert(key, ContextValue::Bool(b)), other) == context_flag(ctx, other),
        other != key ==> context_text(ctx.insert(key, ContextValue::Bool(b)), other) == context_text(ctx, other),
{
}

/// A text stored in the context reads back as stored, and storing under one
/// key leaves what every other key reads unchanged.
pub proof fn lemma_context_text_read_after_write(
    ctx: Map<Seq<char>, ContextValue>,
    key: Seq<char>,
    s: String,
    other: Seq<char>,
)
    ensures
        context_text(ctx.insert(key, ContextValue::Str(s)), key) == s@,
        !context_flag(ctx.insert(key, ContextValue::Str(s)), key),
        other != key ==> context_flag(ctx.insert(key, ContextValue::Str(s)), other) == context_flag(ctx, other),
        other != key ==> context_text(ctx.insert(key, ContextValue::Str(s)), other) == context_text(ctx, other),
{
}

/// A request the header phase held back is estimated by the body phase
/// exactly when the model its body names is supported (the state being
/// alive and the configuration unchanged).
pub proof fn lemma_held_request_is_estimated_when_supported(
    config: TokenPreludeConfig,
    ctx: Map<Seq<char>, ContextValue>,
    headers: MultiMap<String, String>,
    has_body: bool,
    doc: Option<JsonValue>,
)
    requires
        holds_request(Some(config), headers, has_body),
    ensures
        estimates_body(
            Some(config),
            ctx.insert(NEED_TOKEN_PRELUDE_CTX@, ContextValue::Bool(true)),
            true,
            doc,
        ) == config.support_models.view().contains_key(document_model(doc)),
{
}

/// A request that was never held back is never estimated.
pub proof fn lemma_unmarked_request_is_not_estimated(
    config: Option<TokenPreludeConfig>,
    ctx: Map<Seq<char>, ContextValue>,
    self_alive: bool,
    doc: Option<JsonValue>,
)
    requires
        !context_flag(ctx, NEED_TOKEN_PRELUDE_CTX@),
    ensures
        !estimates_body(config, ctx, self_alive, doc),
{
}

/// The response reports a stored non-empty count as it was stored, and `0`
/// when no count was stored.
pub proof fn lemma_response_reports_stored_count(ctx: Map<Seq<char>, ContextValue>, count: String)
    ensures
        count@ != Seq::<char>::empty() ==> response_token_header(
            ctx.insert(TOKEN_PRELUDE_HEADER@, ContextValue::Str(count)),
        ) == count@,
        !ctx.contains_key(TOKEN_PRELUDE_HEADER@) ==> response_token_header(ctx) == "0"@,
{
}

/// Reading the model-kind header as "internal models only" amounts to its
/// value being exactly `internal`.
pub proof fn lemma_internal_model_only_is_exact_match(m: MultiMap<String, String>)
    ensures
        internal_model_only(m) <==> first_header(m, WQ_USE_MODEL_HEADER@) == Some(WQ_USE_MODEL_INTERNAL@),
{
    reveal_strlit("internal");
    if let Some(v) = first_header(m, WQ_USE_MODEL_HEADER@) {
        lemma_split_single_piece(v, ',');
        lemma_split_single_piece(WQ_USE_MODEL_INTERNAL@, ',');
        let sp = crate::text::split_by(v, ',');
        if v == WQ_USE_MODEL_INTERNAL@ {
            assert(!v.contains(','));
            assert(sp[0] == v);
        }
        if sp.len() == 1 && sp.contains(WQ_USE_MODEL_INTERNAL@) {
            let k = choose|k: int| 0 <= k < sp.len() && sp[k] == WQ_USE_MODEL_INTERNAL@;
            assert(k == 0);
        }
    }
}

/// Any text, taken as its UTF-8 bytes, is valid UTF-8 and decodes back to
/// itself, so `format_body` gives back the text of a body that is one.
pub proof fn lemma_format_body_round_trip(text: Seq<char>)
    ensures
        valid_utf8(encode_utf8(text)),
        decode_utf8(encode_utf8(text)) == text,
{
    encode_utf8_valid_utf8(text);
    encode_utf8_decode_utf8(text);
}

/// The estimate's text size is the number of UTF-8 bytes of the body's
/// message text (zero for a body that is not JSON), the same figure
/// `body_text_bytes` gives for that body; and its model is the one the body
/// names.
pub proof fn lemma_estimate_counts_utf8_bytes(c: TokenPreludeConfig, doc: Option<JsonValue>, e: TokenEstimate)
    requires
        estimate_of(c, doc, e),
    ensures
        e.text_bytes == match doc {
            Some(v) => encode_utf8(document_text(v)).len() as usize,
            None => 0usize,
        },
        e.text_bytes == document_text_bytes(doc),
        e.model@ == document_model(doc),
        c.token_prelude_coefficient.view().contains_key(e.model@) ==> e.coefficient == Some(
            c.token_prelude_coefficient.view()[e.model@],
        ),
        !c.token_prelude_coefficient.view().contains_key(e.model@) && c.token_prelude_coefficient.view().contains_key(
            "default"@,
        ) ==> e.coefficient == Some(c.token_prelude_coefficient.view()["default"@]),
        !c.token_prelude_coefficient.view().contains_key(e.model@) && !c.token_prelude_coefficient.view().contains_key(
            "default"@,
        ) ==> e.coefficient is None,
        c.token_high_threshold.view().contains_key(e.model@) ==> e.high_threshold == Some(
            c.token_high_threshold.view()[e.model@],
        ),
        !c.token_high_threshold.view().contains_key(e.model@) && c.token_high_threshold.view().contains_key(
            "default"@,
        ) ==> e.high_threshold == Some(c.token_high_threshold.view()["default"@]),
        c.token_low_threshold.view().contains_key(e.model@) ==> e.low_threshold == Some(
            c.token_low_threshold.view()[e.model@],
        ),
        !c.token_low_threshold.view().contains_key(e.model@) && c.token_low_threshold.view().contains_key(
            "default"@,
        ) ==> e.low_threshold == Some(c.token_low_threshold.view()["default"@]),
{
}

/// The model a body names is its `model` member when that is a string, and
/// the empty string when the body does not parse or names none.
pub proof fn lemma_model_is_the_model_member(doc: Option<JsonValue>)
    ensures
        doc is None ==> document_model(doc) == Seq::<char>::empty(),
        doc matches Some(v) ==> match json_get(v, "model"@) {
            Some(JsonValue::Str(m)) => document_model(doc) == m@,
            _ => document_model(doc) == Seq::<char>::empty(),
        },
{
}

/// The UTF-8 size of a text is at least its number of characters, and
/// exceeds it as soon as one character lies outside ASCII.
pub proof fn lemma_utf8_bytes_at_least_chars(t: Seq<char>)
    ensures
        encode_utf8(t).len() >= t.len(),
        (exists|i: int| 0 <= i < t.len() && (#[trigger] t[i]) as u32 >= 128) ==> encode_utf8(t).len() > t.len(),
    decreases t.len(),
{
    vstd::utf8::encode_utf8_valid_utf8(t);
    if t.len() > 0 {
        lemma_utf8_bytes_at_least_chars(t.drop_first());
        vstd::utf8::encode_utf8_first_scalar(t);
        vstd::utf8::char_is_scalar(t[0]);
        assert(encode_utf8(t) =~= vstd::utf8::encode_scalar(t[0] as u32) + encode_utf8(t.drop_first()));
        if exists|i: int| 0 <= i < t.len() && (#[trigger] t[i]) as u32 >= 128 {
            let i = choose|i: int| 0 <= i < t.len() && (#[trigger] t[i]) as u32 >= 128;
            if i > 0 {
                assert(t.drop_first()[i - 1] == t[i]);
            }
        }
    }
}

/// A message whose `content` is a string contributes exactly that string,
/// whatever its other members (its role among them).
pub proof fn lemma_string_content_counts(msg: JsonValue, s: String)
    requires
        json_get(msg, "content"@) == Some(JsonValue::Str(s)),
    ensures
        message_text(msg) == s@,
{
}

/// A message whose `content` is an array contributes the texts of its parts,
/// and a message without string or array content contributes nothing.
pub proof fn lemma_array_content_counts(msg: JsonValue)
    ensures
        json_get(msg, "content"@) matches Some(JsonValue::Array(parts)) ==> message_text(msg) == parts_text(parts@),
        !(json_get(msg, "content"@) matches Some(JsonValue::Str(_)))
            && !(json_get(msg, "content"@) matches Some(JsonValue::Array(_))) ==> message_text(msg) == Seq::<char>::empty(),
{
}

/// A part contributes its `text` string exactly when its `type` is `"text"`.
pub proof fn lemma_text_part_counts(part: JsonValue, t: String)
    ensures
        json_get(part, "type"@) == Some(JsonValue::Str(t)) && t@ == "text"@ ==> match json_get(part, "text"@) {
            Some(JsonValue::Str(x)) => part_text(part) == x@,
            _ => part_text(part) == Seq::<char>::empty(),
        },
        !(json_get(part, "type"@) matches Some(JsonValue::Str(ty)) && ty@ == "text"@) ==> part_text(part)
            == Seq::<char>::empty(),
{
}

/// The texts of two runs of messages, one after the other, are the text of
/// the joined run.
pub proof fn lemma_messages_text_concat(a: Seq<JsonValue>, b: Seq<JsonValue>)
    ensures
        messages_text(a + b) == messages_text(a) + messages_text(b),
    decreases b.len(),
{
    if b.len() == 0 {
        assert(a + b =~= a);
        assert(messages_text(a) + Seq::<char>::empty() =~= messages_text(a));
    } else {
        lemma_messages_text_concat(a, b.drop_last());
        assert((a + b).drop_last() =~= a + b.drop_last());
        assert((a + b).last() == b.last());
        assert(messages_text(a) + messages_text(b.drop_last()) + message_text(b.last())
            =~= messages_text(a) + (messages_text(b.drop_last()) + message_text(b.last())));
    }
}

/// The text of a document holds, in place, the text each of its messages
/// contributes: the texts of the messages before it, then its own, then
/// those after it.
pub proof fn lemma_document_text_holds_each_message(doc: JsonValue, msgs: Vec<JsonValue>, i: int)
    requires
        json_get(doc, "messages"@) == Some(JsonValue::Array(msgs)),
        0 <= i < msgs@.len(),
    ensures
        document_text(doc) == messages_text(msgs@.take(i)) + message_text(msgs@[i]) + messages_text(msgs@.skip(i + 1)),
        has_substring(document_text(doc), message_text(msgs@[i])),
{
    let ms = msgs@;
    let one = seq![ms[i]];
    assert(ms =~= ms.take(i) + one + ms.skip(i + 1));
    lemma_messages_text_concat(ms.take(i) + one, ms.skip(i + 1));
    lemma_messages_text_concat(ms.take(i), one);
    assert(one.drop_last() =~= Seq::<JsonValue>::empty());
    assert(messages_text(one.drop_last()) == Seq::<char>::empty());
    assert(one.last() == ms[i]);
    assert(Seq::<char>::empty() + message_text(ms[i]) =~= message_text(ms[i]));
    assert(messages_text(one) =~= message_text(ms[i]));
    let t = document_text(doc);
    let k = messages_text(ms.take(i)).len() as int;
    let w = message_text(ms[i]);
    assert(t.subrange(k, k + w.len()) =~= w);
    assert(crate::text::occurs_at(t, w, k));
}

/// With whitelist headers configured, a request is exempt exactly when one
/// of them is present with a value containing the configured value; the
/// model header then plays no part. Without any, exactly when the model
/// header contains `private`.
pub proof fn lemma_whitelist_decision(c: TokenPreludeConfig, m: MultiMap<String, String>)
    ensures
        c.whitelist_prelude_headers@.len() > 0 ==> (whitelisted(c, m) <==> exists|i: int|
            0 <= i < c.whitelist_prelude_headers@.len() && (first_header(
                m,
                (#[trigger] c.whitelist_prelude_headers@[i]).key@,
            ) matches Some(v) && has_substring(v, c.whitelist_prelude_headers@[i].value@))),
        c.whitelist_prelude_headers@.len() == 0 ==> (whitelisted(c, m) <==> (first_header(m, MODEL_HEADER@) matches Some(v)
            && has_substring(v, PRIVATE_MODEL_KEY@))),
{
}

/// With need headers configured, a request asks for estimation exactly when
/// one of them is present with exactly the configured value; without any,
/// exactly when its provider is `internal`.
pub proof fn lemma_need_decision(c: TokenPreludeConfig, m: MultiMap<String, String>)
    ensures
        c.need_prelude_headers@.len() > 0 ==> (needs_prelude(c, m) <==> exists|i: int|
            0 <= i < c.need_prelude_headers@.len() && first_header(
                m,
                (#[trigger] c.need_prelude_headers@[i]).key@,
            ) == Some(c.need_prelude_headers@[i].value@)),
        c.need_prelude_headers@.len() == 0 ==> (needs_prelude(c, m) <==> first_header(m, PROVIDER_HEADER@) == Some(
            PROVIDER_INTERNAL@,
        )),
{
}

/// With forbid headers configured, a request refuses estimation exactly when
/// one of them is present with exactly the configured value; without any,
/// exactly when its model-kind header is exactly `internal`.
pub proof fn lemma_forbid_decision(c: TokenPreludeConfig, m: MultiMap<String, String>)
    ensures
        c.forbid_prelude_headers@.len() > 0 ==> (forbids_prelude(c, m) <==> exists|i: int|
            0 <= i < c.forbid_prelude_headers@.len() && first_header(
                m,
                (#[trigger] c.forbid_prelude_headers@[i]).key@,
            ) == Some(c.forbid_prelude_headers@[i].value@)),
        c.forbid_prelude_headers@.len() == 0 ==> (forbids_prelude(c, m) <==> first_header(m, WQ_USE_MODEL_HEADER@)
            == Some(WQ_USE_MODEL_INTERNAL@)),
{
    lemma_internal_model_only_is_exact_match(m);
}

/// A pilot reply whose body parses is refused for its status exactly when
/// the status is not 200; a reply whose body does not parse is refused for
/// its body, whatever the status.
pub proof fn lemma_reply_status_decides(status: u16, doc: Option<JsonValue>, r: PilotReply)
    requires
        reply_outcome(status, doc, r),
    ensures
        doc is None ==> r is BadBody,
        doc is Some && status != 200 ==> r is BadStatus,
        doc is Some && status == 200 ==> r is Precise,
{
}

/// The pilot call forwards the request body unchanged, as a `POST` to the
/// configured service, port and path.
pub proof fn lemma_pilot_call_forwards_body(pilot: PilotConfig, body: Seq<u8>, call: PilotCall)
    requires
        describes_pilot_call(pilot, body, call),
    ensures
        call.body@ == body,
        call.method is Post,
        pilot.service_port == Some(call.service_port),
        call.service_name@ == pilot.service_name@,
        call.service_domain@ == pilot.service_domain@,
        call.path@ == pilot.service_path@,
{
}

} // verus!
