//! The per-request decisions of the plugin: whether a request is held back
//! for token estimation, what its body yields for the estimate, and what the
//! response reports.

use multimap::MultiMap;
use vstd::prelude::*;
use vstd::utf8::encode_utf8;
use crate::body::{document_text, document_model, document_text_bytes, model_of, text_bytes_of};
use crate::config::{Header, TokenPreludeConfig};
use crate::headers::{first_header, get_first};
use crate::json::{parse_json, parsed_json};
use crate::pilot::{PilotCall, describes_pilot_call, pilot_call};
use crate::table::{NameTable, model_or_default};
use crate::text::{has_substring, split_by, split_chars, chars_of, same_chars, contains_text};

verus! {

/// The request header that names the provider of the caller.
pub const PROVIDER_HEADER: &'static str = "x-ks-provider";
/// The provider value of internal callers.
pub const PROVIDER_INTERNAL: &'static str = "internal";
/// The request header that lists the kinds of model a caller may use.
pub const WQ_USE_MODEL_HEADER: &'static str = "x-wq-use-model-type";
/// The kind of model of internal callers.
pub const WQ_USE_MODEL_INTERNAL: &'static str = "internal";
/// The request header that names the model.
pub const MODEL_HEADER: &'static str = "x-higress-llm-model";
/// Text that marks a private model.
pub const PRIVATE_MODEL_KEY: &'static str = "private";
/// The header, request and response, and context key that carry the token count.
pub const TOKEN_PRELUDE_HEADER: &'static str = "x-ks-token-prelude";
/// The context key that marks a request held back for estimation.
pub const NEED_TOKEN_PRELUDE_CTX: &'static str = "need-token-prelude";

/// A value stored in a request's context.
pub enum ContextValue {
    Bool(bool),
    Str(String),
}

/// The flag stored under `key`; false when nothing or no flag is stored.
pub open spec fn context_flag(ctx: Map<Seq<char>, ContextValue>, key: Seq<char>) -> bool {
    ctx.contains_key(key) && (ctx[key] matches ContextValue::Bool(b) && b)
}

/// The text stored under `key`; empty when nothing or no text is stored.
pub open spec fn context_text(ctx: Map<Seq<char>, ContextValue>, key: Seq<char>) -> Seq<char> {
    if ctx.contains_key(key) && ctx[key] is Str {
        ctx[key]->Str_0@
    } else {
        Seq::empty()
    }
}

/// The caller is internal: its provider header is `internal`.
pub open spec fn internal_request(m: MultiMap<String, String>) -> bool {
    first_header(m, PROVIDER_HEADER@) == Some(PROVIDER_INTERNAL@)
}

/// The model header names a private model.
pub open spec fn private_request(m: MultiMap<String, String>) -> bool {
    first_header(m, MODEL_HEADER@) matches Some(v) && has_substring(v, PRIVATE_MODEL_KEY@)
}

/// The caller may use internal models only: its model-kind header, split at
/// commas, is the single kind `internal`.
pub open spec fn internal_model_only(m: MultiMap<String, String>) -> bool {
    first_header(m, WQ_USE_MODEL_HEADER@) matches Some(v) && split_by(v, ',').len() == 1
        && split_by(v, ',').contains(WQ_USE_MODEL_INTERNAL@)
}

/// Some listed header is present with exactly the listed value.
pub open spec fn some_header_equal(m: MultiMap<String, String>, hs: Seq<Header>) -> bool {
    exists|i: int| 0 <= i < hs.len() && first_header(m, (#[trigger] hs[i]).key@) == Some(hs[i].value@)
}

/// Some listed header is present with a value that contains the listed value.
pub open spec fn some_header_containing(m: MultiMap<String, String>, hs: Seq<Header>) -> bool {
    exists|i: int|
        0 <= i < hs.len() && (first_header(m, (#[trigger] hs[i]).key@) matches Some(v) && has_substring(
            v,
            hs[i].value@,
        ))
}

/// The request asks for token estimation.
pub open spec fn needs_prelude(c: TokenPreludeConfig, m: MultiMap<String, String>) -> bool {
    if c.need_prelude_headers@.len() == 0 {
        internal_request(m)
    } else {
        some_header_equal(m, c.need_prelude_headers@)
    }
}

/// The request refuses token estimation.
pub open spec fn forbids_prelude(c: TokenPreludeConfig, m: MultiMap<String, String>) -> bool {
    if c.forbid_prelude_headers@.len() == 0 {
        internal_model_only(m)
    } else {
        some_header_equal(m, c.forbid_prelude_headers@)
    }
}

/// The request is exempt from token estimation.
pub open spec fn whitelisted(c: TokenPreludeConfig, m: MultiMap<String, String>) -> bool {
    if c.whitelist_prelude_headers@.len() == 0 {
        private_request(m)
    } else {
        some_header_containing(m, c.whitelist_prelude_headers@)
    }
}

/// An active configuration holds the request back for estimation when it
/// asks for it, does not refuse it, is not exempt and has a body.
pub open spec fn holds_request(
    config: Option<TokenPreludeConfig>,
    m: MultiMap<String, String>,
    has_body: bool,
) -> bool {
    config matches Some(c) && c.active && needs_prelude(c, m) && !forbids_prelude(c, m)
        && !whitelisted(c, m) && has_body
}

/// What the request-headers phase does with the request.
pub enum HeaderStep {
    /// Let the request go on.
    Continue,
    /// Hold the request until its body has been read.
    StopIteration,
}

/// What the request body yields for the fuzzy token estimate.
pub struct TokenEstimate {
    /// The model the body names.
    pub model: String,
    /// The number of UTF-8 bytes of the messages' text.
    pub text_bytes: usize,
    /// The coefficient for the model (as `f64` bits), if configured.
    pub coefficient: Option<u64>,
    /// The high threshold for the model (as `f64` bits), if configured.
    pub high_threshold: Option<u64>,
    /// The low threshold for the model (as `f64` bits), if configured.
    pub low_threshold: Option<u64>,
}

/// What the request-body phase does with the request.
pub enum BodyStep {
    /// Let the request go on unchanged.
    Continue,
    /// Estimate the tokens of the body from these figures.
    Estimate(TokenEstimate),
}

/// The library's part of the per-request plugin state: the configuration
/// handed over, the request's context, and the context id.
pub struct TokenPrelude {
    pub config: Option<TokenPreludeConfig>,
    pub user_context: NameTable<ContextValue>,
    pub cid: i64,
}

impl TokenPrelude {
    /// The request's context.
    pub open spec fn context(&self) -> Map<Seq<char>, ContextValue> {
        self.user_context.view()
    }

    /// The configuration, where there is one, and the context are well formed.
    pub open spec fn wf(&self) -> bool {
        &&& self.user_context.wf()
        &&& (self.config matches Some(c) ==> c.wf())
    }

    /// A fresh request state with no configuration and an empty context.
    pub fn new(cid: i64) -> (r: Self)
        ensures
            r.wf(),
            r.config is None,
            r.context() == Map::<Seq<char>, ContextValue>::empty(),
            r.cid == cid,
    {
        TokenPrelude { config: None, user_context: NameTable::new(), cid }
    }

    /// Takes the configuration that applies to this request.
    pub fn on_config(&mut self, config: TokenPreludeConfig)
        requires
            old(self).wf(),
            config.wf(),
        ensures
            final(self).wf(),
            final(self).config == Some(config),
            final(self).context() == old(self).context(),
            final(self).cid == old(self).cid,
    {
        self.config = Some(config);
    }

    /// Stores `value` in the context under `key`, replacing what was there.
    pub fn set_context(&mut self, key: &str, value: ContextValue)
        requires
            old(self).wf(),
        ensures
            final(self).wf(),
            final(self).context() == old(self).context().insert(key@, value),
            final(self).config == old(self).config,
            final(self).cid == old(self).cid,
    {
        self.user_context.insert(String::from_str(key), value);
    }

    /// The flag stored under `key`, false when there is none.
    pub fn get_bool_context(&self, key: &str) -> (r: bool)
        requires
            self.wf(),
        ensures
            r == context_flag(self.context(), key@),
    {
        match self.user_context.get(key) {
            Some(ContextValue::Bool(b)) => *b,
            _ => false,
        }
    }

    /// The text stored under `key`, empty when there is none.
    pub fn get_string_context(&self, key: &str) -> (r: &str)
        requires
            self.wf(),
        ensures
            r@ == context_text(self.context(), key@),
    {
        match self.user_context.get(key) {
            Some(ContextValue::Str(s)) => s.as_str(),
            _ => {
                proof {
                    reveal_strlit("");
                }
                ""
            },
        }
    }

    /// Whether the caller is internal.
    pub fn is_internal_request(&self, headers: &MultiMap<String, String>) -> (r: bool)
        ensures
            r == internal_request(*headers),
    {
        match get_first(headers, PROVIDER_HEADER) {
            Some(provider) => *provider == String::from_str(PROVIDER_INTERNAL),
            None => false,
        }
    }

    /// Whether the model header names a private model.
    pub fn is_private_request(&self, headers: &MultiMap<String, String>) -> (r: bool)
        ensures
            r == private_request(*headers),
    {
        match get_first(headers, MODEL_HEADER) {
            Some(model) => contains_text(model.as_str(), PRIVATE_MODEL_KEY),
            None => false,
        }
    }

    /// Whether the caller may use internal models only.
    pub fn only_internal_model(&self, headers: &MultiMap<String, String>) -> (r: bool)
        ensures
            r == internal_model_only(*headers),
    {
        match get_first(headers, WQ_USE_MODEL_HEADER) {
            Some(kinds) => {
                let pieces = split_chars(kinds.as_str(), ',');
                if pieces.len() != 1 {
                    return false;
                }
                let want = chars_of(WQ_USE_MODEL_INTERNAL);
                let r = same_chars(&pieces[0], &want);
                proof {
                    let sp = split_by(kinds@, ',');
                    if r {
                        assert(sp[0] == WQ_USE_MODEL_INTERNAL@);
                    }
                    if sp.contains(WQ_USE_MODEL_INTERNAL@) {
                        let k = choose|k: int| 0 <= k < sp.len() && sp[k] == WQ_USE_MODEL_INTERNAL@;
                        assert(k == 0);
                    }
                }
                r
            },
            None => false,
        }
    }

    /// Whether some header of `hs` is present with exactly its value.
    fn some_header_equal(headers: &MultiMap<String, String>, hs: &Vec<Header>) -> (r: bool)
        ensures
            r == some_header_equal(*headers, hs@),
    {
        let mut i: usize = 0;
        while i < hs.len()
            invariant
                i <= hs@.len(),
                forall|j: int| 0 <= j < i ==> first_header(*headers, (#[trigger] hs@[j]).key@) != Some(hs@[j].value@),
            decreases hs.len() - i,
        {
            let h = &hs[i];
            match get_first(headers, h.key.as_str()) {
                Some(v) => {
                    if *v == h.value {
                        return true;
                    }
                },
                None => {},
            }
            i += 1;
        }
        false
    }

    /// Whether some header of `hs` is present with a value containing its value.
    fn some_header_containing(headers: &MultiMap<String, String>, hs: &Vec<Header>) -> (r: bool)
        ensures
            r == some_header_containing(*headers, hs@),
    {
        let mut i: usize = 0;
        while i < hs.len()
            invariant
                i <= hs@.len(),
                forall|j: int|
                    0 <= j < i ==> !(first_header(*headers, (#[trigger] hs@[j]).key@) matches Some(v)
                        && has_substring(v, hs@[j].value@)),
            decreases hs.len() - i,
        {
            let h = &hs[i];
            match get_first(headers, h.key.as_str()) {
                Some(v) => {
                    if contains_text(v.as_str(), h.value.as_str()) {
                        return true;
                    }
                },
                None => {},
            }
            i += 1;
        }
        false
    }

    /// Whether the request asks for token estimation: one of the configured
    /// headers matches exactly, or, with none configured, the caller is internal.
    pub fn need_prelude(&self, config: &TokenPreludeConfig, headers: &MultiMap<String, String>) -> (r: bool)
        ensures
            r == needs_prelude(*config, *headers),
            config.need_prelude_headers@.len() > 0 ==> (r <==> exists|i: int|
                0 <= i < config.need_prelude_headers@.len() && first_header(
                    *headers,
                    (#[trigger] config.need_prelude_headers@[i]).key@,
                ) == Some(config.need_prelude_headers@[i].value@)),
            config.need_prelude_headers@.len() == 0 ==> (r <==> first_header(*headers, PROVIDER_HEADER@) == Some(PROVIDER_INTERNAL@)),
    {
        if config.need_prelude_headers.len() == 0 {
            return self.is_internal_request(headers);
        }
        Self::some_header_equal(headers, &config.need_prelude_headers)
    }

    /// Whether the request refuses token estimation: one of the configured
    /// headers matches exactly, or, with none configured, the caller may use
    /// internal models only.
    pub fn forbid_prelude(&self, config: &TokenPreludeConfig, headers: &MultiMap<String, String>) -> (r: bool)
        ensures
            r == forbids_prelude(*config, *headers),
            config.forbid_prelude_headers@.len() > 0 ==> (r <==> exists|i: int|
                0 <= i < config.forbid_prelude_headers@.len() && first_header(
                    *headers,
                    (#[trigger] config.forbid_prelude_headers@[i]).key@,
                ) == Some(config.forbid_prelude_headers@[i].value@)),
    {
        if config.forbid_prelude_headers.len() == 0 {
            return self.only_internal_model(headers);
        }
        Self::some_header_equal(headers, &config.forbid_prelude_headers)
    }

    /// Whether the request is exempt: one of the configured headers contains
    /// its value, or, with none configured, the model is private.
    pub fn in_prelude_whitelist(&self, config: &TokenPreludeConfig, headers: &MultiMap<String, String>) -> (r: bool)
        ensures
            r == whitelisted(*config, *headers),
            config.whitelist_prelude_headers@.len() > 0 ==> (r <==> exists|i: int|
                0 <= i < config.whitelist_prelude_headers@.len() && (first_header(
                    *headers,
                    (#[trigger] config.whitelist_prelude_headers@[i]).key@,
                ) matches Some(v) && has_substring(v, config.whitelist_prelude_headers@[i].value@))),
            config.whitelist_prelude_headers@.len() == 0 ==> (r <==> (first_header(*headers, MODEL_HEADER@) matches Some(v)
                && has_substring(v, PRIVATE_MODEL_KEY@))),
    {
        if config.whitelist_prelude_headers.len() == 0 {
            return self.is_private_request(headers);
        }
        Self::some_header_containing(headers, &config.whitelist_prelude_headers)
    }

    /// Whether `model` is one of the supported models.
    pub fn support_prelude(&self, config: &TokenPreludeConfig, model: &str) -> (r: bool)
        requires
            config.wf(),
        ensures
            r == config.support_models.view().contains_key(model@),
    {
        config.support_models.contains(model)
    }

    /// Whether an active configuration wants this request's tokens estimated:
    /// it asks for it, does not refuse it and is not exempt. Only then does
    /// the request-headers phase ask the host whether there is a body.
    pub fn wants_prelude(&self, headers: &MultiMap<String, String>) -> (r: bool)
        requires
            self.wf(),
        ensures
            r == holds_request(self.config, *headers, true),
    {
        let config = match &self.config {
            Some(c) => c,
            None => return false,
        };
        config.active && self.need_prelude(config, headers) && !self.forbid_prelude(config, headers)
            && !self.in_prelude_whitelist(config, headers)
    }

    /// The call to the pilot for a precise count of `body`, or `None` when
    /// the plugin state is gone. A live state must have a configuration that
    /// names a pilot port.
    pub fn calculate_body_token_precisely(&self, self_alive: bool, body: &[u8]) -> (r: Option<PilotCall>)
        requires
            self.wf(),
            self_alive ==> (self.config matches Some(c) && c.pilot_service.service_port is Some),
        ensures
            (r is Some) == self_alive,
            r matches Some(call) ==> describes_pilot_call(self.config->0.pilot_service, body@, call),
            r matches Some(call) ==> call.body@ == body@ && call.method is Post,
    {
        if !self_alive {
            return None;
        }
        match &self.config {
            Some(c) => Some(pilot_call(&c.pilot_service, body)),
            None => None,
        }
    }

    /// The request-headers phase: holds the request back, and marks it in the
    /// context, when an active configuration wants its tokens estimated and
    /// it has a body (`has_body`, as the host reports it).
    pub fn on_http_request_complete_headers(
        &mut self,
        headers: &MultiMap<String, String>,
        has_body: bool,
    ) -> (r: HeaderStep)
        requires
            old(self).wf(),
        ensures
            final(self).wf(),
            final(self).config == old(self).config,
            final(self).cid == old(self).cid,
            (r is StopIteration) == holds_request(old(self).config, *headers, has_body),
            final(self).context() == if r is StopIteration {
                old(self).context().insert(NEED_TOKEN_PRELUDE_CTX@, ContextValue::Bool(true))
            } else {
                old(self).context()
            },
    {
        let config = match &self.config {
            Some(c) => c,
            None => return HeaderStep::Continue,
        };
        if !config.active {
            return HeaderStep::Continue;
        }
        if !self.need_prelude(config, headers) {
            return HeaderStep::Continue;
        }
        if self.forbid_prelude(config, headers) {
            return HeaderStep::Continue;
        }
        if self.in_prelude_whitelist(config, headers) {
            return HeaderStep::Continue;
        }
        if !has_body {
            return HeaderStep::Continue;
        }
        self.set_context(NEED_TOKEN_PRELUDE_CTX, ContextValue::Bool(true));
        HeaderStep::StopIteration
    }

    /// The response-headers phase: the value of the token-count response
    /// header, or `None` when the header is left alone (the plugin state is
    /// gone, there is no configuration, or it is inactive). The value is the
    /// count stored in the context, or `0` when none is stored.
    pub fn on_http_response_complete_headers(&self, self_alive: bool) -> (r: Option<String>)
        requires
            self.wf(),
        ensures
            (r is Some) == (self_alive && (self.config matches Some(c) && c.active)),
            r matches Some(v) ==> v@ == response_token_header(self.context()),
    {
        if !self_alive {
            return None;
        }
        let config = match &self.config {
            Some(c) => c,
            None => return None,
        };
        if !config.active {
            return None;
        }
        let stored = self.get_string_context(TOKEN_PRELUDE_HEADER);
        proof {
            reveal_strlit("");
            assert(""@ =~= Seq::<char>::empty());
        }
        if crate::text::same_text(stored, "") {
            Some(String::from_str("0"))
        } else {
            Some(String::from_str(stored))
        }
    }

    /// What the response-headers phase answers the host: it always lets the
    /// response go on, whether or not it sets the token-count header.
    pub fn response_header_step(&self) -> (r: HeaderStep)
        ensures
            r is Continue,
    {
        HeaderStep::Continue
    }

    /// The request-body phase: goes on unchanged unless the plugin state is
    /// alive, an active configuration is present, the request was held back,
    /// and the model the body names is supported; then gives the figures of
    /// the fuzzy token estimate for that model.
    pub fn on_http_request_complete_body(&self, self_alive: bool, body: &[u8]) -> (r: BodyStep)
        requires
            self.wf(),
        ensures
            (r is Estimate) == estimates_body(self.config, self.context(), self_alive, parsed_json(body@)),
            r matches BodyStep::Estimate(e) ==> estimate_of(self.config->0, parsed_json(body@), e),
            r matches BodyStep::Estimate(e) ==> e.text_bytes == match parsed_json(body@) {
                Some(v) => encode_utf8(document_text(v)).len() as usize,
                None => 0usize,
            },
    {
        let doc = parse_json(body);
        self.body_step(self_alive, &doc)
    }

    /// The request-body phase on a body already parsed: see
    /// `on_http_request_complete_body`.
    pub fn body_step(&self, self_alive: bool, doc: &Option<crate::json::JsonValue>) -> (r: BodyStep)
        requires
            self.wf(),
        ensures
            (r is Estimate) == estimates_body(self.config, self.context(), self_alive, *doc),
            r matches BodyStep::Estimate(e) ==> estimate_of(self.config->0, *doc, e),
            r matches BodyStep::Estimate(e) ==> e.text_bytes == match *doc {
                Some(v) => encode_utf8(document_text(v)).len() as usize,
                None => 0usize,
            },
    {
        if !self_alive {
            return BodyStep::Continue;
        }
        let config = match &self.config {
            Some(c) => c,
            None => return BodyStep::Continue,
        };
        if !config.active {
            return BodyStep::Continue;
        }
        if !self.get_bool_context(NEED_TOKEN_PRELUDE_CTX) {
            return BodyStep::Continue;
        }
        let model = model_of(doc);
        if !self.support_prelude(config, model.as_str()) {
            return BodyStep::Continue;
        }
        let coefficient = config.token_prelude_coefficient.lookup_model(model.as_str());
        let high_threshold = config.token_high_threshold.lookup_model(model.as_str());
        let low_threshold = config.token_low_threshold.lookup_model(model.as_str());
        let text_bytes = text_bytes_of(doc);
        BodyStep::Estimate(TokenEstimate { model, text_bytes, coefficient, high_threshold, low_threshold })
    }
}

/// The value of the token-count response header: the stored count, or `0`.
pub open spec fn response_token_header(ctx: Map<Seq<char>, ContextValue>) -> Seq<char> {
    if context_text(ctx, TOKEN_PRELUDE_HEADER@) == Seq::<char>::empty() {
        "0"@
    } else {
        context_text(ctx, TOKEN_PRELUDE_HEADER@)
    }
}

/// The body phase estimates tokens: the state is alive, the configuration
/// active, the request held back, and the model the body names supported.
pub open spec fn estimates_body(
    config: Option<TokenPreludeConfig>,
    ctx: Map<Seq<char>, ContextValue>,
    self_alive: bool,
    doc: Option<crate::json::JsonValue>,
) -> bool {
    &&& self_alive
    &&& config matches Some(c)
    &&& c.active
    &&& context_flag(ctx, NEED_TOKEN_PRELUDE_CTX@)
    &&& c.support_models.view().contains_key(document_model(doc))
}

/// The figures of the estimate: the model the body names, the size of its
/// text, and the model's (or the default) coefficient and thresholds.
pub open spec fn estimate_of(c: TokenPreludeConfig, doc: Option<crate::json::JsonValue>, e: TokenEstimate) -> bool {
    let model = document_model(doc);
    &&& e.model@ == model
    &&& e.text_bytes == document_text_bytes(doc)
    &&& e.coefficient == model_or_default(c.token_prelude_coefficient.view(), model)
    &&& e.high_threshold == model_or_default(c.token_high_threshold.view(), model)
    &&& e.low_threshold == model_or_default(c.token_low_threshold.view(), model)
}

} // verus!
