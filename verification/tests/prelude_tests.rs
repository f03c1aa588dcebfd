use ai_token_prelude::config::{Header, TokenPreludeConfig};
use ai_token_prelude::prelude::{
    BodyStep, ContextValue, HeaderStep, TokenPrelude, NEED_TOKEN_PRELUDE_CTX, TOKEN_PRELUDE_HEADER,
};
use multimap::MultiMap;

fn headers(pairs: &[(&str, &str)]) -> MultiMap<String, String> {
    let mut m = MultiMap::new();
    for (k, v) in pairs {
        m.insert(k.to_string(), v.to_string());
    }
    m
}

fn header(k: &str, v: &str) -> Header {
    Header { key: k.to_string(), value: v.to_string() }
}

fn active_config() -> TokenPreludeConfig {
    let mut c = TokenPreludeConfig::default();
    c.active = true;
    c.support_models.insert("qwen".to_string(), ());
    c
}

fn session(c: TokenPreludeConfig) -> TokenPrelude {
    let mut p = TokenPrelude::new(3);
    p.on_config(c);
    p
}

#[test]
fn context_reads_back_what_was_set() {
    let mut p = TokenPrelude::new(1);
    assert!(!p.get_bool_context("k"));
    assert_eq!(p.get_string_context("k"), "");
    p.set_context("k", ContextValue::Bool(true));
    assert!(p.get_bool_context("k"));
    assert_eq!(p.get_string_context("k"), "");
    p.set_context("k", ContextValue::Str("12".to_string()));
    assert!(!p.get_bool_context("k"));
    assert_eq!(p.get_string_context("k"), "12");
    p.set_context("j", ContextValue::Bool(false));
    assert_eq!(p.get_string_context("k"), "12");
    assert!(!p.get_bool_context("j"));
    assert_eq!(p.cid, 1);
}

#[test]
fn internal_provider_is_needed_by_default() {
    let p = session(active_config());
    let c = active_config();
    assert!(p.is_internal_request(&headers(&[("x-ks-provider", "internal")])));
    assert!(!p.is_internal_request(&headers(&[("x-ks-provider", "public")])));
    assert!(!p.is_internal_request(&headers(&[])));
    assert!(p.need_prelude(&c, &headers(&[("x-ks-provider", "internal")])));
    assert!(!p.need_prelude(&c, &headers(&[("x-ks-provider", "Internal")])));
}

#[test]
fn multimap_first_value_decides() {
    let p = session(active_config());
    let h = headers(&[("x-ks-provider", "public"), ("x-ks-provider", "internal")]);
    assert!(!p.is_internal_request(&h));
    let h = headers(&[("x-ks-provider", "internal"), ("x-ks-provider", "public")]);
    assert!(p.is_internal_request(&h));
}

#[test]
fn configured_need_headers_match_exactly() {
    let p = session(active_config());
    let mut c = active_config();
    c.need_prelude_headers = vec![header("x-a", "1"), header("x-b", "yes")];
    assert!(p.need_prelude(&c, &headers(&[("x-b", "yes")])));
    assert!(!p.need_prelude(&c, &headers(&[("x-b", "yes!")])));
    assert!(!p.need_prelude(&c, &headers(&[("x-ks-provider", "internal")])));
}

#[test]
fn only_internal_model_needs_a_single_internal_kind() {
    let p = session(active_config());
    let c = active_config();
    assert!(p.only_internal_model(&headers(&[("x-wq-use-model-type", "internal")])));
    assert!(!p.only_internal_model(&headers(&[("x-wq-use-model-type", "internal,public")])));
    assert!(!p.only_internal_model(&headers(&[("x-wq-use-model-type", "public")])));
    assert!(!p.only_internal_model(&headers(&[("x-wq-use-model-type", "internal,")])));
    assert!(!p.only_internal_model(&headers(&[])));
    assert!(p.forbid_prelude(&c, &headers(&[("x-wq-use-model-type", "internal")])));
}

#[test]
fn configured_forbid_headers_replace_the_default() {
    let p = session(active_config());
    let mut c = active_config();
    c.forbid_prelude_headers = vec![header("x-no", "1")];
    assert!(p.forbid_prelude(&c, &headers(&[("x-no", "1")])));
    assert!(!p.forbid_prelude(&c, &headers(&[("x-wq-use-model-type", "internal")])));
}

#[test]
fn private_model_is_whitelisted_by_default() {
    let p = session(active_config());
    let c = active_config();
    assert!(p.is_private_request(&headers(&[("x-higress-llm-model", "my-private-llm")])));
    assert!(!p.is_private_request(&headers(&[("x-higress-llm-model", "public")])));
    assert!(p.in_prelude_whitelist(&c, &headers(&[("x-higress-llm-model", "private")])));
}

#[test]
fn configured_whitelist_matches_by_containment() {
    let p = session(active_config());
    let mut c = active_config();
    c.whitelist_prelude_headers = vec![header("x-user", "vip")];
    assert!(p.in_prelude_whitelist(&c, &headers(&[("x-user", "gold-vip-1")])));
    assert!(!p.in_prelude_whitelist(&c, &headers(&[("x-user", "vi p")])));
    c.whitelist_prelude_headers = vec![header("x-user", "")];
    assert!(p.in_prelude_whitelist(&c, &headers(&[("x-user", "anything")])));
}

#[test]
fn support_prelude_checks_the_model_set() {
    let p = session(active_config());
    let c = active_config();
    assert!(p.support_prelude(&c, "qwen"));
    assert!(!p.support_prelude(&c, "gpt"));
}

#[test]
fn header_phase_holds_internal_requests_with_a_body() {
    let mut p = session(active_config());
    let h = headers(&[("x-ks-provider", "internal")]);
    assert!(matches!(p.on_http_request_complete_headers(&h, true), HeaderStep::StopIteration));
    assert!(p.get_bool_context(NEED_TOKEN_PRELUDE_CTX));
}

#[test]
fn header_phase_lets_other_requests_go() {
    let h = headers(&[("x-ks-provider", "internal")]);
    let mut p = session(active_config());
    assert!(matches!(p.on_http_request_complete_headers(&h, false), HeaderStep::Continue));
    assert!(!p.get_bool_context(NEED_TOKEN_PRELUDE_CTX));
    let mut p = TokenPrelude::new(0);
    assert!(matches!(p.on_http_request_complete_headers(&h, true), HeaderStep::Continue));
    let mut c = active_config();
    c.active = false;
    let mut p = session(c);
    assert!(matches!(p.on_http_request_complete_headers(&h, true), HeaderStep::Continue));
    let mut p = session(active_config());
    let h2 = headers(&[("x-ks-provider", "internal"), ("x-higress-llm-model", "private-x")]);
    assert!(matches!(p.on_http_request_complete_headers(&h2, true), HeaderStep::Continue));
    let h3 = headers(&[("x-ks-provider", "internal"), ("x-wq-use-model-type", "internal")]);
    assert!(matches!(p.on_http_request_complete_headers(&h3, true), HeaderStep::Continue));
    assert!(!p.get_bool_context(NEED_TOKEN_PRELUDE_CTX));
}

#[test]
fn response_header_reports_stored_count_or_zero() {
    let mut p = session(active_config());
    assert_eq!(p.on_http_response_complete_headers(true), Some("0".to_string()));
    p.set_context(TOKEN_PRELUDE_HEADER, ContextValue::Str("1234.5".to_string()));
    assert_eq!(p.on_http_response_complete_headers(true), Some("1234.5".to_string()));
    assert_eq!(p.on_http_response_complete_headers(false), None);
    assert_eq!(TokenPrelude::new(0).on_http_response_complete_headers(true), None);
}

#[test]
fn body_phase_estimates_held_requests_for_supported_models() {
    let mut c = active_config();
    c.token_prelude_coefficient.insert("default".to_string(), 0.5f64.to_bits());
    c.token_high_threshold.insert("qwen".to_string(), 100f64.to_bits());
    let mut p = session(c);
    let body = br#"{"model":"qwen","messages":[{"content":"hello"}]}"#;
    assert!(matches!(p.on_http_request_complete_body(true, body), BodyStep::Continue));
    p.set_context(NEED_TOKEN_PRELUDE_CTX, ContextValue::Bool(true));
    match p.on_http_request_complete_body(true, body) {
        BodyStep::Estimate(e) => {
            assert_eq!(e.model, "qwen");
            assert_eq!(e.text_bytes, 5);
            assert_eq!(e.coefficient, Some(0.5f64.to_bits()));
            assert_eq!(e.high_threshold, Some(100f64.to_bits()));
            assert_eq!(e.low_threshold, None);
        }
        BodyStep::Continue => panic!("expected an estimate"),
    }
    assert!(matches!(p.on_http_request_complete_body(false, body), BodyStep::Continue));
    let other = br#"{"model":"gpt","messages":[{"content":"hello"}]}"#;
    assert!(matches!(p.on_http_request_complete_body(true, other), BodyStep::Continue));
}

#[test]
fn body_phase_with_unparsable_body_uses_the_empty_model() {
    let mut c = active_config();
    c.support_models.insert("".to_string(), ());
    let mut p = session(c);
    p.set_context(NEED_TOKEN_PRELUDE_CTX, ContextValue::Bool(true));
    match p.on_http_request_complete_body(true, b"not json") {
        BodyStep::Estimate(e) => {
            assert_eq!(e.model, "");
            assert_eq!(e.text_bytes, 0);
        }
        BodyStep::Continue => panic!("expected an estimate"),
    }
}

#[test]
fn held_request_is_estimated_then_reported() {
    let mut p = session(active_config());
    let h = headers(&[("x-ks-provider", "internal")]);
    assert!(matches!(p.on_http_request_complete_headers(&h, true), HeaderStep::StopIteration));
    let body = br#"{"model":"qwen","messages":[{"content":"abc"}]}"#;
    let e = match p.on_http_request_complete_body(true, body) {
        BodyStep::Estimate(e) => e,
        BodyStep::Continue => panic!("expected an estimate"),
    };
    assert_eq!(e.text_bytes, 3);
    p.set_context(TOKEN_PRELUDE_HEADER, ContextValue::Str("0.99".to_string()));
    assert_eq!(p.on_http_response_complete_headers(true), Some("0.99".to_string()));
    let unsupported = br#"{"model":"gpt","messages":[{"content":"abc"}]}"#;
    assert!(matches!(p.on_http_request_complete_body(true, unsupported), BodyStep::Continue));
}

#[test]
fn wants_prelude_is_the_filter_part_of_the_header_phase() {
    let p = session(active_config());
    assert!(p.wants_prelude(&headers(&[("x-ks-provider", "internal")])));
    assert!(!p.wants_prelude(&headers(&[("x-ks-provider", "public")])));
    assert!(!p.wants_prelude(&headers(&[
        ("x-ks-provider", "internal"),
        ("x-higress-llm-model", "private"),
    ])));
    assert!(!TokenPrelude::new(0).wants_prelude(&headers(&[("x-ks-provider", "internal")])));
}

#[test]
fn precise_call_forwards_the_body_to_the_configured_pilot() {
    let mut c = active_config();
    c.pilot_service.service_name = "pilot".to_string();
    c.pilot_service.service_domain = "pilot.svc".to_string();
    c.pilot_service.service_port = Some(9000);
    c.pilot_service.service_path = "/count".to_string();
    let p = session(c);
    let body = br#"{"messages":[]}"#;
    let call = p.calculate_body_token_precisely(true, body).unwrap();
    assert_eq!(call.service_name, "pilot");
    assert_eq!(call.service_domain, "pilot.svc");
    assert_eq!(call.service_port, 9000);
    assert_eq!(call.path, "/count");
    assert_eq!(call.body, body.to_vec());
    assert!(p.calculate_body_token_precisely(false, body).is_none());
}

#[test]
fn dead_state_without_a_port_makes_no_call() {
    let p = session(active_config());
    assert!(p.calculate_body_token_precisely(false, b"{}").is_none());
    assert!(TokenPrelude::new(0).calculate_body_token_precisely(false, b"{}").is_none());
}

#[test]
fn response_phase_always_continues() {
    let mut p = session(active_config());
    assert!(matches!(p.response_header_step(), HeaderStep::Continue));
    p.set_context(TOKEN_PRELUDE_HEADER, ContextValue::Str("5".to_string()));
    assert!(matches!(p.response_header_step(), HeaderStep::Continue));
    assert!(matches!(TokenPrelude::new(0).response_header_step(), HeaderStep::Continue));
}
