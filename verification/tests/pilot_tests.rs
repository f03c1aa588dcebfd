use ai_token_prelude::config::PilotConfig;
use ai_token_prelude::pilot::{
    dispatch_step, headers_with, pilot_call, pilot_reply, DataStep, HttpMethod, PilotReply, DEFAULT_TIME_OUT,
};
use std::collections::HashMap;

#[test]
fn reply_with_number_data_gives_its_text() {
    match pilot_reply(200, Some(br#"{"data": 1234}"#.to_vec())) {
        PilotReply::Precise(Some(t)) => assert_eq!(t, "1234"),
        _ => panic!("expected a count"),
    }
    match pilot_reply(200, Some(br#"{"data": 12.5, "x": 1}"#.to_vec())) {
        PilotReply::Precise(Some(t)) => assert_eq!(t.parse::<f64>().unwrap(), 12.5),
        _ => panic!("expected a count"),
    }
}

#[test]
fn reply_without_numeric_data_gives_no_count() {
    assert!(matches!(pilot_reply(200, Some(br#"{"data": "12"}"#.to_vec())), PilotReply::Precise(None)));
    assert!(matches!(pilot_reply(200, Some(br#"{}"#.to_vec())), PilotReply::Precise(None)));
    assert!(matches!(pilot_reply(200, Some(b"[1]".to_vec())), PilotReply::Precise(None)));
}

#[test]
fn bad_reply_resumes_the_response() {
    assert!(matches!(pilot_reply(500, Some(br#"{"data": 1}"#.to_vec())), PilotReply::BadStatus));
    assert!(matches!(pilot_reply(200, Some(b"oops".to_vec())), PilotReply::BadBody));
    assert!(matches!(pilot_reply(500, Some(b"oops".to_vec())), PilotReply::BadBody));
    assert!(matches!(pilot_reply(200, None), PilotReply::BadBody));
}

#[test]
fn pilot_call_uses_the_configured_service() {
    let p = PilotConfig {
        service_name: "ai-token-pilot".to_string(),
        service_port: Some(8000),
        service_domain: "pilot.svc".to_string(),
        service_path: "/count".to_string(),
    };
    let c = pilot_call(&p, br#"{"model":"m"}"#);
    assert!(matches!(c.method, HttpMethod::Post));
    assert_eq!(c.body, br#"{"model":"m"}"#.to_vec());
    assert_eq!(c.service_name, "ai-token-pilot");
    assert_eq!(c.service_domain, "pilot.svc");
    assert_eq!(c.service_port, 8000);
    assert_eq!(c.path, "/count");
    assert_eq!(c.headers, vec![("Content-Type".to_string(), "application/json".to_string())]);
    assert_eq!(c.timeout_secs, DEFAULT_TIME_OUT);
    assert_eq!(DEFAULT_TIME_OUT, 120000);
}

#[test]
fn headers_with_sets_one_header_and_keeps_the_last_of_the_others() {
    let h = vec![
        ("a".to_string(), "1".to_string()),
        ("x-ks-token-prelude".to_string(), "old".to_string()),
        ("a".to_string(), "2".to_string()),
    ];
    let r = headers_with(h, "x-ks-token-prelude", "42".to_string());
    assert_eq!(r.len(), 2);
    let m: HashMap<String, String> = r.into_iter().collect();
    assert_eq!(m.get("a").map(|s| s.as_str()), Some("2"));
    assert_eq!(m.get("x-ks-token-prelude").map(|s| s.as_str()), Some("42"));
    let r = headers_with(vec![], "k", "v".to_string());
    assert_eq!(r, vec![("k".to_string(), "v".to_string())]);
}

#[test]
fn dispatch_holds_the_request_only_when_the_call_went_out() {
    assert!(matches!(dispatch_step(true), DataStep::StopIterationAndBuffer));
    assert!(matches!(dispatch_step(false), DataStep::Continue));
}
