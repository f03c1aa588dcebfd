use ai_token_prelude::config::{
    default_pilot_domain, default_pilot_name, default_pilot_path, default_pilot_port, default_version,
    rule_value_from_json, support_models_from_json, ConfigError, Operator, PilotConfig, RuleItem,
    RuleValue, TokenPreludeConfig,
};
use ai_token_prelude::json::JsonValue;
use ai_token_prelude::table::NameTable;

fn s(x: &str) -> JsonValue {
    JsonValue::Str(x.to_string())
}

#[test]
fn default_pilot_values() {
    assert_eq!(default_pilot_name(), "ai-token-pilot");
    assert_eq!(default_pilot_port(), Some(8000));
    assert_eq!(default_pilot_domain(), "ai-token-pilot.higress-system.svc");
    assert_eq!(default_pilot_path(), "/healthz");
    assert_eq!(default_version(), "v1");
}

#[test]
fn pilot_config_default_is_empty_not_the_field_defaults() {
    let p = PilotConfig::default();
    assert_eq!(p.service_name, "");
    assert_eq!(p.service_port, None);
    assert_eq!(p.service_domain, "");
    assert_eq!(p.service_path, "");
}

#[test]
fn token_prelude_config_default_is_inactive_and_empty() {
    let c = TokenPreludeConfig::default();
    assert!(!c.active);
    assert_eq!(c.version, "");
    assert!(c.need_prelude_headers.is_empty());
    assert_eq!(c.support_models.len(), 0);
    assert_eq!(c.token_high_threshold.len(), 0);
    assert_eq!(c.pilot_service.service_port, None);
}

#[test]
fn rule_defaults() {
    let item = RuleItem::default();
    assert_eq!(item.key, "");
    assert!(matches!(item.operator, Operator::In));
    assert!(matches!(item.value, RuleValue::Str(ref v) if v.is_empty()));
}

#[test]
fn rule_value_from_string() {
    match rule_value_from_json(&s("gpt-4")) {
        Ok(RuleValue::Str(v)) => assert_eq!(v, "gpt-4"),
        _ => panic!("expected a string rule value"),
    }
}

#[test]
fn rule_value_from_array_collapses_duplicates() {
    let v = JsonValue::Array(vec![s("a"), s("b"), s("a")]);
    match rule_value_from_json(&v) {
        Ok(RuleValue::Names(t)) => {
            assert_eq!(t.len(), 2);
            assert!(t.contains("a"));
            assert!(t.contains("b"));
            assert!(!t.contains("c"));
        }
        _ => panic!("expected a set rule value"),
    }
}

#[test]
fn rule_value_rejects_non_string_item() {
    let v = JsonValue::Array(vec![s("a"), JsonValue::Bool(true)]);
    let e = rule_value_from_json(&v).err().unwrap();
    assert!(matches!(e, ConfigError::RuleValueItemNotString));
    assert_eq!(e.message(), "rule_value expected string in array");
}

#[test]
fn rule_value_rejects_other_types() {
    let e = rule_value_from_json(&JsonValue::Number("3".to_string())).err().unwrap();
    assert!(matches!(e, ConfigError::RuleValueType));
    assert_eq!(e.message(), "rule_value unexpected value type");
    assert!(matches!(rule_value_from_json(&JsonValue::Null), Err(ConfigError::RuleValueType)));
}

#[test]
fn support_models_from_array() {
    let v = JsonValue::Array(vec![s("qwen"), s("deepseek")]);
    let t = support_models_from_json(&v).ok().unwrap();
    assert_eq!(t.len(), 2);
    assert!(t.contains("qwen"));
    assert!(t.contains("deepseek"));
    assert!(!t.contains("gpt"));
}

#[test]
fn support_models_from_empty_array() {
    let t = support_models_from_json(&JsonValue::Array(vec![])).ok().unwrap();
    assert_eq!(t.len(), 0);
}

#[test]
fn support_models_errors() {
    let e = support_models_from_json(&JsonValue::Array(vec![s("a"), JsonValue::Null])).err().unwrap();
    assert!(matches!(e, ConfigError::SupportModelsItemNotString));
    assert_eq!(e.message(), "support_models expected string in array");
    let e = support_models_from_json(&s("a")).err().unwrap();
    assert!(matches!(e, ConfigError::SupportModelsType));
    assert_eq!(e.message(), "support_models unexpected value type");
}

#[test]
fn table_insert_replaces_and_lookup_falls_back_to_default() {
    let mut t: NameTable<u64> = NameTable::new();
    t.insert("gpt".to_string(), 1);
    t.insert("default".to_string(), 7);
    t.insert("gpt".to_string(), 2);
    assert_eq!(t.len(), 2);
    assert_eq!(t.get("gpt"), Some(&2));
    assert_eq!(t.lookup_model("gpt"), Some(2));
    assert_eq!(t.lookup_model("other"), Some(7));
    let mut u: NameTable<u64> = NameTable::new();
    u.insert("gpt".to_string(), 1);
    assert_eq!(u.lookup_model("other"), None);
    let names: Vec<&str> = t.entries().iter().map(|(k, _)| k.as_str()).collect();
    assert_eq!(names, vec!["gpt", "default"]);
}
