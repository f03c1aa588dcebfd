//! The plugin's configuration and the parts of reading it that decide
//! something: the defaults, and the shapes a rule value and the list of
//! supported models may take.

use vstd::prelude::*;
use crate::json::{JsonValue, json_str};
use crate::table::NameTable;

verus! {

/// A set of names (a `HashMap<String, ()>` in the configuration format).
pub type NameSet = NameTable<()>;

/// A per-model table of numbers. Each number is held as the bit pattern of
/// the IEEE-754 double the configuration gave (`f64::to_bits`).
pub type NumberTable = NameTable<u64>;

/// Where the precise token count is asked for.
pub struct PilotConfig {
    pub service_name: String,
    pub service_port: Option<u16>,
    pub service_domain: String,
    pub service_path: String,
}

impl Default for PilotConfig {
    /// The value used where the configuration has no `pilot_service` at all:
    /// every text empty and no port.
    fn default() -> (r: Self)
        ensures
            r.service_name@ == Seq::<char>::empty(),
            r.service_port is None,
            r.service_domain@ == Seq::<char>::empty(),
            r.service_path@ == Seq::<char>::empty(),
    {
        PilotConfig {
            service_name: String::new(),
            service_port: None,
            service_domain: String::new(),
            service_path: String::new(),
        }
    }
}

/// The service name used when `pilot_service` omits `service_name`.
pub fn default_pilot_name() -> (r: String)
    ensures
        r@ == "ai-token-pilot"@,
{
    String::from_str("ai-token-pilot")
}

/// The port used when `pilot_service` omits `service_port`.
pub fn default_pilot_port() -> (r: Option<u16>)
    ensures
        r == Some(8000u16),
{
    Some(8000)
}

/// The domain used when `pilot_service` omits `service_domain`.
pub fn default_pilot_domain() -> (r: String)
    ensures
        r@ == "ai-token-pilot.higress-system.svc"@,
{
    String::from_str("ai-token-pilot.higress-system.svc")
}

/// The path used when `pilot_service` omits `service_path`.
pub fn default_pilot_path() -> (r: String)
    ensures
        r@ == "/healthz"@,
{
    String::from_str("/healthz")
}

/// The configuration version used when `version` is omitted.
pub fn default_version() -> (r: String)
    ensures
        r@ == "v1"@,
{
    String::from_str("v1")
}

/// The value a rule compares with: one text, or a set of texts.
pub enum RuleValue {
    Str(String),
    Names(NameSet),
}

impl Default for RuleValue {
    fn default() -> (r: Self)
        ensures
            r matches RuleValue::Str(s) && s@ == Seq::<char>::empty(),
    {
        RuleValue::Str(String::new())
    }
}

/// How a rule compares a key with its value.
pub enum Operator {
    In,
    NotIn,
    Equal,
    NotEqual,
    Gt,
    Ge,
    Lt,
    Le,
    Contains,
    NotContains,
    Regexp,
}

impl Default for Operator {
    fn default() -> (r: Self)
        ensures
            r is In,
    {
        Operator::In
    }
}

/// One condition of a complex rule.
pub struct RuleItem {
    pub key: String,
    pub operator: Operator,
    pub value: RuleValue,
}

impl Default for RuleItem {
    fn default() -> (r: Self)
        ensures
            r.key@ == Seq::<char>::empty(),
            r.operator is In,
            r.value matches RuleValue::Str(s) && s@ == Seq::<char>::empty(),
    {
        RuleItem { key: String::new(), operator: Operator::default(), value: RuleValue::default() }
    }
}

/// A rule made of several conditions.
pub struct ComplexRule {
    pub rule_items: Vec<RuleItem>,
}

impl Default for ComplexRule {
    fn default() -> (r: Self)
        ensures
            r.rule_items@.len() == 0,
    {
        ComplexRule { rule_items: Vec::new() }
    }
}

/// A request header, by name and value, that a decision looks for.
pub struct Header {
    pub key: String,
    pub value: String,
}

impl Default for Header {
    fn default() -> (r: Self)
        ensures
            r.key@ == Seq::<char>::empty(),
            r.value@ == Seq::<char>::empty(),
    {
        Header { key: String::new(), value: String::new() }
    }
}

/// The plugin's configuration.
pub struct TokenPreludeConfig {
    pub active: bool,
    pub version: String,
    pub need_prelude_headers: Vec<Header>,
    pub forbid_prelude_headers: Vec<Header>,
    pub support_models: NameSet,
    pub token_high_threshold: NumberTable,
    pub token_low_threshold: NumberTable,
    pub token_prelude_coefficient: NumberTable,
    pub whitelist_prelude_headers: Vec<Header>,
    pub pilot_service: PilotConfig,
    pub complex_rules: Vec<ComplexRule>,
}

impl TokenPreludeConfig {
    /// The tables the decisions read are well formed.
    pub open spec fn wf(&self) -> bool {
        &&& self.support_models.wf()
        &&& self.token_high_threshold.wf()
        &&& self.token_low_threshold.wf()
        &&& self.token_prelude_coefficient.wf()
    }
}

impl Default for TokenPreludeConfig {
    /// An inactive configuration with nothing in it.
    fn default() -> (r: Self)
        ensures
            r.wf(),
            !r.active,
            r.version@ == Seq::<char>::empty(),
            r.need_prelude_headers@.len() == 0,
            r.forbid_prelude_headers@.len() == 0,
            r.whitelist_prelude_headers@.len() == 0,
            r.support_models.view() == Map::<Seq<char>, ()>::empty(),
            r.token_high_threshold.view() == Map::<Seq<char>, u64>::empty(),
            r.token_low_threshold.view() == Map::<Seq<char>, u64>::empty(),
            r.token_prelude_coefficient.view() == Map::<Seq<char>, u64>::empty(),
            r.pilot_service.service_name@ == Seq::<char>::empty(),
            r.pilot_service.service_port is None,
            r.pilot_service.service_domain@ == Seq::<char>::empty(),
            r.pilot_service.service_path@ == Seq::<char>::empty(),
            r.complex_rules@.len() == 0,
    {
        TokenPreludeConfig {
            active: false,
            version: String::new(),
            need_prelude_headers: Vec::new(),
            forbid_prelude_headers: Vec::new(),
            support_models: NameTable::new(),
            token_high_threshold: NameTable::new(),
            token_low_threshold: NameTable::new(),
            token_prelude_coefficient: NameTable::new(),
            whitelist_prelude_headers: Vec::new(),
            pilot_service: PilotConfig::default(),
            complex_rules: Vec::new(),
        }
    }
}

/// Why a configuration value was refused.
pub enum ConfigError {
    /// A rule value array held something other than a string.
    RuleValueItemNotString,
    /// A rule value was neither a string nor an array.
    RuleValueType,
    /// The `support_models` array held something other than a string.
    SupportModelsItemNotString,
    /// `support_models` was not an array.
    SupportModelsType,
}

impl ConfigError {
    /// The message the configuration reader reports.
    pub fn message(&self) -> (r: String)
        ensures
            r@ == match self {
                ConfigError::RuleValueItemNotString => "rule_value expected string in array"@,
                ConfigError::RuleValueType => "rule_value unexpected value type"@,
                ConfigError::SupportModelsItemNotString => "support_models expected string in array"@,
                ConfigError::SupportModelsType => "support_models unexpected value type"@,
            },
    {
        match self {
            ConfigError::RuleValueItemNotString => String::from_str("rule_value expected string in array"),
            ConfigError::RuleValueType => String::from_str("rule_value unexpected value type"),
            ConfigError::SupportModelsItemNotString => String::from_str("support_models expected string in array"),
            ConfigError::SupportModelsType => String::from_str("support_models unexpected value type"),
        }
    }
}

/// Every item of `items` is a string.
pub open spec fn all_strings(items: Seq<JsonValue>) -> bool {
    forall|i: int| 0 <= i < items.len() ==> #[trigger] items[i] is Str
}

/// The texts of the string items of `items`.
pub open spec fn string_items(items: Seq<JsonValue>) -> Set<Seq<char>> {
    Set::new(|s: Seq<char>| exists|i: int| 0 <= i < items.len() && #[trigger] json_str(Some(items[i])) == Some(s))
}

/// Collects an array of strings into a set, or tells that an item is not a
/// string.
fn strings_to_set(items: &Vec<JsonValue>) -> (r: Option<NameSet>)
    ensures
        match r {
            Some(t) => all_strings(items@) && t.wf() && t.view().dom() == string_items(items@),
            None => !all_strings(items@),
        },
{
    let mut set: NameSet = NameTable::new();
    let mut i: usize = 0;
    while i < items.len()
        invariant
            i <= items@.len(),
            set.wf(),
            all_strings(items@.take(i as int)),
            set.view().dom() == string_items(items@.take(i as int)),
        decreases items.len() - i,
    {
        match &items[i] {
            JsonValue::Str(s) => {
                set.insert(s.clone(), ());
                proof {
                    let t = items@.take(i + 1);
                    let p = items@.take(i as int);
                    assert(all_strings(t)) by {
                        assert forall|j: int| 0 <= j < t.len() implies #[trigger] t[j] is Str by {
                            if j < i {
                                assert(t[j] == p[j]);
                            }
                        }
                    }
                    assert forall|q: Seq<char>| #[trigger] string_items(t).contains(q) == set.view().dom().contains(q) by {
                        if string_items(t).contains(q) {
                            let j = choose|j: int| 0 <= j < t.len() && #[trigger] json_str(Some(t[j])) == Some(q);
                            if j < i {
                                assert(p[j] == t[j]);
                                assert(string_items(p).contains(q));
                            }
                        }
                        if set.view().dom().contains(q) && q != s@ {
                            assert(string_items(p).contains(q));
                            let j = choose|j: int| 0 <= j < p.len() && #[trigger] json_str(Some(p[j])) == Some(q);
                            assert(t[j] == p[j]);
                        }
                        if q == s@ {
                            assert(json_str(Some(t[i as int])) == Some(q));
                        }
                    }
                    assert(set.view().dom() =~= string_items(t));
                }
            },
            _ => {
                assert(!(items@[i as int] is Str));
                return None;
            },
        }
        i += 1;
    }
    assert(items@.take(i as int) =~= items@);
    Some(set)
}

/// The rule value a JSON value gives: a string as it stands, an array of
/// strings as the set of its strings; any other value is refused.
pub fn rule_value_from_json(v: &JsonValue) -> (r: Result<RuleValue, ConfigError>)
    ensures
        match v {
            JsonValue::Str(s) => r matches Ok(RuleValue::Str(t)) && t@ == s@,
            JsonValue::Array(items) => if all_strings(items@) {
                r matches Ok(RuleValue::Names(t)) && t.wf() && t.view().dom() == string_items(items@)
            } else {
                r matches Err(ConfigError::RuleValueItemNotString)
            },
            _ => r matches Err(ConfigError::RuleValueType),
        },
{
    match v {
        JsonValue::Str(s) => Ok(RuleValue::Str(s.clone())),
        JsonValue::Array(items) => match strings_to_set(items) {
            Some(t) => Ok(RuleValue::Names(t)),
            None => Err(ConfigError::RuleValueItemNotString),
        },
        _ => Err(ConfigError::RuleValueType),
    }
}

/// The supported models a JSON value gives: an array of strings, as the set
/// of its strings; any other value is refused.
pub fn support_models_from_json(v: &JsonValue) -> (r: Result<NameSet, ConfigError>)
    ensures
        match v {
            JsonValue::Array(items) => if all_strings(items@) {
                r matches Ok(t) && t.wf() && t.view().dom() == string_items(items@)
            } else {
                r matches Err(ConfigError::SupportModelsItemNotString)
            },
            _ => r matches Err(ConfigError::SupportModelsType),
        },
{
    match v {
        JsonValue::Array(items) => match strings_to_set(items) {
            Some(t) => Ok(t),
            None => Err(ConfigError::SupportModelsItemNotString),
        },
        _ => Err(ConfigError::SupportModelsType),
    }
}

} // verus!
