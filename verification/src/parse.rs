use vstd::prelude::*;

verus! {

use crate::value::{Val, Vm};

/// The manifest value that `s` holds as JSON text, if it parses.
pub uninterp spec fn json_parsed(s: Seq<char>) -> Option<Vm>;

/// Whether some JSON text parses to `v`.
pub open spec fn json_parsed_holds(v: Vm) -> bool {
    exists|s: Seq<char>| json_parsed(s) == Some(v)
}

/// The manifest value that `s` holds as YAML text, if it parses.
pub uninterp spec fn yaml_parsed(s: Seq<char>) -> Option<Vm>;

/// The manifest value that `s` holds as TOML text, if it parses.
pub uninterp spec fn toml_parsed(s: Seq<char>) -> Option<Vm>;

/// The rows that `s` holds as CSV text with a header line, if it parses:
/// one string map per record, keyed by column name in sorted order.
pub uninterp spec fn csv_parsed(s: Seq<char>) -> Option<Seq<Seq<(Seq<char>, Seq<char>)>>>;

/// Carries a parsed number over: unsigned when it fits, signed when
/// negative, else its decimal text.
#[verifier::external_body]
fn num_to_value(n: &serde_json::Number) -> Val {
    if let Some(u) = n.as_u64() {
        Val::Uint(u)
    } else if let Some(i) = n.as_i64() {
        Val::Int(i)
    } else {
        Val::Float(n.to_string())
    }
}

/// Carries a parsed document over into the library's value type, one
/// node for one node.
#[verifier::external_body]
fn json_to_value(v: &serde_json::Value) -> Val {
    match v {
        serde_json::Value::Null => Val::Null,
        serde_json::Value::Bool(b) => Val::Bool(*b),
        serde_json::Value::Number(n) => num_to_value(n),
        serde_json::Value::String(s) => Val::Str(s.clone()),
        serde_json::Value::Array(a) => Val::Arr(a.iter().map(json_to_value).collect()),
        serde_json::Value::Object(o) => Val::Obj(
            o.iter().map(|(k, x)| (k.clone(), json_to_value(x))).collect(),
        ),
    }
}

/// Relies on serde_json::from_str: whether the text parses, and to what,
/// depends on the text alone.
#[verifier::external_body]
pub fn parse_json(s: &str) -> (r: Option<Val>)
    ensures
        match r {
            Some(v) => json_parsed(s@) == Some(v.deep_view()),
            None => json_parsed(s@) is None,
        },
{
    serde_json::from_str::<serde_json::Value>(s).ok().map(|v| json_to_value(&v))
}

/// Relies on serde_yaml::from_str: whether the text parses, and to what,
/// depends on the text alone.
#[verifier::external_body]
pub fn parse_yaml(s: &str) -> (r: Option<Val>)
    ensures
        match r {
            Some(v) => yaml_parsed(s@) == Some(v.deep_view()),
            None => yaml_parsed(s@) is None,
        },
{
    serde_yaml::from_str::<serde_json::Value>(s).ok().map(|v| json_to_value(&v))
}

/// Relies on toml::from_str: whether the text parses, and to what,
/// depends on the text alone.
#[verifier::external_body]
pub fn parse_toml(s: &str) -> (r: Option<Val>)
    ensures
        match r {
            Some(v) => toml_parsed(s@) == Some(v.deep_view()),
            None => toml_parsed(s@) is None,
        },
{
    toml::from_str::<serde_json::Value>(s).ok().map(|v| json_to_value(&v))
}

/// Relies on csv::Reader::deserialize: the records a CSV text holds
/// depend on the text alone.
#[verifier::external_body]
pub fn parse_csv(s: &str) -> (r: Option<Vec<Vec<(String, String)>>>)
    ensures
        match r {
            Some(rows) => csv_parsed(s@) == Some(rows.deep_view()),
            None => csv_parsed(s@) is None,
        },
{
    let mut rows = Vec::new();
    let mut rdr = csv::Reader::from_reader(s.as_bytes());
    for record in rdr.deserialize::<std::collections::BTreeMap<String, String>>() {
        match record {
            Ok(m) => rows.push(m.into_iter().collect()),
            Err(_) => {
                return None;
            }
        }
    }
    Some(rows)
}

} // verus!
