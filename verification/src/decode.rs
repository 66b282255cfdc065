//! The one place where an outside crate touches the crawl logic: JSON text is
//! decoded by `serde_json` and immediately converted, variant for variant,
//! into this crate's own [`Json`] model. Everything downstream of
//! [`parse_json`] is verified against the name [`json_of`].
use vstd::prelude::*;

use crate::json::Json;

verus! {

#[verifier::external_type_specification]
#[verifier::external_body]
pub struct ExValue(serde_json::Value);

/// The `Json` value that `serde_json` decodes a given text to, or `None` when
/// the text is not valid JSON. `serde_json::from_str` reads nothing but its
/// argument, so this is a function of the text alone.
pub uninterp spec fn json_of(s: Seq<char>) -> Option<Json>;

/// Mirror of `serde_json::Value`, variant for variant. Numeric payloads are
/// dropped: no driver of this crate reads one.
#[verifier::external_body]
fn value_to_json(v: serde_json::Value) -> Json {
    match v {
        serde_json::Value::Null => Json::Null,
        serde_json::Value::Bool(b) => Json::Bool(b),
        serde_json::Value::Number(_) => Json::Num,
        serde_json::Value::String(s) => Json::Str(s),
        serde_json::Value::Array(a) => Json::Arr(a.into_iter().map(value_to_json).collect()),
        serde_json::Value::Object(m) => Json::Obj(
            m.into_iter().map(|(k, x)| (k, value_to_json(x))).collect(),
        ),
    }
}

/// Relies on `serde_json::from_str::<serde_json::Value>`: decodes JSON text,
/// deterministically, returning `None` exactly on malformed input.
#[verifier::external_body]
pub(crate) fn parse_json(s: &str) -> (r: Option<Json>)
    ensures
        r == json_of(s@),
{
    serde_json::from_str::<serde_json::Value>(s).ok().map(value_to_json)
}

} // verus!
