//! Classification of inbound message envelopes.
//!
//! An envelope is the raw text of one inbound frame. It triggers fan-out
//! exactly when it parses as structured data whose discriminator field
//! `"type"` holds the string `"update"`; everything else — another kind,
//! a non-string discriminator, or text that does not parse — is dropped.

use vstd::prelude::*;

verus! {

/// The discriminator string an envelope text carries: the `"type"` field
/// of the text parsed as a JSON document, when the text parses and that
/// field holds a string; nothing otherwise. What this is on a given text
/// is decided by the JSON grammar alone, so it gets a name rather than a
/// restatement of that grammar.
pub uninterp spec fn envelope_kind(s: Seq<char>) -> Option<Seq<char>>;

/// Whether an envelope text triggers fan-out: its discriminator is the
/// string `"update"`.
pub open spec fn is_update_envelope(s: Seq<char>) -> bool {
    envelope_kind(s) == Some("update"@)
}

/// Relies on serde_json::from_str and serde_json::Value::get: whether the
/// text parses as a JSON document, and which string its `"type"` field
/// holds, depend on the text alone.
#[verifier::external_body]
fn parse_envelope_kind(text: &str) -> (r: Option<String>)
    ensures
        r matches Some(k) ==> envelope_kind(text@) == Some(k@),
        r is None ==> envelope_kind(text@) is None,
{
    match serde_json::from_str::<serde_json::Value>(text) {
        Ok(v) => match v.get("type") {
            Some(serde_json::Value::String(s)) => Some(s.clone()),
            _ => None,
        },
        Err(_) => None,
    }
}

/// Decide whether one inbound text frame triggers fan-out.
pub fn should_fan_out(text: &str) -> (b: bool)
    ensures
        b == is_update_envelope(text@),
{
    match parse_envelope_kind(text) {
        Some(kind) => {
            let update_kind: String = "update".to_owned();
            kind == update_kind
        },
        None => false,
    }
}

} // verus!
