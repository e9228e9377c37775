//! The audit record of a routing decision, as plain values ready to be stored.
use vstd::prelude::*;
use crate::router::RoutingDecision;
use crate::text::texts;

verus! {

/// The error type of the JSON encoder.
#[verifier::external_type_specification]
#[verifier::external_body]
pub struct ExJsonError(serde_json::Error);

/// The compact JSON text of an array of strings as `serde_json::to_string` writes
/// it. Only the wrapper below gives it a value.
pub uninterp spec fn json_array_text(items: Seq<Seq<char>>) -> Seq<char>;

/// Trusted: `serde_json::to_string` on a list of strings. Where the call
/// succeeds, its text is the named JSON form of the list; whether it succeeds is
/// left open.
#[verifier::external_body]
fn encode_string_list(items: &Vec<String>) -> (encoded: Result<String, serde_json::Error>)
    ensures
        encoded matches Ok(text) ==> text@ == json_array_text(texts(items@)),
{
    serde_json::to_string(items)
}

/// One row of the routing audit trail.
#[derive(Debug)]
pub struct RoutingEvent {
    pub user_id: String,
    pub session_id: Option<String>,
    pub requested_task_type: String,
    pub requested_qos: String,
    pub selected_model_id: Option<String>,
    /// The fallback chain as a JSON array.
    pub fallback_chain: String,
    pub pressure_level: String,
    pub max_tokens: i64,
    pub reason: String,
}

/// The text stored for a fallback chain: the encoder's text, or an empty JSON
/// array where the encoder failed.
pub fn fallback_chain_text(encoded: Result<String, serde_json::Error>) -> (text: String)
    ensures
        match encoded {
            Ok(json) => text == json,
            Err(_) => text@ == "[]"@,
        },
{
    match encoded {
        Ok(json) => json,
        Err(_) => "[]".to_owned(),
    }
}

/// A token count as the audit trail stores it: the count itself, or the largest
/// value of the column where the count exceeds it.
pub open spec fn stored_tokens(max_tokens: usize) -> int {
    if max_tokens <= i64::MAX {
        max_tokens as int
    } else {
        i64::MAX as int
    }
}

fn optional_copy(value: &Option<String>) -> (copy: Option<String>)
    ensures
        copy == *value,
{
    match value {
        Some(text) => Some(text.clone()),
        None => None,
    }
}

/// Builds the audit row of a routing decision.
pub fn routing_event(user_id: &str, session_id: Option<&str>, decision: &RoutingDecision) -> (event:
    RoutingEvent)
    ensures
        event.user_id@ == user_id@,
        match session_id {
            Some(id) => event.session_id is Some && event.session_id->0@ == id@,
            None => event.session_id is None,
        },
        event.requested_task_type@ == decision.task_type.name(),
        event.requested_qos@ == decision.qos.name(),
        event.selected_model_id == decision.selected_model_id,
        event.fallback_chain@ == json_array_text(texts(decision.fallback_chain@))
            || event.fallback_chain@ == "[]"@,
        event.pressure_level@ == decision.pressure_level.name(),
        event.max_tokens == stored_tokens(decision.max_tokens),
        event.reason == decision.reason,
{
    let encoded = encode_string_list(&decision.fallback_chain);
    RoutingEvent {
        user_id: user_id.to_owned(),
        session_id: match session_id {
            Some(id) => Some(id.to_owned()),
            None => None,
        },
        requested_task_type: decision.task_type.as_str().to_owned(),
        requested_qos: decision.qos.as_str().to_owned(),
        selected_model_id: optional_copy(&decision.selected_model_id),
        fallback_chain: fallback_chain_text(encoded),
        pressure_level: decision.pressure_level.as_str().to_owned(),
        max_tokens: if decision.max_tokens as u64 <= i64::MAX as u64 {
            decision.max_tokens as i64
        } else {
            i64::MAX
        },
        reason: decision.reason.clone(),
    }
}

} // verus!
