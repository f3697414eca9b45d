//! The liveness record the health route answers with, and its JSON form.

use crate::json::{encode_object_one, escape_string, json_object_one};
use vstd::prelude::*;

verus! {

/// The liveness record: a single field holding a fixed status text.
pub struct HealthStatus {
    pub status: String,
}

impl HealthStatus {
    /// The record the health route answers with: status `ok`.
    pub fn new() -> (r: HealthStatus)
        ensures
            r.status@ == "ok"@,
    {
        HealthStatus { status: String::from_str("ok") }
    }

    /// Serializes the record to a JSON object with the single key `status`.
    pub fn to_json(&self) -> (r: String)
        ensures
            r@ == json_object_one("status"@, self.status@),
    {
        encode_object_one("status", self.status.as_str())
    }
}

/// Law: the serialized record with status `ok` is exactly `{"status":"ok"}`.
pub proof fn lemma_health_body_literal()
    ensures
        json_object_one("status"@, "ok"@) == "{\"status\":\"ok\"}"@,
{
    reveal_strlit("status");
    reveal_strlit("ok");
    reveal_strlit("{\"status\":\"ok\"}");
    reveal_with_fuel(escape_string, 8);
    assert(escape_string("status"@) =~= "status"@);
    assert(escape_string("ok"@) =~= "ok"@);
    assert(json_object_one("status"@, "ok"@) =~= "{\"status\":\"ok\"}"@);
}

/// The body the health route answers with, exactly `{"status":"ok"}`.
pub fn health_body() -> (r: String)
    ensures
        r@ == json_object_one("status"@, "ok"@),
        r@ == "{\"status\":\"ok\"}"@,
{
    let record = HealthStatus::new();
    let body = record.to_json();
    proof {
        lemma_health_body_literal();
    }
    body
}

} // verus!
