//! Plain data for the durable session store, and the wall clock.
use vstd::prelude::*;

verus! {

/// Input for inserting a new durable session record.
#[derive(Debug, Clone)]
pub struct CreateSessionInput {
    pub id: String,
    pub start_ts_ms: i64,
    pub planned_duration_sec: i64,
    pub capture_enabled: bool,
    pub mode: String,
    pub task_title: Option<String>,
}

/// One durable session record as read back from the store.
#[derive(Debug, Clone)]
pub struct SessionRow {
    pub id: String,
    pub start_ts_ms: i64,
    pub end_ts_ms: Option<i64>,
    pub planned_duration_sec: i64,
    pub ended_reason: Option<String>,
    pub capture_enabled: bool,
    pub mode: String,
    pub task_title: Option<String>,
    pub created_at_ms: i64,
    pub updated_at_ms: i64,
}

/// Encodes a flag the way the store keeps it: one for true, zero for false.
pub fn bool_to_i64(v: bool) -> (r: i64)
    ensures
        r == (if v { 1int } else { 0int }),
{
    if v {
        1
    } else {
        0
    }
}

/// Relies on std::time::SystemTime::now for the current wall-clock time,
/// reported as milliseconds since the epoch. A clock read failure yields the
/// epoch itself (zero). Nothing is assumed about the value: the state machine
/// is proved for every reading.
#[verifier::external_body]
pub fn now_ms() -> i64 {
    let duration = std::time::SystemTime::now()
        .duration_since(std::time::UNIX_EPOCH)
        .unwrap_or_default();
    duration.as_millis() as i64
}

} // verus!
