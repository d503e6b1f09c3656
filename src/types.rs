//! Messages and agent states exchanged between agents and models.
use vstd::prelude::*;
use crate::text::owned;

verus! {

/// Text handed to an agent.
#[derive(Debug, Clone)]
pub struct AgentInput {
    pub text: String,
}

/// Text an agent produced.
#[derive(Debug, Clone)]
pub struct AgentOutput {
    pub text: String,
}

/// One chat message with its role, its content and the time it was made,
/// in seconds since the Unix epoch.
#[derive(Debug, Clone)]
pub struct Message {
    pub role: String,
    pub content: String,
    pub ts: u64,
}

/// Relies on `SystemTime::now` and `duration_since(UNIX_EPOCH)`: whole
/// seconds since the epoch, 0 for a clock set before it. Nothing is promised
/// of the value.
#[verifier::external_body]
fn unix_seconds() -> u64 {
    std::time::SystemTime::now()
        .duration_since(std::time::UNIX_EPOCH)
        .unwrap_or_default()
        .as_secs()
}

impl Message {
    /// A message with the given role and content, stamped with the current time.
    pub fn new(role: &str, content: &str) -> (r: Message)
        ensures
            r.role@ == role@,
            r.content@ == content@,
    {
        Message { role: owned(role), content: owned(content), ts: unix_seconds() }
    }
}

/// Relies on `uuid::Uuid::new_v4` and its `Display`: a fresh random
/// identifier in hyphenated form. Nothing is promised of the value.
#[verifier::external_body]
pub fn new_id() -> String {
    uuid::Uuid::new_v4().to_string()
}

/// The current time in whole seconds since the Unix epoch, from the system
/// clock (0 for a clock set before the epoch).
pub(crate) fn local_timestamp() -> i64 {
    let s = unix_seconds();
    if s > i64::MAX as u64 {
        i64::MAX
    } else {
        s as i64
    }
}

/// The life cycle of an agent.
#[derive(Debug, Clone, Copy, PartialEq, Eq, Structural)]
pub enum AgentState {
    Idle,
    Planning,
    Executing,
    Reviewing,
    Completed,
    Failed,
}

} // verus!
