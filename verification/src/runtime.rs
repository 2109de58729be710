//! The two places where the library reads the outside world directly: the
//! clock and the random identifier generator. Everything else about time and
//! identity is pure logic over the values these hand back.

use vstd::prelude::*;

verus! {

/// Relies on chrono's `Utc::now` and `DateTime::timestamp`: the current time
/// as whole seconds since the Unix epoch. Non-negative because `Utc::now`
/// does not return for a system clock set before the epoch.
#[verifier::external_body]
pub(crate) fn now_unix_timestamp() -> (r: i64)
    ensures
        r >= 0,
{
    chrono::Utc::now().timestamp()
}

/// Relies on uuid's `Uuid::new_v4` and its `Display` impl: a fresh random
/// identifier in the hyphenated form, which is 36 characters long.
#[verifier::external_body]
pub(crate) fn new_session_id() -> (r: String)
    ensures
        r@.len() == 36,
{
    uuid::Uuid::new_v4().to_string()
}

} // verus!
