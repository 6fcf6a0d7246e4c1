//! Relay for monitoring-alarm notifications: parses an alarm event out of a
//! delivery envelope, formats it as a webhook payload, and renders that
//! payload as the JSON body of the outbound request.

use vstd::prelude::*;

pub mod alarm;
pub mod discord;
pub mod intake;
pub mod json;

verus! {

/// Whether an HTTP status code counts as a successful webhook delivery.
pub fn is_webhook_success(status: u16) -> (r: bool)
    ensures
        r <==> 200 <= status < 300,
{
    200 <= status && status < 300
}

} // verus!
