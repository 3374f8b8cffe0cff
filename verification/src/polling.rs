//! The polling loop's decisions.
//!
//! The loop itself is a perpetual background task owned by the caller;
//! what the library fixes is each tick's decision: collect and push only
//! while registered, demote the registered flag on webhook invalidation,
//! keep the cadence on every other failure, and promote the flag only on
//! a successful registration.
use vstd::prelude::*;

use crate::errors::HaError;

verus! {

/// Whether a tick collects and pushes at all.
pub open spec fn spec_poll_tick(registered: bool) -> bool {
    registered
}

/// The registered flag after a push's outcome: a `WebhookExpired`
/// failure demotes it; every other outcome (success or a failure the
/// loop merely logs) leaves it as it was.
pub open spec fn spec_after_push(registered: bool, outcome: Result<(), HaError>) -> bool {
    match outcome {
        Err(HaError::WebhookExpired) => false,
        _ => registered,
    }
}

/// The registered flag after a registration attempt: promoted exactly
/// by success, untouched by failure.
pub open spec fn spec_after_registration(
    registered: bool,
    outcome: Result<String, HaError>,
) -> bool {
    registered || outcome is Ok
}

/// Whether this tick should collect dynamic sensors and push them; an
/// unregistered tick just waits for the next one.
pub fn poll_tick(registered: bool) -> (r: bool)
    ensures
        r == spec_poll_tick(registered),
{
    registered
}

/// Applies a push outcome to the registered flag. The stored webhook
/// identifier is not cleared here: it stays for diagnostics until an
/// explicit re-registration overwrites it.
pub fn after_push_outcome(registered: bool, outcome: &Result<(), HaError>) -> (r: bool)
    ensures
        r == spec_after_push(registered, *outcome),
{
    match outcome {
        Err(HaError::WebhookExpired) => false,
        _ => registered,
    }
}

/// Applies a registration outcome to the registered flag.
pub fn after_registration_outcome(registered: bool, outcome: &Result<String, HaError>) -> (r: bool)
    ensures
        r == spec_after_registration(registered, *outcome),
{
    match outcome {
        Ok(_) => true,
        Err(_) => registered,
    }
}

/// Webhook invalidation halts pushing: a 410 outcome demotes the
/// registered flag, an unregistered tick performs no push, no push
/// outcome can promote the flag again, and only a successful
/// registration can.
pub proof fn lemma_expiry_halts_pushes()
    ensures
        !spec_after_push(true, Err(HaError::WebhookExpired)),
        !spec_poll_tick(false),
        forall|outcome: Result<(), HaError>| !spec_after_push(false, outcome),
        forall|outcome: Result<String, HaError>|
            outcome is Err ==> !spec_after_registration(false, outcome),
        forall|registered: bool, outcome: Result<String, HaError>|
            outcome is Ok ==> spec_after_registration(registered, outcome),
{
}

} // verus!
