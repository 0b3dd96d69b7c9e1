//! The engine's one clock access: a generation timestamp for the templates
//! that legitimately stamp render time (emergency alerts and test messages).

use vstd::prelude::*;

verus! {

/// Relies on chrono's `Utc::now().to_rfc3339()`: an RFC 3339 rendering of
/// the current instant. Of the changing clock only non-emptiness is stated.
#[verifier::external_body]
fn now_rfc3339() -> (r: String)
    ensures
        r@.len() > 0,
{
    chrono::Utc::now().to_rfc3339()
}

/// A fresh generation timestamp, never empty. Handed to `render` by callers
/// that want emergency alerts and test messages stamped with the moment
/// they were produced; rendering itself stays pure.
pub fn generation_timestamp() -> (r: String)
    ensures
        r@.len() > 0,
{
    now_rfc3339()
}

} // verus!
