//! Generation of fresh random identifiers for sessions and tokens.

use vstd::prelude::*;

verus! {

/// Relies on uuid::Uuid::new_v4: a freshly generated random identifier,
/// carried as its 128-bit value. Nothing is promised of the value; every
/// caller states what holds whatever came back.
#[verifier::external_body]
pub fn fresh_id() -> u128 {
    uuid::Uuid::new_v4().as_u128()
}

} // verus!
