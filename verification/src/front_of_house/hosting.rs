//! Hosting: bringing guests to their tables.

use vstd::prelude::*;

verus! {

/// Puts a guest on the waiting list. Public: it can be called from outside
/// the module.
pub fn add_to_waitlist() {
}

/// Seats a guest. Private: only this module can call it.
#[allow(dead_code)]
fn seat_at_table() {
}

} // verus!
