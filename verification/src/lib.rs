//! Small, verified examples of the language's fundamentals: functions that
//! return values, ownership and borrowing, string slices, structs, enums and
//! pattern matching, and a module tree with public and private parts.
//!
//! Every executable function here is checked by Verus against its contract,
//! so none of them can panic or overflow on an input that its `requires`
//! admits.

use vstd::prelude::*;

pub mod back_of_house;
pub mod enums;
mod front_of_house;
pub mod functions;
pub mod matching;
pub mod ownership;
pub mod references;
pub mod slices;
pub mod structs;

pub use crate::front_of_house::hosting;

verus! {

/// Puts three guests on the waiting list, through the name `hosting` that
/// the crate root brings into scope and exports again.
pub fn eat_at_restaurant() {
    hosting::add_to_waitlist();
    hosting::add_to_waitlist();
    hosting::add_to_waitlist();
}

} // verus!
