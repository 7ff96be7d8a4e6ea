//! The back of the house: the kitchen. A struct may be public with a field
//! that is not; all variants of a public enum are public.

use vstd::prelude::*;

verus! {

/// A breakfast. The guest picks the bread; the kitchen picks the fruit that
/// comes with it, and the guest can neither see nor change it.
pub struct Breakfast {
    pub toast: String,
    seasonal_fruit: String,
}

/// What a breakfast consists of, as contracts see it.
pub struct BreakfastView {
    pub toast: Seq<char>,
    pub seasonal_fruit: Seq<char>,
}

impl View for Breakfast {
    type V = BreakfastView;

    closed spec fn view(&self) -> BreakfastView {
        BreakfastView { toast: self.toast@, seasonal_fruit: self.seasonal_fruit@ }
    }
}

impl Breakfast {
    /// Makes a summer breakfast with the given bread. The fruit of the
    /// summer is peaches.
    pub fn summer(toast: &str) -> (meal: Breakfast)
        ensures
            meal@.toast == toast@,
            meal@.seasonal_fruit == "peaches"@,
    {
        Breakfast { toast: String::from_str(toast), seasonal_fruit: String::from_str("peaches") }
    }
}

/// What may come before the meal.
pub enum Appetizer {
    Soup,
    Salad,
}

} // verus!
