//! `match`: comparing a value against patterns and running the code of the
//! pattern that fits.

use vstd::prelude::*;

verus! {

/// A state of the union, as minted on a quarter.
#[derive(Debug)]
pub enum UsState {
    Alabama,
    Alaska,
}

/// A coin. A quarter carries the state it was minted for.
pub enum Coin {
    Penny,
    Nickel,
    Dime,
    Quarter(UsState),
}

impl Coin {
    /// What the coin is worth, in cents.
    pub open spec fn cents(self) -> nat {
        match self {
            Coin::Penny => 1,
            Coin::Nickel => 5,
            Coin::Dime => 10,
            Coin::Quarter(_) => 25,
        }
    }

    /// The state on the coin, if it is a quarter.
    pub open spec fn state(self) -> Option<UsState> {
        match self {
            Coin::Quarter(state) => Some(state),
            _ => None,
        }
    }
}

/// Adds one to the number inside `x`, if there is one.
///
/// The largest `i32` has no successor, so `Some` of it is not accepted.
pub fn plus_one(x: Option<i32>) -> (result: Option<i32>)
    requires
        x != Some(i32::MAX),
    ensures
        x is None ==> result is None,
        x matches Some(i) ==> result == Some((i + 1) as i32),
{
    match x {
        None => None,
        Some(i) => Some(i + 1),
    }
}

/// Returns what a coin is worth, in cents.
pub fn value_in_cents(coin: Coin) -> (value: u8)
    ensures
        value == coin.cents(),
{
    match coin {
        Coin::Penny => 1,
        Coin::Nickel => 5,
        Coin::Dime => 10,
        Coin::Quarter(_) => 25,
    }
}

/// Returns what a coin is worth, in cents, and beside it the state of a
/// quarter, which the arm for quarters binds from the value it matched. The
/// caller may call the state out.
pub fn value_in_cents_with_quarter(coin: Coin) -> (result: (u8, Option<UsState>))
    ensures
        result.0 == coin.cents(),
        result.1 == coin.state(),
{
    match coin {
        Coin::Penny => (1, None),
        Coin::Nickel => (5, None),
        Coin::Dime => (10, None),
        Coin::Quarter(state) => (25, Some(state)),
    }
}

fn add_fancy_hat() {
}

fn remove_fancy_hat() {
}

fn move_player(_num_spaces: u8) {
}

fn reroll() {
}

/// Matches on optional numbers and on the roll of a die.
///
/// The arms of a `match` cover every value: for the die, a last arm takes
/// all rolls that are neither three nor seven, either binding the roll to a
/// name or, written `_`, without binding it.
pub fn match_example() {
    let five: Option<i32> = Some(5);
    let six = plus_one(five);
    let none = plus_one(None);
    assert(six == Some(6i32));
    assert(none is None);

    let dice_roll: u8 = 9;
    match dice_roll {
        3 => add_fancy_hat(),
        7 => remove_fancy_hat(),
        other => move_player(other),
    }

    let dice_roll: u8 = 9;
    match dice_roll {
        3 => add_fancy_hat(),
        7 => remove_fancy_hat(),
        _ => reroll(),
    }
}

} // verus!
