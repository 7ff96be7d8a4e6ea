//! Structs: named groups of related values, with methods and associated
//! functions.

use vstd::prelude::*;

verus! {

/// An account of a user.
#[derive(Debug)]
pub struct User {
    pub active: bool,
    pub username: String,
    pub email: String,
    pub sign_in_count: u64,
}

/// Makes the account of a user who has signed in once: active, with the
/// given email address and name. Each field is written out by its name.
pub fn build_user(email: String, username: String) -> (user: User)
    ensures
        user == (User { active: true, username: username, email: email, sign_in_count: 1 }),
{
    User { email: email, username: username, active: true, sign_in_count: 1 }
}

/// Makes the same account as [`build_user`], with the shorthand for a field
/// that has the name of the variable it is set from.
pub fn build_user_shorthand(email: String, username: String) -> (user: User)
    ensures
        user == (User { active: true, username, email, sign_in_count: 1 }),
{
    User { email, username, active: true, sign_in_count: 1 }
}

/// A rectangle, by the lengths of its sides in pixels.
#[derive(Debug)]
pub struct Rectangle {
    pub width: u32,
    pub height: u32,
}

impl Rectangle {
    /// The area of the rectangle as a number: its width times its height.
    pub open spec fn spec_area(&self) -> int {
        self.width * self.height
    }

    /// Returns the area of the rectangle in square pixels. The area has to
    /// fit in a `u32`.
    pub fn area(&self) -> (area: u32)
        requires
            self.spec_area() <= u32::MAX,
        ensures
            area == self.spec_area(),
    {
        self.width * self.height
    }

    /// Makes the square whose sides have length `size`. An associated
    /// function: it takes no rectangle.
    pub fn square(size: u32) -> (square: Rectangle)
        ensures
            square == (Rectangle { width: size, height: size }),
    {
        Rectangle { width: size, height: size }
    }

    /// Says whether the rectangle has any width. A method may have the name
    /// of a field.
    pub fn width(&self) -> (nonzero: bool)
        ensures
            nonzero == (self.width > 0),
    {
        self.width > 0
    }

    /// Returns the height of the rectangle: a getter, which gives read
    /// access to the field of its name and does nothing else.
    pub fn height(&self) -> (height: u32)
        ensures
            height == self.height,
    {
        self.height
    }
}

impl Rectangle {
    /// Whether this rectangle is both wider and higher than `other`.
    pub open spec fn holds(&self, other: &Rectangle) -> bool {
        self.width > other.width && self.height > other.height
    }

    /// Says whether `other` fits inside this rectangle with room to spare:
    /// this one is both wider and higher.
    pub fn can_hold(&self, other: &Rectangle) -> (holds: bool)
        ensures
            holds == self.holds(other),
    {
        self.width > other.width && self.height > other.height
    }
}

/// Holding is a strict order on rectangles: none holds itself, of two
/// rectangles at most one holds the other, and a rectangle holds what a
/// rectangle that it holds does.
pub proof fn lemma_holds_is_strict_order(a: Rectangle, b: Rectangle, c: Rectangle)
    ensures
        !a.holds(&a),
        a.holds(&b) ==> !b.holds(&a),
        a.holds(&b) && b.holds(&c) ==> a.holds(&c),
{
}

/// A rectangle has a larger area than any rectangle that it holds.
pub proof fn lemma_holds_larger_area(a: Rectangle, b: Rectangle)
    requires
        a.holds(&b),
    ensures
        a.spec_area() > b.spec_area(),
{
    assert(a.width * a.height > b.width * b.height) by (nonlinear_arith)
        requires
            a.width > b.width >= 0,
            a.height > b.height >= 0,
    ;
}

} // verus!
