//! Enums: types whose values are one of several variants, and the `Option`
//! of the standard library.

use vstd::prelude::*;

verus! {

/// The two kinds of IP address.
pub enum IpAddrKind {
    V4,
    V6,
}

/// An IP address: its kind, and the address as text.
pub struct IpAddr {
    pub kind: IpAddrKind,
    pub address: String,
}

/// Takes an address kind of either variant. Both are values of one type, so
/// one function serves for both.
pub fn route(_ip_kind: IpAddrKind) {
}

/// Makes optional values and takes one apart again.
///
/// A `match` on an `Option` has an arm for each variant, and the arm for
/// `Some` has the value inside at hand: here each arm builds its own
/// variant again, so the result is the option that went in.
pub fn option() {
    let _some_number: Option<i32> = Some(5);
    let _some_string: Option<&str> = Some("a string");
    let _absent_number: Option<i32> = None;

    let y: Option<i8> = Some(5);
    let y = match y {
        None => None,
        Some(i) => Some(i),
    };
    assert(y == Some(5i8));
}

} // verus!
