//! The front of the house: where the guests are. One of its two modules is
//! open to the rest of the crate and to its users; the other is private.

pub mod hosting;
mod serving;
