//! Space-efficient optional values.
//!
//! `OptionBool` stands in for `Option<bool>` in a single byte. `Optioned<T>` stands
//! in for `Option<T>` in exactly the space of `T`, by reserving one value of `T`
//! (see `Noned`) to mean "no value".
use std::cmp::Ordering;
use vstd::prelude::*;

pub mod noned;
pub mod optbool;
pub mod optioned;

pub use noned::{Noned, OptEq, OptOrd};
pub use optbool::{IterBool, OptionBool};
pub use optioned::{none, some, wrap, Optioned, OptionedIter};

verus! {

/// Three-way comparison of two integers.
pub open spec fn int_cmp(a: int, b: int) -> Ordering {
    if a < b {
        Ordering::Less
    } else if a == b {
        Ordering::Equal
    } else {
        Ordering::Greater
    }
}

/// The ordering seen from the other side.
pub open spec fn reversed(o: Ordering) -> Ordering {
    match o {
        Ordering::Less => Ordering::Greater,
        Ordering::Equal => Ordering::Equal,
        Ordering::Greater => Ordering::Less,
    }
}

} // verus!
