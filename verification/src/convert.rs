//! Conversions between numbers and the primitive integers.
//!
//! An integer becomes the number that stands for it, with the options that
//! a number has when nothing was asked for. A number becomes an integer by a
//! numeric cast of its value: rounded toward zero and held within the
//! integer type's range. Its options play no part.

pub mod from_integers;
pub mod to_integers;
pub mod values;

use crate::binary64::nearest_pattern;
use crate::number::FluentNumber;
use crate::options::default_options;
use vstd::prelude::*;

verus! {

/// The number that stands for the integer `n`, with the options that a
/// number has when nothing was asked for.
pub open spec fn number_of(n: int) -> FluentNumber {
    FluentNumber { value: nearest_pattern(n), options: default_options() }
}

} // verus!
