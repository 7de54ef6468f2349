//! From the primitive integers to numbers.

use crate::binary64::{
    from_i128, from_i16, from_i32, from_i64, from_i8, from_isize, from_u128, from_u16,
    from_u32, from_u64, from_u8, from_usize,
};
use crate::convert::number_of;
use crate::number::FluentNumber;
use crate::options::FluentNumberOptions;
use vstd::prelude::*;
use vstd::std_specs::convert::FromSpecImpl;

verus! {

impl From<i8> for FluentNumber {
    fn from(n: i8) -> (number: Self) {
        FluentNumber { value: from_i8(n), options: FluentNumberOptions::default() }
    }
}

impl FromSpecImpl<i8> for FluentNumber {
    open spec fn obeys_from_spec() -> bool {
        true
    }

    open spec fn from_spec(n: i8) -> Self {
        number_of(n as int)
    }
}

impl From<&i8> for FluentNumber {
    fn from(n: &i8) -> (number: Self) {
        FluentNumber { value: from_i8(*n), options: FluentNumberOptions::default() }
    }
}

impl FromSpecImpl<&i8> for FluentNumber {
    open spec fn obeys_from_spec() -> bool {
        true
    }

    open spec fn from_spec(n: &i8) -> Self {
        number_of(*n as int)
    }
}

impl From<i16> for FluentNumber {
    fn from(n: i16) -> (number: Self) {
        FluentNumber { value: from_i16(n), options: FluentNumberOptions::default() }
    }
}

impl FromSpecImpl<i16> for FluentNumber {
    open spec fn obeys_from_spec() -> bool {
        true
    }

    open spec fn from_spec(n: i16) -> Self {
        number_of(n as int)
    }
}

impl From<&i16> for FluentNumber {
    fn from(n: &i16) -> (number: Self) {
        FluentNumber { value: from_i16(*n), options: FluentNumberOptions::default() }
    }
}

impl FromSpecImpl<&i16> for FluentNumber {
    open spec fn obeys_from_spec() -> bool {
        true
    }

    open spec fn from_spec(n: &i16) -> Self {
        number_of(*n as int)
    }
}

impl From<i32> for FluentNumber {
    fn from(n: i32) -> (number: Self) {
        FluentNumber { value: from_i32(n), options: FluentNumberOptions::default() }
    }
}

impl FromSpecImpl<i32> for FluentNumber {
    open spec fn obeys_from_spec() -> bool {
        true
    }

    open spec fn from_spec(n: i32) -> Self {
        number_of(n as int)
    }
}

impl From<&i32> for FluentNumber {
    fn from(n: &i32) -> (number: Self) {
        FluentNumber { value: from_i32(*n), options: FluentNumberOptions::default() }
    }
}

impl FromSpecImpl<&i32> for FluentNumber {
    open spec fn obeys_from_spec() -> bool {
        true
    }

    open spec fn from_spec(n: &i32) -> Self {
        number_of(*n as int)
    }
}

impl From<i64> for FluentNumber {
    fn from(n: i64) -> (number: Self) {
        FluentNumber { value: from_i64(n), options: FluentNumberOptions::default() }
    }
}

impl FromSpecImpl<i64> for FluentNumber {
    open spec fn obeys_from_spec() -> bool {
        true
    }

    open spec fn from_spec(n: i64) -> Self {
        number_of(n as int)
    }
}

impl From<&i64> for FluentNumber {
    fn from(n: &i64) -> (number: Self) {
        FluentNumber { value: from_i64(*n), options: FluentNumberOptions::default() }
    }
}

impl FromSpecImpl<&i64> for FluentNumber {
    open spec fn obeys_from_spec() -> bool {
        true
    }

    open spec fn from_spec(n: &i64) -> Self {
        number_of(*n as int)
    }
}

impl From<i128> for FluentNumber {
    fn from(n: i128) -> (number: Self) {
        FluentNumber { value: from_i128(n), options: FluentNumberOptions::default() }
    }
}

impl FromSpecImpl<i128> for FluentNumber {
    open spec fn obeys_from_spec() -> bool {
        true
    }

    open spec fn from_spec(n: i128) -> Self {
        number_of(n as int)
    }
}

impl From<&i128> for FluentNumber {
    fn from(n: &i128) -> (number: Self) {
        FluentNumber { value: from_i128(*n), options: FluentNumberOptions::default() }
    }
}

impl FromSpecImpl<&i128> for FluentNumber {
    open spec fn obeys_from_spec() -> bool {
        true
    }

    open spec fn from_spec(n: &i128) -> Self {
        number_of(*n as int)
    }
}

impl From<isize> for FluentNumber {
    fn from(n: isize) -> (number: Self) {
        FluentNumber { value: from_isize(n), options: FluentNumberOptions::default() }
    }
}

impl FromSpecImpl<isize> for FluentNumber {
    open spec fn obeys_from_spec() -> bool {
        true
    }

    open spec fn from_spec(n: isize) -> Self {
        number_of(n as int)
    }
}

impl From<&isize> for FluentNumber {
    fn from(n: &isize) -> (number: Self) {
        FluentNumber { value: from_isize(*n), options: FluentNumberOptions::default() }
    }
}

impl FromSpecImpl<&isize> for FluentNumber {
    open spec fn obeys_from_spec() -> bool {
        true
    }

    open spec fn from_spec(n: &isize) -> Self {
        number_of(*n as int)
    }
}

impl From<u8> for FluentNumber {
    fn from(n: u8) -> (number: Self) {
        FluentNumber { value: from_u8(n), options: FluentNumberOptions::default() }
    }
}

impl FromSpecImpl<u8> for FluentNumber {
    open spec fn obeys_from_spec() -> bool {
        true
    }

    open spec fn from_spec(n: u8) -> Self {
        number_of(n as int)
    }
}

impl From<&u8> for FluentNumber {
    fn from(n: &u8) -> (number: Self) {
        FluentNumber { value: from_u8(*n), options: FluentNumberOptions::default() }
    }
}

impl FromSpecImpl<&u8> for FluentNumber {
    open spec fn obeys_from_spec() -> bool {
        true
    }

    open spec fn from_spec(n: &u8) -> Self {
        number_of(*n as int)
    }
}

impl From<u16> for FluentNumber {
    fn from(n: u16) -> (number: Self) {
        FluentNumber { value: from_u16(n), options: FluentNumberOptions::default() }
    }
}

impl FromSpecImpl<u16> for FluentNumber {
    open spec fn obeys_from_spec() -> bool {
        true
    }

    open spec fn from_spec(n: u16) -> Self {
        number_of(n as int)
    }
}

impl From<&u16> for FluentNumber {
    fn from(n: &u16) -> (number: Self) {
        FluentNumber { value: from_u16(*n), options: FluentNumberOptions::default() }
    }
}

impl FromSpecImpl<&u16> for FluentNumber {
    open spec fn obeys_from_spec() -> bool {
        true
    }

    open spec fn from_spec(n: &u16) -> Self {
        number_of(*n as int)
    }
}

impl From<u32> for FluentNumber {
    fn from(n: u32) -> (number: Self) {
        FluentNumber { value: from_u32(n), options: FluentNumberOptions::default() }
    }
}

impl FromSpecImpl<u32> for FluentNumber {
    open spec fn obeys_from_spec() -> bool {
        true
    }

    open spec fn from_spec(n: u32) -> Self {
        number_of(n as int)
    }
}

impl From<&u32> for FluentNumber {
    fn from(n: &u32) -> (number: Self) {
        FluentNumber { value: from_u32(*n), options: FluentNumberOptions::default() }
    }
}

impl FromSpecImpl<&u32> for FluentNumber {
    open spec fn obeys_from_spec() -> bool {
        true
    }

    open spec fn from_spec(n: &u32) -> Self {
        number_of(*n as int)
    }
}

impl From<u64> for FluentNumber {
    fn from(n: u64) -> (number: Self) {
        FluentNumber { value: from_u64(n), options: FluentNumberOptions::default() }
    }
}

impl FromSpecImpl<u64> for FluentNumber {
    open spec fn obeys_from_spec() -> bool {
        true
    }

    open spec fn from_spec(n: u64) -> Self {
        number_of(n as int)
    }
}

impl From<&u64> for FluentNumber {
    fn from(n: &u64) -> (number: Self) {
        FluentNumber { value: from_u64(*n), options: FluentNumberOptions::default() }
    }
}

impl FromSpecImpl<&u64> for FluentNumber {
    open spec fn obeys_from_spec() -> bool {
        true
    }

    open spec fn from_spec(n: &u64) -> Self {
        number_of(*n as int)
    }
}

impl From<u128> for FluentNumber {
    fn from(n: u128) -> (number: Self) {
        FluentNumber { value: from_u128(n), options: FluentNumberOptions::default() }
    }
}

impl FromSpecImpl<u128> for FluentNumber {
    open spec fn obeys_from_spec() -> bool {
        true
    }

    open spec fn from_spec(n: u128) -> Self {
        number_of(n as int)
    }
}

impl From<&u128> for FluentNumber {
    fn from(n: &u128) -> (number: Self) {
        FluentNumber { value: from_u128(*n), options: FluentNumberOptions::default() }
    }
}

impl FromSpecImpl<&u128> for FluentNumber {
    open spec fn obeys_from_spec() -> bool {
        true
    }

    open spec fn from_spec(n: &u128) -> Self {
        number_of(*n as int)
    }
}

impl From<usize> for FluentNumber {
    fn from(n: usize) -> (number: Self) {
        FluentNumber { value: from_usize(n), options: FluentNumberOptions::default() }
    }
}

impl FromSpecImpl<usize> for FluentNumber {
    open spec fn obeys_from_spec() -> bool {
        true
    }

    open spec fn from_spec(n: usize) -> Self {
        number_of(n as int)
    }
}

impl From<&usize> for FluentNumber {
    fn from(n: &usize) -> (number: Self) {
        FluentNumber { value: from_usize(*n), options: FluentNumberOptions::default() }
    }
}

impl FromSpecImpl<&usize> for FluentNumber {
    open spec fn obeys_from_spec() -> bool {
        true
    }

    open spec fn from_spec(n: &usize) -> Self {
        number_of(*n as int)
    }
}

} // verus!
