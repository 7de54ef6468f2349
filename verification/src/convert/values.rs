//! From the primitive integers to the values of named arguments.

use crate::convert::number_of;
use crate::number::FluentNumber;
use crate::value::FluentValue;
use vstd::prelude::*;
use vstd::std_specs::convert::FromSpecImpl;

verus! {

impl From<i8> for FluentValue {
    fn from(n: i8) -> (value: Self) {
        FluentValue::Number(FluentNumber::from(n))
    }
}

impl FromSpecImpl<i8> for FluentValue {
    open spec fn obeys_from_spec() -> bool {
        true
    }

    open spec fn from_spec(n: i8) -> Self {
        FluentValue::Number(number_of(n as int))
    }
}

impl From<&i8> for FluentValue {
    fn from(n: &i8) -> (value: Self) {
        FluentValue::Number(FluentNumber::from(n))
    }
}

impl FromSpecImpl<&i8> for FluentValue {
    open spec fn obeys_from_spec() -> bool {
        true
    }

    open spec fn from_spec(n: &i8) -> Self {
        FluentValue::Number(number_of(*n as int))
    }
}

impl From<i16> for FluentValue {
    fn from(n: i16) -> (value: Self) {
        FluentValue::Number(FluentNumber::from(n))
    }
}

impl FromSpecImpl<i16> for FluentValue {
    open spec fn obeys_from_spec() -> bool {
        true
    }

    open spec fn from_spec(n: i16) -> Self {
        FluentValue::Number(number_of(n as int))
    }
}

impl From<&i16> for FluentValue {
    fn from(n: &i16) -> (value: Self) {
        FluentValue::Number(FluentNumber::from(n))
    }
}

impl FromSpecImpl<&i16> for FluentValue {
    open spec fn obeys_from_spec() -> bool {
        true
    }

    open spec fn from_spec(n: &i16) -> Self {
        FluentValue::Number(number_of(*n as int))
    }
}

impl From<i32> for FluentValue {
    fn from(n: i32) -> (value: Self) {
        FluentValue::Number(FluentNumber::from(n))
    }
}

impl FromSpecImpl<i32> for FluentValue {
    open spec fn obeys_from_spec() -> bool {
        true
    }

    open spec fn from_spec(n: i32) -> Self {
        FluentValue::Number(number_of(n as int))
    }
}

impl From<&i32> for FluentValue {
    fn from(n: &i32) -> (value: Self) {
        FluentValue::Number(FluentNumber::from(n))
    }
}

impl FromSpecImpl<&i32> for FluentValue {
    open spec fn obeys_from_spec() -> bool {
        true
    }

    open spec fn from_spec(n: &i32) -> Self {
        FluentValue::Number(number_of(*n as int))
    }
}

impl From<i64> for FluentValue {
    fn from(n: i64) -> (value: Self) {
        FluentValue::Number(FluentNumber::from(n))
    }
}

impl FromSpecImpl<i64> for FluentValue {
    open spec fn obeys_from_spec() -> bool {
        true
    }

    open spec fn from_spec(n: i64) -> Self {
        FluentValue::Number(number_of(n as int))
    }
}

impl From<&i64> for FluentValue {
    fn from(n: &i64) -> (value: Self) {
        FluentValue::Number(FluentNumber::from(n))
    }
}

impl FromSpecImpl<&i64> for FluentValue {
    open spec fn obeys_from_spec() -> bool {
        true
    }

    open spec fn from_spec(n: &i64) -> Self {
        FluentValue::Number(number_of(*n as int))
    }
}

impl From<i128> for FluentValue {
    fn from(n: i128) -> (value: Self) {
        FluentValue::Number(FluentNumber::from(n))
    }
}

impl FromSpecImpl<i128> for FluentValue {
    open spec fn obeys_from_spec() -> bool {
        true
    }

    open spec fn from_spec(n: i128) -> Self {
        FluentValue::Number(number_of(n as int))
    }
}

impl From<&i128> for FluentValue {
    fn from(n: &i128) -> (value: Self) {
        FluentValue::Number(FluentNumber::from(n))
    }
}

impl FromSpecImpl<&i128> for FluentValue {
    open spec fn obeys_from_spec() -> bool {
        true
    }

    open spec fn from_spec(n: &i128) -> Self {
        FluentValue::Number(number_of(*n as int))
    }
}

impl From<isize> for FluentValue {
    fn from(n: isize) -> (value: Self) {
        FluentValue::Number(FluentNumber::from(n))
    }
}

impl FromSpecImpl<isize> for FluentValue {
    open spec fn obeys_from_spec() -> bool {
        true
    }

    open spec fn from_spec(n: isize) -> Self {
        FluentValue::Number(number_of(n as int))
    }
}

impl From<&isize> for FluentValue {
    fn from(n: &isize) -> (value: Self) {
        FluentValue::Number(FluentNumber::from(n))
    }
}

impl FromSpecImpl<&isize> for FluentValue {
    open spec fn obeys_from_spec() -> bool {
        true
    }

    open spec fn from_spec(n: &isize) -> Self {
        FluentValue::Number(number_of(*n as int))
    }
}

impl From<u8> for FluentValue {
    fn from(n: u8) -> (value: Self) {
        FluentValue::Number(FluentNumber::from(n))
    }
}

impl FromSpecImpl<u8> for FluentValue {
    open spec fn obeys_from_spec() -> bool {
        true
    }

    open spec fn from_spec(n: u8) -> Self {
        FluentValue::Number(number_of(n as int))
    }
}

impl From<&u8> for FluentValue {
    fn from(n: &u8) -> (value: Self) {
        FluentValue::Number(FluentNumber::from(n))
    }
}

impl FromSpecImpl<&u8> for FluentValue {
    open spec fn obeys_from_spec() -> bool {
        true
    }

    open spec fn from_spec(n: &u8) -> Self {
        FluentValue::Number(number_of(*n as int))
    }
}

impl From<u16> for FluentValue {
    fn from(n: u16) -> (value: Self) {
        FluentValue::Number(FluentNumber::from(n))
    }
}

impl FromSpecImpl<u16> for FluentValue {
    open spec fn obeys_from_spec() -> bool {
        true
    }

    open spec fn from_spec(n: u16) -> Self {
        FluentValue::Number(number_of(n as int))
    }
}

impl From<&u16> for FluentValue {
    fn from(n: &u16) -> (value: Self) {
        FluentValue::Number(FluentNumber::from(n))
    }
}

impl FromSpecImpl<&u16> for FluentValue {
    open spec fn obeys_from_spec() -> bool {
        true
    }

    open spec fn from_spec(n: &u16) -> Self {
        FluentValue::Number(number_of(*n as int))
    }
}

impl From<u32> for FluentValue {
    fn from(n: u32) -> (value: Self) {
        FluentValue::Number(FluentNumber::from(n))
    }
}

impl FromSpecImpl<u32> for FluentValue {
    open spec fn obeys_from_spec() -> bool {
        true
    }

    open spec fn from_spec(n: u32) -> Self {
        FluentValue::Number(number_of(n as int))
    }
}

impl From<&u32> for FluentValue {
    fn from(n: &u32) -> (value: Self) {
        FluentValue::Number(FluentNumber::from(n))
    }
}

impl FromSpecImpl<&u32> for FluentValue {
    open spec fn obeys_from_spec() -> bool {
        true
    }

    open spec fn from_spec(n: &u32) -> Self {
        FluentValue::Number(number_of(*n as int))
    }
}

impl From<u64> for FluentValue {
    fn from(n: u64) -> (value: Self) {
        FluentValue::Number(FluentNumber::from(n))
    }
}

impl FromSpecImpl<u64> for FluentValue {
    open spec fn obeys_from_spec() -> bool {
        true
    }

    open spec fn from_spec(n: u64) -> Self {
        FluentValue::Number(number_of(n as int))
    }
}

impl From<&u64> for FluentValue {
    fn from(n: &u64) -> (value: Self) {
        FluentValue::Number(FluentNumber::from(n))
    }
}

impl FromSpecImpl<&u64> for FluentValue {
    open spec fn obeys_from_spec() -> bool {
        true
    }

    open spec fn from_spec(n: &u64) -> Self {
        FluentValue::Number(number_of(*n as int))
    }
}

impl From<u128> for FluentValue {
    fn from(n: u128) -> (value: Self) {
        FluentValue::Number(FluentNumber::from(n))
    }
}

impl FromSpecImpl<u128> for FluentValue {
    open spec fn obeys_from_spec() -> bool {
        true
    }

    open spec fn from_spec(n: u128) -> Self {
        FluentValue::Number(number_of(n as int))
    }
}

impl From<&u128> for FluentValue {
    fn from(n: &u128) -> (value: Self) {
        FluentValue::Number(FluentNumber::from(n))
    }
}

impl FromSpecImpl<&u128> for FluentValue {
    open spec fn obeys_from_spec() -> bool {
        true
    }

    open spec fn from_spec(n: &u128) -> Self {
        FluentValue::Number(number_of(*n as int))
    }
}

impl From<usize> for FluentValue {
    fn from(n: usize) -> (value: Self) {
        FluentValue::Number(FluentNumber::from(n))
    }
}

impl FromSpecImpl<usize> for FluentValue {
    open spec fn obeys_from_spec() -> bool {
        true
    }

    open spec fn from_spec(n: usize) -> Self {
        FluentValue::Number(number_of(n as int))
    }
}

impl From<&usize> for FluentValue {
    fn from(n: &usize) -> (value: Self) {
        FluentValue::Number(FluentNumber::from(n))
    }
}

impl FromSpecImpl<&usize> for FluentValue {
    open spec fn obeys_from_spec() -> bool {
        true
    }

    open spec fn from_spec(n: &usize) -> Self {
        FluentValue::Number(number_of(*n as int))
    }
}

} // verus!
