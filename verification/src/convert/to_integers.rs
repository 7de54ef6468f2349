//! From numbers to the primitive integers.

use crate::binary64::{
    to_i128, to_i16, to_i32, to_i64, to_i8, to_isize, to_u128, to_u16, to_u32, to_u64, to_u8,
    to_usize, truncated,
};
use crate::number::FluentNumber;
use vstd::prelude::*;
use vstd::std_specs::convert::FromSpecImpl;

verus! {

impl From<FluentNumber> for i8 {
    fn from(input: FluentNumber) -> (n: Self) {
        to_i8(input.value)
    }
}

impl FromSpecImpl<FluentNumber> for i8 {
    open spec fn obeys_from_spec() -> bool {
        true
    }

    open spec fn from_spec(input: FluentNumber) -> Self {
        truncated(input.value, i8::MIN as int, i8::MAX as int) as i8
    }
}

impl From<&FluentNumber> for i8 {
    fn from(input: &FluentNumber) -> (n: Self) {
        to_i8(input.value)
    }
}

impl FromSpecImpl<&FluentNumber> for i8 {
    open spec fn obeys_from_spec() -> bool {
        true
    }

    open spec fn from_spec(input: &FluentNumber) -> Self {
        truncated(input.value, i8::MIN as int, i8::MAX as int) as i8
    }
}

impl From<FluentNumber> for i16 {
    fn from(input: FluentNumber) -> (n: Self) {
        to_i16(input.value)
    }
}

impl FromSpecImpl<FluentNumber> for i16 {
    open spec fn obeys_from_spec() -> bool {
        true
    }

    open spec fn from_spec(input: FluentNumber) -> Self {
        truncated(input.value, i16::MIN as int, i16::MAX as int) as i16
    }
}

impl From<&FluentNumber> for i16 {
    fn from(input: &FluentNumber) -> (n: Self) {
        to_i16(input.value)
    }
}

impl FromSpecImpl<&FluentNumber> for i16 {
    open spec fn obeys_from_spec() -> bool {
        true
    }

    open spec fn from_spec(input: &FluentNumber) -> Self {
        truncated(input.value, i16::MIN as int, i16::MAX as int) as i16
    }
}

impl From<FluentNumber> for i32 {
    fn from(input: FluentNumber) -> (n: Self) {
        to_i32(input.value)
    }
}

impl FromSpecImpl<FluentNumber> for i32 {
    open spec fn obeys_from_spec() -> bool {
        true
    }

    open spec fn from_spec(input: FluentNumber) -> Self {
        truncated(input.value, i32::MIN as int, i32::MAX as int) as i32
    }
}

impl From<&FluentNumber> for i32 {
    fn from(input: &FluentNumber) -> (n: Self) {
        to_i32(input.value)
    }
}

impl FromSpecImpl<&FluentNumber> for i32 {
    open spec fn obeys_from_spec() -> bool {
        true
    }

    open spec fn from_spec(input: &FluentNumber) -> Self {
        truncated(input.value, i32::MIN as int, i32::MAX as int) as i32
    }
}

impl From<FluentNumber> for i64 {
    fn from(input: FluentNumber) -> (n: Self) {
        to_i64(input.value)
    }
}

impl FromSpecImpl<FluentNumber> for i64 {
    open spec fn obeys_from_spec() -> bool {
        true
    }

    open spec fn from_spec(input: FluentNumber) -> Self {
        truncated(input.value, i64::MIN as int, i64::MAX as int) as i64
    }
}

impl From<&FluentNumber> for i64 {
    fn from(input: &FluentNumber) -> (n: Self) {
        to_i64(input.value)
    }
}

impl FromSpecImpl<&FluentNumber> for i64 {
    open spec fn obeys_from_spec() -> bool {
        true
    }

    open spec fn from_spec(input: &FluentNumber) -> Self {
        truncated(input.value, i64::MIN as int, i64::MAX as int) as i64
    }
}

impl From<FluentNumber> for i128 {
    fn from(input: FluentNumber) -> (n: Self) {
        to_i128(input.value)
    }
}

impl FromSpecImpl<FluentNumber> for i128 {
    open spec fn obeys_from_spec() -> bool {
        true
    }

    open spec fn from_spec(input: FluentNumber) -> Self {
        truncated(input.value, i128::MIN as int, i128::MAX as int) as i128
    }
}

impl From<&FluentNumber> for i128 {
    fn from(input: &FluentNumber) -> (n: Self) {
        to_i128(input.value)
    }
}

impl FromSpecImpl<&FluentNumber> for i128 {
    open spec fn obeys_from_spec() -> bool {
        true
    }

    open spec fn from_spec(input: &FluentNumber) -> Self {
        truncated(input.value, i128::MIN as int, i128::MAX as int) as i128
    }
}

impl From<FluentNumber> for isize {
    fn from(input: FluentNumber) -> (n: Self) {
        to_isize(input.value)
    }
}

impl FromSpecImpl<FluentNumber> for isize {
    open spec fn obeys_from_spec() -> bool {
        true
    }

    open spec fn from_spec(input: FluentNumber) -> Self {
        truncated(input.value, isize::MIN as int, isize::MAX as int) as isize
    }
}

impl From<&FluentNumber> for isize {
    fn from(input: &FluentNumber) -> (n: Self) {
        to_isize(input.value)
    }
}

impl FromSpecImpl<&FluentNumber> for isize {
    open spec fn obeys_from_spec() -> bool {
        true
    }

    open spec fn from_spec(input: &FluentNumber) -> Self {
        truncated(input.value, isize::MIN as int, isize::MAX as int) as isize
    }
}

impl From<FluentNumber> for u8 {
    fn from(input: FluentNumber) -> (n: Self) {
        to_u8(input.value)
    }
}

impl FromSpecImpl<FluentNumber> for u8 {
    open spec fn obeys_from_spec() -> bool {
        true
    }

    open spec fn from_spec(input: FluentNumber) -> Self {
        truncated(input.value, u8::MIN as int, u8::MAX as int) as u8
    }
}

impl From<&FluentNumber> for u8 {
    fn from(input: &FluentNumber) -> (n: Self) {
        to_u8(input.value)
    }
}

impl FromSpecImpl<&FluentNumber> for u8 {
    open spec fn obeys_from_spec() -> bool {
        true
    }

    open spec fn from_spec(input: &FluentNumber) -> Self {
        truncated(input.value, u8::MIN as int, u8::MAX as int) as u8
    }
}

impl From<FluentNumber> for u16 {
    fn from(input: FluentNumber) -> (n: Self) {
        to_u16(input.value)
    }
}

impl FromSpecImpl<FluentNumber> for u16 {
    open spec fn obeys_from_spec() -> bool {
        true
    }

    open spec fn from_spec(input: FluentNumber) -> Self {
        truncated(input.value, u16::MIN as int, u16::MAX as int) as u16
    }
}

impl From<&FluentNumber> for u16 {
    fn from(input: &FluentNumber) -> (n: Self) {
        to_u16(input.value)
    }
}

impl FromSpecImpl<&FluentNumber> for u16 {
    open spec fn obeys_from_spec() -> bool {
        true
    }

    open spec fn from_spec(input: &FluentNumber) -> Self {
        truncated(input.value, u16::MIN as int, u16::MAX as int) as u16
    }
}

impl From<FluentNumber> for u32 {
    fn from(input: FluentNumber) -> (n: Self) {
        to_u32(input.value)
    }
}

impl FromSpecImpl<FluentNumber> for u32 {
    open spec fn obeys_from_spec() -> bool {
        true
    }

    open spec fn from_spec(input: FluentNumber) -> Self {
        truncated(input.value, u32::MIN as int, u32::MAX as int) as u32
    }
}

impl From<&FluentNumber> for u32 {
    fn from(input: &FluentNumber) -> (n: Self) {
        to_u32(input.value)
    }
}

impl FromSpecImpl<&FluentNumber> for u32 {
    open spec fn obeys_from_spec() -> bool {
        true
    }

    open spec fn from_spec(input: &FluentNumber) -> Self {
        truncated(input.value, u32::MIN as int, u32::MAX as int) as u32
    }
}

impl From<FluentNumber> for u64 {
    fn from(input: FluentNumber) -> (n: Self) {
        to_u64(input.value)
    }
}

impl FromSpecImpl<FluentNumber> for u64 {
    open spec fn obeys_from_spec() -> bool {
        true
    }

    open spec fn from_spec(input: FluentNumber) -> Self {
        truncated(input.value, u64::MIN as int, u64::MAX as int) as u64
    }
}

impl From<&FluentNumber> for u64 {
    fn from(input: &FluentNumber) -> (n: Self) {
        to_u64(input.value)
    }
}

impl FromSpecImpl<&FluentNumber> for u64 {
    open spec fn obeys_from_spec() -> bool {
        true
    }

    open spec fn from_spec(input: &FluentNumber) -> Self {
        truncated(input.value, u64::MIN as int, u64::MAX as int) as u64
    }
}

impl From<FluentNumber> for u128 {
    fn from(input: FluentNumber) -> (n: Self) {
        to_u128(input.value)
    }
}

impl FromSpecImpl<FluentNumber> for u128 {
    open spec fn obeys_from_spec() -> bool {
        true
    }

    open spec fn from_spec(input: FluentNumber) -> Self {
        truncated(input.value, u128::MIN as int, u128::MAX as int) as u128
    }
}

impl From<&FluentNumber> for u128 {
    fn from(input: &FluentNumber) -> (n: Self) {
        to_u128(input.value)
    }
}

impl FromSpecImpl<&FluentNumber> for u128 {
    open spec fn obeys_from_spec() -> bool {
        true
    }

    open spec fn from_spec(input: &FluentNumber) -> Self {
        truncated(input.value, u128::MIN as int, u128::MAX as int) as u128
    }
}

impl From<FluentNumber> for usize {
    fn from(input: FluentNumber) -> (n: Self) {
        to_usize(input.value)
    }
}

impl FromSpecImpl<FluentNumber> for usize {
    open spec fn obeys_from_spec() -> bool {
        true
    }

    open spec fn from_spec(input: FluentNumber) -> Self {
        truncated(input.value, usize::MIN as int, usize::MAX as int) as usize
    }
}

impl From<&FluentNumber> for usize {
    fn from(input: &FluentNumber) -> (n: Self) {
        to_usize(input.value)
    }
}

impl FromSpecImpl<&FluentNumber> for usize {
    open spec fn obeys_from_spec() -> bool {
        true
    }

    open spec fn from_spec(input: &FluentNumber) -> Self {
        truncated(input.value, usize::MIN as int, usize::MAX as int) as usize
    }
}

} // verus!
