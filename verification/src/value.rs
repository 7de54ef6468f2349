//! The values that a message's named arguments carry.

use crate::number::{FluentNumber, NumberView};
use vstd::prelude::*;
use vstd::std_specs::convert::FromSpecImpl;

verus! {

/// A value handed to a message: a text, a number, or the mark of a value
/// that could not be had.
#[derive(Debug, Clone, PartialEq)]
pub enum FluentValue {
    String(String),
    Number(FluentNumber),
    Error,
}

/// A value as mathematical values.
pub enum ValueView {
    String(Seq<char>),
    Number(NumberView),
    Error,
}

impl View for FluentValue {
    type V = ValueView;

    open spec fn view(&self) -> ValueView {
        match self {
            FluentValue::String(text) => ValueView::String(text@),
            FluentValue::Number(number) => ValueView::Number(number@),
            FluentValue::Error => ValueView::Error,
        }
    }
}

impl From<FluentNumber> for FluentValue {
    fn from(input: FluentNumber) -> (value: Self) {
        FluentValue::Number(input)
    }
}

impl FromSpecImpl<FluentNumber> for FluentValue {
    open spec fn obeys_from_spec() -> bool {
        true
    }

    open spec fn from_spec(input: FluentNumber) -> Self {
        FluentValue::Number(input)
    }
}

} // verus!
