//! A number together with the options that govern its rendering.

use crate::binary64::{equal_numbers, same_number};
use crate::canonical::{
    canonical, canonical_text, fraction_len, is_rendering, lemma_zero_precision_gives_no_point,
    written_fraction_len,
};
use crate::options::{default_options, FluentNumberOptions, OptionsView};
use vstd::prelude::*;
use vstd::std_specs::cmp::PartialEqSpecImpl;

verus! {

/// A number and its formatting options. The number is held as the IEEE 754
/// binary64 encoding of its value.
#[derive(Debug, Clone)]
pub struct FluentNumber {
    pub value: u64,
    pub options: FluentNumberOptions,
}

/// A number as mathematical values.
pub struct NumberView {
    pub value: u64,
    pub options: OptionsView,
}

impl View for FluentNumber {
    type V = NumberView;

    open spec fn view(&self) -> NumberView {
        NumberView { value: self.value, options: self.options@ }
    }
}

impl PartialEq for FluentNumber {
    fn eq(&self, other: &Self) -> (equal: bool) {
        same_number(self.value, other.value) && self.options == other.options
    }
}

impl PartialEqSpecImpl for FluentNumber {
    open spec fn obeys_eq_spec() -> bool {
        true
    }

    open spec fn eq_spec(&self, other: &Self) -> bool {
        equal_numbers(self.value, other.value) && self.options@ == other.options@
    }
}

/// The number of fraction digits at which a value is rendered before its
/// text is trimmed: the maximum asked for, or 15; and no more than 9 where
/// the machine's native integers are narrower than 64 bits.
pub open spec fn working_precision(maximum: Option<nat>, word_bits: nat) -> nat {
    let wanted = match maximum {
        Some(m) => m,
        None => 15,
    };
    if word_bits < 64 && wanted > 9 {
        9
    } else {
        wanted
    }
}

/// With a maximum of zero fraction digits the canonical text holds no
/// decimal point, whatever the other options say and however wide the
/// machine's native integers are.
pub proof fn lemma_zero_maximum_gives_no_point(
    options: OptionsView,
    word_bits: nat,
    rendered: Seq<char>,
)
    requires
        options.maximum_fraction_digits == Some(0nat),
        is_rendering(rendered, 0),
    ensures
        working_precision(options.maximum_fraction_digits, word_bits) == 0,
        !canonical(
            rendered,
            working_precision(options.maximum_fraction_digits, word_bits),
            options.minimum_fraction_digits,
        ).contains('.'),
{
    lemma_zero_precision_gives_no_point(rendered, 0, options.minimum_fraction_digits);
}

impl FluentNumber {
    pub fn new(value: u64, options: FluentNumberOptions) -> (number: Self)
        ensures
            number.value == value,
            number.options == options,
    {
        FluentNumber { value, options }
    }

    /// The number of fraction digits with which the value is to be rendered
    /// for `as_string`.
    pub fn precision(&self) -> (digits: usize)
        ensures
            digits == working_precision(self@.options.maximum_fraction_digits, usize::BITS as nat),
    {
        let wanted: usize = match self.options.maximum_fraction_digits {
            Some(m) => m,
            None => 15,
        };
        if usize::BITS < 64 && wanted > 9 {
            9
        } else {
            wanted
        }
    }

    /// The canonical text of the number. `rendered` is the value in
    /// fixed-point notation with `precision()` digits behind the decimal
    /// point: rendering a value takes floating-point arithmetic, which the
    /// caller does.
    ///
    /// Where a minimum number of fraction digits is set and the precision is
    /// not zero, the rendering must hold a decimal point.
    pub fn as_string(&self, rendered: &str) -> (text: String)
        requires
            self.options.minimum_fraction_digits is Some && working_precision(
                self@.options.maximum_fraction_digits,
                usize::BITS as nat,
            ) > 0 ==> rendered@.contains('.'),
        ensures
            text@ == canonical(
                rendered@,
                working_precision(self@.options.maximum_fraction_digits, usize::BITS as nat),
                self@.options.minimum_fraction_digits,
            ),
    {
        canonical_text(rendered, self.precision(), self.options.minimum_fraction_digits)
    }

    /// The number that the decimal text `input` stands for. `value` is the
    /// encoding of what `input` parses to; the text decides the minimum
    /// number of fraction digits: as many as it wrote behind its first
    /// decimal point, and none where it wrote no decimal point.
    pub fn from_parsed(value: u64, input: &str) -> (number: Self)
        ensures
            number@.value == value,
            number@.options == (OptionsView {
                minimum_fraction_digits: fraction_len(input@),
                ..default_options()@
            }),
    {
        let mut options = FluentNumberOptions::default();
        options.minimum_fraction_digits = written_fraction_len(input);
        FluentNumber { value, options }
    }
}

} // verus!
