//! The closed sets of style tags that a number's options carry.

use crate::text::same_text;
use vstd::prelude::*;
use vstd::std_specs::convert::FromSpecImpl;

verus! {

/// How a number is presented.
#[derive(Debug, Copy, Clone, Hash, PartialEq, Eq, Structural)]
pub enum FluentNumberStyle {
    Decimal,
    Currency,
    Percent,
}

/// The style that a tag names; a tag that names none gives `Decimal`.
pub open spec fn style_of(tag: Seq<char>) -> FluentNumberStyle {
    if tag == "decimal"@ {
        FluentNumberStyle::Decimal
    } else if tag == "currency"@ {
        FluentNumberStyle::Currency
    } else if tag == "percent"@ {
        FluentNumberStyle::Percent
    } else {
        FluentNumberStyle::Decimal
    }
}

impl Default for FluentNumberStyle {
    fn default() -> (style: Self)
        ensures
            style == FluentNumberStyle::Decimal,
    {
        FluentNumberStyle::Decimal
    }
}

impl From<&str> for FluentNumberStyle {
    fn from(input: &str) -> (style: Self) {
        if same_text(input, "decimal") {
            FluentNumberStyle::Decimal
        } else if same_text(input, "currency") {
            FluentNumberStyle::Currency
        } else if same_text(input, "percent") {
            FluentNumberStyle::Percent
        } else {
            FluentNumberStyle::Decimal
        }
    }
}



impl FromSpecImpl<&str> for FluentNumberStyle {
    open spec fn obeys_from_spec() -> bool {
        true
    }

    open spec fn from_spec(input: &str) -> Self {
        style_of(input@)
    }
}

/// How the currency of a number is shown.
#[derive(Debug, Copy, Clone, Hash, PartialEq, Eq, Structural)]
pub enum FluentNumberCurrencyDisplayStyle {
    Symbol,
    Code,
    Name,
}

/// The currency display style that a tag names; a tag that names none gives
/// `Symbol`.
pub open spec fn currency_display_of(tag: Seq<char>) -> FluentNumberCurrencyDisplayStyle {
    if tag == "symbol"@ {
        FluentNumberCurrencyDisplayStyle::Symbol
    } else if tag == "code"@ {
        FluentNumberCurrencyDisplayStyle::Code
    } else if tag == "name"@ {
        FluentNumberCurrencyDisplayStyle::Name
    } else {
        FluentNumberCurrencyDisplayStyle::Symbol
    }
}

impl Default for FluentNumberCurrencyDisplayStyle {
    fn default() -> (style: Self)
        ensures
            style == FluentNumberCurrencyDisplayStyle::Symbol,
    {
        FluentNumberCurrencyDisplayStyle::Symbol
    }
}

impl From<&str> for FluentNumberCurrencyDisplayStyle {
    fn from(input: &str) -> (style: Self) {
        if same_text(input, "symbol") {
            FluentNumberCurrencyDisplayStyle::Symbol
        } else if same_text(input, "code") {
            FluentNumberCurrencyDisplayStyle::Code
        } else if same_text(input, "name") {
            FluentNumberCurrencyDisplayStyle::Name
        } else {
            FluentNumberCurrencyDisplayStyle::Symbol
        }
    }
}

impl FromSpecImpl<&str> for FluentNumberCurrencyDisplayStyle {
    open spec fn obeys_from_spec() -> bool {
        true
    }

    open spec fn from_spec(input: &str) -> Self {
        currency_display_of(input@)
    }
}

} // verus!
