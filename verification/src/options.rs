//! The options that govern how a number is rendered.

use crate::args::{distinct_names, map_of, FluentArgs};
use crate::binary64::truncated;
use crate::number::NumberView;
use crate::style::{
    currency_display_of, style_of, FluentNumberCurrencyDisplayStyle, FluentNumberStyle,
};
use crate::text::same_text;
use crate::value::{FluentValue, ValueView};
use vstd::prelude::*;
use vstd::std_specs::cmp::PartialEqSpecImpl;

verus! {

/// The formatting options of a number. Only the two fraction digit counts
/// take part in producing the canonical text; the other fields are carried
/// unchanged for a formatter that builds on it.
#[derive(Debug, Clone, Hash, Eq)]
pub struct FluentNumberOptions {
    pub style: FluentNumberStyle,
    pub currency: Option<String>,
    pub currency_display: FluentNumberCurrencyDisplayStyle,
    pub use_grouping: bool,
    pub minimum_integer_digits: Option<usize>,
    pub minimum_fraction_digits: Option<usize>,
    pub maximum_fraction_digits: Option<usize>,
    pub minimum_significant_digits: Option<usize>,
    pub maximum_significant_digits: Option<usize>,
}

/// The options as mathematical values.
pub struct OptionsView {
    pub style: FluentNumberStyle,
    pub currency: Option<Seq<char>>,
    pub currency_display: FluentNumberCurrencyDisplayStyle,
    pub use_grouping: bool,
    pub minimum_integer_digits: Option<nat>,
    pub minimum_fraction_digits: Option<nat>,
    pub maximum_fraction_digits: Option<nat>,
    pub minimum_significant_digits: Option<nat>,
    pub maximum_significant_digits: Option<nat>,
}

/// A digit count as a natural number.
pub open spec fn count_of(count: Option<usize>) -> Option<nat> {
    match count {
        Some(n) => Some(n as nat),
        None => None,
    }
}

/// A text as its characters.
pub open spec fn chars_of_optional(text: Option<String>) -> Option<Seq<char>> {
    match text {
        Some(s) => Some(s@),
        None => None,
    }
}

/// The options that a number has when nothing was asked for.
pub open spec fn default_options() -> FluentNumberOptions {
    FluentNumberOptions {
        style: FluentNumberStyle::Decimal,
        currency: None,
        currency_display: FluentNumberCurrencyDisplayStyle::Symbol,
        use_grouping: true,
        minimum_integer_digits: None,
        minimum_fraction_digits: None,
        maximum_fraction_digits: None,
        minimum_significant_digits: None,
        maximum_significant_digits: None,
    }
}

/// The digit count that a number stands for: the number as `usize`.
pub open spec fn digit_count(number: NumberView) -> nat {
    truncated(number.value, 0, usize::MAX as int) as nat
}

/// The text that the arguments hold under `name`; `None` where they hold
/// nothing there, or something that is no text.
pub open spec fn text_under(args: Map<Seq<char>, ValueView>, name: Seq<char>) -> Option<
    Seq<char>,
> {
    if args.contains_key(name) {
        match args[name] {
            ValueView::String(text) => Some(text),
            _ => None,
        }
    } else {
        None
    }
}

/// The digit count that the arguments hold under `name`; `None` where they
/// hold nothing there, or something that is no number.
pub open spec fn count_under(args: Map<Seq<char>, ValueView>, name: Seq<char>) -> Option<nat> {
    if args.contains_key(name) {
        match args[name] {
            ValueView::Number(number) => Some(digit_count(number)),
            _ => None,
        }
    } else {
        None
    }
}

/// `found` where there is one, else what was there before.
pub open spec fn count_or(found: Option<nat>, before: Option<nat>) -> Option<nat> {
    match found {
        Some(n) => Some(n),
        None => before,
    }
}

/// The options after the named arguments were merged into them. Each field
/// looks at the one name that belongs to it and at nothing else.
pub open spec fn merged(options: OptionsView, args: Map<Seq<char>, ValueView>) -> OptionsView {
    OptionsView {
        style: match text_under(args, "style"@) {
            Some(tag) => style_of(tag),
            None => options.style,
        },
        currency: match text_under(args, "currency"@) {
            Some(code) => Some(code),
            None => options.currency,
        },
        currency_display: match text_under(args, "currencyDisplay"@) {
            Some(tag) => currency_display_of(tag),
            None => options.currency_display,
        },
        use_grouping: options.use_grouping,
        minimum_integer_digits: count_or(
            count_under(args, "minimumIntegerDigits"@),
            options.minimum_integer_digits,
        ),
        minimum_fraction_digits: count_or(
            count_under(args, "minimumFractionDigits"@),
            options.minimum_fraction_digits,
        ),
        maximum_fraction_digits: count_or(
            count_under(args, "maximumFractionDigits"@),
            options.maximum_fraction_digits,
        ),
        minimum_significant_digits: count_or(
            count_under(args, "minimumSignificantDigits"@),
            options.minimum_significant_digits,
        ),
        maximum_significant_digits: count_or(
            count_under(args, "maximumSignificantDigits"@),
            options.maximum_significant_digits,
        ),
    }
}

/// What one named value does to the options: under one of the nine option
/// names, a value of the kind that the option takes sets it; anything else
/// leaves the options as they are.
pub open spec fn applied(options: OptionsView, name: Seq<char>, value: ValueView) -> OptionsView {
    if name == "style"@ {
        match value {
            ValueView::String(tag) => OptionsView { style: style_of(tag), ..options },
            _ => options,
        }
    } else if name == "currency"@ {
        match value {
            ValueView::String(code) => OptionsView { currency: Some(code), ..options },
            _ => options,
        }
    } else if name == "currencyDisplay"@ {
        match value {
            ValueView::String(tag) => OptionsView {
                currency_display: currency_display_of(tag),
                ..options
            },
            _ => options,
        }
    } else if name == "minimumIntegerDigits"@ {
        match value {
            ValueView::Number(number) => OptionsView {
                minimum_integer_digits: Some(digit_count(number)),
                ..options
            },
            _ => options,
        }
    } else if name == "minimumFractionDigits"@ {
        match value {
            ValueView::Number(number) => OptionsView {
                minimum_fraction_digits: Some(digit_count(number)),
                ..options
            },
            _ => options,
        }
    } else if name == "maximumFractionDigits"@ {
        match value {
            ValueView::Number(number) => OptionsView {
                maximum_fraction_digits: Some(digit_count(number)),
                ..options
            },
            _ => options,
        }
    } else if name == "minimumSignificantDigits"@ {
        match value {
            ValueView::Number(number) => OptionsView {
                minimum_significant_digits: Some(digit_count(number)),
                ..options
            },
            _ => options,
        }
    } else if name == "maximumSignificantDigits"@ {
        match value {
            ValueView::Number(number) => OptionsView {
                maximum_significant_digits: Some(digit_count(number)),
                ..options
            },
            _ => options,
        }
    } else {
        options
    }
}

/// The nine option names differ from one another.
proof fn lemma_names_differ()
    ensures
        "style"@.len() == 5,
        "currency"@.len() == 8,
        "currencyDisplay"@.len() == 15,
        "minimumIntegerDigits"@.len() == 20,
        "minimumFractionDigits"@.len() == 21,
        "maximumFractionDigits"@.len() == 21,
        "minimumSignificantDigits"@.len() == 24,
        "maximumSignificantDigits"@.len() == 24,
        "minimumFractionDigits"@[1] == 'i',
        "maximumFractionDigits"@[1] == 'a',
        "minimumSignificantDigits"@[1] == 'i',
        "maximumSignificantDigits"@[1] == 'a',
{
    reveal_strlit("style");
    reveal_strlit("currency");
    reveal_strlit("currencyDisplay");
    reveal_strlit("minimumIntegerDigits");
    reveal_strlit("minimumFractionDigits");
    reveal_strlit("maximumFractionDigits");
    reveal_strlit("minimumSignificantDigits");
    reveal_strlit("maximumSignificantDigits");
}

/// Merging a mapping that has one more name is merging the mapping and then
/// applying the new entry.
pub proof fn lemma_merged_insert(
    options: OptionsView,
    args: Map<Seq<char>, ValueView>,
    name: Seq<char>,
    value: ValueView,
)
    requires
        !args.contains_key(name),
    ensures
        merged(options, args.insert(name, value)) == applied(merged(options, args), name, value),
{
    lemma_names_differ();
}

/// Merging no arguments changes nothing.
pub proof fn lemma_merged_empty(options: OptionsView)
    ensures
        merged(options, Map::empty()) == options,
{
}

/// Whether an entry sets an option: its name is one of the nine option
/// names and its value is of the kind that the option takes.
pub open spec fn sets_an_option(name: Seq<char>, value: ValueView) -> bool {
    ||| (name == "style"@ || name == "currency"@ || name == "currencyDisplay"@)
        && value is String
    ||| (name == "minimumIntegerDigits"@ || name == "minimumFractionDigits"@ || name
        == "maximumFractionDigits"@ || name == "minimumSignificantDigits"@ || name
        == "maximumSignificantDigits"@) && value is Number
}

/// An entry under an unknown name, or under an option's name with a value
/// of the other kind, leaves every option as it was.
pub proof fn lemma_applied_passes_over(options: OptionsView, name: Seq<char>, value: ValueView)
    requires
        !sets_an_option(name, value),
    ensures
        applied(options, name, value) == options,
{
}

/// Arguments of which none sets an option leave the options as they were.
pub proof fn lemma_merged_passes_over(options: OptionsView, args: Map<Seq<char>, ValueView>)
    requires
        forall|name: Seq<char>| args.contains_key(name) ==> !sets_an_option(name, args[name]),
    ensures
        merged(options, args) == options,
{
    assert(text_under(args, "style"@) is None);
    assert(text_under(args, "currency"@) is None);
    assert(text_under(args, "currencyDisplay"@) is None);
    assert(count_under(args, "minimumIntegerDigits"@) is None);
    assert(count_under(args, "minimumFractionDigits"@) is None);
    assert(count_under(args, "maximumFractionDigits"@) is None);
    assert(count_under(args, "minimumSignificantDigits"@) is None);
    assert(count_under(args, "maximumSignificantDigits"@) is None);
}

/// An option changes only where the arguments hold a value of its kind
/// under its own name; whether grouping is used never changes.
pub proof fn lemma_merged_keeps_the_rest(options: OptionsView, args: Map<Seq<char>, ValueView>)
    ensures
        merged(options, args).use_grouping == options.use_grouping,
        !(args.contains_key("style"@) && args["style"@] is String) ==> merged(options, args).style
            == options.style,
        !(args.contains_key("currency"@) && args["currency"@] is String) ==> merged(
            options,
            args,
        ).currency == options.currency,
        !(args.contains_key("currencyDisplay"@) && args["currencyDisplay"@] is String) ==> merged(
            options,
            args,
        ).currency_display == options.currency_display,
        !(args.contains_key("minimumIntegerDigits"@) && args["minimumIntegerDigits"@] is Number)
            ==> merged(options, args).minimum_integer_digits == options.minimum_integer_digits,
        !(args.contains_key("minimumFractionDigits"@) && args["minimumFractionDigits"@] is Number)
            ==> merged(options, args).minimum_fraction_digits == options.minimum_fraction_digits,
        !(args.contains_key("maximumFractionDigits"@) && args["maximumFractionDigits"@] is Number)
            ==> merged(options, args).maximum_fraction_digits == options.maximum_fraction_digits,
        !(args.contains_key("minimumSignificantDigits"@) && args["minimumSignificantDigits"@]
            is Number) ==> merged(options, args).minimum_significant_digits
            == options.minimum_significant_digits,
        !(args.contains_key("maximumSignificantDigits"@) && args["maximumSignificantDigits"@]
            is Number) ==> merged(options, args).maximum_significant_digits
            == options.maximum_significant_digits,
{
}

/// Merging the same arguments a second time changes nothing.
pub proof fn lemma_merged_twice(options: OptionsView, args: Map<Seq<char>, ValueView>)
    ensures
        merged(merged(options, args), args) == merged(options, args),
{
}

impl View for FluentNumberOptions {
    type V = OptionsView;

    open spec fn view(&self) -> OptionsView {
        OptionsView {
            style: self.style,
            currency: chars_of_optional(self.currency),
            currency_display: self.currency_display,
            use_grouping: self.use_grouping,
            minimum_integer_digits: count_of(self.minimum_integer_digits),
            minimum_fraction_digits: count_of(self.minimum_fraction_digits),
            maximum_fraction_digits: count_of(self.maximum_fraction_digits),
            minimum_significant_digits: count_of(self.minimum_significant_digits),
            maximum_significant_digits: count_of(self.maximum_significant_digits),
        }
    }
}

impl Default for FluentNumberOptions {
    fn default() -> (options: Self)
        ensures
            options == default_options(),
    {
        FluentNumberOptions {
            style: FluentNumberStyle::Decimal,
            currency: None,
            currency_display: FluentNumberCurrencyDisplayStyle::Symbol,
            use_grouping: true,
            minimum_integer_digits: None,
            minimum_fraction_digits: None,
            maximum_fraction_digits: None,
            minimum_significant_digits: None,
            maximum_significant_digits: None,
        }
    }
}

impl FluentNumberOptions {
    /// Takes over what the named arguments say about the options. An entry
    /// under one of the nine option names, with a value of the kind that the
    /// option takes, sets that option: a text for `style`, `currency` and
    /// `currencyDisplay`, a number for the five digit counts. Every other
    /// entry is passed over.
    pub fn merge(&mut self, opts: &FluentArgs)
        ensures
            final(self)@ == merged(old(self)@, opts@),
    {
        let count = opts.len();
        let ghost pairs = opts.pairs();
        let ghost before = self@;
        let mut at: usize = 0;
        proof {
            assert(pairs.take(0) =~= Seq::empty());
            lemma_merged_empty(before);
        }
        while at < count
            invariant
                at <= count == pairs.len(),
                pairs == opts.pairs(),
                distinct_names(pairs),
                self@ == merged(before, map_of(pairs.take(at as int))),
            decreases count - at,
        {
            let name = opts.name_at(at);
            let value = opts.value_at(at);
            proof {
                let seen = pairs.take(at as int);
                assert(pairs.take(at + 1).drop_last() =~= seen);
                assert(pairs.take(at + 1).last() == pairs[at as int]);
                crate::args::lemma_map_of_names(seen, name@);
                assert(!map_of(seen).contains_key(name@)) by {
                    if map_of(seen).contains_key(name@) {
                        let i = choose|i: int| 0 <= i < seen.len() && seen[i].0 == name@;
                        assert(pairs[i].0 != pairs[at as int].0);
                    }
                }
                lemma_merged_insert(before, map_of(seen), name@, value@);
            }
            if same_text(name, "style") {
                if let FluentValue::String(tag) = value {
                    self.style = FluentNumberStyle::from(tag.as_str());
                }
            } else if same_text(name, "currency") {
                if let FluentValue::String(code) = value {
                    self.currency = Some(code.clone());
                }
            } else if same_text(name, "currencyDisplay") {
                if let FluentValue::String(tag) = value {
                    self.currency_display = FluentNumberCurrencyDisplayStyle::from(tag.as_str());
                }
            } else if same_text(name, "minimumIntegerDigits") {
                if let FluentValue::Number(number) = value {
                    self.minimum_integer_digits = Some(usize::from(number));
                }
            } else if same_text(name, "minimumFractionDigits") {
                if let FluentValue::Number(number) = value {
                    self.minimum_fraction_digits = Some(usize::from(number));
                }
            } else if same_text(name, "maximumFractionDigits") {
                if let FluentValue::Number(number) = value {
                    self.maximum_fraction_digits = Some(usize::from(number));
                }
            } else if same_text(name, "minimumSignificantDigits") {
                if let FluentValue::Number(number) = value {
                    self.minimum_significant_digits = Some(usize::from(number));
                }
            } else if same_text(name, "maximumSignificantDigits") {
                if let FluentValue::Number(number) = value {
                    self.maximum_significant_digits = Some(usize::from(number));
                }
            }
            at = at + 1;
        }
        proof {
            assert(pairs.take(count as int) =~= pairs);
        }
    }
}

impl PartialEq for FluentNumberOptions {
    fn eq(&self, other: &Self) -> (equal: bool) {
        let same_currency = match &self.currency {
            Some(a) => match &other.currency {
                Some(b) => same_text(a.as_str(), b.as_str()),
                None => false,
            },
            None => other.currency.is_none(),
        };
        same_currency && self.style == other.style && self.currency_display
            == other.currency_display && self.use_grouping == other.use_grouping
            && self.minimum_integer_digits == other.minimum_integer_digits
            && self.minimum_fraction_digits == other.minimum_fraction_digits
            && self.maximum_fraction_digits == other.maximum_fraction_digits
            && self.minimum_significant_digits == other.minimum_significant_digits
            && self.maximum_significant_digits == other.maximum_significant_digits
    }
}

impl PartialEqSpecImpl for FluentNumberOptions {
    open spec fn obeys_eq_spec() -> bool {
        true
    }

    open spec fn eq_spec(&self, other: &Self) -> bool {
        self@ == other@
    }
}

} // verus!
