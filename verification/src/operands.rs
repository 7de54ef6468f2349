//! The plural operands of a number: the quantities by which plural rules
//! choose a category.

use crate::canonical::canonical;
use crate::number::{working_precision, FluentNumber};
use crate::options::count_of;
use intl_pluralrules::operands::PluralOperands;
use vstd::prelude::*;

verus! {

/// The plural operands of a number.
#[derive(Debug, Clone, Copy, PartialEq, Eq)]
pub struct Operands {
    /// The absolute value, as its IEEE 754 binary64 encoding.
    pub n: u64,
    /// The integer part.
    pub i: u64,
    /// The number of visible fraction digits, trailing zeros counted.
    pub v: usize,
    /// The number of visible fraction digits, trailing zeros left out.
    pub w: usize,
    /// The visible fraction digits, trailing zeros included.
    pub f: u64,
    /// The visible fraction digits, trailing zeros left out.
    pub t: u64,
}

/// The operands that `intl_pluralrules` reads from a decimal text; `None`
/// where it takes the text for no number.
pub uninterp spec fn operands_of_text(text: Seq<char>) -> Option<Operands>;

/// `PluralOperands::try_from` of `intl_pluralrules`, on a text. The operands
/// are handed over field by field, the absolute value as its encoding; an
/// error becomes `None`. What the crate computes is a function of the text
/// alone, and this contract gives it a name without saying more of it.
#[verifier::external_body]
fn parse_operands(text: &str) -> (parsed: Option<Operands>)
    ensures
        parsed == operands_of_text(text@),
{
    match PluralOperands::try_from(text) {
        Ok(r) => Some(Operands { n: r.n.to_bits(), i: r.i, v: r.v, w: r.w, f: r.f, t: r.t }),
        Err(_) => None,
    }
}

/// Ten to the power `places`.
pub open spec fn ten_to(places: nat) -> nat
    decreases places,
{
    if places == 0 {
        1
    } else {
        10 * ten_to((places - 1) as nat)
    }
}

/// The number of places by which the fraction digits are scaled so that
/// the operands show `minimum` fraction digits: none where no minimum is
/// set or the operands show that many already.
pub open spec fn places_lacking(operands: Operands, minimum: Option<nat>) -> nat {
    match minimum {
        Some(m) if m > operands.v => (m - operands.v) as nat,
        _ => 0,
    }
}

/// Whether the scaled fraction digits fit their field.
pub open spec fn scaling_fits(operands: Operands, minimum: Option<nat>) -> bool {
    operands.f * ten_to(places_lacking(operands, minimum)) <= u64::MAX
}

/// The operands once they show the declared minimum of fraction digits:
/// where the minimum is greater than `v`, the fraction digits `f` are scaled
/// by ten for each place that lacks and `v` becomes the minimum. The other
/// operands stay.
pub open spec fn reconciled(operands: Operands, minimum: Option<usize>) -> Operands {
    match minimum {
        Some(m) if m > operands.v => Operands {
            v: m,
            f: (operands.f * ten_to((m - operands.v) as nat)) as u64,
            ..operands
        },
        _ => operands,
    }
}

/// Reconciled operands show at least the declared minimum of fraction
/// digits, and the operands that the minimum does not touch are those that
/// were read.
pub proof fn lemma_reconciled_shows_minimum(operands: Operands, minimum: usize)
    ensures
        reconciled(operands, Some(minimum)).v >= minimum,
        reconciled(operands, Some(minimum)).v == minimum || reconciled(operands, Some(minimum))
            == operands,
        reconciled(operands, Some(minimum)).n == operands.n,
        reconciled(operands, Some(minimum)).i == operands.i,
        reconciled(operands, Some(minimum)).w == operands.w,
        reconciled(operands, Some(minimum)).t == operands.t,
{
}

proof fn lemma_ten_to_grows(fewer: nat, more: nat)
    requires
        fewer <= more,
    ensures
        1 <= ten_to(fewer) <= ten_to(more),
    decreases more,
{
    if fewer < more {
        lemma_ten_to_grows(fewer, (more - 1) as nat);
    } else if fewer > 0 {
        lemma_ten_to_grows((fewer - 1) as nat, (more - 1) as nat);
    }
}

/// `digits` scaled by ten to the power `places`, where that fits in `u64`.
pub fn scale_digits(digits: u64, places: usize) -> (scaled: Option<u64>)
    ensures
        scaled == if digits * ten_to(places as nat) <= u64::MAX {
            Some((digits * ten_to(places as nat)) as u64)
        } else {
            None::<u64>
        },
{
    if digits == 0 {
        assert(0 * ten_to(places as nat) == 0) by (nonlinear_arith);
        return Some(0);
    }
    let mut scaled: u64 = digits;
    let mut done: usize = 0;
    assert(digits * ten_to(0) == digits) by (nonlinear_arith)
        requires
            ten_to(0) == 1,
    ;
    while done < places
        invariant
            done <= places,
            digits > 0,
            scaled == digits * ten_to(done as nat),
        decreases places - done,
    {
        proof {
            lemma_ten_to_grows((done + 1) as nat, places as nat);
            assert(digits * ten_to((done + 1) as nat) == 10 * (digits * ten_to(done as nat)))
                by (nonlinear_arith)
                requires
                    ten_to((done + 1) as nat) == 10 * ten_to(done as nat),
            ;
            assert(digits * ten_to((done + 1) as nat) <= digits * ten_to(places as nat))
                by (nonlinear_arith)
                requires
                    ten_to((done + 1) as nat) <= ten_to(places as nat),
            ;
        }
        match scaled.checked_mul(10) {
            Some(next) => {
                scaled = next;
            },
            None => {
                return None;
            },
        }
        done = done + 1;
    }
    Some(scaled)
}

/// Makes the operands show the declared minimum of fraction digits.
pub fn reconcile(operands: Operands, minimum: Option<usize>) -> (shown: Operands)
    requires
        scaling_fits(operands, count_of(minimum)),
    ensures
        shown == reconciled(operands, minimum),
{
    match minimum {
        Some(m) => {
            if m > operands.v {
                let scaled = scale_digits(operands.f, m - operands.v);
                Operands {
                    n: operands.n,
                    i: operands.i,
                    v: m,
                    w: operands.w,
                    f: scaled.unwrap(),
                    t: operands.t,
                }
            } else {
                operands
            }
        },
        None => operands,
    }
}

/// The operands of a decimal text under a declared minimum of fraction
/// digits: `None` where the text is taken for no number, or where the
/// scaled fraction digits do not fit.
pub open spec fn operands_under(text: Seq<char>, minimum: Option<usize>) -> Option<Operands> {
    match operands_of_text(text) {
        Some(read) => if scaling_fits(read, count_of(minimum)) {
            Some(reconciled(read, minimum))
        } else {
            None
        },
        None => None,
    }
}

/// The plural operands of a canonical decimal text, reconciled with the
/// declared minimum of fraction digits.
pub fn operands_of(text: &str, minimum: Option<usize>) -> (operands: Option<Operands>)
    ensures
        operands == operands_under(text@, minimum),
{
    match parse_operands(text) {
        Some(read) => {
            let lacking: usize = match minimum {
                Some(m) => if m > read.v {
                    m - read.v
                } else {
                    0
                },
                None => 0,
            };
            if scale_digits(read.f, lacking).is_some() {
                Some(reconcile(read, minimum))
            } else {
                None
            }
        },
        None => None,
    }
}

impl FluentNumber {
    /// The plural operands of the number, read from its canonical text and
    /// reconciled with its minimum of fraction digits. `rendered` is what
    /// `as_string` takes. `None` where the canonical text is taken for no
    /// number, or where the scaled fraction digits do not fit.
    pub fn plural_operands(&self, rendered: &str) -> (operands: Option<Operands>)
        requires
            self.options.minimum_fraction_digits is Some && working_precision(
                self@.options.maximum_fraction_digits,
                usize::BITS as nat,
            ) > 0 ==> rendered@.contains('.'),
        ensures
            operands == operands_under(
                canonical(
                    rendered@,
                    working_precision(self@.options.maximum_fraction_digits, usize::BITS as nat),
                    self@.options.minimum_fraction_digits,
                ),
                self.options.minimum_fraction_digits,
            ),
    {
        let text = self.as_string(rendered);
        operands_of(text.as_str(), self.options.minimum_fraction_digits)
    }
}

} // verus!
