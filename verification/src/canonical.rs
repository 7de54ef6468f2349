//! The canonical decimal text of a number, made from its fixed-point
//! rendering: trailing zeros go, zeros that a minimum asks for come back,
//! and a decimal point with nothing behind it goes too.

use crate::text::chars_of;
use vstd::prelude::*;

verus! {

/// `text` without the run of `unwanted` characters at its end.
pub open spec fn trim_end(text: Seq<char>, unwanted: char) -> Seq<char>
    decreases text.len(),
{
    if text.len() > 0 && text.last() == unwanted {
        trim_end(text.drop_last(), unwanted)
    } else {
        text
    }
}

/// `count` zeros.
pub open spec fn zeros(count: nat) -> Seq<char> {
    Seq::new(count, |i: int| '0')
}

/// `at` is where the first decimal point of `text` stands.
pub open spec fn first_point_at(text: Seq<char>, at: int) -> bool {
    &&& 0 <= at < text.len()
    &&& text[at] == '.'
    &&& forall|j: int| 0 <= j < at ==> text[j] != '.'
}

/// The number of characters behind the first decimal point of `text`; `None`
/// where `text` has no decimal point.
pub open spec fn fraction_len(text: Seq<char>) -> Option<nat> {
    if exists|at: int| first_point_at(text, at) {
        Some((text.len() - 1 - choose|at: int| first_point_at(text, at)) as nat)
    } else {
        None
    }
}

/// `text` with as many zeros behind it as its fraction lacks to `minimum`
/// digits. A text whose fraction is long enough, or that has no decimal
/// point, stays as it is.
pub open spec fn padded(text: Seq<char>, minimum: nat) -> Seq<char> {
    match fraction_len(text) {
        Some(present) if present < minimum => text + zeros((minimum - present) as nat),
        _ => text,
    }
}

/// The canonical text that belongs to `rendered`, the rendering of a value
/// with `precision` fraction digits, under an optional minimum number of
/// fraction digits. With a precision of zero there is no fraction to pad and
/// the minimum is not looked at.
pub open spec fn canonical(rendered: Seq<char>, precision: nat, minimum: Option<nat>) -> Seq<char> {
    let trimmed = trim_end(rendered, '0');
    let filled = match minimum {
        Some(m) if precision > 0 => padded(trimmed, m),
        _ => trimmed,
    };
    trim_end(filled, '.')
}

/// The first decimal point decides the fraction's length.
pub proof fn lemma_fraction_len_at(text: Seq<char>, at: int)
    requires
        first_point_at(text, at),
    ensures
        fraction_len(text) == Some((text.len() - 1 - at) as nat),
{
    let chosen = choose|i: int| first_point_at(text, i);
    assert(first_point_at(text, chosen));
    assert(chosen == at) by {
        if chosen < at {
            assert(text[chosen] != '.');
        } else if at < chosen {
            assert(text[at] != '.');
        }
    }
}

/// A text without a decimal point has no fraction.
pub proof fn lemma_fraction_len_none(text: Seq<char>)
    requires
        !text.contains('.'),
    ensures
        fraction_len(text) is None,
{
    if exists|at: int| first_point_at(text, at) {
        let at = choose|at: int| first_point_at(text, at);
        assert(text.contains(text[at]));
    }
}

/// Trimming leaves a prefix whose last character is not the unwanted one,
/// and takes away only unwanted characters.
pub proof fn lemma_trim_end(text: Seq<char>, unwanted: char)
    ensures
        trim_end(text, unwanted).len() <= text.len(),
        trim_end(text, unwanted) == text.subrange(0, trim_end(text, unwanted).len() as int),
        trim_end(text, unwanted).len() > 0 ==> trim_end(text, unwanted).last() != unwanted,
        forall|j: int| trim_end(text, unwanted).len() <= j < text.len() ==> text[j] == unwanted,
    decreases text.len(),
{
    if text.len() > 0 && text.last() == unwanted {
        let shorter = text.drop_last();
        lemma_trim_end(shorter, unwanted);
        let kept = trim_end(shorter, unwanted).len() as int;
        assert(shorter.subrange(0, kept) =~= text.subrange(0, kept));
        assert forall|j: int| kept <= j < text.len() implies text[j] == unwanted by {
            if j < shorter.len() {
                assert(shorter[j] == text[j]);
            }
        }
    } else {
        assert(text.subrange(0, text.len() as int) =~= text);
    }
}

/// A prefix that ends where the run of unwanted characters begins is what
/// trimming gives.
pub proof fn lemma_trim_end_is_prefix(text: Seq<char>, unwanted: char, end: int)
    requires
        0 <= end <= text.len(),
        end > 0 ==> text[end - 1] != unwanted,
        forall|j: int| end <= j < text.len() ==> text[j] == unwanted,
    ensures
        trim_end(text, unwanted) == text.subrange(0, end),
    decreases text.len() - end,
{
    if end == text.len() {
        assert(text.subrange(0, end) =~= text);
    } else {
        let shorter = text.drop_last();
        lemma_trim_end_is_prefix(shorter, unwanted, end);
        assert(shorter.subrange(0, end) =~= text.subrange(0, end));
    }
}

/// Whether `c` is a decimal digit.
pub open spec fn is_digit(c: char) -> bool {
    '0' <= c <= '9'
}

/// Whether `text` is a number in fixed-point notation with `precision`
/// digits behind the decimal point: an optional minus sign, one digit or
/// more, and then, where `precision` is not zero, a decimal point and
/// `precision` digits.
pub open spec fn is_fixed_point(text: Seq<char>, precision: nat) -> bool {
    let start: int = if text.len() > 0 && text[0] == '-' {
        1
    } else {
        0
    };
    let whole_end: int = if precision > 0 {
        text.len() - precision - 1
    } else {
        text.len() as int
    };
    &&& start < whole_end
    &&& forall|i: int| start <= i < whole_end ==> is_digit(#[trigger] text[i])
    &&& precision > 0 ==> text[whole_end] == '.'
    &&& forall|i: int| whole_end < i < text.len() ==> is_digit(#[trigger] text[i])
}

/// Whether `text` is the word by which a value that is no finite number is
/// rendered.
pub open spec fn is_non_finite(text: Seq<char>) -> bool {
    text == seq!['i', 'n', 'f'] || text == seq!['-', 'i', 'n', 'f'] || text == seq!['N', 'a', 'N']
}

/// Whether `text` can be the rendering of a value with `precision` fraction
/// digits: a number in fixed-point notation, or the word for a value that is
/// no finite number.
pub open spec fn is_rendering(text: Seq<char>, precision: nat) -> bool {
    is_fixed_point(text, precision) || is_non_finite(text)
}

/// The fraction digits that the canonical text must show: the minimum,
/// where one is set and the precision is not zero.
pub open spec fn required_digits(precision: nat, minimum: Option<nat>) -> nat {
    match minimum {
        Some(m) if precision > 0 => m,
        _ => 0,
    }
}

/// A number in fixed-point notation has its one decimal point where its
/// fraction begins, and none where it has no fraction.
pub proof fn lemma_fixed_point(text: Seq<char>, precision: nat)
    requires
        is_fixed_point(text, precision),
    ensures
        precision > 0 ==> first_point_at(text, text.len() - precision - 1),
        precision > 0 ==> fraction_len(text) == Some(precision),
        precision == 0 ==> !text.contains('.'),
        forall|i: int| 0 <= i < text.len() && text[i] == '.' ==> i == text.len() - precision - 1,
{
    if precision > 0 {
        let at = text.len() - precision - 1;
        assert forall|j: int| 0 <= j < at implies text[j] != '.' by {
            if j > 0 || text[0] != '-' {
                assert(is_digit(text[j]));
            }
        }
        lemma_fraction_len_at(text, at);
    }
    assert forall|i: int| 0 <= i < text.len() && text[i] == '.' implies i == text.len() - precision
        - 1 by {
        if i != text.len() - precision - 1 {
            if i > 0 || text[0] != '-' {
                assert(is_digit(text[i]));
            }
        }
    }
    if precision == 0 && text.contains('.') {
        let i = choose|i: int| 0 <= i < text.len() && text[i] == '.';
        assert(i == text.len() - 1);
        assert(is_digit(text[i]));
    }
}

/// The canonical text takes its characters from the rendering, and adds
/// nothing but zeros: where the rendering holds no decimal point, the
/// canonical text holds none.
pub proof fn lemma_canonical_adds_no_point(
    rendered: Seq<char>,
    precision: nat,
    minimum: Option<nat>,
)
    requires
        !rendered.contains('.'),
    ensures
        !canonical(rendered, precision, minimum).contains('.'),
{
    let trimmed = trim_end(rendered, '0');
    lemma_trim_end(rendered, '0');
    assert(!trimmed.contains('.')) by {
        if trimmed.contains('.') {
            let i = choose|i: int| 0 <= i < trimmed.len() && trimmed[i] == '.';
            assert(rendered[i] == '.');
        }
    }
    lemma_fraction_len_none(trimmed);
    assert(canonical(rendered, precision, minimum) == trim_end(trimmed, '.'));
    lemma_trim_end(trimmed, '.');
    let text = trim_end(trimmed, '.');
    if text.contains('.') {
        let i = choose|i: int| 0 <= i < text.len() && text[i] == '.';
        assert(trimmed[i] == '.');
    }
}

/// The canonical text of a value that was rendered without fraction digits
/// holds no decimal point.
pub proof fn lemma_zero_precision_gives_no_point(
    rendered: Seq<char>,
    precision: nat,
    minimum: Option<nat>,
)
    requires
        precision == 0,
        is_rendering(rendered, precision),
    ensures
        !canonical(rendered, precision, minimum).contains('.'),
{
    if is_fixed_point(rendered, precision) {
        lemma_fixed_point(rendered, precision);
    } else {
        if rendered.contains('.') {
            let i = choose|i: int| 0 <= i < rendered.len() && rendered[i] == '.';
            assert(false);
        }
    }
    lemma_canonical_adds_no_point(rendered, precision, minimum);
}

/// Where the rendering, once its trailing zeros are gone, has fewer fraction
/// digits than the minimum asks for, the canonical text is that text with
/// zeros behind it, and has exactly the minimum of fraction digits.
pub proof fn lemma_minimum_is_filled(rendered: Seq<char>, precision: nat, minimum: nat)
    requires
        precision > 0,
        fraction_len(trim_end(rendered, '0')) is Some,
        fraction_len(trim_end(rendered, '0'))->0 < minimum,
    ensures
        canonical(rendered, precision, Some(minimum)) == trim_end(rendered, '0') + zeros(
            (minimum - fraction_len(trim_end(rendered, '0'))->0) as nat,
        ),
        fraction_len(canonical(rendered, precision, Some(minimum))) == Some(minimum),
{
    let natural = trim_end(rendered, '0');
    let present = fraction_len(natural)->0;
    let filled = natural + zeros((minimum - present) as nat);
    assert(padded(natural, minimum) == filled);
    assert(filled.last() == '0');
    assert(trim_end(filled, '.') == filled);
    let at = choose|at: int| first_point_at(natural, at);
    assert(first_point_at(natural, at));
    lemma_fraction_len_at(natural, at);
    assert(first_point_at(filled, at)) by {
        assert(filled[at] == natural[at]);
        assert forall|j: int| 0 <= j < at implies filled[j] != '.' by {
            assert(filled[j] == natural[j]);
        }
    }
    lemma_fraction_len_at(filled, at);
}

/// The canonical text never ends in a decimal point, and it shows no
/// trailing zero beyond the fraction digits that are required: where its
/// fraction is longer than required, its last digit is not a zero.
pub proof fn lemma_no_excess_zeros(rendered: Seq<char>, precision: nat, minimum: Option<nat>)
    requires
        is_rendering(rendered, precision),
    ensures
        canonical(rendered, precision, minimum).len() > 0 ==> canonical(
            rendered,
            precision,
            minimum,
        ).last() != '.',
        fraction_len(canonical(rendered, precision, minimum)) matches Some(shown) ==> shown
            <= required_digits(precision, minimum) || canonical(
            rendered,
            precision,
            minimum,
        ).last() != '0',
{
    let trimmed = trim_end(rendered, '0');
    let filled = match minimum {
        Some(m) if precision > 0 => padded(trimmed, m),
        _ => trimmed,
    };
    let text = trim_end(filled, '.');
    lemma_trim_end(rendered, '0');
    lemma_trim_end(filled, '.');
    if !rendered.contains('.') {
        lemma_canonical_adds_no_point(rendered, precision, minimum);
        lemma_fraction_len_none(text);
    } else {
        assert(is_fixed_point(rendered, precision)) by {
            if is_non_finite(rendered) {
                let i = choose|i: int| 0 <= i < rendered.len() && rendered[i] == '.';
                assert(false);
            }
        }
        lemma_fixed_point(rendered, precision);
        let at = rendered.len() - precision - 1;
        assert(at < trimmed.len()) by {
            if trimmed.len() <= at {
                assert(rendered[at] == '0');
            }
        }
        assert(first_point_at(trimmed, at)) by {
            assert(trimmed[at] == rendered[at]);
            assert forall|j: int| 0 <= j < at implies trimmed[j] != '.' by {
                assert(trimmed[j] == rendered[j]);
            }
        }
        lemma_fraction_len_at(trimmed, at);
        let present = (trimmed.len() - 1 - at) as nat;
        if filled != trimmed {
            let m = minimum->0;
            assert(filled == trimmed + zeros((m - present) as nat));
            assert(filled.last() == '0');
            assert(text == filled);
            assert(first_point_at(filled, at)) by {
                assert(filled[at] == trimmed[at]);
                assert forall|j: int| 0 <= j < at implies filled[j] != '.' by {
                    assert(filled[j] == trimmed[j]);
                }
            }
            lemma_fraction_len_at(filled, at);
        } else if trimmed.last() == '.' {
            assert(trimmed.len() - 1 == at) by {
                assert(rendered[trimmed.len() - 1] == '.');
            }
            assert(text.len() <= at);
            assert(!text.contains('.')) by {
                if text.contains('.') {
                    let i = choose|i: int| 0 <= i < text.len() && text[i] == '.';
                    assert(rendered[i] == '.');
                }
            }
            lemma_fraction_len_none(text);
        } else {
            assert(text == trimmed);
        }
    }
}

/// A decimal text comes back as it was written: where the rendering of the
/// value it stands for is the text itself, filled with zeros up to the
/// precision, and the minimum of fraction digits is the number that the
/// text wrote, the canonical text is the text.
pub proof fn lemma_written_text_comes_back(input: Seq<char>, written: nat, precision: nat)
    requires
        is_fixed_point(input, written),
        0 < written <= precision,
    ensures
        canonical(
            input + zeros((precision - written) as nat),
            precision,
            fraction_len(input),
        ) == input,
{
    let rendered = input + zeros((precision - written) as nat);
    let trimmed = trim_end(rendered, '0');
    lemma_fixed_point(input, written);
    lemma_trim_end(rendered, '0');
    let at = input.len() - written - 1;
    assert(at < trimmed.len()) by {
        if trimmed.len() <= at {
            assert(rendered[at] == '0');
            assert(rendered[at] == input[at]);
        }
    }
    assert(trimmed.len() <= input.len()) by {
        if trimmed.len() > input.len() {
            assert(trimmed.last() == rendered[trimmed.len() - 1]);
        }
    }
    assert(first_point_at(trimmed, at)) by {
        assert(trimmed[at] == input[at]);
        assert forall|j: int| 0 <= j < at implies trimmed[j] != '.' by {
            assert(trimmed[j] == input[j]);
        }
    }
    lemma_fraction_len_at(trimmed, at);
    let present = (trimmed.len() - 1 - at) as nat;
    let filled = padded(trimmed, written);
    assert(filled =~= input) by {
        assert forall|i: int| 0 <= i < input.len() implies filled[i] == input[i] by {
            if i < trimmed.len() {
                assert(trimmed[i] == rendered[i]);
            } else {
                assert(rendered[i] == '0');
            }
            assert(rendered[i] == input[i]);
        }
    }
    assert(is_digit(input.last())) by {
        assert(is_digit(input[input.len() - 1]));
    }
    assert(trim_end(input, '.') == input);
}

/// The length of `text` once the `unwanted` characters at the end of its
/// first `end` characters are gone.
fn trimmed_len(text: &Vec<char>, end: usize, unwanted: char) -> (kept: usize)
    requires
        end <= text.len(),
    ensures
        kept <= end,
        text@.subrange(0, kept as int) == trim_end(text@.subrange(0, end as int), unwanted),
{
    let mut kept = end;
    while kept > 0 && text[kept - 1] == unwanted
        invariant
            kept <= end <= text.len(),
            forall|j: int| kept <= j < end ==> text@[j] == unwanted,
        decreases kept,
    {
        kept = kept - 1;
    }
    proof {
        lemma_trim_end_is_prefix(text@.subrange(0, end as int), unwanted, kept as int);
        assert(text@.subrange(0, end as int).subrange(0, kept as int) =~= text@.subrange(
            0,
            kept as int,
        ));
    }
    kept
}

/// The place of the first decimal point among the first `end` characters of
/// `text`, or `end` where there is none.
fn first_point(text: &Vec<char>, end: usize) -> (at: usize)
    requires
        end <= text.len(),
    ensures
        at <= end,
        at < end ==> first_point_at(text@.subrange(0, end as int), at as int),
        at == end ==> !text@.subrange(0, end as int).contains('.'),
{
    let mut at: usize = 0;
    while at < end && text[at] != '.'
        invariant
            at <= end <= text.len(),
            forall|j: int| 0 <= j < at ==> text@[j] != '.',
        decreases end - at,
    {
        at = at + 1;
    }
    at
}

/// The number of characters behind the first decimal point of `text`, as
/// the text was written; `None` where it has no decimal point.
pub fn written_fraction_len(text: &str) -> (digits: Option<usize>)
    ensures
        digits is Some <==> text@.contains('.'),
        fraction_len(text@) == match digits {
            Some(n) => Some(n as nat),
            None => None,
        },
{
    let chars = chars_of(text);
    let at = first_point(&chars, chars.len());
    proof {
        assert(chars@.subrange(0, chars.len() as int) =~= text@);
        if at < chars.len() {
            lemma_fraction_len_at(text@, at as int);
            assert(text@.contains(text@[at as int]));
        } else {
            lemma_fraction_len_none(text@);
        }
    }
    if at < chars.len() {
        Some(chars.len() - 1 - at)
    } else {
        None
    }
}

/// The canonical text of a value from its rendering with `precision`
/// fraction digits.
pub fn canonical_text(rendered: &str, precision: usize, minimum: Option<usize>) -> (text: String)
    requires
        minimum is Some && precision > 0 ==> rendered@.contains('.'),
    ensures
        text@ == canonical(
            rendered@,
            precision as nat,
            match minimum {
                Some(m) => Some(m as nat),
                None => None,
            },
        ),
{
    let chars = chars_of(rendered);
    let trimmed = trimmed_len(&chars, chars.len(), '0');
    let mut missing: usize = 0;
    proof {
        assert(chars@.subrange(0, chars.len() as int) =~= rendered@);
        lemma_trim_end(rendered@, '0');
    }
    if let Some(m) = minimum {
        if precision > 0 {
            let at = first_point(&chars, trimmed);
            proof {
                let j = choose|j: int| 0 <= j < rendered@.len() && rendered@[j] == '.';
                assert(j < trimmed);
                assert(chars@.subrange(0, trimmed as int)[j] == '.');
                assert(chars@.subrange(0, trimmed as int).contains('.'));
                lemma_fraction_len_at(chars@.subrange(0, trimmed as int), at as int);
            }
            let present = trimmed - 1 - at;
            if present < m {
                missing = m - present;
            }
        }
    }
    let kept = if missing == 0 {
        trimmed_len(&chars, trimmed, '.')
    } else {
        trimmed
    };
    let mut text = String::from_str(rendered.substring_char(0, kept));
    let mut added: usize = 0;
    while added < missing
        invariant
            added <= missing,
            text@ == rendered@.subrange(0, kept as int) + zeros(added as nat),
        decreases missing - added,
    {
        proof {
            reveal_strlit("0");
        }
        text.append("0");
        added = added + 1;
    }
    proof {
        let cut = rendered@.subrange(0, trimmed as int);
        if missing == 0 {
            assert(cut + zeros(0) =~= cut);
            assert(rendered@.subrange(0, kept as int) + zeros(0) =~= rendered@.subrange(
                0,
                kept as int,
            ));
        } else {
            let filled = cut + zeros(missing as nat);
            assert(filled.last() == '0');
        }
    }
    text
}

} // verus!
