//! Paste lifetimes: compact duration strings such as `1d`, `90` or `2mo`,
//! read as a bounded number of minutes.

use vstd::prelude::*;
use vstd::string::*;
use crate::text::{all_digits, decimal_text, decimal_value, is_digit, lemma_decimal_text_value};

verus! {

pub const ONE_MINUTE: u32 = 1;

pub const ONE_HOUR: u32 = 60;

pub const ONE_DAY: u32 = 1_440;

pub const ONE_WEEK: u32 = 10_080;

/// A month of thirty days.
pub const ONE_MONTH: u32 = 43_200;

/// A year of 365 days.
pub const ONE_YEAR: u32 = 525_600;

/// The longest lifetime a paste may have.
pub const ONE_HUNDRED_YEARS: u32 = 52_560_000;

/// Why a duration string was refused.
#[derive(Debug)]
pub enum DurationError {
    /// The string does not start with a digit.
    EmptyAmount,
    /// The text after the digits is not one of the known units.
    InvalidFormat { unit: String },
    /// The duration is longer than a hundred years; `input` is the whole string.
    TooLong { input: String },
}

/// The mathematical content of a `DurationError`.
pub enum DurationFailure {
    EmptyAmount,
    InvalidFormat { unit: Seq<char> },
    TooLong { input: Seq<char> },
}

impl View for DurationError {
    type V = DurationFailure;

    open spec fn view(&self) -> DurationFailure {
        match self {
            DurationError::EmptyAmount => DurationFailure::EmptyAmount,
            DurationError::InvalidFormat { unit } => DurationFailure::InvalidFormat { unit: unit@ },
            DurationError::TooLong { input } => DurationFailure::TooLong { input: input@ },
        }
    }
}

/// The index of the first character at or after `from` that is not an ASCII digit,
/// or the length of `s` if there is none.
pub open spec fn first_non_digit(s: Seq<char>, from: int) -> int
    decreases s.len() - from,
{
    if 0 <= from < s.len() && is_digit(s[from]) {
        first_non_digit(s, from + 1)
    } else {
        from
    }
}

/// The digits a duration string starts with.
pub open spec fn amount_part(s: Seq<char>) -> Seq<char> {
    s.subrange(0, first_non_digit(s, 0))
}

/// The unit of a duration string: what follows the digits, or `m` if nothing does.
pub open spec fn unit_part(s: Seq<char>) -> Seq<char> {
    let split = first_non_digit(s, 0);
    if split == s.len() {
        seq!['m']
    } else {
        s.subrange(split, s.len() as int)
    }
}

/// The number of minutes in one `unit`, if `unit` is known.
pub open spec fn unit_scale(unit: Seq<char>) -> Option<nat> {
    if unit == seq!['m'] {
        Some(1)
    } else if unit == seq!['h'] {
        Some(60)
    } else if unit == seq!['d'] {
        Some(1_440)
    } else if unit == seq!['w'] {
        Some(10_080)
    } else if unit == seq!['m', 'o'] {
        Some(43_200)
    } else if unit == seq!['y'] {
        Some(525_600)
    } else {
        None
    }
}

/// What a duration string means: its length in minutes, or why it has none.
pub open spec fn duration_minutes(s: Seq<char>) -> Result<nat, DurationFailure> {
    let amount = amount_part(s);
    let unit = unit_part(s);
    if amount.len() == 0 {
        Err(DurationFailure::EmptyAmount)
    } else {
        match unit_scale(unit) {
            None => Err(DurationFailure::InvalidFormat { unit }),
            Some(scale) => if decimal_value(amount) * scale > ONE_HUNDRED_YEARS {
                Err(DurationFailure::TooLong { input: s })
            } else {
                Ok(decimal_value(amount) * scale)
            },
        }
    }
}

/// The largest amount that is told apart from larger ones while the digits are read:
/// any amount at or above it is too long whatever the unit.
const AMOUNT_CAP: u32 = 52_560_001;

/// Reads the unit that starts at character `split` of `s`, and gives its scale in minutes.
fn scale_of_unit(s: &str, split: usize, len: usize) -> (r: Option<u32>)
    requires
        len == s@.len(),
        split <= len,
        split == first_non_digit(s@, 0),
    ensures
        match r {
            Some(scale) => unit_scale(unit_part(s@)) == Some(scale as nat) && 1 <= scale
                <= ONE_YEAR,
            None => unit_scale(unit_part(s@)) is None,
        },
{
    let ghost unit = unit_part(s@);
    if split == len {
        return Some(ONE_MINUTE);
    }
    assert(unit.len() == len - split);
    assert(forall|j: int| 0 <= j < unit.len() ==> unit[j] == s@[split + j]);
    if len - split == 1 {
        let c = s.get_char(split);
        assert(unit =~= seq![c]);
        assert(seq![c][0] == c);
        if c == 'm' {
            Some(ONE_MINUTE)
        } else if c == 'h' {
            Some(ONE_HOUR)
        } else if c == 'd' {
            Some(ONE_DAY)
        } else if c == 'w' {
            Some(ONE_WEEK)
        } else if c == 'y' {
            Some(ONE_YEAR)
        } else {
            assert(seq!['m'][0] == 'm' && seq!['h'][0] == 'h' && seq!['d'][0] == 'd');
            assert(seq!['w'][0] == 'w' && seq!['y'][0] == 'y');
            None
        }
    } else if len - split == 2 {
        let c0 = s.get_char(split);
        let c1 = s.get_char(split + 1);
        assert(unit =~= seq![c0, c1]);
        if c0 == 'm' && c1 == 'o' {
            Some(ONE_MONTH)
        } else {
            assert(seq!['m', 'o'][0] == 'm' && seq!['m', 'o'][1] == 'o');
            None
        }
    } else {
        assert(seq!['m', 'o'].len() == 2);
        None
    }
}

/// Reads a duration string as a number of minutes.
///
/// The string is a run of ASCII digits followed by a unit: `m`, `h`, `d`, `w`, `mo`
/// (thirty days) or `y` (365 days); digits alone count minutes. The amount may have
/// any number of digits. A string without leading digits is refused as
/// `EmptyAmount`, an unknown unit as `InvalidFormat`, and a duration of more than a
/// hundred years as `TooLong`.
pub fn parse_duration(s: &str) -> (r: Result<u32, DurationError>)
    ensures
        match r {
            Ok(minutes) => duration_minutes(s@) == Ok::<nat, DurationFailure>(minutes as nat)
                && minutes <= ONE_HUNDRED_YEARS,
            Err(e) => duration_minutes(s@) == Err::<nat, DurationFailure>(e@),
        },
{
    let len = s.unicode_len();
    let mut split: usize = 0;
    let mut amount: u32 = 0;
    while split < len
        invariant
            len == s@.len(),
            split <= len,
            first_non_digit(s@, split as int) == first_non_digit(s@, 0),
            amount <= AMOUNT_CAP,
            amount < AMOUNT_CAP ==> amount == decimal_value(s@.subrange(0, split as int)),
            amount == AMOUNT_CAP ==> decimal_value(s@.subrange(0, split as int)) >= AMOUNT_CAP,
        ensures
            first_non_digit(s@, 0) == split,
        decreases len - split,
    {
        let code: u32 = s.get_char(split) as u32;
        if code < 48 || code > 57 {
            break;
        }
        proof {
            let next = s@.subrange(0, split as int + 1);
            assert(next.drop_last() =~= s@.subrange(0, split as int));
            assert(next.last() == s@[split as int]);
        }
        let digit: u32 = code - 48;
        amount = amount * 10 + digit;
        if amount > AMOUNT_CAP {
            amount = AMOUNT_CAP;
        }
        split += 1;
    }
    if split == 0 {
        return Err(DurationError::EmptyAmount);
    }
    let scale = match scale_of_unit(s, split, len) {
        Some(scale) => scale,
        None => {
            let unit = s.substring_char(split, len);
            return Err(DurationError::InvalidFormat { unit: String::from_str(unit) });
        },
    };
    let ghost value = decimal_value(amount_part(s@));
    proof {
        if amount == AMOUNT_CAP {
            assert(value * scale > 52_560_000) by (nonlinear_arith)
                requires
                    value >= 52_560_001,
                    scale >= 1,
            ;
        }
    }
    assert(amount * scale <= 52_560_001 * 525_600) by (nonlinear_arith)
        requires
            amount <= 52_560_001,
            scale <= 525_600,
    ;
    let minutes: u64 = (amount as u64) * (scale as u64);
    if minutes > ONE_HUNDRED_YEARS as u64 {
        assert(amount < AMOUNT_CAP ==> value * scale == minutes);
        Err(DurationError::TooLong { input: String::from_str(s) })
    } else {
        assert(amount < AMOUNT_CAP) by (nonlinear_arith)
            requires
                amount * scale <= 52_560_000,
                scale >= 1,
                amount <= 52_560_001,
        ;
        Ok(minutes as u32)
    }
}

impl DurationError {
    /// The text that tells a person what was wrong with the duration.
    pub open spec fn message_text(failure: DurationFailure) -> Seq<char> {
        match failure {
            DurationFailure::EmptyAmount => "Duration does not start with a number"@,
            DurationFailure::InvalidFormat { unit } => "Unknown unit `"@ + unit
                + "'; expected one of `m', `h', `d', `w', `mo', or `y'"@,
            DurationFailure::TooLong { input } => "Duration `"@ + input
                + "' is too long; maximum duration is 100y"@,
        }
    }

    /// Describes the error: an unknown unit is named, with the units there are; a
    /// duration that is too long is quoted whole.
    pub fn message(&self) -> (r: String)
        ensures
            r@ == Self::message_text(self@),
    {
        match self {
            DurationError::EmptyAmount => String::from_str("Duration does not start with a number"),
            DurationError::InvalidFormat { unit } => {
                let mut r = String::from_str("Unknown unit `");
                r.append(unit.as_str());
                r.append("'; expected one of `m', `h', `d', `w', `mo', or `y'");
                r
            },
            DurationError::TooLong { input } => {
                let mut r = String::from_str("Duration `");
                r.append(input.as_str());
                r.append("' is too long; maximum duration is 100y");
                r
            },
        }
    }
}

/// Whether `unit` is one of the six units that a duration may be written in.
pub open spec fn is_unit(unit: Seq<char>) -> bool {
    unit_scale(unit) is Some
}

/// In digits followed by a unit, the digits end where the unit begins.
proof fn lemma_split_at_unit(digits: Seq<char>, unit: Seq<char>, from: int)
    requires
        all_digits(digits),
        is_unit(unit),
        0 <= from <= digits.len(),
    ensures
        first_non_digit(digits + unit, from) == digits.len(),
    decreases digits.len() - from,
{
    let s = digits + unit;
    if from < digits.len() {
        assert(s[from] == digits[from]);
        lemma_split_at_unit(digits, unit, from + 1);
    } else {
        assert(unit.len() > 0);
        assert(s[from] == unit[0]);
        assert(seq!['m'][0] == 'm' && seq!['h'][0] == 'h' && seq!['d'][0] == 'd');
        assert(seq!['w'][0] == 'w' && seq!['y'][0] == 'y' && seq!['m', 'o'][0] == 'm');
        assert(!is_digit(unit[0]));
    }
}

/// In digits alone, the digits end where the string ends.
proof fn lemma_split_at_end(digits: Seq<char>, from: int)
    requires
        all_digits(digits),
        0 <= from <= digits.len(),
    ensures
        first_non_digit(digits, from) == digits.len(),
    decreases digits.len() - from,
{
    if from < digits.len() {
        lemma_split_at_end(digits, from + 1);
    }
}

/// A run of digits followed by one of the six units lasts as many minutes as the
/// digits denote, times the unit's scale, provided that this is at most a hundred
/// years; beyond that it is too long.
pub proof fn lemma_digits_then_unit(digits: Seq<char>, unit: Seq<char>)
    requires
        digits.len() > 0,
        all_digits(digits),
        is_unit(unit),
    ensures
        decimal_value(digits) * unit_scale(unit).unwrap() <= ONE_HUNDRED_YEARS
            ==> duration_minutes(digits + unit) == Ok::<nat, DurationFailure>(
            decimal_value(digits) * unit_scale(unit).unwrap(),
        ),
        decimal_value(digits) * unit_scale(unit).unwrap() > ONE_HUNDRED_YEARS
            ==> duration_minutes(digits + unit) == Err::<nat, DurationFailure>(
            DurationFailure::TooLong { input: digits + unit },
        ),
{
    let s = digits + unit;
    lemma_split_at_unit(digits, unit, 0);
    assert(amount_part(s) =~= digits);
    assert(unit.len() > 0);
    assert(unit_part(s) =~= unit);
}

/// Digits alone count minutes.
pub proof fn lemma_digits_alone(digits: Seq<char>)
    requires
        digits.len() > 0,
        all_digits(digits),
        decimal_value(digits) <= ONE_HUNDRED_YEARS,
    ensures
        duration_minutes(digits) == Ok::<nat, DurationFailure>(decimal_value(digits)),
{
    lemma_split_at_end(digits, 0);
    assert(amount_part(digits) =~= digits);
}

/// Writing the amount of a valid duration anew, in its shortest decimal notation and
/// with the same unit, gives a string that lasts as long.
pub proof fn lemma_rewritten_amount(digits: Seq<char>, unit: Seq<char>)
    requires
        digits.len() > 0,
        all_digits(digits),
        is_unit(unit),
        decimal_value(digits) * unit_scale(unit).unwrap() <= ONE_HUNDRED_YEARS,
    ensures
        duration_minutes(decimal_text(decimal_value(digits)) + unit) == duration_minutes(
            digits + unit,
        ),
        duration_minutes(digits + unit) == Ok::<nat, DurationFailure>(
            decimal_value(digits) * unit_scale(unit).unwrap(),
        ),
{
    lemma_decimal_text_value(decimal_value(digits));
    lemma_digits_then_unit(digits, unit);
    lemma_digits_then_unit(decimal_text(decimal_value(digits)), unit);
}

} // verus!
