//! Splits a score into the three digits that the score display shows.

use vstd::prelude::*;

verus! {

/// The largest score that three digits can show.
pub const MAX_SCORE: i32 = 999;

/// The hundreds, tens and units digit of a score, each from 0 to 9.
#[derive(Clone, Copy, Debug, PartialEq, Eq, Structural)]
pub struct Digits {
    pub hundreds: u8,
    pub tens: u8,
    pub units: u8,
}

/// Why a value has no three-digit form.
#[derive(Clone, Copy, Debug, PartialEq, Eq, Structural)]
pub enum ScoreError {
    /// The value is below zero.
    Negative,
    /// The value is above [`MAX_SCORE`].
    TooLarge,
}

/// The digits of `value` at the places of hundreds, tens and units.
pub open spec fn digits_of(value: int) -> Digits {
    Digits {
        hundreds: ((value / 100) % 10) as u8,
        tens: ((value / 10) % 10) as u8,
        units: (value % 10) as u8,
    }
}

/// The number that three digits stand for.
pub open spec fn value_of(digits: Digits) -> int {
    digits.hundreds * 100 + digits.tens * 10 + digits.units
}

/// The score nearest to `value` that three digits can show.
pub open spec fn clamped(value: int) -> int {
    if value < 0 {
        0
    } else if value > 999 {
        999
    } else {
        value
    }
}

/// The whole number of world units nearest to the size of a coordinate given
/// in thousandths; a half rounds up.
pub open spec fn rounded_units(coordinate: int) -> int {
    if coordinate >= 0 {
        (coordinate + 500) / 1000
    } else {
        (500 - coordinate) / 1000
    }
}

/// Splits a score into its digits.
///
/// A value from 0 to [`MAX_SCORE`] always has digits; any other value is
/// refused with the reason.
pub fn decode_digits(value: i32) -> (result: Result<Digits, ScoreError>)
    ensures
        0 <= value <= 999 ==> result == Ok::<Digits, ScoreError>(digits_of(value as int)),
        value < 0 ==> result == Err::<Digits, ScoreError>(ScoreError::Negative),
        value > 999 ==> result == Err::<Digits, ScoreError>(ScoreError::TooLarge),
{
    if value < 0 {
        Err(ScoreError::Negative)
    } else if value > MAX_SCORE {
        Err(ScoreError::TooLarge)
    } else {
        let hundreds: u8 = ((value / 100) % 10) as u8;
        let tens: u8 = ((value / 10) % 10) as u8;
        let units: u8 = (value % 10) as u8;
        Ok(Digits { hundreds, tens, units })
    }
}

/// Brings a value into the range that three digits can show.
pub fn clamp_score(value: i32) -> (score: i32)
    ensures
        score == clamped(value as int),
{
    if value < 0 {
        0
    } else if value > MAX_SCORE {
        MAX_SCORE
    } else {
        value
    }
}

/// Splits the score nearest to `value` into its digits. This never fails:
/// a value below zero shows as 000 and one above [`MAX_SCORE`] as 999.
pub fn display_digits(value: i32) -> (digits: Digits)
    ensures
        digits == digits_of(clamped(value as int)),
{
    match decode_digits(clamp_score(value)) {
        Ok(digits) => digits,
        Err(_) => Digits { hundreds: 0, tens: 0, units: 0 },
    }
}

/// Rounds the size of a coordinate to whole world units.
pub fn distance_score(coordinate: i32) -> (score: i32)
    ensures
        score == rounded_units(coordinate as int),
        0 <= score <= 2147484,
{
    let wide: i64 = coordinate as i64;
    let size: i64 = if wide >= 0 {
        wide
    } else {
        -wide
    };
    ((size + 500) / 1000) as i32
}

/// The digits of a score from 0 to 999 are digits, and read as a number they
/// give the score back.
pub proof fn lemma_digits_recompose(value: int)
    requires
        0 <= value <= 999,
    ensures
        digits_of(value).hundreds <= 9,
        digits_of(value).tens <= 9,
        digits_of(value).units <= 9,
        value_of(digits_of(value)) == value,
{
}

/// No other three digits stand for the same score.
pub proof fn lemma_digits_unique(digits: Digits)
    requires
        digits.hundreds <= 9,
        digits.tens <= 9,
        digits.units <= 9,
    ensures
        0 <= value_of(digits) <= 999,
        digits_of(value_of(digits)) == digits,
{
}

} // verus!
