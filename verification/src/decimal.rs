//! Arbitrary-precision decimals and their two-place text.

use crate::text::{decimal, digit, lemma_decimal_is_not_empty};
use bigdecimal::num_bigint::BigInt;
use bigdecimal::BigDecimal;
use vstd::arithmetic::power::pow;
use vstd::prelude::*;

verus! {

/// A decimal number of any size: the integer `unscaled` divided by ten to the
/// power `scale`. The integer is held in two's complement, least significant
/// byte first; no bytes stand for zero.
#[derive(Debug, PartialEq, Eq)]
pub struct Decimal {
    pub unscaled: Vec<u8>,
    pub scale: i16,
}

/// What a `Decimal` denotes.
pub struct DecimalView {
    pub unscaled: int,
    pub scale: int,
}

/// The number that `bytes` write in base 256, least significant byte first.
pub open spec fn unsigned_le(bytes: Seq<u8>) -> nat
    decreases bytes.len(),
{
    if bytes.len() == 0 {
        0
    } else {
        (bytes[0] as nat) + 256 * unsigned_le(bytes.drop_first())
    }
}

/// The integer that `bytes` write in two's complement, least significant byte
/// first: negative where the top bit of the last byte is set.
pub open spec fn signed_le(bytes: Seq<u8>) -> int {
    if bytes.len() > 0 && bytes.last() > 0x7f {
        unsigned_le(bytes) - pow(256, bytes.len())
    } else {
        unsigned_le(bytes) as int
    }
}

impl View for Decimal {
    type V = DecimalView;

    open spec fn view(&self) -> DecimalView {
        DecimalView { unscaled: signed_le(self.unscaled@), scale: self.scale as int }
    }
}

/// The quotient of `n` by a positive `d` with its fraction dropped, so that it
/// lies no further from zero than the exact quotient.
pub open spec fn toward_zero(n: int, d: int) -> int {
    if n < 0 {
        -((-n) / d)
    } else {
        n / d
    }
}

/// The unscaled integer of the number `unscaled / 10^scale` when it is held
/// at `places` digits after the point: zeros are added where that is more
/// digits than it has, and digits are dropped, not rounded, where it is fewer.
pub open spec fn rescaled(unscaled: int, scale: int, places: int) -> int {
    if places >= scale {
        unscaled * pow(10, (places - scale) as nat)
    } else {
        toward_zero(unscaled, pow(10, (scale - places) as nat))
    }
}

/// The text of an amount of `cents` hundredths, with exactly two digits after
/// the point: a minus sign where the amount is below zero, the digits of the
/// whole units, the point, and the two digits of the hundredths. 1950 reads
/// `19.50`, 5 reads `0.05`, and nothing reads `0.00`.
pub open spec fn two_place_text(cents: int) -> Seq<char> {
    let magnitude = if cents < 0 {
        -cents
    } else {
        cents
    };
    let sign = if cents < 0 {
        seq!['-']
    } else {
        Seq::empty()
    };
    sign + decimal((magnitude / 100) as nat) + seq![
        '.',
        digit((magnitude / 10) % 10),
        digit(magnitude % 10),
    ]
}

/// Calls `BigDecimal::with_scale`, on the number built by
/// `BigInt::from_signed_bytes_le` and `BigDecimal::new` and taken apart again
/// by `BigDecimal::into_bigint_and_scale` and `BigInt::to_signed_bytes_le`.
/// Trusted: the result has the scale asked for, and its integer is the
/// argument's times the power of ten that the added digits call for, or
/// divided by the power of ten of the digits dropped, the remainder left out.
#[verifier::external_body]
pub(crate) fn with_scale(value: &Decimal, places: i16) -> (held: Decimal)
    ensures
        held@.unscaled == rescaled(value@.unscaled, value@.scale, places as int),
        held@.scale == places,
{
    let unscaled = BigInt::from_signed_bytes_le(&value.unscaled);
    let number = BigDecimal::new(unscaled, i64::from(value.scale));
    let (unscaled, scale) = number.with_scale(i64::from(places)).into_bigint_and_scale();
    Decimal { unscaled: unscaled.to_signed_bytes_le(), scale: scale as i16 }
}

/// Calls the `Display` of `BigDecimal` with precision two, on the number
/// built by `BigInt::from_signed_bytes_le` and `BigDecimal::new`. Trusted: of
/// a number held at two places the decimal library writes the sign, the
/// digits before the last two, a point and the last two digits, with zeros
/// put in front where the number has fewer than three digits; this holds with
/// the formatting limits that the decimal library is built with by default.
#[verifier::external_body]
pub(crate) fn render_two_places(value: &Decimal) -> (text: String)
    requires
        value@.scale == 2,
    ensures
        text@ == two_place_text(value@.unscaled),
{
    let unscaled = BigInt::from_signed_bytes_le(&value.unscaled);
    format!("{:.2}", BigDecimal::new(unscaled, i64::from(value.scale)))
}

/// An amount is always written with exactly two digits after the point, and
/// with at least one before it.
pub proof fn two_places_follow_the_point(cents: int)
    ensures
        ({
            let text = two_place_text(cents);
            let start: int = if cents < 0 {
                1
            } else {
                0
            };
            &&& text.len() >= start + 4
            &&& text[text.len() - 3] == '.'
            &&& text.subrange(start, text.len() - 3) == decimal(
                (if cents < 0 {
                    -cents
                } else {
                    cents
                } / 100) as nat,
            )
            &&& cents < 0 ==> text[0] == '-'
        }),
{
    let magnitude = if cents < 0 {
        -cents
    } else {
        cents
    };
    let whole = decimal((magnitude / 100) as nat);
    lemma_decimal_is_not_empty((magnitude / 100) as nat);
    let text = two_place_text(cents);
    let start: int = if cents < 0 {
        1
    } else {
        0
    };
    assert(text.len() == start + whole.len() + 3);
    assert(text.subrange(start, text.len() - 3) =~= whole);
}

impl Clone for Decimal {
    fn clone(&self) -> (copy: Decimal)
        ensures
            copy@ == self@,
    {
        let unscaled = self.unscaled.clone();
        assert(unscaled@ =~= self.unscaled@);
        Decimal { unscaled, scale: self.scale }
    }
}

} // verus!
