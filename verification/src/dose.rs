//! From counts per minute to a dose rate.
//!
//! A dose rate is kept exactly, as a whole number of ten-thousandths of a
//! microsievert per hour. With the calibration factor given in tenths, the
//! product of count and factor is the dose rate in that unit, so nothing is
//! rounded on the way from the count to the numeral that is reported.

use vstd::prelude::*;
use vstd::string::*;
use crate::reading::CountReading;
use crate::text::{
    append_decimal, append_digit, decimal, digit_char, is_digit, lemma_decimal_denotes,
    lemma_digit_char_value, lemma_numeral_push, numeral_value,
};

verus! {

/// The device's calibration factor, in tenths: 6.5 microsieverts per hour for
/// every thousand counts per minute.
pub const CALIBRATION_TENTHS: u16 = 65;

/// How many units of a dose rate make one microsievert per hour.
pub const UNITS_PER_WHOLE: u32 = 10000;

/// A dose rate in microsieverts per hour, counted in ten-thousandths.
#[derive(Clone, Copy, Debug, PartialEq, Eq, Structural)]
pub struct DoseRate {
    pub ten_thousandths: u32,
}

/// The dose rate of a count under a calibration factor, in ten-thousandths:
/// `count * (factor_tenths / 10) / 1000`, times ten thousand.
pub open spec fn dose_units(count: u16, factor_tenths: u16) -> nat {
    (count as nat) * (factor_tenths as nat)
}

/// The digits after the decimal point of a number with `fraction`
/// ten-thousandths beyond its whole part, without trailing zeros.
pub open spec fn fraction_text(fraction: nat) -> Seq<char>
    recommends
        0 < fraction < 10000,
{
    let digits = seq![
        digit_char(fraction / 1000),
        digit_char(fraction / 100 % 10),
        digit_char(fraction / 10 % 10),
        digit_char(fraction % 10),
    ];
    if fraction % 10 != 0 {
        digits
    } else if fraction % 100 != 0 {
        digits.take(3)
    } else if fraction % 1000 != 0 {
        digits.take(2)
    } else {
        digits.take(1)
    }
}

/// The numeral of a number of ten-thousandths: the whole part, and, unless the
/// number is whole, a point and the digits after it up to the last that is not
/// zero.
pub open spec fn units_text(units: nat) -> Seq<char> {
    if units % 10000 == 0 {
        decimal(units / 10000)
    } else {
        decimal(units / 10000) + seq!['.'] + fraction_text(units % 10000)
    }
}

/// Converts a count with the device's calibration factor.
pub fn to_dose_rate(count: CountReading) -> (dose: DoseRate)
    ensures
        dose.ten_thousandths as nat == dose_units(count.cpm, CALIBRATION_TENTHS),
        dose.ten_thousandths == count.cpm * 65,
{
    scaled(count, CALIBRATION_TENTHS)
}

/// Converts a count with a calibration factor given in tenths.
pub fn scaled(count: CountReading, factor_tenths: u16) -> (dose: DoseRate)
    ensures
        dose.ten_thousandths as nat == dose_units(count.cpm, factor_tenths),
{
    assert(count.cpm * factor_tenths <= 65535 * 65535) by (nonlinear_arith)
        requires
            count.cpm <= 65535,
            factor_tenths <= 65535,
    ;
    let cpm: u32 = count.cpm as u32;
    let factor: u32 = factor_tenths as u32;
    DoseRate { ten_thousandths: cpm * factor }
}

impl DoseRate {
    /// The numeral of this dose rate in microsieverts per hour.
    pub open spec fn text(self) -> Seq<char> {
        units_text(self.ten_thousandths as nat)
    }

    /// Whole microsieverts per hour.
    pub fn whole(&self) -> (whole: u32)
        ensures
            whole == self.ten_thousandths / 10000,
    {
        self.ten_thousandths / UNITS_PER_WHOLE
    }

    /// Ten-thousandths beyond the whole part.
    pub fn fraction(&self) -> (fraction: u32)
        ensures
            fraction == self.ten_thousandths % 10000,
    {
        self.ten_thousandths % UNITS_PER_WHOLE
    }

    /// Writes the dose rate in microsieverts per hour: `0.065`, `1.3`, `13`.
    pub fn to_text(&self) -> (out: String)
        ensures
            out@ == self.text(),
    {
        let whole: u32 = self.whole();
        let fraction: u32 = self.fraction();
        let mut out = String::new();
        append_decimal(&mut out, whole);
        assert(out@ =~= decimal(whole as nat));
        if fraction != 0 {
            proof {
                reveal_strlit(".");
            }
            out.append(".");
            append_digit(&mut out, fraction / 1000);
            if fraction % 1000 != 0 {
                append_digit(&mut out, fraction / 100 % 10);
                if fraction % 100 != 0 {
                    append_digit(&mut out, fraction / 10 % 10);
                    if fraction % 10 != 0 {
                        append_digit(&mut out, fraction % 10);
                    }
                }
            }
            assert(out@ =~= self.text());
        }
        out
    }
}

/// The number of ten-thousandths that up to four digits after a decimal point
/// denote.
pub open spec fn fraction_units(digits: Seq<char>) -> nat
    recommends
        1 <= digits.len() <= 4,
{
    if digits.len() == 1 {
        numeral_value(digits) * 1000
    } else if digits.len() == 2 {
        numeral_value(digits) * 100
    } else if digits.len() == 3 {
        numeral_value(digits) * 10
    } else {
        numeral_value(digits)
    }
}

/// The digits written after the point are one to four digits, the last of
/// them not zero, and they denote the fraction.
pub proof fn lemma_fraction_text_denotes(fraction: nat)
    requires
        0 < fraction < 10000,
    ensures
        1 <= fraction_text(fraction).len() <= 4,
        forall|i: int|
            0 <= i < fraction_text(fraction).len() ==> is_digit(
                #[trigger] fraction_text(fraction)[i],
            ),
        fraction_text(fraction).last() != '0',
        fraction_units(fraction_text(fraction)) == fraction,
{
    let d1: nat = fraction / 1000;
    let d2: nat = fraction / 100 % 10;
    let d3: nat = fraction / 10 % 10;
    let d4: nat = fraction % 10;
    let c1 = digit_char(d1);
    let c2 = digit_char(d2);
    let c3 = digit_char(d3);
    let c4 = digit_char(d4);
    lemma_digit_char_value(d1);
    lemma_digit_char_value(d2);
    lemma_digit_char_value(d3);
    lemma_digit_char_value(d4);
    let none = Seq::<char>::empty();
    let one = none.push(c1);
    let two = one.push(c2);
    let three = two.push(c3);
    let four = three.push(c4);
    lemma_numeral_push(none, c1);
    lemma_numeral_push(one, c2);
    lemma_numeral_push(two, c3);
    lemma_numeral_push(three, c4);
    assert(numeral_value(none) == 0);
    let digits = seq![c1, c2, c3, c4];
    assert(digits =~= four);
    assert(digits.take(3) =~= three);
    assert(digits.take(2) =~= two);
    assert(digits.take(1) =~= one);
}

/// The numeral of a dose rate either is the numeral of a whole number, or
/// ends in a point and the digits of its fraction; in both cases it can be
/// read back to the very dose rate.
pub proof fn lemma_units_text_denotes(units: nat)
    ensures
        units % 10000 == 0 ==> !units_text(units).contains('.') && numeral_value(units_text(units))
            * 10000 == units,
        units % 10000 != 0 ==> {
            let point: int = decimal(units / 10000).len() as int;
            let text = units_text(units);
            &&& point < text.len()
            &&& text[point] == '.'
            &&& !text.subrange(0, point).contains('.')
            &&& numeral_value(text.subrange(0, point)) * 10000 + fraction_units(
                text.subrange(point + 1, text.len() as int),
            ) == units
        },
{
    let whole = decimal(units / 10000);
    lemma_decimal_denotes(units / 10000);
    assert(!whole.contains('.')) by {
        if whole.contains('.') {
            let i: int = choose|i: int| 0 <= i < whole.len() && whole[i] == '.';
            assert(is_digit(whole[i]));
        }
    }
    if units % 10000 != 0 {
        let fraction = fraction_text(units % 10000);
        lemma_fraction_text_denotes(units % 10000);
        let text = units_text(units);
        let point: int = whole.len() as int;
        assert(text.subrange(0, point) =~= whole);
        assert(text.subrange(point + 1, text.len() as int) =~= fraction);
    }
}

/// Different dose rates are written differently.
pub proof fn lemma_units_text_injective(a: nat, b: nat)
    requires
        units_text(a) == units_text(b),
    ensures
        a == b,
{
    lemma_units_text_denotes(a);
    lemma_units_text_denotes(b);
    let text = units_text(a);
    let point_a: int = decimal(a / 10000).len() as int;
    let point_b: int = decimal(b / 10000).len() as int;
    if a % 10000 != 0 && b % 10000 == 0 {
        assert(text[point_a] == '.');
    }
    if a % 10000 == 0 && b % 10000 != 0 {
        assert(text[point_b] == '.');
    }
    if a % 10000 != 0 && b % 10000 != 0 {
        if point_a < point_b {
            assert(text.subrange(0, point_b)[point_a] == '.');
        }
        if point_b < point_a {
            assert(text.subrange(0, point_a)[point_b] == '.');
        }
    }
}

} // verus!
