//! Temperatures.
//!
//! The kernel hands a temperature over as a whole number of fractions of a
//! kelvin. It is kept here as a whole number too, in units of a million
//! millionth of a degree, so that every scale the kernel uses and every
//! conversion between Kelvin, Celsius and Fahrenheit is exact.

use crate::codec::{raw_number, read_number};
use crate::ctl_error::{ErrorView, SysctlError};
use crate::ctl_info::{CtlInfo, InfoView};
use crate::ctl_value::{outcome, CtlValue, ValueView};
use crate::text::{digit_char, digit_to_char, digits, format_int, push_char};
use vstd::prelude::*;
use vstd::string::*;

verus! {

/// How many units make one degree.
pub const UNITS_PER_DEGREE: i128 = 1_000_000_000_000;

/// The freezing point of water in Kelvin, 273.15 degrees, in units.
pub const FREEZING_POINT: i128 = 273_150_000_000_000;

/// The most digits behind the point that a raw temperature can have.
pub const MAX_PRECISION: u32 = 9;

/// Ten to the power `n`.
pub open spec fn pow10(n: nat) -> nat
    decreases n,
{
    if n == 0 {
        1
    } else {
        10 * pow10((n - 1) as nat)
    }
}

/// The units of `raw` fractions of a kelvin, `precision` digits behind the point.
pub open spec fn units_of(raw: int, precision: nat) -> int {
    raw * pow10((12 - precision) as nat)
}

/// The digits of `frac` behind the point, `width` of them at most, up to the
/// last one that is not zero. `frac` counts units of ten to the power minus
/// `width`.
pub open spec fn fraction_digits(frac: nat, width: nat) -> Seq<char>
    decreases width,
{
    if frac == 0 || width == 0 {
        Seq::<char>::empty()
    } else {
        let place = pow10((width - 1) as nat);
        seq![digit_char(frac / place)] + fraction_digits(frac % place, (width - 1) as nat)
    }
}

/// A number of units in decimal, in degrees: the sign, the whole degrees, and
/// behind a point the digits of the rest, if there is a rest.
pub open spec fn degrees_text(units: int) -> Seq<char> {
    let size = if units < 0 {
        -units
    } else {
        units
    };
    let sign = if units < 0 {
        seq!['-']
    } else {
        Seq::<char>::empty()
    };
    let whole = digits((size / 1_000_000_000_000) as nat);
    let rest = (size % 1_000_000_000_000) as nat;
    if rest == 0 {
        sign + whole
    } else {
        sign + whole + seq!['.'] + fraction_digits(rest, 12)
    }
}

/// The bounds of the raw numbers that the kernel can send: a signed or an
/// unsigned number of at most eight bytes.
pub open spec fn raw_in_range(raw: int) -> bool {
    -0x8000_0000_0000_0000 <= raw <= 0xffff_ffff_ffff_ffff
}

/// A temperature.
#[derive(Debug, Copy, Clone, PartialEq, Eq, PartialOrd, Ord, Hash)]
pub struct Temperature {
    units: i128,
}

impl Temperature {
    /// What every temperature holds: a multiple of a thousand units, within
    /// what the kernel can send.
    #[verifier::type_invariant]
    pub closed spec fn well_formed(self) -> bool {
        &&& self.units % 1000 == 0
        &&& -0x8000_0000_0000_0000 * 1_000_000_000_000 <= self.units
        &&& self.units <= 0xffff_ffff_ffff_ffff * 1_000_000_000_000
    }

    /// The temperature in Kelvin, in units.
    pub closed spec fn spec_kelvin(self) -> int {
        self.units as int
    }

    /// The temperature of `units` units.
    pub closed spec fn of_units(units: int) -> Temperature {
        Temperature { units: units as i128 }
    }

    /// A temperature is known by its units: what the kernel can send comes
    /// back from the temperature made of it.
    pub proof fn lemma_of_units(raw: int, precision: nat)
        requires
            raw_in_range(raw),
            precision <= MAX_PRECISION,
        ensures
            Temperature::of_units(units_of(raw, precision)).spec_kelvin() == units_of(
                raw,
                precision,
            ),
    {
        reveal_with_fuel(pow10, 13);
        let scale = pow10((12 - precision) as nat) as int;
        assert(1 <= scale <= 1_000_000_000_000);
        assert(-0x8000_0000_0000_0000 * 1_000_000_000_000 <= raw * scale <= 0xffff_ffff_ffff_ffff
            * 1_000_000_000_000) by (nonlinear_arith)
            requires
                -0x8000_0000_0000_0000 <= raw <= 0xffff_ffff_ffff_ffff,
                1 <= scale <= 1_000_000_000_000,
        ;
    }

    /// The temperature in degrees Celsius, in units: `C = K - 273.15`.
    pub open spec fn spec_celsius(self) -> int {
        self.spec_kelvin() - FREEZING_POINT
    }

    /// The temperature in degrees Fahrenheit, in units: `F = 1.8 * C + 32`.
    pub open spec fn spec_fahrenheit(self) -> int {
        (9 * self.spec_celsius()) / 5 + 32 * UNITS_PER_DEGREE
    }

    /// The temperature that the kernel writes as `raw`, with `precision`
    /// digits behind the point.
    pub fn from_raw(raw: i128, precision: u32) -> (res: Temperature)
        requires
            raw_in_range(raw as int),
            precision <= MAX_PRECISION,
        ensures
            res == Temperature::of_units(units_of(raw as int, precision as nat)),
            res.spec_kelvin() == units_of(raw as int, precision as nat),
    {
        proof {
            reveal_with_fuel(pow10, 13);
        }
        let thousands: i128 = match precision {
            0 => 1_000_000_000,
            1 => 100_000_000,
            2 => 10_000_000,
            3 => 1_000_000,
            4 => 100_000,
            5 => 10_000,
            6 => 1_000,
            7 => 100,
            8 => 10,
            _ => 1,
        };
        let scale: i128 = 1000 * thousands;
        assert(scale == pow10((12 - precision) as nat));
        proof {
            assert(-0x8000_0000_0000_0000 * 1_000_000_000_000 <= raw * scale
                <= 0xffff_ffff_ffff_ffff * 1_000_000_000_000) by (nonlinear_arith)
                requires
                    -0x8000_0000_0000_0000 <= raw <= 0xffff_ffff_ffff_ffff,
                    1000 <= scale <= 1_000_000_000_000,
            ;
            assert(raw * scale == 1000 * (raw * thousands)) by (nonlinear_arith)
                requires
                    scale == 1000 * thousands,
            ;
        }
        Temperature { units: raw * scale }
    }

    /// The temperature in Kelvin, in units.
    pub fn kelvin(&self) -> (res: i128)
        ensures
            res == self.spec_kelvin(),
    {
        self.units
    }

    /// The temperature in Kelvin, written in decimal.
    pub fn to_string(&self) -> (res: String)
        ensures
            res@ == degrees_text(self.spec_kelvin()),
    {
        proof {
            use_type_invariant(self);
            reveal_with_fuel(pow10, 13);
        }
        let units: i128 = self.units;
        let size: i128 = if units < 0 {
            -units
        } else {
            units
        };
        let whole: i128 = size / UNITS_PER_DEGREE;
        let rest: i128 = size % UNITS_PER_DEGREE;
        let mut out = String::new();
        if units < 0 {
            push_char(&mut out, '-');
        }
        let whole_text = format_int(whole);
        out.append(whole_text.as_str());
        if rest == 0 {
            return out;
        }
        push_char(&mut out, '.');
        let ghost head = out@;
        let mut frac: i128 = rest;
        let mut place: i128 = 100_000_000_000;
        let mut width: u32 = 12;
        assert(out@ + fraction_digits(frac as nat, width as nat) =~= head + fraction_digits(
            rest as nat,
            12,
        ));
        while frac != 0 && width > 0
            invariant
                0 <= frac,
                width <= 12,
                width > 0 ==> place == pow10((width - 1) as nat) && frac < 10 * place,
                width == 0 ==> frac == 0,
                out@ + fraction_digits(frac as nat, width as nat) == head + fraction_digits(
                    rest as nat,
                    12,
                ),
            decreases width,
        {
            proof {
                lemma_pow10_positive((width - 1) as nat);
            }
            let digit: i128 = frac / place;
            let below: i128 = frac % place;
            assert(0 <= digit < 10) by (nonlinear_arith)
                requires
                    digit == frac / place,
                    0 <= frac < 10 * place,
                    place > 0,
            ;
            let c = digit_to_char(digit as u8);
            proof {
                let tail = fraction_digits(below as nat, (width - 1) as nat);
                assert(fraction_digits(frac as nat, width as nat) == seq![c] + tail);
                assert(out@.push(c) + tail =~= out@ + (seq![c] + tail));
                if width > 1 {
                    assert(place == 10 * pow10((width - 2) as nat));
                }
            }
            push_char(&mut out, c);
            frac = below;
            width = width - 1;
            if width > 0 {
                place = place / 10;
            }
        }
        assert(fraction_digits(frac as nat, width as nat) =~= Seq::<char>::empty());
        assert(out@ + Seq::<char>::empty() =~= out@);
        out
    }

    /// The temperature in degrees Celsius, in units.
    pub fn celsius(&self) -> (res: i128)
        ensures
            res == self.spec_celsius(),
    {
        proof {
            use_type_invariant(self);
        }
        self.units - FREEZING_POINT
    }

    /// The temperature in degrees Fahrenheit, in units. Nothing is lost: the
    /// division by five leaves no rest.
    pub fn fahrenheit(&self) -> (res: i128)
        ensures
            res == self.spec_fahrenheit(),
            5 * (res - 32 * UNITS_PER_DEGREE) == 9 * self.spec_celsius(),
    {
        proof {
            use_type_invariant(self);
        }
        let celsius: i128 = self.units - FREEZING_POINT;
        let fifth: i128 = if celsius >= 0 {
            celsius / 5
        } else {
            -((-celsius) / 5)
        };
        proof {
            lemma_exact_fifth(self.units as int, celsius as int, fifth as int);
        }
        9 * fifth + 32 * UNITS_PER_DEGREE
    }
}

/// The temperature that a payload holds: the number of the control's type,
/// scaled by the precision that the format hint gives. A type that is no
/// number has no temperature.
pub open spec fn spec_temperature(info: InfoView, bytes: Seq<u8>) -> Result<ValueView, ErrorView> {
    match raw_number(info.ctl_type, bytes) {
        Some(raw) => Ok(
            ValueView::Temperature(Temperature::of_units(units_of(raw, info.precision()))),
        ),
        None => Err(ErrorView::UnknownType),
    }
}

/// Reads the payload `val` of a control as a temperature.
pub fn temperature(info: &CtlInfo, val: &Vec<u8>) -> (res: Result<CtlValue, SysctlError>)
    ensures
        outcome(res) == spec_temperature(info@, val@),
{
    let prec: u32 = info.precision();
    match read_number(info.ctl_type, val) {
        Some(raw) => Ok(CtlValue::Temperature(Temperature::from_raw(raw, prec))),
        None => Err(SysctlError::UnknownType),
    }
}

/// A power of ten is at least one.
pub proof fn lemma_pow10_positive(n: nat)
    ensures
        pow10(n) >= 1,
    decreases n,
{
    if n > 0 {
        lemma_pow10_positive((n - 1) as nat);
    }
}

/// A fifth of a temperature in Celsius is a whole number of units.
proof fn lemma_exact_fifth(units: int, celsius: int, fifth: int)
    requires
        units % 1000 == 0,
        celsius == units - FREEZING_POINT,
        fifth == if celsius >= 0 {
            celsius / 5
        } else {
            -((-celsius) / 5)
        },
    ensures
        5 * fifth == celsius,
        (9 * celsius) / 5 == 9 * fifth,
{
    let k = units / 1000;
    assert(units == 1000 * k);
    let j = 200 * k - 54_630_000_000_000;
    assert(celsius == 5 * j);
    assert(fifth == j);
    assert(9 * celsius == 5 * (9 * j));
}

} // verus!
