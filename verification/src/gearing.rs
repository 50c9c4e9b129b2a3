//! Gear ratios and gear inches, and cadence against speed.

use crate::figure::{quotient, Figure, Milli, Rounded};
use crate::rounding::{lemma_nearest_is_nearest, nearest};
use crate::text::{integer, integer_text, tenths_figure_text};
use vstd::prelude::*;
use vstd::string::StringExecFns;

verus! {

/// The circle constant at single precision is exactly
/// `PI_NUMERATOR / PI_DENOMINATOR`, about 3.14159274.
pub const PI_NUMERATOR: i64 = 13_176_795;

/// Two to the power 22. See `PI_NUMERATOR`.
pub const PI_DENOMINATOR: i64 = 4_194_304;

/// The wheel diameter that gear inches assume, and the one that the speed
/// and cadence calculations use when none is given: 26.5 inches, in
/// thousandths.
pub const WHEEL_DIAMETER: i32 = 26_500;

/// One sprocket with the gear it gives on the chainring, in tenths: of a
/// plain ratio, or of an inch.
#[derive(Clone, Copy, Debug, PartialEq, Eq)]
pub struct Gear {
    /// The teeth of the sprocket.
    pub teeth: i32,
    /// The gear, in tenths.
    pub value: Figure,
}

/// The gears of one chainring, for the small sprocket and then the large one.
#[derive(Clone, Copy, Debug, PartialEq, Eq)]
pub struct GearLine {
    /// The teeth of the chainring.
    pub chainring: i32,
    /// The gear on the small sprocket, then the one on the large sprocket.
    pub gears: [Gear; 2],
}

/// Whether the flag asks for gear inches. Only `Some(true)` does.
pub open spec fn wants_inches(as_gearinches: Option<bool>) -> bool {
    as_gearinches == Some(true)
}

/// The exact gear in tenths is `gear_numerator / (100 * teeth)`: a thousand
/// times the chainring for a plain ratio, and the wheel diameter in
/// thousandths of an inch times the chainring for gear inches.
pub open spec fn gear_numerator(chainring: int, inches: bool) -> int {
    if inches {
        WHEEL_DIAMETER * chainring
    } else {
        1_000 * chainring
    }
}

/// The gear in tenths, rounded once.
pub open spec fn gear_value(chainring: int, teeth: int, inches: bool) -> Rounded {
    quotient(gear_numerator(chainring, inches), 100 * teeth)
}

/// Gear inches are 26.5 times the plain ratio. Before rounding this holds
/// exactly: over the same sprocket, the numerator in inches is 26.5 times the
/// numerator of the ratio. After each value is rounded to a tenth, the one in
/// inches is within 13.7 tenths of 26.5 times the other.
pub proof fn lemma_gear_inches_scale(chainring: int, teeth: int)
    ensures
        1_000 * gear_numerator(chainring, true) == WHEEL_DIAMETER * gear_numerator(
            chainring,
            false,
        ),
        10 * gear_numerator(chainring, true) == 265 * gear_numerator(chainring, false),
        teeth != 0 ==> {
            &&& gear_value(chainring, teeth, true) matches Rounded::Finite(inches)
            &&& gear_value(chainring, teeth, false) matches Rounded::Finite(ratio)
            &&& -137 <= 10 * inches - 265 * ratio <= 137
        },
{
    if teeth != 0 {
        let (c, t) = if teeth > 0 {
            (chainring, 100 * teeth)
        } else {
            (-chainring, -(100 * teeth))
        };
        let inches = nearest(WHEEL_DIAMETER * c, t);
        let ratio = nearest(1_000 * c, t);
        lemma_nearest_is_nearest(WHEEL_DIAMETER * c, t);
        lemma_nearest_is_nearest(1_000 * c, t);
        let x = inches * t;
        let y = ratio * t;
        assert((10 * inches - 265 * ratio) * t == 10 * x - 265 * y) by (nonlinear_arith)
            requires
                x == inches * t,
                y == ratio * t,
        ;
        let diff = 10 * inches - 265 * ratio;
        assert(-137 <= diff <= 137) by (nonlinear_arith)
            requires
                t > 0,
                -275 * t <= 2 * (diff * t) <= 275 * t,
        ;
    }
}

fn gear(chainring: i32, teeth: i32, inches: bool) -> (g: Gear)
    ensures
        g.teeth == teeth,
        g.value@ == gear_value(chainring as int, teeth as int, inches),
{
    let factor: i128 = if inches {
        WHEEL_DIAMETER as i128
    } else {
        1_000
    };
    assert(factor == 26_500 || factor == 1_000);
    Gear { teeth, value: Figure::from_ratio(factor * (chainring as i128), 100 * (teeth as i128)) }
}

/// The gears of one chainring on the small and the large sprocket of a
/// cassette, as plain ratios or, if `as_gearinches` is `Some(true)`, in gear
/// inches on a 26.5 inch wheel. Values are in tenths. A sprocket without
/// teeth gives a non-finite gear.
pub fn gear_inches(chainring: i32, cassette: (i32, i32), as_gearinches: Option<bool>) -> (line:
    GearLine)
    ensures
        line.chainring == chainring,
        line.gears[0].teeth == cassette.0,
        line.gears[1].teeth == cassette.1,
        line.gears[0].value@ == gear_value(
            chainring as int,
            cassette.0 as int,
            wants_inches(as_gearinches),
        ),
        line.gears[1].value@ == gear_value(
            chainring as int,
            cassette.1 as int,
            wants_inches(as_gearinches),
        ),
{
    let inches = match as_gearinches {
        Some(true) => true,
        _ => false,
    };
    GearLine {
        chainring,
        gears: [gear(chainring, cassette.0, inches), gear(chainring, cassette.1, inches)],
    }
}

/// One gear as text: the value with one digit after the point, then the
/// sprocket's teeth in brackets, as in `120.5 (11)`.
pub open spec fn gear_text(gear: Gear) -> Seq<char> {
    tenths_figure_text(gear.value@) + " ("@ + integer_text(gear.teeth as int) + ")"@
}

/// The gears of one chainring as a line of text, as in
/// `50: 120.5 (11) 47.3 (28)`.
pub open spec fn gear_line_text(line: GearLine) -> Seq<char> {
    integer_text(line.chainring as int) + ": "@ + gear_text(line.gears[0]) + " "@ + gear_text(
        line.gears[1],
    )
}

impl Gear {
    /// The gear as text.
    pub fn text(&self) -> (text: String)
        ensures
            text@ == gear_text(*self),
    {
        let mut text = self.value.tenths_text();
        text.append(" (");
        text.append(integer(self.teeth as i64).as_str());
        text.append(")");
        text
    }
}

impl GearLine {
    /// The gears as one line of text.
    pub fn line(&self) -> (line: String)
        ensures
            line@ == gear_line_text(*self),
    {
        let mut line = integer(self.chainring as i64);
        line.append(": ");
        line.append(self.gears[0].text().as_str());
        line.append(" ");
        line.append(self.gears[1].text().as_str());
        line
    }
}

/// Speed in tenths of a mile per hour: the wheel's circumference times the
/// cadence, over sixty times the gear ratio, rounded once. The cadence is in
/// tenths of a revolution per minute, gear ratio and wheel diameter are in
/// thousandths.
pub open spec fn speed(cadence_tenths: int, gear_ratio: int, wheel_diameter: int) -> Rounded {
    quotient(wheel_diameter * PI_NUMERATOR * cadence_tenths, 60 * gear_ratio * PI_DENOMINATOR)
}

/// Cadence in tenths of a revolution per minute: sixty times speed times
/// gear ratio, over the wheel's circumference, rounded once. Speed, gear
/// ratio and wheel diameter are in thousandths.
pub open spec fn cadence(speed: int, gear_ratio: int, wheel_diameter: int) -> Rounded {
    quotient(3 * speed * gear_ratio * PI_DENOMINATOR, 5 * wheel_diameter * PI_NUMERATOR)
}

/// Speed for a cadence in whole revolutions per minute, in tenths of a mile
/// per hour. A gear ratio of zero gives a non-finite speed.
pub fn cadence_to_speed(cadence: i32, gear_ratio: Milli, wheel_diameter: Milli) -> (r: Figure)
    ensures
        r@ == speed(10 * cadence, gear_ratio@, wheel_diameter@),
{
    let d: i128 = wheel_diameter.thousandths as i128;
    let c: i128 = cadence as i128;
    let g: i128 = gear_ratio.thousandths as i128;
    assert(-0x4000_0000_0000_0000 <= d * c <= 0x4000_0000_0000_0000) by (nonlinear_arith)
        requires
            -0x8000_0000 <= d < 0x8000_0000,
            -0x8000_0000 <= c < 0x8000_0000,
    ;
    let turned: i128 = d * c;
    let num: i128 = turned * (10 * (PI_NUMERATOR as i128));
    let den: i128 = 60 * (PI_DENOMINATOR as i128) * g;
    assert(num == d * PI_NUMERATOR * (10 * c)) by (nonlinear_arith)
        requires
            num == (d * c) * (10 * PI_NUMERATOR),
    ;
    assert(den == 60 * g * PI_DENOMINATOR) by (nonlinear_arith)
        requires
            den == 60 * PI_DENOMINATOR * g,
    ;
    Figure::from_ratio(num, den)
}

/// Cadence for a speed in miles per hour, in tenths of a revolution per
/// minute. A wheel diameter of zero gives a non-finite cadence.
pub fn speed_to_cadence(speed: Milli, gear_ratio: Milli, wheel_diameter: Milli) -> (r: Figure)
    ensures
        r@ == cadence(speed@, gear_ratio@, wheel_diameter@),
{
    let s: i128 = speed.thousandths as i128;
    let g: i128 = gear_ratio.thousandths as i128;
    let d: i128 = wheel_diameter.thousandths as i128;
    assert(-0x4000_0000_0000_0000 <= s * g <= 0x4000_0000_0000_0000) by (nonlinear_arith)
        requires
            -0x8000_0000 <= s < 0x8000_0000,
            -0x8000_0000 <= g < 0x8000_0000,
    ;
    let geared: i128 = s * g;
    let num: i128 = geared * (3 * (PI_DENOMINATOR as i128));
    let den: i128 = 5 * (PI_NUMERATOR as i128) * d;
    assert(num == 3 * s * g * PI_DENOMINATOR) by (nonlinear_arith)
        requires
            num == (s * g) * (3 * PI_DENOMINATOR),
    ;
    assert(den == 5 * d * PI_NUMERATOR) by (nonlinear_arith)
        requires
            den == 5 * PI_NUMERATOR * d,
    ;
    Figure::from_ratio(num, den)
}

/// A speed in tenths of a mile per hour as a line of text, as in `45.1 mph`.
pub open spec fn speed_line_text(speed: Rounded) -> Seq<char> {
    tenths_figure_text(speed) + " mph"@
}

/// A cadence in tenths of a revolution per minute as a line of text, as in
/// `39.9 rpm`.
pub open spec fn cadence_line_text(cadence: Rounded) -> Seq<char> {
    tenths_figure_text(cadence) + " rpm"@
}

/// What `cadence_to_speed` gives, as a line of text.
pub fn speed_line(speed: Figure) -> (line: String)
    ensures
        line@ == speed_line_text(speed@),
{
    let mut line = speed.tenths_text();
    line.append(" mph");
    line
}

/// What `speed_to_cadence` gives, as a line of text.
pub fn cadence_line(cadence: Figure) -> (line: String)
    ensures
        line@ == cadence_line_text(cadence@),
{
    let mut line = cadence.tenths_text();
    line.append(" rpm");
    line
}

/// Going from a speed to a cadence and back gives the speed again, within
/// rounding. For a positive gear ratio and wheel diameter both steps are
/// finite, and the speed `v` found again, in tenths, differs from the speed
/// `s` started from, in thousandths, by no more than half a tenth of a mile
/// per hour plus what half a tenth of a revolution per minute is worth in
/// speed: `|100 v - s| <= 50 + 50 * d * pi / (60 * g)`.
pub proof fn lemma_speed_round_trip(s: int, g: int, d: int)
    requires
        g > 0,
        d > 0,
    ensures
        cadence(s, g, d) matches Rounded::Finite(c) && speed(c, g, d) matches Rounded::Finite(v)
            && {
            let slack = 300 * g * PI_DENOMINATOR + 5 * d * PI_NUMERATOR;
            -slack <= (100 * v - s) * (6 * g * PI_DENOMINATOR) <= slack
        },
{
    let a = 60 * g * PI_DENOMINATOR;
    let b = d * PI_NUMERATOR;
    let c_num = 3 * s * g * PI_DENOMINATOR;
    let c_den = 5 * d * PI_NUMERATOR;
    assert(a > 0 && b > 0 && c_den == 5 * b) by (nonlinear_arith)
        requires
            g > 0,
            d > 0,
            a == 60 * g * PI_DENOMINATOR,
            b == d * PI_NUMERATOR,
            c_den == 5 * d * PI_NUMERATOR,
    ;
    let c = nearest(c_num, c_den);
    lemma_nearest_is_nearest(c_num, c_den);
    let v = nearest(b * c, a);
    lemma_nearest_is_nearest(b * c, a);
    assert(d * PI_NUMERATOR * c == b * c);
    let bc = b * c;
    let va = v * a;
    let sa = s * a;
    assert(c * c_den == 5 * bc) by (nonlinear_arith)
        requires
            c_den == 5 * b,
            bc == b * c,
    ;
    assert(20 * c_num == sa) by (nonlinear_arith)
        requires
            c_num == 3 * s * g * PI_DENOMINATOR,
            sa == s * (60 * g * PI_DENOMINATOR),
    ;
    assert((100 * v - s) * a == 100 * va - sa) by (nonlinear_arith)
        requires
            va == v * a,
            sa == s * a,
    ;
    assert((100 * v - s) * a == 10 * ((100 * v - s) * (6 * g * PI_DENOMINATOR)))
        by (nonlinear_arith)
        requires
            a == 60 * g * PI_DENOMINATOR,
    ;
}

} // verus!
