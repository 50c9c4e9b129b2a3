//! Suggested tyre pressure from tyre width and the weight on each axle.

use crate::figure::{quotient, Figure, Milli, Rounded};
use crate::rounding::lemma_nearest_monotone;
use crate::text::whole_figure_text;
use vstd::prelude::*;
use vstd::string::StringExecFns;

verus! {

/// Share of the system weight carried by the front axle, in percent.
pub const FRONT_SHARE: i64 = 48;

/// Share of the system weight carried by the rear axle, in percent.
pub const REAR_SHARE: i64 = 53;

/// The exponent 1.5785 that the pressure formula raises the tyre width to,
/// in ten-thousandths.
pub const WIDTH_EXPONENT: i64 = 15_785;

/// The factor 338.14 of the pressure formula, in hundredths.
pub const PRESSURE_SLOPE: i64 = 33_814;

/// The 7.1685 psi taken off by the pressure formula, in ten-thousandths.
pub const PRESSURE_OFFSET: i64 = 71_685;

/// What `tyre_pressure` works out.
#[derive(Clone, Copy, Debug, PartialEq, Eq, Structural)]
pub struct TyrePressure {
    /// Rider and bike together, in thousandths of a kilogram.
    pub system_weight: i64,
    /// Load on the front axle, in hundred-thousandths of a kilogram.
    pub front_load: i64,
    /// Load on the rear axle, in hundred-thousandths of a kilogram.
    pub rear_load: i64,
    /// Front pressure in whole psi.
    pub front: Figure,
    /// Rear pressure in whole psi.
    pub rear: Figure,
}

/// Load on the front axle in hundred-thousandths of a kilogram, for a system
/// weight in thousandths.
pub open spec fn front_load(system_weight: int) -> int {
    FRONT_SHARE * system_weight
}

/// Load on the rear axle in hundred-thousandths of a kilogram, for a system
/// weight in thousandths.
pub open spec fn rear_load(system_weight: int) -> int {
    REAR_SHARE * system_weight
}

/// Pressure in whole psi for one axle: `338.14 * load / width_power - 7.1685`
/// rounded once, with the load in hundred-thousandths of a kilogram and the
/// width power in thousandths.
pub open spec fn pressure(load: int, width_power: int) -> Rounded {
    quotient(PRESSURE_SLOPE * load - PRESSURE_OFFSET * width_power, 10_000 * width_power)
}

/// For one tyre width, more load never asks for less pressure.
pub proof fn lemma_pressure_monotone_in_load(load_a: int, load_b: int, width_power: int)
    requires
        width_power > 0,
        load_a <= load_b,
    ensures
        pressure(load_a, width_power).at_most(pressure(load_b, width_power)),
{
    lemma_nearest_monotone(
        PRESSURE_SLOPE * load_a - PRESSURE_OFFSET * width_power,
        PRESSURE_SLOPE * load_b - PRESSURE_OFFSET * width_power,
        10_000 * width_power,
    );
}

/// The two axle loads add up to 101 percent of the system weight, and the
/// front axle carries no more than the rear one exactly when the system
/// weight is not negative.
pub proof fn lemma_axle_loads(system_weight: int)
    ensures
        front_load(system_weight) + rear_load(system_weight) == FRONT_SHARE * system_weight
            + REAR_SHARE * system_weight,
        front_load(system_weight) + rear_load(system_weight) == 101 * system_weight,
        front_load(system_weight) <= rear_load(system_weight) <==> system_weight >= 0,
{
}

fn axle_pressure(load: i64, width_power: i64) -> (r: Figure)
    requires
        -0x40_0000_0000_0000 <= load <= 0x40_0000_0000_0000,
    ensures
        r@ == pressure(load as int, width_power as int),
{
    let wp: i128 = width_power as i128;
    let slope: i128 = PRESSURE_SLOPE as i128;
    let offset: i128 = PRESSURE_OFFSET as i128;
    assert(slope == 33_814 && offset == 71_685);
    let num: i128 = slope * (load as i128) - offset * wp;
    let den: i128 = 10_000 * wp;
    Figure::from_ratio(num, den)
}

/// Suggested front and rear pressure for a tyre.
///
/// `width_power` is the tyre width in millimetres raised to the power
/// `WIDTH_EXPONENT / 10_000`, in thousandths; the weights are in kilograms.
/// The front axle is taken to carry 48 percent of rider and bike together and
/// the rear axle 53 percent. A width power of zero gives non-finite
/// pressures.
pub fn tyre_pressure(width_power: i64, rider_weight: Milli, bike_weight: Milli) -> (r: TyrePressure)
    ensures
        r.system_weight == rider_weight@ + bike_weight@,
        r.front_load == front_load(r.system_weight as int),
        r.rear_load == rear_load(r.system_weight as int),
        r.front@ == pressure(r.front_load as int, width_power as int),
        r.rear@ == pressure(r.rear_load as int, width_power as int),
        r.front_load + r.rear_load == FRONT_SHARE * r.system_weight + REAR_SHARE * r.system_weight,
        width_power > 0 && r.front_load <= r.rear_load ==> r.front@.at_most(r.rear@),
{
    let system_weight: i64 = rider_weight.thousandths as i64 + bike_weight.thousandths as i64;
    let front_load: i64 = FRONT_SHARE * system_weight;
    let rear_load: i64 = REAR_SHARE * system_weight;
    let front = axle_pressure(front_load, width_power);
    let rear = axle_pressure(rear_load, width_power);
    proof {
        if width_power > 0 && front_load <= rear_load {
            lemma_pressure_monotone_in_load(
                front_load as int,
                rear_load as int,
                width_power as int,
            );
        }
    }
    TyrePressure { system_weight, front_load, rear_load, front, rear }
}

/// The two lines that report a front and a rear pressure in whole psi.
pub open spec fn pressure_lines(front: Rounded, rear: Rounded) -> Seq<Seq<char>> {
    seq![
        "Front: "@ + whole_figure_text(front) + " psi"@,
        "Rear:  "@ + whole_figure_text(rear) + " psi"@,
    ]
}

impl TyrePressure {
    /// The pressures as text, one line for each tyre.
    pub fn lines(&self) -> (lines: Vec<String>)
        ensures
            lines.deep_view() == pressure_lines(self.front@, self.rear@),
    {
        let mut front = String::from_str("Front: ");
        front.append(self.front.whole_text().as_str());
        front.append(" psi");
        let mut rear = String::from_str("Rear:  ");
        rear.append(self.rear.whole_text().as_str());
        rear.append(" psi");
        let mut lines = Vec::new();
        lines.push(front);
        lines.push(rear);
        assert(lines.deep_view() =~= pressure_lines(self.front@, self.rear@));
        lines
    }
}

} // verus!
