//! Training zones from functional threshold power.

use crate::rounding::{lemma_nearest_bounds, lemma_nearest_monotone, nearest, round_div};
use crate::text::{align_left, align_right, integer, integer_text, left_aligned, right_aligned};
use vstd::prelude::*;
use vstd::string::StringExecFns;

verus! {


/// The seven training zones, from the easiest up.
#[derive(Clone, Copy, Debug, PartialEq, Eq, Structural)]
pub enum Zone {
    Recovery,
    Endurance,
    Sweetspot,
    Threshold,
    Vo2Max,
    Anaerobic,
    Neuromuscular,
}

impl Zone {
    /// Where the zone starts, in percent of threshold power.
    pub open spec fn start_percent(self) -> int {
        match self {
            Zone::Recovery => 0,
            Zone::Endurance => 55,
            Zone::Sweetspot => 75,
            Zone::Threshold => 90,
            Zone::Vo2Max => 105,
            Zone::Anaerobic => 120,
            Zone::Neuromuscular => 150,
        }
    }

    /// Where the zone ends, in percent of threshold power. The last zone has
    /// no end.
    pub open spec fn end_percent(self) -> Option<int> {
        match self {
            Zone::Recovery => Some(55int),
            Zone::Endurance => Some(75int),
            Zone::Sweetspot => Some(90int),
            Zone::Threshold => Some(105int),
            Zone::Vo2Max => Some(120int),
            Zone::Anaerobic => Some(150int),
            Zone::Neuromuscular => None,
        }
    }

    /// The name the zone is listed under.
    pub open spec fn name_text(self) -> Seq<char> {
        match self {
            Zone::Recovery => "Recovery"@,
            Zone::Endurance => "Endurance"@,
            Zone::Sweetspot => "Sweetspot"@,
            Zone::Threshold => "Threshold"@,
            Zone::Vo2Max => "VO2 Max"@,
            Zone::Anaerobic => "Anaerobic"@,
            Zone::Neuromuscular => "Neuromuscular"@,
        }
    }

    /// The name the zone is listed under.
    pub fn name(self) -> (name: &'static str)
        ensures
            name@ == self.name_text(),
    {
        match self {
            Zone::Recovery => "Recovery",
            Zone::Endurance => "Endurance",
            Zone::Sweetspot => "Sweetspot",
            Zone::Threshold => "Threshold",
            Zone::Vo2Max => "VO2 Max",
            Zone::Anaerobic => "Anaerobic",
            Zone::Neuromuscular => "Neuromuscular",
        }
    }

    /// The zones in the order they are listed.
    pub open spec fn listed() -> Seq<Zone> {
        seq![
            Zone::Recovery,
            Zone::Endurance,
            Zone::Sweetspot,
            Zone::Threshold,
            Zone::Vo2Max,
            Zone::Anaerobic,
            Zone::Neuromuscular,
        ]
    }
}

/// A share of the threshold power in whole watts: `percent * ftp / 100`
/// rounded once.
pub open spec fn watts(percent: int, ftp: int) -> int {
    nearest(percent * ftp, 100)
}

/// One zone with its bounds in whole watts. `upper` is `None` for the
/// open-ended last zone.
#[derive(Clone, Copy, Debug, PartialEq, Eq)]
pub struct ZoneBand {
    /// The zone.
    pub zone: Zone,
    /// Where the zone starts, in whole watts.
    pub lower: i64,
    /// Where the zone ends, in whole watts.
    pub upper: Option<i64>,
}

impl ZoneBand {
    /// The band is the one that `zone` has at threshold power `ftp`.
    pub open spec fn is_band(self, zone: Zone, ftp: int) -> bool {
        &&& self.zone == zone
        &&& self.lower == watts(zone.start_percent(), ftp)
        &&& match zone.end_percent() {
            Some(percent) => self.upper matches Some(upper) && upper == watts(percent, ftp),
            None => self.upper is None,
        }
    }
}

/// A band as one line of text: the name in fifteen columns, then the bounds
/// in at least three columns each, as in `Recovery          0 to 138 W`. The
/// open-ended band has a plus sign in place of its upper bound.
pub open spec fn band_line(band: ZoneBand) -> Seq<char> {
    let start = "    "@ + left_aligned(band.zone.name_text(), 15) + " "@ + right_aligned(
        integer_text(band.lower as int),
        3,
    );
    match band.upper {
        Some(upper) => start + " to "@ + right_aligned(integer_text(upper as int), 3) + " W"@,
        None => start + "+ W"@,
    }
}

impl ZoneBand {
    /// The band as one line of text.
    pub fn line(&self) -> (line: String)
        ensures
            line@ == band_line(*self),
    {
        let mut line = String::from_str("    ");
        line.append(align_left(self.zone.name(), 15).as_str());
        line.append(" ");
        line.append(align_right(integer(self.lower).as_str(), 3).as_str());
        match self.upper {
            Some(upper) => {
                line.append(" to ");
                line.append(align_right(integer(upper).as_str(), 3).as_str());
                line.append(" W");
            },
            None => {
                line.append("+ W");
            },
        }
        line
    }
}

/// What `power_zones` works out: the seven zones for one threshold power.
#[derive(Clone, Copy, Debug, PartialEq, Eq)]
pub struct PowerZones {
    /// The functional threshold power, in watts.
    pub ftp: i32,
    /// The zones in the order they are listed.
    pub bands: [ZoneBand; 7],
}

/// The zones as text: a heading, one line for each zone, and an empty line.
pub open spec fn zone_lines(zones: PowerZones) -> Seq<Seq<char>> {
    Seq::new(
        9,
        |i: int|
            if i == 0 {
                "Power zones at "@ + integer_text(zones.ftp as int) + "W ftp"@
            } else if i <= 7 {
                band_line(zones.bands[i - 1])
            } else {
                Seq::empty()
            },
    )
}

impl PowerZones {
    /// The zones as text, line by line.
    pub fn lines(&self) -> (lines: Vec<String>)
        ensures
            lines.deep_view() == zone_lines(*self),
    {
        let mut heading = String::from_str("Power zones at ");
        heading.append(integer(self.ftp as i64).as_str());
        heading.append("W ftp");
        let mut lines = Vec::new();
        lines.push(heading);
        let mut i: usize = 0;
        while i < 7
            invariant
                i <= 7,
                lines@.len() == i + 1,
                forall|j: int|
                    0 <= j < lines@.len() ==> (#[trigger] lines@[j])@ == zone_lines(*self)[j],
            decreases 7 - i,
        {
            lines.push(self.bands[i].line());
            i = i + 1;
        }
        lines.push(String::new());
        assert(lines.deep_view() =~= zone_lines(*self));
        lines
    }
}

/// For a threshold power that is not negative, a larger percentage never
/// gives fewer watts.
pub proof fn lemma_watts_monotone(low: int, high: int, ftp: int)
    requires
        ftp >= 0,
        low <= high,
    ensures
        watts(low, ftp) <= watts(high, ftp),
{
    assert(low * ftp <= high * ftp) by (nonlinear_arith)
        requires
            ftp >= 0,
            low <= high,
    ;
    lemma_nearest_monotone(low * ftp, high * ftp, 100);
}

/// The last zone starts at one and a half times the threshold power: exactly
/// so for an even threshold power, and at the even one of the two nearest
/// whole watts for an odd one.
pub proof fn lemma_neuromuscular_start(ftp: int)
    ensures
        ftp % 2 == 0 ==> 2 * watts(150, ftp) == 3 * ftp,
        ftp % 2 != 0 ==> (2 * watts(150, ftp) == 3 * ftp + 1 || 2 * watts(150, ftp) == 3 * ftp
            - 1) && watts(150, ftp) % 2 == 0,
{
}

fn share(percent: i64, ftp: i32) -> (w: i64)
    requires
        0 <= percent <= 150,
    ensures
        w == watts(percent as int, ftp as int),
{
    assert(-0x4b_0000_0000 <= percent * ftp <= 0x4b_0000_0000) by (nonlinear_arith)
        requires
            0 <= percent <= 150,
            -0x8000_0000 <= ftp < 0x8000_0000,
    ;
    let num: i128 = (percent as i128) * (ftp as i128);
    proof {
        lemma_nearest_bounds(num as int, 100, -0x1_0000_0000, 0x1_0000_0000);
    }
    let w: i128 = round_div(num, 100);
    w as i64
}

fn band(zone: Zone, ftp: i32) -> (b: ZoneBand)
    ensures
        b.is_band(zone, ftp as int),
{
    match zone {
        Zone::Recovery => ZoneBand { zone, lower: share(0, ftp), upper: Some(share(55, ftp)) },
        Zone::Endurance => ZoneBand { zone, lower: share(55, ftp), upper: Some(share(75, ftp)) },
        Zone::Sweetspot => ZoneBand { zone, lower: share(75, ftp), upper: Some(share(90, ftp)) },
        Zone::Threshold => ZoneBand { zone, lower: share(90, ftp), upper: Some(share(105, ftp)) },
        Zone::Vo2Max => ZoneBand { zone, lower: share(105, ftp), upper: Some(share(120, ftp)) },
        Zone::Anaerobic => ZoneBand { zone, lower: share(120, ftp), upper: Some(share(150, ftp)) },
        Zone::Neuromuscular => ZoneBand { zone, lower: share(150, ftp), upper: None },
    }
}

/// The seven power zones for a functional threshold power in watts, in the
/// order they are listed.
pub fn power_zones(ftp: i32) -> (zones: PowerZones)
    ensures
        zones.ftp == ftp,
        forall|i: int|
            0 <= i < 7 ==> (#[trigger] zones.bands[i]).is_band(Zone::listed()[i], ftp as int),
        zones.bands[0].upper == Some(zones.bands[1].lower),
        zones.bands[1].upper == Some(zones.bands[2].lower),
        zones.bands[2].upper == Some(zones.bands[3].lower),
        zones.bands[3].upper == Some(zones.bands[4].lower),
        zones.bands[4].upper == Some(zones.bands[5].lower),
        zones.bands[5].upper == Some(zones.bands[6].lower),
        ftp >= 0 ==> forall|i: int, j: int|
            0 <= i <= j < 7 ==> (#[trigger] zones.bands[i]).lower <= (
            #[trigger] zones.bands[j]).lower,
        ftp % 2 == 0 ==> 2 * zones.bands[6].lower == 3 * ftp,
        ftp % 2 != 0 ==> 2 * zones.bands[6].lower == 3 * ftp + 1 || 2 * zones.bands[6].lower == 3
            * ftp - 1,
{
    let bands = [
        band(Zone::Recovery, ftp),
        band(Zone::Endurance, ftp),
        band(Zone::Sweetspot, ftp),
        band(Zone::Threshold, ftp),
        band(Zone::Vo2Max, ftp),
        band(Zone::Anaerobic, ftp),
        band(Zone::Neuromuscular, ftp),
    ];
    proof {
        lemma_neuromuscular_start(ftp as int);
        if ftp >= 0 {
            lemma_watts_monotone(0, 55, ftp as int);
            lemma_watts_monotone(55, 75, ftp as int);
            lemma_watts_monotone(75, 90, ftp as int);
            lemma_watts_monotone(90, 105, ftp as int);
            lemma_watts_monotone(105, 120, ftp as int);
            lemma_watts_monotone(120, 150, ftp as int);
        }
    }
    PowerZones { ftp, bands }
}

} // verus!
