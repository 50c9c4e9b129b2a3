//! Power against body weight, and the power that other ratios would take.

use crate::figure::{quotient, Figure, Milli, Rounded};
use crate::rounding::{lemma_nearest_bounds, nearest, round_div};
use crate::text::{
    integer, integer_text, tenths, tenths_figure_text, tenths_text, thousandths, thousandths_text,
};
use vstd::prelude::*;
use vstd::string::StringExecFns;

verus! {

/// Power against weight in tenths of a watt per kilogram, for a power in
/// watts and a weight in thousandths of a kilogram.
pub open spec fn power_to_weight(ftp: int, weight: int) -> Rounded {
    quotient(10_000 * ftp, weight)
}

/// The power that holds `ratio` at `weight`, both in thousandths, in tenths
/// of a watt.
pub open spec fn power_needed_tenths(ratio: int, weight: int) -> int {
    nearest(ratio * weight, 100_000)
}

/// The power that holds `ratio` at `weight`, both in thousandths, in whole
/// watts.
pub open spec fn power_needed(ratio: int, weight: int) -> int {
    nearest(ratio * weight, 1_000_000)
}

/// The ratios, in thousandths of a watt per kilogram, that the report gives
/// the needed power for: 4.0, 3.5 and 3.0.
pub open spec fn target_ratios() -> Seq<int> {
    seq![4_000, 3_500, 3_000]
}

/// The power needed to hold one target ratio.
#[derive(Clone, Copy, Debug, PartialEq, Eq)]
pub struct TargetPower {
    /// The target, in watts per kilogram.
    pub ratio: Milli,
    /// The power that holds it, in tenths of a watt.
    pub power: i64,
}

/// One line of a weight table: a body weight and the power that holds the
/// table's ratio at that weight.
#[derive(Clone, Copy, Debug, PartialEq, Eq)]
pub struct WeightRow {
    /// The weight, in thousandths of a kilogram.
    pub weight: i64,
    /// The power, in whole watts.
    pub power: i64,
}

/// The power that holds one ratio after losing one to five kilograms.
#[derive(Clone, Copy, Debug, PartialEq, Eq)]
pub struct WeightTable {
    /// The ratio, in watts per kilogram.
    pub ratio: Milli,
    /// The rows for one, two, three, four and five kilograms less.
    pub rows: [WeightRow; 5],
}

impl WeightTable {
    /// The table is the one for `ratio` that starts from `weight`, both in
    /// thousandths.
    pub open spec fn is_table(self, ratio: int, weight: int) -> bool {
        &&& self.ratio@ == ratio
        &&& forall|k: int|
            0 <= k < 5 ==> {
                &&& (#[trigger] self.rows[k]).weight == weight - 1_000 * (k + 1)
                &&& self.rows[k].power == power_needed(ratio, weight - 1_000 * (k + 1))
            }
    }
}

/// What `watt_per_kilo` works out.
#[derive(Clone, Copy, Debug, PartialEq, Eq)]
pub struct WkgReport {
    /// Power against weight as it is now, in tenths of a watt per kilogram.
    pub now: Figure,
    /// The power needed for 4.0, 3.5 and 3.0 watts per kilogram.
    pub targets: [TargetPower; 3],
    /// The weight tables for 4.0 and 3.5 watts per kilogram.
    pub tables: [WeightTable; 2],
}

fn weight_row(ratio: Milli, weight: Milli, kilograms: i64) -> (row: WeightRow)
    requires
        1 <= kilograms <= 5,
    ensures
        row.weight == weight@ - 1_000 * kilograms,
        row.power == power_needed(ratio@, weight@ - 1_000 * kilograms),
{
    let lighter: i64 = weight.thousandths as i64 - 1_000 * kilograms;
    assert(-0x5000_0000_0000_0000 <= ratio@ * lighter <= 0x5000_0000_0000_0000)
        by (nonlinear_arith)
        requires
            -0x8000_0000 <= ratio@ < 0x8000_0000,
            -0x8000_1388 <= lighter < 0x8000_0000,
    ;
    let num: i128 = (ratio.thousandths as i128) * (lighter as i128);
    proof {
        lemma_nearest_bounds(
            num as int,
            1_000_000,
            -0x5000_0000_0000_0000,
            0x5000_0000_0000_0000,
        );
    }
    let power: i128 = round_div(num, 1_000_000);
    WeightRow { weight: lighter, power: power as i64 }
}

/// The power that holds `wkg` watts per kilogram after losing one, two,
/// three, four and five kilograms from `weight`.
pub fn ftp_for_wkg(wkg: Milli, weight: Milli) -> (table: WeightTable)
    ensures
        table.is_table(wkg@, weight@),
{
    WeightTable {
        ratio: wkg,
        rows: [
            weight_row(wkg, weight, 1),
            weight_row(wkg, weight, 2),
            weight_row(wkg, weight, 3),
            weight_row(wkg, weight, 4),
            weight_row(wkg, weight, 5),
        ],
    }
}

fn target_power(ratio: Milli, weight: Milli) -> (target: TargetPower)
    ensures
        target.ratio == ratio,
        target.power == power_needed_tenths(ratio@, weight@),
{
    assert(-0x4000_0000_0000_0000 <= ratio@ * weight@ <= 0x4000_0000_0000_0000)
        by (nonlinear_arith)
        requires
            -0x8000_0000 <= ratio@ < 0x8000_0000,
            -0x8000_0000 <= weight@ < 0x8000_0000,
    ;
    let num: i128 = (ratio.thousandths as i128) * (weight.thousandths as i128);
    proof {
        lemma_nearest_bounds(num as int, 100_000, -0x4000_0000_0000_0000, 0x4000_0000_0000_0000);
    }
    let power: i128 = round_div(num, 100_000);
    TargetPower { ratio, power: power as i64 }
}

/// Power against weight for a functional threshold power in watts and a body
/// weight in kilograms: the ratio as it is, the power that 4.0, 3.5 and 3.0
/// watts per kilogram would take at this weight, and the weight tables for
/// 4.0 and 3.5 watts per kilogram. A weight of zero gives a non-finite ratio.
pub fn watt_per_kilo(ftp: i32, weight: Milli) -> (report: WkgReport)
    ensures
        report.now@ == power_to_weight(ftp as int, weight@),
        forall|i: int|
            0 <= i < 3 ==> {
                &&& (#[trigger] report.targets[i]).ratio@ == target_ratios()[i]
                &&& report.targets[i].power == power_needed_tenths(target_ratios()[i], weight@)
            },
        report.tables[0].is_table(4_000, weight@),
        report.tables[1].is_table(3_500, weight@),
{
    let now = Figure::from_ratio(10_000 * (ftp as i128), weight.thousandths as i128);
    let four = Milli { thousandths: 4_000 };
    let three_and_a_half = Milli { thousandths: 3_500 };
    let three = Milli { thousandths: 3_000 };
    WkgReport {
        now,
        targets: [
            target_power(four, weight),
            target_power(three_and_a_half, weight),
            target_power(three, weight),
        ],
        tables: [ftp_for_wkg(four, weight), ftp_for_wkg(three_and_a_half, weight)],
    }
}

/// One target as a line of text, as in `    for 4.0 W/kg, need 280.0 W`.
pub open spec fn target_line(target: TargetPower) -> Seq<char> {
    "    for "@ + thousandths_text(target.ratio@, true) + " W/kg, need "@ + tenths_text(
        target.power as int,
    ) + " W"@
}

/// One row of a weight table as a line of text, as in
/// `...at 69 kg, need 276W`.
pub open spec fn row_line(row: WeightRow) -> Seq<char> {
    "...at "@ + thousandths_text(row.weight as int, false) + " kg, need "@ + integer_text(
        row.power as int,
    ) + "W"@
}

/// A weight table as text: a heading, one line for each row, and an empty
/// line.
pub open spec fn table_lines(table: WeightTable) -> Seq<Seq<char>> {
    Seq::new(
        7,
        |i: int|
            if i == 0 {
                "For "@ + thousandths_text(table.ratio@, true) + " W/kg..."@
            } else if i <= 5 {
                row_line(table.rows[i - 1])
            } else {
                Seq::empty()
            },
    )
}

/// The first part of a report as text: a heading, the ratio as it is now,
/// one line for each target, and an empty line.
pub open spec fn summary_lines(report: WkgReport) -> Seq<Seq<char>> {
    Seq::new(
        6,
        |i: int|
            if i == 0 {
                "Theoretical W/kg"@
            } else if i == 1 {
                "    NOW: "@ + tenths_figure_text(report.now@) + " W/kg"@
            } else if i <= 4 {
                target_line(report.targets[i - 2])
            } else {
                Seq::empty()
            },
    )
}

/// A report as text: its first part, then its two weight tables.
pub open spec fn report_lines(report: WkgReport) -> Seq<Seq<char>> {
    summary_lines(report) + table_lines(report.tables[0]) + table_lines(report.tables[1])
}

impl TargetPower {
    /// The target as one line of text.
    pub fn line(&self) -> (line: String)
        ensures
            line@ == target_line(*self),
    {
        let mut line = String::from_str("    for ");
        line.append(thousandths(self.ratio.thousandths as i64, true).as_str());
        line.append(" W/kg, need ");
        line.append(tenths(self.power).as_str());
        line.append(" W");
        line
    }
}

impl WeightRow {
    /// The row as one line of text.
    pub fn line(&self) -> (line: String)
        ensures
            line@ == row_line(*self),
    {
        let mut line = String::from_str("...at ");
        line.append(thousandths(self.weight, false).as_str());
        line.append(" kg, need ");
        line.append(integer(self.power).as_str());
        line.append("W");
        line
    }
}

impl WeightTable {
    /// The table as text, line by line.
    pub fn lines(&self) -> (lines: Vec<String>)
        ensures
            lines.deep_view() == table_lines(*self),
    {
        let mut heading = String::from_str("For ");
        heading.append(thousandths(self.ratio.thousandths as i64, true).as_str());
        heading.append(" W/kg...");
        let mut lines = Vec::new();
        lines.push(heading);
        let mut i: usize = 0;
        while i < 5
            invariant
                i <= 5,
                lines@.len() == i + 1,
                forall|j: int|
                    0 <= j < lines@.len() ==> (#[trigger] lines@[j])@ == table_lines(*self)[j],
            decreases 5 - i,
        {
            lines.push(self.rows[i].line());
            i = i + 1;
        }
        lines.push(String::new());
        assert(lines.deep_view() =~= table_lines(*self));
        lines
    }
}

impl WkgReport {
    /// The report as text, line by line.
    pub fn lines(&self) -> (lines: Vec<String>)
        ensures
            lines.deep_view() == report_lines(*self),
    {
        let mut now = String::from_str("    NOW: ");
        now.append(self.now.tenths_text().as_str());
        now.append(" W/kg");
        let mut lines = Vec::new();
        lines.push(String::from_str("Theoretical W/kg"));
        lines.push(now);
        let mut i: usize = 0;
        while i < 3
            invariant
                i <= 3,
                lines@.len() == i + 2,
                forall|j: int|
                    0 <= j < lines@.len() ==> (#[trigger] lines@[j])@ == summary_lines(
                        *self,
                    )[j],
            decreases 3 - i,
        {
            lines.push(self.targets[i].line());
            i = i + 1;
        }
        lines.push(String::new());
        assert(lines.deep_view() =~= summary_lines(*self));
        let mut first = self.tables[0].lines();
        let mut second = self.tables[1].lines();
        let ghost summary = lines@;
        let ghost first_table = first@;
        let ghost second_table = second@;
        lines.append(&mut first);
        lines.append(&mut second);
        assert(lines@ == summary + first_table + second_table);
        assert(lines.deep_view() =~= report_lines(*self));
        lines
    }
}

} // verus!
