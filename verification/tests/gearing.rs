use bikecalc::figure::{Figure, Milli};
use bikecalc::gearing::{
    cadence_line, cadence_to_speed, gear_inches, speed_line, speed_to_cadence, Gear, GearLine,
    WHEEL_DIAMETER,
};

fn milli(thousandths: i32) -> Milli {
    Milli { thousandths }
}

fn finite(figure: Figure) -> i64 {
    match figure {
        Figure::Finite(n) => n,
        other => panic!("not finite: {other:?}"),
    }
}

#[test]
fn gear_inches_of_50_on_11_and_28() {
    let line = gear_inches(50, (11, 28), Some(true));
    assert_eq!(
        line,
        GearLine {
            chainring: 50,
            gears: [
                Gear { teeth: 11, value: Figure::Finite(1_205) },
                Gear { teeth: 28, value: Figure::Finite(473) },
            ],
        }
    );
}

#[test]
fn plain_ratios_of_50_on_11_and_28() {
    for flag in [None, Some(false)] {
        let line = gear_inches(50, (11, 28), flag);
        assert_eq!(line.chainring, 50);
        assert_eq!(line.gears[0], Gear { teeth: 11, value: Figure::Finite(45) });
        assert_eq!(line.gears[1], Gear { teeth: 28, value: Figure::Finite(18) });
    }
}

#[test]
fn gear_inches_are_26_and_a_half_ratios() {
    // On sprockets that divide the chainring the ratio is whole, and the
    // value in inches is exactly 26.5 times as much.
    for (chainring, teeth) in [(48, 12), (48, 16), (48, 24), (52, 13), (36, 36), (-48, 12)] {
        let ratio = finite(gear_inches(chainring, (teeth, teeth), None).gears[0].value);
        let inches = finite(gear_inches(chainring, (teeth, teeth), Some(true)).gears[0].value);
        assert_eq!(ratio, 10 * (chainring / teeth) as i64);
        assert_eq!(10 * inches, 265 * ratio);
    }
    // Otherwise each is rounded on its own, and they stay that close.
    for chainring in 20..=60 {
        for teeth in 9..=52 {
            let ratio = finite(gear_inches(chainring, (teeth, teeth), None).gears[1].value);
            let inches = finite(gear_inches(chainring, (teeth, teeth), Some(true)).gears[1].value);
            assert!((10 * inches - 265 * ratio).abs() <= 137, "{chainring} on {teeth}");
        }
    }
}

#[test]
fn a_sprocket_without_teeth_is_not_finite() {
    let line = gear_inches(50, (0, 28), None);
    assert_eq!(line.gears[0].value, Figure::PosInfinity);
    assert_eq!(line.gears[1].value, Figure::Finite(18));
    assert_eq!(gear_inches(-50, (11, 0), Some(true)).gears[1].value, Figure::NegInfinity);
    assert_eq!(gear_inches(0, (0, 0), Some(true)).gears[0].value, Figure::NotANumber);
}

#[test]
fn gears_with_negative_teeth() {
    assert_eq!(gear_inches(34, (-11, 11), None).gears[0].value, Figure::Finite(-31));
    assert_eq!(gear_inches(34, (-11, 11), Some(true)).gears[1].value, Figure::Finite(819));
    assert_eq!(
        gear_inches(i32::MIN, (1, -1), Some(true)).gears,
        [
            Gear { teeth: 1, value: Figure::Finite(-569_083_166_720) },
            Gear { teeth: -1, value: Figure::Finite(569_083_166_720) },
        ]
    );
}

#[test]
fn speed_at_90_rpm() {
    let wheel = milli(WHEEL_DIAMETER);
    // 26.5 * pi * 90 / (2.77 * 60) = 45.08...
    assert_eq!(cadence_to_speed(90, milli(2_770), wheel), Figure::Finite(451));
    // 26.5 * pi * 90 / 60 = 124.87...
    assert_eq!(cadence_to_speed(90, milli(1_000), wheel), Figure::Finite(1_249));
    assert_eq!(cadence_to_speed(90, milli(4_545), milli(27_000)), Figure::Finite(280));
    assert_eq!(cadence_to_speed(0, milli(2_770), wheel), Figure::Finite(0));
}

#[test]
fn speed_with_signs() {
    let wheel = milli(WHEEL_DIAMETER);
    assert_eq!(cadence_to_speed(-90, milli(2_770), wheel), Figure::Finite(-451));
    assert_eq!(cadence_to_speed(90, milli(-2_770), wheel), Figure::Finite(-451));
    assert_eq!(cadence_to_speed(-90, milli(-2_770), wheel), Figure::Finite(451));
}

#[test]
fn speed_without_a_gear_ratio_is_not_finite() {
    let wheel = milli(WHEEL_DIAMETER);
    assert_eq!(cadence_to_speed(90, milli(0), wheel), Figure::PosInfinity);
    assert_eq!(cadence_to_speed(-90, milli(0), wheel), Figure::NegInfinity);
    assert_eq!(cadence_to_speed(0, milli(0), wheel), Figure::NotANumber);
    assert_eq!(cadence_to_speed(90, milli(0), milli(0)), Figure::NotANumber);
}

#[test]
fn cadence_at_20_mph() {
    let wheel = milli(WHEEL_DIAMETER);
    // 20 * 2.77 * 60 / (26.5 * pi) = 39.92...
    assert_eq!(speed_to_cadence(milli(20_000), milli(2_770), wheel), Figure::Finite(399));
    assert_eq!(speed_to_cadence(milli(15_500), milli(1_000), wheel), Figure::Finite(112));
    assert_eq!(speed_to_cadence(milli(20_000), milli(4_545), milli(27_000)), Figure::Finite(643));
    assert_eq!(speed_to_cadence(milli(0), milli(2_770), wheel), Figure::Finite(0));
}

#[test]
fn cadence_without_a_wheel_is_not_finite() {
    assert_eq!(speed_to_cadence(milli(20_000), milli(2_770), milli(0)), Figure::PosInfinity);
    assert_eq!(speed_to_cadence(milli(-20_000), milli(2_770), milli(0)), Figure::NegInfinity);
    assert_eq!(speed_to_cadence(milli(20_000), milli(0), milli(0)), Figure::NotANumber);
    assert_eq!(speed_to_cadence(milli(0), milli(2_770), milli(0)), Figure::NotANumber);
}

#[test]
fn speed_and_cadence_at_the_widest_inputs() {
    let most = milli(i32::MAX);
    let least = milli(i32::MIN);
    let fastest = cadence_to_speed(i32::MAX, milli(1), most);
    assert_eq!(fastest, Figure::Finite(2_414_673_217_637_936_641));
    let fastest = cadence_to_speed(i32::MIN, milli(1), least);
    assert_eq!(fastest, Figure::Finite(2_414_673_219_886_776_320));
    let fastest = cadence_to_speed(i32::MIN, milli(-1), least);
    assert_eq!(fastest, Figure::Finite(-2_414_673_219_886_776_320));
    let quickest = speed_to_cadence(most, most, milli(1));
    assert_eq!(quickest, Figure::Finite(880_767_125_654_743_887));
    let quickest = speed_to_cadence(least, least, milli(-1));
    assert_eq!(quickest, Figure::Finite(-880_767_126_475_022_194));
}

#[test]
fn speed_comes_back_from_cadence() {
    let wheel = milli(WHEEL_DIAMETER);
    // Speeds whose cadence comes out in whole revolutions, so that it can be
    // handed back.
    for (speed, ratio, cadence, back) in [
        (5_000, 2_500, 90, 50),
        (5_500, 2_770, 110, 55),
        (6_000, 3_000, 130, 60),
        (6_100, 4_545, 200, 61),
        (7_000, 1_000, 50, 69),
    ] {
        let tenths = finite(speed_to_cadence(milli(speed), milli(ratio), wheel));
        assert_eq!(tenths, cadence);
        let found = finite(cadence_to_speed((tenths / 10) as i32, milli(ratio), wheel));
        assert_eq!(found, back);
    }
}

#[test]
fn round_trip_stays_within_rounding() {
    let pi_num: i128 = 13_176_795;
    let pi_den: i128 = 4_194_304;
    for diameter in [20_000, 26_500, 29_000] {
        for ratio in [1_000, 2_000, 2_770, 4_545] {
            for speed in (0..40_000).step_by(100) {
                let tenths = finite(speed_to_cadence(milli(speed), milli(ratio), milli(diameter)));
                if tenths % 10 != 0 {
                    continue;
                }
                let rpm = (tenths / 10) as i32;
                let found = finite(cadence_to_speed(rpm, milli(ratio), milli(diameter)));
                let (s, g, d) = (speed as i128, ratio as i128, diameter as i128);
                let slack = 300 * g * pi_den + 5 * d * pi_num;
                let off = (100 * found as i128 - s) * (6 * g * pi_den);
                assert!(-slack <= off && off <= slack, "{speed} {ratio} {diameter}");
            }
        }
    }
}

#[test]
fn cadence_comes_back_from_speed() {
    let wheel = milli(WHEEL_DIAMETER);
    for rpm in [60, 75, 90, 105, 120] {
        let tenths = finite(cadence_to_speed(rpm, milli(2_770), wheel));
        let back = finite(speed_to_cadence(milli((tenths * 100) as i32), milli(2_770), wheel));
        assert!((back - 10 * rpm as i64).abs() <= 2, "{rpm}");
    }
}

#[test]
fn gear_inches_of_50_on_11_and_28_as_text() {
    assert_eq!(gear_inches(50, (11, 28), Some(true)).line(), "50: 120.5 (11) 47.3 (28)");
}

#[test]
fn plain_ratios_as_text() {
    assert_eq!(gear_inches(50, (11, 28), None).line(), "50: 4.5 (11) 1.8 (28)");
    assert_eq!(gear_inches(34, (-11, 0), Some(false)).line(), "34: -3.1 (-11) inf (0)");
    assert_eq!(gear_inches(0, (0, 32), None).line(), "0: NaN (0) 0.0 (32)");
    assert_eq!(gear_inches(-34, (0, 32), None).line(), "-34: -inf (0) -1.1 (32)");
}

#[test]
fn one_gear_as_text() {
    assert_eq!(Gear { teeth: 11, value: Figure::Finite(1_205) }.text(), "120.5 (11)");
    assert_eq!(Gear { teeth: 0, value: Figure::PosInfinity }.text(), "inf (0)");
}

#[test]
fn speed_and_cadence_as_text() {
    let wheel = milli(WHEEL_DIAMETER);
    assert_eq!(speed_line(cadence_to_speed(90, milli(2_770), wheel)), "45.1 mph");
    assert_eq!(speed_line(cadence_to_speed(90, milli(0), wheel)), "inf mph");
    assert_eq!(speed_line(Figure::Finite(-5)), "-0.5 mph");
    assert_eq!(cadence_line(speed_to_cadence(milli(20_000), milli(2_770), wheel)), "39.9 rpm");
    assert_eq!(cadence_line(speed_to_cadence(milli(0), milli(2_770), milli(0))), "NaN rpm");
    assert_eq!(cadence_line(Figure::NegInfinity), "-inf rpm");
}

#[test]
fn gears_agree_with_the_formula_in_floating_point() {
    for chainring in [22, 34, 39, 50, 53] {
        for teeth in [10, 11, 17, 25, 28, 34, 51] {
            let ratio = chainring as f64 / teeth as f64;
            let line = gear_inches(chainring, (teeth, teeth), None);
            assert!((finite(line.gears[0].value) as f64 / 10.0 - ratio).abs() <= 0.05 + 1e-9);
            let line = gear_inches(chainring, (teeth, teeth), Some(true));
            let inches = finite(line.gears[1].value) as f64 / 10.0;
            assert!((inches - ratio * 26.5).abs() <= 0.05 + 1e-9);
        }
    }
}

#[test]
fn speed_and_cadence_agree_with_the_formula_in_floating_point() {
    let pi = std::f32::consts::PI as f64;
    for diameter in [20.0, 26.5, 27.5, 29.0] {
        for ratio in [0.75, 1.0, 2.77, 3.125, 4.545] {
            let wheel = milli((diameter * 1000.0_f64).round() as i32);
            let gear = milli((ratio * 1000.0_f64).round() as i32);
            for rpm in [1, 45, 60, 90, 110, 200] {
                let speed = diameter * pi * rpm as f64 / (ratio * 60.0);
                let found = finite(cadence_to_speed(rpm, gear, wheel)) as f64 / 10.0;
                assert!((found - speed).abs() <= 0.05 + 1e-9, "{diameter} {ratio} {rpm}");
            }
            for mph in [0.5, 8.0, 15.5, 20.0, 31.25] {
                let cadence = mph * ratio * 60.0 / (diameter * pi);
                let speed = milli((mph * 1000.0_f64).round() as i32);
                let found = finite(speed_to_cadence(speed, gear, wheel)) as f64 / 10.0;
                assert!((found - cadence).abs() <= 0.05 + 1e-9, "{diameter} {ratio} {mph}");
            }
        }
    }
}
