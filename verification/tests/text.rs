use bikecalc::figure::Figure;
use bikecalc::text::{align_left, align_right, digit, integer, natural, tenths, thousandths};

#[test]
fn digits() {
    let all: Vec<&str> = (0..=9).map(digit).collect();
    assert_eq!(all, ["0", "1", "2", "3", "4", "5", "6", "7", "8", "9"]);
}

#[test]
fn natural_numbers() {
    assert_eq!(natural(0), "0");
    assert_eq!(natural(7), "7");
    assert_eq!(natural(10), "10");
    assert_eq!(natural(138), "138");
    assert_eq!(natural(1_000_000), "1000000");
    assert_eq!(natural(9_876_543_210), "9876543210");
    assert_eq!(natural(u64::MAX), "18446744073709551615");
}

#[test]
fn natural_numbers_agree_with_the_standard_library() {
    for n in (0..5_000u64).chain((0..64).map(|k| 1u64 << k)) {
        assert_eq!(natural(n), n.to_string());
    }
}

#[test]
fn whole_numbers() {
    assert_eq!(integer(0), "0");
    assert_eq!(integer(71), "71");
    assert_eq!(integer(-7), "-7");
    assert_eq!(integer(-1_000), "-1000");
    assert_eq!(integer(i64::MAX), "9223372036854775807");
    assert_eq!(integer(i64::MIN), "-9223372036854775808");
}

#[test]
fn numbers_of_tenths() {
    assert_eq!(tenths(0), "0.0");
    assert_eq!(tenths(5), "0.5");
    assert_eq!(tenths(-5), "-0.5");
    assert_eq!(tenths(36), "3.6");
    assert_eq!(tenths(2_800), "280.0");
    assert_eq!(tenths(1_205), "120.5");
    assert_eq!(tenths(-451), "-45.1");
    assert_eq!(tenths(10), "1.0");
    assert_eq!(tenths(i64::MAX), "922337203685477580.7");
    assert_eq!(tenths(i64::MIN), "-922337203685477580.8");
}

#[test]
fn numbers_of_thousandths() {
    assert_eq!(thousandths(0, false), "0");
    assert_eq!(thousandths(0, true), "0.0");
    assert_eq!(thousandths(69_000, false), "69");
    assert_eq!(thousandths(69_000, true), "69.0");
    assert_eq!(thousandths(4_000, true), "4.0");
    assert_eq!(thousandths(3_500, true), "3.5");
    assert_eq!(thousandths(3_500, false), "3.5");
    assert_eq!(thousandths(3_750, true), "3.75");
    assert_eq!(thousandths(72_525, false), "72.525");
    assert_eq!(thousandths(72_505, false), "72.505");
    assert_eq!(thousandths(72_050, false), "72.05");
    assert_eq!(thousandths(72_005, false), "72.005");
    assert_eq!(thousandths(1, false), "0.001");
    assert_eq!(thousandths(10, true), "0.01");
    assert_eq!(thousandths(100, false), "0.1");
    assert_eq!(thousandths(-500, false), "-0.5");
    assert_eq!(thousandths(-2_000, false), "-2");
    assert_eq!(thousandths(-2_000, true), "-2.0");
    assert_eq!(thousandths(i64::MIN, false), "-9223372036854775.808");
    assert_eq!(thousandths(i64::MAX, true), "9223372036854775.807");
}

#[test]
fn figures_in_whole_units() {
    assert_eq!(Figure::Finite(71).whole_text(), "71");
    assert_eq!(Figure::Finite(-7).whole_text(), "-7");
    assert_eq!(Figure::PosInfinity.whole_text(), "inf");
    assert_eq!(Figure::NegInfinity.whole_text(), "-inf");
    assert_eq!(Figure::NotANumber.whole_text(), "NaN");
}

#[test]
fn figures_in_tenths() {
    assert_eq!(Figure::Finite(36).tenths_text(), "3.6");
    assert_eq!(Figure::Finite(-4).tenths_text(), "-0.4");
    assert_eq!(Figure::PosInfinity.tenths_text(), "inf");
    assert_eq!(Figure::NegInfinity.tenths_text(), "-inf");
    assert_eq!(Figure::NotANumber.tenths_text(), "NaN");
}

#[test]
fn text_moved_to_the_right() {
    assert_eq!(align_right("0", 3), "  0");
    assert_eq!(align_right("55", 3), " 55");
    assert_eq!(align_right("138", 3), "138");
    assert_eq!(align_right("1050", 3), "1050");
    assert_eq!(align_right("", 2), "  ");
    assert_eq!(align_right("abc", 0), "abc");
}

#[test]
fn text_kept_to_the_left() {
    assert_eq!(align_left("Recovery", 15), "Recovery       ");
    assert_eq!(align_left("Neuromuscular", 15), "Neuromuscular  ");
    assert_eq!(align_left("fifteen letters", 15), "fifteen letters");
    assert_eq!(align_left("more than fifteen", 15), "more than fifteen");
    assert_eq!(align_left("", 3), "   ");
}

#[test]
fn alignment_counts_characters() {
    assert_eq!(align_right("é", 3), "  é");
    assert_eq!(align_left("née", 4), "née ");
}
