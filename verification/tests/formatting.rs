use stockwatch::common::Fixed3;
use stockwatch::fmt::{fmt_fixed2, fmt_fixed3, pad_left_string, percent_hundredths};

#[test]
fn fixed3_plain() {
    assert_eq!(fmt_fixed3(Fixed3 { milli: 123456 }), "123.456");
}

#[test]
fn fixed3_zero() {
    assert_eq!(fmt_fixed3(Fixed3 { milli: 0 }), "0.000");
}

#[test]
fn fixed3_small_fraction() {
    assert_eq!(fmt_fixed3(Fixed3 { milli: 5 }), "0.005");
}

#[test]
fn fixed3_negative() {
    assert_eq!(fmt_fixed3(Fixed3 { milli: -1230 }), "-1.230");
}

#[test]
fn fixed2_plain() {
    assert_eq!(fmt_fixed2(123), "1.23");
}

#[test]
fn fixed2_negative_fraction() {
    assert_eq!(fmt_fixed2(-5), "-0.05");
}

#[test]
fn percent_exact() {
    let last = Fixed3 { milli: 101230 };
    let open = Fixed3 { milli: 100000 };
    assert_eq!(percent_hundredths(last, open), 123);
}

#[test]
fn percent_truncates_toward_zero() {
    // (100001 - 300000) * 10000 / 300000 = -6666.63..., kept as -6666
    let last = Fixed3 { milli: 100001 };
    let open = Fixed3 { milli: 300000 };
    assert_eq!(percent_hundredths(last, open), -6666);
}

#[test]
fn pad_right_aligns() {
    assert_eq!(pad_left_string("ab".to_owned(), 5), "   ab");
}

#[test]
fn pad_cuts_long_text_to_width() {
    assert_eq!(pad_left_string("abcdef".to_owned(), 3), "abc");
}
