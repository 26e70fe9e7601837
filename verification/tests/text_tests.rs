use gateway::text::fmt_i64;
use gateway::text::fmt_u64;
use gateway::text::spaces_to_underscores;

#[test]
fn decimal_rendering() {
    assert_eq!(fmt_u64(0), "0");
    assert_eq!(fmt_u64(7), "7");
    assert_eq!(fmt_u64(1700000000500), "1700000000500");
    assert_eq!(fmt_u64(u64::MAX), "18446744073709551615");

    assert_eq!(fmt_i64(0), "0");
    assert_eq!(fmt_i64(-1), "-1");
    assert_eq!(fmt_i64(i64::MIN), "-9223372036854775808");
    assert_eq!(fmt_i64(i64::MAX), "9223372036854775807");
}

#[test]
fn space_replacement() {
    assert_eq!(spaces_to_underscores(&String::from("My Gateway One")), "My_Gateway_One");
    assert_eq!(spaces_to_underscores(&String::from("plain")), "plain");
    assert_eq!(spaces_to_underscores(&String::new()), "");
}
