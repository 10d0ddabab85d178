use language_tour::decimal::Decimal;

fn shown(d: Decimal) -> String {
    let mut s = String::new();
    d.push_shown(&mut s);
    s
}

fn shown_in_full(d: Decimal) -> String {
    let mut s = String::new();
    d.push_shown_in_full(&mut s);
    s
}

fn negative(magnitude: u32, scale: u8) -> Decimal {
    Decimal { negative: true, magnitude, scale }
}

#[test]
fn a_fraction_is_written_with_its_digits() {
    assert_eq!(shown(Decimal::new(64, 1)), "6.4");
    assert_eq!(shown(Decimal::new(43, 1)), "4.3");
    assert_eq!(shown(Decimal::new(271828, 5)), "2.71828");
    assert_eq!(shown(Decimal::new(55, 1)), "5.5");
}

#[test]
fn a_whole_number_is_written_without_a_point() {
    assert_eq!(shown(Decimal::new(20, 1)), "2");
    assert_eq!(shown(Decimal::new(30, 1)), "3");
    assert_eq!(shown(Decimal::new(5, 0)), "5");
    assert_eq!(shown(Decimal::new(7000, 3)), "7");
    assert_eq!(shown(Decimal::new(0, 0)), "0");
    assert_eq!(shown(Decimal::new(0, 4)), "0");
}

#[test]
fn zeros_at_the_end_are_left_out_and_zeros_in_front_are_kept() {
    assert_eq!(shown(Decimal::new(2500, 3)), "2.5");
    assert_eq!(shown(Decimal::new(5, 2)), "0.05");
    assert_eq!(shown(Decimal::new(1050, 3)), "1.05");
    assert_eq!(shown(Decimal::new(1, 9)), "0.000000001");
    assert_eq!(shown(Decimal::new(100, 1)), "10");
    assert_eq!(shown(Decimal::new(u32::MAX, 0)), "4294967295");
    assert_eq!(shown(Decimal::new(u32::MAX, 10)), "0.4294967295");
}

#[test]
fn a_negative_number_carries_a_minus_sign() {
    assert_eq!(shown(negative(64, 1)), "-6.4");
    assert_eq!(shown(negative(5, 2)), "-0.05");
    assert_eq!(shown(negative(20, 1)), "-2");
}

#[test]
fn written_in_full_a_whole_number_ends_in_point_zero() {
    assert_eq!(shown_in_full(Decimal::new(20, 1)), "2.0");
    assert_eq!(shown_in_full(Decimal::new(5, 0)), "5.0");
    assert_eq!(shown_in_full(Decimal::new(0, 2)), "0.0");
    assert_eq!(shown_in_full(Decimal::new(64, 1)), "6.4");
    assert_eq!(shown_in_full(negative(300, 2)), "-3.0");
}

#[test]
fn decimals_are_written_as_floats_of_the_same_value() {
    let cases: [(Decimal, f64); 6] = [
        (Decimal::new(64, 1), 6.4),
        (Decimal::new(20, 1), 2.0),
        (Decimal::new(43, 1), 4.3),
        (Decimal::new(271828, 5), 2.71828),
        (Decimal::new(5, 2), 0.05),
        (negative(125, 2), -1.25),
    ];
    for (decimal, float) in cases {
        assert_eq!(shown(decimal), format!("{}", float));
        assert_eq!(shown_in_full(decimal), format!("{:?}", float));
    }
}

#[test]
fn truncation_rounds_towards_zero() {
    assert_eq!(Decimal::new(55, 1).truncated(), 5);
    assert_eq!(Decimal::new(59, 1).truncated(), 5);
    assert_eq!(negative(55, 1).truncated(), -5);
    assert_eq!(Decimal::new(5, 1).truncated(), 0);
    assert_eq!(negative(5, 1).truncated(), 0);
    assert_eq!(Decimal::new(1234, 0).truncated(), 1234);
    assert_eq!(Decimal::new(1234, 4).truncated(), 0);
    assert_eq!(Decimal::new(u32::MAX, 0).truncated(), 4_294_967_295);
    assert_eq!(Decimal::new(7, 255).truncated(), 0);
}

#[test]
fn truncation_agrees_with_the_cast_of_a_float() {
    assert_eq!(Decimal::new(55, 1).truncated(), 5.5f64 as i64);
    assert_eq!(negative(999, 2).truncated(), -9.99f64 as i64);
}

#[test]
fn writing_appends_to_what_is_there() {
    let mut s = String::from("x = ");
    Decimal::new(64, 1).push_shown(&mut s);
    s.push_str(", y = ");
    Decimal::new(20, 1).push_shown_in_full(&mut s);
    assert_eq!(s, "x = 6.4, y = 2.0");
}
