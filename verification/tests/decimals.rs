use chord_method::decimals::{decimals, DEFAULT_DECIMALS, POINT};

#[test]
fn point_is_the_full_stop() {
    assert_eq!(POINT, b'.');
    assert_eq!(DEFAULT_DECIMALS, 2);
}

#[test]
fn decimals_counts_what_follows_the_point() {
    assert_eq!(decimals("0.001".as_bytes()), 3);
    assert_eq!(decimals("-1.5".as_bytes()), 1);
    assert_eq!(decimals("12.25".as_bytes()), 2);
    assert_eq!(decimals("0.0000001".as_bytes()), 7);
}

#[test]
fn decimals_of_a_whole_number_is_the_default() {
    assert_eq!(decimals("1".as_bytes()), 2);
    assert_eq!(decimals("-1".as_bytes()), 2);
    assert_eq!(decimals("NaN".as_bytes()), 2);
    assert_eq!(decimals("inf".as_bytes()), 2);
    assert_eq!(decimals("".as_bytes()), 2);
}

#[test]
fn decimals_with_nothing_after_the_point_is_zero() {
    assert_eq!(decimals("1.".as_bytes()), 0);
    assert_eq!(decimals(".".as_bytes()), 0);
}

#[test]
fn decimals_with_several_points_is_the_default() {
    assert_eq!(decimals("1.2.3456".as_bytes()), 2);
    assert_eq!(decimals("..".as_bytes()), 2);
}

#[test]
fn decimals_of_what_the_machine_prints() {
    assert_eq!(decimals(0.001f64.to_string().as_bytes()), 3);
    assert_eq!(decimals(1.0f64.to_string().as_bytes()), 2);
    assert_eq!(decimals((-1.0f64).to_string().as_bytes()), 2);
    assert_eq!(decimals(0.25f64.to_string().as_bytes()), 2);
    assert_eq!(decimals(f64::NAN.to_string().as_bytes()), 2);
}
