use vpscheck::net::{net_totals, rate};

#[test]
fn rate_is_exact_difference_when_counters_grow() {
    assert_eq!(rate(100, 250), 150);
    assert_eq!(rate(0, 7), 7);
    assert_eq!(rate(7, 7), 0);
}

#[test]
fn rate_is_zero_on_counter_reset() {
    assert_eq!(rate(250, 100), 0);
    assert_eq!(rate(u64::MAX, 0), 0);
}

#[test]
fn net_totals_sums_all_interfaces() {
    let pairs = vec![(1u64, 2u64), (10, 20), (100, 200)];
    assert_eq!(net_totals(&pairs), (111, 222));
}

#[test]
fn net_totals_of_no_interfaces_is_zero() {
    let pairs: Vec<(u64, u64)> = vec![];
    assert_eq!(net_totals(&pairs), (0, 0));
}

#[test]
fn net_totals_saturates_instead_of_wrapping() {
    let pairs = vec![(u64::MAX, 0u64), (5, 1)];
    assert_eq!(net_totals(&pairs), (u64::MAX, 1));
}
