use price_estimator::pricing::calculator::PricingConfig;

#[test]
fn fixed_schedule() {
    let p = PricingConfig::new();
    assert_eq!(p.flat_rate, 20);
    assert_eq!(p.per_gb_rate, 5);
    assert_eq!(p.per_player_rate, 1);
    assert_eq!(p.per_world_rate, 2);
    assert_eq!(p.per_plugin_rate, 3);
    assert_eq!(p.per_mod_rate, 4);
    assert_eq!(p.per_server_rate, 15);
}

#[test]
fn cost_of_sample_form() {
    // flat 2.0 + 0.5*8 + 0.1*20 + 0.2*1 + 0.3*10 + 0.4*0 + 1.5*1, in tenths
    let p = PricingConfig::new();
    let tenths = p.calculate_cost(8, 20, 1, 10, 0, 1);
    assert_eq!(tenths, 127);
    assert_eq!(tenths as f64 / 10.0, 12.7);
}

#[test]
fn cost_of_all_zero_is_flat_rate() {
    let p = PricingConfig::new();
    assert_eq!(p.calculate_cost(0, 0, 0, 0, 0, 0), p.flat_rate as u128);
}

#[test]
fn cost_is_monotone_in_each_coordinate() {
    let p = PricingConfig::new();
    let base = p.calculate_cost(8, 20, 1, 10, 0, 1);
    assert!(p.calculate_cost(9, 20, 1, 10, 0, 1) >= base);
    assert!(p.calculate_cost(8, 21, 1, 10, 0, 1) >= base);
    assert!(p.calculate_cost(8, 20, 2, 10, 0, 1) >= base);
    assert!(p.calculate_cost(8, 20, 1, 11, 0, 1) >= base);
    assert!(p.calculate_cost(8, 20, 1, 10, 1, 1) >= base);
    assert!(p.calculate_cost(8, 20, 1, 10, 0, 2) >= base);
}

#[test]
fn cost_of_largest_values() {
    let p = PricingConfig::new();
    let m = u32::MAX as u128;
    let expected = 20 + 5 * m + m + 2 * m + 3 * m + 4 * m + 15 * m;
    assert_eq!(
        p.calculate_cost(u32::MAX, u32::MAX, u32::MAX, u32::MAX, u32::MAX, u32::MAX),
        expected
    );
}
