use upgrade_strategy::strategy::rate::{
    enhance_mastery_effect, handicraft_effect, upgrade_salvation_effect, RateInputs,
    UpgradeContext, INNOCENCE_TRACE_PRICE, WHITE_TRACE_PRICE,
};

fn sample() -> RateInputs {
    RateInputs {
        upgradeable_count: 7,
        base_success_rate: 30,
        handicraft_level: 47,
        enhance_mastery_level: 4,
        upgrade_salvation_level: 2,
        upgrade_price: 100,
        trace_required: 3,
        trace_price: 2,
    }
}

#[test]
fn handicraft_effect_rounds_down_to_five_levels() {
    assert_eq!(handicraft_effect(47), 45);
    assert_eq!(handicraft_effect(50), 50);
    assert_eq!(handicraft_effect(4), 0);
    assert_eq!(handicraft_effect(0), 0);
    assert_eq!(handicraft_effect(5), 5);
    assert_eq!(handicraft_effect(9), 5);
    assert_eq!(handicraft_effect(100), 100);
    assert_eq!(handicraft_effect(u32::MAX), 4_294_967_295);
    assert_eq!(handicraft_effect(u32::MAX - 1), 4_294_967_290);
}

#[test]
fn handicraft_effect_in_percentage_points() {
    assert_eq!(f64::from(handicraft_effect(47)) / 10.0, 4.5);
    assert_eq!(f64::from(handicraft_effect(50)) / 10.0, 5.0);
    assert_eq!(f64::from(handicraft_effect(4)) / 10.0, 0.0);
}

#[test]
fn handicraft_effect_matches_the_formula_for_every_small_level() {
    for level in 0u32..2000 {
        let tenths = handicraft_effect(level);
        assert_eq!(tenths, level / 5 * 5);
        assert_eq!(f64::from(tenths) / 10.0, f64::from(level / 5 * 5) / 10.0);
    }
}

#[test]
fn guild_effects_are_the_level_itself() {
    for level in [0u32, 1, 4, 100, u32::MAX] {
        assert_eq!(enhance_mastery_effect(level), level);
        assert_eq!(upgrade_salvation_effect(level), level);
    }
}

#[test]
fn context_holds_rates_and_prices() {
    let context = UpgradeContext::new(&sample());
    assert_eq!(context.get_upgradeable_count(), 7);
    assert_eq!(context.get_success_rate(), 385);
    assert_eq!(context.get_recovery_rate(), 1230);
    assert_eq!(context.get_upgrade_price(), 100);
    assert_eq!(context.get_white_price(), 60_000);
    assert_eq!(context.get_innocence_price(), 24_000);
}

#[test]
fn rates_agree_with_floating_point() {
    let inputs = sample();
    let context = UpgradeContext::new(&inputs);
    let success = f64::from(inputs.base_success_rate)
        + f64::from(inputs.handicraft_level / 5 * 5) / 10.0
        + f64::from(inputs.enhance_mastery_level);
    let recovery = (100.0 - success) * f64::from(inputs.upgrade_salvation_level) / 100.0;
    assert_eq!(context.get_success_rate() as f64 / 10.0, success);
    assert_eq!(context.get_recovery_rate() as f64 / 1000.0, recovery);
}

#[test]
fn success_rate_formula() {
    assert_eq!(UpgradeContext::calculate_success_rate(0, 0, 0), 0);
    assert_eq!(UpgradeContext::calculate_success_rate(100, 0, 0), 1000);
    assert_eq!(UpgradeContext::calculate_success_rate(10, 100, 4), 240);
    assert_eq!(
        UpgradeContext::calculate_success_rate(u32::MAX, u32::MAX, u32::MAX),
        10 * 4_294_967_295u64 + 4_294_967_295 + 10 * 4_294_967_295
    );
}

#[test]
fn recovery_rate_formula() {
    assert_eq!(UpgradeContext::calculate_recovery_rate(385, 2), 1230);
    assert_eq!(UpgradeContext::calculate_recovery_rate(1000, 4), 0);
    assert_eq!(UpgradeContext::calculate_recovery_rate(0, 0), 0);
    assert_eq!(UpgradeContext::calculate_recovery_rate(0, 100), 100_000);
}

#[test]
fn recovery_rate_is_negative_above_full_success() {
    assert_eq!(UpgradeContext::calculate_recovery_rate(1100, 3), -300);
    let extreme = UpgradeContext::calculate_recovery_rate(u64::MAX, u32::MAX);
    assert_eq!(extreme, (1000i128 - i128::from(u64::MAX)) * i128::from(u32::MAX));
}

#[test]
fn consumable_prices() {
    assert_eq!(WHITE_TRACE_PRICE, 20_000);
    assert_eq!(INNOCENCE_TRACE_PRICE, 12_000);
    assert_eq!(UpgradeContext::calculate_white_price(0), 0);
    assert_eq!(UpgradeContext::calculate_white_price(10_000), 200_000_000);
    assert_eq!(UpgradeContext::calculate_white_price(214_748), 4_294_960_000);
    assert_eq!(UpgradeContext::calculate_innocence_price(0), 0);
    assert_eq!(UpgradeContext::calculate_innocence_price(10_000), 120_000_000);
    assert_eq!(UpgradeContext::calculate_innocence_price(357_913), 4_294_956_000);
}

#[test]
fn supported_inputs_are_those_whose_prices_fit() {
    let mut inputs = sample();
    assert!(inputs.is_supported());
    inputs.trace_required = 214_748;
    assert!(inputs.is_supported());
    inputs.trace_required = 214_749;
    assert!(!inputs.is_supported());
    inputs.trace_required = 0;
    inputs.trace_price = 357_913;
    assert!(inputs.is_supported());
    inputs.trace_price = 357_914;
    assert!(!inputs.is_supported());
}
