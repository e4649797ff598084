use upgrade_strategy::input::{FieldId, FieldTable};
use upgrade_strategy::models::upgrade_context::{
    enhance_mastery_tooltip, format_tenths, handicraft_tooltip, trace_price_tooltip,
    upgrade_salvation_tooltip,
};
use upgrade_strategy::state::State;

#[test]
fn tenths_are_written_as_a_decimal_fraction() {
    assert_eq!(format_tenths(0), "0");
    assert_eq!(format_tenths(5), "0.5");
    assert_eq!(format_tenths(45), "4.5");
    assert_eq!(format_tenths(50), "5");
    assert_eq!(format_tenths(100), "10");
    assert_eq!(format_tenths(4_294_967_295), "429496729.5");
    for tenths in 0u32..5000 {
        assert_eq!(format_tenths(tenths), format!("{}", f64::from(tenths) / 10.0));
    }
}

#[test]
fn handicraft_tooltip_names_the_bonus() {
    assert_eq!(handicraft_tooltip(47), "성공 확률 4.5%p 증가");
    assert_eq!(handicraft_tooltip(50), "성공 확률 5%p 증가");
    assert_eq!(handicraft_tooltip(4), "성공 확률 0%p 증가");
    assert_eq!(handicraft_tooltip(100), "성공 확률 10%p 증가");
    for level in (0u32..300).chain([u32::MAX - 5, u32::MAX]) {
        assert_eq!(
            handicraft_tooltip(level),
            format!("성공 확률 {}%p 증가", f64::from(level / 5 * 5) / 10.0)
        );
    }
}

#[test]
fn enhance_mastery_tooltip_names_the_level() {
    assert_eq!(enhance_mastery_tooltip(0), "성공 확률 0%p 증가");
    assert_eq!(enhance_mastery_tooltip(4), "성공 확률 4%p 증가");
    assert_eq!(enhance_mastery_tooltip(u32::MAX), "성공 확률 4294967295%p 증가");
}

#[test]
fn upgrade_salvation_tooltip_names_the_chance() {
    assert_eq!(upgrade_salvation_tooltip(0), "실패 시 0% 확률로 횟수 차감 방지");
    assert_eq!(upgrade_salvation_tooltip(3), "실패 시 3% 확률로 횟수 차감 방지");
}

#[test]
fn trace_price_tooltip_names_the_currency() {
    assert_eq!(trace_price_tooltip(0), "0 메소");
    assert_eq!(trace_price_tooltip(2500), "2500 메소");
}

#[test]
fn only_the_skill_fields_have_a_tooltip() {
    assert_eq!(FieldId::Handicraft.get_tooltip(47), Some("성공 확률 4.5%p 증가".to_owned()));
    assert_eq!(FieldId::EnhancementMastery.get_tooltip(3), Some("성공 확률 3%p 증가".to_owned()));
    assert_eq!(
        FieldId::UpgradeSalvation.get_tooltip(2),
        Some("실패 시 2% 확률로 횟수 차감 방지".to_owned())
    );
    for id in [
        FieldId::UpgradeableCount,
        FieldId::TraceRequired,
        FieldId::TracePrice,
        FieldId::BaseSuccessRate,
        FieldId::UpgradePrice,
    ] {
        assert_eq!(id.get_tooltip(5), None);
    }
}

#[test]
fn tooltip_item_reads_the_form() {
    let mut state = State::new(FieldTable::new());
    assert_eq!(state.tooltip_item(FieldId::Handicraft), Some("성공 확률 0%p 증가".to_owned()));
    state.insert(FieldId::Handicraft, 35);
    state.insert(FieldId::TracePrice, 9);
    assert_eq!(state.tooltip_item(FieldId::Handicraft), Some("성공 확률 3.5%p 증가".to_owned()));
    assert_eq!(state.tooltip_item(FieldId::TracePrice), None);
}
