use upgrade_strategy::api::requests::BadResponse;
use upgrade_strategy::api::ProbabilityContext;
use upgrade_strategy::models::theme::{Theme, ThemeCollection, ThemeData, THEME_DEFAULT_VALUE};
use upgrade_strategy::models::upgrade_context::{spec_collection, Spec, UpgradeContext};
use upgrade_strategy::utils::{EventParser, InputEvent, ViewVecExt};
use upgrade_strategy::view_models::theme_view_model::ThemeViewModel;
use upgrade_strategy::view_models::upgrade_context_view_model::UpgradeContextViewModel;

fn typed(text: &str) -> InputEvent {
    InputEvent { value: Some(text.to_owned()) }
}

fn described(spec: &Spec) -> (&'static str, &'static str, u32, u32) {
    (spec.label, spec.placeholder, spec.min, spec.max)
}

#[test]
fn spec_allows_its_range() {
    let spec = Spec { label: "l", placeholder: "p", min: 1, max: 12 };
    assert!(!spec.allows(0));
    assert!(spec.allows(1));
    assert!(spec.allows(12));
    assert!(!spec.allows(13));
}

#[test]
fn spec_collection_describes_each_value() {
    assert_eq!(described(&spec_collection::handicraft()), ("손재주", "0 ~ 100", 0, 100));
    assert_eq!(described(&spec_collection::enhance_mastery()), ("강화의 달인", "0 ~ 4", 0, 4));
    assert_eq!(
        described(&spec_collection::upgrade_salvation()),
        ("실패를 두려워 않는", "0 ~ 4", 0, 4)
    );
    assert_eq!(described(&spec_collection::equipment_level()), ("장비 레벨", "0 ~ 250", 0, 250));
    assert_eq!(
        described(&spec_collection::upgradeable_count()),
        ("주문서 강화 가능 횟수", "1 ~ 12", 1, 12)
    );
    assert_eq!(
        described(&spec_collection::trace_required()),
        ("주문의 흔적 필요 갯수 (썬데이 미적용 기준)", "0", 0, 10_000)
    );
    assert_eq!(described(&spec_collection::trace_price()), ("주문의 흔적 시세", "0", 0, 10_000));
}

#[test]
fn default_form_has_no_value() {
    let context = UpgradeContext::default();
    assert_eq!(
        context,
        UpgradeContext {
            handicraft: None,
            enhance_mastery: None,
            upgrade_salvation: None,
            equipment_level: None,
            upgradeable_count: None,
            trace_required: None,
            trace_price: None,
        }
    );
    assert_eq!(UpgradeContextViewModel::new().signal, context);
}

#[test]
fn input_event_parses_its_text() {
    assert_eq!(typed("12").parse(), Some(12));
    assert_eq!(typed("").parse(), None);
    assert_eq!(typed("twelve").parse(), None);
    assert_eq!(typed("4294967296").parse(), None);
    assert_eq!(InputEvent { value: None }.parse(), None);
}

#[test]
fn changes_in_range_are_taken() {
    let mut model = UpgradeContextViewModel::new();
    assert!(model.handicraft_change_callback(&typed("100")));
    assert!(model.enhance_mastery_change_callback(&typed("4")));
    assert!(model.upgrade_salvation_change_callback(&typed("0")));
    assert!(model.equipment_level_change_callback(&typed("250")));
    assert!(model.upgradeable_count_change_callback(&typed("1")));
    assert!(model.trace_required_change_callback(&typed("10000")));
    assert!(model.trace_price_change_callback(&typed("1234")));
    assert_eq!(
        model.signal,
        UpgradeContext {
            handicraft: Some(100),
            enhance_mastery: Some(4),
            upgrade_salvation: Some(0),
            equipment_level: Some(250),
            upgradeable_count: Some(1),
            trace_required: Some(10_000),
            trace_price: Some(1234),
        }
    );
}

#[test]
fn changes_out_of_range_are_dropped() {
    let mut model = UpgradeContextViewModel::new();
    model.handicraft_change_callback(&typed("7"));
    let before = model.signal;
    assert!(!model.handicraft_change_callback(&typed("101")));
    assert!(!model.enhance_mastery_change_callback(&typed("5")));
    assert!(!model.upgrade_salvation_change_callback(&typed("5")));
    assert!(!model.equipment_level_change_callback(&typed("251")));
    assert!(!model.upgradeable_count_change_callback(&typed("0")));
    assert!(!model.upgradeable_count_change_callback(&typed("13")));
    assert!(!model.trace_required_change_callback(&typed("10001")));
    assert!(!model.trace_price_change_callback(&typed("10001")));
    assert!(!model.trace_price_change_callback(&typed("cheap")));
    assert!(!model.trace_price_change_callback(&InputEvent { value: None }));
    assert_eq!(model.signal, before);
    assert_eq!(before.handicraft, Some(7));
}

#[test]
fn view_model_tooltips_read_the_form() {
    let mut model = UpgradeContextViewModel::new();
    assert_eq!(model.handicraft_tooltip(), "성공 확률 0%p 증가");
    assert_eq!(model.enhance_mastery_tooltip(), "성공 확률 0%p 증가");
    assert_eq!(model.upgrade_salvation_tooltip(), "실패 시 0% 확률로 횟수 차감 방지");
    assert_eq!(model.trace_price_tooltip(), "0 메소");
    model.handicraft_change_callback(&typed("47"));
    model.enhance_mastery_change_callback(&typed("3"));
    model.upgrade_salvation_change_callback(&typed("2"));
    model.trace_price_change_callback(&typed("900"));
    assert_eq!(model.handicraft_tooltip(), "성공 확률 4.5%p 증가");
    assert_eq!(model.enhance_mastery_tooltip(), "성공 확률 3%p 증가");
    assert_eq!(model.upgrade_salvation_tooltip(), "실패 시 2% 확률로 횟수 차감 방지");
    assert_eq!(model.trace_price_tooltip(), "900 메소");
}

#[test]
fn join_places_a_separator_between_each_two_parts() {
    assert_eq!(Vec::<u32>::new().join(|| 0), Vec::<u32>::new());
    assert_eq!(vec![5u32].join(|| 0), vec![5]);
    assert_eq!(vec![5u32, 6].join(|| 0), vec![5, 0, 6]);
    assert_eq!(vec![5u32, 6, 7, 8].join(|| 0), vec![5, 0, 6, 0, 7, 0, 8]);
    assert_eq!(
        vec!["a".to_owned(), "b".to_owned()].join(|| "-".to_owned()),
        vec!["a".to_owned(), "-".to_owned(), "b".to_owned()]
    );
}

#[test]
fn join_makes_each_separator_anew() {
    let made = std::cell::Cell::new(0u32);
    let joined = vec![10u32, 20, 30].join(|| {
        made.set(made.get() + 1);
        made.get()
    });
    assert_eq!(joined, vec![10, 1, 20, 2, 30]);
    assert_eq!(made.get(), 2);
}

#[test]
fn theme_collection_lists_the_seven_themes() {
    let collection = ThemeCollection::new();
    let listed: Vec<(&str, &str)> =
        collection.themes.iter().map(|theme| (theme.value, theme.label)).collect();
    assert_eq!(
        listed,
        vec![
            ("default", "자동"),
            ("light", "라이트"),
            ("dark", "다크"),
            ("caramellatte", "카라멜라떼"),
            ("valentine", "발렌타인"),
            ("aqua", "아쿠아"),
            ("synthwave", "신스웨이브"),
        ]
    );
    assert_eq!(collection.clone().themes.len(), 7);
}

#[test]
fn theme_data_hands_out_value_and_name() {
    let data = ThemeData::new(&Theme { value: "dark", label: "다크" });
    assert_eq!(data.value(), "dark");
    assert_eq!(data.name(), "다크");
    let entries = ThemeCollection::new().themes_data();
    assert_eq!(entries.len(), 7);
    assert_eq!(entries[0].value(), "default");
    assert_eq!(entries[0].name(), "자동");
    assert_eq!(entries[6].value(), "synthwave");
    assert_eq!(entries[6].name(), "신스웨이브");
}

#[test]
fn theme_in_force_is_the_stored_one_or_the_default() {
    assert_eq!(THEME_DEFAULT_VALUE, "default");
    let fresh = ThemeViewModel::new(None);
    assert_eq!(fresh.current_theme(), "default");
    assert_eq!(fresh.get_theme(), "default");
    let stored = ThemeViewModel::new(Some("aqua".to_owned()));
    assert_eq!(stored.current_theme(), "aqua");
    assert_eq!(stored.get_theme(), "aqua");
    assert_eq!(stored.theme_collection().themes.len(), 7);
    assert_eq!(stored.themes_data().len(), 7);
    assert_eq!(stored.clone().current_theme(), "aqua");
}

#[test]
fn choosing_a_theme_puts_it_in_force() {
    let mut model = ThemeViewModel::new(None);
    model.set_current_theme("dark");
    assert_eq!(model.current_theme(), "dark");
    assert_eq!(model.theme_change_callback("valentine"), "valentine");
    assert_eq!(model.current_theme(), "valentine");
    assert_eq!(model.theme_collection().themes.len(), 7);
}

#[test]
fn the_menu_checks_the_theme_in_force() {
    let themes = ThemeCollection::new().themes;
    let fresh = ThemeViewModel::new(None);
    let checked: Vec<bool> = themes.iter().map(|theme| fresh.is_checked(theme)).collect();
    assert_eq!(checked, vec![true, false, false, false, false, false, false]);
    let dark = ThemeViewModel::new(Some("dark".to_owned()));
    let checked: Vec<bool> = themes.iter().map(|theme| dark.is_checked(theme)).collect();
    assert_eq!(checked, vec![false, false, true, false, false, false, false]);
    let unknown = ThemeViewModel::new(Some("neon".to_owned()));
    assert!(themes.iter().all(|theme| !unknown.is_checked(theme)));
}

#[test]
fn the_default_is_stored_only_where_nothing_is_stored() {
    assert_eq!(ThemeViewModel::use_theme(None), Some("default"));
    assert_eq!(ThemeViewModel::use_theme(Some("dark")), None);
    assert_eq!(ThemeViewModel::use_theme(Some("")), None);
}

#[test]
fn fetched_levels_fill_the_three_skills() {
    let mut model = UpgradeContextViewModel::new();
    model.trace_price_change_callback(&typed("9"));
    assert!(!model.store_fetched(&Err(BadResponse::TooManyRequests)));
    assert_eq!(model.signal.handicraft, None);
    let levels = ProbabilityContext {
        world_name: "루나".to_owned(),
        handicraft: 100,
        enhance_mastery: 4,
        upgrade_salvation: 3,
    };
    assert!(model.store_fetched(&Ok(levels)));
    assert_eq!(
        model.signal,
        UpgradeContext {
            handicraft: Some(100),
            enhance_mastery: Some(4),
            upgrade_salvation: Some(3),
            equipment_level: None,
            upgradeable_count: None,
            trace_required: None,
            trace_price: Some(9),
        }
    );
}
