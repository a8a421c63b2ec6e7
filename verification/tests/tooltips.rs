use clash_verge::config::{flag_or_off, IconStyle, Locale};
use clash_verge::tooltip::compose_tooltip;

#[test]
fn tooltip_lines() {
    assert_eq!(
        compose_tooltip(Locale::Default, "1.7.5", true, false, &Some(String::from("Work"))),
        "Clash Verge 1.7.5\nSystem Proxy: ON\nTUN Mode: OFF\nCurent Profile: Work"
    );
    assert_eq!(
        compose_tooltip(Locale::Default, "", false, true, &None),
        "Clash Verge \nSystem Proxy: OFF\nTUN Mode: ON\nCurent Profile: None"
    );
    assert_eq!(
        compose_tooltip(Locale::Zh, "2.0.0", true, true, &Some(String::from("家"))),
        "Clash Verge 2.0.0\n系统代理: ON\nTun 模式: ON\n当前订阅: 家"
    );
}

#[test]
fn tooltip_ends_with_profile_name() {
    for name in ["Work", "", "a b\nc"] {
        let text = compose_tooltip(Locale::Default, "1.0.0", false, false, &Some(String::from(name)));
        assert!(text.ends_with(name));
    }
}

#[test]
fn absent_flags_are_off() {
    assert!(!flag_or_off(None));
    assert!(!flag_or_off(Some(false)));
    assert!(flag_or_off(Some(true)));
}

#[test]
fn template_by_style() {
    assert!(IconStyle::Monochrome.as_template());
    assert!(!IconStyle::Colorful.as_template());
}
