use deploytix::config::model::DeploymentConfig;
use deploytix::configure::handheld_quirks::{
    decide, detect_host_model, install, model_for_dmi, HandheldModel, QuirkDecision,
    CONTROLLER_RULES, RULES_PATH,
};
use deploytix::plan::Step;

fn config_with(flag: Option<bool>) -> DeploymentConfig {
    let mut config = DeploymentConfig::sample();
    config.packages.handheld_controller_quirks = flag;
    config
}

#[test]
fn dmi_lookup_covers_the_legion_go_family() {
    assert_eq!(model_for_dmi("83E1"), Some(HandheldModel::LegionGo));
    assert_eq!(model_for_dmi("83N0"), Some(HandheldModel::LegionGo2));
    assert_eq!(model_for_dmi("83N1"), Some(HandheldModel::LegionGo2));
    assert_eq!(model_for_dmi("83L3"), Some(HandheldModel::LegionGoS));
    assert_eq!(model_for_dmi("83N6"), Some(HandheldModel::LegionGoS));
    assert_eq!(model_for_dmi("83Q2"), Some(HandheldModel::LegionGoS));
    assert_eq!(model_for_dmi("83Q3"), Some(HandheldModel::LegionGoS));
}

#[test]
fn dmi_lookup_tolerates_whitespace_and_case() {
    assert_eq!(model_for_dmi("83N0\n"), Some(HandheldModel::LegionGo2));
    assert_eq!(model_for_dmi("  83n0  "), Some(HandheldModel::LegionGo2));
}

#[test]
fn dmi_lookup_ignores_other_machines() {
    assert_eq!(model_for_dmi("20XW"), None);
    assert_eq!(model_for_dmi(""), None);
    assert_eq!(model_for_dmi("83N"), None);
    assert_eq!(model_for_dmi("83N00"), None);
}

#[test]
fn an_explicit_false_always_skips() {
    assert_eq!(decide(&config_with(Some(false)), Some(HandheldModel::LegionGo)), QuirkDecision::Skip);
}

#[test]
fn an_explicit_true_always_installs() {
    assert!(matches!(
        decide(&config_with(Some(true)), None),
        QuirkDecision::Install(_)
    ));
}

#[test]
fn rules_match_the_legion_product_range_not_fixed_ids() {
    assert_eq!(CONTROLLER_RULES.matches(r#"=="61??""#).count(), 4);
    assert!(!CONTROLLER_RULES.contains(r#"idProduct=="6182""#));
    assert!(!CONTROLLER_RULES.contains(r#"idProduct=="618*""#));
}

#[test]
fn rules_disable_runtime_suspend_and_bind_xpad() {
    assert!(CONTROLLER_RULES.contains(r#"ATTR{power/control}="on""#));
    assert!(CONTROLLER_RULES.contains(r#"ATTR{power/autosuspend_delay_ms}="-1""#));
    assert!(CONTROLLER_RULES.contains("/sys/bus/usb/drivers/xpad/new_id"));
    assert!(CONTROLLER_RULES.contains("|| true"));
}

#[test]
fn devtype_is_matched_through_env() {
    assert!(CONTROLLER_RULES.contains(r#"ENV{DEVTYPE}=="usb_device""#));
    assert!(!CONTROLLER_RULES.contains(r#", DEVTYPE=="#));
}

#[test]
fn the_goto_has_a_matching_label() {
    assert!(CONTROLLER_RULES.contains(r#"GOTO="deploytix_handheld_end""#));
    assert!(CONTROLLER_RULES.contains(r#"LABEL="deploytix_handheld_end""#));
}

#[test]
fn the_default_follows_host_detection() {
    for product in [Some("83N0\n"), Some("20XW"), None] {
        let host = detect_host_model(product);
        let expected = match host {
            Some(model) => QuirkDecision::Install(Some(model)),
            None => QuirkDecision::Skip,
        };
        assert_eq!(decide(&config_with(None), host), expected);
    }
}

#[test]
fn install_writes_the_rule_into_the_target_root() {
    let steps = install(&config_with(Some(true)), None, "/mnt", false);
    let written: Vec<(&str, &str, Option<u32>)> = steps
        .iter()
        .filter_map(|s| match s {
            Step::Write { path, content, mode } => Some((path.as_str(), content.as_str(), *mode)),
            _ => None,
        })
        .collect();
    assert_eq!(
        written,
        vec![(format!("/mnt/{}", RULES_PATH).as_str(), CONTROLLER_RULES, Some(0o644))]
    );
}

#[test]
fn install_writes_nothing_when_disabled() {
    let steps = install(&config_with(Some(false)), None, "/mnt", false);
    assert!(!steps.iter().any(|s| matches!(s, Step::Write { .. })));
}
