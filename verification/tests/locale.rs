use deploytix::config::model::DeploymentConfig;
use deploytix::configure::locale::{
    configure_locale, create_dinit_keymap_service, enable_locale_in_gen, locale_charset,
    locale_gen_line_matches,
};
use deploytix::plan::Step;

#[test]
fn charset_from_locale_name() {
    assert_eq!(locale_charset("en_US.UTF-8"), "UTF-8");
    assert_eq!(locale_charset("C.UTF-8"), "UTF-8");
    assert_eq!(locale_charset("en_US"), "UTF-8");
}

#[test]
fn uncomment_stock_commented_en_us() {
    let stock = "\
#aa_DJ.UTF-8 UTF-8  \n\
#en_US.UTF-8 UTF-8  \n\
#en_US ISO-8859-1  \n\
#fr_FR.UTF-8 UTF-8  \n";
    let out = enable_locale_in_gen(stock, "en_US.UTF-8");
    assert!(
        out.lines().any(|l| l.trim() == "en_US.UTF-8 UTF-8"),
        "en_US.UTF-8 must be uncommented:\n{out}"
    );
    assert!(
        !out.lines().any(|l| {
            let t = l.trim();
            t.starts_with('#') && t.contains("en_US.UTF-8")
        }),
        "commented en_US.UTF-8 must not remain:\n{out}"
    );
    assert!(out.contains("#fr_FR.UTF-8 UTF-8"));
    assert!(out.contains("#en_US ISO-8859-1"));
    assert_eq!(
        out.lines()
            .filter(|l| l.split_whitespace().next() == Some("en_US.UTF-8"))
            .count(),
        1
    );
}

#[test]
fn already_enabled_is_idempotent() {
    let on = "en_US.UTF-8 UTF-8\n#fr_FR.UTF-8 UTF-8\n";
    let out = enable_locale_in_gen(on, "en_US.UTF-8");
    assert_eq!(
        out.lines()
            .filter(|l| l.split_whitespace().next() == Some("en_US.UTF-8"))
            .count(),
        1
    );
    assert!(out.contains("en_US.UTF-8 UTF-8"));
}

#[test]
fn missing_locale_is_appended() {
    let sparse = "#fr_FR.UTF-8 UTF-8\n";
    let out = enable_locale_in_gen(sparse, "en_US.UTF-8");
    assert!(out.contains("#fr_FR.UTF-8 UTF-8"));
    assert!(
        out.lines().any(|l| l.trim() == "en_US.UTF-8 UTF-8"),
        "missing locale must be appended:\n{out}"
    );
}

#[test]
fn empty_file_gets_entry() {
    let out = enable_locale_in_gen("", "en_US.UTF-8");
    assert_eq!(out, "en_US.UTF-8 UTF-8\n");
}

#[test]
fn set_locale_writes_gen_and_conf_before_locale_gen() {
    let mut cfg = DeploymentConfig::sample();
    cfg.system.locale = "en_US.UTF-8".to_string();
    let steps = configure_locale(
        &cfg,
        "#en_US.UTF-8 UTF-8  \n#de_DE.UTF-8 UTF-8\n",
        "/mnt",
        false,
    );
    let position = |wanted: &str| {
        steps
            .iter()
            .position(|s| match s {
                Step::Write { path, .. } => path == wanted,
                Step::Chroot { command, .. } => command == wanted,
                _ => false,
            })
            .unwrap_or_else(|| panic!("{wanted} is missing"))
    };
    let content = |wanted: &str| match &steps[position(wanted)] {
        Step::Write { content, .. } => content.clone(),
        _ => unreachable!(),
    };
    let gen = content("/mnt/etc/locale.gen");
    assert!(gen.lines().any(|l| l.trim() == "en_US.UTF-8 UTF-8"));
    assert!(!gen.contains("#en_US.UTF-8"));
    assert_eq!(content("/mnt/etc/locale.conf"), "LANG=en_US.UTF-8\n");
    assert!(position("/mnt/etc/locale.gen") < position("/bin/locale-gen"));
    assert!(position("/mnt/etc/locale.conf") < position("/bin/locale-gen"));
}

#[test]
fn an_entry_is_a_locale_and_its_charset() {
    assert!(locale_gen_line_matches("en_US.UTF-8 UTF-8", "en_US.UTF-8"));
    assert!(!locale_gen_line_matches("en_US ISO-8859-1", "en_US.UTF-8"));
}

#[test]
fn dinit_loads_the_keymap_at_boot() {
    let steps = create_dinit_keymap_service("/mnt", "de");
    assert!(steps.iter().any(|s| matches!(s,
        Step::Write { path, content, .. }
            if path == "/mnt/usr/local/bin/loadkeys-boot" && content == "#!/bin/sh\nloadkeys de\n")));
}

#[test]
fn enabling_a_locale_twice_changes_nothing() {
    let stock = "# languages\n#en_US.UTF-8 UTF-8  \n#en_US ISO-8859-1\n";
    let once = enable_locale_in_gen(stock, "en_US.UTF-8");
    assert_eq!(once, "# languages\nen_US.UTF-8 UTF-8\n#en_US ISO-8859-1\n");
    assert_eq!(enable_locale_in_gen(&once, "en_US.UTF-8"), once);
}
