use deploytix::aur::helper::{detect_cmd, parse_detected, preferred, AurHelper};

#[test]
fn paru_outranks_yay() {
    assert_eq!(
        preferred(&vec![AurHelper::Yay, AurHelper::Paru]),
        Some(AurHelper::Paru)
    );
}

#[test]
fn preference_is_independent_of_detection_order() {
    let a = preferred(&vec![AurHelper::Trizen, AurHelper::Yay]);
    let b = preferred(&vec![AurHelper::Yay, AurHelper::Trizen]);
    assert_eq!(a, b);
    assert_eq!(a, Some(AurHelper::Yay));
}

#[test]
fn no_helpers_means_none() {
    assert_eq!(preferred(&vec![]), None);
}

#[test]
fn only_aura_runs_as_root() {
    for h in AurHelper::all() {
        assert_eq!(h.runs_as_root(), h == AurHelper::Aura, "{}", h.to_text());
    }
}

#[test]
fn unprivileged_helpers_drop_privileges_and_keep_the_environment() {
    let pkgs = vec!["hhd-git".to_string()];
    let cmd = AurHelper::Yay.install_cmd("deck", "BUILDDIR=/var/x ", &pkgs);
    assert!(cmd.starts_with("sudo -u deck env "), "got: {cmd}");
    let sudo_at = cmd.find("sudo -u").unwrap();
    let env_at = cmd.find("BUILDDIR=").unwrap();
    assert!(
        env_at > sudo_at,
        "env prefix escaped the privilege drop: {cmd}"
    );
}

#[test]
fn aura_does_not_drop_privileges_and_uses_its_own_flag() {
    let pkgs = vec!["hhd-git".to_string()];
    let cmd = AurHelper::Aura.install_cmd("deck", "BUILDDIR=/var/x ", &pkgs);
    assert!(!cmd.contains("sudo"), "aura must run as root: {cmd}");
    assert!(cmd.contains("aura -A"), "got: {cmd}");
}

#[test]
fn needed_only_where_supported() {
    let pkgs = vec!["p".to_string()];
    assert!(AurHelper::Yay
        .install_cmd("u", "", &pkgs)
        .contains("--needed"));
    assert!(AurHelper::Paru
        .install_cmd("u", "", &pkgs)
        .contains("--needed"));
    assert!(!AurHelper::Trizen
        .install_cmd("u", "", &pkgs)
        .contains("--needed"));
    assert!(!AurHelper::Aura
        .install_cmd("u", "", &pkgs)
        .contains("--needed"));
}

#[test]
fn every_helper_is_noninteractive() {
    let pkgs = vec!["p".to_string()];
    for h in AurHelper::all() {
        assert!(
            h.install_cmd("u", "", &pkgs).contains("--noconfirm"),
            "{} would block waiting for input",
            h.to_text()
        );
    }
}

#[test]
fn all_targets_reach_the_command() {
    let pkgs = vec!["a".to_string(), "b".to_string(), "c".to_string()];
    let cmd = AurHelper::Paru.install_cmd("u", "", &pkgs);
    for p in &pkgs {
        assert!(cmd.contains(p.as_str()), "{p} missing from {cmd}");
    }
}

#[test]
fn detect_cmd_probes_every_helper_under_the_root() {
    let sh = detect_cmd("/run/deploytix-update/123");
    for h in AurHelper::all() {
        assert!(
            sh.contains(&h.path_in("/run/deploytix-update/123")),
            "{} not probed",
            h.to_text()
        );
    }
    assert!(sh.ends_with("; true"));
}

#[test]
fn detect_cmd_on_live_system_uses_absolute_paths() {
    assert!(detect_cmd("").contains("/usr/bin/yay"));
}

#[test]
fn parse_ignores_noise_and_orders_by_preference() {
    let out = "yay\nwarning: something\nparu\n\n";
    assert_eq!(parse_detected(out), vec![AurHelper::Paru, AurHelper::Yay]);
}

#[test]
fn parse_deduplicates() {
    assert_eq!(parse_detected("yay\nyay\n"), vec![AurHelper::Yay]);
}

#[test]
fn parse_empty_is_empty() {
    assert!(parse_detected("").is_empty());
    assert!(parse_detected("\n \n").is_empty());
}
