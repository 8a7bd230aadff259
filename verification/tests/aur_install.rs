use deploytix::aur::capability::{AurCapability, BuildUser, BuildUserSource};
use deploytix::aur::helper::AurHelper;
use deploytix::aur::install::{
    build_cmd, finish_aur_install, refusal_reason, run_aur_install, shared_files, AurInstallOptions,
    UpdateOptions,
};
use deploytix::aur::scratch::BUILD_ROOT;

fn ready_capability() -> AurCapability {
    AurCapability {
        helpers: vec![AurHelper::Paru],
        helper: Some(AurHelper::Paru),
        build_user: Some(BuildUser {
            name: "deck".into(),
            uid: 1000,
            source: BuildUserSource::Pkexec,
        }),
        base_devel: true,
        blockers: Vec::new(),
    }
}

#[test]
fn the_build_runs_as_the_build_user_not_root() {
    let cmd = build_cmd(AurHelper::Paru, "deck", &vec!["hhd-git".to_string()]);
    assert!(cmd.starts_with("sudo -u deck "), "{cmd}");
}

#[test]
fn the_build_is_pointed_at_the_disk_backed_scratch() {
    let cmd = build_cmd(AurHelper::Yay, "deck", &vec!["hhd-git".to_string()]);
    assert!(
        cmd.contains(&format!("BUILDDIR={}", BUILD_ROOT)),
        "build would land on the chroot tmpfs: {cmd}"
    );
}

#[test]
fn the_build_environment_survives_the_privilege_drop() {
    let cmd = build_cmd(AurHelper::Yay, "deck", &vec!["p".to_string()]);
    let sudo_at = cmd.find("sudo -u").unwrap();
    let env_at = cmd.find("BUILDDIR=").unwrap();
    assert!(
        env_at > sudo_at,
        "sudo would discard the environment: {cmd}"
    );
}

#[test]
fn a_root_run_helper_is_not_wrapped_in_sudo() {
    let cmd = build_cmd(AurHelper::Aura, "deck", &vec!["p".to_string()]);
    assert!(!cmd.contains("sudo"), "{cmd}");
}

#[test]
fn a_ready_system_on_btrfs_is_not_refused() {
    assert!(refusal_reason(&ready_capability(), false).is_none());
}

#[test]
fn the_lvm_ab_backend_is_refused_even_when_everything_else_is_ready() {
    let reason = refusal_reason(&ready_capability(), true).expect("must refuse");
    assert!(reason.contains("LVM A/B"), "{reason}");
}

#[test]
fn a_missing_prerequisite_is_reported_as_the_refusal() {
    let cap = AurCapability::default();
    let reason = refusal_reason(&cap, false).expect("must refuse");
    assert!(!reason.is_empty());
}

#[test]
fn an_empty_package_list_is_rejected_before_any_snapshot() {
    let err = match run_aur_install(&ready_capability(), &vec![], false, "/mnt/set", true) {
        Err(e) => e,
        Ok(_) => panic!("an empty list was accepted"),
    };
    assert!(err.to_text().contains("no AUR packages"));
}

#[test]
fn defaults_match_the_update_transaction() {
    let update = UpdateOptions { keep_sets: 3, reboot: false };
    assert_eq!(AurInstallOptions::like_update(update).keep_sets, update.keep_sets);
    assert!(!AurInstallOptions::like_update(update).reboot);
}

#[test]
fn a_build_passes_its_options_on_to_the_transaction() {
    let update = UpdateOptions { keep_sets: 7, reboot: true };
    assert_eq!(AurInstallOptions::like_update(update).to_update(), update);
}

#[test]
fn a_set_with_shared_state_is_not_put_to_use() {
    let err = match finish_aur_install(&vec!["/var/lib/x".to_string()], "/mnt/set") {
        Err(e) => e,
        Ok(_) => panic!("shared state was accepted"),
    };
    assert!(err.to_text().contains("/var/lib/x"));
    assert_eq!(finish_aur_install(&vec![], "/mnt/set").ok().map(|v| v.len()), Some(1));
}

#[test]
fn files_that_all_sets_share_are_told_apart() {
    let listing = "/usr/bin/foo\n/boot/vmlinuz-x\n/bootstrap\n/usr/lib/modules/6.1/vmlinuz\n\
                   /usr/lib/initcpio/hooks/x\n/usr/bin/cryptsetup\n";
    assert_eq!(
        shared_files(listing, false),
        vec!["/boot/vmlinuz-x", "/usr/lib/modules/6.1/vmlinuz"]
    );
    assert_eq!(shared_files(listing, true).len(), 4);
    assert!(finish_aur_install(&shared_files(listing, false), "/mnt").is_err());
}
