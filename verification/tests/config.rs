use deploytix::config::model::{tkg_fallback_urls, CustomPartitionEntry, DeploymentConfig};
use deploytix::config::options::{Filesystem, NetworkBackend, SecureBootMethod, SwapType, TkgScheduler};
use deploytix::config::rules::HostFacts;
use deploytix::error::DeploytixError;

fn lvm_ab_config() -> DeploymentConfig {
    let mut c = DeploymentConfig::sample();
    c.disk.use_lvm_thin = true;
    c.disk.use_subvolumes = false;
    c.packages.install_grub_btrfs = false;
    c.packages.immutable_root = true;
    c.packages.install_yay = true; // iwd backend needs yay
    c
}

#[test]
fn backend_selectors_are_mutually_exclusive() {
    let ab = lvm_ab_config();
    assert!(ab.immutable_lvm_ab());
    assert!(!ab.immutable_btrfs());

    let mut btrfs = DeploymentConfig::sample();
    btrfs.disk.use_subvolumes = true;
    btrfs.packages.install_grub_btrfs = true;
    btrfs.packages.immutable_root = true;
    assert!(btrfs.immutable_btrfs());
    assert!(!btrfs.immutable_lvm_ab());
}

#[test]
fn immutable_requires_a_backend() {
    let mut c = DeploymentConfig::sample();
    c.packages.immutable_root = true;
    c.packages.install_grub_btrfs = false;
    c.disk.use_lvm_thin = false;
    let err = c.validate_immutable_backend().unwrap_err().to_text();
    assert!(err.contains("immutable_root requires"), "got: {err}");
}

#[test]
fn lvm_ab_backend_rules_pass() {
    assert!(lvm_ab_config().validate_immutable_backend().is_ok());
}

#[test]
fn hibernation_onto_zram_only_is_refused() {
    let mut c = DeploymentConfig::sample();
    c.system.hibernation = true;
    c.disk.swap_type = SwapType::ZramOnly;
    let err = c.validate_hibernation().unwrap_err().to_text();
    assert!(err.contains("zram_only"), "got: {err}");
}

#[test]
fn hibernation_is_allowed_with_real_swap_including_immutable_roots() {
    for swap in [SwapType::Partition, SwapType::FileZram] {
        for immutable in [false, true] {
            let mut c = DeploymentConfig::sample();
            c.system.hibernation = true;
            c.disk.swap_type = swap.clone();
            c.packages.immutable_root = immutable;
            assert!(
                c.validate_hibernation().is_ok(),
                "{swap:?} + immutable_root={immutable} must be allowed"
            );
        }
    }
    let mut ab = lvm_ab_config();
    ab.system.hibernation = true;
    ab.disk.swap_type = SwapType::Partition;
    assert!(ab.validate_hibernation().is_ok());
}

#[test]
fn zram_only_is_fine_when_nobody_hibernates() {
    let mut c = DeploymentConfig::sample();
    c.system.hibernation = false;
    c.disk.swap_type = SwapType::ZramOnly;
    assert!(c.validate_hibernation().is_ok());
}

#[test]
fn lvm_ab_rejected_with_sbctl_secureboot_on_encrypted_disk() {
    let mut c = lvm_ab_config();
    c.disk.encryption = true;
    c.disk.encryption_password = Some("pw".into());
    c.system.secureboot = true;
    c.system.secureboot_method = SecureBootMethod::Sbctl;
    let err = c.validate_immutable_backend().unwrap_err().to_text();
    assert!(err.contains("sbctl SecureBoot"), "got: {err}");
}

#[test]
fn lvm_ab_allowed_with_non_sbctl_secureboot() {
    let mut c = lvm_ab_config();
    c.disk.encryption = true;
    c.disk.encryption_password = Some("pw".into());
    c.system.secureboot = true;
    c.system.secureboot_method = SecureBootMethod::ManualKeys;
    assert!(c.validate_immutable_backend().is_ok());
}

#[test]
fn effective_label_uses_explicit_label_when_set() {
    let p = CustomPartitionEntry {
        mount_point: "/data".into(),
        size_mib: 0,
        label: Some("MYDATA".into()),
        encryption: None,
    };
    assert_eq!(p.effective_label(), "MYDATA");
}

#[test]
fn effective_label_root_returns_root_constant() {
    let p = CustomPartitionEntry {
        mount_point: "/".into(),
        size_mib: 0,
        label: None,
        encryption: None,
    };
    assert_eq!(p.effective_label(), "ROOT");
}

#[test]
fn effective_label_derives_uppercase_from_last_path_component() {
    let cases = [
        ("/home", "HOME"),
        ("/var", "VAR"),
        ("/var/log", "LOG"),
        ("/opt/data", "DATA"),
    ];
    for (mount, expected) in cases {
        let p = CustomPartitionEntry {
            mount_point: mount.into(),
            size_mib: 0,
            label: None,
            encryption: None,
        };
        assert_eq!(
            p.effective_label(),
            expected,
            "wrong label for mount_point='{}'",
            mount
        );
    }
}

#[test]
fn is_encrypted_inherits_global_when_none() {
    let p = CustomPartitionEntry {
        mount_point: "/data".into(),
        size_mib: 0,
        label: None,
        encryption: None,
    };
    assert!(p.is_encrypted(true), "should inherit global=true");
    assert!(!p.is_encrypted(false), "should inherit global=false");
}

#[test]
fn is_encrypted_overrides_global_when_explicitly_set() {
    let force_on = CustomPartitionEntry {
        mount_point: "/data".into(),
        size_mib: 0,
        label: None,
        encryption: Some(true),
    };
    assert!(
        force_on.is_encrypted(false),
        "explicit true overrides global false"
    );

    let force_off = CustomPartitionEntry {
        mount_point: "/data".into(),
        size_mib: 0,
        label: None,
        encryption: Some(false),
    };
    assert!(
        !force_off.is_encrypted(true),
        "explicit false overrides global true"
    );
}

#[test]
fn the_tkg_kernel_is_rejected_on_zfs() {
    for fs in [Filesystem::Zfs, Filesystem::Btrfs] {
        for boot_fs in [Filesystem::Zfs, Filesystem::Ext4] {
            let mut cfg = DeploymentConfig::sample();
            cfg.packages.install_tkg_kernel = true;
            cfg.disk.filesystem = fs.clone();
            cfg.disk.boot_filesystem = boot_fs.clone();

            let conflict = cfg.tkg_kernel_conflict();
            if fs == Filesystem::Zfs || boot_fs == Filesystem::Zfs {
                let msg = conflict.unwrap_or_else(|| {
                    panic!("tkg + zfs ({fs:?}/{boot_fs:?}) must be rejected")
                });
                assert!(msg.contains("zfs-linux-tkg"), "{msg}");
            } else {
                assert!(conflict.is_none(), "{conflict:?}");
            }
        }
    }
}

#[test]
fn zfs_is_fine_without_the_tkg_kernel() {
    let mut cfg = DeploymentConfig::sample();
    cfg.packages.install_tkg_kernel = false;
    cfg.disk.filesystem = Filesystem::Zfs;
    assert!(cfg.tkg_kernel_conflict().is_none());
}

#[test]
fn game_mode_without_preseeded_wifi_warns() {
    let mut cfg = DeploymentConfig::sample();
    cfg.packages.install_session_switching = true;
    cfg.network.wifi_ssid = None;
    assert!(cfg
        .warnings()
        .iter()
        .any(|w| w.contains("no Wi-Fi network is pre-seeded")));
}

#[test]
fn game_mode_with_preseeded_wifi_is_quiet() {
    let mut cfg = DeploymentConfig::sample();
    cfg.packages.install_session_switching = true;
    cfg.network.wifi_ssid = Some("home".to_string());
    assert!(cfg.warnings().is_empty());
}

#[test]
fn no_game_mode_needs_no_wifi_warning() {
    let mut cfg = DeploymentConfig::sample();
    cfg.packages.install_session_switching = false;
    cfg.network.wifi_ssid = None;
    assert!(cfg.warnings().is_empty());
}

#[test]
fn the_fstab_skip_applies_only_to_the_btrfs_immutable_backend() {
    let mut cfg = DeploymentConfig::sample();

    cfg.packages.immutable_root = false;
    cfg.packages.install_grub_btrfs = false;
    assert!(!cfg.immutable_btrfs(), "a plain install lists all three");

    cfg.packages.install_grub_btrfs = true;
    assert!(!cfg.immutable_btrfs(), "btrfs alone is not immutable");

    cfg.packages.immutable_root = true;
    cfg.packages.install_grub_btrfs = false;
    cfg.disk.use_lvm_thin = true;
    assert!(!cfg.immutable_btrfs(), "the A/B backend has its own fstab");
    assert!(cfg.immutable_lvm_ab());

    cfg.disk.use_lvm_thin = false;
    cfg.packages.install_grub_btrfs = true;
    assert!(
        cfg.immutable_btrfs(),
        "both options together, and only then"
    );
}

fn recovery_config() -> DeploymentConfig {
    let mut cfg = DeploymentConfig::sample();
    cfg.disk.encryption = true;
    cfg.disk.recovery.reuse_home = true;
    cfg.disk.recovery.allow_passphrase_fallback = true;
    cfg.disk.recovery.home_keyfile = None;
    cfg
}

#[test]
fn recovery_accepts_a_layout_with_a_home_partition() {
    let cfg = recovery_config();
    assert!(cfg.validate_recovery(&cfg.disk.partitions, false).is_ok());
}

#[test]
fn recovery_requires_a_home_partition_to_adopt_into() {
    let mut cfg = recovery_config();
    cfg.disk.partitions.retain(|p| p.mount_point != "/home");
    let err = cfg
        .validate_recovery(&cfg.disk.partitions, false)
        .unwrap_err()
        .to_text();
    assert!(err.contains("/home entry"), "unexpected error: {}", err);
}

#[test]
fn recovery_is_refused_for_lvm_thin() {
    let mut cfg = recovery_config();
    cfg.disk.use_lvm_thin = true;
    let err = cfg
        .validate_recovery(&cfg.disk.partitions, false)
        .unwrap_err()
        .to_text();
    assert!(err.contains("use_lvm_thin"), "unexpected error: {}", err);
}

#[test]
fn recovery_on_an_encrypted_disk_needs_a_credential() {
    let mut cfg = recovery_config();
    cfg.disk.recovery.allow_passphrase_fallback = false;
    let err = cfg
        .validate_recovery(&cfg.disk.partitions, false)
        .unwrap_err()
        .to_text();
    assert!(err.contains("home_keyfile"), "unexpected error: {}", err);
}

#[test]
fn a_missing_keyfile_is_rejected_at_validation_time() {
    let mut cfg = recovery_config();
    cfg.disk.recovery.home_keyfile = Some("/nonexistent/home.key".to_string());
    let err = cfg
        .validate_recovery(&cfg.disk.partitions, false)
        .unwrap_err()
        .to_text();
    assert!(err.contains("does not exist"), "unexpected error: {}", err);
}

#[test]
fn a_keyfile_without_reuse_home_is_refused() {
    let mut cfg = recovery_config();
    cfg.disk.recovery.reuse_home = false;
    cfg.disk.recovery.home_keyfile = Some("/tmp/good.key".to_string());
    let err = cfg
        .validate_recovery(&cfg.disk.partitions, false)
        .unwrap_err()
        .to_text();
    assert!(
        err.contains("reuse_home is false"),
        "unexpected error: {}",
        err
    );
}

#[test]
fn an_ordinary_config_passes_recovery_validation_untouched() {
    let cfg = DeploymentConfig::sample();
    assert!(!cfg.disk.recovery.reuse_home);
    assert!(cfg.validate_recovery(&cfg.disk.partitions, false).is_ok());
}

fn host(exists: bool, block: bool) -> HostFacts {
    HostFacts { device_exists: exists, device_is_block: block, home_keyfile_is_file: false }
}

#[test]
fn the_device_is_looked_at_first() {
    let cfg = DeploymentConfig::sample();
    assert!(matches!(
        cfg.validate(&host(false, false)),
        Err(DeploytixError::DeviceNotFound(d)) if d == cfg.disk.device
    ));
    assert!(matches!(
        cfg.validate(&host(true, false)),
        Err(DeploytixError::NotBlockDevice(d)) if d == cfg.disk.device
    ));
}

#[test]
fn a_broken_rule_is_reported_in_its_words() {
    let mut cfg = DeploymentConfig::sample();
    cfg.user.name = String::new();
    let e = cfg.validate(&host(true, true)).unwrap_err();
    assert_eq!(e.to_text(), "Username cannot be empty");

    let mut cfg = DeploymentConfig::sample();
    cfg.user.name = "a b".to_string();
    let e = cfg.validate(&host(true, true)).unwrap_err();
    assert_eq!(e.to_text(), "Username cannot contain spaces");
}

#[test]
fn a_sound_configuration_passes_every_rule() {
    let mut cfg = DeploymentConfig::sample();
    cfg.packages.install_yay = true;
    if let Err(e) = cfg.validate(&host(true, true)) {
        panic!("{}", e.to_text());
    }
}

#[test]
fn the_browser_needs_the_helper_that_builds_it() {
    let mut cfg = DeploymentConfig::sample();
    cfg.network.backend = NetworkBackend::NetworkManager;
    cfg.packages.install_yay = false;
    cfg.packages.install_zen_browser = true;
    let e = cfg.validate(&host(true, true)).unwrap_err();
    assert_eq!(
        e.to_text(),
        "Zen Browser requires install_yay = true (AUR package: zen-browser-bin)"
    );
    cfg.packages.install_yay = true;
    assert!(cfg.validate(&host(true, true)).is_ok());
}

#[test]
fn the_fallback_kernel_has_two_packages() {
    assert_eq!(
        tkg_fallback_urls(TkgScheduler::Bore),
        (
            "https://github.com/Frogging-Family/linux-tkg/releases/download/v7.2.3/linux72-tkg-bore-llvm-7.2.3-273-x86_64.pkg.tar.zst".to_string(),
            "https://github.com/Frogging-Family/linux-tkg/releases/download/v7.2.3/linux72-tkg-bore-llvm-headers-7.2.3-273-x86_64.pkg.tar.zst".to_string(),
        )
    );
}

#[test]
fn an_immutable_root_refuses_two_backends() {
    let mut c = DeploymentConfig::sample();
    c.packages.immutable_root = true;
    c.packages.install_grub_btrfs = true;
    c.disk.use_lvm_thin = true;
    let err = c.validate_immutable_backend().unwrap_err();
    assert!(matches!(err, DeploytixError::ValidationError(_)));
    assert!(err.to_text().contains("exactly one backend"));
    c.packages.immutable_root = false;
    assert!(c.validate_immutable_backend().is_ok());
}
