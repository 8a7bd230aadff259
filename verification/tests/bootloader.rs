use deploytix::config::model::DeploymentConfig;
use deploytix::config::options::SecureBootMethod;
use deploytix::configure::bootloader::{
    create_efi_boot_entry, create_grub_btrfs_compat, grub_route, install_bootloader,
    install_bootloader_with_layout, swap_device, uses_standalone_grub, uuid_query, BootFacts,
    Route, UuidQuery,
};
use deploytix::disk::{ComputedLayout, PartitionDef, StorageNames};
use deploytix::error::DeploytixError;
use deploytix::plan::Step;

fn written(steps: &[Step], wanted: &str) -> Option<(String, Option<u32>)> {
    steps.iter().find_map(|s| match s {
        Step::Write { path, content, mode } if path == wanted => Some((content.clone(), *mode)),
        _ => None,
    })
}

fn mode_of(steps: &[Step], wanted: &str) -> Option<u32> {
    let set = steps.iter().find_map(|s| match s {
        Step::SetMode { path, mode } if path == wanted => Some(*mode),
        _ => None,
    });
    set.or(written(steps, wanted).and_then(|(_, mode)| mode))
}

#[test]
fn uses_standalone_grub_requires_sbctl_secureboot_and_encryption() {
    let mut cfg = DeploymentConfig::sample();
    cfg.system.secureboot = true;
    cfg.system.secureboot_method = SecureBootMethod::Sbctl;
    cfg.disk.encryption = true;
    assert!(uses_standalone_grub(&cfg));

    cfg.disk.encryption = false;
    assert!(!uses_standalone_grub(&cfg));

    cfg.disk.encryption = true;
    cfg.system.secureboot = false;
    assert!(!uses_standalone_grub(&cfg));

    cfg.system.secureboot = true;
    cfg.system.secureboot_method = SecureBootMethod::Shim;
    assert!(!uses_standalone_grub(&cfg));
}

#[test]
fn grub_btrfs_compat_creates_patch_script_and_hook() {
    let mut cfg = DeploymentConfig::sample();
    cfg.disk.encryption = true;
    cfg.disk.boot_encryption = false;

    let steps = create_grub_btrfs_compat(&cfg, None, "/mnt", false);

    let script_path = "/mnt/usr/local/bin/patch-grub-btrfs-integrity";
    let (script, _) = written(&steps, script_path).expect("a script");
    assert!(script.contains("DEPLOYTIX-INTEGRITY-PATCH-V1"));
    assert!(
        script.contains(r#"CRYPTODISK="false""#),
        "Unencrypted /boot must disable the grub-btrfs cryptodisk branch"
    );
    assert!(
        script.contains(r#"BOOT_LUKS_UUID="""#),
        "Unencrypted /boot must leave the crypt_source fallback inert"
    );
    assert!(
        script.contains(r#"|| blkid -s UUID -o value "${root_device}""#),
        "root_uuid must gain a blkid fallback"
    );
    let mode = mode_of(&steps, script_path).expect("permissions");
    assert_eq!(mode & 0o111, 0o111, "patch script must be executable");

    let (hook, _) =
        written(&steps, "/mnt/etc/pacman.d/hooks/91-patch-grub-btrfs.hook").expect("a hook");
    assert!(hook.contains("Target = etc/grub.d/41_snapshots-btrfs"));
    assert!(hook.contains("Depends = grub-btrfs"));
}

#[test]
fn grub_btrfs_compat_enables_cryptodisk_for_encrypted_boot() {
    let mut cfg = DeploymentConfig::sample();
    cfg.disk.encryption = true;
    cfg.disk.boot_encryption = true;

    const BOOT_UUID: &str = "11111111-2222-3333-4444-555555555555";
    let steps = create_grub_btrfs_compat(&cfg, Some(BOOT_UUID), "/mnt", false);

    let (script, _) =
        written(&steps, "/mnt/usr/local/bin/patch-grub-btrfs-integrity").expect("a script");
    assert!(
        script.contains(r#"CRYPTODISK="true""#),
        "Encrypted /boot requires the grub-btrfs cryptodisk branch"
    );
    assert!(
        script.contains(&format!(r#"BOOT_LUKS_UUID="{}""#, BOOT_UUID)),
        "Encrypted /boot must pin the boot container UUID"
    );
    assert!(
        script.contains("DEPLOYTIX-CRYPTSOURCE-V1"),
        "crypt_source fallback must carry its idempotence marker"
    );
    assert!(
        script.contains(r#"crypt_source=\"\${crypt_source:-UUID=$BOOT_LUKS_UUID}\""#),
        "fallback must default crypt_source without clobbering the extraction"
    );
}

#[test]
fn no_boot_entry_is_made_where_the_firmware_is_out_of_reach() {
    let steps = create_efi_boot_entry("/dev/sda", 1, "Artix", false, false);
    assert!(!steps
        .iter()
        .any(|s| matches!(s, Step::Run { .. } | Step::RunAs { .. } | Step::TryRun { .. })));
}

fn partition(number: u32, mount: Option<&str>, luks: bool, swap: bool) -> PartitionDef {
    PartitionDef {
        number,
        name: format!("P{number}"),
        size_mib: 1024,
        type_guid: String::new(),
        mount_point: mount.map(|m| m.to_string()),
        is_swap: swap,
        is_efi: false,
        is_luks: luks,
        is_bios_boot: false,
        is_boot_fs: false,
        attributes: None,
        subvolume_name: None,
        pinned: None,
    }
}

fn layout(partitions: Vec<PartitionDef>) -> ComputedLayout {
    ComputedLayout {
        partitions,
        total_mib: 100_000,
        subvolumes: None,
        planned_thin_volumes: None,
    }
}

fn names() -> StorageNames {
    StorageNames {
        verity_mapper: "verity-root".into(),
        zfs_root_dataset: "rpool/ROOT".into(),
        root_a: "root_a".into(),
        root_b: "root_b".into(),
        hash_a: "hash_a".into(),
        hash_b: "hash_b".into(),
        etc_overlay: "etc_overlay".into(),
    }
}

fn facts() -> BootFacts {
    BootFacts {
        uuid: "1111-2222".into(),
        swap_uuid: "3333-4444".into(),
        efivars_usable: true,
    }
}

fn config_error(r: Result<Route, DeploytixError>) -> String {
    match r {
        Err(DeploytixError::ConfigError(m)) => m,
        _ => panic!("no configuration error"),
    }
}

#[test]
fn each_system_has_its_route() {
    let mut cfg = DeploymentConfig::sample();
    cfg.disk.encryption = false;
    cfg.disk.use_lvm_thin = false;
    let plain = layout(vec![
        partition(1, None, false, true),
        partition(2, Some("/"), false, false),
    ]);
    let route = grub_route(&cfg, &plain).unwrap();
    assert_eq!(route, Route::Plain(2));
    assert!(matches!(
        uuid_query(&cfg, "/dev/nvme0n1", route),
        UuidQuery::Filesystem(d) if d == "/dev/nvme0n1p2"
    ));
    assert_eq!(swap_device("/dev/sda", &plain).as_deref(), Some("/dev/sda1"));

    assert!(config_error(grub_route(&cfg, &layout(vec![]))).contains("No root partition"));

    cfg.disk.encryption = true;
    assert!(config_error(grub_route(&cfg, &plain)).contains("install_bootloader_with_layout"));
    let luks = layout(vec![partition(4, Some("/"), true, false)]);
    let route = grub_route(&cfg, &luks).unwrap();
    assert_eq!(route, Route::Containers(4));
    assert!(matches!(
        uuid_query(&cfg, "/dev/sda", route),
        UuidQuery::Luks(d) if d == "/dev/sda4"
    ));

    cfg.disk.use_lvm_thin = true;
    assert_eq!(grub_route(&cfg, &luks).unwrap(), Route::EncryptedPool(4));
    assert!(config_error(grub_route(&cfg, &plain)).contains("no LUKS partition"));
    cfg.disk.encryption = false;
    assert_eq!(grub_route(&cfg, &plain).unwrap(), Route::Pool);
}

#[test]
fn grub_is_told_of_its_root() {
    let mut cfg = DeploymentConfig::sample();
    cfg.disk.encryption = false;
    let plain = layout(vec![partition(2, Some("/"), false, false)]);
    let steps = install_bootloader_with_layout(
        &cfg, "/dev/sda", &plain, &names(), "/mnt", &facts(), false,
    )
    .ok()
    .expect("a plan");
    let (defaults, _) = written(&steps, "/mnt/etc/default/grub").expect("defaults");
    assert!(defaults.contains("1111-2222"), "{defaults}");
    let dry = install_bootloader(&cfg, "/dev/sda", &plain, &names(), "/mnt", &facts(), true)
        .ok()
        .expect("a plan");
    assert!(written(&dry, "/mnt/etc/default/grub").is_none());
}
