use deploytix::config::model::DeploymentConfig;
use deploytix::configure::hooks::{
    generate_crypttab_unlock_hook, generate_hooks, generate_mountcrypt_hook,
    generate_verity_ab_hook, install_custom_hooks,
};
use deploytix::disk::{multi_volume_subvolumes, ComputedLayout, PartitionDef, StorageNames};
use deploytix::plan::Step;

fn names() -> StorageNames {
    StorageNames {
        verity_mapper: "verity-root".into(),
        zfs_root_dataset: "rpool/ROOT".into(),
        root_a: "root_a".into(),
        root_b: "root_b".into(),
        hash_a: "hash_a".into(),
        hash_b: "hash_b".into(),
        etc_overlay: "etc_overlay".into(),
    }
}

fn config_encrypted(encryption: bool) -> DeploymentConfig {
    let mut cfg = DeploymentConfig::sample();
    cfg.disk.encryption = encryption;
    if encryption {
        cfg.disk.encryption_password = Some("test".to_string());
    }
    cfg
}

fn dummy_layout() -> ComputedLayout {
    ComputedLayout {
        partitions: vec![],
        total_mib: 0,
        subvolumes: None,
        planned_thin_volumes: None,
    }
}

fn standard_encrypted_layout() -> ComputedLayout {
    ComputedLayout {
        partitions: vec![
            PartitionDef {
                number: 1,
                name: "EFI".into(),
                size_mib: 512,
                type_guid: String::new(),
                mount_point: Some("/boot/efi".into()),
                is_swap: false,
                is_efi: true,
                is_luks: false,
                is_bios_boot: false,
                is_boot_fs: false,
                attributes: None,
                subvolume_name: None,
                pinned: None,
            },
            PartitionDef {
                number: 2,
                name: "BOOT".into(),
                size_mib: 2048,
                type_guid: String::new(),
                mount_point: Some("/boot".into()),
                is_swap: false,
                is_efi: false,
                is_luks: false,
                is_bios_boot: false,
                is_boot_fs: true,
                attributes: None,
                subvolume_name: None,
                pinned: None,
            },
            PartitionDef {
                number: 3,
                name: "SWAP".into(),
                size_mib: 4096,
                type_guid: String::new(),
                mount_point: None,
                is_swap: true,
                is_efi: false,
                is_luks: false,
                is_bios_boot: false,
                is_boot_fs: false,
                attributes: None,
                subvolume_name: None,
                pinned: None,
            },
            PartitionDef {
                number: 4,
                name: "ROOT".into(),
                size_mib: 20480,
                type_guid: String::new(),
                mount_point: Some("/".into()),
                is_swap: false,
                is_efi: false,
                is_luks: true,
                is_bios_boot: false,
                is_boot_fs: false,
                attributes: None,
                subvolume_name: None,
                pinned: None,
            },
            PartitionDef {
                number: 5,
                name: "USR".into(),
                size_mib: 20480,
                type_guid: String::new(),
                mount_point: Some("/usr".into()),
                is_swap: false,
                is_efi: false,
                is_luks: true,
                is_bios_boot: false,
                is_boot_fs: false,
                attributes: None,
                subvolume_name: None,
                pinned: None,
            },
            PartitionDef {
                number: 6,
                name: "VAR".into(),
                size_mib: 8192,
                type_guid: String::new(),
                mount_point: Some("/var".into()),
                is_swap: false,
                is_efi: false,
                is_luks: true,
                is_bios_boot: false,
                is_boot_fs: false,
                attributes: None,
                subvolume_name: None,
                pinned: None,
            },
            PartitionDef {
                number: 7,
                name: "HOME".into(),
                size_mib: 0,
                type_guid: String::new(),
                mount_point: Some("/home".into()),
                is_swap: false,
                is_efi: false,
                is_luks: true,
                is_bios_boot: false,
                is_boot_fs: false,
                attributes: None,
                subvolume_name: None,
                pinned: None,
            },
        ],
        total_mib: 100000,
        subvolumes: None,
        planned_thin_volumes: None,
    }
}

fn minimal_encrypted_layout() -> ComputedLayout {
    ComputedLayout {
        partitions: vec![
            PartitionDef {
                number: 1,
                name: "EFI".into(),
                size_mib: 512,
                type_guid: String::new(),
                mount_point: Some("/boot/efi".into()),
                is_swap: false,
                is_efi: true,
                is_luks: false,
                is_bios_boot: false,
                is_boot_fs: false,
                attributes: None,
                subvolume_name: None,
                pinned: None,
            },
            PartitionDef {
                number: 2,
                name: "BOOT".into(),
                size_mib: 2048,
                type_guid: String::new(),
                mount_point: Some("/boot".into()),
                is_swap: false,
                is_efi: false,
                is_luks: false,
                is_bios_boot: false,
                is_boot_fs: true,
                attributes: None,
                subvolume_name: None,
                pinned: None,
            },
            PartitionDef {
                number: 3,
                name: "SWAP".into(),
                size_mib: 4096,
                type_guid: String::new(),
                mount_point: None,
                is_swap: true,
                is_efi: false,
                is_luks: false,
                is_bios_boot: false,
                is_boot_fs: false,
                attributes: None,
                subvolume_name: None,
                pinned: None,
            },
            PartitionDef {
                number: 4,
                name: "ROOT".into(),
                size_mib: 0,
                type_guid: String::new(),
                mount_point: Some("/".into()),
                is_swap: false,
                is_efi: false,
                is_luks: true,
                is_bios_boot: false,
                is_boot_fs: false,
                attributes: None,
                subvolume_name: None,
                pinned: None,
            },
        ],
        total_mib: 100000,
        subvolumes: None,
        planned_thin_volumes: None,
    }
}

#[test]
fn no_hooks_generated_without_encryption() {
    let cfg = config_encrypted(false);
    let hooks = generate_hooks(&cfg, &dummy_layout(), &names());
    assert!(hooks.is_empty());
}

#[test]
fn hooks_generated_for_encrypted() {
    let cfg = config_encrypted(true);
    let hooks = generate_hooks(&cfg, &dummy_layout(), &names());
    assert_eq!(hooks.len(), 2);
    assert_eq!(hooks[0].name, "crypttab-unlock");
    assert_eq!(hooks[1].name, "mountcrypt");
}

#[test]
fn crypttab_unlock_hook_does_not_call_run_hook() {
    let hook = generate_crypttab_unlock_hook();
    assert!(hook.hook_content.contains("run_hook()"));
    let trailing = hook.hook_content.lines().last().unwrap_or("");
    assert_ne!(
        trailing.trim(),
        "run_hook",
        "run_hook must not be called explicitly at script end"
    );
}

#[test]
fn crypttab_unlock_hook_translates_discard_option() {
    let hook = generate_crypttab_unlock_hook();
    assert!(
        hook.hook_content.contains("--allow-discards"),
        "crypttab-unlock must translate the discard option to --allow-discards"
    );
}

#[test]
fn mountcrypt_hook_mounts_all_encrypted_partitions() {
    let cfg = config_encrypted(true);
    let hook = generate_mountcrypt_hook(&cfg, &standard_encrypted_layout());
    assert!(hook.hook_content.contains("/dev/mapper/Crypt-Root"));
    assert!(hook.hook_content.contains("/dev/mapper/Crypt-Usr"));
    assert!(hook.hook_content.contains("/dev/mapper/Crypt-Var"));
    assert!(hook.hook_content.contains("/dev/mapper/Crypt-Home"));
}

#[test]
fn mountcrypt_hook_minimal_only_mounts_root() {
    let cfg = config_encrypted(true);
    let hook = generate_mountcrypt_hook(&cfg, &minimal_encrypted_layout());
    assert!(
        hook.hook_content.contains("/dev/mapper/Crypt-Root"),
        "Minimal encrypted must mount Crypt-Root"
    );
    assert!(
        !hook.hook_content.contains("/dev/mapper/Crypt-Usr"),
        "Minimal encrypted must NOT reference Crypt-Usr"
    );
    assert!(
        !hook.hook_content.contains("/dev/mapper/Crypt-Home"),
        "Minimal encrypted must NOT reference Crypt-Home"
    );
}

#[test]
fn mountcrypt_hook_encrypted_boot() {
    let mut cfg = config_encrypted(true);
    cfg.disk.boot_encryption = true;
    let hook = generate_mountcrypt_hook(&cfg, &standard_encrypted_layout());
    assert!(
        hook.hook_content.contains("/dev/mapper/Crypt-Boot"),
        "With boot_encryption, mountcrypt must mount encrypted /boot"
    );
    assert!(
        !hook.hook_content.contains("LABEL=BOOT"),
        "With boot_encryption, mountcrypt must not auto-detect unencrypted boot"
    );
}

#[test]
fn mountcrypt_hook_unencrypted_boot() {
    let mut cfg = config_encrypted(true);
    cfg.disk.boot_encryption = false;
    let hook = generate_mountcrypt_hook(&cfg, &standard_encrypted_layout());
    assert!(
        hook.hook_content.contains("LABEL=BOOT"),
        "Without boot_encryption, mountcrypt must auto-detect unencrypted boot"
    );
    assert!(
        !hook.hook_content.contains("/dev/mapper/Crypt-Boot"),
        "Without boot_encryption, mountcrypt must not reference Crypt-Boot"
    );
}

#[test]
fn mountcrypt_hook_resolves_root_subvol_from_cmdline() {
    let cfg = config_encrypted(true);
    let mut layout = standard_encrypted_layout();
    layout.subvolumes = Some(multi_volume_subvolumes("Root"));
    let hook = generate_mountcrypt_hook(&cfg, &layout);
    assert!(
        hook.hook_content.contains("resolve_root_subvol()"),
        "Subvolume layouts must define resolve_root_subvol"
    );
    assert!(
        hook.hook_content
            .contains(r#"mount_volume "/dev/mapper/Crypt-Root" "$new_root" "root" "subvol=${root_subvol},"#),
        "Root mount must use the cmdline-resolved subvolume, not a literal"
    );
    assert!(
        hook.hook_content.contains("rootflags=*)"),
        "resolve_root_subvol must parse rootflags= from the cmdline"
    );
    assert!(hook.hook_content.contains("subvol=@usr,"));
}

fn config_lvm_ab(encryption: bool) -> DeploymentConfig {
    let mut cfg = DeploymentConfig::sample();
    cfg.disk.use_lvm_thin = true;
    cfg.disk.encryption = encryption;
    cfg.disk.boot_encryption = false;
    if encryption {
        cfg.disk.encryption_password = Some("test".to_string());
    }
    cfg.packages.install_grub_btrfs = false;
    cfg.packages.immutable_root = true;
    cfg
}

#[test]
fn verity_ab_hook_is_valid_shell_syntax() {
    let cfg = config_lvm_ab(true);
    assert!(cfg.immutable_lvm_ab());
    let hook = generate_verity_ab_hook(&cfg, &names());
    assert_eq!(hook.name, "verity-ab");
    assert!(hook.hook_content.contains("veritysetup open"));
    assert!(hook.hook_content.contains("mount -o ro"));
    assert!(hook.hook_content.contains("deploytix.roothash"));
    assert!(hook.hook_content.contains("-t overlay overlay"));
    assert!(hook.install_content.contains("add_binary 'veritysetup'"));

}

#[test]
fn verity_ab_hook_is_selected_only_for_lvm_immutable() {
    let hooks = generate_hooks(&config_lvm_ab(true), &dummy_layout(), &names());
    assert!(hooks.iter().any(|h| h.name == "verity-ab"));
    let hooks = generate_hooks(&config_encrypted(true), &standard_encrypted_layout(), &names());
    assert!(!hooks.iter().any(|h| h.name == "verity-ab"));
}

#[test]
fn mountcrypt_hook_without_subvolumes_has_no_cmdline_parsing() {
    let cfg = config_encrypted(true);
    let hook = generate_mountcrypt_hook(&cfg, &standard_encrypted_layout());
    assert!(
        !hook.hook_content.contains("resolve_root_subvol"),
        "Plain-filesystem layouts must not parse rootflags"
    );
}

#[test]
fn mountcrypt_hook_overlay_block_only_with_grub_btrfs() {
    let mut layout = standard_encrypted_layout();
    layout.subvolumes = Some(multi_volume_subvolumes("Root"));

    let cfg = config_encrypted(true);
    let hook = generate_mountcrypt_hook(&cfg, &layout);
    assert!(
        !hook.hook_content.contains("deploytix-overlay"),
        "Overlay block must not be emitted without install_grub_btrfs"
    );

    let mut cfg = config_encrypted(true);
    cfg.packages.install_grub_btrfs = true;
    let hook = generate_mountcrypt_hook(&cfg, &layout);
    let overlay_pos = hook
        .hook_content
        .find("mount -t overlay overlay")
        .expect("Overlay mount missing with install_grub_btrfs");
    let usr_pos = hook
        .hook_content
        .find("=== Mounting /usr ===")
        .expect("/usr mount section missing");
    assert!(
        overlay_pos < usr_pos,
        "Overlay must be layered before /usr is mounted into the root"
    );
    assert!(hook.hook_content.contains("/run/deploytix-overlay"));

    assert!(
        hook.hook_content
            .contains("mount -t btrfs -o subvol=@overlay,rw,noatime,compress=zstd /dev/mapper/Crypt-Root /run/deploytix-overlay/scratch"),
        "overlay upper must be backed by the @overlay subvolume"
    );
    assert!(
        hook.hook_content.contains(
            "rm -rf /run/deploytix-overlay/scratch/upper /run/deploytix-overlay/scratch/work"
        ),
        "disk-backed upper must be wiped each boot to stay ephemeral"
    );
    assert!(
        hook.hook_content
            .contains("falling back to tmpfs (RAM) upper"),
        "must retain a tmpfs fallback for installs without @overlay"
    );
}

#[test]
fn mountcrypt_hook_immutable_mounts_ro_root_usr_and_etc() {
    let mut layout = standard_encrypted_layout();
    layout.subvolumes = Some(multi_volume_subvolumes("Root"));

    let mut cfg = config_encrypted(true);
    cfg.packages.install_grub_btrfs = true;
    cfg.packages.immutable_root = true;
    let hook = generate_mountcrypt_hook(&cfg, &layout);

    assert!(
        hook.hook_content
            .contains("subvol=${root_subvol},defaults,noatime,compress=zstd,ro"),
        "immutable root must be mounted read-only"
    );
    assert!(
        hook.hook_content.contains("$new_root/.deploytix-pair"),
        "immutable boot must read the pairing marker"
    );
    assert!(
        hook.hook_content
            .contains("subvol=$_pair_usr,noatime,compress=zstd,ro"),
        "immutable /usr must be mounted read-only from the paired subvol"
    );
    assert!(
        hook.hook_content.contains(
            "mount_volume \"/dev/mapper/Crypt-Root\" \"$new_root/etc\" \"etc\" \"subvol=$_pair_etc,noatime,compress=zstd\""
        ),
        "immutable /etc must be mounted rw from the paired subvol"
    );
    assert!(
        !hook
            .hook_content
            .contains("=== Mounting /usr (subvol=@usr) ==="),
        "immutable /usr must not be double-mounted by the generic loop"
    );
    assert!(
        !hook.hook_content.contains("if true; then"),
        "immutable boot must not layer the overlay unconditionally"
    );
    assert!(
        hook.hook_content
            .contains("case \"$root_subvol\" in @|@deploytix-sets/*) false ;; *) true ;; esac"),
        "the overlay must be scoped to subvols that are neither @ nor a set"
    );

}

#[test]
fn lvm_thin_boot_encryption_generates_crypttab_unlock_hook() {
    let mut cfg = config_encrypted(true);
    cfg.disk.use_lvm_thin = true;
    cfg.disk.boot_encryption = true;
    let hooks = generate_hooks(&cfg, &dummy_layout(), &names());
    assert_eq!(
        hooks.len(),
        1,
        "LVM thin + boot encryption should generate 1 hook"
    );
    assert_eq!(hooks[0].name, "crypttab-unlock");
}

#[test]
fn lvm_thin_no_boot_encryption_no_hooks() {
    let mut cfg = config_encrypted(true);
    cfg.disk.use_lvm_thin = true;
    let hooks = generate_hooks(&cfg, &dummy_layout(), &names());
    assert!(
        hooks.is_empty(),
        "LVM thin without boot encryption should not generate custom hooks"
    );
}

#[test]
fn crypttab_unlock_hook_handles_crypt_prefixed_names() {
    let hook = generate_crypttab_unlock_hook();
    assert!(
        hook.hook_content.contains("Crypt-*)"),
        "crypttab-unlock must handle names already prefixed with Crypt-"
    );
}

#[test]
fn each_hook_is_installed_with_its_two_scripts() {
    let cfg = config_encrypted(true);
    let steps = install_custom_hooks(&cfg, &dummy_layout(), &names(), "/mnt", false);
    let written: Vec<&str> = steps
        .iter()
        .filter_map(|s| match s {
            Step::Write { path, mode, .. } => {
                assert_eq!(*mode, Some(0o755));
                Some(path.as_str())
            }
            _ => None,
        })
        .collect();
    assert_eq!(
        written,
        vec![
            "/mnt/usr/lib/initcpio/hooks/crypttab-unlock",
            "/mnt/usr/lib/initcpio/install/crypttab-unlock",
            "/mnt/usr/lib/initcpio/hooks/mountcrypt",
            "/mnt/usr/lib/initcpio/install/mountcrypt",
        ]
    );
    let dry = install_custom_hooks(&cfg, &dummy_layout(), &names(), "/mnt", true);
    assert_eq!(dry.len(), 6);
    assert!(dry.iter().all(|s| matches!(s, Step::Say(_))));
}
