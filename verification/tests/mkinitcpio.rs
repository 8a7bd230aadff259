use deploytix::config::model::DeploymentConfig;
use deploytix::config::options::PartitionLayout;
use deploytix::configure::mkinitcpio::{
    construct_binaries, construct_files, construct_files_with_keyfiles, construct_hooks,
    construct_modules, generate_mkinitcpio_conf,
};

fn config_with(layout: PartitionLayout, encryption: bool) -> DeploymentConfig {
    let mut cfg = DeploymentConfig::sample();
    cfg.disk.layout = layout;
    cfg.disk.encryption = encryption;
    if encryption {
        cfg.disk.encryption_password = Some("test".to_string());
    }
    cfg
}

#[test]
fn standard_encrypted_uses_custom_hooks() {
    let cfg = config_with(PartitionLayout::Standard, true);
    let hooks = construct_hooks(&cfg);
    assert!(hooks.contains(&"crypttab-unlock".to_string()));
    assert!(hooks.contains(&"mountcrypt".to_string()));
    assert!(!hooks.contains(&"encrypt".to_string()));
    assert!(!hooks.contains(&"filesystems".to_string()));
}

#[test]
fn minimal_unencrypted_has_filesystems_hook() {
    let cfg = config_with(PartitionLayout::Minimal, false);
    let hooks = construct_hooks(&cfg);
    assert!(hooks.contains(&"filesystems".to_string()));
    assert!(!hooks.contains(&"crypttab-unlock".to_string()));
    assert!(!hooks.contains(&"mountcrypt".to_string()));
    assert!(!hooks.contains(&"usr".to_string())); // Minimal doesn't have separate /usr
}

#[test]
fn unencrypted_standard_has_no_encrypt_hooks() {
    let cfg = config_with(PartitionLayout::Standard, false);
    let hooks = construct_hooks(&cfg);
    assert!(!hooks.contains(&"encrypt".to_string()));
    assert!(!hooks.contains(&"crypttab-unlock".to_string()));
    assert!(!hooks.contains(&"lvm2".to_string()));
    assert!(hooks.contains(&"filesystems".to_string()));
}

#[test]
fn standard_encrypted_hook_ordering() {
    let cfg = config_with(PartitionLayout::Standard, true);
    let hooks = construct_hooks(&cfg);
    let lvm2_pos = hooks.iter().position(|h| h == "lvm2").unwrap();
    let unlock_pos = hooks.iter().position(|h| h == "crypttab-unlock").unwrap();
    let mount_pos = hooks.iter().position(|h| h == "mountcrypt").unwrap();
    assert!(lvm2_pos < unlock_pos, "lvm2 must precede crypttab-unlock");
    assert!(
        unlock_pos < mount_pos,
        "crypttab-unlock must precede mountcrypt"
    );
}

#[test]
fn standard_encrypted_files_include_crypttab_and_keyfiles() {
    let cfg = config_with(PartitionLayout::Standard, true);
    let files = construct_files(&cfg);
    assert!(files.contains(&"/etc/crypttab".to_string()));
    assert!(files.contains(&"/etc/cryptsetup-keys.d/cryptroot.key".to_string()));
    assert!(files.contains(&"/etc/cryptsetup-keys.d/cryptusr.key".to_string()));
    assert!(files.contains(&"/etc/cryptsetup-keys.d/cryptvar.key".to_string()));
    assert!(files.contains(&"/etc/cryptsetup-keys.d/crypthome.key".to_string()));
}

#[test]
fn standard_encrypted_boot_encryption_includes_boot_keyfile() {
    let mut cfg = config_with(PartitionLayout::Standard, true);
    cfg.disk.boot_encryption = true;
    let files = construct_files(&cfg);
    assert!(files.contains(&"/etc/cryptsetup-keys.d/cryptboot.key".to_string()));
}

#[test]
fn minimal_unencrypted_no_files() {
    let cfg = config_with(PartitionLayout::Minimal, false);
    let files = construct_files(&cfg);
    assert!(
        files.is_empty(),
        "Unencrypted Minimal layout should not embed crypttab/keyfiles"
    );
}

#[test]
fn standard_encrypted_with_integrity_includes_dm_integrity_module() {
    let mut cfg = config_with(PartitionLayout::Standard, true);
    cfg.disk.integrity = true;
    let modules = construct_modules(&cfg);
    assert!(
        modules.contains(&"dm_integrity".to_string()),
        "Integrity-enabled config must include dm_integrity module"
    );
}

#[test]
fn standard_encrypted_without_integrity_excludes_dm_integrity_module() {
    let cfg = config_with(PartitionLayout::Standard, true);
    let modules = construct_modules(&cfg);
    assert!(
        !modules.contains(&"dm_integrity".to_string()),
        "Non-integrity config must not include dm_integrity module"
    );
}

#[test]
fn lvm_thin_encrypted_uses_encrypt_hook() {
    let mut cfg = config_with(PartitionLayout::Standard, true);
    cfg.disk.use_lvm_thin = true;
    let hooks = construct_hooks(&cfg);
    assert!(
        hooks.contains(&"encrypt".to_string()),
        "LVM thin encrypted must include encrypt hook"
    );
    assert!(
        hooks.contains(&"lvm2".to_string()),
        "LVM thin must include lvm2 hook"
    );
    assert!(
        !hooks.contains(&"crypttab-unlock".to_string()),
        "LVM thin without boot encryption should not include crypttab-unlock"
    );
}

#[test]
fn lvm_thin_boot_encryption_adds_crypttab_unlock_hook() {
    let mut cfg = config_with(PartitionLayout::Standard, true);
    cfg.disk.use_lvm_thin = true;
    cfg.disk.boot_encryption = true;
    let hooks = construct_hooks(&cfg);
    assert!(
        hooks.contains(&"encrypt".to_string()),
        "LVM thin with boot encryption must still include encrypt hook"
    );
    assert!(
        hooks.contains(&"crypttab-unlock".to_string()),
        "LVM thin with boot encryption must include crypttab-unlock hook"
    );
}

#[test]
fn lvm_thin_boot_encryption_includes_crypttab_and_keyfiles() {
    let mut cfg = config_with(PartitionLayout::Standard, true);
    cfg.disk.use_lvm_thin = true;
    cfg.disk.boot_encryption = true;
    let files = construct_files(&cfg);
    assert!(
        files.contains(&"/etc/cryptsetup-keys.d/cryptlvm.key".to_string()),
        "LVM thin must include LVM keyfile"
    );
    assert!(
        files.contains(&"/etc/crypttab".to_string()),
        "LVM thin with boot encryption must include crypttab"
    );
    assert!(
        files.contains(&"/etc/cryptsetup-keys.d/cryptboot.key".to_string()),
        "LVM thin with boot encryption must include boot keyfile"
    );
}

#[test]
fn lvm_thin_without_boot_encryption_no_files_in_initramfs() {
    let mut cfg = config_with(PartitionLayout::Standard, true);
    cfg.disk.use_lvm_thin = true;
    let files = construct_files(&cfg);
    assert!(
        !files.contains(&"/etc/cryptsetup-keys.d/cryptlvm.key".to_string()),
        "LVM thin without boot encryption must not embed non-existent cryptlvm.key"
    );
    assert!(
        !files.contains(&"/etc/crypttab".to_string()),
        "LVM thin without boot encryption should not include crypttab in initramfs"
    );
    assert!(
        !files.contains(&"/etc/cryptsetup-keys.d/cryptboot.key".to_string()),
        "LVM thin without boot encryption should not include boot keyfile"
    );
}

#[test]
fn lvm_thin_includes_usr_hook() {
    let mut cfg = config_with(PartitionLayout::Standard, true);
    cfg.disk.use_lvm_thin = true;
    let hooks = construct_hooks(&cfg);
    assert!(
        hooks.contains(&"usr".to_string()),
        "LVM thin must include usr hook to mount /usr before init"
    );
    let filesystems_pos = hooks.iter().position(|h| h == "filesystems").unwrap();
    let usr_pos = hooks.iter().position(|h| h == "usr").unwrap();
    assert!(
        filesystems_pos < usr_pos,
        "usr hook must come after filesystems hook"
    );
}

#[test]
fn only_lsblk_is_added() {
    let cfg = config_with(PartitionLayout::Standard, true);
    assert_eq!(construct_binaries(&cfg), vec!["lsblk"]);
}

#[test]
fn the_configuration_lists_what_was_constructed() {
    let cfg = config_with(PartitionLayout::Standard, true);
    let conf = generate_mkinitcpio_conf(&cfg);
    assert!(conf.contains(&format!("MODULES=({})\n", construct_modules(&cfg).join(" "))));
    assert!(conf.contains("BINARIES=(lsblk)\n"));
    assert!(conf.contains(&format!("FILES=({})\n", construct_files(&cfg).join(" "))));
    assert!(conf.contains(&format!("HOOKS=({})\n", construct_hooks(&cfg).join(" "))));
    assert!(conf.contains("COMPRESSION=\"zstd\""));
}

#[test]
fn given_keyfiles_follow_crypttab() {
    let keys = vec!["/etc/cryptsetup-keys.d/cryptroot.key".to_string()];
    let cfg = config_with(PartitionLayout::Standard, true);
    assert_eq!(
        construct_files_with_keyfiles(&cfg, &keys),
        vec!["/etc/crypttab", "/etc/cryptsetup-keys.d/cryptroot.key"]
    );
    let plain = config_with(PartitionLayout::Standard, false);
    assert!(construct_files_with_keyfiles(&plain, &keys).is_empty());
}
