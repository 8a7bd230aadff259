use deploytix::config::model::DeploymentConfig;
use deploytix::config::options::{Filesystem, InitSystem, SecureBootMethod};
use deploytix::configure::bootloader::uses_standalone_grub;
use deploytix::configure::grub_btrfs::{
    create_overlay_subvolume_cmd, create_snapshots_subvolume_cmd, install_grub_btrfs,
    with_snapshots, write_grub_btrfs_config, write_grub_btrfsd_service, SnapshotFacts,
    ESP_LOCATOR_REL,
};
use deploytix::plan::Step;

fn base_config() -> DeploymentConfig {
    let mut config = DeploymentConfig::sample();
    config.disk.filesystem = Filesystem::Btrfs;
    config.disk.boot_filesystem = Filesystem::Btrfs;
    config.disk.use_subvolumes = true;
    config.packages.install_grub_btrfs = true;
    config
}

fn standalone_config() -> DeploymentConfig {
    let mut config = base_config();
    config.system.secureboot = true;
    config.system.secureboot_method = SecureBootMethod::Sbctl;
    config.disk.encryption = true;
    assert!(uses_standalone_grub(&config));
    config
}

fn facts() -> SnapshotFacts {
    SnapshotFacts {
        root_uuid: "aaaa-bbbb".into(),
        fstab: "UUID=aaaa-bbbb / btrfs defaults 0 0\n".into(),
        reinstall_exists: false,
    }
}

fn written(steps: &[Step], wanted: &str) -> Option<String> {
    steps.iter().find_map(|s| match s {
        Step::Write { path, content, .. } if path == wanted => Some(content.clone()),
        _ => None,
    })
}

fn writes_below(steps: &[Step], prefix: &str) -> bool {
    steps.iter().any(|s| match s {
        Step::Write { path, .. } | Step::MakeDir(path) | Step::Link { path, .. } => {
            path.starts_with(prefix)
        }
        _ => false,
    })
}

fn read_config(steps: &[Step]) -> String {
    written(steps, "/mnt/etc/default/grub-btrfs/config").expect("a configuration")
}

#[test]
fn declined_install_reports_skip_and_configures_nothing() {
    let (installed, steps) = install_grub_btrfs(
        &base_config(),
        "/dev/mapper/Crypt-Root",
        false,
        &facts(),
        "/mnt",
        false,
    );
    assert!(!installed, "a declined transaction must report skipped");
    assert!(
        written(&steps, "/mnt/etc/default/grub-btrfs/config").is_none(),
        "declined install must not write the grub-btrfs config"
    );
    assert!(
        !writes_below(&steps, "/mnt/etc/runit"),
        "declined install must not write service files"
    );
}

#[test]
fn snapshots_subvolume_mode_set_on_subvolume_not_mountpoint() {
    let cmd = create_snapshots_subvolume_cmd("/dev/mapper/Crypt-Root");
    let create = cmd.find("btrfs subvolume create /mnt/@snapshots").unwrap();
    let chmod = cmd.find("chmod 750 /mnt/@snapshots").unwrap();
    assert!(create < chmod, "chmod must follow the subvolume creation");
    assert!(cmd.contains("create /mnt/@snapshots && chmod 750 /mnt/@snapshots"));
    assert!(cmd.contains("umount /mnt"));
    assert!(cmd.contains("mount -t btrfs -o subvolid=5 /dev/mapper/Crypt-Root /mnt"));
}

#[test]
fn overlay_subvolume_created_idempotently_at_fs_root() {
    let cmd = create_overlay_subvolume_cmd("/dev/mapper/Crypt-Root");
    assert!(cmd.contains("mount -t btrfs -o subvolid=5 /dev/mapper/Crypt-Root /mnt"));
    assert!(cmd.contains("test -e /mnt/@overlay || btrfs subvolume create /mnt/@overlay"));
    assert!(cmd.contains("umount /mnt"));
}

#[test]
fn dry_run_writes_nothing() {
    let (_, steps) = install_grub_btrfs(
        &base_config(),
        "/dev/mapper/Crypt-Root",
        true,
        &facts(),
        "/mnt",
        true,
    );
    assert!(
        !writes_below(&steps, "/mnt/etc/default/grub-btrfs"),
        "dry-run must not write the grub-btrfs config"
    );
    assert!(
        !writes_below(&steps, "/mnt/etc/runit"),
        "dry-run must not write service files"
    );
}

#[test]
fn config_standard_grub_uses_plain_mkconfig() {
    let content = read_config(&write_grub_btrfs_config(&base_config(), "/mnt", false));
    assert!(content.contains("GRUB_BTRFS_MKCONFIG=/usr/bin/grub-mkconfig"));
    assert!(!content.contains("GRUB_BTRFS_MKCONFIG=/usr/local/bin/reinstall-grub"));
}

#[test]
fn config_standalone_grub_uses_reinstall_script() {
    let mut config = base_config();
    config.system.secureboot = true;
    config.system.secureboot_method = SecureBootMethod::Sbctl;
    config.disk.encryption = true;
    let content = read_config(&write_grub_btrfs_config(&config, "/mnt", false));
    assert!(content.contains("GRUB_BTRFS_MKCONFIG=/usr/local/bin/reinstall-grub"));
}

#[test]
fn config_cryptodisk_tracks_boot_encryption() {
    let mut config = base_config();
    config.disk.boot_encryption = true;
    assert!(read_config(&write_grub_btrfs_config(&config, "/mnt", false))
        .contains("GRUB_BTRFS_ENABLE_CRYPTODISK=\"true\" # DEPLOYTIX-CRYPTODISK-V1"));

    let config = base_config();
    assert!(read_config(&write_grub_btrfs_config(&config, "/mnt", false))
        .contains("GRUB_BTRFS_ENABLE_CRYPTODISK=\"false\" # DEPLOYTIX-CRYPTODISK-V1"));
}

#[test]
fn service_runit_supervised_without_syslog() {
    let mut config = base_config();
    config.system.init = InitSystem::Runit;
    let steps = write_grub_btrfsd_service(&config, "/mnt", false);
    let run = written(&steps, "/mnt/etc/runit/sv/grub-btrfsd/run").expect("a service");
    assert!(run.contains("exec /usr/bin/grub-btrfsd /.snapshots"));
    assert!(!run.contains("--syslog"));
    let log_run = written(&steps, "/mnt/etc/runit/sv/grub-btrfsd/log/run").expect("a log");
    assert!(log_run.contains("svlogd"));
}

#[test]
fn service_openrc_depends_on_localmount() {
    let mut config = base_config();
    config.system.init = InitSystem::OpenRC;
    let steps = write_grub_btrfsd_service(&config, "/mnt", false);
    let script = written(&steps, "/mnt/etc/init.d/grub-btrfsd").expect("a service");
    assert!(script.contains("command=\"/usr/bin/grub-btrfsd\""));
    assert!(script.contains("--syslog /.snapshots"));
    assert!(script.contains("need localmount"));
}

#[test]
fn service_s6_longrun_in_adminsv() {
    let mut config = base_config();
    config.system.init = InitSystem::S6;
    let steps = write_grub_btrfsd_service(&config, "/mnt", false);
    let type_file = written(&steps, "/mnt/etc/s6/adminsv/grub-btrfsd/type").expect("a type");
    assert_eq!(type_file, "longrun\n");
    let run = written(&steps, "/mnt/etc/s6/adminsv/grub-btrfsd/run").expect("a service");
    assert!(run.contains("exec /usr/bin/grub-btrfsd /.snapshots"));
}

#[test]
fn service_dinit_process_with_restart() {
    let mut config = base_config();
    config.system.init = InitSystem::Dinit;
    let steps = write_grub_btrfsd_service(&config, "/mnt", false);
    let service = written(&steps, "/mnt/etc/dinit.d/grub-btrfsd").expect("a service");
    assert!(service.contains("type = process"));
    assert!(service.contains("command = /usr/bin/grub-btrfsd --syslog /.snapshots"));
    assert!(service.contains("restart = true"));
}

#[test]
fn config_standalone_keeps_snapshot_list_on_esp() {
    let steps = write_grub_btrfs_config(&standalone_config(), "/mnt", false);
    let content = read_config(&steps);
    assert!(content.contains("GRUB_BTRFS_GBTRFS_DIRNAME=\"/boot/efi/EFI/BOOT\""));
    assert!(content.contains("GRUB_BTRFS_GBTRFS_SEARCH_DIRNAME=\"(\\$deploytix_esp)/EFI/BOOT\""));

    let locator = format!("/mnt/{}", ESP_LOCATOR_REL);
    let script = written(&steps, &locator).expect("a locator");
    assert!(script.contains("search --no-floppy --fs-uuid --set=deploytix_esp"));
    assert!(script.contains("set deploytix_esp=memdisk"));
    let mode = steps
        .iter()
        .find_map(|s| match s {
            Step::SetMode { path, mode } if *path == locator => Some(*mode),
            Step::Write { path, mode: Some(mode), .. } if *path == locator => Some(*mode),
            _ => None,
        })
        .expect("permissions");
    assert_eq!(mode & 0o111, 0o111, "grub.d generators must be executable");
}

#[test]
fn config_standard_grub_has_no_esp_override() {
    let steps = write_grub_btrfs_config(&base_config(), "/mnt", false);
    let content = read_config(&steps);
    assert!(!content.contains("GRUB_BTRFS_GBTRFS_DIRNAME"));
    assert!(!content.contains("GRUB_BTRFS_GBTRFS_SEARCH_DIRNAME"));
    assert!(written(&steps, &format!("/mnt/{}", ESP_LOCATOR_REL)).is_none());
}

#[test]
fn every_layout_runs_the_stock_grub_btrfsd() {
    let mut config = base_config();
    config.packages.immutable_root = true;
    assert!(config.immutable_btrfs());

    for init in [
        InitSystem::Runit,
        InitSystem::OpenRC,
        InitSystem::S6,
        InitSystem::Dinit,
    ] {
        config.system.init = init.clone();
        let steps = write_grub_btrfsd_service(&config, "/mnt", false);

        let unit = match init {
            InitSystem::Runit => "/mnt/etc/runit/sv/grub-btrfsd/run",
            InitSystem::OpenRC => "/mnt/etc/init.d/grub-btrfsd",
            InitSystem::S6 => "/mnt/etc/s6/adminsv/grub-btrfsd/run",
            InitSystem::Dinit => "/mnt/etc/dinit.d/grub-btrfsd",
        };
        let content = written(&steps, unit).expect("a service");
        assert!(
            content.contains("/usr/bin/grub-btrfsd"),
            "{init:?} must run the stock daemon"
        );
        assert!(
            !content.contains("deploytix-grub-btrfsd"),
            "{init:?} must not reference a deploytix watcher replacement"
        );
    }
}

#[test]
fn dry_run_install_is_safe_on_standalone_too() {
    let (installed, steps) = install_grub_btrfs(
        &standalone_config(),
        "/dev/mapper/Crypt-Root",
        true,
        &facts(),
        "/mnt",
        true,
    );
    assert!(installed);
    assert!(
        !writes_below(&steps, "/mnt/etc"),
        "dry-run must not write under the install root"
    );
}

#[test]
fn snapshots_are_entered_into_fstab_once() {
    let first = with_snapshots("UUID=x / btrfs defaults 0 0\n", "x").expect("an entry");
    assert!(first.contains("UUID=x  /.snapshots  btrfs"));
    assert!(with_snapshots(&first, "x").is_none());
}
