//! Snapshots in the boot menu: the subvolumes they need, the configuration of
//! grub-btrfs and the daemon that keeps the menu current. Only the root is rolled
//! back; the other subvolumes stay as they are.
use vstd::prelude::*;

use crate::config::model::DeploymentConfig;
use crate::config::options::InitSystem;
use crate::configure::bootloader;
use crate::configure::bootloader::{uses_standalone_grub, MKCONFIG, REINSTALL_GRUB_PATH};
use crate::plan;
use crate::plan::{chroot, extend, make_dir, make_parent, review, say, write_file, Act, Step};
use crate::text;
use crate::text::{concat, concat3, contains, ends_with, push_text, show_list, Text};

verus! {

/// Where the list of snapshots lies on a target with a standalone GRUB: the EFI
/// partition, which GRUB can always read.
pub const ESP_GBTRFS_DIR: &'static str = "/boot/efi/EFI/BOOT";

/// The GRUB variable that holds the EFI partition.
pub const ESP_GRUB_VAR: &'static str = "deploytix_esp";

/// The generator that sets it, ahead of the one that reads it.
pub const ESP_LOCATOR_REL: &'static str = "etc/grub.d/40_deploytix-esp";

// --------------------------------------------------------------------------- texts
pub const STANDALONE_1: &'static str = r#"
# This system boots a standalone GRUB image: grub.cfg is embedded in the
# signed EFI binary's memdisk, so the upstream default location for the
# snapshot list (${prefix}, i.e. the memdisk) can never contain a file
# written at runtime. The list is kept on the EFI System Partition instead —
# unencrypted, readable by GRUB with no cryptomount — and the submenu stub in
# grub.cfg reaches it through $"#;

pub const STANDALONE_2: &'static str = r#".
GRUB_BTRFS_GBTRFS_DIRNAME=""#;

pub const STANDALONE_3: &'static str = r#""
GRUB_BTRFS_GBTRFS_SEARCH_DIRNAME="(\$"#;

/// What a standalone GRUB adds to the configuration.
pub open spec fn standalone_block_text(var: Text, locator: Text, esp_dir: Text) -> Text {
    STANDALONE_1@ + var + ", set by /"@ + locator + STANDALONE_2@ + esp_dir + STANDALONE_3@ + var + ")/EFI/BOOT\"\n"@
}

fn standalone_block(var: &str, locator: &str, esp_dir: &str) -> (r: String)
    ensures
        r@ == standalone_block_text(var@, locator@, esp_dir@),
{
    let mut s = STANDALONE_1.to_owned();
    s.push_str(var);
    s.push_str(", set by /");
    s.push_str(locator);
    s.push_str(STANDALONE_2);
    s.push_str(esp_dir);
    s.push_str(STANDALONE_3);
    s.push_str(var);
    s.push_str(")/EFI/BOOT\"\n");
    s
}

pub const CONFIG_1: &'static str = r#"#!/usr/bin/env bash
# Generated by Deploytix — grub-btrfs configuration.
# Replaces the package default; pacman preserves later upstream changes as
# /etc/default/grub-btrfs/config.pacnew.

GRUB_BTRFS_MKCONFIG_LIB=/usr/share/grub/grub-mkconfig_lib

# GRUB only needs cryptomount preludes in snapshot entries when /boot itself
# is a LUKS container; matched to the layout's boot_encryption at install.
GRUB_BTRFS_ENABLE_CRYPTODISK=""#;

pub const CONFIG_2: &'static str = r#"" # DEPLOYTIX-CRYPTODISK-V1

# Cap the number of snapshot menu entries. Regenerations on standalone-GRUB
# systems rebuild and re-sign the EFI binary (seconds per run), so keep the
# per-event work bounded.
GRUB_BTRFS_LIMIT="10"

# Command grub-btrfsd runs when snapshots change. Standalone-GRUB systems use
# the reinstall-grub pipeline (grub-mkconfig -> grub-mkstandalone -> sbctl
# sign-all) so new entries reach the signed, embedded config.
GRUB_BTRFS_MKCONFIG="#;

/// The configuration of grub-btrfs.
pub open spec fn daemon_config_text(
    cryptodisk: Text,
    mkconfig: Text,
    standalone_block: Text,
) -> Text {
    CONFIG_1@ + cryptodisk + CONFIG_2@ + mkconfig + "\n"@ + standalone_block
}

fn daemon_config(cryptodisk: &str, mkconfig: &str, standalone_block: &str) -> (r: String)
    ensures
        r@ == daemon_config_text(cryptodisk@, mkconfig@, standalone_block@),
{
    let mut s = CONFIG_1.to_owned();
    s.push_str(cryptodisk);
    s.push_str(CONFIG_2);
    s.push_str(mkconfig);
    s.push_str("\n");
    s.push_str(standalone_block);
    s
}

pub const LOCATOR_1: &'static str = r#"#!/bin/sh
# Generated by Deploytix — locate the EFI System Partition for grub-btrfs.
#
# This system boots a standalone GRUB image (SecureBoot sbctl + encryption):
# grub.cfg lives in the signed EFI binary's memdisk, so ${prefix} can never
# hold a file written at runtime. grub-btrfs therefore writes its snapshot
# list to the ESP (GRUB_BTRFS_GBTRFS_DIRNAME in /etc/default/grub-btrfs/config)
# and the submenu stub reads it from ($"#;

pub const LOCATOR_2: &'static str = r#")/EFI/BOOT — this script sets
# that variable. The ESP is unencrypted, so no cryptomount is needed before
# the menu is shown.
#
# Runs before 41_snapshots-btrfs. Never fatal: without a UUID the variable
# points at the memdisk, so the stub's existence test fails cleanly and the
# submenu is simply absent.

esp_dir=""#;

pub const LOCATOR_3: &'static str = r#""
grub_probe="${grub_probe:-grub-probe}"

esp_uuid="$("${grub_probe}" --target=fs_uuid "${esp_dir}" 2>/dev/null || true)"
if [ -z "${esp_uuid}" ]; then
    esp_uuid="$(findmnt -no UUID "${esp_dir}" 2>/dev/null || true)"
fi

if [ -z "${esp_uuid}" ]; then
    echo "deploytix: cannot determine the ESP filesystem UUID; the snapshot submenu will be unavailable" >&2
    printf 'set "#;

pub const LOCATOR_4: &'static str = r#"=memdisk\n'
    exit 0
fi

printf 'search --no-floppy --fs-uuid --set="#;

/// The generator that finds the EFI partition.
pub open spec fn locator_script_text(var: Text, esp_mount: Text) -> Text {
    LOCATOR_1@ + var + LOCATOR_2@ + esp_mount + LOCATOR_3@ + var + LOCATOR_4@ + var + " %s\\n' \"${esp_uuid}\"\n"@
}

fn locator_script(var: &str, esp_mount: &str) -> (r: String)
    ensures
        r@ == locator_script_text(var@, esp_mount@),
{
    let mut s = LOCATOR_1.to_owned();
    s.push_str(var);
    s.push_str(LOCATOR_2);
    s.push_str(esp_mount);
    s.push_str(LOCATOR_3);
    s.push_str(var);
    s.push_str(LOCATOR_4);
    s.push_str(var);
    s.push_str(" %s\\n' \"${esp_uuid}\"\n");
    s
}

/// The service under runit.
pub const DAEMON_RUNIT: &'static str = r#"#!/bin/sh
exec 2>&1
exec /usr/bin/grub-btrfsd /.snapshots
"#;

/// Its log.
pub const DAEMON_LOG: &'static str = r#"#!/bin/sh
[ -d /var/log/grub-btrfsd ] || install -dm 755 /var/log/grub-btrfsd
exec svlogd -tt /var/log/grub-btrfsd
"#;

/// The service under OpenRC, once the filesystems are mounted.
pub const DAEMON_OPENRC: &'static str = r#"#!/sbin/openrc-run
description="grub-btrfs snapshot menu daemon"
command="/usr/bin/grub-btrfsd"
command_args="--syslog /.snapshots"
command_background=true
pidfile="/var/run/grub-btrfsd.pid"

depend() {
	need localmount
}
"#;

/// The service under s6.
pub const DAEMON_S6: &'static str = r#"#!/bin/sh
exec /usr/bin/grub-btrfsd /.snapshots 2>&1
"#;

/// The service under dinit.
pub const DAEMON_DINIT: &'static str = r#"type = process
command = /usr/bin/grub-btrfsd --syslog /.snapshots
restart = true
"#;

pub const SNAPSHOTS_CMD_1: &'static str = "mkdir -p /mnt && mount -t btrfs -o subvolid=5 ";

pub const SNAPSHOTS_CMD_2: &'static str =
    " /mnt && btrfs subvolume create /mnt/@snapshots && chmod 750 /mnt/@snapshots; ret=$?; umount /mnt; exit $ret";

/// Making the subvolume of the snapshots at the top of the filesystem, for root
/// alone.
pub open spec fn create_snapshots_subvolume_cmd_text(dev: Text) -> Text {
    SNAPSHOTS_CMD_1@ + dev + SNAPSHOTS_CMD_2@
}

pub fn create_snapshots_subvolume_cmd(dev: &str) -> (r: String)
    ensures
        r@ == create_snapshots_subvolume_cmd_text(dev@),
{
    let mut s = SNAPSHOTS_CMD_1.to_owned();
    s.push_str(dev);
    s.push_str(SNAPSHOTS_CMD_2);
    s
}

pub const OVERLAY_CMD_1: &'static str = "mkdir -p /mnt && mount -t btrfs -o subvolid=5 ";

pub const OVERLAY_CMD_2: &'static str =
    " /mnt && test -e /mnt/@overlay || btrfs subvolume create /mnt/@overlay; ret=$?; umount /mnt; exit $ret";

/// Making the subvolume over which a snapshot is booted, where it is not there.
pub open spec fn create_overlay_subvolume_cmd_text(dev: Text) -> Text {
    OVERLAY_CMD_1@ + dev + OVERLAY_CMD_2@
}

pub fn create_overlay_subvolume_cmd(dev: &str) -> (r: String)
    ensures
        r@ == create_overlay_subvolume_cmd_text(dev@),
{
    let mut s = OVERLAY_CMD_1.to_owned();
    s.push_str(dev);
    s.push_str(OVERLAY_CMD_2);
    s
}

/// The generator that finds the EFI partition.
pub fn esp_locator_script() -> (r: String)
    ensures
        r@ == locator_script_text(ESP_GRUB_VAR@, "/boot/efi"@),
{
    locator_script(ESP_GRUB_VAR, "/boot/efi")
}

// ------------------------------------------------------------------------- packages
/// What snapshots in the boot menu need.
pub open spec fn package_list() -> Seq<Text> {
    seq!["grub-btrfs"@, "inotify-tools"@, "snapper"@]
}

/// Asking for the packages.
pub open spec fn request_steps(
    config: DeploymentConfig,
    install_root: Text,
    dry_run: bool,
) -> Seq<Act> {
    if !config.packages.install_grub_btrfs {
        seq![]
    } else if dry_run {
        seq![Act::Say("  [dry-run] Would install via pacman: "@ + text::listed(package_list()))]
    } else {
        seq![
            Act::Review {
                root: install_root,
                title: "grub-btrfs (snapshot boot)"@,
                packages: package_list(),
            },
        ]
    }
}

/// Asks for the packages. [`install_grub_btrfs`] goes on from what comes of it.
pub fn install_packages(config: &DeploymentConfig, install_root: &str, dry_run: bool) -> (r: Vec<
    Step,
>)
    ensures
        plan::acts(r@) == request_steps(*config, install_root@, dry_run),
{
    let mut steps: Vec<Step> = Vec::new();
    if config.packages.install_grub_btrfs {
        let mut packages: Vec<String> = Vec::new();
        push_text(&mut packages, "grub-btrfs");
        push_text(&mut packages, "inotify-tools");
        push_text(&mut packages, "snapper");
        assert(packages.deep_view() =~= package_list());
        if dry_run {
            say(
                &mut steps,
                concat(
                    "  [dry-run] Would install via pacman: ",
                    show_list(&packages).as_str(),
                ).as_str(),
            );
        } else {
            review(&mut steps, install_root, "grub-btrfs (snapshot boot)", packages);
        }
    }
    assert(plan::acts(steps@) =~= request_steps(*config, install_root@, dry_run));
    steps
}

// ------------------------------------------------------------------------- snapper
/// The fstab with the snapshots in it; nothing where it has them.
pub open spec fn fstab_for(fstab: Text, root_uuid: Text) -> Option<Text> {
    if text::holds(fstab, "  /.snapshots  "@) {
        None
    } else {
        Some(
            fstab + (if text::ends(fstab, "\n"@) {
                ""@
            } else {
                "\n"@
            }) + ("UUID="@ + root_uuid + FSTAB_ENTRY@),
        )
    }
}

pub const FSTAB_ENTRY: &'static str =
    "  /.snapshots  btrfs  subvol=@snapshots,defaults,noatime,compress=zstd  0  0\n";

pub fn with_snapshots(fstab: &str, root_uuid: &str) -> (r: Option<String>)
    ensures
        plan::seen(r) == fstab_for(fstab@, root_uuid@),
{
    if contains(fstab, "  /.snapshots  ") {
        return None;
    }
    let gap = if ends_with(fstab, "\n") {
        ""
    } else {
        "\n"
    };
    let entry = concat3("UUID=", root_uuid, FSTAB_ENTRY);
    Some(concat3(fstab, gap, entry.as_str()))
}

/// An fstab that got the snapshots does not get them again.
pub proof fn snapshots_are_entered_once(fstab: Text, root_uuid: Text)
    ensures
        fstab_for(fstab, root_uuid) matches Some(new) ==> fstab_for(new, root_uuid) is None,
{
    if let Some(new) = fstab_for(fstab, root_uuid) {
        reveal_strlit("  /.snapshots  ");
        reveal_strlit("  /.snapshots  btrfs  subvol=@snapshots,defaults,noatime,compress=zstd  0  0\n");
        let i = new.len() - FSTAB_ENTRY@.len();
        assert(FSTAB_ENTRY@.subrange(0, 15) =~= "  /.snapshots  "@);
        assert(new.subrange(i, i + 15) =~= FSTAB_ENTRY@.subrange(0, 15));
        assert(text::at(new, i, "  /.snapshots  "@));
    }
}

/// The snapshots of the root: a subvolume of their own beside it, given the UUID
/// of its filesystem and the fstab.
pub open spec fn snapper_steps(
    root_fs_device: Text,
    root_uuid: Text,
    fstab: Text,
    install_root: Text,
    dry_run: bool,
) -> Seq<Act> {
    if dry_run {
        seq![
            Act::Say("  [dry-run] snapper --no-dbus -c root create-config /"@),
            Act::Say(
                "  [dry-run] Would replace nested .snapshots with top-level @snapshots (mode 0750) on "@
                    + root_fs_device,
            ),
            Act::Say(
                "  [dry-run] Would append /.snapshots (subvol=@snapshots) to /etc/fstab and mount it"@,
            ),
        ]
    } else {
        seq![
            Act::Chroot {
                root: install_root,
                command: "snapper --no-dbus -c root create-config /"@,
            },
            Act::Chroot { root: install_root, command: "btrfs subvolume delete /.snapshots"@ },
            Act::Chroot {
                root: install_root,
                command: create_snapshots_subvolume_cmd_text(root_fs_device),
            },
            Act::Chroot {
                root: install_root,
                command: "mkdir -p /.snapshots && chmod 750 /.snapshots"@,
            },
        ] + (match fstab_for(fstab, root_uuid) {
            Some(content) => seq![
                Act::Write { path: install_root + "/etc/fstab"@, content, mode: None },
            ],
            None => seq![],
        }) + seq![Act::Chroot { root: install_root, command: "mount /.snapshots"@ }]
    }
}

fn configure_snapper_root(
    root_fs_device: &str,
    root_uuid: &str,
    fstab: &str,
    install_root: &str,
    dry_run: bool,
) -> (r: Vec<Step>)
    ensures
        plan::acts(r@) == snapper_steps(
            root_fs_device@,
            root_uuid@,
            fstab@,
            install_root@,
            dry_run,
        ),
{
    let mut steps: Vec<Step> = Vec::new();
    if dry_run {
        say(&mut steps, "  [dry-run] snapper --no-dbus -c root create-config /");
        say(
            &mut steps,
            concat(
                "  [dry-run] Would replace nested .snapshots with top-level @snapshots (mode 0750) on ",
                root_fs_device,
            ).as_str(),
        );
        say(
            &mut steps,
            "  [dry-run] Would append /.snapshots (subvol=@snapshots) to /etc/fstab and mount it",
        );
    } else {
        chroot(&mut steps, install_root, "snapper --no-dbus -c root create-config /");
        chroot(&mut steps, install_root, "btrfs subvolume delete /.snapshots");
        chroot(
            &mut steps,
            install_root,
            create_snapshots_subvolume_cmd(root_fs_device).as_str(),
        );
        chroot(&mut steps, install_root, "mkdir -p /.snapshots && chmod 750 /.snapshots");
        if let Some(new) = with_snapshots(fstab, root_uuid) {
            write_file(
                &mut steps,
                concat(install_root, "/etc/fstab").as_str(),
                new.as_str(),
                None,
            );
        }
        chroot(&mut steps, install_root, "mount /.snapshots");
    }
    assert(plan::acts(steps@) =~= snapper_steps(
        root_fs_device@,
        root_uuid@,
        fstab@,
        install_root@,
        dry_run,
    ));
    steps
}

/// Making the subvolume over which snapshots are booted.
pub open spec fn overlay_steps(
    root_fs_device: Text,
    install_root: Text,
    dry_run: bool,
) -> Seq<Act> {
    if dry_run {
        seq![
            Act::Say("  [dry-run] Would create top-level @overlay subvolume on "@ + root_fs_device),
        ]
    } else {
        seq![
            Act::Chroot {
                root: install_root,
                command: create_overlay_subvolume_cmd_text(root_fs_device),
            },
        ]
    }
}

fn create_overlay_subvolume(
    root_fs_device: &str,
    install_root: &str,
    dry_run: bool,
) -> (r: Vec<Step>)
    ensures
        plan::acts(r@) == overlay_steps(root_fs_device@, install_root@, dry_run),
{
    let mut steps: Vec<Step> = Vec::new();
    if dry_run {
        say(
            &mut steps,
            concat(
                "  [dry-run] Would create top-level @overlay subvolume on ",
                root_fs_device,
            ).as_str(),
        );
    } else {
        chroot(&mut steps, install_root, create_overlay_subvolume_cmd(root_fs_device).as_str());
    }
    assert(plan::acts(steps@) =~= overlay_steps(root_fs_device@, install_root@, dry_run));
    steps
}

// ------------------------------------------------------------------ configuration
/// What runs when the snapshots change: on a standalone GRUB the script that
/// rebuilds and signs it.
pub open spec fn mkconfig_of(config: DeploymentConfig) -> Text {
    if bootloader::standalone_grub(config) {
        REINSTALL_GRUB_PATH@
    } else {
        "/usr/bin/grub-mkconfig"@
    }
}

pub open spec fn cryptodisk_of(config: DeploymentConfig) -> Text {
    if config.disk.boot_encryption {
        "true"@
    } else {
        "false"@
    }
}

/// The content of /etc/default/grub-btrfs/config.
pub open spec fn config_text(config: DeploymentConfig) -> Text {
    daemon_config_text(
        cryptodisk_of(config),
        mkconfig_of(config),
        if bootloader::standalone_grub(config) {
            standalone_block_text(ESP_GRUB_VAR@, ESP_LOCATOR_REL@, ESP_GBTRFS_DIR@)
        } else {
            ""@
        },
    )
}

/// Configuring grub-btrfs.
pub open spec fn config_steps(
    config: DeploymentConfig,
    install_root: Text,
    dry_run: bool,
) -> Seq<Act> {
    if dry_run {
        seq![
            Act::Say(
                "  [dry-run] Would write /etc/default/grub-btrfs/config (GRUB_BTRFS_MKCONFIG="@
                    + mkconfig_of(config) + ", GRUB_BTRFS_ENABLE_CRYPTODISK="@
                    + cryptodisk_of(config) + ")"@,
            ),
        ] + (if bootloader::standalone_grub(config) {
            seq![
                Act::Say(
                    "  [dry-run] Would keep grub-btrfs.cfg on the ESP ("@ + ESP_GBTRFS_DIR@
                        + ") and write /"@ + ESP_LOCATOR_REL@,
                ),
            ]
        } else {
            seq![]
        })
    } else {
        seq![
            Act::MakeDir(install_root + "/etc/default/grub-btrfs"@),
            Act::Write {
                path: install_root + "/etc/default/grub-btrfs/config"@,
                content: config_text(config),
                mode: Some(0o644),
            },
        ] + (if bootloader::standalone_grub(config) {
            seq![
                Act::MakeParent(install_root + "/"@ + ESP_LOCATOR_REL@),
                Act::Write {
                    path: install_root + "/"@ + ESP_LOCATOR_REL@,
                    content: locator_script_text(ESP_GRUB_VAR@, "/boot/efi"@),
                    mode: Some(0o755),
                },
            ]
        } else {
            seq![]
        })
    }
}

pub fn write_grub_btrfs_config(
    config: &DeploymentConfig,
    install_root: &str,
    dry_run: bool,
) -> (r: Vec<Step>)
    ensures
        plan::acts(r@) == config_steps(*config, install_root@, dry_run),
{
    let mut steps: Vec<Step> = Vec::new();
    let standalone = uses_standalone_grub(config);
    let mkconfig = if standalone {
        REINSTALL_GRUB_PATH
    } else {
        "/usr/bin/grub-mkconfig"
    };
    let cryptodisk = if config.disk.boot_encryption {
        "true"
    } else {
        "false"
    };
    let block = if standalone {
        standalone_block(ESP_GRUB_VAR, ESP_LOCATOR_REL, ESP_GBTRFS_DIR)
    } else {
        "".to_owned()
    };
    let content = daemon_config(cryptodisk, mkconfig, block.as_str());
    if dry_run {
        say(
            &mut steps,
            concat3(
                concat3(
                    "  [dry-run] Would write /etc/default/grub-btrfs/config (GRUB_BTRFS_MKCONFIG=",
                    mkconfig,
                    ", GRUB_BTRFS_ENABLE_CRYPTODISK=",
                ).as_str(),
                cryptodisk,
                ")",
            ).as_str(),
        );
        if standalone {
            say(
                &mut steps,
                concat(
                    concat3(
                        "  [dry-run] Would keep grub-btrfs.cfg on the ESP (",
                        ESP_GBTRFS_DIR,
                        ") and write /",
                    ).as_str(),
                    ESP_LOCATOR_REL,
                ).as_str(),
            );
        }
    } else {
        make_dir(&mut steps, concat(install_root, "/etc/default/grub-btrfs").as_str());
        write_file(
            &mut steps,
            concat(install_root, "/etc/default/grub-btrfs/config").as_str(),
            content.as_str(),
            Some(0o644),
        );
        if standalone {
            make_parent(&mut steps, concat3(install_root, "/", ESP_LOCATOR_REL).as_str());
            write_file(
                &mut steps,
                concat3(install_root, "/", ESP_LOCATOR_REL).as_str(),
                esp_locator_script().as_str(),
                Some(0o755),
            );
        }
    }
    assert(plan::acts(steps@) =~= config_steps(*config, install_root@, dry_run));
    steps
}

/// The daemon that watches the snapshots, under each init system.
pub open spec fn daemon_steps(init: InitSystem, install_root: Text) -> Seq<Act> {
    match init {
        InitSystem::Runit => seq![
            Act::MakeDir(install_root + "/etc/runit/sv/grub-btrfsd"@),
            Act::Write {
                path: install_root + "/etc/runit/sv/grub-btrfsd/run"@,
                content: DAEMON_RUNIT@,
                mode: Some(0o755),
            },
            Act::MakeDir(install_root + "/etc/runit/sv/grub-btrfsd/log"@),
            Act::Write {
                path: install_root + "/etc/runit/sv/grub-btrfsd/log/run"@,
                content: DAEMON_LOG@,
                mode: Some(0o755),
            },
        ],
        InitSystem::OpenRC => seq![
            Act::MakeDir(install_root + "/etc/init.d"@),
            Act::Write {
                path: install_root + "/etc/init.d/grub-btrfsd"@,
                content: DAEMON_OPENRC@,
                mode: Some(0o755),
            },
        ],
        InitSystem::S6 => seq![
            Act::MakeDir(install_root + "/etc/s6/adminsv/grub-btrfsd"@),
            Act::Write {
                path: install_root + "/etc/s6/adminsv/grub-btrfsd/type"@,
                content: "longrun\n"@,
                mode: None,
            },
            Act::Write {
                path: install_root + "/etc/s6/adminsv/grub-btrfsd/run"@,
                content: DAEMON_S6@,
                mode: Some(0o755),
            },
        ],
        InitSystem::Dinit => seq![
            Act::MakeDir(install_root + "/etc/dinit.d"@),
            Act::Write {
                path: install_root + "/etc/dinit.d/grub-btrfsd"@,
                content: DAEMON_DINIT@,
                mode: Some(0o644),
            },
        ],
    }
}

fn write_init_service(init: InitSystem, install_root: &str) -> (r: Vec<Step>)
    ensures
        plan::acts(r@) == daemon_steps(init, install_root@),
{
    let mut steps: Vec<Step> = Vec::new();
    match init {
        InitSystem::Runit => {
            make_dir(&mut steps, concat(install_root, "/etc/runit/sv/grub-btrfsd").as_str());
            write_file(
                &mut steps,
                concat(install_root, "/etc/runit/sv/grub-btrfsd/run").as_str(),
                DAEMON_RUNIT,
                Some(0o755),
            );
            make_dir(&mut steps, concat(install_root, "/etc/runit/sv/grub-btrfsd/log").as_str());
            write_file(
                &mut steps,
                concat(install_root, "/etc/runit/sv/grub-btrfsd/log/run").as_str(),
                DAEMON_LOG,
                Some(0o755),
            );
        },
        InitSystem::OpenRC => {
            make_dir(&mut steps, concat(install_root, "/etc/init.d").as_str());
            write_file(
                &mut steps,
                concat(install_root, "/etc/init.d/grub-btrfsd").as_str(),
                DAEMON_OPENRC,
                Some(0o755),
            );
        },
        InitSystem::S6 => {
            make_dir(&mut steps, concat(install_root, "/etc/s6/adminsv/grub-btrfsd").as_str());
            write_file(
                &mut steps,
                concat(install_root, "/etc/s6/adminsv/grub-btrfsd/type").as_str(),
                "longrun\n",
                None,
            );
            write_file(
                &mut steps,
                concat(install_root, "/etc/s6/adminsv/grub-btrfsd/run").as_str(),
                DAEMON_S6,
                Some(0o755),
            );
        },
        InitSystem::Dinit => {
            make_dir(&mut steps, concat(install_root, "/etc/dinit.d").as_str());
            write_file(
                &mut steps,
                concat(install_root, "/etc/dinit.d/grub-btrfsd").as_str(),
                DAEMON_DINIT,
                Some(0o644),
            );
        },
    }
    assert(plan::acts(steps@) =~= daemon_steps(init, install_root@));
    steps
}

/// Installing the daemon.
pub open spec fn service_steps(
    config: DeploymentConfig,
    install_root: Text,
    dry_run: bool,
) -> Seq<Act> {
    if dry_run {
        seq![
            Act::Say(
                "  [dry-run] Would write grub-btrfsd service definition for "@
                    + config.system.init.shown(),
            ),
        ]
    } else {
        daemon_steps(config.system.init, install_root)
    }
}

pub fn write_grub_btrfsd_service(
    config: &DeploymentConfig,
    install_root: &str,
    dry_run: bool,
) -> (r: Vec<Step>)
    ensures
        plan::acts(r@) == service_steps(*config, install_root@, dry_run),
{
    let mut steps: Vec<Step> = Vec::new();
    if dry_run {
        say(
            &mut steps,
            concat(
                "  [dry-run] Would write grub-btrfsd service definition for ",
                config.system.init.to_text().as_str(),
            ).as_str(),
        );
    } else {
        extend(&mut steps, write_init_service(config.system.init, install_root));
    }
    assert(plan::acts(steps@) =~= service_steps(*config, install_root@, dry_run));
    steps
}

/// Generating grub.cfg anew, so that the snapshots have their place in it.
pub open spec fn regenerate_steps(
    config: DeploymentConfig,
    reinstall_exists: bool,
    install_root: Text,
    dry_run: bool,
) -> Seq<Act> {
    seq![
        Act::Chroot {
            root: install_root,
            command: if bootloader::standalone_grub(config) && (dry_run || reinstall_exists) {
                REINSTALL_GRUB_PATH@
            } else {
                MKCONFIG@
            },
        },
    ]
}

fn regenerate_grub_cfg(
    config: &DeploymentConfig,
    reinstall_exists: bool,
    install_root: &str,
    dry_run: bool,
) -> (r: Vec<Step>)
    ensures
        plan::acts(r@) == regenerate_steps(*config, reinstall_exists, install_root@, dry_run),
{
    let mut steps: Vec<Step> = Vec::new();
    let command = if uses_standalone_grub(config) && (dry_run || reinstall_exists) {
        REINSTALL_GRUB_PATH
    } else {
        MKCONFIG
    };
    chroot(&mut steps, install_root, command);
    assert(plan::acts(steps@) =~= regenerate_steps(
        *config,
        reinstall_exists,
        install_root@,
        dry_run,
    ));
    steps
}

/// What was looked up in the target.
#[derive(Debug, Clone)]
pub struct SnapshotFacts {
    /// The UUID of the filesystem of the root.
    pub root_uuid: String,
    /// The content of /etc/fstab.
    pub fstab: String,
    /// The script that reinstalls GRUB is there.
    pub reinstall_exists: bool,
}

/// What follows once the packages are there.
pub open spec fn install_steps(
    config: DeploymentConfig,
    root_fs_device: Text,
    facts: SnapshotFacts,
    install_root: Text,
    dry_run: bool,
) -> Seq<Act> {
    snapper_steps(root_fs_device, facts.root_uuid@, facts.fstab@, install_root, dry_run)
        + overlay_steps(root_fs_device, install_root, dry_run) + config_steps(
        config,
        install_root,
        dry_run,
    ) + service_steps(config, install_root, dry_run) + regenerate_steps(
        config,
        facts.reinstall_exists,
        install_root,
        dry_run,
    )
}

/// Whether grub-btrfs is there in the end: it was asked for, and the user agreed.
/// A dry run takes the agreement for granted.
pub open spec fn installed(config: DeploymentConfig, agreed: bool, dry_run: bool) -> bool {
    config.packages.install_grub_btrfs && (dry_run || agreed)
}

/// Sets grub-btrfs up after [`install_packages`]. `agreed` says whether the user
/// let the packages in. Where they did not, nothing is done, and the caller has to
/// take back what counts on grub-btrfs.
pub fn install_grub_btrfs(
    config: &DeploymentConfig,
    root_fs_device: &str,
    agreed: bool,
    facts: &SnapshotFacts,
    install_root: &str,
    dry_run: bool,
) -> (r: (bool, Vec<Step>))
    ensures
        r.0 == installed(*config, agreed, dry_run),
        plan::acts(r.1@) == if installed(*config, agreed, dry_run) {
            install_steps(*config, root_fs_device@, *facts, install_root@, dry_run)
        } else {
            seq![]
        },
{
    if !(config.packages.install_grub_btrfs && (dry_run || agreed)) {
        let none: Vec<Step> = Vec::new();
        assert(plan::acts(none@) =~= seq![]);
        return (false, none);
    }
    let mut steps = configure_snapper_root(
        root_fs_device,
        facts.root_uuid.as_str(),
        facts.fstab.as_str(),
        install_root,
        dry_run,
    );
    extend(&mut steps, create_overlay_subvolume(root_fs_device, install_root, dry_run));
    extend(&mut steps, write_grub_btrfs_config(config, install_root, dry_run));
    extend(&mut steps, write_grub_btrfsd_service(config, install_root, dry_run));
    extend(
        &mut steps,
        regenerate_grub_cfg(config, facts.reinstall_exists, install_root, dry_run),
    );
    (true, steps)
}

// -------------------------------------------------------------------------- laws
/// The command mounts the top of the filesystem on the device.
pub open spec fn opens_the_top(command: Text, dev: Text) -> bool {
    text::begins(command, "mkdir -p /mnt && mount -t btrfs -o subvolid=5 "@ + dev + " /mnt && "@)
        && text::ends(command, "; umount /mnt; exit $ret"@)
}

proof fn lemma_made()
    ensures
        text::begins(SNAPSHOTS_CMD_2@, " /mnt && btrfs subvolume create /mnt/@snapshots && chmod 750 /mnt/@snapshots;"@),
        text::ends(SNAPSHOTS_CMD_2@, "; umount /mnt; exit $ret"@),
        text::begins(OVERLAY_CMD_2@, " /mnt && test -e /mnt/@overlay || btrfs subvolume create /mnt/@overlay;"@),
        text::ends(OVERLAY_CMD_2@, "; umount /mnt; exit $ret"@),
{
    reveal_strlit(" /mnt && btrfs subvolume create /mnt/@snapshots && chmod 750 /mnt/@snapshots; ret=$?; umount /mnt; exit $ret");
    reveal_strlit(" /mnt && btrfs subvolume create /mnt/@snapshots && chmod 750 /mnt/@snapshots;");
    assert(SNAPSHOTS_CMD_2@.subrange(0, 77) =~= " /mnt && btrfs subvolume create /mnt/@snapshots && chmod 750 /mnt/@snapshots;"@);
    reveal_strlit("; umount /mnt; exit $ret");
    assert(SNAPSHOTS_CMD_2@.subrange(84, 108) =~= "; umount /mnt; exit $ret"@);
    reveal_strlit(" /mnt && test -e /mnt/@overlay || btrfs subvolume create /mnt/@overlay; ret=$?; umount /mnt; exit $ret");
    reveal_strlit(" /mnt && test -e /mnt/@overlay || btrfs subvolume create /mnt/@overlay;");
    assert(OVERLAY_CMD_2@.subrange(0, 71) =~= " /mnt && test -e /mnt/@overlay || btrfs subvolume create /mnt/@overlay;"@);
    reveal_strlit("; umount /mnt; exit $ret");
    assert(OVERLAY_CMD_2@.subrange(78, 102) =~= "; umount /mnt; exit $ret"@);
}

proof fn lemma_command(dev: Text, rest: Text, deed: Text)
    requires
        text::begins(rest, " /mnt && "@ + deed),
        text::ends(rest, "; umount /mnt; exit $ret"@),
    ensures
        ({
            let command = "mkdir -p /mnt && mount -t btrfs -o subvolid=5 "@ + dev + rest;
            opens_the_top(command, dev) && text::holds(command, deed)
        }),
{
    let first = "mkdir -p /mnt && mount -t btrfs -o subvolid=5 "@ + dev;
    let command = first + rest;
    let inner = " /mnt && "@ + deed;
    let tail = rest.skip(inner.len() as int);
    assert(rest =~= inner + tail) by {
        assert(rest.subrange(0, inner.len() as int) == inner);
    }
    let before = first + " /mnt && "@;
    assert(command =~= before + deed + tail);
    crate::effects::lemma_part(before, deed, tail);
    assert(command.subrange(0, before.len() as int) =~= before);
    let last = "; umount /mnt; exit $ret"@;
    assert(command.subrange(command.len() - last.len(), command.len() as int) =~= rest.subrange(
        rest.len() - last.len(),
        rest.len() as int,
    ));
}

/// The subvolume that is made for the snapshots, on the filesystem of the root and for the
/// administrator alone, is the one that the fstab then mounts by the UUID of that filesystem;
/// it is mounted at last. The one over which snapshots are booted lies beside it.
pub proof fn snapshots_have_their_place(dev: Text, uuid: Text, fstab: Text, root: Text)
    ensures
        ({
            let steps = snapper_steps(dev, uuid, fstab, root, false);
            let beside = overlay_steps(dev, root, false);
            &&& exists|i: int|
                0 <= i < steps.len() && (#[trigger] steps[i] matches Act::Chroot {
                    root: r,
                    command,
                } && r == root && opens_the_top(command, dev) && text::holds(
                    command,
                    "btrfs subvolume create /mnt/@snapshots && chmod 750 /mnt/@snapshots;"@,
                ))
            &&& !text::holds(fstab, "  /.snapshots  "@) ==> exists|content: Text|
                #[trigger] crate::effects::leaves(steps, root + "/etc/fstab"@, content)
                    && text::begins(content, fstab) && text::ends(
                    content,
                    "UUID="@ + uuid
                        + "  /.snapshots  btrfs  subvol=@snapshots,defaults,noatime,compress=zstd  0  0\n"@,
                )
            &&& text::holds(fstab, "  /.snapshots  "@) ==> crate::effects::untouched(
                steps,
                root + "/etc/fstab"@,
            )
            &&& steps.last() == (Act::Chroot { root, command: "mount /.snapshots"@ })
            &&& beside.len() == 1
            &&& beside[0] matches Act::Chroot { root: r, command } && r == root && opens_the_top(
                command,
                dev,
            ) && text::holds(
                command,
                "test -e /mnt/@overlay || btrfs subvolume create /mnt/@overlay;"@,
            )
        }),
{
    let steps = snapper_steps(dev, uuid, fstab, root, false);
    lemma_made();
    let a = "btrfs subvolume create /mnt/@snapshots && chmod 750 /mnt/@snapshots;"@;
    let b = "test -e /mnt/@overlay || btrfs subvolume create /mnt/@overlay;"@;
    assert(" /mnt && "@ + a
        =~= " /mnt && btrfs subvolume create /mnt/@snapshots && chmod 750 /mnt/@snapshots;"@) by {
        reveal_strlit(" /mnt && ");
        reveal_strlit("btrfs subvolume create /mnt/@snapshots && chmod 750 /mnt/@snapshots;");
        reveal_strlit(
            " /mnt && btrfs subvolume create /mnt/@snapshots && chmod 750 /mnt/@snapshots;",
        );
    }
    assert(" /mnt && "@ + b
        =~= " /mnt && test -e /mnt/@overlay || btrfs subvolume create /mnt/@overlay;"@) by {
        reveal_strlit(" /mnt && ");
        reveal_strlit("test -e /mnt/@overlay || btrfs subvolume create /mnt/@overlay;");
        reveal_strlit(" /mnt && test -e /mnt/@overlay || btrfs subvolume create /mnt/@overlay;");
    }
    lemma_command(dev, SNAPSHOTS_CMD_2@, a);
    lemma_command(dev, OVERLAY_CMD_2@, b);
    assert(steps[2] == (Act::Chroot {
        root,
        command: create_snapshots_subvolume_cmd_text(dev),
    }));
    let path = root + "/etc/fstab"@;
    if let Some(content) = fstab_for(fstab, uuid) {
        assert(crate::effects::touches(steps[4], path));
        assert(crate::effects::leaves(steps, path, content));
        let last = "UUID="@ + uuid + FSTAB_ENTRY@;
        assert(content.subrange(0, fstab.len() as int) =~= fstab);
        assert(content.subrange(content.len() - last.len(), content.len() as int) =~= last);
    }
}

} // verus!
