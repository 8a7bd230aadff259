//! The texts of the boot loader: its defaults, scripts and pacman hooks.
use vstd::prelude::*;

use crate::text::Text;

verus! {

/// The modules of a standalone GRUB, those for encrypted volumes among them.
pub const GRUB_STANDALONE_MODULES: &'static str =
    "all_video boot btrfs cat chain configfile echo efifwsetup efinet ext2 fat font gettext gfxmenu gfxterm gfxterm_background gzio halt help hfsplus iso9660 jpeg keystatus loadenv loopback linux ls lsefi lsefimmap lsefisystab lssal memdisk minicmd normal ntfs part_apple part_msdos part_gpt password_pbkdf2 png probe reboot regexp search search_fs_uuid search_fs_file search_label sleep smbios squash4 test true video xfs zfs zstd cryptodisk luks luks2 gcry_rijndael gcry_sha256 gcry_sha512";

pub const DEFAULTS: &'static str = r#"# GRUB boot loader configuration
# Generated by Deploytix

GRUB_DEFAULT=0
GRUB_TIMEOUT=5
GRUB_DISTRIBUTOR="Artix"
GRUB_CMDLINE_LINUX_DEFAULT=""#;

/// /etc/default/grub.
pub open spec fn defaults_text(cmdline: Text) -> Text {
    DEFAULTS@ + cmdline + "\"\n"@
}

pub fn defaults(cmdline: &str) -> (r: String)
    ensures
        r@ == defaults_text(cmdline@),
{
    let mut s = DEFAULTS.to_owned();
    s.push_str(cmdline);
    s.push_str("\"\n");
    s
}

pub const DEFAULTS_THIN: &'static str = r#"# GRUB boot loader configuration
# Generated by Deploytix - LVM Thin Provisioning layout

GRUB_DEFAULT=0
GRUB_TIMEOUT=5
GRUB_DISTRIBUTOR="Artix"
GRUB_CMDLINE_LINUX_DEFAULT=""#;

/// /etc/default/grub over a thin pool.
pub open spec fn defaults_thin_text(cmdline: Text) -> Text {
    DEFAULTS_THIN@ + cmdline + "\"\n"@
}

pub fn defaults_thin(cmdline: &str) -> (r: String)
    ensures
        r@ == defaults_thin_text(cmdline@),
{
    let mut s = DEFAULTS_THIN.to_owned();
    s.push_str(cmdline);
    s.push_str("\"\n");
    s
}

pub const DEFAULTS_AB: &'static str = r#"# GRUB boot loader configuration
# Generated by Deploytix - LVM immutable A/B (dm-verity) layout

GRUB_DEFAULT=0
GRUB_TIMEOUT=5
GRUB_DISTRIBUTOR="Artix"
GRUB_CMDLINE_LINUX_DEFAULT=""#;

/// /etc/default/grub over two verified slots.
pub open spec fn defaults_ab_text(cmdline: Text) -> Text {
    DEFAULTS_AB@ + cmdline + "\"\n"@
}

pub fn defaults_ab(cmdline: &str) -> (r: String)
    ensures
        r@ == defaults_ab_text(cmdline@),
{
    let mut s = DEFAULTS_AB.to_owned();
    s.push_str(cmdline);
    s.push_str("\"\n");
    s
}

pub const GRUB_INSTALL: &'static str =
    "grub-install --target=x86_64-efi --boot-directory=/boot --efi-directory=/boot/efi --removable ";

/// The command that installs GRUB.
pub open spec fn grub_install_text(device: Text) -> Text {
    GRUB_INSTALL@ + device
}

pub fn grub_install(device: &str) -> (r: String)
    ensures
        r@ == grub_install_text(device@),
{
    let mut s = GRUB_INSTALL.to_owned();
    s.push_str(device);
    s
}

pub const MKSTANDALONE_1: &'static str =
    "grub-mkstandalone --format=x86_64-efi --output=/boot/efi/EFI/BOOT/BOOTX64.EFI --disable-shim-lock --modules=\"";

pub const MKSTANDALONE_2: &'static str = "\" \"boot/grub/grub.cfg=/boot/grub/grub.cfg\"";

/// The command that builds a standalone GRUB.
pub open spec fn mkstandalone_text(modules: Text) -> Text {
    MKSTANDALONE_1@ + modules + MKSTANDALONE_2@
}

pub fn mkstandalone(modules: &str) -> (r: String)
    ensures
        r@ == mkstandalone_text(modules@),
{
    let mut s = MKSTANDALONE_1.to_owned();
    s.push_str(modules);
    s.push_str(MKSTANDALONE_2);
    s
}

/// How a dry run shows that command.
pub const MKSTANDALONE_SHOWN: &'static str =
    "  [dry-run] grub-mkstandalone --format=x86_64-efi --output=/boot/efi/EFI/BOOT/BOOTX64.EFI --disable-shim-lock --modules=\"...\" boot/grub/grub.cfg=/boot/grub/grub.cfg";

pub const REINSTALL_HOOK: &'static str = r#"[Trigger]
Operation = Install
Operation = Upgrade
Operation = Remove
Type = Path
Target = usr/lib/modules/*/vmlinuz
Target = usr/lib/grub/*

[Action]
Description = Reinstalling GRUB for encrypted boot...
When = PostTransaction
Exec = /usr/local/bin/reinstall-grub
"#;

/// The pacman hook that reinstalls GRUB.
pub open spec fn reinstall_hook_text(depends: Text) -> Text {
    REINSTALL_HOOK@ + depends + "\n"@
}

pub fn reinstall_hook(depends: &str) -> (r: String)
    ensures
        r@ == reinstall_hook_text(depends@),
{
    let mut s = REINSTALL_HOOK.to_owned();
    s.push_str(depends);
    s.push_str("\n");
    s
}

pub const RESIGN_SBCTL: &'static str = r#"
if command -v sbctl &>/dev/null; then
    echo "Re-signing SecureBoot files..."
    sbctl sign-all
fi
"#;

pub const RESIGN_SCRIPT: &'static str = r#"
if [ -x /usr/local/bin/sign-kernel ]; then
    echo "Re-signing SecureBoot files..."
    /usr/local/bin/sign-kernel
fi
"#;

pub const REINSTALL_STANDALONE_1: &'static str = r#"#!/bin/bash
# Reinstall GRUB after kernel or GRUB package update
# Generated by Deploytix
#
# Configuration: encrypted boot + standalone GRUB (SecureBoot)
# The grub.cfg is embedded inside the EFI binary; a plain grub-mkconfig
# is NOT sufficient — the standalone binary must be rebuilt.

set -e

MODULES=""#;

pub const REINSTALL_STANDALONE_2: &'static str = r#""

echo "Regenerating GRUB config..."
grub-mkconfig -o /boot/grub/grub.cfg

echo "Rebuilding standalone GRUB EFI binary..."
grub-mkstandalone \
    --format=x86_64-efi \
    --output=/boot/efi/EFI/BOOT/BOOTX64.EFI \
    --disable-shim-lock \
    --modules="$MODULES" \
    "boot/grub/grub.cfg=/boot/grub/grub.cfg"
"#;

pub const REINSTALL_STANDALONE_3: &'static str = r#"
echo "GRUB reinstallation complete"
"#;

/// The script that rebuilds a standalone GRUB.
pub open spec fn reinstall_standalone_text(modules: Text, secureboot: Text) -> Text {
    REINSTALL_STANDALONE_1@ + modules + REINSTALL_STANDALONE_2@ + secureboot + REINSTALL_STANDALONE_3@
}

pub fn reinstall_standalone(modules: &str, secureboot: &str) -> (r: String)
    ensures
        r@ == reinstall_standalone_text(modules@, secureboot@),
{
    let mut s = REINSTALL_STANDALONE_1.to_owned();
    s.push_str(modules);
    s.push_str(REINSTALL_STANDALONE_2);
    s.push_str(secureboot);
    s.push_str(REINSTALL_STANDALONE_3);
    s
}

pub const REINSTALL_STANDARD_1: &'static str = r#"#!/bin/bash
# Reinstall GRUB after kernel or GRUB package update
# Generated by Deploytix
#
# Configuration: encrypted boot (standard grub-install)

set -e

echo "Regenerating GRUB config..."
grub-mkconfig -o /boot/grub/grub.cfg

echo "Reinstalling GRUB to EFI..."
grub-install --target=x86_64-efi --boot-directory=/boot --efi-directory=/boot/efi --removable "#;

pub const REINSTALL_STANDARD_2: &'static str = r#"
echo "GRUB reinstallation complete"
"#;

/// The script that reinstalls GRUB.
pub open spec fn reinstall_standard_text(device: Text, secureboot: Text) -> Text {
    REINSTALL_STANDARD_1@ + device + "\n"@ + secureboot + REINSTALL_STANDARD_2@
}

pub fn reinstall_standard(device: &str, secureboot: &str) -> (r: String)
    ensures
        r@ == reinstall_standard_text(device@, secureboot@),
{
    let mut s = REINSTALL_STANDARD_1.to_owned();
    s.push_str(device);
    s.push_str("\n");
    s.push_str(secureboot);
    s.push_str(REINSTALL_STANDARD_2);
    s
}

pub const PATCH_1: &'static str = r##"#!/bin/bash
# Patch grub-btrfs for Deploytix encrypted layouts.
# Generated by Deploytix
#
# 1. /etc/grub.d/41_snapshots-btrfs: `grub-probe --target=fs_uuid` cannot read
#    through dm-crypt/dm-integrity mapper stacks (e.g. `<name>_dif`) and exits
#    non-zero — under the script's `set -e` that aborts grub-mkconfig entirely.
#    A `grub-probe || blkid` fallback restores UUID resolution: blkid reads the
#    filesystem superblock through the mapper device and has no opinion about
#    the device-mapper hierarchy above it.
# 2. /etc/default/grub-btrfs/config: GRUB_BTRFS_ENABLE_CRYPTODISK must match
#    whether /boot itself is encrypted, so the cryptodisk branch only runs
#    where GRUB actually has to unlock something.
# 3. On the cryptodisk branch the generator picks the container to unlock by
#    grepping the kernel cmdline for `cryptdevice=`, a token the stock
#    `encrypt` hook consumes but Deploytix's custom hooks never emit. That
#    grep is `|| true`-guarded upstream, so grub-mkconfig still succeeds --
#    but the generator then emits `cryptomount -a`, and GRUB prompts for
#    every LUKS container it can see before a snapshot entry boots. Pinning
#    crypt_source to the boot container's UUID restores `cryptomount -u`.
#
# Idempotent: markers record applied state. Re-run automatically whenever the
# grub-btrfs package writes 41_snapshots-btrfs (91-patch-grub-btrfs.hook).
# No-op when grub-btrfs is not installed.

set -euo pipefail

TARGET="/etc/grub.d/41_snapshots-btrfs"
MARKER="# DEPLOYTIX-INTEGRITY-PATCH-V1"
CONFIG="/etc/default/grub-btrfs/config"
CONFIG_MARKER="# DEPLOYTIX-CRYPTODISK-V1"
SOURCE_MARKER="# DEPLOYTIX-CRYPTSOURCE-V1"
CRYPTODISK=""##;

pub const PATCH_2: &'static str = r#""
BOOT_LUKS_UUID=""#;

pub const PATCH_3: &'static str = r#""

patch_snapshots_script() {
    if [ ! -f "$TARGET" ]; then
        echo "grub-btrfs script not found at $TARGET; nothing to patch." >&2
        return 0
    fi

    if grep -qF "$MARKER" "$TARGET"; then
        echo "Integrity patch already applied to $TARGET."
        return 0
    fi

    # root_uuid: grub-probe -> blkid -> empty
    sed -i 's@^root_uuid=\$(\${grub_probe} --device \${root_device} --target="fs_uuid" 2>/dev/null).*$@root_uuid=$(${grub_probe} --device ${root_device} --target="fs_uuid" 2>/dev/null || blkid -s UUID -o value "${root_device}" 2>/dev/null || true) # patched: integrity fallback@' "$TARGET"

    # boot_uuid: same chain
    sed -i 's@^boot_uuid=\$(\${grub_probe} --device \${boot_device} --target="fs_uuid" 2>/dev/null).*$@boot_uuid=$(${grub_probe} --device ${boot_device} --target="fs_uuid" 2>/dev/null || blkid -s UUID -o value "${boot_device}" 2>/dev/null || true) # patched: integrity fallback@' "$TARGET"

    # boot_hs: hints_string has no good fallback; just absorb failure
    sed -i 's@^boot_hs=\$(\${grub_probe} --device \${boot_device} --target="hints_string" 2>/dev/null).*$@boot_hs=$(${grub_probe} --device ${boot_device} --target="hints_string" 2>/dev/null || true) # patched: integrity fallback@' "$TARGET"

    # boot_fs: fall back to blkid TYPE
    sed -i 's@^boot_fs=\$(\${grub_probe} --device \${boot_device} --target="fs" 2>/dev/null).*$@boot_fs=$(${grub_probe} --device ${boot_device} --target="fs" 2>/dev/null || blkid -s TYPE -o value "${boot_device}" 2>/dev/null || true) # patched: integrity fallback@' "$TARGET"

    # Insert marker right after the shebang so future invocations skip
    sed -i "1a $MARKER" "$TARGET"

    # Sanity check: all four patches landed
    if ! grep -q "patched: integrity fallback" "$TARGET" \
       || [ "$(grep -c 'patched: integrity fallback' "$TARGET")" -lt 4 ]; then
        echo "ERROR: integrity patch did not apply cleanly to $TARGET" >&2
        exit 1
    fi

    echo "Patched $TARGET for LUKS2/integrity (grub-probe -> blkid fallback)."
}

# Applied once; the marker preserves any later manual edits by the user.
ensure_cryptodisk_flag() {
    if [ ! -f "$CONFIG" ]; then
        return 0
    fi

    if grep -qF "$CONFIG_MARKER" "$CONFIG"; then
        echo "GRUB_BTRFS_ENABLE_CRYPTODISK already managed in $CONFIG."
        return 0
    fi

    if grep -Eq '^#?[[:space:]]*GRUB_BTRFS_ENABLE_CRYPTODISK=' "$CONFIG"; then
        sed -i -E "s|^#?[[:space:]]*GRUB_BTRFS_ENABLE_CRYPTODISK=.*|GRUB_BTRFS_ENABLE_CRYPTODISK=\"$CRYPTODISK\" $CONFIG_MARKER|" "$CONFIG"
    else
        printf '\nGRUB_BTRFS_ENABLE_CRYPTODISK="%s" %s\n' "$CRYPTODISK" "$CONFIG_MARKER" >>"$CONFIG"
    fi

    echo "Set GRUB_BTRFS_ENABLE_CRYPTODISK=\"$CRYPTODISK\" in $CONFIG."
}

# Pin the LUKS container GRUB unlocks for snapshot entries. Appends a default
# to the existing extraction rather than rewriting it, so an upstream rewrite
# of that line degrades to `cryptomount -a` instead of corrupting the script.
ensure_crypt_source_fallback() {
    [ -n "$BOOT_LUKS_UUID" ] || return 0
    [ -f "$TARGET" ] || return 0

    if grep -qF "$SOURCE_MARKER" "$TARGET"; then
        echo "crypt_source fallback already applied to $TARGET."
        return 0
    fi

    if ! grep -q "cryptdevice=" "$TARGET"; then
        echo "No cryptdevice extraction in $TARGET; skipping crypt_source fallback." >&2
        return 0
    fi

    sed -i "/grep -o -P .cryptdevice=/a crypt_source=\"\${crypt_source:-UUID=$BOOT_LUKS_UUID}\" $SOURCE_MARKER" "$TARGET"

    if ! grep -qF "$SOURCE_MARKER" "$TARGET"; then
        echo "ERROR: crypt_source fallback did not apply to $TARGET" >&2
        exit 1
    fi

    echo "Pinned snapshot cryptomount to UUID=$BOOT_LUKS_UUID in $TARGET."
}

patch_snapshots_script
ensure_cryptodisk_flag
ensure_crypt_source_fallback
"#;

/// The script that adapts grub-btrfs to encrypted layouts.
pub open spec fn patch_script_text(cryptodisk: Text, boot_luks_uuid: Text) -> Text {
    PATCH_1@ + cryptodisk + PATCH_2@ + boot_luks_uuid + PATCH_3@
}

pub fn patch_script(cryptodisk: &str, boot_luks_uuid: &str) -> (r: String)
    ensures
        r@ == patch_script_text(cryptodisk@, boot_luks_uuid@),
{
    let mut s = PATCH_1.to_owned();
    s.push_str(cryptodisk);
    s.push_str(PATCH_2);
    s.push_str(boot_luks_uuid);
    s.push_str(PATCH_3);
    s
}

/// The pacman hook that runs it.
pub const PATCH_HOOK: &'static str = r#"[Trigger]
Operation = Install
Operation = Upgrade
Type = Path
Target = etc/grub.d/41_snapshots-btrfs

[Action]
Description = Adapting grub-btrfs to Deploytix encrypted layout...
When = PostTransaction
Exec = /usr/local/bin/patch-grub-btrfs-integrity
Depends = grub-btrfs
"#;

} // verus!
