//! The texts of the initramfs hooks.
use vstd::prelude::*;

use crate::text::Text;

verus! {

/// The hook that opens every container of crypttab.
pub const CRYPTTAB_UNLOCK_HOOK: &'static str = r#"#!/usr/bin/ash
# SPDX-License-Identifier: GPL-2.0-only
# crypttab-unlock: A custom mkinitcpio hook to unlock all LUKS-encrypted partitions
# using entries from /etc/crypttab.
#
# Features:
# - Checks if device is already unlocked before attempting
# - Waits for each unlock to complete before proceeding
# - Sequential processing to ensure proper ordering

# Function to wait for the source device to appear
wait_for_device() {
    local devpath="$1"
    local timeout=30

    while [ ! -e "$devpath" ] && [ $timeout -gt 0 ]; do
        sleep 1
        timeout=$((timeout - 1))
    done

    if [ ! -e "$devpath" ]; then
        echo "[crypttab-unlock] ERROR: Device $devpath not found after waiting."
        return 1
    fi
    return 0
}

# Function to wait for mapped device to appear after unlock
wait_for_mapper() {
    local mapper_path="$1"
    local timeout=20

    while [ ! -b "$mapper_path" ] && [ $timeout -gt 0 ]; do
        sleep 1
        timeout=$((timeout - 1))
    done

    if [ ! -b "$mapper_path" ]; then
        return 1
    fi
    return 0
}

# Function to check if a LUKS device is already open
is_already_unlocked() {
    local mapper_name="$1"
    local mapper_path="/dev/mapper/$mapper_name"

    # Check if the mapper device exists
    if [ -b "$mapper_path" ]; then
        return 0  # Already unlocked
    fi
    return 1  # Not unlocked
}

# Function to unlock a single LUKS device
unlock_device() {
    local device="$1"
    local mapper_name="$2"
    local keyfile="$3"
    local options="$4"
    local mapper_path="/dev/mapper/$mapper_name"

    # Check if already unlocked
    if is_already_unlocked "$mapper_name"; then
        echo "[crypttab-unlock] $mapper_name is already unlocked, skipping."
        return 0
    fi

    # Build cryptsetup command
    local cmd="cryptsetup open $device $mapper_name"
    if [ -n "$keyfile" ] && [ "$keyfile" != "none" ]; then
        cmd="$cmd --key-file $keyfile"
    fi

    # Translate crypttab options to cryptsetup flags
    case "$options" in
        *discard*) cmd="$cmd --allow-discards" ;;
    esac

    # Run the cryptsetup command
    echo "[crypttab-unlock] Running: $cmd"
    if ! $cmd; then
        echo "[crypttab-unlock] ERROR: cryptsetup failed for $mapper_name"
        return 1
    fi

    # Wait for the mapped device to appear
    echo "[crypttab-unlock] Waiting for $mapper_path to appear..."
    if ! wait_for_mapper "$mapper_path"; then
        echo "[crypttab-unlock] ERROR: $mapper_path did not appear after unlock"
        return 1
    fi

    echo "[crypttab-unlock] Successfully unlocked $mapper_name -> $mapper_path"
    return 0
}

run_hook() {
    # Ensure cryptsetup is available in the initramfs environment
    if ! command -v cryptsetup >/dev/null 2>&1; then
        echo "[crypttab-unlock] ERROR: cryptsetup not found in initramfs."
        return 1
    fi

    local crypttab="/etc/crypttab"
    if [ ! -f "$crypttab" ]; then
        echo "[crypttab-unlock] No /etc/crypttab found, skipping."
        return 0
    fi

    echo "[crypttab-unlock] Processing $crypttab ..."
    local ret=0
    local unlock_count=0
    local skip_count=0
    local fail_count=0

    while IFS= read -r line; do
        # Skip empty lines and comments
        case "$line" in
            ''|\#*) continue ;;
        esac

        # Parse fields (MappingName, Device, KeyFile, Options)
        set -- $line
        local mapping="$1"
        local device="$2"
        local keyfile="$3"
        shift 3 2>/dev/null || true
        local options="$*"

        # Convert UUID= to device path
        case "$device" in
            UUID=*)
                local uuid="${device#UUID=}"
                device="/dev/disk/by-uuid/$uuid"
                ;;
        esac

        # Determine the full mapper name.
        # If the crypttab name already starts with "Crypt-", use it as-is.
        # Otherwise, title-case it and prepend "Crypt-" (e.g., "Root" -> "Crypt-Root").
        local full_mapper_name
        local formatted_mapping=""
        case "$mapping" in
            Crypt-*)
                full_mapper_name="$mapping"
                # Extract the portion after "Crypt-" for the EFI check below
                formatted_mapping="${mapping#Crypt-}"
                ;;
            *)
                formatted_mapping=$(echo "$mapping" | awk '{print toupper(substr($0,1,1)) tolower(substr($0,2))}')
                full_mapper_name="Crypt-$formatted_mapping"
                ;;
        esac

        # Skip EFI partition entries (should never be encrypted, but guard against misconfiguration)
        case "$formatted_mapping" in
            Efi|efi|EFI)
                echo "[crypttab-unlock] Skipping EFI partition (not encrypted)"
                skip_count=$((skip_count + 1))
                continue
                ;;
        esac

        echo "[crypttab-unlock] Processing entry: $mapping -> $full_mapper_name"

        # Check if already unlocked first (before waiting for device)
        if is_already_unlocked "$full_mapper_name"; then
            echo "[crypttab-unlock] $full_mapper_name already unlocked, skipping."
            skip_count=$((skip_count + 1))
            continue
        fi

        # Wait for the source device to be available
        echo "[crypttab-unlock] Waiting for source device $device ..."
        if ! wait_for_device "$device"; then
            echo "[crypttab-unlock] ERROR: Device $device not found. Skipping $full_mapper_name."
            fail_count=$((fail_count + 1))
            ret=1
            continue
        fi

        # Verify keyfile existence
        if [ -n "$keyfile" ] && [ "$keyfile" != "none" ]; then
            if [ ! -f "$keyfile" ]; then
                echo "[crypttab-unlock] ERROR: Keyfile $keyfile does not exist. Skipping $full_mapper_name."
                fail_count=$((fail_count + 1))
                ret=1
                continue
            fi
        fi

        # Unlock the device
        if unlock_device "$device" "$full_mapper_name" "$keyfile" "$options"; then
            unlock_count=$((unlock_count + 1))
        else
            fail_count=$((fail_count + 1))
            ret=1
        fi

        # Small delay to ensure device mapper settles
        sleep 0.2

    done < "$crypttab"

    echo "[crypttab-unlock] Complete: $unlock_count unlocked, $skip_count skipped, $fail_count failed"
    return $ret
}

"#;

pub const CRYPTTAB_UNLOCK_INSTALL: &'static str = r#"#!/bin/bash
# SPDX-License-Identifier: GPL-2.0-only
# This install script ensures that the crypttab-unlock
# hook is added to the initramfs image and
# that the necessary binary (cryptsetup) is included

build() {
    local mod

    map add_module 'dm-crypt' 'dm-integrity' 'hid-generic?'
    if [[ -n "$CRYPTO_MODULES" ]]; then
        for mod in $CRYPTO_MODULES; do
            add_module "$mod"
        done
    else
        add_all_modules '/crypto/'
    fi

    add_binary 'cryptsetup'

    map add_udev_rule \
        '10-dm.rules' \
        '13-dm-disk.rules' \
        '95-dm-notify.rules'

    # cryptsetup calls pthread_create(), which dlopen()s libgcc_s.so.1
    add_binary '/usr/lib/libgcc_s.so.1'

    # cryptsetup loads the legacy provider which is required for whirlpool
    add_binary '/usr/lib/ossl-modules/legacy.so'

    # Include /etc/crypttab so the hook can read it at boot
    add_file '/etc/crypttab'

    add_runscript
}
"#;

pub const VERITY_AB_INSTALL: &'static str = r#"#!/bin/bash
build() {
    add_binary 'veritysetup'
    add_binary 'blkid'
    add_binary 'mountpoint'
    add_module 'dm-verity'
    add_module 'overlay'
    add_runscript
}

help() {
    echo "verity-ab: Mount the active dm-verity root slot (LVM immutable A/B)"
}
"#;

pub const VERITY_AB_1: &'static str = r#"#!/usr/bin/ash
# verity-ab: Mount the active dm-verity root slot (LVM immutable A/B)
# Generated by Deploytix
#
# Volume group: "#;

pub const VERITY_AB_2: &'static str = r#" (B)
# Writable /etc overlay upper: "#;

pub const VERITY_AB_3: &'static str = r#"

wait_for_block_device() {
    local device="$1" timeout=30
    while [ ! -b "$device" ] && [ $timeout -gt 0 ]; do
        sleep 1; timeout=$((timeout - 1))
    done
    [ -b "$device" ]
}

# Read a key from /proc/cmdline (last occurrence wins).
cmdline_value() {
    local key="$1" arg out=""
    for arg in $(cat /proc/cmdline 2>/dev/null); do
        case "$arg" in
            "$key"=*) out="${arg#$key=}" ;;
        esac
    done
    echo "$out"
}

run_hook() {
    mount_handler=deploytix_verity_handler
}

deploytix_verity_handler() {
    local new_root="$1"
    local ret=0
    local vg=""#;

pub const VERITY_AB_4: &'static str = r#""

    if mountpoint -q "$new_root" 2>/dev/null; then
        echo "[verity-ab] $new_root already mounted; skipping"
        return 0
    fi

    local slot roothash root_lv hash_lv
    slot=$(cmdline_value deploytix.slot)
    roothash=$(cmdline_value deploytix.roothash)
    [ -n "$slot" ] || slot=A

    case "$slot" in
        A|a) root_lv=""#;

pub const VERITY_AB_5: &'static str = r#"" ;;
        B|b) root_lv=""#;

pub const VERITY_AB_6: &'static str = r#"" ;;
        *)   echo "[verity-ab] Unknown slot '$slot'; defaulting to A" >&2
             root_lv=""#;

pub const VERITY_AB_7: &'static str = r#"" ;;
    esac
    echo "[verity-ab] Active slot: $slot (root=$root_lv hash=$hash_lv)"

    if [ -z "$roothash" ]; then
        echo "[verity-ab] FATAL: no deploytix.roothash= on cmdline" >&2
        return 1
    fi

    local data_dev="/dev/$vg/$root_lv"
    local hash_dev="/dev/$vg/$hash_lv"

    echo "[verity-ab] Waiting for $data_dev and $hash_dev ..."
    if ! wait_for_block_device "$data_dev" || ! wait_for_block_device "$hash_dev"; then
        echo "[verity-ab] FATAL: slot devices not found (VG not activated?)" >&2
        return 1
    fi

    echo "[verity-ab] Opening dm-verity ($data_dev, roothash=$roothash)"
    if ! veritysetup open "$data_dev" "#;

pub const VERITY_AB_8: &'static str = r#" "$hash_dev" "$roothash"; then
        echo "[verity-ab] FATAL: dm-verity open failed (image tampered or wrong hash)" >&2
        return 1
    fi

    echo "[verity-ab] === Mounting root (read-only) ==="
    mkdir -p "$new_root"
    if ! mount -o ro "/dev/mapper/"#;

pub const VERITY_AB_9: &'static str = r#"" "$new_root"; then
        echo "[verity-ab] FATAL: cannot mount verified root" >&2
        return 1
    fi

    # Writable /etc overlay: lower = read-only image /etc, upper/work persist on
    # the etc_overlay LV so config edits survive reboots and slot flips.
    echo "[verity-ab] === Layering writable /etc overlay ==="
    if wait_for_block_device "/dev/$vg/"#;

pub const VERITY_AB_10: &'static str = r#""; then
        mkdir -p /run/deploytix-etc
        if mount "/dev/$vg/"#;

pub const VERITY_AB_11: &'static str = r#"" /run/deploytix-etc; then
            mkdir -p /run/deploytix-etc/upper /run/deploytix-etc/work
            if ! mount -t overlay overlay \
                -o "lowerdir=$new_root/etc,upperdir=/run/deploytix-etc/upper,workdir=/run/deploytix-etc/work" \
                "$new_root/etc"; then
                echo "[verity-ab] WARNING: /etc overlay failed; /etc is read-only this boot" >&2
            fi
        else
            echo "[verity-ab] WARNING: could not mount etc_overlay LV" >&2
        fi
    else
        echo "[verity-ab] WARNING: etc_overlay LV missing; /etc is read-only" >&2
    fi

    # /var, /home, /boot and EFI are mounted post-switch_root by systemd from
    # /etc/fstab (stable UUIDs) — not here — to avoid double-mount races.
    echo "[verity-ab] Mount sequence complete (slot $slot)"
    return $ret
}
"#;

/// The hook that mounts the verified root of the active slot.
pub open spec fn verity_ab_script_text(
    vg: Text,
    verity_name: Text,
    root_a: Text,
    root_b: Text,
    hash_a: Text,
    hash_b: Text,
    etc_overlay: Text,
) -> Text {
    VERITY_AB_1@ + vg + "\n# Slots: "@ + root_a + "/"@ + hash_a + " (A), "@ + root_b + "/"@ + hash_b + VERITY_AB_2@ + etc_overlay + VERITY_AB_3@ + vg + VERITY_AB_4@ + root_a + "\"; hash_lv=\""@ + hash_a + VERITY_AB_5@ + root_b + "\"; hash_lv=\""@ + hash_b + VERITY_AB_6@ + root_a + "\"; hash_lv=\""@ + hash_a + VERITY_AB_7@ + verity_name + VERITY_AB_8@ + verity_name + VERITY_AB_9@ + etc_overlay + VERITY_AB_10@ + etc_overlay + VERITY_AB_11@
}

pub fn verity_ab_script(
    vg: &str,
    verity_name: &str,
    root_a: &str,
    root_b: &str,
    hash_a: &str,
    hash_b: &str,
    etc_overlay: &str,
) -> (r: String)
    ensures
        r@ == verity_ab_script_text(vg@, verity_name@, root_a@, root_b@, hash_a@, hash_b@, etc_overlay@),
{
    let mut s = VERITY_AB_1.to_owned();
    s.push_str(vg);
    s.push_str("\n# Slots: ");
    s.push_str(root_a);
    s.push_str("/");
    s.push_str(hash_a);
    s.push_str(" (A), ");
    s.push_str(root_b);
    s.push_str("/");
    s.push_str(hash_b);
    s.push_str(VERITY_AB_2);
    s.push_str(etc_overlay);
    s.push_str(VERITY_AB_3);
    s.push_str(vg);
    s.push_str(VERITY_AB_4);
    s.push_str(root_a);
    s.push_str("\"; hash_lv=\"");
    s.push_str(hash_a);
    s.push_str(VERITY_AB_5);
    s.push_str(root_b);
    s.push_str("\"; hash_lv=\"");
    s.push_str(hash_b);
    s.push_str(VERITY_AB_6);
    s.push_str(root_a);
    s.push_str("\"; hash_lv=\"");
    s.push_str(hash_a);
    s.push_str(VERITY_AB_7);
    s.push_str(verity_name);
    s.push_str(VERITY_AB_8);
    s.push_str(verity_name);
    s.push_str(VERITY_AB_9);
    s.push_str(etc_overlay);
    s.push_str(VERITY_AB_10);
    s.push_str(etc_overlay);
    s.push_str(VERITY_AB_11);
    s
}

pub const BOOT_ENCRYPTED: &'static str = r#"    # Mount encrypted /boot from LUKS1 container
    mount_volume "/dev/mapper/"#;

/// Mounting /boot from its container.
pub open spec fn encrypted_boot_text(boot_mapper: Text, boot_opts: Text) -> Text {
    BOOT_ENCRYPTED@ + boot_mapper + "\" \"$new_root/boot\" \"boot\""@ + boot_opts + " || true"@
}

pub fn encrypted_boot(boot_mapper: &str, boot_opts: &str) -> (r: String)
    ensures
        r@ == encrypted_boot_text(boot_mapper@, boot_opts@),
{
    let mut s = BOOT_ENCRYPTED.to_owned();
    s.push_str(boot_mapper);
    s.push_str("\" \"$new_root/boot\" \"boot\"");
    s.push_str(boot_opts);
    s.push_str(" || true");
    s
}

pub const BOOT_PLAIN_1: &'static str = r#"    # Mount unencrypted /boot partition
    boot_partition=""
    for dev in $(blkid -t LABEL=BOOT -o device 2>/dev/null); do
        boot_partition="$dev"
        break
    done

    if [ -n "$boot_partition" ] && [ -b "$boot_partition" ]; then
        mount_volume "$boot_partition" "$new_root/boot" "boot""#;

pub const BOOT_PLAIN_2: &'static str = r#" || true
    else
        echo "[mountcrypt] Warning: BOOT partition not found" >&2
    fi"#;

/// Mounting /boot from the partition with its label.
pub open spec fn plain_boot_text(boot_opts: Text) -> Text {
    BOOT_PLAIN_1@ + boot_opts + BOOT_PLAIN_2@
}

pub fn plain_boot(boot_opts: &str) -> (r: String)
    ensures
        r@ == plain_boot_text(boot_opts@),
{
    let mut s = BOOT_PLAIN_1.to_owned();
    s.push_str(boot_opts);
    s.push_str(BOOT_PLAIN_2);
    s
}

pub const ROOT_SUBVOLUME_1: &'static str = r#"    # Resolve root subvol from cmdline (snapshot booting support)
    local root_subvol
    root_subvol=$(resolve_root_subvol)
    echo "[mountcrypt] Root subvol resolved from cmdline: $root_subvol"

    # Mount root first (required)
    echo "[mountcrypt] === Mounting root (subvol=$root_subvol) ==="
    if ! mount_volume "/dev/mapper/Crypt-Root" "$new_root" "root" "subvol=${root_subvol},"#;

pub const ROOT_SUBVOLUME_2: &'static str = r#""; then
        echo "[mountcrypt] FATAL: Cannot mount root filesystem (subvol=$root_subvol)" >&2
        if [ "$root_subvol" != ""#;

pub const ROOT_SUBVOLUME_3: &'static str = r#"" ]; then
            echo "[mountcrypt] HINT: snapper snapshots are read-only by default; this mount tried rw." >&2
            echo "[mountcrypt]       To boot a RO snapshot, make it writable from the live system first:" >&2
            echo "[mountcrypt]         snapper -c root modify <num> --read-write" >&2
            echo "[mountcrypt]       Or set the property directly: btrfs property set <path> ro false" >&2
        fi
        return 1
    fi
"#;

/// Mounting the root from the subvolume that the kernel command line names.
pub open spec fn root_subvolume_text(sv_name: Text, sv_opts: Text, ro_suffix: Text) -> Text {
    ROOT_SUBVOLUME_1@ + sv_opts + ro_suffix + ROOT_SUBVOLUME_2@ + sv_name + ROOT_SUBVOLUME_3@
}

pub fn root_subvolume(sv_name: &str, sv_opts: &str, ro_suffix: &str) -> (r: String)
    ensures
        r@ == root_subvolume_text(sv_name@, sv_opts@, ro_suffix@),
{
    let mut s = ROOT_SUBVOLUME_1.to_owned();
    s.push_str(sv_opts);
    s.push_str(ro_suffix);
    s.push_str(ROOT_SUBVOLUME_2);
    s.push_str(sv_name);
    s.push_str(ROOT_SUBVOLUME_3);
    s
}

/// Whether the booted subvolume is neither the root nor one of a set.
pub open spec fn overlay_guard_text(root: Text, sets: Text) -> Text {
    "case \"$root_subvol\" in "@ + root + "|"@ + sets + "/*) false ;; *) true ;; esac"@
}

pub fn overlay_guard(root: &str, sets: &str) -> (r: String)
    ensures
        r@ == overlay_guard_text(root@, sets@),
{
    let mut s = "case \"$root_subvol\" in ".to_owned();
    s.push_str(root);
    s.push_str("|");
    s.push_str(sets);
    s.push_str("/*) false ;; *) true ;; esac");
    s
}

pub const PAIRED_1: &'static str = r#"
    # Immutable root: resolve paired /usr and /etc from the boot marker.
    _pair_usr=@usr
    _pair_etc=@etc
    if [ -r "$new_root/.deploytix-pair" ]; then
        while IFS='=' read -r _k _v; do
            case "$_k" in
                usr) [ -n "$_v" ] && _pair_usr="$_v" ;;
                etc) [ -n "$_v" ] && _pair_etc="$_v" ;;
            esac
        done < "$new_root/.deploytix-pair"
    fi
    echo "[mountcrypt] Immutable pair: usr=$_pair_usr etc=$_pair_etc"
    echo "[mountcrypt] === Mounting /usr (subvol=$_pair_usr, ro) ==="
    if ! mount_volume ""#;

pub const PAIRED_2: &'static str = r#"" "$new_root/usr" "usr" "subvol=$_pair_usr,noatime,compress=zstd,ro"; then
        echo "[mountcrypt] ERROR: Failed to mount /usr" >&2
        ret=1
    fi
    echo "[mountcrypt] === Mounting /etc (subvol=$_pair_etc, rw) ==="
    mount_volume "/dev/mapper/Crypt-Root" "$new_root/etc" "etc" "subvol=$_pair_etc,noatime,compress=zstd" || \
        echo "[mountcrypt] WARNING: failed to mount /etc" >&2
"#;

/// Mounting the /usr and /etc that belong to the booted root.
pub open spec fn paired_mounts_text(usr_device: Text) -> Text {
    PAIRED_1@ + usr_device + PAIRED_2@
}

pub fn paired_mounts(usr_device: &str) -> (r: String)
    ensures
        r@ == paired_mounts_text(usr_device@),
{
    let mut s = PAIRED_1.to_owned();
    s.push_str(usr_device);
    s.push_str(PAIRED_2);
    s
}

pub const OVERLAY_1: &'static str = r#"
    # RO snapshot boot (grub-btrfs): snapper snapshots are read-only by
    # default. btrfs mounts a RO subvolume rw-at-the-vfs-level, so probe with
    # an actual write and layer an overlayfs when it fails.
    #
    # The upperdir is a dedicated writable @overlay subvolume on the root
    # btrfs: disk-backed (tens of GB free, not the ~50%-of-RAM tmpfs ceiling)
    # yet still ephemeral because upper/work are wiped on every boot. Temp and
    # build-heavy work (/tmp, /etc, /root all live in the overlay upper) then
    # has real disk to spend instead of competing for RAM. Falls back to a
    # tmpfs upper when @overlay is absent (installs predating this subvolume).
    if "#;

pub const OVERLAY_2: &'static str = r#"; then
        if touch "$new_root/.deploytix-rw-probe" 2>/dev/null; then
            rm -f "$new_root/.deploytix-rw-probe"
        else
            echo "[mountcrypt] Root subvol $root_subvol is read-only; layering overlay (changes are ephemeral)"
            mkdir -p /run/deploytix-overlay
            mount -t tmpfs -o mode=0755 deploytix-overlay /run/deploytix-overlay
            mkdir -p /run/deploytix-overlay/lower /run/deploytix-overlay/scratch
            mount --move "$new_root" /run/deploytix-overlay/lower
            # Prefer a disk-backed ephemeral upper on the @overlay subvolume;
            # wipe last boot's contents so changes stay non-persistent.
            if mount -t btrfs -o subvol=@overlay,rw,noatime,compress=zstd /dev/mapper/Crypt-Root /run/deploytix-overlay/scratch 2>/dev/null; then
                rm -rf /run/deploytix-overlay/scratch/upper /run/deploytix-overlay/scratch/work
                mkdir -p /run/deploytix-overlay/scratch/upper /run/deploytix-overlay/scratch/work
                _dpx_upper=/run/deploytix-overlay/scratch/upper
                _dpx_work=/run/deploytix-overlay/scratch/work
                echo "[mountcrypt] Overlay upper is disk-backed (@overlay subvolume)"
            else
                echo "[mountcrypt] @overlay subvolume unavailable; falling back to tmpfs (RAM) upper" >&2
                mkdir -p /run/deploytix-overlay/upper /run/deploytix-overlay/work
                _dpx_upper=/run/deploytix-overlay/upper
                _dpx_work=/run/deploytix-overlay/work
            fi
            if mount -t overlay overlay -o "lowerdir=/run/deploytix-overlay/lower,upperdir=$_dpx_upper,workdir=$_dpx_work" "$new_root"; then
                echo "[mountcrypt] Overlay root active (upper=$_dpx_upper)"
            else
                echo "[mountcrypt] WARNING: overlay mount failed; restoring direct (read-only) root mount" >&2
                umount /run/deploytix-overlay/scratch 2>/dev/null || true
                mount --move /run/deploytix-overlay/lower "$new_root"
            fi
        fi
    fi
"#;

/// Layering a writable overlay over a read-only snapshot.
pub open spec fn overlay_text(overlay_guard: Text, etc_mount: Text) -> Text {
    OVERLAY_1@ + overlay_guard + OVERLAY_2@ + etc_mount
}

pub fn overlay(overlay_guard: &str, etc_mount: &str) -> (r: String)
    ensures
        r@ == overlay_text(overlay_guard@, etc_mount@),
{
    let mut s = OVERLAY_1.to_owned();
    s.push_str(overlay_guard);
    s.push_str(OVERLAY_2);
    s.push_str(etc_mount);
    s
}

/// Mounting a root without subvolumes.
pub const ROOT_PLAIN: &'static str = r#"    # Mount root first (required)
    echo "[mountcrypt] === Mounting root ==="
    if ! mount_volume "/dev/mapper/Crypt-Root" "$new_root" "root"; then
        echo "[mountcrypt] FATAL: Cannot mount root filesystem" >&2
        return 1
    fi
"#;

pub const VOLUME_SUBVOLUME_1: &'static str = r#")
    echo "[mountcrypt] === Mounting "#;

pub const VOLUME_SUBVOLUME_2: &'static str = r#" ==="
    if ! mount_volume "/dev/mapper/"#;

pub const VOLUME_SUBVOLUME_3: &'static str = r#""; then
        echo "[mountcrypt] "#;

/// Mounting a volume from its subvolume.
pub open spec fn volume_subvolume_text(
    mp: Text,
    mapper: Text,
    sv_name: Text,
    sv_opts: Text,
    name: Text,
    severity: Text,
    fail_action: Text,
) -> Text {
    "\n    # Mount "@ + mp + " (subvol="@ + sv_name + VOLUME_SUBVOLUME_1@ + mp + VOLUME_SUBVOLUME_2@ + mapper + "\" \"$new_root"@ + mp + "\" \""@ + name + "\" \"subvol="@ + sv_name + ","@ + sv_opts + VOLUME_SUBVOLUME_3@ + severity + ": Failed to mount "@ + mp + "\" >&2\n"@ + fail_action + "\n    fi\n"@
}

pub fn volume_subvolume(
    mp: &str,
    mapper: &str,
    sv_name: &str,
    sv_opts: &str,
    name: &str,
    severity: &str,
    fail_action: &str,
) -> (r: String)
    ensures
        r@ == volume_subvolume_text(mp@, mapper@, sv_name@, sv_opts@, name@, severity@, fail_action@),
{
    let mut s = "\n    # Mount ".to_owned();
    s.push_str(mp);
    s.push_str(" (subvol=");
    s.push_str(sv_name);
    s.push_str(VOLUME_SUBVOLUME_1);
    s.push_str(mp);
    s.push_str(VOLUME_SUBVOLUME_2);
    s.push_str(mapper);
    s.push_str("\" \"$new_root");
    s.push_str(mp);
    s.push_str("\" \"");
    s.push_str(name);
    s.push_str("\" \"subvol=");
    s.push_str(sv_name);
    s.push_str(",");
    s.push_str(sv_opts);
    s.push_str(VOLUME_SUBVOLUME_3);
    s.push_str(severity);
    s.push_str(": Failed to mount ");
    s.push_str(mp);
    s.push_str("\" >&2\n");
    s.push_str(fail_action);
    s.push_str("\n    fi\n");
    s
}

pub const VOLUME_PLAIN_1: &'static str = r#"
    echo "[mountcrypt] === Mounting "#;

pub const VOLUME_PLAIN_2: &'static str = r#" ==="
    if ! mount_volume "/dev/mapper/"#;

pub const VOLUME_PLAIN_3: &'static str = r#""; then
        echo "[mountcrypt] "#;

/// Mounting a volume without subvolumes.
pub open spec fn volume_plain_text(
    mp: Text,
    mapper: Text,
    name: Text,
    severity: Text,
    fail_action: Text,
) -> Text {
    "\n    # Mount "@ + mp + VOLUME_PLAIN_1@ + mp + VOLUME_PLAIN_2@ + mapper + "\" \"$new_root"@ + mp + "\" \""@ + name + VOLUME_PLAIN_3@ + severity + ": Failed to mount "@ + mp + "\" >&2\n"@ + fail_action + "\n    fi\n"@
}

pub fn volume_plain(
    mp: &str,
    mapper: &str,
    name: &str,
    severity: &str,
    fail_action: &str,
) -> (r: String)
    ensures
        r@ == volume_plain_text(mp@, mapper@, name@, severity@, fail_action@),
{
    let mut s = "\n    # Mount ".to_owned();
    s.push_str(mp);
    s.push_str(VOLUME_PLAIN_1);
    s.push_str(mp);
    s.push_str(VOLUME_PLAIN_2);
    s.push_str(mapper);
    s.push_str("\" \"$new_root");
    s.push_str(mp);
    s.push_str("\" \"");
    s.push_str(name);
    s.push_str(VOLUME_PLAIN_3);
    s.push_str(severity);
    s.push_str(": Failed to mount ");
    s.push_str(mp);
    s.push_str("\" >&2\n");
    s.push_str(fail_action);
    s.push_str("\n    fi\n");
    s
}

pub const RESOLVE_ROOT_1: &'static str = r#"# Resolve the root subvolume from /proc/cmdline.
# Honours rootflags=subvol=<path>; last occurrence wins (matching kernel
# behaviour for repeated parameters). Defaults to "#;

pub const RESOLVE_ROOT_2: &'static str = r#" when nothing matches.
# Strips surrounding double-quotes from the value (grub-btrfs emits them).
resolve_root_subvol() {
    local subvol=""#;

pub const RESOLVE_ROOT_3: &'static str = r#""
    local arg rf f v
    local old_ifs="$IFS"

    for arg in $(cat /proc/cmdline 2>/dev/null); do
        case "$arg" in
            rootflags=*)
                rf="${arg#rootflags=}"
                IFS=','
                for f in $rf; do
                    case "$f" in
                        subvol=*)
                            v="${f#subvol=}"
                            v="${v#\"}"
                            v="${v%\"}"
                            [ -n "$v" ] && subvol="$v"
                            ;;
                    esac
                done
                IFS="$old_ifs"
                ;;
        esac
    done

    echo "$subvol"
}

"#;

/// The function that reads the root subvolume from the kernel command line.
pub open spec fn resolve_root_text(default: Text) -> Text {
    RESOLVE_ROOT_1@ + default + RESOLVE_ROOT_2@ + default + RESOLVE_ROOT_3@
}

pub fn resolve_root(default: &str) -> (r: String)
    ensures
        r@ == resolve_root_text(default@),
{
    let mut s = RESOLVE_ROOT_1.to_owned();
    s.push_str(default);
    s.push_str(RESOLVE_ROOT_2);
    s.push_str(default);
    s.push_str(RESOLVE_ROOT_3);
    s
}

pub const MOUNTCRYPT_1: &'static str = r#"#!/usr/bin/ash
# mountcrypt: Mount multi-volume encrypted system
# Generated by Deploytix
#
# Mounts separate LUKS-encrypted partitions:
"#;

pub const MOUNTCRYPT_2: &'static str = r#"
#
# This hook runs AFTER crypttab-unlock has unlocked all volumes.

# Wait for a block device to appear
wait_for_block_device() {
    local device="$1"
    local timeout=30

    while [ ! -b "$device" ] && [ $timeout -gt 0 ]; do
        sleep 1
        timeout=$((timeout - 1))
    done

    [ -b "$device" ]
}

# Check if a path is already mounted
is_mounted() {
    local mount_point="$1"
    grep -q " $mount_point " /proc/mounts 2>/dev/null
}

# Mount a volume with checks
# Args: device mount_point name [extra_opts]
mount_volume() {
    local device="$1"
    local mount_point="$2"
    local name="$3"
    local extra_opts="${4:-}"

    # Wait for device
    echo "[mountcrypt] Waiting for $device ($name)..."
    if ! wait_for_block_device "$device"; then
        echo "[mountcrypt] ERROR: $device not found for $name" >&2
        return 1
    fi

    # Check if already mounted
    if is_mounted "$mount_point"; then
        echo "[mountcrypt] $mount_point already mounted, skipping"
        return 0
    fi

    # Build mount options. When extra_opts is given it fully controls the
    # options (mount defaults to rw unless it contains "ro"); this lets callers
    # request read-only mounts (immutable /, /usr). Bare mounts default to rw.
    local opts="$extra_opts"
    if [ -z "$opts" ]; then
        opts="rw"
    fi

    # Create mount point and mount
    mkdir -p "$mount_point"
    if mount -o "$opts" "$device" "$mount_point"; then
        echo "[mountcrypt] Mounted $device -> $mount_point ($opts)"
        return 0
    else
        echo "[mountcrypt] ERROR: Failed to mount $device -> $mount_point" >&2
        return 1
    fi
}

"#;

pub const MOUNTCRYPT_3: &'static str = r#"# run_hook is called during the hooks phase
# We set the mount_handler variable to point to our custom mount function
run_hook() {
    echo "[mountcrypt] Setting mount_handler to mountcrypt_handler"
    # Override the default mount handler with our custom one
    mount_handler=mountcrypt_handler
}

# Our custom mount handler - called by mkinitcpio's init via $mount_handler variable
# Receives the mount point as $1 (typically /new_root)
mountcrypt_handler() {
    local new_root="$1"
    local ret=0

    echo "[mountcrypt] mount_handler called with target: $new_root"

    # CRITICAL: Check if root is already mounted to prevent double-mount
    # This can happen if mkinitcpio's init has fallback mount logic
    if mountpoint -q "$new_root" 2>/dev/null; then
        echo "[mountcrypt] WARNING: $new_root is already a mountpoint!"
        echo "[mountcrypt] Current mounts on $new_root:"
        grep "$new_root" /proc/mounts 2>/dev/null || true
        echo "[mountcrypt] Skipping mount_handler to prevent double-mount"
        return 0
    fi

    echo "[mountcrypt] Starting multi-volume mount sequence..."

    # List available mapper devices for debugging
    echo "[mountcrypt] Available /dev/mapper devices:"
    ls -la /dev/mapper/ 2>/dev/null || echo "[mountcrypt] No mapper devices found"

"#;

pub const MOUNTCRYPT_4: &'static str = r#"
    # Mount /boot
    echo "[mountcrypt] === Mounting /boot ==="
"#;

pub const MOUNTCRYPT_5: &'static str = r#"

    # Mount EFI partition (must come after /boot since it mounts to /boot/efi)
    echo "[mountcrypt] === Mounting EFI ==="
    mkdir -p "$new_root/boot/efi"

    efi_partition=""

    # Primary: use udev-provided partlabel symlink (most reliable in initramfs)
    if [ -b "/dev/disk/by-partlabel/EFI" ]; then
        efi_partition="/dev/disk/by-partlabel/EFI"
    fi

    # Fallback: blkid search by PARTLABEL
    if [ -z "$efi_partition" ]; then
        for dev in $(blkid -t TYPE=vfat -o device 2>/dev/null); do
            if blkid "$dev" | grep -qi 'PARTLABEL="EFI"'; then
                efi_partition="$dev"
                break
            fi
        done
    fi

    # Last resort: first vfat partition
    if [ -z "$efi_partition" ]; then
        efi_partition=$(blkid -t TYPE=vfat -o device 2>/dev/null | head -n1)
    fi

    if [ -n "$efi_partition" ] && [ -b "$efi_partition" ]; then
        mount_volume "$efi_partition" "$new_root/boot/efi" "efi" || {
            echo "[mountcrypt] WARNING: Failed to mount EFI partition" >&2
        }
    else
        echo "[mountcrypt] WARNING: EFI partition not found, skipping" >&2
    fi

    echo "[mountcrypt] Mount sequence complete"
    return $ret
}
"#;

/// The hook that mounts the opened containers.
pub open spec fn mountcrypt_script_text(
    volume_comment: Text,
    volume_mounts: Text,
    boot_mount: Text,
    resolve_fn: Text,
) -> Text {
    MOUNTCRYPT_1@ + volume_comment + MOUNTCRYPT_2@ + resolve_fn + MOUNTCRYPT_3@ + volume_mounts + MOUNTCRYPT_4@ + boot_mount + MOUNTCRYPT_5@
}

pub fn mountcrypt_script(
    volume_comment: &str,
    volume_mounts: &str,
    boot_mount: &str,
    resolve_fn: &str,
) -> (r: String)
    ensures
        r@ == mountcrypt_script_text(volume_comment@, volume_mounts@, boot_mount@, resolve_fn@),
{
    let mut s = MOUNTCRYPT_1.to_owned();
    s.push_str(volume_comment);
    s.push_str(MOUNTCRYPT_2);
    s.push_str(resolve_fn);
    s.push_str(MOUNTCRYPT_3);
    s.push_str(volume_mounts);
    s.push_str(MOUNTCRYPT_4);
    s.push_str(boot_mount);
    s.push_str(MOUNTCRYPT_5);
    s
}

pub const MOUNTCRYPT_INSTALL_1: &'static str = r#"#!/bin/bash
build() {
    # blkid is needed for EFI partition detection fallback
    add_binary 'blkid'
    # mountpoint is used to check if root is already mounted
    add_binary 'mountpoint'
    add_runscript
}

help() {
    echo "mountcrypt: Mount multi-volume encrypted system ("#;

pub const MOUNTCRYPT_INSTALL_2: &'static str = r#")"
}
"#;

/// Its install script.
pub open spec fn mountcrypt_install_text(volumes: Text) -> Text {
    MOUNTCRYPT_INSTALL_1@ + volumes + MOUNTCRYPT_INSTALL_2@
}

pub fn mountcrypt_install(volumes: &str) -> (r: String)
    ensures
        r@ == mountcrypt_install_text(volumes@),
{
    let mut s = MOUNTCRYPT_INSTALL_1.to_owned();
    s.push_str(volumes);
    s.push_str(MOUNTCRYPT_INSTALL_2);
    s
}

} // verus!
