//! The rules that a configuration has to keep.
use vstd::prelude::*;

use crate::text;
use crate::index;
use crate::config::model::{CustomPartitionEntry, DeploymentConfig};
use crate::config::options::{
    DesktopEnvironment, DisplayManager, Filesystem, NetworkBackend, SecureBootMethod, SwapType,
};
use crate::error::{invalid, DeploytixError, Result};
use crate::text::{
    byte_count, chars_of, concat, concat3, has_char, number, same, starts_with, Text,
};

verus! {

/// What the rules have to know of the installing host.
#[derive(Debug, Clone, Copy)]
pub struct HostFacts {
    /// The target device exists.
    pub device_exists: bool,
    /// The target device is a block device.
    pub device_is_block: bool,
    /// The keyfile of a kept home is a regular file.
    pub home_keyfile_is_file: bool,
}

pub const NAME_EMPTY: &'static str = "Username cannot be empty";

pub const NAME_SPACES: &'static str = "Username cannot contain spaces";

pub const PASSWORD_EMPTY: &'static str = "Password cannot be empty";

pub const NO_ENCRYPTION_PASSWORD: &'static str =
    "Encryption password required when encryption is enabled";

pub const SUBVOLUMES_NEED_BTRFS: &'static str =
    "Subvolumes require btrfs filesystem (ZFS uses datasets instead)";

pub const LVM_ON_ZFS: &'static str =
    "LVM thin provisioning is not supported with ZFS (ZFS manages its own volumes)";

pub const TKG_ON_ZFS: &'static str =
    "the linux-tkg kernel is not supported with ZFS: it replaces linux-zen, and there is no zfs-linux-tkg module package to import the pool with";

pub const BOOT_ZFS: &'static str =
    "ZFS is not supported as the boot filesystem when boot encryption (LUKS1) is enabled";

pub const INTEGRITY_ALONE: &'static str = "Integrity (dm-integrity) requires encryption to be enabled";

pub const BOOT_ENCRYPTION_ALONE: &'static str =
    "Boot encryption requires disk encryption to be enabled";

pub const POOL_PERCENT: &'static str = "lvm_thin_pool_percent must be between 1 and 100, got ";

pub const SWAP_FILE_FS: &'static str = "Swap file requires btrfs or ext4 filesystem";

pub const MANUAL_KEYS_PATH: &'static str =
    "SecureBoot with ManualKeys method requires secureboot_keys_path";

pub const NO_PARTITIONS: &'static str = "At least one partition must be defined";

pub const ONE_ROOT: &'static str = "Exactly one partition with mount_point = \"/\" is required";

pub const ONE_REMAINDER: &'static str = "Only one partition may have size_mib = 0 (remainder)";

pub const RECOVERY_NO_HOME: &'static str =
    "recovery.reuse_home requires a /home entry in disk.partitions";

pub const RECOVERY_LVM: &'static str =
    "recovery.reuse_home is not supported with use_lvm_thin (home lives inside the volume group, not on its own partition)";

pub const RECOVERY_NO_KEY: &'static str =
    "recovery.reuse_home on an encrypted disk needs recovery.home_keyfile or recovery.allow_passphrase_fallback";

pub const RECOVERY_KEY_ALONE: &'static str =
    "recovery.home_keyfile is set but recovery.reuse_home is false";

pub const SWITCH_GAMING: &'static str = "Session switching requires install_gaming = true";

pub const SWITCH_DESKTOP: &'static str = "Session switching requires a desktop environment";

pub const SWITCH_GREETD: &'static str =
    "Session switching requires display_manager = \"greetd\" (the Game Mode \u{2194} Desktop loop is driven through greetd IPC)";

pub const SWITCH_NETWORK: &'static str =
    "Session switching (gamescope Game Mode) requires a NetworkManager backend (backend = \"networkmanager\" or \"networkmanager-wpa\"); Steam's gamepad UI configures Wi-Fi through NetworkManager";

pub const SSID_LENGTH: &'static str = "wifi_ssid must be 1-32 characters";

pub const SSID_CHARS: &'static str = "wifi_ssid must not contain '/' or control characters";

pub const PSK_LENGTH: &'static str =
    "wifi_password must be a WPA-PSK passphrase of 8-63 characters";

pub const PSK_ALONE: &'static str = "wifi_password is set but wifi_ssid is missing";

pub const IWD_YAY: &'static str =
    "Network backend 'iwd' requires install_yay = true (AUR package: ";

pub const HHD_YAY: &'static str = "Handheld Daemon (HHD) requires install_yay = true";

pub const EVDEVHOOK2_YAY: &'static str =
    "evdevhook2 requires install_yay = true (AUR package: evdevhook2-git)";

pub const PREFETCH_GAMING: &'static str = "steam_prefetch_client requires install_gaming = true";

pub const DECKY_GAMING: &'static str = "Decky Loader requires install_gaming = true";

pub const DECKY_YAY: &'static str =
    "Decky Loader requires install_yay = true (installed from decky-loader-bin AUR package)";

pub const ZEN_YAY: &'static str =
    "Zen Browser requires install_yay = true (AUR package: zen-browser-bin)";

pub const EXTRAS_YAY: &'static str = "extra_packages.aur is non-empty but install_yay = false";

pub const BTRFS_TOOLS_YAY: &'static str =
    "Btrfs tools (snapper, btrfs-assistant) require install_yay = true";

pub const BTRFS_TOOLS_FS: &'static str = "Btrfs tools require btrfs filesystem";

pub const GRUB_BTRFS_FS: &'static str = "grub-btrfs requires btrfs filesystem";

pub const GRUB_BTRFS_SUBVOLUMES: &'static str =
    "grub-btrfs requires use_subvolumes = true (snapshot boot entries need the @ subvolume layout)";

pub const GRUB_BTRFS_LVM: &'static str = "grub-btrfs is not supported with use_lvm_thin = true";

pub const IMMUTABLE_BACKEND: &'static str =
    "immutable_root requires either install_grub_btrfs = true (btrfs snapshot backend) or use_lvm_thin = true (LVM A/B dm-verity backend)";

pub const IMMUTABLE_BOTH: &'static str =
    "immutable_root takes exactly one backend: install_grub_btrfs = true (btrfs snapshots) and use_lvm_thin = true (LVM A/B dm-verity) exclude each other";

pub const IMMUTABLE_SBCTL: &'static str =
    "immutable_root on LVM (A/B dm-verity) is not supported with sbctl SecureBoot on an encrypted disk: that mode embeds grub.cfg in a signed standalone EFI binary, so the A/B boot-pointer edit cannot take effect. Use a different SecureBoot method, disk encryption without sbctl, or the btrfs immutable backend.";

pub const HIBERNATION_ZRAM: &'static str =
    "hibernation requires swap that outlives a power-off, and swap_type = \"zram_only\" is RAM-backed: there is no image to resume from. Use swap_type = \"partition\" or \"file_zram\".";

/// A control character: the Unicode category Cc.
pub open spec fn control(c: char) -> bool {
    c as u32 <= 0x1f || (0x7f <= c as u32 && c as u32 <= 0x9f)
}

/// The outcome of a check: passed where there is no problem, else the
/// validation error with the problem's text.
pub open spec fn reports(r: Result<()>, problem: Option<Text>) -> bool {
    match r {
        Ok(_) => problem is None,
        Err(e) => problem matches Some(t) && e.says(t),
    }
}

/// The first of two problems.
pub open spec fn first_problem(a: Option<Text>, b: Option<Text>) -> Option<Text> {
    if a is Some {
        a
    } else {
        b
    }
}

/// The partition has the mount point.
pub open spec fn mounted_at(p: Seq<CustomPartitionEntry>, m: Text) -> spec_fn(int) -> bool {
    |i: int| p[i].mount_point@ == m
}

/// The partition's mount point is not absolute.
pub open spec fn not_absolute(p: Seq<CustomPartitionEntry>) -> spec_fn(int) -> bool {
    |i: int| !text::begins(p[i].mount_point@, "/"@)
}

/// The partition's mount point belongs to a system partition.
pub open spec fn reserved(p: Seq<CustomPartitionEntry>) -> spec_fn(int) -> bool {
    |i: int| p[i].mount_point@ == "/boot"@ || p[i].mount_point@ == "/boot/efi"@
}

/// The partition repeats the mount point of an earlier one.
pub open spec fn repeated(p: Seq<CustomPartitionEntry>) -> spec_fn(int) -> bool {
    |i: int| exists|j: int| 0 <= j < i && #[trigger] p[j].mount_point@ == p[i].mount_point@
}

/// The partition takes what is left of the disk.
pub open spec fn remainder(p: Seq<CustomPartitionEntry>) -> spec_fn(int) -> bool {
    |i: int| p[i].size_mib == 0
}

/// The partition asks for encryption of its own.
pub open spec fn own_encryption(p: Seq<CustomPartitionEntry>) -> spec_fn(int) -> bool {
    |i: int| p[i].encryption == Some(true)
}

/// A message about one mount point.
pub open spec fn about(before: Text, m: Text, after: Text) -> Text {
    before + m + after
}

/// The message about the first partition with a fault, where there is one.
pub open spec fn first_fault(
    p: Seq<CustomPartitionEntry>,
    fault: spec_fn(int) -> bool,
    before: Text,
    after: Text,
) -> Option<Text> {
    let i = index::first(p.len() as int, fault);
    if i < p.len() {
        Some(about(before, p[i].mount_point@, after))
    } else {
        None
    }
}

fn fault(before: &str, m: &str, after: &str) -> (r: DeploytixError)
    ensures
        r.says(about(before@, m@, after@)),
{
    DeploytixError::ValidationError(concat3(before, m, after))
}

/// What is wrong with a list of partitions.
pub open spec fn partition_problem(p: Seq<CustomPartitionEntry>) -> Option<Text> {
    let n = p.len() as int;
    if n == 0 {
        Some(NO_PARTITIONS@)
    } else if index::count(n, mounted_at(p, "/"@)) != 1 {
        Some(ONE_ROOT@)
    } else if index::first(n, not_absolute(p)) < n {
        first_fault(p, not_absolute(p), "Mount point '"@, "' must start with '/'"@)
    } else if index::first(n, reserved(p)) < n {
        first_fault(p, reserved(p), "Mount point '"@, "' is reserved for system partitions"@)
    } else if index::first(n, repeated(p)) < n {
        first_fault(p, repeated(p), "Duplicate mount point '"@, "' in partitions"@)
    } else if index::count(n, remainder(p)) > 1 {
        Some(ONE_REMAINDER@)
    } else {
        None
    }
}

/// Checks a list of partitions.
fn check_partitions(p: &Vec<CustomPartitionEntry>) -> (r: Result<()>)
    ensures
        reports(r, partition_problem(p@)),
{
    if p.len() == 0 {
        return Err(invalid(NO_PARTITIONS));
    }
    let mut roots: usize = 0;
    let mut i: usize = 0;
    while i < p.len()
        invariant
            i <= p@.len(),
            roots <= i,
            roots == index::count(i as int, mounted_at(p@, "/"@)),
        decreases p.len() - i,
    {
        if same(p[i].mount_point.as_str(), "/") {
            roots += 1;
        }
        i += 1;
    }
    if roots != 1 {
        return Err(invalid(ONE_ROOT));
    }
    i = 0;
    while i < p.len()
        invariant
            i <= p@.len(),
            p@.len() > 0,
            index::count(p@.len() as int, mounted_at(p@, "/"@)) == 1,
            forall|j: int| 0 <= j < i ==> !#[trigger] not_absolute(p@)(j),
        decreases p.len() - i,
    {
        if !starts_with(p[i].mount_point.as_str(), "/") {
            proof {
                index::lemma_first_is(p@.len() as int, not_absolute(p@), i as int);
            }
            return Err(fault("Mount point '", p[i].mount_point.as_str(), "' must start with '/'"));
        }
        i += 1;
    }
    proof {
        index::lemma_first_is(p@.len() as int, not_absolute(p@), p@.len() as int);
    }
    i = 0;
    while i < p.len()
        invariant
            i <= p@.len(),
            p@.len() > 0,
            index::count(p@.len() as int, mounted_at(p@, "/"@)) == 1,
            index::first(p@.len() as int, not_absolute(p@)) == p@.len(),
            forall|j: int| 0 <= j < i ==> !#[trigger] reserved(p@)(j),
        decreases p.len() - i,
    {
        let m = p[i].mount_point.as_str();
        if same(m, "/boot") || same(m, "/boot/efi") {
            proof {
                index::lemma_first_is(p@.len() as int, reserved(p@), i as int);
            }
            return Err(fault("Mount point '", m, "' is reserved for system partitions"));
        }
        i += 1;
    }
    proof {
        index::lemma_first_is(p@.len() as int, reserved(p@), p@.len() as int);
    }
    i = 0;
    while i < p.len()
        invariant
            i <= p@.len(),
            p@.len() > 0,
            index::count(p@.len() as int, mounted_at(p@, "/"@)) == 1,
            index::first(p@.len() as int, not_absolute(p@)) == p@.len(),
            index::first(p@.len() as int, reserved(p@)) == p@.len(),
            forall|j: int| 0 <= j < i ==> !#[trigger] repeated(p@)(j),
        decreases p.len() - i,
    {
        let m = p[i].mount_point.as_str();
        let mut j: usize = 0;
        while j < i
            invariant
                j <= i < p@.len(),
                m@ == p@[i as int].mount_point@,
                index::count(p@.len() as int, mounted_at(p@, "/"@)) == 1,
                index::first(p@.len() as int, not_absolute(p@)) == p@.len(),
                index::first(p@.len() as int, reserved(p@)) == p@.len(),
                forall|k: int| 0 <= k < i ==> !#[trigger] repeated(p@)(k),
                forall|k: int| 0 <= k < j ==> #[trigger] p@[k].mount_point@ != m@,
            decreases i - j,
        {
            if same(p[j].mount_point.as_str(), m) {
                proof {
                    assert(p@[j as int].mount_point@ == p@[i as int].mount_point@);
                    assert(repeated(p@)(i as int));
                    index::lemma_first_is(p@.len() as int, repeated(p@), i as int);
                }
                return Err(fault("Duplicate mount point '", m, "' in partitions"));
            }
            j += 1;
        }
        assert(!repeated(p@)(i as int));
        i += 1;
    }
    proof {
        index::lemma_first_is(p@.len() as int, repeated(p@), p@.len() as int);
    }
    let mut rest: usize = 0;
    i = 0;
    while i < p.len()
        invariant
            i <= p@.len(),
            rest <= i,
            rest == index::count(i as int, remainder(p@)),
        decreases p.len() - i,
    {
        if p[i].size_mib == 0 {
            rest += 1;
        }
        i += 1;
    }
    if rest > 1 {
        return Err(invalid(ONE_REMAINDER));
    }
    Ok(())
}

impl DeploymentConfig {
    /// What is wrong with the user account.
    pub open spec fn account_problem(self) -> Option<Text> {
        if self.user.name@.len() == 0 {
            Some(NAME_EMPTY@)
        } else if self.user.name@.contains(' ') {
            Some(NAME_SPACES@)
        } else if self.user.password@.len() == 0 {
            Some(PASSWORD_EMPTY@)
        } else {
            None
        }
    }

    fn check_account(&self) -> (r: Result<()>)
        ensures
            reports(r, self.account_problem()),
    {
        if self.user.name.as_str().is_empty() {
            return Err(invalid(NAME_EMPTY));
        }
        if has_char(self.user.name.as_str(), ' ') {
            return Err(invalid(NAME_SPACES));
        }
        if self.user.password.as_str().is_empty() {
            return Err(invalid(PASSWORD_EMPTY));
        }
        Ok(())
    }

    /// Why the configuration cannot have the linux-tkg kernel.
    pub open spec fn tkg_problem(self) -> Option<Text> {
        if self.packages.install_tkg_kernel && (self.disk.filesystem == Filesystem::Zfs
            || self.disk.boot_filesystem == Filesystem::Zfs) {
            Some(TKG_ON_ZFS@)
        } else {
            None
        }
    }

    pub fn tkg_kernel_conflict(&self) -> (r: Option<String>)
        ensures
            r is Some <==> self.tkg_problem() is Some,
            r matches Some(m) ==> self.tkg_problem() == Some(m@),
    {
        if !self.packages.install_tkg_kernel {
            return None;
        }
        if self.disk.filesystem == Filesystem::Zfs || self.disk.boot_filesystem == Filesystem::Zfs {
            return Some(TKG_ON_ZFS.to_owned());
        }
        None
    }

    /// What is wrong with the disk settings, partitions aside.
    pub open spec fn disk_problem(self) -> Option<Text> {
        let d = self.disk;
        if d.encryption && d.encryption_password is None {
            Some(NO_ENCRYPTION_PASSWORD@)
        } else if d.use_subvolumes && d.filesystem != Filesystem::Btrfs {
            Some(SUBVOLUMES_NEED_BTRFS@)
        } else if d.use_lvm_thin && d.filesystem == Filesystem::Zfs {
            Some(LVM_ON_ZFS@)
        } else if self.tkg_problem() is Some {
            self.tkg_problem()
        } else if d.boot_encryption && d.boot_filesystem == Filesystem::Zfs {
            Some(BOOT_ZFS@)
        } else if d.integrity && !d.encryption {
            Some(INTEGRITY_ALONE@)
        } else if d.boot_encryption && !d.encryption {
            Some(BOOT_ENCRYPTION_ALONE@)
        } else if d.lvm_thin_pool_percent == 0 || d.lvm_thin_pool_percent > 100 {
            Some(POOL_PERCENT@ + text::decimal(d.lvm_thin_pool_percent as nat))
        } else if d.swap_type == SwapType::FileZram && d.filesystem != Filesystem::Btrfs
            && d.filesystem != Filesystem::Ext4 {
            Some(SWAP_FILE_FS@)
        } else if self.system.secureboot && self.system.secureboot_method
            == SecureBootMethod::ManualKeys && self.system.secureboot_keys_path is None {
            Some(MANUAL_KEYS_PATH@)
        } else {
            None
        }
    }

    fn check_disk(&self) -> (r: Result<()>)
        ensures
            reports(r, self.disk_problem()),
    {
        let d = &self.disk;
        if d.encryption && d.encryption_password.is_none() {
            return Err(invalid(NO_ENCRYPTION_PASSWORD));
        }
        if d.use_subvolumes && d.filesystem != Filesystem::Btrfs {
            return Err(invalid(SUBVOLUMES_NEED_BTRFS));
        }
        if d.use_lvm_thin && d.filesystem == Filesystem::Zfs {
            return Err(invalid(LVM_ON_ZFS));
        }
        if let Some(m) = self.tkg_kernel_conflict() {
            return Err(DeploytixError::ValidationError(m));
        }
        if d.boot_encryption && d.boot_filesystem == Filesystem::Zfs {
            return Err(invalid(BOOT_ZFS));
        }
        if d.integrity && !d.encryption {
            return Err(invalid(INTEGRITY_ALONE));
        }
        if d.boot_encryption && !d.encryption {
            return Err(invalid(BOOT_ENCRYPTION_ALONE));
        }
        if d.lvm_thin_pool_percent == 0 || d.lvm_thin_pool_percent > 100 {
            let n = number(d.lvm_thin_pool_percent as u64);
            return Err(DeploytixError::ValidationError(concat(POOL_PERCENT, n.as_str())));
        }
        if d.swap_type == SwapType::FileZram && d.filesystem != Filesystem::Btrfs && d.filesystem
            != Filesystem::Ext4 {
            return Err(invalid(SWAP_FILE_FS));
        }
        if self.system.secureboot && self.system.secureboot_method == SecureBootMethod::ManualKeys
            && self.system.secureboot_keys_path.is_none() {
            return Err(invalid(MANUAL_KEYS_PATH));
        }
        Ok(())
    }

    /// What is wrong with keeping a home, `is_file` telling whether the keyfile
    /// is a regular file of the host.
    pub open spec fn recovery_problem(
        self,
        p: Seq<CustomPartitionEntry>,
        is_file: bool,
    ) -> Option<Text> {
        let rec = self.disk.recovery;
        if rec.reuse_home {
            if index::first(p.len() as int, mounted_at(p, "/home"@)) == p.len() {
                Some(RECOVERY_NO_HOME@)
            } else if self.disk.use_lvm_thin {
                Some(RECOVERY_LVM@)
            } else if self.disk.encryption && rec.home_keyfile is None
                && !rec.allow_passphrase_fallback {
                Some(RECOVERY_NO_KEY@)
            } else {
                match rec.home_keyfile {
                    Some(k) if !is_file => Some(
                        about(
                            "recovery.home_keyfile '"@,
                            k@,
                            "' does not exist or is not a regular file on this host"@,
                        ),
                    ),
                    _ => None,
                }
            }
        } else if rec.home_keyfile is Some {
            Some(RECOVERY_KEY_ALONE@)
        } else {
            None
        }
    }

    /// Checks the options for keeping a home.
    pub fn validate_recovery(
        &self,
        partitions: &Vec<CustomPartitionEntry>,
        home_keyfile_is_file: bool,
    ) -> (r: Result<()>)
        ensures
            reports(r, self.recovery_problem(partitions@, home_keyfile_is_file)),
    {
        let ghost p = partitions@;
        let rec = &self.disk.recovery;
        if rec.reuse_home {
            let mut i: usize = 0;
            while i < partitions.len() && !same(partitions[i].mount_point.as_str(), "/home")
                invariant
                    i <= partitions@.len(),
                    p == partitions@,
                    forall|j: int| 0 <= j < i ==> !#[trigger] mounted_at(p, "/home"@)(j),
                decreases partitions.len() - i,
            {
                i += 1;
            }
            proof {
                index::lemma_first_is(p.len() as int, mounted_at(p, "/home"@), i as int);
            }
            if i == partitions.len() {
                return Err(invalid(RECOVERY_NO_HOME));
            }
            if self.disk.use_lvm_thin {
                return Err(invalid(RECOVERY_LVM));
            }
            if self.disk.encryption && rec.home_keyfile.is_none() && !rec.allow_passphrase_fallback {
                return Err(invalid(RECOVERY_NO_KEY));
            }
            if let Some(k) = &rec.home_keyfile {
                if !home_keyfile_is_file {
                    return Err(
                        fault(
                            "recovery.home_keyfile '",
                            k.as_str(),
                            "' does not exist or is not a regular file on this host",
                        ),
                    );
                }
            }
        } else if rec.home_keyfile.is_some() {
            return Err(invalid(RECOVERY_KEY_ALONE));
        }
        Ok(())
    }

    /// A partition with encryption of its own on a disk without encryption.
    pub open spec fn own_encryption_problem(self) -> Option<Text> {
        let p = self.disk.partitions@;
        if self.disk.encryption {
            None
        } else {
            first_fault(
                p,
                own_encryption(p),
                "Partition '"@,
                "' has encryption=true but global encryption is disabled"@,
            )
        }
    }

    fn check_own_encryption(&self) -> (r: Result<()>)
        ensures
            reports(r, self.own_encryption_problem()),
    {
        if self.disk.encryption {
            return Ok(());
        }
        let p = &self.disk.partitions;
        let mut i: usize = 0;
        while i < p.len()
            invariant
                i <= p@.len(),
                p@ == self.disk.partitions@,
                !self.disk.encryption,
                forall|j: int| 0 <= j < i ==> !#[trigger] own_encryption(p@)(j),
            decreases p.len() - i,
        {
            if let Some(true) = p[i].encryption {
                proof {
                    index::lemma_first_is(p@.len() as int, own_encryption(p@), i as int);
                }
                return Err(
                    fault(
                        "Partition '",
                        p[i].mount_point.as_str(),
                        "' has encryption=true but global encryption is disabled",
                    ),
                );
            }
            i += 1;
        }
        proof {
            index::lemma_first_is(p@.len() as int, own_encryption(p@), p@.len() as int);
        }
        Ok(())
    }

    /// What keeps the switch between gamescope and the desktop from working.
    pub open spec fn session_problem(self) -> Option<Text> {
        if !self.packages.install_session_switching {
            None
        } else if !self.packages.install_gaming {
            Some(SWITCH_GAMING@)
        } else if self.desktop.environment == DesktopEnvironment::Headless {
            Some(SWITCH_DESKTOP@)
        } else if self.desktop.display_manager != DisplayManager::Greetd {
            Some(SWITCH_GREETD@)
        } else if self.network.backend == NetworkBackend::Iwd {
            Some(SWITCH_NETWORK@)
        } else {
            None
        }
    }

    fn check_session(&self) -> (r: Result<()>)
        ensures
            reports(r, self.session_problem()),
    {
        if self.packages.install_session_switching {
            if !self.packages.install_gaming {
                return Err(invalid(SWITCH_GAMING));
            }
            if self.desktop.environment == DesktopEnvironment::Headless {
                return Err(invalid(SWITCH_DESKTOP));
            }
            if self.desktop.display_manager != DisplayManager::Greetd {
                return Err(invalid(SWITCH_GREETD));
            }
            if self.network.backend == NetworkBackend::Iwd {
                return Err(invalid(SWITCH_NETWORK));
            }
        }
        Ok(())
    }

    /// What is wrong with the wireless network that is handed to the target.
    pub open spec fn wifi_problem(self) -> Option<Text> {
        match self.network.wifi_ssid {
            Some(s) => {
                if vstd::utf8::encode_utf8(s@).len() == 0 || vstd::utf8::encode_utf8(s@).len() > 32 {
                    Some(SSID_LENGTH@)
                } else if s@.contains('/') || exists|i: int|
                    0 <= i < s@.len() && control(#[trigger] s@[i]) {
                    Some(SSID_CHARS@)
                } else {
                    match self.network.wifi_password {
                        Some(w) if vstd::utf8::encode_utf8(w@).len() < 8 || vstd::utf8::encode_utf8(w@).len() > 63 => Some(
                            PSK_LENGTH@,
                        ),
                        _ => None,
                    }
                }
            },
            None => if self.network.wifi_password is Some {
                Some(PSK_ALONE@)
            } else {
                None
            },
        }
    }

    fn check_wifi(&self) -> (r: Result<()>)
        ensures
            reports(r, self.wifi_problem()),
    {
        if let Some(s) = &self.network.wifi_ssid {
            let n: usize = byte_count(s.as_str());
            if n == 0 || n > 32 {
                return Err(invalid(SSID_LENGTH));
            }
            if has_char(s.as_str(), '/') || has_control(s.as_str()) {
                return Err(invalid(SSID_CHARS));
            }
            if let Some(w) = &self.network.wifi_password {
                let m: usize = byte_count(w.as_str());
                if m < 8 || m > 63 {
                    return Err(invalid(PSK_LENGTH));
                }
            }
        } else if self.network.wifi_password.is_some() {
            return Err(invalid(PSK_ALONE));
        }
        Ok(())
    }

    /// What the chosen packages lack.
    pub open spec fn package_problem(self) -> Option<Text> {
        let k = self.packages;
        let d = self.disk;
        if self.network.backend == NetworkBackend::Iwd && !k.install_yay {
            Some(about(IWD_YAY@, self.network.iwd_frontend.package(), ")"@))
        } else if k.install_hhd && !k.install_yay {
            Some(HHD_YAY@)
        } else if k.install_evdevhook2 && !k.install_yay {
            Some(EVDEVHOOK2_YAY@)
        } else if k.steam_prefetch_client && !k.install_gaming {
            Some(PREFETCH_GAMING@)
        } else if k.install_decky_loader && !k.install_gaming {
            Some(DECKY_GAMING@)
        } else if k.install_decky_loader && !k.install_yay {
            Some(DECKY_YAY@)
        } else if k.extra_packages.aur@.len() > 0 && !k.install_yay {
            Some(EXTRAS_YAY@)
        } else if k.install_btrfs_tools && !k.install_yay {
            Some(BTRFS_TOOLS_YAY@)
        } else if k.install_btrfs_tools && d.filesystem != Filesystem::Btrfs {
            Some(BTRFS_TOOLS_FS@)
        } else if k.install_grub_btrfs && d.filesystem != Filesystem::Btrfs {
            Some(GRUB_BTRFS_FS@)
        } else if k.install_grub_btrfs && !d.use_subvolumes {
            Some(GRUB_BTRFS_SUBVOLUMES@)
        } else if k.install_grub_btrfs && d.use_lvm_thin {
            Some(GRUB_BTRFS_LVM@)
        } else if k.install_zen_browser && !k.install_yay {
            Some(ZEN_YAY@)
        } else {
            None
        }
    }

    fn check_packages(&self) -> (r: Result<()>)
        ensures
            reports(r, self.package_problem()),
    {
        let k = &self.packages;
        let d = &self.disk;
        if self.network.backend == NetworkBackend::Iwd && !k.install_yay {
            return Err(fault(IWD_YAY, self.network.iwd_frontend.aur_package(), ")"));
        }
        if k.install_hhd && !k.install_yay {
            return Err(invalid(HHD_YAY));
        }
        if k.install_evdevhook2 && !k.install_yay {
            return Err(invalid(EVDEVHOOK2_YAY));
        }
        if k.steam_prefetch_client && !k.install_gaming {
            return Err(invalid(PREFETCH_GAMING));
        }
        if k.install_decky_loader {
            if !k.install_gaming {
                return Err(invalid(DECKY_GAMING));
            }
            if !k.install_yay {
                return Err(invalid(DECKY_YAY));
            }
        }
        if k.extra_packages.aur.len() > 0 && !k.install_yay {
            return Err(invalid(EXTRAS_YAY));
        }
        if k.install_btrfs_tools {
            if !k.install_yay {
                return Err(invalid(BTRFS_TOOLS_YAY));
            }
            if d.filesystem != Filesystem::Btrfs {
                return Err(invalid(BTRFS_TOOLS_FS));
            }
        }
        if k.install_grub_btrfs {
            if d.filesystem != Filesystem::Btrfs {
                return Err(invalid(GRUB_BTRFS_FS));
            }
            if !d.use_subvolumes {
                return Err(invalid(GRUB_BTRFS_SUBVOLUMES));
            }
            if d.use_lvm_thin {
                return Err(invalid(GRUB_BTRFS_LVM));
            }
        }
        if k.install_zen_browser && !k.install_yay {
            return Err(invalid(ZEN_YAY));
        }
        Ok(())
    }

    /// What keeps the immutable root from working: exactly one backend must apply, and the
    /// one on LVM cannot have its configuration inside a signed loader.
    pub open spec fn immutable_problem(self) -> Option<Text> {
        if self.packages.immutable_root && !self.packages.install_grub_btrfs
            && !self.disk.use_lvm_thin {
            Some(IMMUTABLE_BACKEND@)
        } else if self.btrfs_backend() && self.lvm_ab_backend() {
            Some(IMMUTABLE_BOTH@)
        } else if self.lvm_ab_backend() && self.system.secureboot && self.system.secureboot_method
            == SecureBootMethod::Sbctl && self.disk.encryption {
            Some(IMMUTABLE_SBCTL@)
        } else {
            None
        }
    }

    /// Checks the backend of the immutable root.
    pub fn validate_immutable_backend(&self) -> (r: Result<()>)
        ensures
            reports(r, self.immutable_problem()),
    {
        if self.packages.immutable_root && !self.packages.install_grub_btrfs
            && !self.disk.use_lvm_thin {
            return Err(invalid(IMMUTABLE_BACKEND));
        }
        if self.immutable_btrfs() && self.immutable_lvm_ab() {
            return Err(invalid(IMMUTABLE_BOTH));
        }
        if self.immutable_lvm_ab() && self.system.secureboot && self.system.secureboot_method
            == SecureBootMethod::Sbctl && self.disk.encryption {
            return Err(invalid(IMMUTABLE_SBCTL));
        }
        Ok(())
    }

    /// Hibernation without a place for its image.
    pub open spec fn hibernation_problem(self) -> Option<Text> {
        if self.system.hibernation && self.disk.swap_type == SwapType::ZramOnly {
            Some(HIBERNATION_ZRAM@)
        } else {
            None
        }
    }

    /// Checks that a hibernation image has a place that outlives a power-off.
    pub fn validate_hibernation(&self) -> (r: Result<()>)
        ensures
            reports(r, self.hibernation_problem()),
    {
        if self.system.hibernation && self.disk.swap_type == SwapType::ZramOnly {
            return Err(invalid(HIBERNATION_ZRAM));
        }
        Ok(())
    }

    /// The first broken rule, in the order in which the rules are checked.
    pub open spec fn problem(self, home_keyfile_is_file: bool) -> Option<Text> {
        first_problem(
            self.account_problem(),
            first_problem(
                self.disk_problem(),
                first_problem(
                    partition_problem(self.disk.partitions@),
                    first_problem(
                        self.recovery_problem(self.disk.partitions@, home_keyfile_is_file),
                        first_problem(
                            self.own_encryption_problem(),
                            first_problem(
                                self.session_problem(),
                                first_problem(
                                    self.wifi_problem(),
                                    first_problem(
                                        self.package_problem(),
                                        first_problem(
                                            self.immutable_problem(),
                                            self.hibernation_problem(),
                                        ),
                                    ),
                                ),
                            ),
                        ),
                    ),
                ),
            ),
        )
    }

    /// Checks the configuration: the device first, then every rule in order.
    pub fn validate(&self, host: &HostFacts) -> (r: Result<()>)
        ensures
            !host.device_exists ==> (r matches Err(DeploytixError::DeviceNotFound(d)) && d@
                == self.disk.device@),
            host.device_exists && !host.device_is_block ==> (r matches Err(
                DeploytixError::NotBlockDevice(d),
            ) && d@ == self.disk.device@),
            host.device_exists && host.device_is_block ==> reports(
                r,
                self.problem(host.home_keyfile_is_file),
            ),
    {
        if !host.device_exists {
            return Err(DeploytixError::DeviceNotFound(self.disk.device.clone()));
        }
        if !host.device_is_block {
            return Err(DeploytixError::NotBlockDevice(self.disk.device.clone()));
        }
        if let Err(e) = self.check_account() {
            return Err(e);
        }
        if let Err(e) = self.check_disk() {
            return Err(e);
        }
        if let Err(e) = check_partitions(&self.disk.partitions) {
            return Err(e);
        }
        if let Err(e) = self.validate_recovery(&self.disk.partitions, host.home_keyfile_is_file) {
            return Err(e);
        }
        if let Err(e) = self.check_own_encryption() {
            return Err(e);
        }
        if let Err(e) = self.check_session() {
            return Err(e);
        }
        if let Err(e) = self.check_wifi() {
            return Err(e);
        }
        if let Err(e) = self.check_packages() {
            return Err(e);
        }
        if let Err(e) = self.validate_immutable_backend() {
            return Err(e);
        }
        self.validate_hibernation()
    }
}

fn has_control(s: &str) -> (r: bool)
    ensures
        r == exists|i: int| 0 <= i < s@.len() && control(#[trigger] s@[i]),
{
    let v = chars_of(s);
    let mut i: usize = 0;
    while i < v.len()
        invariant
            i <= v@.len(),
            v@ == s@,
            forall|j: int| 0 <= j < i ==> !control(#[trigger] v@[j]),
        decreases v.len() - i,
    {
        let u: u32 = v[i] as u32;
        if u <= 0x1f || (0x7f <= u && u <= 0x9f) {
            assert(control(v@[i as int]));
            return true;
        }
        i += 1;
    }
    false
}

} // verus!
