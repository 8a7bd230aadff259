//! The configuration as the user writes it, and its default values.
use vstd::prelude::*;

use crate::text;
use crate::config::options::{
    Bootloader, DesktopEnvironment, DisplayManager, Filesystem, GpuDriverVendor, InitSystem,
    IwdFrontend, NetworkBackend, PartitionLayout, SecureBootMethod, SwapType, TkgScheduler,
};
use crate::text::{push_text, same, split, upper, Text};

verus! {

/// A whole deployment.
#[derive(Debug, Clone)]
pub struct DeploymentConfig {
    pub disk: DiskConfig,
    pub system: SystemConfig,
    pub user: UserConfig,
    pub network: NetworkConfig,
    pub desktop: DesktopConfig,
    /// Optional package collections.
    pub packages: PackagesConfig,
}

/// One data partition that the user defined.
#[derive(Debug, Clone)]
pub struct CustomPartitionEntry {
    /// Mount point, such as "/" or "/home".
    pub mount_point: String,
    /// Label; derived from the mount point where it is not given.
    pub label: Option<String>,
    /// Size in MiB; 0 takes what is left of the disk.
    pub size_mib: u64,
    /// Encryption of this partition; inherited from the disk where not given.
    pub encryption: Option<bool>,
}

/// Reinstalling while volumes that are on the disk are kept.
#[derive(Debug, Clone)]
pub struct RecoveryConfig {
    /// Keep the home volume: its extent, its container and its filesystem.
    pub reuse_home: bool,
    /// Keyfile, on the installing host, that unlocks the kept home.
    pub home_keyfile: Option<String>,
    /// Ask for a passphrase where there is no keyfile or it is rejected.
    pub allow_passphrase_fallback: bool,
}

#[derive(Debug, Clone)]
pub struct DiskConfig {
    /// Target device, such as /dev/sda.
    pub device: String,
    /// Shape of the partition table.
    pub layout: PartitionLayout,
    /// Filesystem of the data partitions.
    pub filesystem: Filesystem,
    /// Filesystem of /boot.
    pub boot_filesystem: Filesystem,
    /// LUKS on the data partitions.
    pub encryption: bool,
    pub encryption_password: Option<String>,
    /// Mapper name of the root container.
    pub luks_mapper_name: String,
    /// LUKS1 on /boot.
    pub boot_encryption: bool,
    /// Mapper name of the boot container.
    pub luks_boot_mapper_name: String,
    /// Keyfile; a password is asked for where there is none.
    pub keyfile_path: Option<String>,
    /// dm-integrity beside the encryption.
    pub integrity: bool,
    /// Unlock the volumes with keyfiles.
    pub keyfile_enabled: bool,
    /// Btrfs subvolumes within the partitions.
    pub use_subvolumes: bool,
    /// LVM thin provisioning.
    pub use_lvm_thin: bool,
    pub lvm_vg_name: String,
    pub lvm_thin_pool_name: String,
    /// Share of the volume group that the thin pool takes, in percent.
    pub lvm_thin_pool_percent: u8,
    pub swap_type: SwapType,
    /// Size of the swap file in MiB; 0 derives it from the memory.
    pub swap_file_size_mib: u64,
    pub zram_algorithm: String,
    /// The data partitions. EFI, boot and swap partitions come by themselves.
    pub partitions: Vec<CustomPartitionEntry>,
    pub recovery: RecoveryConfig,
}

#[derive(Debug, Clone)]
pub struct SystemConfig {
    pub init: InitSystem,
    pub bootloader: Bootloader,
    /// Such as "America/New_York".
    pub timezone: String,
    /// Such as "en_US.UTF-8".
    pub locale: String,
    pub keymap: String,
    pub hostname: String,
    pub hibernation: bool,
    pub secureboot: bool,
    pub secureboot_method: SecureBootMethod,
    /// Directory of the user's own keys.
    pub secureboot_keys_path: Option<String>,
}

#[derive(Debug, Clone)]
pub struct UserConfig {
    pub name: String,
    pub password: String,
    pub groups: Vec<String>,
    pub sudoer: bool,
    /// Keep the home directory in a gocryptfs that opens at login.
    pub encrypt_home: bool,
}

#[derive(Debug, Clone)]
pub struct NetworkConfig {
    pub backend: NetworkBackend,
    /// Frontend of a standalone iwd.
    pub iwd_frontend: IwdFrontend,
    /// Wireless network that the target knows from its first boot.
    pub wifi_ssid: Option<String>,
    /// Passphrase of that network; none for an open one.
    pub wifi_password: Option<String>,
}

#[derive(Debug, Clone)]
pub struct DesktopConfig {
    pub environment: DesktopEnvironment,
    /// Without meaning where there is no desktop.
    pub display_manager: DisplayManager,
}

/// Optional package collections.
#[derive(Debug, Clone)]
pub struct PackagesConfig {
    pub install_yay: bool,
    /// An AUR package, so yay has to be there.
    pub install_zen_browser: bool,
    /// Fetched from its vendor, see [`WARP_TERMINAL_URL`].
    pub install_warp_terminal: bool,
    /// The prebuilt linux-tkg kernel in place of linux-zen.
    pub install_tkg_kernel: bool,
    pub tkg_scheduler: TkgScheduler,
    pub install_wine: bool,
    /// Steam and gamescope.
    pub install_gaming: bool,
    /// Switching between gamescope and the desktop through greetd.
    pub install_session_switching: bool,
    /// snapper and btrfs-assistant.
    pub install_btrfs_tools: bool,
    /// Bootable snapshots in the GRUB menu.
    pub install_grub_btrfs: bool,
    /// A read-only root with atomic updates, over btrfs snapshots or two LVM slots.
    pub immutable_root: bool,
    pub sysctl_gaming_tweaks: bool,
    pub sysctl_network_performance: bool,
    /// Handheld Daemon.
    pub install_hhd: bool,
    /// Download the Steam client while installing.
    pub steam_prefetch_client: bool,
    pub install_decky_loader: bool,
    pub install_evdevhook2: bool,
    /// Controller quirks of the Legion Go family; by the host's model where not given.
    pub handheld_controller_quirks: Option<bool>,
    pub gpu_drivers: Vec<GpuDriverVendor>,
    pub extra_packages: ExtraPackagesConfig,
}

/// Packages that the user asked for on top.
#[derive(Debug, Clone)]
pub struct ExtraPackagesConfig {
    pub pacman: Vec<String>,
    pub aur: Vec<String>,
}

/// Where the package of Warp Terminal is downloaded.
pub const WARP_TERMINAL_URL: &'static str = "https://app.warp.dev/download?package=pacman";

/// Where the prebuilt linux-tkg packages are looked up.
pub const TKG_RELEASES_API: &'static str =
    "https://api.github.com/repos/Frogging-Family/linux-tkg/releases/latest";

/// Release tag of the build to fall back on.
pub const TKG_FALLBACK_TAG: &'static str = "v7.2.3";

/// Kernel series of the build to fall back on.
pub const TKG_FALLBACK_KVER: &'static str = "linux72";

/// Version and package release of the build to fall back on.
pub const TKG_FALLBACK_BUILD: &'static str = "7.2.3-273";

/// The address of a linux-tkg package of the fallback build.
pub open spec fn tkg_url(sched: TkgScheduler, kind: Text) -> Text {
    "https://github.com/Frogging-Family/linux-tkg/releases/download/"@ + TKG_FALLBACK_TAG@ + "/"@
        + TKG_FALLBACK_KVER@ + "-tkg-"@ + sched.token() + "-llvm-"@ + kind + TKG_FALLBACK_BUILD@
        + "-x86_64.pkg.tar.zst"@
}

fn tkg_package_url(sched: TkgScheduler, kind: &str) -> (r: String)
    ensures
        r@ == tkg_url(sched, kind@),
{
    let mut s = "https://github.com/Frogging-Family/linux-tkg/releases/download/".to_owned();
    s.push_str(TKG_FALLBACK_TAG);
    s.push_str("/");
    s.push_str(TKG_FALLBACK_KVER);
    s.push_str("-tkg-");
    s.push_str(sched.as_str());
    s.push_str("-llvm-");
    s.push_str(kind);
    s.push_str(TKG_FALLBACK_BUILD);
    s.push_str("-x86_64.pkg.tar.zst");
    s
}

/// The addresses of the fallback build's kernel and of its headers.
pub fn tkg_fallback_urls(sched: TkgScheduler) -> (r: (String, String))
    ensures
        r.0@ == tkg_url(sched, ""@),
        r.1@ == tkg_url(sched, "headers-"@),
{
    (tkg_package_url(sched, ""), tkg_package_url(sched, "headers-"))
}

// -------------------------------------------------------------------- partitions
/// The last of the parts that is not empty.
pub open spec fn last_nonempty(parts: Seq<Text>) -> Option<Text>
    decreases parts.len(),
{
    if parts.len() == 0 {
        None
    } else if parts.last().len() > 0 {
        Some(parts.last())
    } else {
        last_nonempty(parts.drop_last())
    }
}

/// The label that a mount point gives: "ROOT" for "/", else its last component
/// in upper case, "DATA" where it has none.
pub open spec fn derived_label(mount_point: Text) -> Text {
    if mount_point == "/"@ {
        "ROOT"@
    } else {
        match last_nonempty(text::pieces(mount_point, '/')) {
            Some(t) => text::raised(t),
            None => text::raised("DATA"@),
        }
    }
}

pub fn label_for(mount_point: &str) -> (r: String)
    ensures
        r@ == derived_label(mount_point@),
{
    if same(mount_point, "/") {
        return "ROOT".to_owned();
    }
    let parts = split(mount_point, '/');
    let ghost d = parts.deep_view();
    let mut i: usize = parts.len();
    assert(d.take(i as int) =~= d);
    while i > 0
        invariant
            i <= parts@.len(),
            d == parts.deep_view(),
            d == text::pieces(mount_point@, '/'),
            last_nonempty(d) == last_nonempty(d.take(i as int)),
            mount_point@ != "/"@,
        decreases i,
    {
        assert(d.take(i as int).last() == parts@[i - 1]@);
        if !parts[i - 1].as_str().is_empty() {
            return upper(parts[i - 1].as_str());
        }
        assert(d.take(i as int).drop_last() =~= d.take(i - 1));
        i -= 1;
    }
    upper("DATA")
}

impl CustomPartitionEntry {
    /// The label that the partition gets.
    pub open spec fn label_text(self) -> Text {
        match self.label {
            Some(l) => l@,
            None => derived_label(self.mount_point@),
        }
    }

    pub fn effective_label(&self) -> (r: String)
        ensures
            r@ == self.label_text(),
    {
        match &self.label {
            Some(l) => l.clone(),
            None => label_for(self.mount_point.as_str()),
        }
    }

    pub open spec fn encrypted(self, global_encryption: bool) -> bool {
        match self.encryption {
            Some(b) => b,
            None => global_encryption,
        }
    }

    /// Whether the partition is encrypted: its own setting, else that of the disk.
    pub fn is_encrypted(&self, global_encryption: bool) -> (r: bool)
        ensures
            r == self.encrypted(global_encryption),
    {
        match self.encryption {
            Some(b) => b,
            None => global_encryption,
        }
    }

    /// A partition with no label of its own and the disk's encryption.
    pub open spec fn plain(self, mount_point: Text, size_mib: u64) -> bool {
        &&& self.mount_point@ == mount_point
        &&& self.label is None
        &&& self.size_mib == size_mib
        &&& self.encryption is None
    }

    pub fn new(mount_point: &str, size_mib: u64) -> (r: Self)
        ensures
            r.plain(mount_point@, size_mib),
    {
        CustomPartitionEntry {
            mount_point: mount_point.to_owned(),
            label: None,
            size_mib,
            encryption: None,
        }
    }
}

// ---------------------------------------------------------------------- defaults
pub fn default_timezone() -> (r: String)
    ensures
        r@ == "UTC"@,
{
    "UTC".to_owned()
}

pub fn default_locale() -> (r: String)
    ensures
        r@ == "en_US.UTF-8"@,
{
    "en_US.UTF-8".to_owned()
}

pub fn default_keymap() -> (r: String)
    ensures
        r@ == "us"@,
{
    "us".to_owned()
}

pub fn default_hostname() -> (r: String)
    ensures
        r@ == "artix"@,
{
    "artix".to_owned()
}

pub fn default_luks_mapper_name() -> (r: String)
    ensures
        r@ == "Crypt-Root"@,
{
    "Crypt-Root".to_owned()
}

pub fn default_luks_boot_mapper_name() -> (r: String)
    ensures
        r@ == "Crypt-Boot"@,
{
    "Crypt-Boot".to_owned()
}

pub fn default_vg_name() -> (r: String)
    ensures
        r@ == "vg0"@,
{
    "vg0".to_owned()
}

pub fn default_thin_pool_name() -> (r: String)
    ensures
        r@ == "thinpool"@,
{
    "thinpool".to_owned()
}

pub fn default_thin_pool_percent() -> (r: u8)
    ensures
        r == 95,
{
    95
}

pub fn default_zram_algorithm() -> (r: String)
    ensures
        r@ == "zstd"@,
{
    "zstd".to_owned()
}

pub fn default_true() -> (r: bool)
    ensures
        r,
{
    true
}

/// The groups that a new user joins.
pub open spec fn groups_by_default() -> Seq<Text> {
    seq![
        "wheel"@,
        "video"@,
        "audio"@,
        "input"@,
        "render"@,
        "network"@,
        "log"@,
        "seat"@,
    ]
}

pub fn default_groups() -> (r: Vec<String>)
    ensures
        r.deep_view() == groups_by_default(),
{
    let mut v: Vec<String> = Vec::new();
    push_text(&mut v, "wheel");
    push_text(&mut v, "video");
    push_text(&mut v, "audio");
    push_text(&mut v, "input");
    push_text(&mut v, "render");
    push_text(&mut v, "network");
    push_text(&mut v, "log");
    push_text(&mut v, "seat");
    assert(v.deep_view() =~= groups_by_default());
    v
}

/// Root, usr, var, and home with what is left.
pub open spec fn partitions_by_default(p: Seq<CustomPartitionEntry>) -> bool {
    &&& p.len() == 4
    &&& p[0].plain("/"@, 20480)
    &&& p[1].plain("/usr"@, 30720)
    &&& p[2].plain("/var"@, 10240)
    &&& p[3].plain("/home"@, 0)
}

pub fn default_partitions() -> (r: Vec<CustomPartitionEntry>)
    ensures
        partitions_by_default(r@),
{
    vec![
        CustomPartitionEntry::new("/", 20480),
        CustomPartitionEntry::new("/usr", 30720),
        CustomPartitionEntry::new("/var", 10240),
        CustomPartitionEntry::new("/home", 0),
    ]
}

pub fn default_boot_filesystem() -> (r: Filesystem)
    ensures
        r == Filesystem::Ext4,
{
    Filesystem::Ext4
}

/// The filesystem of /boot that goes with a data filesystem.
pub open spec fn boot_filesystem_of(fs: Filesystem) -> Filesystem {
    if fs == Filesystem::Btrfs {
        Filesystem::Btrfs
    } else {
        Filesystem::Ext4
    }
}

pub fn boot_filesystem_for(fs: &Filesystem) -> (r: Filesystem)
    ensures
        r == boot_filesystem_of(*fs),
{
    match fs {
        Filesystem::Btrfs => Filesystem::Btrfs,
        _ => Filesystem::Ext4,
    }
}

impl RecoveryConfig {
    /// Nothing is kept.
    pub open spec fn off(self) -> bool {
        !self.reuse_home && self.home_keyfile is None && !self.allow_passphrase_fallback
    }
}

impl Default for RecoveryConfig {
    fn default() -> (r: Self)
        ensures
            r.off(),
    {
        RecoveryConfig { reuse_home: false, home_keyfile: None, allow_passphrase_fallback: false }
    }
}

impl ExtraPackagesConfig {
    pub open spec fn none_asked(self) -> bool {
        self.pacman@.len() == 0 && self.aur@.len() == 0
    }

    pub fn is_empty(&self) -> (r: bool)
        ensures
            r == self.none_asked(),
    {
        self.pacman.len() == 0 && self.aur.len() == 0
    }
}

impl Default for ExtraPackagesConfig {
    fn default() -> (r: Self)
        ensures
            r.none_asked(),
    {
        ExtraPackagesConfig { pacman: Vec::new(), aur: Vec::new() }
    }
}

impl PackagesConfig {
    /// No collection is chosen.
    pub open spec fn nothing_chosen(self) -> bool {
        &&& !self.install_yay
        &&& !self.install_zen_browser
        &&& !self.install_warp_terminal
        &&& !self.install_tkg_kernel
        &&& self.tkg_scheduler == TkgScheduler::Bore
        &&& !self.install_wine
        &&& !self.install_gaming
        &&& !self.install_session_switching
        &&& !self.install_btrfs_tools
        &&& !self.install_grub_btrfs
        &&& !self.immutable_root
        &&& !self.sysctl_gaming_tweaks
        &&& !self.sysctl_network_performance
        &&& !self.install_hhd
        &&& !self.steam_prefetch_client
        &&& !self.install_decky_loader
        &&& !self.install_evdevhook2
        &&& self.handheld_controller_quirks is None
        &&& self.gpu_drivers@.len() == 0
        &&& self.extra_packages.none_asked()
    }
}

impl Default for PackagesConfig {
    fn default() -> (r: Self)
        ensures
            r.nothing_chosen(),
    {
        PackagesConfig {
            install_yay: false,
            install_zen_browser: false,
            install_warp_terminal: false,
            install_tkg_kernel: false,
            tkg_scheduler: TkgScheduler::Bore,
            install_wine: false,
            install_gaming: false,
            install_session_switching: false,
            install_btrfs_tools: false,
            install_grub_btrfs: false,
            immutable_root: false,
            sysctl_gaming_tweaks: false,
            sysctl_network_performance: false,
            install_hhd: false,
            steam_prefetch_client: false,
            install_decky_loader: false,
            install_evdevhook2: false,
            handheld_controller_quirks: None,
            gpu_drivers: Vec::new(),
            extra_packages: ExtraPackagesConfig { pacman: Vec::new(), aur: Vec::new() },
        }
    }
}

// ----------------------------------------------------------------- whole configs
pub open spec fn game_mode_offline_warning() -> Text {
    "Game Mode is enabled but no Wi-Fi network is pre-seeded (network.wifi_ssid is unset). Steam's gamepad UI needs network access on first boot before its own network-setup page can be shown, so a machine with no wired connection may reach Game Mode with no way to get online. Set network.wifi_ssid / network.wifi_password, or ensure ethernet is connected at first boot."@
}

impl DeploymentConfig {
    /// The immutable root is kept in btrfs snapshots.
    pub open spec fn btrfs_backend(self) -> bool {
        self.packages.immutable_root && self.packages.install_grub_btrfs
    }

    /// The immutable root is kept in two LVM slots.
    pub open spec fn lvm_ab_backend(self) -> bool {
        self.packages.immutable_root && self.disk.use_lvm_thin
    }

    pub fn immutable_btrfs(&self) -> (r: bool)
        ensures
            r == self.btrfs_backend(),
    {
        self.packages.immutable_root && self.packages.install_grub_btrfs
    }

    pub fn immutable_lvm_ab(&self) -> (r: bool)
        ensures
            r == self.lvm_ab_backend(),
    {
        self.packages.immutable_root && self.disk.use_lvm_thin
    }

    /// The disk settings of the sample: one plain btrfs disk.
    pub open spec fn sample_disk(d: DiskConfig) -> bool {
        &&& d.device@ == "/dev/sda"@
        &&& d.layout == PartitionLayout::Standard
        &&& d.filesystem == Filesystem::Btrfs
        &&& d.boot_filesystem == Filesystem::Btrfs
        &&& !d.encryption
        &&& d.encryption_password is None
        &&& d.luks_mapper_name@ == "Crypt-Root"@
        &&& !d.boot_encryption
        &&& d.luks_boot_mapper_name@ == "Crypt-Boot"@
        &&& d.keyfile_path is None
        &&& !d.integrity
        &&& !d.keyfile_enabled
        &&& !d.use_subvolumes
        &&& !d.use_lvm_thin
        &&& d.lvm_vg_name@ == "vg0"@
        &&& d.lvm_thin_pool_name@ == "thinpool"@
        &&& d.lvm_thin_pool_percent == 95
        &&& d.swap_type == SwapType::Partition
        &&& d.swap_file_size_mib == 0
        &&& d.zram_algorithm@ == "zstd"@
        &&& partitions_by_default(d.partitions@)
        &&& d.recovery.off()
    }

    pub open spec fn sample_system(s: SystemConfig) -> bool {
        &&& s.init == InitSystem::Runit
        &&& s.bootloader == Bootloader::Grub
        &&& s.timezone@ == "America/New_York"@
        &&& s.locale@ == "en_US.UTF-8"@
        &&& s.keymap@ == "us"@
        &&& s.hostname@ == "artix"@
        &&& !s.hibernation
        &&& !s.secureboot
        &&& s.secureboot_method == SecureBootMethod::Sbctl
        &&& s.secureboot_keys_path is None
    }

    pub open spec fn is_sample(self) -> bool {
        &&& Self::sample_disk(self.disk)
        &&& Self::sample_system(self.system)
        &&& self.user.name@ == "user"@
        &&& self.user.password@ == "changeme"@
        &&& self.user.groups.deep_view() == groups_by_default()
        &&& self.user.sudoer
        &&& !self.user.encrypt_home
        &&& self.network.backend == NetworkBackend::Iwd
        &&& self.network.iwd_frontend == IwdFrontend::Iwgtk
        &&& self.network.wifi_ssid is None
        &&& self.network.wifi_password is None
        &&& self.desktop.environment == DesktopEnvironment::Kde
        &&& self.desktop.display_manager == DisplayManager::Greetd
        &&& self.packages.nothing_chosen()
    }

    /// A sample configuration.
    pub fn sample() -> (r: Self)
        ensures
            r.is_sample(),
    {
        DeploymentConfig {
            disk: DiskConfig {
                device: "/dev/sda".to_owned(),
                layout: PartitionLayout::Standard,
                filesystem: Filesystem::Btrfs,
                boot_filesystem: Filesystem::Btrfs,
                encryption: false,
                encryption_password: None,
                luks_mapper_name: default_luks_mapper_name(),
                boot_encryption: false,
                luks_boot_mapper_name: default_luks_boot_mapper_name(),
                keyfile_path: None,
                integrity: false,
                keyfile_enabled: false,
                use_subvolumes: false,
                use_lvm_thin: false,
                lvm_vg_name: default_vg_name(),
                lvm_thin_pool_name: default_thin_pool_name(),
                lvm_thin_pool_percent: default_thin_pool_percent(),
                swap_type: SwapType::Partition,
                swap_file_size_mib: 0,
                zram_algorithm: default_zram_algorithm(),
                partitions: default_partitions(),
                recovery: RecoveryConfig::default(),
            },
            system: SystemConfig {
                init: InitSystem::Runit,
                bootloader: Bootloader::Grub,
                timezone: "America/New_York".to_owned(),
                locale: "en_US.UTF-8".to_owned(),
                keymap: "us".to_owned(),
                hostname: "artix".to_owned(),
                hibernation: false,
                secureboot: false,
                secureboot_method: SecureBootMethod::Sbctl,
                secureboot_keys_path: None,
            },
            user: UserConfig {
                name: "user".to_owned(),
                password: "changeme".to_owned(),
                groups: default_groups(),
                sudoer: true,
                encrypt_home: false,
            },
            network: NetworkConfig {
                backend: NetworkBackend::Iwd,
                iwd_frontend: IwdFrontend::Iwgtk,
                wifi_ssid: None,
                wifi_password: None,
            },
            desktop: DesktopConfig {
                environment: DesktopEnvironment::Kde,
                display_manager: DisplayManager::Greetd,
            },
            packages: PackagesConfig::default(),
        }
    }

    /// What the user should know and what is no error.
    pub open spec fn advice(self) -> Seq<Text> {
        if self.packages.install_session_switching && self.network.wifi_ssid is None {
            seq![game_mode_offline_warning()]
        } else {
            seq![]
        }
    }

    pub fn warnings(&self) -> (r: Vec<String>)
        ensures
            r.deep_view() == self.advice(),
    {
        let mut warnings: Vec<String> = Vec::new();
        if self.packages.install_session_switching && self.network.wifi_ssid.is_none() {
            push_text(
                &mut warnings,
                "Game Mode is enabled but no Wi-Fi network is pre-seeded (network.wifi_ssid is unset). Steam's gamepad UI needs network access on first boot before its own network-setup page can be shown, so a machine with no wired connection may reach Game Mode with no way to get online. Set network.wifi_ssid / network.wifi_password, or ensure ethernet is connected at first boot.",
            );
        }
        assert(warnings.deep_view() =~= self.advice());
        warnings
    }
}

// -------------------------------------------------------------------------- laws
/// The label is the last component of the place, in upper case, however deep the place is
/// and whether or not a stroke ends it; the root's is its own.
pub proof fn label_is_the_last_component(before: Text, name: Text)
    requires
        name.len() > 0,
        !name.contains('/'),
    ensures
        derived_label(before + "/"@ + name) == text::raised(name),
        derived_label(before + "/"@ + name + "/"@) == text::raised(name),
        derived_label("/"@) == "ROOT"@,
{
    reveal_strlit("/");
    assert("/"@ =~= seq!['/']);
    let s = before + "/"@ + name;
    text::lemma_pieces_sum(before, name, '/');
    text::lemma_one_piece(name, '/');
    let v = text::pieces(s, '/');
    assert(v.last() == name);
    assert(s.len() > 1);
    let none = Seq::<char>::empty();
    let t = s + "/"@;
    assert(t =~= s + seq!['/'] + none);
    text::lemma_pieces_sum(s, none, '/');
    text::lemma_one_piece(none, '/');
    let w = text::pieces(t, '/');
    assert(w =~= v.push(none));
    assert(w.drop_last() =~= v);
    assert(w.last().len() == 0);
    assert(last_nonempty(v) == Some(name));
    assert(last_nonempty(w) == last_nonempty(v));
}

/// The address of a kernel names the scheduler that was chosen, and tells the kernel from its
/// headers.
pub proof fn addresses_name_the_scheduler(sched: TkgScheduler, kind: Text)
    ensures
        text::begins(
            tkg_url(sched, kind),
            "https://github.com/Frogging-Family/linux-tkg/releases/download/"@,
        ),
        text::holds(tkg_url(sched, kind), "-tkg-"@ + sched.token() + "-llvm-"@ + kind),
        text::ends(tkg_url(sched, kind), "-x86_64.pkg.tar.zst"@),
{
    let host = "https://github.com/Frogging-Family/linux-tkg/releases/download/"@;
    let before = host + TKG_FALLBACK_TAG@ + "/"@ + TKG_FALLBACK_KVER@;
    let part = "-tkg-"@ + sched.token() + "-llvm-"@ + kind;
    let last = "-x86_64.pkg.tar.zst"@;
    let after = TKG_FALLBACK_BUILD@ + last;
    let s = tkg_url(sched, kind);
    assert(s =~= before + part + after);
    crate::effects::lemma_part(before, part, after);
    assert(s.subrange(0, host.len() as int) =~= host);
    assert(s.subrange(s.len() - last.len(), s.len() as int) =~= last);
}

} // verus!
