//! The wizard: a configuration made by questions and answers.
//!
//! The wizard holds the configuration so far and the stage that it is at. It
//! says what to ask; the program asks, and hands the answer back.
use vstd::prelude::*;

use crate::text;
use crate::config::model;
use crate::config::model::{
    boot_filesystem_for, default_groups, default_luks_boot_mapper_name, default_luks_mapper_name,
    default_thin_pool_name, default_thin_pool_percent, default_vg_name, default_zram_algorithm,
    label_for, CustomPartitionEntry, DeploymentConfig, DesktopConfig, DiskConfig, NetworkConfig,
    PackagesConfig, RecoveryConfig, SystemConfig, UserConfig,
};
use crate::config::options::{
    Bootloader, DesktopEnvironment, DisplayManager, Filesystem, GpuDriverVendor, InitSystem,
    IwdFrontend, NetworkBackend, PartitionLayout, SecureBootMethod, SwapType, TkgScheduler,
};
use crate::configure::handheld_quirks::HandheldModel;
use crate::error::{DeploytixError, Result};
use crate::text::{concat, concat3, parse, push_text, same, starts_with, Text};

verus! {

/// A disk that can be chosen.
#[derive(Debug, Clone)]
pub struct DiskChoice {
    pub path: String,
    /// Its size, for people.
    pub size: String,
    pub model: Option<String>,
}

impl DiskChoice {
    pub open spec fn shown(self) -> Text {
        self.path@ + " - "@ + self.size@ + " "@ + match self.model {
            Some(m) => m@,
            None => ""@,
        }
    }

    pub fn to_text(&self) -> (r: String)
        ensures
            r@ == self.shown(),
    {
        let mut s = self.path.clone();
        s.push_str(" - ");
        s.push_str(self.size.as_str());
        s.push_str(" ");
        match &self.model {
            Some(m) => s.push_str(m.as_str()),
            None => s.push_str(""),
        }
        s
    }
}

/// Where the wizard is, in the order of its questions.
#[derive(Debug, Clone, Copy, PartialEq, Eq, Structural)]
pub enum Stage {
    Disk,
    MountPoint,
    Size,
    Label,
    More,
    DataFilesystem,
    Encryption,
    Integrity,
    BootEncryption,
    EncryptionPassword,
    Init,
    Timezone,
    Locale,
    Keymap,
    Hostname,
    Username,
    Password,
    Network,
    IwdFrontend,
    Desktop,
    DisplayManager,
    Swap,
    Hibernation,
    LvmThin,
    SecureBoot,
    SecureBootKeys,
    Gpu,
    Wine,
    Warp,
    Tkg,
    Scheduler,
    Gaming,
    SessionSwitching,
    Wifi,
    Ssid,
    WifiProtected,
    WifiPassword,
    Yay,
    Zen,
    BtrfsTools,
    GrubBtrfs,
    Immutable,
    SysctlGaming,
    SysctlNetwork,
    Hhd,
    SteamPrefetch,
    Decky,
    Evdevhook2,
    Quirks,
    Done,
}

impl Stage {
    /// The place of the stage in the order.
    pub open spec fn rank(self) -> int {
        match self {
            Stage::Disk => 0,
            Stage::MountPoint => 1,
            Stage::Size => 2,
            Stage::Label => 3,
            Stage::More => 4,
            Stage::DataFilesystem => 5,
            Stage::Encryption => 6,
            Stage::Integrity => 7,
            Stage::BootEncryption => 8,
            Stage::EncryptionPassword => 9,
            Stage::Init => 10,
            Stage::Timezone => 11,
            Stage::Locale => 12,
            Stage::Keymap => 13,
            Stage::Hostname => 14,
            Stage::Username => 15,
            Stage::Password => 16,
            Stage::Network => 17,
            Stage::IwdFrontend => 18,
            Stage::Desktop => 19,
            Stage::DisplayManager => 20,
            Stage::Swap => 21,
            Stage::Hibernation => 22,
            Stage::LvmThin => 23,
            Stage::SecureBoot => 24,
            Stage::SecureBootKeys => 25,
            Stage::Gpu => 26,
            Stage::Wine => 27,
            Stage::Warp => 28,
            Stage::Tkg => 29,
            Stage::Scheduler => 30,
            Stage::Gaming => 31,
            Stage::SessionSwitching => 32,
            Stage::Wifi => 33,
            Stage::Ssid => 34,
            Stage::WifiProtected => 35,
            Stage::WifiPassword => 36,
            Stage::Yay => 37,
            Stage::Zen => 38,
            Stage::BtrfsTools => 39,
            Stage::GrubBtrfs => 40,
            Stage::Immutable => 41,
            Stage::SysctlGaming => 42,
            Stage::SysctlNetwork => 43,
            Stage::Hhd => 44,
            Stage::SteamPrefetch => 45,
            Stage::Decky => 46,
            Stage::Evdevhook2 => 47,
            Stage::Quirks => 48,
            Stage::Done => 49,
        }
    }
}

/// What is asked.
#[derive(Debug, Clone)]
#[allow(inconsistent_fields)]
pub enum Question {
    /// One of the options, by its index.
    Select { prompt: String, options: Vec<String>, default: usize },
    /// Any of the options, by their indices.
    MultiSelect { prompt: String, options: Vec<String> },
    Confirm { prompt: String, default: bool },
    Input { prompt: String, default: Option<String> },
    /// A secret, entered twice.
    Password { prompt: String },
    Nothing,
}

/// A question as the contracts speak of it.
#[allow(inconsistent_fields)]
pub enum Ask {
    Select { prompt: Text, options: Seq<Text>, default: int },
    MultiSelect { prompt: Text, options: Seq<Text> },
    Confirm { prompt: Text, default: bool },
    Input { prompt: Text, default: Option<Text> },
    Password { prompt: Text },
    Nothing,
}

impl View for Question {
    type V = Ask;

    open spec fn view(&self) -> Ask {
        match *self {
            Question::Select { prompt, options, default } => Ask::Select {
                prompt: prompt@,
                options: options.deep_view(),
                default: default as int,
            },
            Question::MultiSelect { prompt, options } => Ask::MultiSelect {
                prompt: prompt@,
                options: options.deep_view(),
            },
            Question::Confirm { prompt, default } => Ask::Confirm { prompt: prompt@, default },
            Question::Input { prompt, default } => Ask::Input {
                prompt: prompt@,
                default: match default {
                    Some(t) => Some(t@),
                    None => None,
                },
            },
            Question::Password { prompt } => Ask::Password { prompt: prompt@ },
            Question::Nothing => Ask::Nothing,
        }
    }
}

/// An answer.
#[derive(Debug, Clone)]
pub enum Reply {
    Choice(usize),
    Choices(Vec<usize>),
    Yes(bool),
    Entry(String),
}

pub const ASK_DISK: &'static str = "Select target disk";

pub const ASK_MOUNT_POINT: &'static str = "Mount point (e.g. /, /home, /var)";

pub const ASK_SIZE: &'static str = "Size in MiB (0 = remaining space)";

pub const ASK_MORE: &'static str = "Add another partition?";

pub const ASK_DATA_FILESYSTEM: &'static str = "Data filesystem";

pub const ASK_ENCRYPTION: &'static str = "Enable LUKS encryption on data partitions?";

pub const ASK_INTEGRITY: &'static str = "Enable dm-integrity (per-sector HMAC-SHA256 integrity protection)?";

pub const ASK_BOOT_ENCRYPTION: &'static str = "Enable LUKS1 encryption on /boot partition?";

pub const ASK_ENCRYPTION_PASSWORD: &'static str = "Encryption password";

pub const ASK_INIT: &'static str = "Init system";

pub const ASK_TIMEZONE: &'static str = "Timezone";

pub const ASK_LOCALE: &'static str = "Locale";

pub const ASK_KEYMAP: &'static str = "Keyboard layout";

pub const ASK_HOSTNAME: &'static str = "Hostname";

pub const ASK_USERNAME: &'static str = "Username";

pub const ASK_PASSWORD: &'static str = "User password";

pub const ASK_NETWORK: &'static str = "Network backend";

pub const ASK_IWD_FRONTEND: &'static str = "iwd GUI frontend (AUR)";

pub const ASK_DESKTOP: &'static str = "Desktop environment";

pub const ASK_DISPLAY_MANAGER: &'static str = "Display manager";

pub const ASK_SWAP: &'static str = "Swap configuration";

pub const ASK_HIBERNATION: &'static str = "Enable hibernation (suspend to disk)?";

pub const ASK_LVM_THIN: &'static str = "Enable LVM thin provisioning?";

pub const ASK_SECURE_BOOT: &'static str = "Enable SecureBoot signing?";

pub const ASK_SECURE_BOOT_KEYS: &'static str = "SecureBoot method";

pub const ASK_GPU: &'static str = "Video/Graphics Drivers (space to toggle, enter to confirm)";

pub const ASK_WINE: &'static str = "Install Wine compatibility packages?";

pub const ASK_WARP: &'static str = "Install Warp Terminal: The Agentic Terminal?";

pub const ASK_TKG: &'static str = "Install the prebuilt linux-tkg kernel (replaces linux-zen)?";

pub const ASK_SCHEDULER: &'static str = "linux-tkg CPU scheduler";

pub const ASK_GAMING: &'static str = "Install Gaming packages (Steam, gamescope)?";

pub const ASK_SESSION_SWITCHING: &'static str = "Enable session switching (Game Mode \u{2194} Desktop via greetd)?";

pub const ASK_WIFI: &'static str = "Pre-configure a Wi-Fi network on the installed system?";

pub const ASK_SSID: &'static str = "Wi-Fi SSID";

pub const ASK_WIFI_PROTECTED: &'static str = "Is the network password-protected (WPA-PSK)?";

pub const ASK_WIFI_PASSWORD: &'static str = "Wi-Fi passphrase";

pub const ASK_YAY: &'static str = "Install yay AUR helper? (built from source)";

pub const ASK_ZEN: &'static str = "Install Zen Browser? (AUR: zen-browser-bin)";

pub const ASK_BTRFS_TOOLS: &'static str = "Install btrfs snapshot tools (snapper, btrfs-assistant) via yay?";

pub const ASK_GRUB_BTRFS: &'static str = "Install grub-btrfs? (bootable snapshot menu entries + snapper root config)";

pub const ASK_SYSCTL_GAMING: &'static str = "Apply gaming sysctl performance tweaks? (vm.max_map_count, swappiness, etc.)";

pub const ASK_SYSCTL_NETWORK: &'static str = "Apply network performance sysctl tweaks? (BBR + fq, larger socket buffers, ECN, etc.)";

pub const ASK_HHD: &'static str = "Install Handheld Daemon (HHD)? (gamepad remapping, TDP, profiles \u{2014} for handhelds)";

pub const ASK_STEAM_PREFETCH: &'static str = "Download the Steam client now? (a few hundred MB; otherwise the target downloads it on first boot before Game Mode works)";

pub const ASK_DECKY: &'static str = "Install Decky Loader? (Steam plugin framework \u{2014} decky-loader-bin via AUR)";

pub const ASK_EVDEVHOOK2: &'static str = "Install evdevhook2? (Cemuhook UDP motion server for DualShock/DualSense/Joy-Cons)";

pub const NOTE_BANNER: &'static str =
    "\n\u{1f680} Deploytix Configuration Wizard\n";

pub const NOTE_PARTITIONS: &'static str =
    "\n\u{1f4e6} Partition Configuration";

pub const NOTE_AUTOMATIC: &'static str =
    "  EFI (512 MiB) and Boot (2 GiB) are added automatically.";

pub const NOTE_SWAP_PARTITION: &'static str =
    "  Swap partition is added when Swap Type is set to Partition.";

pub const NOTE_REMAINDER: &'static str =
    "  Set size_mib=0 for one partition to use remaining space.\n";

pub const NOTE_ABSOLUTE: &'static str =
    "  Mount point must start with '/'";

pub const NOTE_RESERVED: &'static str =
    "  /boot and /boot/efi are reserved for system partitions";

pub const NOTE_DUPLICATE: &'static str =
    "  Duplicate mount point";

pub const NOTE_ONE_REMAINDER: &'static str =
    "  Only one partition may use remaining space (size_mib=0)";

pub const NOTE_ROOT_REST: &'static str =
    "  Warning: No root (/) partition defined. Adding one with remaining space.";

pub const NOTE_ROOT_SIZED: &'static str =
    "  Warning: No root (/) partition defined. Adding one with 20 GiB space.";

pub const NOTE_USER: &'static str =
    "\n\u{1f464} User Configuration\n";

pub const NOTE_NO_HIBERNATION: &'static str =
    "  Hibernation: unavailable with ZRAM-only swap (nothing survives power-off)";

pub const NOTE_PACKAGES: &'static str =
    "\n\u{1f4e6} Optional Package Collections\n";

pub const NOTE_NETWORK: &'static str =
    "  Note: Game Mode session switching requires NetworkManager. Switching network backend to NetworkManager + iwd.";

pub const NOTE_GREETD: &'static str =
    "  Note: Game Mode session switching is driven through greetd. Switching display manager to greetd.";

pub const NOTE_WIFI: &'static str =
    "  Note: Game Mode's first boot needs network access before Steam can show its own network-setup page. Pre-seed Wi-Fi here unless this machine will be on ethernet at first boot.";

pub const ASK_IMMUTABLE_BTRFS: &'static str =
    "Enable transactional immutable root? (read-only /usr + /, atomic paired snapshots, `deploytix update`)";

pub const ASK_IMMUTABLE_LVM: &'static str =
    "Enable transactional immutable root? (A/B dual-slot, dm-verity read-only /, `deploytix update`)";

pub const ASK_QUIRKS_BEFORE: &'static str =
    "Apply handheld controller quirks? (";

pub const ASK_QUIRKS_AFTER: &'static str =
    " detected \u{2014} stops the controllers disconnecting/reconnecting)";

pub const ASK_QUIRKS_UNKNOWN: &'static str =
    "Apply handheld controller quirks? (Lenovo Legion Go family \u{2014} stops the controllers disconnecting/reconnecting)";

/// The wizard.
#[derive(Debug, Clone)]
pub struct Wizard {
    pub stage: Stage,
    /// The configuration so far.
    pub config: DeploymentConfig,
    /// The partition that is being defined.
    pub mount_point: String,
    pub size_mib: u64,
    /// The disks to choose from.
    pub disks: Vec<DiskChoice>,
    /// The handheld that the host is.
    pub detected: Option<HandheldModel>,
}

// ------------------------------------------------------------------ the sequence
/// The stage that follows where `Zen` is the next to be considered.
#[verifier::opaque]
pub open spec fn from_zen_stage(c: DeploymentConfig) -> Stage {
    let k = c.packages;
    let d = c.disk;
    if k.install_yay {
        Stage::Zen
    } else {
        from_btrfs_tools_stage(c)
    }
}

fn from_zen(c: &DeploymentConfig) -> (r: Stage)
    ensures
        r == from_zen_stage(*c),
{
    reveal(from_zen_stage);
    let k = &c.packages;
    let d = &c.disk;
    if k.install_yay {
        Stage::Zen
    } else {
        from_btrfs_tools(c)
    }
}

/// The stage that follows where `BtrfsTools` is the next to be considered.
#[verifier::opaque]
pub open spec fn from_btrfs_tools_stage(c: DeploymentConfig) -> Stage {
    let k = c.packages;
    let d = c.disk;
    if k.install_yay && d.filesystem == Filesystem::Btrfs {
        Stage::BtrfsTools
    } else {
        from_grub_btrfs_stage(c)
    }
}

fn from_btrfs_tools(c: &DeploymentConfig) -> (r: Stage)
    ensures
        r == from_btrfs_tools_stage(*c),
{
    reveal(from_btrfs_tools_stage);
    let k = &c.packages;
    let d = &c.disk;
    if k.install_yay && d.filesystem == Filesystem::Btrfs {
        Stage::BtrfsTools
    } else {
        from_grub_btrfs(c)
    }
}

/// The stage that follows where `GrubBtrfs` is the next to be considered.
#[verifier::opaque]
pub open spec fn from_grub_btrfs_stage(c: DeploymentConfig) -> Stage {
    let k = c.packages;
    let d = c.disk;
    if d.filesystem == Filesystem::Btrfs && d.use_subvolumes && !d.use_lvm_thin {
        Stage::GrubBtrfs
    } else {
        from_immutable_stage(c)
    }
}

fn from_grub_btrfs(c: &DeploymentConfig) -> (r: Stage)
    ensures
        r == from_grub_btrfs_stage(*c),
{
    reveal(from_grub_btrfs_stage);
    let k = &c.packages;
    let d = &c.disk;
    if d.filesystem == Filesystem::Btrfs && d.use_subvolumes && !d.use_lvm_thin {
        Stage::GrubBtrfs
    } else {
        from_immutable(c)
    }
}

/// The stage that follows where `Immutable` is the next to be considered.
#[verifier::opaque]
pub open spec fn from_immutable_stage(c: DeploymentConfig) -> Stage {
    let k = c.packages;
    let d = c.disk;
    if k.install_grub_btrfs || d.use_lvm_thin {
        Stage::Immutable
    } else {
        Stage::SysctlGaming
    }
}

fn from_immutable(c: &DeploymentConfig) -> (r: Stage)
    ensures
        r == from_immutable_stage(*c),
{
    reveal(from_immutable_stage);
    let k = &c.packages;
    let d = &c.disk;
    if k.install_grub_btrfs || d.use_lvm_thin {
        Stage::Immutable
    } else {
        Stage::SysctlGaming
    }
}

/// The stage that follows where `Hhd` is the next to be considered.
#[verifier::opaque]
pub open spec fn from_hhd_stage(c: DeploymentConfig) -> Stage {
    let k = c.packages;
    let d = c.disk;
    if k.install_yay {
        Stage::Hhd
    } else {
        from_steam_stage(c)
    }
}

fn from_hhd(c: &DeploymentConfig) -> (r: Stage)
    ensures
        r == from_hhd_stage(*c),
{
    reveal(from_hhd_stage);
    let k = &c.packages;
    let d = &c.disk;
    if k.install_yay {
        Stage::Hhd
    } else {
        from_steam(c)
    }
}

/// The stage that follows where `SteamPrefetch` is the next to be considered.
#[verifier::opaque]
pub open spec fn from_steam_stage(c: DeploymentConfig) -> Stage {
    let k = c.packages;
    let d = c.disk;
    if k.install_gaming {
        Stage::SteamPrefetch
    } else {
        from_decky_stage(c)
    }
}

fn from_steam(c: &DeploymentConfig) -> (r: Stage)
    ensures
        r == from_steam_stage(*c),
{
    reveal(from_steam_stage);
    let k = &c.packages;
    let d = &c.disk;
    if k.install_gaming {
        Stage::SteamPrefetch
    } else {
        from_decky(c)
    }
}

/// The stage that follows where `Decky` is the next to be considered.
#[verifier::opaque]
pub open spec fn from_decky_stage(c: DeploymentConfig) -> Stage {
    let k = c.packages;
    let d = c.disk;
    if k.install_gaming && k.install_yay {
        Stage::Decky
    } else {
        from_evdevhook2_stage(c)
    }
}

fn from_decky(c: &DeploymentConfig) -> (r: Stage)
    ensures
        r == from_decky_stage(*c),
{
    reveal(from_decky_stage);
    let k = &c.packages;
    let d = &c.disk;
    if k.install_gaming && k.install_yay {
        Stage::Decky
    } else {
        from_evdevhook2(c)
    }
}

/// The stage that follows where `Evdevhook2` is the next to be considered.
#[verifier::opaque]
pub open spec fn from_evdevhook2_stage(c: DeploymentConfig) -> Stage {
    let k = c.packages;
    let d = c.disk;
    if k.install_yay {
        Stage::Evdevhook2
    } else {
        Stage::Quirks
    }
}

fn from_evdevhook2(c: &DeploymentConfig) -> (r: Stage)
    ensures
        r == from_evdevhook2_stage(*c),
{
    reveal(from_evdevhook2_stage);
    let k = &c.packages;
    let d = &c.disk;
    if k.install_yay {
        Stage::Evdevhook2
    } else {
        Stage::Quirks
    }
}

/// The choices of a `Filesystem`, in the order in which they are offered.
pub open spec fn filesystem_choices() -> Seq<Filesystem> {
    seq![Filesystem::Btrfs, Filesystem::Ext4, Filesystem::Xfs, Filesystem::Zfs, Filesystem::F2fs]
}

/// The options that stand for them.
pub open spec fn filesystem_options() -> Seq<Text> {
    seq![
        Filesystem::Btrfs.shown(),
        Filesystem::Ext4.shown(),
        Filesystem::Xfs.shown(),
        Filesystem::Zfs.shown(),
        Filesystem::F2fs.shown(),
    ]
}

fn pick_filesystem(i: usize) -> (r: Filesystem)
    requires
        i < 5,
    ensures
        r == filesystem_choices()[i as int],
{
    match i {
        0 => Filesystem::Btrfs,
        1 => Filesystem::Ext4,
        2 => Filesystem::Xfs,
        3 => Filesystem::Zfs,
        _ => Filesystem::F2fs,
    }
}

fn list_filesystem() -> (r: Vec<String>)
    ensures
        r.deep_view() == filesystem_options(),
{
    let mut v: Vec<String> = Vec::new();
    push_text(&mut v, Filesystem::Btrfs.to_text().as_str());
    push_text(&mut v, Filesystem::Ext4.to_text().as_str());
    push_text(&mut v, Filesystem::Xfs.to_text().as_str());
    push_text(&mut v, Filesystem::Zfs.to_text().as_str());
    push_text(&mut v, Filesystem::F2fs.to_text().as_str());
    assert(v.deep_view() =~= filesystem_options());
    v
}

/// The choices of a `InitSystem`, in the order in which they are offered.
pub open spec fn init_system_choices() -> Seq<InitSystem> {
    seq![InitSystem::Runit, InitSystem::OpenRC, InitSystem::S6, InitSystem::Dinit]
}

/// The options that stand for them.
pub open spec fn init_system_options() -> Seq<Text> {
    seq![
        InitSystem::Runit.shown(),
        InitSystem::OpenRC.shown(),
        InitSystem::S6.shown(),
        InitSystem::Dinit.shown(),
    ]
}

fn pick_init_system(i: usize) -> (r: InitSystem)
    requires
        i < 4,
    ensures
        r == init_system_choices()[i as int],
{
    match i {
        0 => InitSystem::Runit,
        1 => InitSystem::OpenRC,
        2 => InitSystem::S6,
        _ => InitSystem::Dinit,
    }
}

fn list_init_system() -> (r: Vec<String>)
    ensures
        r.deep_view() == init_system_options(),
{
    let mut v: Vec<String> = Vec::new();
    push_text(&mut v, InitSystem::Runit.to_text().as_str());
    push_text(&mut v, InitSystem::OpenRC.to_text().as_str());
    push_text(&mut v, InitSystem::S6.to_text().as_str());
    push_text(&mut v, InitSystem::Dinit.to_text().as_str());
    assert(v.deep_view() =~= init_system_options());
    v
}

/// The choices of a `NetworkBackend`, in the order in which they are offered.
pub open spec fn network_backend_choices() -> Seq<NetworkBackend> {
    seq![NetworkBackend::Iwd, NetworkBackend::NetworkManager, NetworkBackend::NetworkManagerWpa]
}

/// The options that stand for them.
pub open spec fn network_backend_options() -> Seq<Text> {
    seq![
        NetworkBackend::Iwd.shown(),
        NetworkBackend::NetworkManager.shown(),
        NetworkBackend::NetworkManagerWpa.shown(),
    ]
}

fn pick_network_backend(i: usize) -> (r: NetworkBackend)
    requires
        i < 3,
    ensures
        r == network_backend_choices()[i as int],
{
    match i {
        0 => NetworkBackend::Iwd,
        1 => NetworkBackend::NetworkManager,
        _ => NetworkBackend::NetworkManagerWpa,
    }
}

fn list_network_backend() -> (r: Vec<String>)
    ensures
        r.deep_view() == network_backend_options(),
{
    let mut v: Vec<String> = Vec::new();
    push_text(&mut v, NetworkBackend::Iwd.to_text().as_str());
    push_text(&mut v, NetworkBackend::NetworkManager.to_text().as_str());
    push_text(&mut v, NetworkBackend::NetworkManagerWpa.to_text().as_str());
    assert(v.deep_view() =~= network_backend_options());
    v
}

/// The choices of a `IwdFrontend`, in the order in which they are offered.
pub open spec fn iwd_frontend_choices() -> Seq<IwdFrontend> {
    seq![IwdFrontend::Iwgtk, IwdFrontend::Iwdgui, IwdFrontend::Iwqt]
}

/// The options that stand for them.
pub open spec fn iwd_frontend_options() -> Seq<Text> {
    seq![
        IwdFrontend::Iwgtk.shown(),
        IwdFrontend::Iwdgui.shown(),
        IwdFrontend::Iwqt.shown(),
    ]
}

fn pick_iwd_frontend(i: usize) -> (r: IwdFrontend)
    requires
        i < 3,
    ensures
        r == iwd_frontend_choices()[i as int],
{
    match i {
        0 => IwdFrontend::Iwgtk,
        1 => IwdFrontend::Iwdgui,
        _ => IwdFrontend::Iwqt,
    }
}

fn list_iwd_frontend() -> (r: Vec<String>)
    ensures
        r.deep_view() == iwd_frontend_options(),
{
    let mut v: Vec<String> = Vec::new();
    push_text(&mut v, IwdFrontend::Iwgtk.to_text().as_str());
    push_text(&mut v, IwdFrontend::Iwdgui.to_text().as_str());
    push_text(&mut v, IwdFrontend::Iwqt.to_text().as_str());
    assert(v.deep_view() =~= iwd_frontend_options());
    v
}

/// The choices of a `DesktopEnvironment`, in the order in which they are offered.
pub open spec fn desktop_environment_choices() -> Seq<DesktopEnvironment> {
    seq![
        DesktopEnvironment::Headless,
        DesktopEnvironment::Kde,
        DesktopEnvironment::Gnome,
        DesktopEnvironment::Xfce,
    ]
}

/// The options that stand for them.
pub open spec fn desktop_environment_options() -> Seq<Text> {
    seq![
        DesktopEnvironment::Headless.shown(),
        DesktopEnvironment::Kde.shown(),
        DesktopEnvironment::Gnome.shown(),
        DesktopEnvironment::Xfce.shown(),
    ]
}

fn pick_desktop_environment(i: usize) -> (r: DesktopEnvironment)
    requires
        i < 4,
    ensures
        r == desktop_environment_choices()[i as int],
{
    match i {
        0 => DesktopEnvironment::Headless,
        1 => DesktopEnvironment::Kde,
        2 => DesktopEnvironment::Gnome,
        _ => DesktopEnvironment::Xfce,
    }
}

fn list_desktop_environment() -> (r: Vec<String>)
    ensures
        r.deep_view() == desktop_environment_options(),
{
    let mut v: Vec<String> = Vec::new();
    push_text(&mut v, DesktopEnvironment::Headless.to_text().as_str());
    push_text(&mut v, DesktopEnvironment::Kde.to_text().as_str());
    push_text(&mut v, DesktopEnvironment::Gnome.to_text().as_str());
    push_text(&mut v, DesktopEnvironment::Xfce.to_text().as_str());
    assert(v.deep_view() =~= desktop_environment_options());
    v
}

/// The choices of a `DisplayManager`, in the order in which they are offered.
pub open spec fn display_manager_choices() -> Seq<DisplayManager> {
    seq![
        DisplayManager::Greetd,
        DisplayManager::Sddm,
        DisplayManager::Gdm,
        DisplayManager::Lightdm,
        DisplayManager::Tty,
    ]
}

/// The options that stand for them.
pub open spec fn display_manager_options() -> Seq<Text> {
    seq![
        DisplayManager::Greetd.shown(),
        DisplayManager::Sddm.shown(),
        DisplayManager::Gdm.shown(),
        DisplayManager::Lightdm.shown(),
        DisplayManager::Tty.shown(),
    ]
}

fn pick_display_manager(i: usize) -> (r: DisplayManager)
    requires
        i < 5,
    ensures
        r == display_manager_choices()[i as int],
{
    match i {
        0 => DisplayManager::Greetd,
        1 => DisplayManager::Sddm,
        2 => DisplayManager::Gdm,
        3 => DisplayManager::Lightdm,
        _ => DisplayManager::Tty,
    }
}

fn list_display_manager() -> (r: Vec<String>)
    ensures
        r.deep_view() == display_manager_options(),
{
    let mut v: Vec<String> = Vec::new();
    push_text(&mut v, DisplayManager::Greetd.to_text().as_str());
    push_text(&mut v, DisplayManager::Sddm.to_text().as_str());
    push_text(&mut v, DisplayManager::Gdm.to_text().as_str());
    push_text(&mut v, DisplayManager::Lightdm.to_text().as_str());
    push_text(&mut v, DisplayManager::Tty.to_text().as_str());
    assert(v.deep_view() =~= display_manager_options());
    v
}

/// The choices of a `SwapType`, in the order in which they are offered.
pub open spec fn swap_type_choices() -> Seq<SwapType> {
    seq![SwapType::Partition, SwapType::FileZram, SwapType::ZramOnly]
}

/// The options that stand for them.
pub open spec fn swap_type_options() -> Seq<Text> {
    seq![
        SwapType::Partition.shown(),
        SwapType::FileZram.shown(),
        SwapType::ZramOnly.shown(),
    ]
}

fn pick_swap_type(i: usize) -> (r: SwapType)
    requires
        i < 3,
    ensures
        r == swap_type_choices()[i as int],
{
    match i {
        0 => SwapType::Partition,
        1 => SwapType::FileZram,
        _ => SwapType::ZramOnly,
    }
}

fn list_swap_type() -> (r: Vec<String>)
    ensures
        r.deep_view() == swap_type_options(),
{
    let mut v: Vec<String> = Vec::new();
    push_text(&mut v, SwapType::Partition.to_text().as_str());
    push_text(&mut v, SwapType::FileZram.to_text().as_str());
    push_text(&mut v, SwapType::ZramOnly.to_text().as_str());
    assert(v.deep_view() =~= swap_type_options());
    v
}

/// The choices of a `SecureBootMethod`, in the order in which they are offered.
pub open spec fn secure_boot_method_choices() -> Seq<SecureBootMethod> {
    seq![SecureBootMethod::Sbctl, SecureBootMethod::ManualKeys, SecureBootMethod::Shim]
}

/// The options that stand for them.
pub open spec fn secure_boot_method_options() -> Seq<Text> {
    seq![
        SecureBootMethod::Sbctl.shown(),
        SecureBootMethod::ManualKeys.shown(),
        SecureBootMethod::Shim.shown(),
    ]
}

fn pick_secure_boot_method(i: usize) -> (r: SecureBootMethod)
    requires
        i < 3,
    ensures
        r == secure_boot_method_choices()[i as int],
{
    match i {
        0 => SecureBootMethod::Sbctl,
        1 => SecureBootMethod::ManualKeys,
        _ => SecureBootMethod::Shim,
    }
}

fn list_secure_boot_method() -> (r: Vec<String>)
    ensures
        r.deep_view() == secure_boot_method_options(),
{
    let mut v: Vec<String> = Vec::new();
    push_text(&mut v, SecureBootMethod::Sbctl.to_text().as_str());
    push_text(&mut v, SecureBootMethod::ManualKeys.to_text().as_str());
    push_text(&mut v, SecureBootMethod::Shim.to_text().as_str());
    assert(v.deep_view() =~= secure_boot_method_options());
    v
}

/// The choices of a `TkgScheduler`, in the order in which they are offered.
pub open spec fn tkg_scheduler_choices() -> Seq<TkgScheduler> {
    seq![
        TkgScheduler::Bmq,
        TkgScheduler::Bore,
        TkgScheduler::Eevdf,
        TkgScheduler::Muqss,
        TkgScheduler::Pds,
    ]
}

/// The options that stand for them.
pub open spec fn tkg_scheduler_options() -> Seq<Text> {
    seq![
        TkgScheduler::Bmq.token() + "-llvm"@,
        TkgScheduler::Bore.token() + "-llvm"@,
        TkgScheduler::Eevdf.token() + "-llvm"@,
        TkgScheduler::Muqss.token() + "-llvm"@,
        TkgScheduler::Pds.token() + "-llvm"@,
    ]
}

fn pick_tkg_scheduler(i: usize) -> (r: TkgScheduler)
    requires
        i < 5,
    ensures
        r == tkg_scheduler_choices()[i as int],
{
    match i {
        0 => TkgScheduler::Bmq,
        1 => TkgScheduler::Bore,
        2 => TkgScheduler::Eevdf,
        3 => TkgScheduler::Muqss,
        _ => TkgScheduler::Pds,
    }
}

fn list_tkg_scheduler() -> (r: Vec<String>)
    ensures
        r.deep_view() == tkg_scheduler_options(),
{
    let mut v: Vec<String> = Vec::new();
    push_text(&mut v, TkgScheduler::Bmq.to_text().as_str());
    push_text(&mut v, TkgScheduler::Bore.to_text().as_str());
    push_text(&mut v, TkgScheduler::Eevdf.to_text().as_str());
    push_text(&mut v, TkgScheduler::Muqss.to_text().as_str());
    push_text(&mut v, TkgScheduler::Pds.to_text().as_str());
    assert(v.deep_view() =~= tkg_scheduler_options());
    v
}

/// The choices of a `GpuDriverVendor`, in the order in which they are offered.
pub open spec fn gpu_driver_vendor_choices() -> Seq<GpuDriverVendor> {
    seq![GpuDriverVendor::Nvidia, GpuDriverVendor::Amd, GpuDriverVendor::Intel]
}

/// The options that stand for them.
pub open spec fn gpu_driver_vendor_options() -> Seq<Text> {
    seq![
        GpuDriverVendor::Nvidia.shown(),
        GpuDriverVendor::Amd.shown(),
        GpuDriverVendor::Intel.shown(),
    ]
}

fn pick_gpu_driver_vendor(i: usize) -> (r: GpuDriverVendor)
    requires
        i < 3,
    ensures
        r == gpu_driver_vendor_choices()[i as int],
{
    match i {
        0 => GpuDriverVendor::Nvidia,
        1 => GpuDriverVendor::Amd,
        _ => GpuDriverVendor::Intel,
    }
}

fn list_gpu_driver_vendor() -> (r: Vec<String>)
    ensures
        r.deep_view() == gpu_driver_vendor_options(),
{
    let mut v: Vec<String> = Vec::new();
    push_text(&mut v, GpuDriverVendor::Nvidia.to_text().as_str());
    push_text(&mut v, GpuDriverVendor::Amd.to_text().as_str());
    push_text(&mut v, GpuDriverVendor::Intel.to_text().as_str());
    assert(v.deep_view() =~= gpu_driver_vendor_options());
    v
}

// -------------------------------------------------------------------- partitions
/// A partition of the list has the mount point.
pub open spec fn taken(p: Seq<CustomPartitionEntry>, m: Text) -> bool {
    exists|i: int| 0 <= i < p.len() && #[trigger] p[i].mount_point@ == m
}

/// A partition of the list takes what is left of the disk.
pub open spec fn rest_taken(p: Seq<CustomPartitionEntry>) -> bool {
    exists|i: int| 0 <= i < p.len() && #[trigger] p[i].size_mib == 0
}

fn is_taken(p: &Vec<CustomPartitionEntry>, m: &str) -> (r: bool)
    ensures
        r == taken(p@, m@),
{
    let mut i: usize = 0;
    while i < p.len()
        invariant
            i <= p@.len(),
            forall|j: int| 0 <= j < i ==> #[trigger] p@[j].mount_point@ != m@,
        decreases p.len() - i,
    {
        if same(p[i].mount_point.as_str(), m) {
            return true;
        }
        i += 1;
    }
    false
}

fn is_rest_taken(p: &Vec<CustomPartitionEntry>) -> (r: bool)
    ensures
        r == rest_taken(p@),
{
    let mut i: usize = 0;
    while i < p.len()
        invariant
            i <= p@.len(),
            forall|j: int| 0 <= j < i ==> #[trigger] p@[j].size_mib != 0,
        decreases p.len() - i,
    {
        if p[i].size_mib == 0 {
            return true;
        }
        i += 1;
    }
    false
}

/// Why a mount point is not accepted.
pub open spec fn mount_objection(p: Seq<CustomPartitionEntry>, m: Text) -> Option<Text> {
    if !text::begins(m, "/"@) {
        Some(NOTE_ABSOLUTE@)
    } else if m == "/boot"@ || m == "/boot/efi"@ {
        Some(NOTE_RESERVED@)
    } else if taken(p, m) {
        Some(NOTE_DUPLICATE@)
    } else {
        None
    }
}

fn object_to_mount(p: &Vec<CustomPartitionEntry>, m: &str) -> (r: Option<&'static str>)
    ensures
        r is Some <==> mount_objection(p@, m@) is Some,
        r matches Some(t) ==> mount_objection(p@, m@) == Some(t@),
{
    if !starts_with(m, "/") {
        Some(NOTE_ABSOLUTE)
    } else if same(m, "/boot") || same(m, "/boot/efi") {
        Some(NOTE_RESERVED)
    } else if is_taken(p, m) {
        Some(NOTE_DUPLICATE)
    } else {
        None
    }
}

/// The size that an answer gives; what is no number counts as 0.
pub open spec fn entered_size(t: Text) -> int {
    match text::parsed(t, u64::MAX as int) {
        Some(n) => n,
        None => 0,
    }
}

fn size_entry(t: &str) -> (r: u64)
    ensures
        r == entered_size(t@),
{
    match parse(t, u64::MAX) {
        Some(n) => n,
        None => 0,
    }
}

/// The list with a root in front, where it has none: of 20 GiB where another
/// partition takes what is left, else with what is left.
pub open spec fn rooted(old: Seq<CustomPartitionEntry>, new: Seq<CustomPartitionEntry>) -> bool {
    if taken(old, "/"@) {
        new == old
    } else {
        &&& new.len() == old.len() + 1
        &&& new[0].plain(
            "/"@,
            if rest_taken(old) {
                20480
            } else {
                0
            },
        )
        &&& new.skip(1) == old
    }
}

impl Wizard {
    /// The question of the stage.
    pub open spec fn asks(self) -> Ask {
        let k = self.config.packages;
        match self.stage {
            Stage::Disk => Ask::Select {
                prompt: ASK_DISK@,
                options: Seq::new(self.disks@.len(), |i: int| self.disks@[i].shown()),
                default: 0,
            },
            Stage::MountPoint => Ask::Input { prompt: ASK_MOUNT_POINT@, default: None },
            Stage::Size => Ask::Input { prompt: ASK_SIZE@, default: Some("0"@) },
            Stage::Label => Ask::Input {
                prompt: "Partition label ["@ + model::derived_label(self.mount_point@) + "]"@,
                default: Some(model::derived_label(self.mount_point@)),
            },
            Stage::More => Ask::Confirm { prompt: ASK_MORE@, default: true },
            Stage::DataFilesystem => Ask::Select {
                prompt: ASK_DATA_FILESYSTEM@,
                options: filesystem_options(),
                default: 0,
            },
            Stage::Encryption => Ask::Confirm { prompt: ASK_ENCRYPTION@, default: false },
            Stage::Integrity => Ask::Confirm { prompt: ASK_INTEGRITY@, default: false },
            Stage::BootEncryption => Ask::Confirm { prompt: ASK_BOOT_ENCRYPTION@, default: true },
            Stage::EncryptionPassword => Ask::Password { prompt: ASK_ENCRYPTION_PASSWORD@ },
            Stage::Init => Ask::Select {
                prompt: ASK_INIT@,
                options: init_system_options(),
                default: 0,
            },
            Stage::Timezone => Ask::Input { prompt: ASK_TIMEZONE@, default: Some("UTC"@) },
            Stage::Locale => Ask::Input { prompt: ASK_LOCALE@, default: Some("en_US.UTF-8"@) },
            Stage::Keymap => Ask::Input { prompt: ASK_KEYMAP@, default: Some("us"@) },
            Stage::Hostname => Ask::Input { prompt: ASK_HOSTNAME@, default: Some("artix"@) },
            Stage::Username => Ask::Input { prompt: ASK_USERNAME@, default: None },
            Stage::Password => Ask::Password { prompt: ASK_PASSWORD@ },
            Stage::Network => Ask::Select {
                prompt: ASK_NETWORK@,
                options: network_backend_options(),
                default: 0,
            },
            Stage::IwdFrontend => Ask::Select {
                prompt: ASK_IWD_FRONTEND@,
                options: iwd_frontend_options(),
                default: 0,
            },
            Stage::Desktop => Ask::Select {
                prompt: ASK_DESKTOP@,
                options: desktop_environment_options(),
                default: 0,
            },
            Stage::DisplayManager => Ask::Select {
                prompt: ASK_DISPLAY_MANAGER@,
                options: display_manager_options(),
                default: 0,
            },
            Stage::Swap => Ask::Select {
                prompt: ASK_SWAP@,
                options: swap_type_options(),
                default: 0,
            },
            Stage::Hibernation => Ask::Confirm { prompt: ASK_HIBERNATION@, default: false },
            Stage::LvmThin => Ask::Confirm { prompt: ASK_LVM_THIN@, default: false },
            Stage::SecureBoot => Ask::Confirm { prompt: ASK_SECURE_BOOT@, default: false },
            Stage::SecureBootKeys => Ask::Select {
                prompt: ASK_SECURE_BOOT_KEYS@,
                options: secure_boot_method_options(),
                default: 0,
            },
            Stage::Gpu => Ask::MultiSelect {
                prompt: ASK_GPU@,
                options: gpu_driver_vendor_options(),
            },
            Stage::Wine => Ask::Confirm { prompt: ASK_WINE@, default: false },
            Stage::Warp => Ask::Confirm { prompt: ASK_WARP@, default: false },
            Stage::Tkg => Ask::Confirm { prompt: ASK_TKG@, default: false },
            Stage::Scheduler => Ask::Select {
                prompt: ASK_SCHEDULER@,
                options: tkg_scheduler_options(),
                default: 1,
            },
            Stage::Gaming => Ask::Confirm { prompt: ASK_GAMING@, default: false },
            Stage::SessionSwitching => Ask::Confirm {
                prompt: ASK_SESSION_SWITCHING@,
                default: true,
            },
            Stage::Wifi => Ask::Confirm { prompt: ASK_WIFI@, default: k.install_session_switching },
            Stage::Ssid => Ask::Input { prompt: ASK_SSID@, default: None },
            Stage::WifiProtected => Ask::Confirm { prompt: ASK_WIFI_PROTECTED@, default: true },
            Stage::WifiPassword => Ask::Password { prompt: ASK_WIFI_PASSWORD@ },
            Stage::Yay => Ask::Confirm { prompt: ASK_YAY@, default: false },
            Stage::Zen => Ask::Confirm { prompt: ASK_ZEN@, default: false },
            Stage::BtrfsTools => Ask::Confirm { prompt: ASK_BTRFS_TOOLS@, default: false },
            Stage::GrubBtrfs => Ask::Confirm { prompt: ASK_GRUB_BTRFS@, default: false },
            Stage::Immutable => Ask::Confirm {
                prompt: if k.install_grub_btrfs {
                    ASK_IMMUTABLE_BTRFS@
                } else {
                    ASK_IMMUTABLE_LVM@
                },
                default: false,
            },
            Stage::SysctlGaming => Ask::Confirm { prompt: ASK_SYSCTL_GAMING@, default: false },
            Stage::SysctlNetwork => Ask::Confirm { prompt: ASK_SYSCTL_NETWORK@, default: false },
            Stage::Hhd => Ask::Confirm { prompt: ASK_HHD@, default: false },
            Stage::SteamPrefetch => Ask::Confirm {
                prompt: ASK_STEAM_PREFETCH@,
                default: k.install_session_switching,
            },
            Stage::Decky => Ask::Confirm { prompt: ASK_DECKY@, default: false },
            Stage::Evdevhook2 => Ask::Confirm { prompt: ASK_EVDEVHOOK2@, default: false },
            Stage::Quirks => Ask::Confirm {
                prompt: match self.detected {
                    Some(m) => ASK_QUIRKS_BEFORE@ + m.name() + ASK_QUIRKS_AFTER@,
                    None => ASK_QUIRKS_UNKNOWN@,
                },
                default: self.detected is Some,
            },
            Stage::Done => Ask::Nothing,
        }
    }

    /// What to ask next.
    pub fn question(&self) -> (r: Question)
        ensures
            r@ == self.asks(),
    {
        match self.stage {
            Stage::Disk => {
                let mut options: Vec<String> = Vec::new();
                let mut i: usize = 0;
                while i < self.disks.len()
                    invariant
                        i <= self.disks@.len(),
                        options.deep_view() == Seq::new(
                            i as nat,
                            |j: int| self.disks@[j].shown(),
                        ),
                    decreases self.disks.len() - i,
                {
                    push_text(&mut options, self.disks[i].to_text().as_str());
                    assert(options.deep_view() =~= Seq::new(
                        (i + 1) as nat,
                        |j: int| self.disks@[j].shown(),
                    ));
                    i += 1;
                }
                select(ASK_DISK, options, 0)
            },
            Stage::MountPoint => input(ASK_MOUNT_POINT, None),
            Stage::Size => input(ASK_SIZE, Some("0")),
            Stage::Label => {
                let label = label_for(self.mount_point.as_str());
                let prompt = concat3("Partition label [", label.as_str(), "]");
                input(prompt.as_str(), Some(label.as_str()))
            },
            Stage::More => confirm(ASK_MORE, true),
            Stage::DataFilesystem => select(ASK_DATA_FILESYSTEM, list_filesystem(), 0),
            Stage::Encryption => confirm(ASK_ENCRYPTION, false),
            Stage::Integrity => confirm(ASK_INTEGRITY, false),
            Stage::BootEncryption => confirm(ASK_BOOT_ENCRYPTION, true),
            Stage::EncryptionPassword => Question::Password { prompt: ASK_ENCRYPTION_PASSWORD.to_owned() },
            Stage::Init => select(ASK_INIT, list_init_system(), 0),
            Stage::Timezone => input(ASK_TIMEZONE, Some("UTC")),
            Stage::Locale => input(ASK_LOCALE, Some("en_US.UTF-8")),
            Stage::Keymap => input(ASK_KEYMAP, Some("us")),
            Stage::Hostname => input(ASK_HOSTNAME, Some("artix")),
            Stage::Username => input(ASK_USERNAME, None),
            Stage::Password => Question::Password { prompt: ASK_PASSWORD.to_owned() },
            Stage::Network => select(ASK_NETWORK, list_network_backend(), 0),
            Stage::IwdFrontend => select(ASK_IWD_FRONTEND, list_iwd_frontend(), 0),
            Stage::Desktop => select(ASK_DESKTOP, list_desktop_environment(), 0),
            Stage::DisplayManager => select(ASK_DISPLAY_MANAGER, list_display_manager(), 0),
            Stage::Swap => select(ASK_SWAP, list_swap_type(), 0),
            Stage::Hibernation => confirm(ASK_HIBERNATION, false),
            Stage::LvmThin => confirm(ASK_LVM_THIN, false),
            Stage::SecureBoot => confirm(ASK_SECURE_BOOT, false),
            Stage::SecureBootKeys => select(ASK_SECURE_BOOT_KEYS, list_secure_boot_method(), 0),
            Stage::Gpu => Question::MultiSelect {
                prompt: ASK_GPU.to_owned(),
                options: list_gpu_driver_vendor(),
            },
            Stage::Wine => confirm(ASK_WINE, false),
            Stage::Warp => confirm(ASK_WARP, false),
            Stage::Tkg => confirm(ASK_TKG, false),
            Stage::Scheduler => select(ASK_SCHEDULER, list_tkg_scheduler(), 1),
            Stage::Gaming => confirm(ASK_GAMING, false),
            Stage::SessionSwitching => confirm(ASK_SESSION_SWITCHING, true),
            Stage::Wifi => confirm(ASK_WIFI, self.config.packages.install_session_switching),
            Stage::Ssid => input(ASK_SSID, None),
            Stage::WifiProtected => confirm(ASK_WIFI_PROTECTED, true),
            Stage::WifiPassword => Question::Password { prompt: ASK_WIFI_PASSWORD.to_owned() },
            Stage::Yay => confirm(ASK_YAY, false),
            Stage::Zen => confirm(ASK_ZEN, false),
            Stage::BtrfsTools => confirm(ASK_BTRFS_TOOLS, false),
            Stage::GrubBtrfs => confirm(ASK_GRUB_BTRFS, false),
            Stage::Immutable => if self.config.packages.install_grub_btrfs {
                confirm(ASK_IMMUTABLE_BTRFS, false)
            } else {
                confirm(ASK_IMMUTABLE_LVM, false)
            },
            Stage::SysctlGaming => confirm(ASK_SYSCTL_GAMING, false),
            Stage::SysctlNetwork => confirm(ASK_SYSCTL_NETWORK, false),
            Stage::Hhd => confirm(ASK_HHD, false),
            Stage::SteamPrefetch => confirm(ASK_STEAM_PREFETCH, self.config.packages.install_session_switching),
            Stage::Decky => confirm(ASK_DECKY, false),
            Stage::Evdevhook2 => confirm(ASK_EVDEVHOOK2, false),
            Stage::Quirks => match self.detected {
                Some(m) => {
                    let prompt = concat3(ASK_QUIRKS_BEFORE, m.as_str(), ASK_QUIRKS_AFTER);
                    confirm(prompt.as_str(), true)
                },
                None => confirm(ASK_QUIRKS_UNKNOWN, false),
            },
            Stage::Done => Question::Nothing,
        }
    }

    /// A choice is asked for, and there is an option with this index.
    #[verifier::opaque]
    pub open spec fn fits_choice(self, i: usize) -> bool {
        match self.stage {
            Stage::Disk => i < self.disks@.len(),
            Stage::DataFilesystem | Stage::DisplayManager | Stage::Scheduler => i < 5,
            Stage::Init | Stage::Desktop => i < 4,
            Stage::Network | Stage::IwdFrontend | Stage::Swap | Stage::SecureBootKeys => i < 3,
            _ => false,
        }
    }

    /// A yes or no is asked for.
    #[verifier::opaque]
    pub open spec fn fits_yes(self) -> bool {
        match self.stage {
            Stage::More | Stage::Encryption | Stage::Integrity | Stage::BootEncryption
            | Stage::Hibernation | Stage::LvmThin | Stage::SecureBoot | Stage::Wine
            | Stage::Warp | Stage::Tkg | Stage::Gaming | Stage::SessionSwitching | Stage::Wifi
            | Stage::WifiProtected | Stage::Yay | Stage::Zen | Stage::BtrfsTools
            | Stage::GrubBtrfs | Stage::Immutable | Stage::SysctlGaming | Stage::SysctlNetwork
            | Stage::Hhd | Stage::SteamPrefetch | Stage::Decky | Stage::Evdevhook2
            | Stage::Quirks => true,
            _ => false,
        }
    }

    /// A text is asked for.
    #[verifier::opaque]
    pub open spec fn fits_entry(self) -> bool {
        match self.stage {
            Stage::MountPoint | Stage::Size | Stage::Label | Stage::EncryptionPassword
            | Stage::Timezone | Stage::Locale | Stage::Keymap | Stage::Hostname
            | Stage::Username | Stage::Password | Stage::Ssid | Stage::WifiPassword => true,
            _ => false,
        }
    }

    /// The answer is of the kind that is asked for, and within the options.
    pub open spec fn fits(self, reply: Reply) -> bool {
        match reply {
            Reply::Choice(i) => self.fits_choice(i),
            Reply::Yes(b) => self.fits_yes(),
            Reply::Entry(t) => self.fits_entry(),
            Reply::Choices(v) => self.stage == Stage::Gpu && forall|j: int|
                0 <= j < v@.len() ==> (#[trigger] v@[j]) < 3,
        }
    }

    #[verifier::opaque]
    pub open spec fn after_data_filesystem(self, v: Filesystem) -> Wizard {
        let config = DeploymentConfig {
            disk: DiskConfig {
                filesystem: v,
                boot_filesystem: model::boot_filesystem_of(v),
                use_subvolumes: v == Filesystem::Btrfs,
                ..self.config.disk
            },
            ..self.config
        };
        Wizard {
            stage: Stage::Encryption,
            config,
            ..self
        }
    }

    fn take_data_filesystem(self, v: Filesystem) -> (r: Wizard)
        ensures
            r == self.after_data_filesystem(v),
    {
        reveal(Wizard::after_data_filesystem);
        let config = DeploymentConfig {
            disk: DiskConfig {
                filesystem: v,
                boot_filesystem: boot_filesystem_for(&v),
                use_subvolumes: v == Filesystem::Btrfs,
                ..self.config.disk
            },
            ..self.config
        };
        let stage = Stage::Encryption;
        Wizard { stage, config, ..self }
    }

    #[verifier::opaque]
    pub open spec fn after_encryption(self, b: bool) -> Wizard {
        let config = DeploymentConfig {
            disk: DiskConfig {
                encryption: b,
                keyfile_enabled: b,
                ..self.config.disk
            },
            ..self.config
        };
        Wizard {
            stage: if b {
                Stage::Integrity
            } else {
                Stage::Init
            },
            config,
            ..self
        }
    }

    fn take_encryption(self, b: bool) -> (r: Wizard)
        ensures
            r == self.after_encryption(b),
    {
        reveal(Wizard::after_encryption);
        let config = DeploymentConfig {
            disk: DiskConfig {
                encryption: b,
                keyfile_enabled: b,
                ..self.config.disk
            },
            ..self.config
        };
        let stage = if b {
            Stage::Integrity
        } else {
            Stage::Init
        };
        Wizard { stage, config, ..self }
    }

    #[verifier::opaque]
    pub open spec fn after_integrity(self, b: bool) -> Wizard {
        let config = DeploymentConfig {
            disk: DiskConfig {
                integrity: b,
                ..self.config.disk
            },
            ..self.config
        };
        Wizard {
            stage: Stage::BootEncryption,
            config,
            ..self
        }
    }

    fn take_integrity(self, b: bool) -> (r: Wizard)
        ensures
            r == self.after_integrity(b),
    {
        reveal(Wizard::after_integrity);
        let config = DeploymentConfig {
            disk: DiskConfig {
                integrity: b,
                ..self.config.disk
            },
            ..self.config
        };
        let stage = Stage::BootEncryption;
        Wizard { stage, config, ..self }
    }

    #[verifier::opaque]
    pub open spec fn after_boot_encryption(self, b: bool) -> Wizard {
        let config = DeploymentConfig {
            disk: DiskConfig {
                boot_encryption: b,
                ..self.config.disk
            },
            ..self.config
        };
        Wizard {
            stage: Stage::EncryptionPassword,
            config,
            ..self
        }
    }

    fn take_boot_encryption(self, b: bool) -> (r: Wizard)
        ensures
            r == self.after_boot_encryption(b),
    {
        reveal(Wizard::after_boot_encryption);
        let config = DeploymentConfig {
            disk: DiskConfig {
                boot_encryption: b,
                ..self.config.disk
            },
            ..self.config
        };
        let stage = Stage::EncryptionPassword;
        Wizard { stage, config, ..self }
    }

    #[verifier::opaque]
    pub open spec fn after_encryption_password(self, t: String) -> Wizard {
        let config = DeploymentConfig {
            disk: DiskConfig {
                encryption_password: Some(t),
                ..self.config.disk
            },
            ..self.config
        };
        Wizard {
            stage: Stage::Init,
            config,
            ..self
        }
    }

    fn take_encryption_password(self, t: String) -> (r: Wizard)
        ensures
            r == self.after_encryption_password(t),
    {
        reveal(Wizard::after_encryption_password);
        let config = DeploymentConfig {
            disk: DiskConfig {
                encryption_password: Some(t),
                ..self.config.disk
            },
            ..self.config
        };
        let stage = Stage::Init;
        Wizard { stage, config, ..self }
    }

    #[verifier::opaque]
    pub open spec fn after_init(self, v: InitSystem) -> Wizard {
        let config = DeploymentConfig {
            system: SystemConfig {
                init: v,
                ..self.config.system
            },
            ..self.config
        };
        Wizard {
            stage: Stage::Timezone,
            config,
            ..self
        }
    }

    fn take_init(self, v: InitSystem) -> (r: Wizard)
        ensures
            r == self.after_init(v),
    {
        reveal(Wizard::after_init);
        let config = DeploymentConfig {
            system: SystemConfig {
                init: v,
                ..self.config.system
            },
            ..self.config
        };
        let stage = Stage::Timezone;
        Wizard { stage, config, ..self }
    }

    #[verifier::opaque]
    pub open spec fn after_timezone(self, t: String) -> Wizard {
        let config = DeploymentConfig {
            system: SystemConfig {
                timezone: t,
                ..self.config.system
            },
            ..self.config
        };
        Wizard {
            stage: Stage::Locale,
            config,
            ..self
        }
    }

    fn take_timezone(self, t: String) -> (r: Wizard)
        ensures
            r == self.after_timezone(t),
    {
        reveal(Wizard::after_timezone);
        let config = DeploymentConfig {
            system: SystemConfig {
                timezone: t,
                ..self.config.system
            },
            ..self.config
        };
        let stage = Stage::Locale;
        Wizard { stage, config, ..self }
    }

    #[verifier::opaque]
    pub open spec fn after_locale(self, t: String) -> Wizard {
        let config = DeploymentConfig {
            system: SystemConfig {
                locale: t,
                ..self.config.system
            },
            ..self.config
        };
        Wizard {
            stage: Stage::Keymap,
            config,
            ..self
        }
    }

    fn take_locale(self, t: String) -> (r: Wizard)
        ensures
            r == self.after_locale(t),
    {
        reveal(Wizard::after_locale);
        let config = DeploymentConfig {
            system: SystemConfig {
                locale: t,
                ..self.config.system
            },
            ..self.config
        };
        let stage = Stage::Keymap;
        Wizard { stage, config, ..self }
    }

    #[verifier::opaque]
    pub open spec fn after_keymap(self, t: String) -> Wizard {
        let config = DeploymentConfig {
            system: SystemConfig {
                keymap: t,
                ..self.config.system
            },
            ..self.config
        };
        Wizard {
            stage: Stage::Hostname,
            config,
            ..self
        }
    }

    fn take_keymap(self, t: String) -> (r: Wizard)
        ensures
            r == self.after_keymap(t),
    {
        reveal(Wizard::after_keymap);
        let config = DeploymentConfig {
            system: SystemConfig {
                keymap: t,
                ..self.config.system
            },
            ..self.config
        };
        let stage = Stage::Hostname;
        Wizard { stage, config, ..self }
    }

    #[verifier::opaque]
    pub open spec fn after_hostname(self, t: String) -> Wizard {
        let config = DeploymentConfig {
            system: SystemConfig {
                hostname: t,
                ..self.config.system
            },
            ..self.config
        };
        Wizard {
            stage: Stage::Username,
            config,
            ..self
        }
    }

    fn take_hostname(self, t: String) -> (r: Wizard)
        ensures
            r == self.after_hostname(t),
    {
        reveal(Wizard::after_hostname);
        let config = DeploymentConfig {
            system: SystemConfig {
                hostname: t,
                ..self.config.system
            },
            ..self.config
        };
        let stage = Stage::Username;
        Wizard { stage, config, ..self }
    }

    #[verifier::opaque]
    pub open spec fn after_username(self, t: String) -> Wizard {
        let config = DeploymentConfig {
            user: UserConfig {
                name: t,
                ..self.config.user
            },
            ..self.config
        };
        Wizard {
            stage: Stage::Password,
            config,
            ..self
        }
    }

    fn take_username(self, t: String) -> (r: Wizard)
        ensures
            r == self.after_username(t),
    {
        reveal(Wizard::after_username);
        let config = DeploymentConfig {
            user: UserConfig {
                name: t,
                ..self.config.user
            },
            ..self.config
        };
        let stage = Stage::Password;
        Wizard { stage, config, ..self }
    }

    #[verifier::opaque]
    pub open spec fn after_password(self, t: String) -> Wizard {
        let config = DeploymentConfig {
            user: UserConfig {
                password: t,
                ..self.config.user
            },
            ..self.config
        };
        Wizard {
            stage: Stage::Network,
            config,
            ..self
        }
    }

    fn take_password(self, t: String) -> (r: Wizard)
        ensures
            r == self.after_password(t),
    {
        reveal(Wizard::after_password);
        let config = DeploymentConfig {
            user: UserConfig {
                password: t,
                ..self.config.user
            },
            ..self.config
        };
        let stage = Stage::Network;
        Wizard { stage, config, ..self }
    }

    #[verifier::opaque]
    pub open spec fn after_network(self, v: NetworkBackend) -> Wizard {
        let config = DeploymentConfig {
            network: NetworkConfig {
                backend: v,
                ..self.config.network
            },
            ..self.config
        };
        Wizard {
            stage: if v == NetworkBackend::Iwd {
                Stage::IwdFrontend
            } else {
                Stage::Desktop
            },
            config,
            ..self
        }
    }

    fn take_network(self, v: NetworkBackend) -> (r: Wizard)
        ensures
            r == self.after_network(v),
    {
        reveal(Wizard::after_network);
        let config = DeploymentConfig {
            network: NetworkConfig {
                backend: v,
                ..self.config.network
            },
            ..self.config
        };
        let stage = if v == NetworkBackend::Iwd {
            Stage::IwdFrontend
        } else {
            Stage::Desktop
        };
        Wizard { stage, config, ..self }
    }

    #[verifier::opaque]
    pub open spec fn after_iwd_frontend(self, v: IwdFrontend) -> Wizard {
        let config = DeploymentConfig {
            network: NetworkConfig {
                iwd_frontend: v,
                ..self.config.network
            },
            ..self.config
        };
        Wizard {
            stage: Stage::Desktop,
            config,
            ..self
        }
    }

    fn take_iwd_frontend(self, v: IwdFrontend) -> (r: Wizard)
        ensures
            r == self.after_iwd_frontend(v),
    {
        reveal(Wizard::after_iwd_frontend);
        let config = DeploymentConfig {
            network: NetworkConfig {
                iwd_frontend: v,
                ..self.config.network
            },
            ..self.config
        };
        let stage = Stage::Desktop;
        Wizard { stage, config, ..self }
    }

    #[verifier::opaque]
    pub open spec fn after_display_manager(self, v: DisplayManager) -> Wizard {
        let config = DeploymentConfig {
            desktop: DesktopConfig {
                display_manager: v,
                ..self.config.desktop
            },
            ..self.config
        };
        Wizard {
            stage: Stage::Swap,
            config,
            ..self
        }
    }

    fn take_display_manager(self, v: DisplayManager) -> (r: Wizard)
        ensures
            r == self.after_display_manager(v),
    {
        reveal(Wizard::after_display_manager);
        let config = DeploymentConfig {
            desktop: DesktopConfig {
                display_manager: v,
                ..self.config.desktop
            },
            ..self.config
        };
        let stage = Stage::Swap;
        Wizard { stage, config, ..self }
    }

    #[verifier::opaque]
    pub open spec fn after_swap(self, v: SwapType) -> Wizard {
        let config = DeploymentConfig {
            disk: DiskConfig {
                swap_type: v,
                ..self.config.disk
            },
            ..self.config
        };
        Wizard {
            stage: if v == SwapType::ZramOnly {
                Stage::LvmThin
            } else {
                Stage::Hibernation
            },
            config,
            ..self
        }
    }

    fn take_swap(self, v: SwapType) -> (r: Wizard)
        ensures
            r == self.after_swap(v),
    {
        reveal(Wizard::after_swap);
        let config = DeploymentConfig {
            disk: DiskConfig {
                swap_type: v,
                ..self.config.disk
            },
            ..self.config
        };
        let stage = if v == SwapType::ZramOnly {
            Stage::LvmThin
        } else {
            Stage::Hibernation
        };
        Wizard { stage, config, ..self }
    }

    #[verifier::opaque]
    pub open spec fn after_hibernation(self, b: bool) -> Wizard {
        let config = DeploymentConfig {
            system: SystemConfig {
                hibernation: b,
                ..self.config.system
            },
            ..self.config
        };
        Wizard {
            stage: Stage::LvmThin,
            config,
            ..self
        }
    }

    fn take_hibernation(self, b: bool) -> (r: Wizard)
        ensures
            r == self.after_hibernation(b),
    {
        reveal(Wizard::after_hibernation);
        let config = DeploymentConfig {
            system: SystemConfig {
                hibernation: b,
                ..self.config.system
            },
            ..self.config
        };
        let stage = Stage::LvmThin;
        Wizard { stage, config, ..self }
    }

    #[verifier::opaque]
    pub open spec fn after_lvm_thin(self, b: bool) -> Wizard {
        let config = DeploymentConfig {
            disk: DiskConfig {
                use_lvm_thin: b,
                ..self.config.disk
            },
            ..self.config
        };
        Wizard {
            stage: Stage::SecureBoot,
            config,
            ..self
        }
    }

    fn take_lvm_thin(self, b: bool) -> (r: Wizard)
        ensures
            r == self.after_lvm_thin(b),
    {
        reveal(Wizard::after_lvm_thin);
        let config = DeploymentConfig {
            disk: DiskConfig {
                use_lvm_thin: b,
                ..self.config.disk
            },
            ..self.config
        };
        let stage = Stage::SecureBoot;
        Wizard { stage, config, ..self }
    }

    #[verifier::opaque]
    pub open spec fn after_secure_boot(self, b: bool) -> Wizard {
        let config = DeploymentConfig {
            system: SystemConfig {
                secureboot: b,
                ..self.config.system
            },
            ..self.config
        };
        Wizard {
            stage: if b {
                Stage::SecureBootKeys
            } else {
                Stage::Gpu
            },
            config,
            ..self
        }
    }

    fn take_secure_boot(self, b: bool) -> (r: Wizard)
        ensures
            r == self.after_secure_boot(b),
    {
        reveal(Wizard::after_secure_boot);
        let config = DeploymentConfig {
            system: SystemConfig {
                secureboot: b,
                ..self.config.system
            },
            ..self.config
        };
        let stage = if b {
            Stage::SecureBootKeys
        } else {
            Stage::Gpu
        };
        Wizard { stage, config, ..self }
    }

    #[verifier::opaque]
    pub open spec fn after_secure_boot_keys(self, v: SecureBootMethod) -> Wizard {
        let config = DeploymentConfig {
            system: SystemConfig {
                secureboot_method: v,
                ..self.config.system
            },
            ..self.config
        };
        Wizard {
            stage: Stage::Gpu,
            config,
            ..self
        }
    }

    fn take_secure_boot_keys(self, v: SecureBootMethod) -> (r: Wizard)
        ensures
            r == self.after_secure_boot_keys(v),
    {
        reveal(Wizard::after_secure_boot_keys);
        let config = DeploymentConfig {
            system: SystemConfig {
                secureboot_method: v,
                ..self.config.system
            },
            ..self.config
        };
        let stage = Stage::Gpu;
        Wizard { stage, config, ..self }
    }

    #[verifier::opaque]
    pub open spec fn after_wine(self, b: bool) -> Wizard {
        let config = DeploymentConfig {
            packages: PackagesConfig {
                install_wine: b,
                ..self.config.packages
            },
            ..self.config
        };
        Wizard {
            stage: Stage::Warp,
            config,
            ..self
        }
    }

    fn take_wine(self, b: bool) -> (r: Wizard)
        ensures
            r == self.after_wine(b),
    {
        reveal(Wizard::after_wine);
        let config = DeploymentConfig {
            packages: PackagesConfig {
                install_wine: b,
                ..self.config.packages
            },
            ..self.config
        };
        let stage = Stage::Warp;
        Wizard { stage, config, ..self }
    }

    #[verifier::opaque]
    pub open spec fn after_warp(self, b: bool) -> Wizard {
        let config = DeploymentConfig {
            packages: PackagesConfig {
                install_warp_terminal: b,
                ..self.config.packages
            },
            ..self.config
        };
        Wizard {
            stage: Stage::Tkg,
            config,
            ..self
        }
    }

    fn take_warp(self, b: bool) -> (r: Wizard)
        ensures
            r == self.after_warp(b),
    {
        reveal(Wizard::after_warp);
        let config = DeploymentConfig {
            packages: PackagesConfig {
                install_warp_terminal: b,
                ..self.config.packages
            },
            ..self.config
        };
        let stage = Stage::Tkg;
        Wizard { stage, config, ..self }
    }

    #[verifier::opaque]
    pub open spec fn after_tkg(self, b: bool) -> Wizard {
        let config = DeploymentConfig {
            packages: PackagesConfig {
                install_tkg_kernel: b,
                ..self.config.packages
            },
            ..self.config
        };
        Wizard {
            stage: if b {
                Stage::Scheduler
            } else {
                Stage::Gaming
            },
            config,
            ..self
        }
    }

    fn take_tkg(self, b: bool) -> (r: Wizard)
        ensures
            r == self.after_tkg(b),
    {
        reveal(Wizard::after_tkg);
        let config = DeploymentConfig {
            packages: PackagesConfig {
                install_tkg_kernel: b,
                ..self.config.packages
            },
            ..self.config
        };
        let stage = if b {
            Stage::Scheduler
        } else {
            Stage::Gaming
        };
        Wizard { stage, config, ..self }
    }

    #[verifier::opaque]
    pub open spec fn after_scheduler(self, v: TkgScheduler) -> Wizard {
        let config = DeploymentConfig {
            packages: PackagesConfig {
                tkg_scheduler: v,
                ..self.config.packages
            },
            ..self.config
        };
        Wizard {
            stage: Stage::Gaming,
            config,
            ..self
        }
    }

    fn take_scheduler(self, v: TkgScheduler) -> (r: Wizard)
        ensures
            r == self.after_scheduler(v),
    {
        reveal(Wizard::after_scheduler);
        let config = DeploymentConfig {
            packages: PackagesConfig {
                tkg_scheduler: v,
                ..self.config.packages
            },
            ..self.config
        };
        let stage = Stage::Gaming;
        Wizard { stage, config, ..self }
    }

    #[verifier::opaque]
    pub open spec fn after_gaming(self, b: bool) -> Wizard {
        let config = DeploymentConfig {
            packages: PackagesConfig {
                install_gaming: b,
                ..self.config.packages
            },
            ..self.config
        };
        Wizard {
            stage: if b && self.config.desktop.environment != DesktopEnvironment::Headless {
                Stage::SessionSwitching
            } else {
                Stage::Wifi
            },
            config,
            ..self
        }
    }

    fn take_gaming(self, b: bool) -> (r: Wizard)
        ensures
            r == self.after_gaming(b),
    {
        reveal(Wizard::after_gaming);
        let config = DeploymentConfig {
            packages: PackagesConfig {
                install_gaming: b,
                ..self.config.packages
            },
            ..self.config
        };
        let stage = if b && config.desktop.environment != DesktopEnvironment::Headless {
            Stage::SessionSwitching
        } else {
            Stage::Wifi
        };
        Wizard { stage, config, ..self }
    }

    #[verifier::opaque]
    pub open spec fn after_wifi(self, b: bool) -> Wizard {
        let config = self.config;
        Wizard {
            stage: if b {
                Stage::Ssid
            } else {
                Stage::Yay
            },
            config,
            ..self
        }
    }

    fn take_wifi(self, b: bool) -> (r: Wizard)
        ensures
            r == self.after_wifi(b),
    {
        reveal(Wizard::after_wifi);
        let config = self.config;
        let stage = if b {
            Stage::Ssid
        } else {
            Stage::Yay
        };
        Wizard { stage, config, ..self }
    }

    #[verifier::opaque]
    pub open spec fn after_ssid(self, t: String) -> Wizard {
        let config = DeploymentConfig {
            network: NetworkConfig {
                wifi_ssid: Some(t),
                ..self.config.network
            },
            ..self.config
        };
        Wizard {
            stage: Stage::WifiProtected,
            config,
            ..self
        }
    }

    fn take_ssid(self, t: String) -> (r: Wizard)
        ensures
            r == self.after_ssid(t),
    {
        reveal(Wizard::after_ssid);
        let config = DeploymentConfig {
            network: NetworkConfig {
                wifi_ssid: Some(t),
                ..self.config.network
            },
            ..self.config
        };
        let stage = Stage::WifiProtected;
        Wizard { stage, config, ..self }
    }

    #[verifier::opaque]
    pub open spec fn after_wifi_protected(self, b: bool) -> Wizard {
        let config = self.config;
        Wizard {
            stage: if b {
                Stage::WifiPassword
            } else {
                Stage::Yay
            },
            config,
            ..self
        }
    }

    fn take_wifi_protected(self, b: bool) -> (r: Wizard)
        ensures
            r == self.after_wifi_protected(b),
    {
        reveal(Wizard::after_wifi_protected);
        let config = self.config;
        let stage = if b {
            Stage::WifiPassword
        } else {
            Stage::Yay
        };
        Wizard { stage, config, ..self }
    }

    #[verifier::opaque]
    pub open spec fn after_wifi_password(self, t: String) -> Wizard {
        let config = DeploymentConfig {
            network: NetworkConfig {
                wifi_password: Some(t),
                ..self.config.network
            },
            ..self.config
        };
        Wizard {
            stage: Stage::Yay,
            config,
            ..self
        }
    }

    fn take_wifi_password(self, t: String) -> (r: Wizard)
        ensures
            r == self.after_wifi_password(t),
    {
        reveal(Wizard::after_wifi_password);
        let config = DeploymentConfig {
            network: NetworkConfig {
                wifi_password: Some(t),
                ..self.config.network
            },
            ..self.config
        };
        let stage = Stage::Yay;
        Wizard { stage, config, ..self }
    }

    #[verifier::opaque]
    pub open spec fn after_yay(self, b: bool) -> Wizard {
        let config = DeploymentConfig {
            packages: PackagesConfig {
                install_yay: b,
                ..self.config.packages
            },
            ..self.config
        };
        Wizard {
            stage: from_zen_stage(config),
            config,
            ..self
        }
    }

    fn take_yay(self, b: bool) -> (r: Wizard)
        ensures
            r == self.after_yay(b),
    {
        reveal(Wizard::after_yay);
        let config = DeploymentConfig {
            packages: PackagesConfig {
                install_yay: b,
                ..self.config.packages
            },
            ..self.config
        };
        let stage = from_zen(&config);
        Wizard { stage, config, ..self }
    }

    #[verifier::opaque]
    pub open spec fn after_zen(self, b: bool) -> Wizard {
        let config = DeploymentConfig {
            packages: PackagesConfig {
                install_zen_browser: b,
                ..self.config.packages
            },
            ..self.config
        };
        Wizard {
            stage: from_btrfs_tools_stage(config),
            config,
            ..self
        }
    }

    fn take_zen(self, b: bool) -> (r: Wizard)
        ensures
            r == self.after_zen(b),
    {
        reveal(Wizard::after_zen);
        let config = DeploymentConfig {
            packages: PackagesConfig {
                install_zen_browser: b,
                ..self.config.packages
            },
            ..self.config
        };
        let stage = from_btrfs_tools(&config);
        Wizard { stage, config, ..self }
    }

    #[verifier::opaque]
    pub open spec fn after_btrfs_tools(self, b: bool) -> Wizard {
        let config = DeploymentConfig {
            packages: PackagesConfig {
                install_btrfs_tools: b,
                ..self.config.packages
            },
            ..self.config
        };
        Wizard {
            stage: from_grub_btrfs_stage(config),
            config,
            ..self
        }
    }

    fn take_btrfs_tools(self, b: bool) -> (r: Wizard)
        ensures
            r == self.after_btrfs_tools(b),
    {
        reveal(Wizard::after_btrfs_tools);
        let config = DeploymentConfig {
            packages: PackagesConfig {
                install_btrfs_tools: b,
                ..self.config.packages
            },
            ..self.config
        };
        let stage = from_grub_btrfs(&config);
        Wizard { stage, config, ..self }
    }

    #[verifier::opaque]
    pub open spec fn after_grub_btrfs(self, b: bool) -> Wizard {
        let config = DeploymentConfig {
            packages: PackagesConfig {
                install_grub_btrfs: b,
                ..self.config.packages
            },
            ..self.config
        };
        Wizard {
            stage: from_immutable_stage(config),
            config,
            ..self
        }
    }

    fn take_grub_btrfs(self, b: bool) -> (r: Wizard)
        ensures
            r == self.after_grub_btrfs(b),
    {
        reveal(Wizard::after_grub_btrfs);
        let config = DeploymentConfig {
            packages: PackagesConfig {
                install_grub_btrfs: b,
                ..self.config.packages
            },
            ..self.config
        };
        let stage = from_immutable(&config);
        Wizard { stage, config, ..self }
    }

    #[verifier::opaque]
    pub open spec fn after_immutable(self, b: bool) -> Wizard {
        let config = DeploymentConfig {
            packages: PackagesConfig {
                immutable_root: b,
                ..self.config.packages
            },
            ..self.config
        };
        Wizard {
            stage: Stage::SysctlGaming,
            config,
            ..self
        }
    }

    fn take_immutable(self, b: bool) -> (r: Wizard)
        ensures
            r == self.after_immutable(b),
    {
        reveal(Wizard::after_immutable);
        let config = DeploymentConfig {
            packages: PackagesConfig {
                immutable_root: b,
                ..self.config.packages
            },
            ..self.config
        };
        let stage = Stage::SysctlGaming;
        Wizard { stage, config, ..self }
    }

    #[verifier::opaque]
    pub open spec fn after_sysctl_gaming(self, b: bool) -> Wizard {
        let config = DeploymentConfig {
            packages: PackagesConfig {
                sysctl_gaming_tweaks: b,
                ..self.config.packages
            },
            ..self.config
        };
        Wizard {
            stage: Stage::SysctlNetwork,
            config,
            ..self
        }
    }

    fn take_sysctl_gaming(self, b: bool) -> (r: Wizard)
        ensures
            r == self.after_sysctl_gaming(b),
    {
        reveal(Wizard::after_sysctl_gaming);
        let config = DeploymentConfig {
            packages: PackagesConfig {
                sysctl_gaming_tweaks: b,
                ..self.config.packages
            },
            ..self.config
        };
        let stage = Stage::SysctlNetwork;
        Wizard { stage, config, ..self }
    }

    #[verifier::opaque]
    pub open spec fn after_sysctl_network(self, b: bool) -> Wizard {
        let config = DeploymentConfig {
            packages: PackagesConfig {
                sysctl_network_performance: b,
                ..self.config.packages
            },
            ..self.config
        };
        Wizard {
            stage: from_hhd_stage(config),
            config,
            ..self
        }
    }

    fn take_sysctl_network(self, b: bool) -> (r: Wizard)
        ensures
            r == self.after_sysctl_network(b),
    {
        reveal(Wizard::after_sysctl_network);
        let config = DeploymentConfig {
            packages: PackagesConfig {
                sysctl_network_performance: b,
                ..self.config.packages
            },
            ..self.config
        };
        let stage = from_hhd(&config);
        Wizard { stage, config, ..self }
    }

    #[verifier::opaque]
    pub open spec fn after_hhd(self, b: bool) -> Wizard {
        let config = DeploymentConfig {
            packages: PackagesConfig {
                install_hhd: b,
                ..self.config.packages
            },
            ..self.config
        };
        Wizard {
            stage: from_steam_stage(config),
            config,
            ..self
        }
    }

    fn take_hhd(self, b: bool) -> (r: Wizard)
        ensures
            r == self.after_hhd(b),
    {
        reveal(Wizard::after_hhd);
        let config = DeploymentConfig {
            packages: PackagesConfig {
                install_hhd: b,
                ..self.config.packages
            },
            ..self.config
        };
        let stage = from_steam(&config);
        Wizard { stage, config, ..self }
    }

    #[verifier::opaque]
    pub open spec fn after_steam_prefetch(self, b: bool) -> Wizard {
        let config = DeploymentConfig {
            packages: PackagesConfig {
                steam_prefetch_client: b,
                ..self.config.packages
            },
            ..self.config
        };
        Wizard {
            stage: from_decky_stage(config),
            config,
            ..self
        }
    }

    fn take_steam_prefetch(self, b: bool) -> (r: Wizard)
        ensures
            r == self.after_steam_prefetch(b),
    {
        reveal(Wizard::after_steam_prefetch);
        let config = DeploymentConfig {
            packages: PackagesConfig {
                steam_prefetch_client: b,
                ..self.config.packages
            },
            ..self.config
        };
        let stage = from_decky(&config);
        Wizard { stage, config, ..self }
    }

    #[verifier::opaque]
    pub open spec fn after_decky(self, b: bool) -> Wizard {
        let config = DeploymentConfig {
            packages: PackagesConfig {
                install_decky_loader: b,
                ..self.config.packages
            },
            ..self.config
        };
        Wizard {
            stage: from_evdevhook2_stage(config),
            config,
            ..self
        }
    }

    fn take_decky(self, b: bool) -> (r: Wizard)
        ensures
            r == self.after_decky(b),
    {
        reveal(Wizard::after_decky);
        let config = DeploymentConfig {
            packages: PackagesConfig {
                install_decky_loader: b,
                ..self.config.packages
            },
            ..self.config
        };
        let stage = from_evdevhook2(&config);
        Wizard { stage, config, ..self }
    }

    #[verifier::opaque]
    pub open spec fn after_evdevhook2(self, b: bool) -> Wizard {
        let config = DeploymentConfig {
            packages: PackagesConfig {
                install_evdevhook2: b,
                ..self.config.packages
            },
            ..self.config
        };
        Wizard {
            stage: Stage::Quirks,
            config,
            ..self
        }
    }

    fn take_evdevhook2(self, b: bool) -> (r: Wizard)
        ensures
            r == self.after_evdevhook2(b),
    {
        reveal(Wizard::after_evdevhook2);
        let config = DeploymentConfig {
            packages: PackagesConfig {
                install_evdevhook2: b,
                ..self.config.packages
            },
            ..self.config
        };
        let stage = Stage::Quirks;
        Wizard { stage, config, ..self }
    }

    #[verifier::opaque]
    pub open spec fn after_quirks(self, b: bool) -> Wizard {
        let config = DeploymentConfig {
            packages: PackagesConfig {
                handheld_controller_quirks: Some(b),
                ..self.config.packages
            },
            ..self.config
        };
        Wizard {
            stage: Stage::Done,
            config,
            ..self
        }
    }

    fn take_quirks(self, b: bool) -> (r: Wizard)
        ensures
            r == self.after_quirks(b),
    {
        reveal(Wizard::after_quirks);
        let config = DeploymentConfig {
            packages: PackagesConfig {
                handheld_controller_quirks: Some(b),
                ..self.config.packages
            },
            ..self.config
        };
        let stage = Stage::Done;
        Wizard { stage, config, ..self }
    }

    #[verifier::opaque]
    pub open spec fn after_disk(self, i: usize, new: Wizard) -> bool {
        &&& new.config.disk.device@ == self.disks@[i as int].path@
        &&& new == Wizard {
            stage: Stage::MountPoint,
            config: DeploymentConfig {
                disk: DiskConfig { device: new.config.disk.device, ..self.config.disk },
                ..self.config
            },
            ..self
        }
    }

    fn take_disk(self, i: usize) -> (r: Wizard)
        requires
            i < self.disks@.len(),
        ensures
            self.after_disk(i, r),
    {
        reveal(Wizard::after_disk);
        let device = self.disks[i].path.clone();
        let config = DeploymentConfig {
            disk: DiskConfig { device, ..self.config.disk },
            ..self.config
        };
        Wizard { stage: Stage::MountPoint, config, ..self }
    }

    /// A mount point that is not accepted is asked for again.
    #[verifier::opaque]
    pub open spec fn after_mount_point(self, t: String) -> Wizard {
        if mount_objection(self.config.disk.partitions@, t@) is Some {
            self
        } else {
            Wizard { stage: Stage::Size, mount_point: t, ..self }
        }
    }

    fn take_mount_point(self, t: String) -> (r: Wizard)
        ensures
            r == self.after_mount_point(t),
    {
        reveal(Wizard::after_mount_point);
        if let Some(m) = object_to_mount(&self.config.disk.partitions, t.as_str()) {
            self
        } else {
            Wizard { stage: Stage::Size, mount_point: t, ..self }
        }
    }

    /// Where what is left is taken, a second claim on it starts the partition anew.
    #[verifier::opaque]
    pub open spec fn after_size(self, t: String) -> Wizard {
        if entered_size(t@) == 0 && rest_taken(self.config.disk.partitions@) {
            Wizard { stage: Stage::MountPoint, ..self }
        } else {
            Wizard { stage: Stage::Label, size_mib: entered_size(t@) as u64, ..self }
        }
    }

    fn take_size(self, t: String) -> (r: Wizard)
        ensures
            r == self.after_size(t),
    {
        reveal(Wizard::after_size);
        let size_mib: u64 = size_entry(t.as_str());
        if size_mib == 0 && is_rest_taken(&self.config.disk.partitions) {
            Wizard { stage: Stage::MountPoint, ..self }
        } else {
            Wizard { stage: Stage::Label, size_mib, ..self }
        }
    }

    /// The label completes the partition; the derived label is not kept as one.
    #[verifier::opaque]
    pub open spec fn after_label(self, t: String, new: Wizard) -> bool {
        let entry = CustomPartitionEntry {
            mount_point: self.mount_point,
            label: if t@ == model::derived_label(self.mount_point@) {
                None
            } else {
                Some(t)
            },
            size_mib: self.size_mib,
            encryption: None,
        };
        &&& new.config.disk.partitions@ == self.config.disk.partitions@.push(entry)
        &&& new == Wizard {
            stage: Stage::More,
            config: DeploymentConfig {
                disk: DiskConfig { partitions: new.config.disk.partitions, ..self.config.disk },
                ..self.config
            },
            ..self
        }
    }

    fn take_label(self, t: String) -> (r: Wizard)
        ensures
            self.after_label(t, r),
    {
        reveal(Wizard::after_label);
        let derived = label_for(self.mount_point.as_str());
        let label = if same(t.as_str(), derived.as_str()) {
            None
        } else {
            Some(t)
        };
        let entry = CustomPartitionEntry {
            mount_point: self.mount_point.clone(),
            label,
            size_mib: self.size_mib,
            encryption: None,
        };
        let mut partitions = self.config.disk.partitions;
        partitions.push(entry);
        let config = DeploymentConfig {
            disk: DiskConfig { partitions, ..self.config.disk },
            ..self.config
        };
        Wizard { stage: Stage::More, config, ..self }
    }

    #[verifier::opaque]
    pub open spec fn after_more(self, b: bool, new: Wizard) -> bool {
        if b {
            new == Wizard { stage: Stage::MountPoint, ..self }
        } else {
            &&& rooted(self.config.disk.partitions@, new.config.disk.partitions@)
            &&& new == Wizard {
                stage: Stage::DataFilesystem,
                config: DeploymentConfig {
                    disk: DiskConfig { partitions: new.config.disk.partitions, ..self.config.disk },
                    ..self.config
                },
                ..self
            }
        }
    }

    fn take_more(self, b: bool) -> (r: Wizard)
        ensures
            self.after_more(b, r),
    {
        reveal(Wizard::after_more);
        if b {
            return Wizard { stage: Stage::MountPoint, ..self };
        }
        let ghost before = self.config.disk.partitions@;
        let mut partitions = self.config.disk.partitions;
        if !is_taken(&partitions, "/") {
            let size: u64 = if is_rest_taken(&partitions) {
                20480
            } else {
                0
            };
            partitions.insert(0, CustomPartitionEntry::new("/", size));
            assert(partitions@.skip(1) =~= before);
        }
        let config = DeploymentConfig {
            disk: DiskConfig { partitions, ..self.config.disk },
            ..self.config
        };
        Wizard { stage: Stage::DataFilesystem, config, ..self }
    }

    /// Without a desktop there is no display manager to choose.
    #[verifier::opaque]
    pub open spec fn after_desktop(self, v: DesktopEnvironment) -> Wizard {
        if v == DesktopEnvironment::Headless {
            Wizard {
                stage: Stage::Swap,
                config: DeploymentConfig {
                    desktop: DesktopConfig {
                        environment: v,
                        display_manager: DisplayManager::Tty,
                    },
                    ..self.config
                },
                ..self
            }
        } else {
            Wizard {
                stage: Stage::DisplayManager,
                config: DeploymentConfig {
                    desktop: DesktopConfig { environment: v, ..self.config.desktop },
                    ..self.config
                },
                ..self
            }
        }
    }

    fn take_desktop(self, v: DesktopEnvironment) -> (r: Wizard)
        ensures
            r == self.after_desktop(v),
    {
        reveal(Wizard::after_desktop);
        if v == DesktopEnvironment::Headless {
            let config = DeploymentConfig {
                desktop: DesktopConfig { environment: v, display_manager: DisplayManager::Tty },
                ..self.config
            };
            return Wizard { stage: Stage::Swap, config, ..self };
        }
        let config = DeploymentConfig {
            desktop: DesktopConfig { environment: v, ..self.config.desktop },
            ..self.config
        };
        Wizard { stage: Stage::DisplayManager, config, ..self }
    }

    #[verifier::opaque]
    pub open spec fn after_gpu(self, v: Vec<usize>, new: Wizard) -> bool {
        &&& new.config.packages.gpu_drivers@ == Seq::new(
            v@.len(),
            |j: int| gpu_driver_vendor_choices()[v@[j] as int],
        )
        &&& new == Wizard {
            stage: Stage::Wine,
            config: DeploymentConfig {
                packages: PackagesConfig {
                    gpu_drivers: new.config.packages.gpu_drivers,
                    ..self.config.packages
                },
                ..self.config
            },
            ..self
        }
    }

    fn take_gpu(self, v: Vec<usize>) -> (r: Wizard)
        requires
            forall|j: int| 0 <= j < v@.len() ==> (#[trigger] v@[j]) < 3,
        ensures
            self.after_gpu(v, r),
    {
        reveal(Wizard::after_gpu);
        let config = DeploymentConfig {
            packages: PackagesConfig { gpu_drivers: pick_vendors(&v), ..self.config.packages },
            ..self.config
        };
        Wizard { stage: Stage::Wine, config, ..self }
    }

    /// Switching sessions takes a NetworkManager backend and greetd along.
    #[verifier::opaque]
    pub open spec fn after_session_switching(self, b: bool) -> Wizard {
        let c = self.config;
        Wizard {
            stage: Stage::Wifi,
            config: DeploymentConfig {
                network: NetworkConfig {
                    backend: if b && c.network.backend == NetworkBackend::Iwd {
                        NetworkBackend::NetworkManager
                    } else {
                        c.network.backend
                    },
                    ..c.network
                },
                desktop: DesktopConfig {
                    display_manager: if b {
                        DisplayManager::Greetd
                    } else {
                        c.desktop.display_manager
                    },
                    ..c.desktop
                },
                packages: PackagesConfig { install_session_switching: b, ..c.packages },
                ..c
            },
            ..self
        }
    }

    fn take_session_switching(self, b: bool) -> (r: Wizard)
        ensures
            r == self.after_session_switching(b),
    {
        reveal(Wizard::after_session_switching);
        let backend = if b && self.config.network.backend == NetworkBackend::Iwd {
            NetworkBackend::NetworkManager
        } else {
            self.config.network.backend
        };
        let display_manager = if b {
            DisplayManager::Greetd
        } else {
            self.config.desktop.display_manager
        };
        let config = DeploymentConfig {
            network: NetworkConfig { backend, ..self.config.network },
            desktop: DesktopConfig { display_manager, ..self.config.desktop },
            packages: PackagesConfig { install_session_switching: b, ..self.config.packages },
            ..self.config
        };
        Wizard { stage: Stage::Wifi, config, ..self }
    }

    /// What a choice makes of the wizard.
    #[verifier::opaque]
    pub open spec fn answered_choice(self, i: usize, new: Wizard) -> bool {
        match self.stage {
            Stage::Disk => self.after_disk(i, new),
            Stage::Desktop => new == self.after_desktop(desktop_environment_choices()[i as int]),
            Stage::DataFilesystem => new == self.after_data_filesystem(filesystem_choices()[i as int]),
            Stage::Init => new == self.after_init(init_system_choices()[i as int]),
            Stage::Network => new == self.after_network(network_backend_choices()[i as int]),
            Stage::IwdFrontend => new == self.after_iwd_frontend(iwd_frontend_choices()[i as int]),
            Stage::DisplayManager => new == self.after_display_manager(display_manager_choices()[i as int]),
            Stage::Swap => new == self.after_swap(swap_type_choices()[i as int]),
            Stage::SecureBootKeys => new == self.after_secure_boot_keys(secure_boot_method_choices()[i as int]),
            Stage::Scheduler => new == self.after_scheduler(tkg_scheduler_choices()[i as int]),
            _ => false,
        }
    }

    fn answer_choice(self, i: usize) -> (r: Wizard)
        requires
            self.fits_choice(i),
        ensures
            self.answered_choice(i, r),
    {
        reveal(Wizard::fits_choice);
        reveal(Wizard::answered_choice);
        match self.stage {
            Stage::Disk => self.take_disk(i),
            Stage::Desktop => self.take_desktop(pick_desktop_environment(i)),
            Stage::DataFilesystem => self.take_data_filesystem(pick_filesystem(i)),
            Stage::Init => self.take_init(pick_init_system(i)),
            Stage::Network => self.take_network(pick_network_backend(i)),
            Stage::IwdFrontend => self.take_iwd_frontend(pick_iwd_frontend(i)),
            Stage::DisplayManager => self.take_display_manager(pick_display_manager(i)),
            Stage::Swap => self.take_swap(pick_swap_type(i)),
            Stage::SecureBootKeys => self.take_secure_boot_keys(pick_secure_boot_method(i)),
            Stage::Scheduler => self.take_scheduler(pick_tkg_scheduler(i)),
            _ => self,
        }
    }

    /// What a yes or no makes of the wizard.
    #[verifier::opaque]
    pub open spec fn answered_yes(self, b: bool, new: Wizard) -> bool {
        match self.stage {
            Stage::More => self.after_more(b, new),
            Stage::SessionSwitching => new == self.after_session_switching(b),
            Stage::Encryption => new == self.after_encryption(b),
            Stage::Integrity => new == self.after_integrity(b),
            Stage::BootEncryption => new == self.after_boot_encryption(b),
            Stage::Hibernation => new == self.after_hibernation(b),
            Stage::LvmThin => new == self.after_lvm_thin(b),
            Stage::SecureBoot => new == self.after_secure_boot(b),
            Stage::Wine => new == self.after_wine(b),
            Stage::Warp => new == self.after_warp(b),
            Stage::Tkg => new == self.after_tkg(b),
            Stage::Gaming => new == self.after_gaming(b),
            Stage::Wifi => new == self.after_wifi(b),
            Stage::WifiProtected => new == self.after_wifi_protected(b),
            Stage::Yay => new == self.after_yay(b),
            Stage::Zen => new == self.after_zen(b),
            Stage::BtrfsTools => new == self.after_btrfs_tools(b),
            Stage::GrubBtrfs => new == self.after_grub_btrfs(b),
            Stage::Immutable => new == self.after_immutable(b),
            Stage::SysctlGaming => new == self.after_sysctl_gaming(b),
            Stage::SysctlNetwork => new == self.after_sysctl_network(b),
            Stage::Hhd => new == self.after_hhd(b),
            Stage::SteamPrefetch => new == self.after_steam_prefetch(b),
            Stage::Decky => new == self.after_decky(b),
            Stage::Evdevhook2 => new == self.after_evdevhook2(b),
            Stage::Quirks => new == self.after_quirks(b),
            _ => false,
        }
    }

    fn answer_yes(self, b: bool) -> (r: Wizard)
        requires
            self.fits_yes(),
        ensures
            self.answered_yes(b, r),
    {
        reveal(Wizard::fits_yes);
        reveal(Wizard::answered_yes);
        match self.stage {
            Stage::More => self.take_more(b),
            Stage::SessionSwitching => self.take_session_switching(b),
            Stage::Encryption => self.take_encryption(b),
            Stage::Integrity => self.take_integrity(b),
            Stage::BootEncryption => self.take_boot_encryption(b),
            Stage::Hibernation => self.take_hibernation(b),
            Stage::LvmThin => self.take_lvm_thin(b),
            Stage::SecureBoot => self.take_secure_boot(b),
            Stage::Wine => self.take_wine(b),
            Stage::Warp => self.take_warp(b),
            Stage::Tkg => self.take_tkg(b),
            Stage::Gaming => self.take_gaming(b),
            Stage::Wifi => self.take_wifi(b),
            Stage::WifiProtected => self.take_wifi_protected(b),
            Stage::Yay => self.take_yay(b),
            Stage::Zen => self.take_zen(b),
            Stage::BtrfsTools => self.take_btrfs_tools(b),
            Stage::GrubBtrfs => self.take_grub_btrfs(b),
            Stage::Immutable => self.take_immutable(b),
            Stage::SysctlGaming => self.take_sysctl_gaming(b),
            Stage::SysctlNetwork => self.take_sysctl_network(b),
            Stage::Hhd => self.take_hhd(b),
            Stage::SteamPrefetch => self.take_steam_prefetch(b),
            Stage::Decky => self.take_decky(b),
            Stage::Evdevhook2 => self.take_evdevhook2(b),
            Stage::Quirks => self.take_quirks(b),
            _ => self,
        }
    }

    /// What a text makes of the wizard.
    #[verifier::opaque]
    pub open spec fn answered_entry(self, t: String, new: Wizard) -> bool {
        match self.stage {
            Stage::MountPoint => new == self.after_mount_point(t),
            Stage::Size => new == self.after_size(t),
            Stage::Label => self.after_label(t, new),
            Stage::EncryptionPassword => new == self.after_encryption_password(t),
            Stage::Timezone => new == self.after_timezone(t),
            Stage::Locale => new == self.after_locale(t),
            Stage::Keymap => new == self.after_keymap(t),
            Stage::Hostname => new == self.after_hostname(t),
            Stage::Username => new == self.after_username(t),
            Stage::Password => new == self.after_password(t),
            Stage::Ssid => new == self.after_ssid(t),
            Stage::WifiPassword => new == self.after_wifi_password(t),
            _ => false,
        }
    }

    fn answer_entry(self, t: String) -> (r: Wizard)
        requires
            self.fits_entry(),
        ensures
            self.answered_entry(t, r),
    {
        reveal(Wizard::fits_entry);
        reveal(Wizard::answered_entry);
        match self.stage {
            Stage::MountPoint => self.take_mount_point(t),
            Stage::Size => self.take_size(t),
            Stage::Label => self.take_label(t),
            Stage::EncryptionPassword => self.take_encryption_password(t),
            Stage::Timezone => self.take_timezone(t),
            Stage::Locale => self.take_locale(t),
            Stage::Keymap => self.take_keymap(t),
            Stage::Hostname => self.take_hostname(t),
            Stage::Username => self.take_username(t),
            Stage::Password => self.take_password(t),
            Stage::Ssid => self.take_ssid(t),
            Stage::WifiPassword => self.take_wifi_password(t),
            _ => self,
        }
    }

    /// What an answer makes of the wizard.
    pub open spec fn answered(self, reply: Reply, new: Wizard) -> bool {
        match reply {
            Reply::Choice(i) => self.answered_choice(i, new),
            Reply::Yes(b) => self.answered_yes(b, new),
            Reply::Entry(t) => self.answered_entry(t, new),
            Reply::Choices(v) => self.after_gpu(v, new),
        }
    }

    /// The lines that are printed after an answer.
    pub open spec fn remarks(self, reply: Reply) -> Seq<Text> {
        let c = self.config;
        match (self.stage, reply) {
            (Stage::Disk, _) => partition_header(),
            (Stage::MountPoint, Reply::Entry(t)) => match mount_objection(
                c.disk.partitions@,
                t@,
            ) {
                Some(m) => seq![m],
                None => seq![],
            },
            (Stage::Size, Reply::Entry(t)) => if entered_size(t@) == 0 && rest_taken(
                c.disk.partitions@,
            ) {
                seq![NOTE_ONE_REMAINDER@]
            } else {
                seq![]
            },
            (Stage::More, Reply::Yes(b)) => if b || taken(c.disk.partitions@, "/"@) {
                seq![]
            } else if rest_taken(c.disk.partitions@) {
                seq![NOTE_ROOT_SIZED@]
            } else {
                seq![NOTE_ROOT_REST@]
            },
            (Stage::Hostname, _) => seq![NOTE_USER@],
            (Stage::Swap, Reply::Choice(i)) => if swap_type_choices()[i as int]
                == SwapType::ZramOnly {
                seq![NOTE_NO_HIBERNATION@]
            } else {
                seq![]
            },
            (Stage::SecureBoot, Reply::Yes(false)) => seq![NOTE_PACKAGES@],
            (Stage::SecureBootKeys, _) => seq![NOTE_PACKAGES@],
            (Stage::SessionSwitching, Reply::Yes(true)) => (if c.network.backend
                == NetworkBackend::Iwd {
                seq![NOTE_NETWORK@]
            } else {
                seq![]
            }) + (if c.desktop.display_manager != DisplayManager::Greetd {
                seq![NOTE_GREETD@]
            } else {
                seq![]
            }) + seq![NOTE_WIFI@],
            _ => seq![],
        }
    }

    /// The lines to print after an answer.
    pub fn remark(&self, reply: &Reply) -> (r: Vec<String>)
        requires
            self.fits(*reply),
        ensures
            r.deep_view() == self.remarks(*reply),
    {
        reveal(Wizard::fits_choice);
        let mut notes: Vec<String> = Vec::new();
        match (self.stage, reply) {
            (Stage::Disk, _) => {
                push_partition_lines(&mut notes);
            },
            (Stage::MountPoint, Reply::Entry(t)) => {
                if let Some(m) = object_to_mount(&self.config.disk.partitions, t.as_str()) {
                    push_text(&mut notes, m);
                }
            },
            (Stage::Size, Reply::Entry(t)) => {
                if size_entry(t.as_str()) == 0 && is_rest_taken(&self.config.disk.partitions) {
                    push_text(&mut notes, NOTE_ONE_REMAINDER);
                }
            },
            (Stage::More, Reply::Yes(b)) => {
                if !*b && !is_taken(&self.config.disk.partitions, "/") {
                    if is_rest_taken(&self.config.disk.partitions) {
                        push_text(&mut notes, NOTE_ROOT_SIZED);
                    } else {
                        push_text(&mut notes, NOTE_ROOT_REST);
                    }
                }
            },
            (Stage::Hostname, _) => {
                push_text(&mut notes, NOTE_USER);
            },
            (Stage::Swap, Reply::Choice(i)) => {
                if pick_swap_type(*i) == SwapType::ZramOnly {
                    push_text(&mut notes, NOTE_NO_HIBERNATION);
                }
            },
            (Stage::SecureBoot, Reply::Yes(b)) => {
                if !*b {
                    push_text(&mut notes, NOTE_PACKAGES);
                }
            },
            (Stage::SecureBootKeys, _) => {
                push_text(&mut notes, NOTE_PACKAGES);
            },
            (Stage::SessionSwitching, Reply::Yes(b)) => {
                if *b {
                    if self.config.network.backend == NetworkBackend::Iwd {
                        push_text(&mut notes, NOTE_NETWORK);
                    }
                    if self.config.desktop.display_manager != DisplayManager::Greetd {
                        push_text(&mut notes, NOTE_GREETD);
                    }
                    push_text(&mut notes, NOTE_WIFI);
                }
            },
            _ => {},
        }
        assert(notes.deep_view() =~= self.remarks(*reply));
        notes
    }

    /// Takes the answer to the question.
    pub fn answer(self, reply: Reply) -> (r: Wizard)
        requires
            self.fits(reply),
        ensures
            self.answered(reply, r),
    {
        match reply {
            Reply::Choice(i) => self.answer_choice(i),
            Reply::Yes(b) => self.answer_yes(b),
            Reply::Entry(t) => self.answer_entry(t),
            Reply::Choices(v) => self.take_gpu(v),
        }
    }

    /// The configuration before the first answer: what is never asked for.
    pub open spec fn blank(c: DeploymentConfig, device: Text) -> bool {
        let d = c.disk;
        &&& d.device@ == device
        &&& d.layout == PartitionLayout::Standard
        &&& d.filesystem == Filesystem::Btrfs
        &&& d.boot_filesystem == Filesystem::Btrfs
        &&& !d.encryption
        &&& d.encryption_password is None
        &&& d.luks_mapper_name@ == "Crypt-Root"@
        &&& !d.boot_encryption
        &&& d.luks_boot_mapper_name@ == "Crypt-Boot"@
        &&& d.keyfile_path is None
        &&& !d.integrity
        &&& !d.keyfile_enabled
        &&& d.use_subvolumes
        &&& !d.use_lvm_thin
        &&& d.lvm_vg_name@ == "vg0"@
        &&& d.lvm_thin_pool_name@ == "thinpool"@
        &&& d.lvm_thin_pool_percent == 95
        &&& d.swap_type == SwapType::Partition
        &&& d.swap_file_size_mib == 0
        &&& d.zram_algorithm@ == "zstd"@
        &&& d.partitions@.len() == 0
        &&& d.recovery.off()
        &&& c.system.init == InitSystem::Runit
        &&& c.system.bootloader == Bootloader::Grub
        &&& c.system.timezone@ == ""@
        &&& c.system.locale@ == ""@
        &&& c.system.keymap@ == ""@
        &&& c.system.hostname@ == ""@
        &&& !c.system.hibernation
        &&& !c.system.secureboot
        &&& c.system.secureboot_method == SecureBootMethod::Sbctl
        &&& c.system.secureboot_keys_path is None
        &&& c.user.name@ == ""@
        &&& c.user.password@ == ""@
        &&& c.user.groups.deep_view() == model::groups_by_default()
        &&& c.user.sudoer
        &&& !c.user.encrypt_home
        &&& c.network.backend == NetworkBackend::Iwd
        &&& c.network.iwd_frontend == IwdFrontend::Iwgtk
        &&& c.network.wifi_ssid is None
        &&& c.network.wifi_password is None
        &&& c.desktop.environment == DesktopEnvironment::Headless
        &&& c.desktop.display_manager == DisplayManager::Tty
        &&& c.packages.nothing_chosen()
    }

    fn blank_config(device: String) -> (r: DeploymentConfig)
        ensures
            Self::blank(r, device@),
    {
        DeploymentConfig {
            disk: DiskConfig {
                device,
                layout: PartitionLayout::Standard,
                filesystem: Filesystem::Btrfs,
                boot_filesystem: Filesystem::Btrfs,
                encryption: false,
                encryption_password: None,
                luks_mapper_name: default_luks_mapper_name(),
                boot_encryption: false,
                luks_boot_mapper_name: default_luks_boot_mapper_name(),
                keyfile_path: None,
                integrity: false,
                keyfile_enabled: false,
                use_subvolumes: true,
                use_lvm_thin: false,
                lvm_vg_name: default_vg_name(),
                lvm_thin_pool_name: default_thin_pool_name(),
                lvm_thin_pool_percent: default_thin_pool_percent(),
                swap_type: SwapType::Partition,
                swap_file_size_mib: 0,
                zram_algorithm: default_zram_algorithm(),
                partitions: Vec::new(),
                recovery: RecoveryConfig::default(),
            },
            system: SystemConfig {
                init: InitSystem::Runit,
                bootloader: Bootloader::Grub,
                timezone: "".to_owned(),
                locale: "".to_owned(),
                keymap: "".to_owned(),
                hostname: "".to_owned(),
                hibernation: false,
                secureboot: false,
                secureboot_method: SecureBootMethod::Sbctl,
                secureboot_keys_path: None,
            },
            user: UserConfig {
                name: "".to_owned(),
                password: "".to_owned(),
                groups: default_groups(),
                sudoer: true,
                encrypt_home: false,
            },
            network: NetworkConfig {
                backend: NetworkBackend::Iwd,
                iwd_frontend: IwdFrontend::Iwgtk,
                wifi_ssid: None,
                wifi_password: None,
            },
            desktop: DesktopConfig {
                environment: DesktopEnvironment::Headless,
                display_manager: DisplayManager::Tty,
            },
            packages: PackagesConfig::default(),
        }
    }

    /// The wizard before its first question.
    pub open spec fn fresh(self, device: Option<Text>) -> bool {
        &&& Self::blank(
            self.config,
            match device {
                Some(d) => d,
                None => ""@,
            },
        )
        &&& self.stage == if device is Some {
            Stage::MountPoint
        } else {
            Stage::Disk
        }
    }

    /// Starts the wizard, at the first partition where the device is given and
    /// at the choice of a disk where it is not. There has to be a disk to choose.
    pub fn start(
        device: Option<String>,
        disks: Vec<DiskChoice>,
        detected: Option<HandheldModel>,
    ) -> (r: Result<(Wizard, Vec<String>)>)
        ensures
            r is Err <==> device is None && disks@.len() == 0,
            r matches Err(e) ==> e.config_says("No suitable disks found"@),
            r matches Ok(s) ==> {
                &&& s.0.fresh(
                    match device {
                        Some(d) => Some(d@),
                        None => None,
                    },
                )
                &&& s.0.disks == disks
                &&& s.0.detected == detected
                &&& s.1.deep_view() == seq![NOTE_BANNER@] + if device is Some {
                    partition_header()
                } else {
                    seq![]
                }
            },
    {
        let mut notes: Vec<String> = Vec::new();
        push_text(&mut notes, NOTE_BANNER);
        match device {
            Some(d) => {
                push_partition_lines(&mut notes);
                assert(notes.deep_view() =~= seq![NOTE_BANNER@] + partition_header());
                let w = Wizard {
                    stage: Stage::MountPoint,
                    config: Self::blank_config(d),
                    mount_point: "".to_owned(),
                    size_mib: 0,
                    disks,
                    detected,
                };
                Ok((w, notes))
            },
            None => {
                if disks.len() == 0 {
                    return Err(DeploytixError::ConfigError("No suitable disks found".to_owned()));
                }
                assert(notes.deep_view() =~= seq![NOTE_BANNER@] + Seq::<Text>::empty());
                let w = Wizard {
                    stage: Stage::Disk,
                    config: Self::blank_config("".to_owned()),
                    mount_point: "".to_owned(),
                    size_mib: 0,
                    disks,
                    detected,
                };
                Ok((w, notes))
            },
        }
    }
}

/// What is printed before the first partition.
pub open spec fn partition_header() -> Seq<Text> {
    seq![NOTE_PARTITIONS@, NOTE_AUTOMATIC@, NOTE_SWAP_PARTITION@, NOTE_REMAINDER@]
}

fn push_partition_lines(notes: &mut Vec<String>)
    ensures
        final(notes).deep_view() == old(notes).deep_view() + partition_header(),
{
    push_text(notes, NOTE_PARTITIONS);
    push_text(notes, NOTE_AUTOMATIC);
    push_text(notes, NOTE_SWAP_PARTITION);
    push_text(notes, NOTE_REMAINDER);
    assert(notes.deep_view() =~= old(notes).deep_view() + partition_header());
}

fn pick_vendors(v: &Vec<usize>) -> (r: Vec<GpuDriverVendor>)
    requires
        forall|j: int| 0 <= j < v@.len() ==> (#[trigger] v@[j]) < 3,
    ensures
        r@ == Seq::new(v@.len(), |j: int| gpu_driver_vendor_choices()[v@[j] as int]),
{
    let mut out: Vec<GpuDriverVendor> = Vec::new();
    let mut i: usize = 0;
    while i < v.len()
        invariant
            i <= v@.len(),
            forall|j: int| 0 <= j < v@.len() ==> (#[trigger] v@[j]) < 3,
            out@ == Seq::new(i as nat, |j: int| gpu_driver_vendor_choices()[v@[j] as int]),
        decreases v.len() - i,
    {
        out.push(pick_gpu_driver_vendor(v[i]));
        assert(out@ =~= Seq::new((i + 1) as nat, |j: int| gpu_driver_vendor_choices()[v@[j] as int]));
        i += 1;
    }
    out
}

fn select(prompt: &str, options: Vec<String>, default: usize) -> (r: Question)
    ensures
        r@ == (Ask::Select {
            prompt: prompt@,
            options: options.deep_view(),
            default: default as int,
        }),
{
    Question::Select { prompt: prompt.to_owned(), options, default }
}

fn confirm(prompt: &str, default: bool) -> (r: Question)
    ensures
        r@ == (Ask::Confirm { prompt: prompt@, default }),
{
    Question::Confirm { prompt: prompt.to_owned(), default }
}

fn input(prompt: &str, default: Option<&str>) -> (r: Question)
    ensures
        r@ == (Ask::Input {
            prompt: prompt@,
            default: match default {
                Some(t) => Some(t@),
                None => None,
            },
        }),
{
    let d = match default {
        Some(t) => Some(t.to_owned()),
        None => None,
    };
    Question::Input { prompt: prompt.to_owned(), default: d }
}

impl DeploymentConfig {
    /// The configuration that a wizard has collected, once it has no more questions.
    pub fn from_wizard(wizard: Wizard) -> (r: Option<DeploymentConfig>)
        ensures
            r == if wizard.stage is Done {
                Some(wizard.config)
            } else {
                None
            },
    {
        match wizard.stage {
            Stage::Done => Some(wizard.config),
            _ => None,
        }
    }
}

} // verus!
