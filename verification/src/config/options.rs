//! The closed choices of a deployment.
use vstd::prelude::*;

use crate::text::Text;

verus! {

/// CPU scheduler of the prebuilt linux-tkg kernel.
#[derive(Debug, Clone, Copy, PartialEq, Eq, Structural)]
pub enum TkgScheduler {
    /// BitMap Queue, a scheduler of minimal latency.
    Bmq,
    /// Burst-Oriented Response Enhancer over EEVDF, the most widely used of the set.
    Bore,
    /// The mainline scheduler with the tkg patches.
    Eevdf,
    /// Multiple Queue Skiplist Scheduler.
    Muqss,
    /// Priority and Deadline based Skiplist.
    Pds,
}

impl Default for TkgScheduler {
    fn default() -> (r: Self)
        ensures
            r == TkgScheduler::Bore,
    {
        TkgScheduler::Bore
    }
}

impl TkgScheduler {
    /// The token in the name of a release asset.
    pub open spec fn token(self) -> Text {
        match self {
            TkgScheduler::Bmq => "bmq"@,
            TkgScheduler::Bore => "bore"@,
            TkgScheduler::Eevdf => "eevdf"@,
            TkgScheduler::Muqss => "muqss"@,
            TkgScheduler::Pds => "pds"@,
        }
    }

    pub fn as_str(&self) -> (r: &'static str)
        ensures
            r@ == self.token(),
    {
        match self {
            TkgScheduler::Bmq => "bmq",
            TkgScheduler::Bore => "bore",
            TkgScheduler::Eevdf => "eevdf",
            TkgScheduler::Muqss => "muqss",
            TkgScheduler::Pds => "pds",
        }
    }

    /// Every variant, in the order in which they are offered.
    pub open spec fn every() -> Seq<TkgScheduler> {
        seq![
            TkgScheduler::Bmq,
            TkgScheduler::Bore,
            TkgScheduler::Eevdf,
            TkgScheduler::Muqss,
            TkgScheduler::Pds,
        ]
    }

    pub fn all() -> (r: Vec<Self>)
        ensures
            r@ == Self::every(),
    {
        vec![
            TkgScheduler::Bmq,
            TkgScheduler::Bore,
            TkgScheduler::Eevdf,
            TkgScheduler::Muqss,
            TkgScheduler::Pds,
        ]
    }

    /// How the variant is shown to the user.
    pub fn to_text(&self) -> (r: String)
        ensures
            r@ == self.token() + "-llvm"@,
    {
        let mut s = self.as_str().to_owned();
        s.push_str("-llvm");
        s
    }
}

/// Vendor of a graphics driver.
#[derive(Debug, Clone, Copy, PartialEq, Eq, Structural)]
pub enum GpuDriverVendor {
    Nvidia,
    Amd,
    Intel,
}

impl GpuDriverVendor {
    /// How the choice is shown to the user.
    pub open spec fn shown(self) -> Text {
        match self {
            GpuDriverVendor::Nvidia => "NVIDIA"@,
            GpuDriverVendor::Amd => "AMD"@,
            GpuDriverVendor::Intel => "Intel"@,
        }
    }

    pub fn to_text(&self) -> (r: String)
        ensures
            r@ == self.shown(),
    {
        match self {
            GpuDriverVendor::Nvidia => "NVIDIA".to_owned(),
            GpuDriverVendor::Amd => "AMD".to_owned(),
            GpuDriverVendor::Intel => "Intel".to_owned(),
        }
    }
}

/// How the target swaps.
#[derive(Debug, Clone, Copy, PartialEq, Eq, Structural)]
pub enum SwapType {
    /// A swap partition.
    Partition,
    /// A swap file and ZRAM, no swap partition.
    FileZram,
    /// ZRAM alone: nothing that outlives a power-off.
    ZramOnly,
}

impl Default for SwapType {
    fn default() -> (r: Self)
        ensures
            r == SwapType::Partition,
    {
        SwapType::Partition
    }
}

impl SwapType {
    /// How the choice is shown to the user.
    pub open spec fn shown(self) -> Text {
        match self {
            SwapType::Partition => "Swap Partition"@,
            SwapType::FileZram => "Swap File + ZRAM"@,
            SwapType::ZramOnly => "ZRAM Only"@,
        }
    }

    pub fn to_text(&self) -> (r: String)
        ensures
            r@ == self.shown(),
    {
        match self {
            SwapType::Partition => "Swap Partition".to_owned(),
            SwapType::FileZram => "Swap File + ZRAM".to_owned(),
            SwapType::ZramOnly => "ZRAM Only".to_owned(),
        }
    }
}

/// How the SecureBoot keys are managed.
#[derive(Debug, Clone, Copy, PartialEq, Eq, Structural)]
pub enum SecureBootMethod {
    /// sbctl manages the keys.
    Sbctl,
    /// The user provides PK, KEK and db.
    ManualKeys,
    /// A signed shim with an enrolled machine owner key.
    Shim,
}

impl Default for SecureBootMethod {
    fn default() -> (r: Self)
        ensures
            r == SecureBootMethod::Sbctl,
    {
        SecureBootMethod::Sbctl
    }
}

impl SecureBootMethod {
    /// How the choice is shown to the user.
    pub open spec fn shown(self) -> Text {
        match self {
            SecureBootMethod::Sbctl => "sbctl (automatic key management)"@,
            SecureBootMethod::ManualKeys => "Manual Keys (provide your own)"@,
            SecureBootMethod::Shim => "Shim (MOK enrollment)"@,
        }
    }

    pub fn to_text(&self) -> (r: String)
        ensures
            r@ == self.shown(),
    {
        match self {
            SecureBootMethod::Sbctl => "sbctl (automatic key management)".to_owned(),
            SecureBootMethod::ManualKeys => "Manual Keys (provide your own)".to_owned(),
            SecureBootMethod::Shim => "Shim (MOK enrollment)".to_owned(),
        }
    }
}

/// Filesystem of the data or boot partitions.
#[derive(Debug, Clone, Copy, PartialEq, Eq, Structural)]
pub enum Filesystem {
    Btrfs,
    Ext4,
    Xfs,
    Zfs,
    F2fs,
}

impl Default for Filesystem {
    fn default() -> (r: Self)
        ensures
            r == Filesystem::Btrfs,
    {
        Filesystem::Btrfs
    }
}

impl Filesystem {
    /// How the choice is shown to the user.
    pub open spec fn shown(self) -> Text {
        match self {
            Filesystem::Btrfs => "btrfs"@,
            Filesystem::Ext4 => "ext4"@,
            Filesystem::Xfs => "xfs"@,
            Filesystem::Zfs => "zfs"@,
            Filesystem::F2fs => "f2fs"@,
        }
    }

    pub fn to_text(&self) -> (r: String)
        ensures
            r@ == self.shown(),
    {
        match self {
            Filesystem::Btrfs => "btrfs".to_owned(),
            Filesystem::Ext4 => "ext4".to_owned(),
            Filesystem::Xfs => "xfs".to_owned(),
            Filesystem::Zfs => "zfs".to_owned(),
            Filesystem::F2fs => "f2fs".to_owned(),
        }
    }
}

/// Init system of the target.
#[derive(Debug, Clone, Copy, PartialEq, Eq, Structural)]
pub enum InitSystem {
    Runit,
    OpenRC,
    S6,
    Dinit,
}

impl Default for InitSystem {
    fn default() -> (r: Self)
        ensures
            r == InitSystem::Runit,
    {
        InitSystem::Runit
    }
}

impl InitSystem {
    /// How the choice is shown to the user.
    pub open spec fn shown(self) -> Text {
        match self {
            InitSystem::Runit => "runit"@,
            InitSystem::OpenRC => "openrc"@,
            InitSystem::S6 => "s6"@,
            InitSystem::Dinit => "dinit"@,
        }
    }

    pub fn to_text(&self) -> (r: String)
        ensures
            r@ == self.shown(),
    {
        match self {
            InitSystem::Runit => "runit".to_owned(),
            InitSystem::OpenRC => "openrc".to_owned(),
            InitSystem::S6 => "s6".to_owned(),
            InitSystem::Dinit => "dinit".to_owned(),
        }
    }
}

/// Bootloader of the target.
#[derive(Debug, Clone, Copy, PartialEq, Eq, Structural)]
pub enum Bootloader {
    Grub,
}

impl Default for Bootloader {
    fn default() -> (r: Self)
        ensures
            r == Bootloader::Grub,
    {
        Bootloader::Grub
    }
}

impl Bootloader {
    /// How the choice is shown to the user.
    pub open spec fn shown(self) -> Text {
        match self {
            Bootloader::Grub => "GRUB"@,
        }
    }

    pub fn to_text(&self) -> (r: String)
        ensures
            r@ == self.shown(),
    {
        match self {
            Bootloader::Grub => "GRUB".to_owned(),
        }
    }
}

/// What manages the network of the target.
#[derive(Debug, Clone, Copy, PartialEq, Eq, Structural)]
pub enum NetworkBackend {
    /// iwd with a graphical frontend from the AUR.
    Iwd,
    /// NetworkManager over iwd.
    NetworkManager,
    /// NetworkManager over wpa_supplicant.
    NetworkManagerWpa,
}

impl Default for NetworkBackend {
    fn default() -> (r: Self)
        ensures
            r == NetworkBackend::Iwd,
    {
        NetworkBackend::Iwd
    }
}

impl NetworkBackend {
    /// How the choice is shown to the user.
    pub open spec fn shown(self) -> Text {
        match self {
            NetworkBackend::Iwd => "iwd + GUI frontend (AUR)"@,
            NetworkBackend::NetworkManager => "NetworkManager + iwd"@,
            NetworkBackend::NetworkManagerWpa => "NetworkManager + wpa_supplicant"@,
        }
    }

    pub fn to_text(&self) -> (r: String)
        ensures
            r@ == self.shown(),
    {
        match self {
            NetworkBackend::Iwd => "iwd + GUI frontend (AUR)".to_owned(),
            NetworkBackend::NetworkManager => "NetworkManager + iwd".to_owned(),
            NetworkBackend::NetworkManagerWpa => "NetworkManager + wpa_supplicant".to_owned(),
        }
    }
}

/// Graphical frontend of iwd.
#[derive(Debug, Clone, Copy, PartialEq, Eq, Structural)]
pub enum IwdFrontend {
    Iwgtk,
    Iwdgui,
    Iwqt,
}

impl Default for IwdFrontend {
    fn default() -> (r: Self)
        ensures
            r == IwdFrontend::Iwgtk,
    {
        IwdFrontend::Iwgtk
    }
}

impl IwdFrontend {
    /// The AUR package of the frontend.
    pub open spec fn package(self) -> Text {
        match self {
            IwdFrontend::Iwgtk => "iwgtk"@,
            IwdFrontend::Iwdgui => "iwdgui"@,
            IwdFrontend::Iwqt => "iwqt"@,
        }
    }

    pub fn aur_package(&self) -> (r: &'static str)
        ensures
            r@ == self.package(),
    {
        match self {
            IwdFrontend::Iwgtk => "iwgtk",
            IwdFrontend::Iwdgui => "iwdgui",
            IwdFrontend::Iwqt => "iwqt",
        }
    }

    /// The desktop entry that starts its tray applet, named like the package.
    pub fn desktop_entry(&self) -> (r: &'static str)
        ensures
            r@ == self.package(),
    {
        self.aur_package()
    }

    /// How the choice is shown to the user.
    pub open spec fn shown(self) -> Text {
        match self {
            IwdFrontend::Iwgtk => "iwgtk (GTK)"@,
            IwdFrontend::Iwdgui => "iwdgui (GTK)"@,
            IwdFrontend::Iwqt => "iwqt (Qt)"@,
        }
    }

    pub fn to_text(&self) -> (r: String)
        ensures
            r@ == self.shown(),
    {
        match self {
            IwdFrontend::Iwgtk => "iwgtk (GTK)".to_owned(),
            IwdFrontend::Iwdgui => "iwdgui (GTK)".to_owned(),
            IwdFrontend::Iwqt => "iwqt (Qt)".to_owned(),
        }
    }
}

/// Desktop of the target.
#[derive(Debug, Clone, Copy, PartialEq, Eq, Structural)]
pub enum DesktopEnvironment {
    /// No desktop.
    Headless,
    Kde,
    Gnome,
    Xfce,
}

impl Default for DesktopEnvironment {
    fn default() -> (r: Self)
        ensures
            r == DesktopEnvironment::Headless,
    {
        DesktopEnvironment::Headless
    }
}

impl DesktopEnvironment {
    /// How the choice is shown to the user.
    pub open spec fn shown(self) -> Text {
        match self {
            DesktopEnvironment::Headless => "None (headless/server)"@,
            DesktopEnvironment::Kde => "KDE Plasma"@,
            DesktopEnvironment::Gnome => "GNOME"@,
            DesktopEnvironment::Xfce => "XFCE"@,
        }
    }

    pub fn to_text(&self) -> (r: String)
        ensures
            r@ == self.shown(),
    {
        match self {
            DesktopEnvironment::Headless => "None (headless/server)".to_owned(),
            DesktopEnvironment::Kde => "KDE Plasma".to_owned(),
            DesktopEnvironment::Gnome => "GNOME".to_owned(),
            DesktopEnvironment::Xfce => "XFCE".to_owned(),
        }
    }
}

/// What logs a user into the desktop.
///
/// Greetd logs the created user in without a greeter. The next three show their
/// login screen. With `Tty` the target boots to a console.
#[derive(Debug, Clone, Copy, PartialEq, Eq, Structural)]
pub enum DisplayManager {
    Greetd,
    Sddm,
    Gdm,
    Lightdm,
    /// A console login.
    Tty,
}

impl Default for DisplayManager {
    fn default() -> (r: Self)
        ensures
            r == DisplayManager::Greetd,
    {
        DisplayManager::Greetd
    }
}

impl DisplayManager {
    /// The name under which the init system knows it, which is its package too.
    pub open spec fn service(self) -> Option<Text> {
        match self {
            DisplayManager::Greetd => Some("greetd"@),
            DisplayManager::Sddm => Some("sddm"@),
            DisplayManager::Gdm => Some("gdm"@),
            DisplayManager::Lightdm => Some("lightdm"@),
            DisplayManager::Tty => None,
        }
    }

    pub fn service_name(&self) -> (r: Option<&'static str>)
        ensures
            r is Some <==> self.service() is Some,
            r matches Some(s) ==> self.service() == Some(s@),
    {
        match self {
            DisplayManager::Greetd => Some("greetd"),
            DisplayManager::Sddm => Some("sddm"),
            DisplayManager::Gdm => Some("gdm"),
            DisplayManager::Lightdm => Some("lightdm"),
            DisplayManager::Tty => None,
        }
    }

    /// How the choice is shown to the user.
    pub open spec fn shown(self) -> Text {
        match self {
            DisplayManager::Greetd => "greetd (auto-login, deploytix default)"@,
            DisplayManager::Sddm => "SDDM (login screen)"@,
            DisplayManager::Gdm => "GDM (login screen)"@,
            DisplayManager::Lightdm => "LightDM (login screen)"@,
            DisplayManager::Tty => "None (TTY login, startx)"@,
        }
    }

    pub fn to_text(&self) -> (r: String)
        ensures
            r@ == self.shown(),
    {
        match self {
            DisplayManager::Greetd => "greetd (auto-login, deploytix default)".to_owned(),
            DisplayManager::Sddm => "SDDM (login screen)".to_owned(),
            DisplayManager::Gdm => "GDM (login screen)".to_owned(),
            DisplayManager::Lightdm => "LightDM (login screen)".to_owned(),
            DisplayManager::Tty => "None (TTY login, startx)".to_owned(),
        }
    }
}

/// Shape of the partition table.
#[derive(Debug, Clone, Copy, PartialEq, Eq, Structural)]
pub enum PartitionLayout {
    /// Separate root, usr, var and home.
    Standard,
    /// Root alone.
    Minimal,
    /// Volumes in a thin pool.
    LvmThin,
    /// The partitions that the user listed.
    Custom,
}

impl Default for PartitionLayout {
    fn default() -> (r: Self)
        ensures
            r == PartitionLayout::Standard,
    {
        PartitionLayout::Standard
    }
}

} // verus!
