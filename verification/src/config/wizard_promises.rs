//! What the wizard promises: whatever is answered, the configuration that it
//! builds keeps the rules on which its questions depend.
use vstd::prelude::*;

use crate::config::model;
use crate::config::model::CustomPartitionEntry;
use crate::config::options::{
    DesktopEnvironment, DisplayManager, Filesystem, InitSystem, IwdFrontend, NetworkBackend, SecureBootMethod, SwapType, TkgScheduler,
};
use crate::config::rules;
use crate::config::soundness;
use crate::config::wizard;
use crate::config::wizard::{DiskChoice, Reply, Stage, Wizard};
use crate::text;

verus! {

/// The partitions collected so far: absolute, free and different mount points,
/// at most one partition with what is left, and no encryption of their own.
pub open spec fn collected(p: Seq<CustomPartitionEntry>) -> bool {
    &&& forall|i: int| 0 <= i < p.len() ==> text::begins(#[trigger] p[i].mount_point@, "/"@)
    &&& forall|i: int|
        0 <= i < p.len() ==> #[trigger] p[i].mount_point@ != "/boot"@ && p[i].mount_point@
            != "/boot/efi"@
    &&& forall|i: int, j: int|
        0 <= j < i < p.len() ==> #[trigger] p[i].mount_point@ != #[trigger] p[j].mount_point@
    &&& forall|i: int, j: int|
        0 <= j < i < p.len() ==> !(#[trigger] p[i].size_mib == 0 && #[trigger] p[j].size_mib == 0)
    &&& forall|i: int| 0 <= i < p.len() ==> (#[trigger] p[i].encryption) is None
}

/// The partitions and the one that is being defined.
pub open spec fn partitions_kept(w: Wizard) -> bool {
    let p = w.config.disk.partitions@;
    &&& collected(p)
    &&& w.stage == Stage::Size || w.stage == Stage::Label ==> wizard::mount_objection(
        p,
        w.mount_point@,
    ) is None
    &&& w.stage == Stage::Label ==> !(w.size_mib == 0 && wizard::rest_taken(p))
    &&& w.stage.rank() > Stage::More.rank() ==> wizard::taken(p, "/"@)
}

/// One of the disks has this path.
pub open spec fn offered(disks: Seq<DiskChoice>, path: text::Text) -> bool {
    exists|i: int| 0 <= i < disks.len() && #[trigger] disks[i].path@ == path
}

/// The target: the device that was given, and else, once it has been chosen, one of the
/// disks that were offered.
pub open spec fn device_kept(w: Wizard, device: Option<text::Text>) -> bool {
    match device {
        Some(d) => w.stage != Stage::Disk && w.config.disk.device@ == d,
        None => w.stage == Stage::Disk || offered(w.disks@, w.config.disk.device@),
    }
}

/// The disk and the system. What depends on an earlier answer is off until its
/// own question has been asked.
pub open spec fn disk_kept(w: Wizard) -> bool {
    let d = w.config.disk;
    let n = w.stage.rank();
    &&& d.use_subvolumes == (d.filesystem == Filesystem::Btrfs)
    &&& d.boot_filesystem == model::boot_filesystem_of(d.filesystem)
    &&& d.lvm_thin_pool_percent == 95
    &&& d.recovery.off()
    &&& d.encryption ==> n > Stage::Encryption.rank()
    &&& d.encryption && n > Stage::EncryptionPassword.rank() ==> d.encryption_password is Some
    &&& d.encryption_password is Some ==> d.encryption && n > Stage::EncryptionPassword.rank()
    &&& d.integrity ==> d.encryption && n > Stage::Integrity.rank()
    &&& d.boot_encryption ==> d.encryption && n > Stage::BootEncryption.rank()
    &&& w.stage == Stage::Integrity || w.stage == Stage::BootEncryption || w.stage
        == Stage::EncryptionPassword ==> d.encryption
    &&& w.config.system.hibernation ==> d.swap_type != SwapType::ZramOnly && n
        > Stage::Hibernation.rank()
    &&& w.stage == Stage::Hibernation ==> d.swap_type != SwapType::ZramOnly
}

/// Games, sessions and the network.
pub open spec fn session_kept(w: Wizard) -> bool {
    let k = w.config.packages;
    let c = w.config;
    let n = w.stage.rank();
    &&& k.install_session_switching ==> {
        &&& n > Stage::SessionSwitching.rank()
        &&& k.install_gaming
        &&& c.desktop.environment != DesktopEnvironment::Headless
        &&& c.desktop.display_manager == DisplayManager::Greetd
        &&& c.network.backend != NetworkBackend::Iwd
    }
    &&& w.stage == Stage::SessionSwitching ==> k.install_gaming && c.desktop.environment
        != DesktopEnvironment::Headless
    &&& w.stage == Stage::WifiProtected || w.stage == Stage::WifiPassword
        ==> c.network.wifi_ssid is Some
    &&& c.network.wifi_password is Some ==> c.network.wifi_ssid is Some
}

/// Packages that need other packages.
pub open spec fn packages_kept(w: Wizard) -> bool {
    let k = w.config.packages;
    let d = w.config.disk;
    let n = w.stage.rank();
    &&& k.extra_packages.none_asked()
    &&& k.install_zen_browser || w.stage == Stage::Zen ==> k.install_yay && n >= Stage::Zen.rank()
    &&& k.install_btrfs_tools || w.stage == Stage::BtrfsTools ==> k.install_yay && d.filesystem
        == Filesystem::Btrfs && n >= Stage::BtrfsTools.rank()
    &&& k.install_grub_btrfs || w.stage == Stage::GrubBtrfs ==> d.filesystem == Filesystem::Btrfs
        && d.use_subvolumes && !d.use_lvm_thin && n >= Stage::GrubBtrfs.rank()
    &&& k.install_grub_btrfs ==> n > Stage::GrubBtrfs.rank()
    &&& k.immutable_root || w.stage == Stage::Immutable ==> (k.install_grub_btrfs
        || d.use_lvm_thin) && n >= Stage::Immutable.rank()
    &&& k.install_hhd || w.stage == Stage::Hhd ==> k.install_yay && n >= Stage::Hhd.rank()
    &&& k.steam_prefetch_client || w.stage == Stage::SteamPrefetch ==> k.install_gaming && n
        >= Stage::SteamPrefetch.rank()
    &&& k.install_decky_loader || w.stage == Stage::Decky ==> k.install_gaming && k.install_yay
        && n >= Stage::Decky.rank()
    &&& k.install_evdevhook2 || w.stage == Stage::Evdevhook2 ==> k.install_yay && n
        >= Stage::Evdevhook2.rank()
}

/// What holds of the wizard at every stage.
pub open spec fn kept(w: Wizard, device: Option<text::Text>) -> bool {
    &&& device_kept(w, device)
    &&& partitions_kept(w)
    &&& disk_kept(w)
    &&& session_kept(w)
    &&& packages_kept(w)
}

/// It holds before the first question.
pub proof fn fresh_wizard_keeps(w: Wizard, device: Option<text::Text>)
    requires
        w.fresh(device),
    ensures
        kept(w, device),
{
}

proof fn keeps_data_filesystem(w: Wizard, device: Option<text::Text>, v: Filesystem)
    requires
        kept(w, device),
        w.stage == Stage::DataFilesystem,
    ensures
        kept(w.after_data_filesystem(v), device),
{
    reveal(Wizard::after_data_filesystem);
}

proof fn keeps_encryption(w: Wizard, device: Option<text::Text>, b: bool)
    requires
        kept(w, device),
        w.stage == Stage::Encryption,
    ensures
        kept(w.after_encryption(b), device),
{
    reveal(Wizard::after_encryption);
}

proof fn keeps_integrity(w: Wizard, device: Option<text::Text>, b: bool)
    requires
        kept(w, device),
        w.stage == Stage::Integrity,
    ensures
        kept(w.after_integrity(b), device),
{
    reveal(Wizard::after_integrity);
}

proof fn keeps_boot_encryption(w: Wizard, device: Option<text::Text>, b: bool)
    requires
        kept(w, device),
        w.stage == Stage::BootEncryption,
    ensures
        kept(w.after_boot_encryption(b), device),
{
    reveal(Wizard::after_boot_encryption);
}

proof fn keeps_encryption_password(w: Wizard, device: Option<text::Text>, t: String)
    requires
        kept(w, device),
        w.stage == Stage::EncryptionPassword,
    ensures
        kept(w.after_encryption_password(t), device),
{
    reveal(Wizard::after_encryption_password);
}

proof fn keeps_init(w: Wizard, device: Option<text::Text>, v: InitSystem)
    requires
        kept(w, device),
        w.stage == Stage::Init,
    ensures
        kept(w.after_init(v), device),
{
    reveal(Wizard::after_init);
}

proof fn keeps_timezone(w: Wizard, device: Option<text::Text>, t: String)
    requires
        kept(w, device),
        w.stage == Stage::Timezone,
    ensures
        kept(w.after_timezone(t), device),
{
    reveal(Wizard::after_timezone);
}

proof fn keeps_locale(w: Wizard, device: Option<text::Text>, t: String)
    requires
        kept(w, device),
        w.stage == Stage::Locale,
    ensures
        kept(w.after_locale(t), device),
{
    reveal(Wizard::after_locale);
}

proof fn keeps_keymap(w: Wizard, device: Option<text::Text>, t: String)
    requires
        kept(w, device),
        w.stage == Stage::Keymap,
    ensures
        kept(w.after_keymap(t), device),
{
    reveal(Wizard::after_keymap);
}

proof fn keeps_hostname(w: Wizard, device: Option<text::Text>, t: String)
    requires
        kept(w, device),
        w.stage == Stage::Hostname,
    ensures
        kept(w.after_hostname(t), device),
{
    reveal(Wizard::after_hostname);
}

proof fn keeps_username(w: Wizard, device: Option<text::Text>, t: String)
    requires
        kept(w, device),
        w.stage == Stage::Username,
    ensures
        kept(w.after_username(t), device),
{
    reveal(Wizard::after_username);
}

proof fn keeps_password(w: Wizard, device: Option<text::Text>, t: String)
    requires
        kept(w, device),
        w.stage == Stage::Password,
    ensures
        kept(w.after_password(t), device),
{
    reveal(Wizard::after_password);
}

proof fn keeps_network(w: Wizard, device: Option<text::Text>, v: NetworkBackend)
    requires
        kept(w, device),
        w.stage == Stage::Network,
    ensures
        kept(w.after_network(v), device),
{
    reveal(Wizard::after_network);
}

proof fn keeps_iwd_frontend(w: Wizard, device: Option<text::Text>, v: IwdFrontend)
    requires
        kept(w, device),
        w.stage == Stage::IwdFrontend,
    ensures
        kept(w.after_iwd_frontend(v), device),
{
    reveal(Wizard::after_iwd_frontend);
}

proof fn keeps_display_manager(w: Wizard, device: Option<text::Text>, v: DisplayManager)
    requires
        kept(w, device),
        w.stage == Stage::DisplayManager,
    ensures
        kept(w.after_display_manager(v), device),
{
    reveal(Wizard::after_display_manager);
}

proof fn keeps_swap(w: Wizard, device: Option<text::Text>, v: SwapType)
    requires
        kept(w, device),
        w.stage == Stage::Swap,
    ensures
        kept(w.after_swap(v), device),
{
    reveal(Wizard::after_swap);
}

proof fn keeps_hibernation(w: Wizard, device: Option<text::Text>, b: bool)
    requires
        kept(w, device),
        w.stage == Stage::Hibernation,
    ensures
        kept(w.after_hibernation(b), device),
{
    reveal(Wizard::after_hibernation);
}

proof fn keeps_lvm_thin(w: Wizard, device: Option<text::Text>, b: bool)
    requires
        kept(w, device),
        w.stage == Stage::LvmThin,
    ensures
        kept(w.after_lvm_thin(b), device),
{
    reveal(Wizard::after_lvm_thin);
}

proof fn keeps_secure_boot(w: Wizard, device: Option<text::Text>, b: bool)
    requires
        kept(w, device),
        w.stage == Stage::SecureBoot,
    ensures
        kept(w.after_secure_boot(b), device),
{
    reveal(Wizard::after_secure_boot);
}

proof fn keeps_secure_boot_keys(w: Wizard, device: Option<text::Text>, v: SecureBootMethod)
    requires
        kept(w, device),
        w.stage == Stage::SecureBootKeys,
    ensures
        kept(w.after_secure_boot_keys(v), device),
{
    reveal(Wizard::after_secure_boot_keys);
}

proof fn keeps_wine(w: Wizard, device: Option<text::Text>, b: bool)
    requires
        kept(w, device),
        w.stage == Stage::Wine,
    ensures
        kept(w.after_wine(b), device),
{
    reveal(Wizard::after_wine);
}

proof fn keeps_warp(w: Wizard, device: Option<text::Text>, b: bool)
    requires
        kept(w, device),
        w.stage == Stage::Warp,
    ensures
        kept(w.after_warp(b), device),
{
    reveal(Wizard::after_warp);
}

proof fn keeps_tkg(w: Wizard, device: Option<text::Text>, b: bool)
    requires
        kept(w, device),
        w.stage == Stage::Tkg,
    ensures
        kept(w.after_tkg(b), device),
{
    reveal(Wizard::after_tkg);
}

proof fn keeps_scheduler(w: Wizard, device: Option<text::Text>, v: TkgScheduler)
    requires
        kept(w, device),
        w.stage == Stage::Scheduler,
    ensures
        kept(w.after_scheduler(v), device),
{
    reveal(Wizard::after_scheduler);
}

proof fn keeps_gaming(w: Wizard, device: Option<text::Text>, b: bool)
    requires
        kept(w, device),
        w.stage == Stage::Gaming,
    ensures
        kept(w.after_gaming(b), device),
{
    reveal(Wizard::after_gaming);
}

proof fn keeps_wifi(w: Wizard, device: Option<text::Text>, b: bool)
    requires
        kept(w, device),
        w.stage == Stage::Wifi,
    ensures
        kept(w.after_wifi(b), device),
{
    reveal(Wizard::after_wifi);
}

proof fn keeps_ssid(w: Wizard, device: Option<text::Text>, t: String)
    requires
        kept(w, device),
        w.stage == Stage::Ssid,
    ensures
        kept(w.after_ssid(t), device),
{
    reveal(Wizard::after_ssid);
}

proof fn keeps_wifi_protected(w: Wizard, device: Option<text::Text>, b: bool)
    requires
        kept(w, device),
        w.stage == Stage::WifiProtected,
    ensures
        kept(w.after_wifi_protected(b), device),
{
    reveal(Wizard::after_wifi_protected);
}

proof fn keeps_wifi_password(w: Wizard, device: Option<text::Text>, t: String)
    requires
        kept(w, device),
        w.stage == Stage::WifiPassword,
    ensures
        kept(w.after_wifi_password(t), device),
{
    reveal(Wizard::after_wifi_password);
}

proof fn keeps_yay(w: Wizard, device: Option<text::Text>, b: bool)
    requires
        kept(w, device),
        w.stage == Stage::Yay,
    ensures
        kept(w.after_yay(b), device),
{
    reveal(Wizard::after_yay);
    reveal(wizard::from_zen_stage);
    reveal(wizard::from_btrfs_tools_stage);
    reveal(wizard::from_grub_btrfs_stage);
    reveal(wizard::from_immutable_stage);
}

proof fn keeps_zen(w: Wizard, device: Option<text::Text>, b: bool)
    requires
        kept(w, device),
        w.stage == Stage::Zen,
    ensures
        kept(w.after_zen(b), device),
{
    reveal(Wizard::after_zen);
    reveal(wizard::from_btrfs_tools_stage);
    reveal(wizard::from_grub_btrfs_stage);
    reveal(wizard::from_immutable_stage);
}

proof fn keeps_btrfs_tools(w: Wizard, device: Option<text::Text>, b: bool)
    requires
        kept(w, device),
        w.stage == Stage::BtrfsTools,
    ensures
        kept(w.after_btrfs_tools(b), device),
{
    reveal(Wizard::after_btrfs_tools);
    reveal(wizard::from_grub_btrfs_stage);
    reveal(wizard::from_immutable_stage);
}

proof fn keeps_grub_btrfs(w: Wizard, device: Option<text::Text>, b: bool)
    requires
        kept(w, device),
        w.stage == Stage::GrubBtrfs,
    ensures
        kept(w.after_grub_btrfs(b), device),
{
    reveal(Wizard::after_grub_btrfs);
    reveal(wizard::from_immutable_stage);
}

proof fn keeps_immutable(w: Wizard, device: Option<text::Text>, b: bool)
    requires
        kept(w, device),
        w.stage == Stage::Immutable,
    ensures
        kept(w.after_immutable(b), device),
{
    reveal(Wizard::after_immutable);
}

proof fn keeps_sysctl_gaming(w: Wizard, device: Option<text::Text>, b: bool)
    requires
        kept(w, device),
        w.stage == Stage::SysctlGaming,
    ensures
        kept(w.after_sysctl_gaming(b), device),
{
    reveal(Wizard::after_sysctl_gaming);
}

proof fn keeps_sysctl_network(w: Wizard, device: Option<text::Text>, b: bool)
    requires
        kept(w, device),
        w.stage == Stage::SysctlNetwork,
    ensures
        kept(w.after_sysctl_network(b), device),
{
    reveal(Wizard::after_sysctl_network);
    reveal(wizard::from_hhd_stage);
    reveal(wizard::from_steam_stage);
    reveal(wizard::from_decky_stage);
    reveal(wizard::from_evdevhook2_stage);
}

proof fn keeps_hhd(w: Wizard, device: Option<text::Text>, b: bool)
    requires
        kept(w, device),
        w.stage == Stage::Hhd,
    ensures
        kept(w.after_hhd(b), device),
{
    reveal(Wizard::after_hhd);
    reveal(wizard::from_steam_stage);
    reveal(wizard::from_decky_stage);
    reveal(wizard::from_evdevhook2_stage);
}

proof fn keeps_steam_prefetch(w: Wizard, device: Option<text::Text>, b: bool)
    requires
        kept(w, device),
        w.stage == Stage::SteamPrefetch,
    ensures
        kept(w.after_steam_prefetch(b), device),
{
    reveal(Wizard::after_steam_prefetch);
    reveal(wizard::from_decky_stage);
    reveal(wizard::from_evdevhook2_stage);
}

proof fn keeps_decky(w: Wizard, device: Option<text::Text>, b: bool)
    requires
        kept(w, device),
        w.stage == Stage::Decky,
    ensures
        kept(w.after_decky(b), device),
{
    reveal(Wizard::after_decky);
    reveal(wizard::from_evdevhook2_stage);
}

proof fn keeps_evdevhook2(w: Wizard, device: Option<text::Text>, b: bool)
    requires
        kept(w, device),
        w.stage == Stage::Evdevhook2,
    ensures
        kept(w.after_evdevhook2(b), device),
{
    reveal(Wizard::after_evdevhook2);
}

proof fn keeps_quirks(w: Wizard, device: Option<text::Text>, b: bool)
    requires
        kept(w, device),
        w.stage == Stage::Quirks,
    ensures
        kept(w.after_quirks(b), device),
{
    reveal(Wizard::after_quirks);
}

proof fn keeps_disk(w: Wizard, device: Option<text::Text>, i: usize, new: Wizard)
    requires
        kept(w, device),
        w.stage == Stage::Disk,
        i < w.disks@.len(),
        w.after_disk(i, new),
    ensures
        kept(new, device),
{
    reveal(Wizard::after_disk);
    assert(w.disks@[i as int].path@ == new.config.disk.device@);
}

proof fn keeps_mount_point(w: Wizard, device: Option<text::Text>, t: String)
    requires
        kept(w, device),
        w.stage == Stage::MountPoint,
    ensures
        kept(w.after_mount_point(t), device),
{
    reveal(Wizard::after_mount_point);
}

proof fn keeps_size(w: Wizard, device: Option<text::Text>, t: String)
    requires
        kept(w, device),
        w.stage == Stage::Size,
    ensures
        kept(w.after_size(t), device),
{
    reveal(Wizard::after_size);
    text::lemma_parsed_range(t@, u64::MAX as int);
}

proof fn keeps_label(w: Wizard, device: Option<text::Text>, t: String, new: Wizard)
    requires
        kept(w, device),
        w.stage == Stage::Label,
        w.after_label(t, new),
    ensures
        kept(new, device),
{
    reveal(Wizard::after_label);
    let p = w.config.disk.partitions@;
    let q = new.config.disk.partitions@;
    assert(q[p.len() as int].mount_point@ == w.mount_point@);
    assert forall|i: int| 0 <= i < p.len() implies #[trigger] q[i] == p[i] by {}
    assert forall|i: int| 0 <= i < q.len() implies text::begins(
        #[trigger] q[i].mount_point@,
        "/"@,
    ) by {
        if i < p.len() {
            assert(text::begins(p[i].mount_point@, "/"@));
        }
    }
    assert forall|i: int| 0 <= i < q.len() implies #[trigger] q[i].mount_point@ != "/boot"@
        && q[i].mount_point@ != "/boot/efi"@ by {
        if i < p.len() {
            assert(p[i].mount_point@ != "/boot"@);
        }
    }
    assert forall|i: int| 0 <= i < q.len() implies (#[trigger] q[i].encryption) is None by {
        if i < p.len() {
            assert(p[i].encryption is None);
        }
    }
    assert forall|i: int, j: int| 0 <= j < i < q.len() implies #[trigger] q[i].mount_point@
        != #[trigger] q[j].mount_point@ by {
        if i == p.len() {
            assert(p[j].mount_point@ != w.mount_point@);
        } else {
            assert(p[i].mount_point@ != p[j].mount_point@);
        }
    }
    assert forall|i: int, j: int| 0 <= j < i < q.len() implies !(#[trigger] q[i].size_mib == 0
        && #[trigger] q[j].size_mib == 0) by {
        if i == p.len() {
            assert(p[j].size_mib == q[j].size_mib);
        } else {
            assert(!(p[i].size_mib == 0 && p[j].size_mib == 0));
        }
    }
}

proof fn keeps_more(w: Wizard, device: Option<text::Text>, b: bool, new: Wizard)
    requires
        kept(w, device),
        w.stage == Stage::More,
        w.after_more(b, new),
    ensures
        kept(new, device),
{
    reveal(Wizard::after_more);
    let p = w.config.disk.partitions@;
    let q = new.config.disk.partitions@;
    if !b && !wizard::taken(p, "/"@) {
        reveal_strlit("/");
        reveal_strlit("/boot");
        reveal_strlit("/boot/efi");
        assert(text::begins("/"@, "/"@)) by {
            assert("/"@.subrange(0, 1) =~= "/"@);
        }
        assert forall|i: int| 1 <= i < q.len() implies q[i] == p[i - 1] by {
            assert(q.skip(1)[i - 1] == q[i]);
        }
        assert(q[0].mount_point@ == "/"@);
        assert forall|i: int| 0 <= i < q.len() implies text::begins(
            #[trigger] q[i].mount_point@,
            "/"@,
        ) by {
            if i > 0 {
                assert(q[i] == p[i - 1]);
            }
        }
        assert forall|i: int| 0 <= i < q.len() implies #[trigger] q[i].mount_point@ != "/boot"@
            && q[i].mount_point@ != "/boot/efi"@ by {
            if i > 0 {
                assert(q[i] == p[i - 1]);
            }
        }
        assert forall|i: int, j: int| 0 <= j < i < q.len() implies #[trigger] q[i].mount_point@
            != #[trigger] q[j].mount_point@ by {
            assert(q[i] == p[i - 1]);
            if j > 0 {
                assert(q[j] == p[j - 1]);
                assert(p[i - 1].mount_point@ != p[j - 1].mount_point@);
            } else {
                assert(p[i - 1].mount_point@ != "/"@);
            }
        }
        assert forall|i: int, j: int| 0 <= j < i < q.len() implies !(#[trigger] q[i].size_mib == 0
            && #[trigger] q[j].size_mib == 0) by {
            assert(q[i] == p[i - 1]);
            if j > 0 {
                assert(q[j] == p[j - 1]);
                assert(!(p[i - 1].size_mib == 0 && p[j - 1].size_mib == 0));
            } else {
                assert(p[i - 1].size_mib == 0 ==> wizard::rest_taken(p));
            }
        }
        assert forall|i: int| 0 <= i < q.len() implies (#[trigger] q[i].encryption) is None by {
            if i > 0 {
                assert(q[i] == p[i - 1]);
            }
        }
    }
}

proof fn keeps_desktop(w: Wizard, device: Option<text::Text>, v: DesktopEnvironment)
    requires
        kept(w, device),
        w.stage == Stage::Desktop,
    ensures
        kept(w.after_desktop(v), device),
{
    reveal(Wizard::after_desktop);
}

proof fn keeps_gpu(w: Wizard, device: Option<text::Text>, v: Vec<usize>, new: Wizard)
    requires
        kept(w, device),
        w.stage == Stage::Gpu,
        w.after_gpu(v, new),
    ensures
        kept(new, device),
{
    reveal(Wizard::after_gpu);
}

proof fn keeps_session_switching(w: Wizard, device: Option<text::Text>, b: bool)
    requires
        kept(w, device),
        w.stage == Stage::SessionSwitching,
    ensures
        kept(w.after_session_switching(b), device),
{
    reveal(Wizard::after_session_switching);
}

/// It holds after every answer.
pub proof fn answers_keep(w: Wizard, device: Option<text::Text>, reply: Reply, new: Wizard)
    requires
        kept(w, device),
        w.fits(reply),
        w.answered(reply, new),
    ensures
        kept(new, device),
{
    match reply {
        Reply::Choice(i) => choices_keep(w, device, i, new),
        Reply::Yes(b) => confirmations_keep(w, device, b, new),
        Reply::Entry(t) => entries_keep(w, device, t, new),
        Reply::Choices(v) => keeps_gpu(w, device, v, new),
    }
}

proof fn choices_keep(w: Wizard, device: Option<text::Text>, i: usize, new: Wizard)
    requires
        kept(w, device),
        w.fits_choice(i),
        w.answered_choice(i, new),
    ensures
        kept(new, device),
{
    reveal(Wizard::fits_choice);
    reveal(Wizard::answered_choice);
    match w.stage {
        Stage::Disk => keeps_disk(w, device, i, new),
        Stage::Desktop => keeps_desktop(w, device, wizard::desktop_environment_choices()[i as int]),
        Stage::DataFilesystem => keeps_data_filesystem(w, device, wizard::filesystem_choices()[i as int]),
        Stage::Init => keeps_init(w, device, wizard::init_system_choices()[i as int]),
        Stage::Network => keeps_network(w, device, wizard::network_backend_choices()[i as int]),
        Stage::IwdFrontend => keeps_iwd_frontend(w, device, wizard::iwd_frontend_choices()[i as int]),
        Stage::DisplayManager => keeps_display_manager(w, device, wizard::display_manager_choices()[i as int]),
        Stage::Swap => keeps_swap(w, device, wizard::swap_type_choices()[i as int]),
        Stage::SecureBootKeys => keeps_secure_boot_keys(w, device, wizard::secure_boot_method_choices()[i as int]),
        Stage::Scheduler => keeps_scheduler(w, device, wizard::tkg_scheduler_choices()[i as int]),
        _ => {},
    }
}

proof fn confirmations_keep(w: Wizard, device: Option<text::Text>, b: bool, new: Wizard)
    requires
        kept(w, device),
        w.answered_yes(b, new),
    ensures
        kept(new, device),
{
    reveal(Wizard::answered_yes);
    match w.stage {
        Stage::More => keeps_more(w, device, b, new),
        Stage::SessionSwitching => keeps_session_switching(w, device, b),
        Stage::Encryption => keeps_encryption(w, device, b),
        Stage::Integrity => keeps_integrity(w, device, b),
        Stage::BootEncryption => keeps_boot_encryption(w, device, b),
        Stage::Hibernation => keeps_hibernation(w, device, b),
        Stage::LvmThin => keeps_lvm_thin(w, device, b),
        Stage::SecureBoot => keeps_secure_boot(w, device, b),
        Stage::Wine => keeps_wine(w, device, b),
        Stage::Warp => keeps_warp(w, device, b),
        Stage::Tkg => keeps_tkg(w, device, b),
        Stage::Gaming => keeps_gaming(w, device, b),
        Stage::Wifi => keeps_wifi(w, device, b),
        Stage::WifiProtected => keeps_wifi_protected(w, device, b),
        Stage::Yay => keeps_yay(w, device, b),
        Stage::Zen => keeps_zen(w, device, b),
        Stage::BtrfsTools => keeps_btrfs_tools(w, device, b),
        Stage::GrubBtrfs => keeps_grub_btrfs(w, device, b),
        Stage::Immutable => keeps_immutable(w, device, b),
        Stage::SysctlGaming => keeps_sysctl_gaming(w, device, b),
        Stage::SysctlNetwork => keeps_sysctl_network(w, device, b),
        Stage::Hhd => keeps_hhd(w, device, b),
        Stage::SteamPrefetch => keeps_steam_prefetch(w, device, b),
        Stage::Decky => keeps_decky(w, device, b),
        Stage::Evdevhook2 => keeps_evdevhook2(w, device, b),
        Stage::Quirks => keeps_quirks(w, device, b),
        _ => {},
    }
}

proof fn entries_keep(w: Wizard, device: Option<text::Text>, t: String, new: Wizard)
    requires
        kept(w, device),
        w.answered_entry(t, new),
    ensures
        kept(new, device),
{
    reveal(Wizard::answered_entry);
    match w.stage {
        Stage::MountPoint => keeps_mount_point(w, device, t),
        Stage::Size => keeps_size(w, device, t),
        Stage::Label => keeps_label(w, device, t, new),
        Stage::EncryptionPassword => keeps_encryption_password(w, device, t),
        Stage::Timezone => keeps_timezone(w, device, t),
        Stage::Locale => keeps_locale(w, device, t),
        Stage::Keymap => keeps_keymap(w, device, t),
        Stage::Hostname => keeps_hostname(w, device, t),
        Stage::Username => keeps_username(w, device, t),
        Stage::Password => keeps_password(w, device, t),
        Stage::Ssid => keeps_ssid(w, device, t),
        Stage::WifiPassword => keeps_wifi_password(w, device, t),
        _ => {},
    }
}

/// The states of a wizard that is started and given these replies one after the other.
pub open spec fn ran(states: Seq<Wizard>, replies: Seq<Reply>, device: Option<text::Text>) -> bool {
    &&& states.len() == replies.len() + 1
    &&& states[0].fresh(device)
    &&& forall|i: int|
        0 <= i < replies.len() ==> states[i].fits(#[trigger] replies[i]) && states[i].answered(
            replies[i],
            states[i + 1],
        )
}

/// It holds whatever is answered, in whatever number.
pub proof fn every_run_keeps(states: Seq<Wizard>, replies: Seq<Reply>, device: Option<text::Text>)
    requires
        ran(states, replies, device),
    ensures
        kept(states.last(), device),
    decreases replies.len(),
{
    if replies.len() == 0 {
        fresh_wizard_keeps(states[0], device);
    } else {
        let n = replies.len() - 1;
        let before = states.drop_last();
        let others = replies.drop_last();
        assert forall|i: int| 0 <= i < others.len() implies before[i].fits(#[trigger] others[i])
            && before[i].answered(others[i], before[i + 1]) by {
            assert(others[i] == replies[i]);
        }
        every_run_keeps(before, others, device);
        assert(before.last() == states[n]);
        answers_keep(states[n], device, replies[n], states[n + 1]);
    }
}

/// A finished wizard has a configuration in which the target is the device that was given
/// or a disk that was chosen, the partitions are sound and
/// whatever needs something else has it. What is left to the rules is what no
/// question can settle: the entered texts, and combinations that are offered
/// and can be refused.
pub proof fn finished_wizard_is_consistent(w: Wizard, device: Option<text::Text>)
    requires
        kept(w, device),
        w.stage == Stage::Done,
    ensures
        soundness::sound_partitions(w.config.disk.partitions@),
        rules::partition_problem(w.config.disk.partitions@) is None,
        device matches Some(d) ==> w.config.disk.device@ == d,
        device is None ==> offered(w.disks@, w.config.disk.device@),
        w.config.disk.boot_filesystem == model::boot_filesystem_of(w.config.disk.filesystem),
        w.config.disk.encryption <==> w.config.disk.encryption_password is Some,
        w.config.disk.integrity ==> w.config.disk.encryption,
        w.config.disk.boot_encryption ==> w.config.disk.encryption,
        w.config.disk.use_subvolumes == (w.config.disk.filesystem == Filesystem::Btrfs),
        w.config.recovery_problem(w.config.disk.partitions@, false) is None,
        w.config.own_encryption_problem() is None,
        w.config.session_problem() is None,
        w.config.hibernation_problem() is None,
        w.config.network.backend != NetworkBackend::Iwd || w.config.packages.install_yay
            ==> w.config.package_problem() is None,
        w.config.packages.immutable_root ==> w.config.btrfs_backend() || w.config.lvm_ab_backend(),
        !(w.config.btrfs_backend() && w.config.lvm_ab_backend()),
        w.config.network.wifi_password is Some ==> w.config.network.wifi_ssid is Some,
{
    let p = w.config.disk.partitions@;
    soundness::partition_rules_pass_sound_lists(p);
    crate::index::lemma_first(p.len() as int, rules::own_encryption(p));
}

} // verus!
