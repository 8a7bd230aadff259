//! What the rules amount to: the configurations that pass, described without
//! the order in which the rules are checked.
use vstd::prelude::*;

use crate::text;
use crate::index;
use crate::config::rules;
use crate::config::model::{CustomPartitionEntry, DeploymentConfig};
use crate::config::options::{
    DesktopEnvironment, DisplayManager, Filesystem, NetworkBackend, SecureBootMethod, SwapType,
};

verus! {

/// A usable list of partitions: one root, absolute mount points that are free
/// and differ, and at most one partition that takes what is left.
pub open spec fn sound_partitions(p: Seq<CustomPartitionEntry>) -> bool {
    &&& exists|i: int| 0 <= i < p.len() && #[trigger] p[i].mount_point@ == "/"@
    &&& forall|i: int| 0 <= i < p.len() ==> text::begins(#[trigger] p[i].mount_point@, "/"@)
    &&& forall|i: int|
        0 <= i < p.len() ==> #[trigger] p[i].mount_point@ != "/boot"@ && p[i].mount_point@
            != "/boot/efi"@
    &&& forall|i: int, j: int|
        0 <= j < i < p.len() ==> #[trigger] p[i].mount_point@ != #[trigger] p[j].mount_point@
    &&& forall|i: int, j: int|
        0 <= j < i < p.len() ==> !(#[trigger] p[i].size_mib == 0 && #[trigger] p[j].size_mib == 0)
}

/// A configuration that can be deployed.
pub open spec fn sound(c: DeploymentConfig, home_keyfile_is_file: bool) -> bool {
    let d = c.disk;
    let k = c.packages;
    let p = d.partitions@;
    // The account.
    &&& c.user.name@.len() > 0
    &&& !c.user.name@.contains(' ')
    &&& c.user.password@.len() > 0
    // The disk.
    &&& d.encryption ==> d.encryption_password is Some
    &&& d.use_subvolumes ==> d.filesystem == Filesystem::Btrfs
    &&& d.use_lvm_thin ==> d.filesystem != Filesystem::Zfs
    &&& k.install_tkg_kernel ==> d.filesystem != Filesystem::Zfs && d.boot_filesystem
        != Filesystem::Zfs
    &&& d.boot_encryption ==> d.encryption && d.boot_filesystem != Filesystem::Zfs
    &&& d.integrity ==> d.encryption
    &&& 1 <= d.lvm_thin_pool_percent <= 100
    &&& d.swap_type == SwapType::FileZram ==> d.filesystem == Filesystem::Btrfs || d.filesystem
        == Filesystem::Ext4
    &&& c.system.secureboot && c.system.secureboot_method == SecureBootMethod::ManualKeys
        ==> c.system.secureboot_keys_path is Some
    &&& sound_partitions(p)
    &&& forall|i: int| 0 <= i < p.len() && #[trigger] p[i].encryption == Some(true) ==> d.encryption
    // Keeping a home.
    &&& d.recovery.reuse_home ==> {
        &&& exists|i: int| 0 <= i < p.len() && #[trigger] p[i].mount_point@ == "/home"@
        &&& !d.use_lvm_thin
        &&& d.encryption ==> d.recovery.home_keyfile is Some || d.recovery.allow_passphrase_fallback
        &&& d.recovery.home_keyfile is Some ==> home_keyfile_is_file
    }
    &&& d.recovery.home_keyfile is Some ==> d.recovery.reuse_home
    // Sessions and network.
    &&& k.install_session_switching ==> {
        &&& k.install_gaming
        &&& c.desktop.environment != DesktopEnvironment::Headless
        &&& c.desktop.display_manager == DisplayManager::Greetd
        &&& c.network.backend != NetworkBackend::Iwd
    }
    &&& c.network.wifi_ssid matches Some(s) ==> {
        &&& 1 <= vstd::utf8::encode_utf8(s@).len() <= 32
        &&& !s@.contains('/')
        &&& forall|i: int| 0 <= i < s@.len() ==> !rules::control(#[trigger] s@[i])
    }
    &&& c.network.wifi_password matches Some(w) ==> {
        &&& c.network.wifi_ssid is Some
        &&& 8 <= vstd::utf8::encode_utf8(w@).len() <= 63
    }
    // Packages.
    &&& c.network.backend == NetworkBackend::Iwd ==> k.install_yay
    &&& k.install_zen_browser ==> k.install_yay
    &&& k.install_hhd ==> k.install_yay
    &&& k.install_evdevhook2 ==> k.install_yay
    &&& k.steam_prefetch_client ==> k.install_gaming
    &&& k.install_decky_loader ==> k.install_gaming && k.install_yay
    &&& k.extra_packages.aur@.len() > 0 ==> k.install_yay
    &&& k.install_btrfs_tools ==> k.install_yay && d.filesystem == Filesystem::Btrfs
    &&& k.install_grub_btrfs ==> d.filesystem == Filesystem::Btrfs && d.use_subvolumes
        && !d.use_lvm_thin
    // The immutable root and hibernation.
    &&& k.immutable_root ==> k.install_grub_btrfs || d.use_lvm_thin
    &&& !(c.lvm_ab_backend() && c.system.secureboot && c.system.secureboot_method
        == SecureBootMethod::Sbctl && d.encryption)
    &&& c.system.hibernation ==> d.swap_type != SwapType::ZramOnly
}

/// The partition rules pass exactly the sound lists.
pub proof fn partition_rules_pass_sound_lists(p: Seq<CustomPartitionEntry>)
    ensures
        rules::partition_problem(p) is None <==> sound_partitions(p),
{
    let n = p.len() as int;
    let root = rules::mounted_at(p, "/"@);
    index::lemma_first(n, rules::not_absolute(p));
    index::lemma_first(n, rules::reserved(p));
    index::lemma_first(n, rules::repeated(p));
    index::lemma_count_bounds(n, root);
    index::lemma_count_bounds(n, rules::remainder(p));
    if rules::partition_problem(p) is None {
        let i = choose|i: int| 0 <= i < n && #[trigger] root(i);
        assert(p[i].mount_point@ == "/"@);
        assert forall|i: int| 0 <= i < n implies text::begins(#[trigger] p[i].mount_point@, "/"@) by {
            assert(!rules::not_absolute(p)(i));
        }
        assert forall|i: int| 0 <= i < n implies #[trigger] p[i].mount_point@ != "/boot"@
            && p[i].mount_point@ != "/boot/efi"@ by {
            assert(!rules::reserved(p)(i));
        }
        assert forall|i: int, j: int| 0 <= j < i < n implies #[trigger] p[i].mount_point@
            != #[trigger] p[j].mount_point@ by {
            assert(!rules::repeated(p)(i));
        }
        assert forall|i: int, j: int| 0 <= j < i < n implies !(#[trigger] p[i].size_mib == 0
            && #[trigger] p[j].size_mib == 0) by {
            if p[i].size_mib == 0 && p[j].size_mib == 0 {
                index::lemma_count_one(n, rules::remainder(p), i, j);
            }
        }
    }
    if sound_partitions(p) {
        let i = choose|i: int| 0 <= i < n && #[trigger] p[i].mount_point@ == "/"@;
        assert(root(i));
        assert forall|i: int, j: int|
            0 <= i < n && 0 <= j < n && #[trigger] root(i) && #[trigger] root(j) implies i == j by {
            if i < j {
                assert(p[j].mount_point@ != p[i].mount_point@);
            } else if j < i {
                assert(p[i].mount_point@ != p[j].mount_point@);
            }
        }
        index::lemma_count_at_most_one(n, root);
        if index::first(n, rules::not_absolute(p)) < n {
            assert(text::begins(p[index::first(n, rules::not_absolute(p))].mount_point@, "/"@));
        }
        if index::first(n, rules::reserved(p)) < n {
            assert(p[index::first(n, rules::reserved(p))].mount_point@ != "/boot"@);
        }
        if index::first(n, rules::repeated(p)) < n {
            let a = index::first(n, rules::repeated(p));
            let b = choose|b: int| 0 <= b < a && #[trigger] p[b].mount_point@ == p[a].mount_point@;
            assert(p[a].mount_point@ != p[b].mount_point@);
        }
        assert forall|i: int, j: int|
            0 <= i < n && 0 <= j < n && #[trigger] rules::remainder(p)(i) && #[trigger] rules::remainder(p)(
                j,
            ) implies i == j by {
            if i < j {
                assert(!(p[j].size_mib == 0 && p[i].size_mib == 0));
            } else if j < i {
                assert(!(p[i].size_mib == 0 && p[j].size_mib == 0));
            }
        }
        index::lemma_count_at_most_one(n, rules::remainder(p));
    }
}

/// The rules pass exactly the sound configurations: nothing that is refused
/// could be deployed, and nothing that passes breaks a rule.
pub proof fn rules_pass_sound_configurations(c: DeploymentConfig, home_keyfile_is_file: bool)
    ensures
        c.problem(home_keyfile_is_file) is None <==> sound(c, home_keyfile_is_file),
{
    let p = c.disk.partitions@;
    let n = p.len() as int;
    partition_rules_pass_sound_lists(p);
    index::lemma_first(n, rules::mounted_at(p, "/home"@));
    index::lemma_first(n, rules::own_encryption(p));
    let home = index::first(n, rules::mounted_at(p, "/home"@));
    if c.problem(home_keyfile_is_file) is None {
        if c.disk.recovery.reuse_home {
            assert(p[home].mount_point@ == "/home"@);
        }
        assert forall|i: int|
            0 <= i < p.len() && #[trigger] p[i].encryption == Some(true) implies c.disk.encryption by {
            if !c.disk.encryption {
                assert(!rules::own_encryption(p)(i));
            }
        }
    }
    if sound(c, home_keyfile_is_file) {
        if c.disk.recovery.reuse_home {
            let i = choose|i: int| 0 <= i < p.len() && #[trigger] p[i].mount_point@ == "/home"@;
            assert(rules::mounted_at(p, "/home"@)(i));
        }
        if index::first(n, rules::own_encryption(p)) < n {
            assert(p[index::first(n, rules::own_encryption(p))].encryption == Some(true));
        }
    }
}

/// The two backends of the immutable root exclude each other, and an immutable
/// root has one of them, in every configuration that passes.
pub proof fn immutable_root_has_one_backend(c: DeploymentConfig, home_keyfile_is_file: bool)
    requires
        c.problem(home_keyfile_is_file) is None,
    ensures
        !(c.btrfs_backend() && c.lvm_ab_backend()),
        c.packages.immutable_root ==> c.btrfs_backend() || c.lvm_ab_backend(),
{
}

/// The rule on the backends alone: an immutable root that passes it has exactly one.
pub proof fn backend_rule_wants_exactly_one(c: DeploymentConfig)
    requires
        c.immutable_problem() is None,
    ensures
        c.packages.immutable_root ==> c.btrfs_backend() != c.lvm_ab_backend(),
{
}

/// Of the host, the rules on the configuration itself depend only on the
/// keyfile, and on that only where a home is kept with one.
pub proof fn host_matters_for_keyfile_only(c: DeploymentConfig, a: bool, b: bool)
    ensures
        !(c.disk.recovery.reuse_home && c.disk.recovery.home_keyfile is Some) ==> c.problem(a)
            == c.problem(b),
        c.problem(false) is None ==> c.problem(true) is None,
{
}

} // verus!
