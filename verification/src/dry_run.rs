//! A dry run changes nothing: whatever it is a dry run of, it prints lines and the
//! commands that would be run, and does nothing else.
use vstd::prelude::*;

use crate::aur;
use crate::aur::helper::AurHelper;
use crate::cleanup;
use crate::config::model::DeploymentConfig;
use crate::config::options::InitSystem;
use crate::configure;
use crate::configure::bootloader::{BootFacts, Route};
use crate::configure::encryption::{AdoptSpec, Credential, LuksContainer, LuksPartition};
use crate::configure::gamescope_update::UpdateResources;
use crate::configure::grub_btrfs::SnapshotFacts;
use crate::configure::handheld_quirks::QuirkDecision;
use crate::configure::hooks::Hook;
use crate::configure::services::ServiceFacts;
use crate::disk::{ComputedLayout, StorageNames};
use crate::plan;
use crate::plan::Act;
use crate::text::Text;

verus! {

/// Two harmless lists make a harmless list.
proof fn lemma_joined(a: Seq<Act>, b: Seq<Act>)
    requires
        plan::harmless(a),
        plan::harmless(b),
    ensures
        plan::harmless(a + b),
{
    assert forall|i: int| 0 <= i < (a + b).len() implies plan::harmless_act(#[trigger] (a + b)[i]) by {
        if i < a.len() {
            assert((a + b)[i] == a[i]);
        } else {
            assert((a + b)[i] == b[i - a.len()]);
        }
    }
}

/// A dry run of building AUR packages changes nothing.
pub proof fn dry_aur_build(helper: AurHelper, user: Text, packages: Seq<Text>, target: Text)
    ensures
        plan::harmless(aur::install::build_steps(helper, user, packages, target, true)),
{
}

/// A dry run of making room for builds changes nothing.
pub proof fn dry_build_root(target: Text, user: Text)
    ensures
        plan::harmless(aur::scratch::ensure_steps(target, user, true)),
{
}

/// A dry run of wiping a disk changes nothing.
pub proof fn dry_wipe(device: Text)
    ensures
        plan::harmless(cleanup::wipe_steps(device, true)),
{
}

/// A dry run of installing GRUB changes nothing.
pub proof fn dry_grub(
    config: DeploymentConfig,
    device: Text,
    layout: ComputedLayout,
    names: StorageNames,
    route: Route,
    install_root: Text,
    facts: BootFacts,
)
    ensures
        plan::harmless(
            configure::bootloader::grub_steps(
                config,
                device,
                layout,
                names,
                route,
                install_root,
                facts,
                true,
            ),
        ),
{
}

/// A dry run of running grub-install changes nothing.
pub proof fn dry_grub_install(
    config: DeploymentConfig,
    device: Text,
    install_root: Text,
    efivars_usable: bool,
)
    ensures
        plan::harmless(
            configure::bootloader::secure_install_steps(
                config,
                device,
                install_root,
                efivars_usable,
                true,
            ),
        ),
{
}

/// A dry run of entering a boot entry changes nothing.
pub proof fn dry_boot_entry(device: Text, partition: int, label: Text, efivars_usable: bool)
    ensures
        plan::harmless(
            configure::bootloader::entry_steps(device, partition, label, efivars_usable, true),
        ),
{
}

/// A dry run of writing the hook that reinstalls GRUB changes nothing.
pub proof fn dry_grub_hook(config: DeploymentConfig, device: Text, install_root: Text)
    ensures
        plan::harmless(configure::bootloader::reinstall_steps(config, device, install_root, true)),
{
}

/// A dry run of making GRUB and snapshots compatible changes nothing.
pub proof fn dry_grub_compat(
    config: DeploymentConfig,
    boot_luks_uuid: Option<Text>,
    install_root: Text,
)
    ensures
        plan::harmless(
            configure::bootloader::compat_steps(config, boot_luks_uuid, install_root, true),
        ),
{
}

/// A dry run of configuring the display manager changes nothing.
pub proof fn dry_display_manager(config: DeploymentConfig, install_root: Text)
    ensures
        plan::harmless(
            configure::display_manager::configure_display_manager_steps(config, install_root, true),
        ),
{
}

/// A dry run of creating a container changes nothing.
pub proof fn dry_luks_create(device: Text, mapper: Text, password: Text, integrity: bool)
    ensures
        plan::harmless(
            configure::encryption::create_steps(device, mapper, password, integrity, true),
        ),
{
}

/// A dry run of creating the container of the boot partition changes nothing.
pub proof fn dry_luks_boot(device: Text, mapper: Text, password: Text)
    ensures
        plan::harmless(configure::encryption::boot_steps(device, mapper, password, true)),
{
}

/// A dry run of opening a container that is kept changes nothing.
pub proof fn dry_luks_adopt(device: Text, mapper: Text, credential: Credential)
    ensures
        plan::harmless(configure::encryption::adopt_steps(device, mapper, credential, true)),
{
}

/// A dry run of setting up the containers of all volumes changes nothing.
pub proof fn dry_luks_volumes(
    device: Text,
    parts: Seq<LuksPartition>,
    active: Seq<Text>,
    adopt: Option<AdoptSpec>,
    password: Text,
    integrity: bool,
    n: int,
)
    ensures
        plan::harmless(
            configure::encryption::volumes_steps(
                device,
                parts,
                active,
                adopt,
                password,
                integrity,
                true,
                n,
            ),
        ),
    decreases n,
{
    if n > 0 {
        dry_luks_volumes(device, parts, active, adopt, password, integrity, n - 1);
        lemma_joined(
            configure::encryption::volumes_steps(
                device,
                parts,
                active,
                adopt,
                password,
                integrity,
                true,
                n - 1,
            ),
            configure::encryption::volume_steps(
                device,
                parts,
                active,
                adopt,
                password,
                integrity,
                true,
                n - 1,
            ),
        );
    }
}

/// A dry run of closing a container changes nothing.
pub proof fn dry_luks_close(mapper: Text)
    ensures
        plan::harmless(configure::encryption::close_steps(mapper, true)),
{
}

/// A dry run of closing all containers changes nothing.
pub proof fn dry_luks_close_all(containers: Seq<LuksContainer>, n: int)
    ensures
        plan::harmless(configure::encryption::close_all_steps(containers, true, n)),
    decreases containers.len() - n,
{
    if n < containers.len() {
        dry_luks_close_all(containers, n + 1);
        lemma_joined(
            configure::encryption::close_all_steps(containers, true, n + 1),
            configure::encryption::close_steps(containers[n].mapper_name@, true),
        );
    }
}

/// A dry run of setting up updates of gamescope changes nothing.
pub proof fn dry_gamescope_update(
    config: DeploymentConfig,
    resources: UpdateResources,
    install_root: Text,
)
    ensures
        plan::harmless(
            configure::gamescope_update::setup_gamescope_update_steps(
                config,
                resources,
                install_root,
                true,
            ),
        ),
{
}

/// A dry run of configuring greetd for gaming changes nothing.
pub proof fn dry_gaming_greetd(config: DeploymentConfig, install_root: Text)
    ensures
        plan::harmless(
            configure::gaming::greetd::configure_greetd_steps(config, install_root, true),
        ),
{
}

/// A dry run of encrypting the home directory changes nothing.
pub proof fn dry_encrypted_home(
    config: DeploymentConfig,
    fuse_conf: Text,
    mount_conf: Text,
    system_login: Text,
    install_root: Text,
)
    ensures
        plan::harmless(
            configure::gocryptfs::setup_encrypted_home_steps(
                config,
                fuse_conf,
                mount_conf,
                system_login,
                install_root,
                true,
            ),
        ),
{
}

/// A dry run of configuring greetd changes nothing.
pub proof fn dry_greetd(config: DeploymentConfig, install_root: Text)
    ensures
        plan::harmless(configure::greetd::configure_greetd_steps(config, install_root, true)),
{
}

/// A dry run of creating the service of greetd changes nothing.
pub proof fn dry_greetd_service(config: DeploymentConfig, install_root: Text)
    ensures
        plan::harmless(
            configure::greetd::create_greetd_s6_service_steps(config, install_root, true),
        ),
{
}

/// A dry run of asking for the packages of snapshots changes nothing.
pub proof fn dry_snapshot_packages(config: DeploymentConfig, install_root: Text)
    ensures
        plan::harmless(configure::grub_btrfs::request_steps(config, install_root, true)),
{
}

/// A dry run of setting up snapshots changes nothing.
pub proof fn dry_snapshots(
    config: DeploymentConfig,
    root_fs_device: Text,
    facts: SnapshotFacts,
    install_root: Text,
)
    ensures
        plan::harmless(
            configure::grub_btrfs::install_steps(config, root_fs_device, facts, install_root, true),
        ),
{
}

/// A dry run of installing the quirks of a handheld changes nothing.
pub proof fn dry_quirks(decision: QuirkDecision, install_root: Text)
    ensures
        plan::harmless(configure::handheld_quirks::quirk_steps(decision, install_root, true)),
{
}

/// A dry run of installing hooks changes nothing.
pub proof fn dry_hooks(hooks: Seq<Hook>, install_root: Text)
    ensures
        plan::harmless(configure::hooks::hook_steps(hooks, install_root, true)),
    decreases hooks.len(),
{
    if hooks.len() > 0 {
        dry_hooks(hooks.drop_last(), install_root);
        assert(configure::hooks::hook_steps(hooks.drop_last(), install_root, true)
            =~= configure::hooks::install_all(hooks.drop_last(), install_root, true));
        lemma_joined(
            configure::hooks::install_all(hooks.drop_last(), install_root, true),
            configure::hooks::install_one(hooks.last(), install_root, true),
        );
    }
    assert(configure::hooks::hook_steps(hooks, install_root, true)
        =~= configure::hooks::install_all(hooks, install_root, true));
}

/// A dry run of generating a keyfile changes nothing.
pub proof fn dry_keyfile(path: Text)
    ensures
        plan::harmless(configure::keyfiles::generate_steps(path, true)),
{
}

/// A dry run of adding a keyfile to a container changes nothing.
pub proof fn dry_key(device: Text, password: Text, keyfile: Text)
    ensures
        plan::harmless(configure::keyfiles::add_key_steps(device, password, keyfile, true)),
{
}

/// A dry run of setting up keyfiles changes nothing.
pub proof fn dry_keyfiles(
    containers: Seq<LuksContainer>,
    password: Text,
    install_root: Text,
    n: int,
)
    ensures
        plan::harmless(
            configure::keyfiles::keyfiles_steps(containers, password, install_root, true, n),
        ),
    decreases n,
{
    if n > 0 {
        dry_keyfiles(containers, password, install_root, n - 1);
        lemma_joined(
            configure::keyfiles::keyfiles_steps(containers, password, install_root, true, n - 1),
            configure::keyfiles::keyfile_steps(containers[n - 1], password, install_root, true),
        );
    }
}

/// A dry run of configuring the locale changes nothing.
pub proof fn dry_locale(config: DeploymentConfig, locale_gen: Text, install_root: Text)
    ensures
        plan::harmless(configure::locale::configure_steps(config, locale_gen, install_root, true)),
{
}

/// A dry run of configuring mkinitcpio changes nothing.
pub proof fn dry_mkinitcpio(config: DeploymentConfig, install_root: Text, conf_exists: bool)
    ensures
        plan::harmless(configure::mkinitcpio::conf_steps(config, install_root, conf_exists, true)),
{
}

/// A dry run of configuring the network changes nothing.
pub proof fn dry_network(config: DeploymentConfig, install_root: Text, uuid: Text)
    ensures
        plan::harmless(configure::network::network_steps(config, install_root, uuid, true)),
{
}

/// A dry run of installing GPU drivers changes nothing.
pub proof fn dry_gpu_drivers(config: DeploymentConfig, install_root: Text)
    ensures
        plan::harmless(configure::packages::install_gpu_drivers_steps(config, install_root, true)),
{
}

/// A dry run of installing Wine changes nothing.
pub proof fn dry_wine(config: DeploymentConfig, install_root: Text)
    ensures
        plan::harmless(
            configure::packages::install_wine_packages_steps(config, install_root, true),
        ),
{
}

/// A dry run of installing packages for gaming changes nothing.
pub proof fn dry_gaming(config: DeploymentConfig, install_root: Text)
    ensures
        plan::harmless(
            configure::packages::install_gaming_packages_steps(config, install_root, true),
        ),
{
}

/// A dry run of installing yay changes nothing.
pub proof fn dry_yay(config: DeploymentConfig, install_root: Text)
    ensures
        plan::harmless(configure::packages::install_yay_steps(config, install_root, true)),
{
}

/// A dry run of installing packages of the AUR changes nothing.
pub proof fn dry_aur_packages(config: DeploymentConfig, install_root: Text)
    ensures
        plan::harmless(configure::packages::install_aur_packages_steps(config, install_root, true)),
{
}

/// A dry run of installing the tools for btrfs changes nothing.
pub proof fn dry_btrfs_tools(config: DeploymentConfig, install_root: Text)
    ensures
        plan::harmless(configure::packages::install_btrfs_tools_steps(config, install_root, true)),
{
}

/// A dry run of installing autostart entries changes nothing.
pub proof fn dry_autostart(config: DeploymentConfig, audio_script: Text, install_root: Text)
    ensures
        plan::harmless(
            configure::packages::install_autostart_entries_steps(
                config,
                audio_script,
                install_root,
                true,
            ),
        ),
{
}

/// A dry run of tuning the kernel for gaming changes nothing.
pub proof fn dry_sysctl_gaming(config: DeploymentConfig, install_root: Text)
    ensures
        plan::harmless(
            configure::packages::install_sysctl_gaming_steps(config, install_root, true),
        ),
{
}

/// A dry run of tuning the network changes nothing.
pub proof fn dry_sysctl_network(config: DeploymentConfig, install_root: Text)
    ensures
        plan::harmless(
            configure::packages::install_sysctl_network_performance_steps(
                config,
                install_root,
                true,
            ),
        ),
{
}

/// A dry run of installing HHD changes nothing.
pub proof fn dry_hhd(config: DeploymentConfig, install_root: Text)
    ensures
        plan::harmless(configure::packages::install_hhd_steps(config, install_root, true)),
{
}

/// A dry run of installing Decky Loader changes nothing.
pub proof fn dry_decky(config: DeploymentConfig, install_root: Text)
    ensures
        plan::harmless(configure::packages::install_decky_loader_steps(config, install_root, true)),
{
}

/// A dry run of installing evdevhook2 changes nothing.
pub proof fn dry_evdevhook2(config: DeploymentConfig, install_root: Text)
    ensures
        plan::harmless(configure::packages::install_evdevhook2_steps(config, install_root, true)),
{
}

/// A dry run of adding the repositories of Arch changes nothing.
pub proof fn dry_arch_repos(conf: Text, mirrorlist_exists: bool, install_root: Text)
    ensures
        plan::harmless(
            configure::pacman::configure_arch_repos_steps(
                conf,
                mirrorlist_exists,
                install_root,
                true,
            ),
        ),
{
}

/// A dry run of setting up Secure Boot changes nothing.
pub proof fn dry_secureboot(config: DeploymentConfig, install_root: Text)
    ensures
        plan::harmless(configure::secureboot::secureboot_steps(config, install_root, true)),
{
}

/// A dry run of signing a binary changes nothing.
pub proof fn dry_sign(
    config: DeploymentConfig,
    binary_path: Text,
    install_root: Text,
    guard: Option<Text>,
)
    ensures
        plan::harmless(
            configure::secureboot::sign_steps(config, binary_path, install_root, guard, true),
        ),
{
}

/// A dry run of signing what boots changes nothing.
pub proof fn dry_sign_boot(config: DeploymentConfig, install_root: Text)
    ensures
        plan::harmless(configure::secureboot::sign_boot_steps(config, install_root, true)),
{
}

/// A dry run of installing the packages of services changes nothing.
pub proof fn dry_service_packages(config: DeploymentConfig, install_root: Text)
    ensures
        plan::harmless(configure::services::install_steps(config, install_root, true)),
{
}

/// A dry run of enabling services changes nothing.
pub proof fn dry_services(
    init: InitSystem,
    services: Seq<Text>,
    facts: Seq<ServiceFacts>,
    install_root: Text,
    n: int,
)
    ensures
        plan::harmless(
            configure::services::enable_all_steps(init, services, facts, install_root, true, n),
        ),
    decreases n,
{
    if n > 0 {
        dry_services(init, services, facts, install_root, n - 1);
        lemma_joined(
            configure::services::enable_all_steps(init, services, facts, install_root, true, n - 1),
            if services[n - 1] == "elogind"@ {
                seq![]
            } else {
                configure::services::enable_steps(init, services[n - 1], facts[n - 1], install_root, true)
            },
        );
    }
}

} // verus!
