//! Updating gamescope without losing the options it is built with.
use vstd::prelude::*;

use crate::config::model::DeploymentConfig;
use crate::plan;
use crate::plan::{chroot, make_parent, say, write_file, Act, Step};
use crate::text::{concat, Text};

verus! {

/// The files of the utility.
#[derive(Debug, Clone)]
pub struct UpdateResources {
    /// The script that rebuilds gamescope.
    pub update_script: String,
    /// What it builds, always with the same options.
    pub pkgbuild: String,
    /// What refuses any other installation of gamescope.
    pub guard_script: String,
    /// The pacman hook that calls it.
    pub guard_hook: String,
    pub desktop_entry: String,
}

pub const IGNORE_GAMESCOPE: &'static str =
    "grep -q '^IgnorePkg *= *gamescope-git' /etc/pacman.conf || sed -i '/^\\[options\\]/a IgnorePkg = gamescope-git' /etc/pacman.conf";

/// Keeping the target's own build of gamescope: a utility that rebuilds it, and a
/// guard against any other build.
pub open spec fn setup_gamescope_update_steps(
    config: DeploymentConfig,
    resources: UpdateResources,
    install_root: Text,
    dry_run: bool,
) -> Seq<Act> {
    if config.packages.install_gaming {
        if dry_run {
            seq![
                Act::Say(
                    "  [dry-run] Would install /usr/bin/deploytix-update-gamescope (mode 755)"@,
                ),
                Act::Say(
                    "  [dry-run] Would install /usr/share/deploytix/gamescope/PKGBUILD (mode 644)"@,
                ),
                Act::Say(
                    "  [dry-run] Would install /usr/share/deploytix/gamescope/gamescope-guard.sh (mode 755)"@,
                ),
                Act::Say(
                    "  [dry-run] Would install /usr/share/libalpm/hooks/deploytix-gamescope-guard.hook (mode 644)"@,
                ),
                Act::Say(
                    "  [dry-run] Would install /usr/share/applications/deploytix-update-gamescope.desktop (mode 644)"@,
                ),
                Act::Say("  [dry-run] Would add 'IgnorePkg = gamescope-git' to /etc/pacman.conf"@),
            ]
        } else {
            seq![
                Act::MakeParent(install_root + "/usr/bin/deploytix-update-gamescope"@),
                Act::Write {
                    path: install_root + "/usr/bin/deploytix-update-gamescope"@,
                    content: resources.update_script@,
                    mode: Some(0o755),
                },
                Act::MakeParent(install_root + "/usr/share/deploytix/gamescope/PKGBUILD"@),
                Act::Write {
                    path: install_root + "/usr/share/deploytix/gamescope/PKGBUILD"@,
                    content: resources.pkgbuild@,
                    mode: Some(0o644),
                },
                Act::MakeParent(
                    install_root + "/usr/share/deploytix/gamescope/gamescope-guard.sh"@,
                ),
                Act::Write {
                    path: install_root + "/usr/share/deploytix/gamescope/gamescope-guard.sh"@,
                    content: resources.guard_script@,
                    mode: Some(0o755),
                },
                Act::MakeParent(
                    install_root + "/usr/share/libalpm/hooks/deploytix-gamescope-guard.hook"@,
                ),
                Act::Write {
                    path: install_root + "/usr/share/libalpm/hooks/deploytix-gamescope-guard.hook"@,
                    content: resources.guard_hook@,
                    mode: Some(0o644),
                },
                Act::MakeParent(
                    install_root + "/usr/share/applications/deploytix-update-gamescope.desktop"@,
                ),
                Act::Write {
                    path: install_root
                        + "/usr/share/applications/deploytix-update-gamescope.desktop"@,
                    content: resources.desktop_entry@,
                    mode: Some(0o644),
                },
                Act::Chroot { root: install_root, command: IGNORE_GAMESCOPE@ },
            ]
        }
    } else {
        seq![]
    }
}

pub fn setup_gamescope_update(
    config: &DeploymentConfig,
    resources: &UpdateResources,
    install_root: &str,
    dry_run: bool,
) -> (r: Vec<Step>)
    ensures
        plan::acts(r@) == setup_gamescope_update_steps(*config, *resources, install_root@, dry_run),
{
    let mut steps: Vec<Step> = Vec::new();
    if config.packages.install_gaming {
        if dry_run {
            say(
                &mut steps,
                "  [dry-run] Would install /usr/bin/deploytix-update-gamescope (mode 755)",
            );
            say(
                &mut steps,
                "  [dry-run] Would install /usr/share/deploytix/gamescope/PKGBUILD (mode 644)",
            );
            say(
                &mut steps,
                "  [dry-run] Would install /usr/share/deploytix/gamescope/gamescope-guard.sh (mode 755)",
            );
            say(
                &mut steps,
                "  [dry-run] Would install /usr/share/libalpm/hooks/deploytix-gamescope-guard.hook (mode 644)",
            );
            say(
                &mut steps,
                "  [dry-run] Would install /usr/share/applications/deploytix-update-gamescope.desktop (mode 644)",
            );
            say(
                &mut steps,
                "  [dry-run] Would add 'IgnorePkg = gamescope-git' to /etc/pacman.conf",
            );
        } else {
            make_parent(
                &mut steps,
                concat(install_root, "/usr/bin/deploytix-update-gamescope").as_str(),
            );
            write_file(
                &mut steps,
                concat(install_root, "/usr/bin/deploytix-update-gamescope").as_str(),
                resources.update_script.as_str(),
                Some(0o755),
            );
            make_parent(
                &mut steps,
                concat(install_root, "/usr/share/deploytix/gamescope/PKGBUILD").as_str(),
            );
            write_file(
                &mut steps,
                concat(install_root, "/usr/share/deploytix/gamescope/PKGBUILD").as_str(),
                resources.pkgbuild.as_str(),
                Some(0o644),
            );
            make_parent(
                &mut steps,
                concat(install_root, "/usr/share/deploytix/gamescope/gamescope-guard.sh").as_str(),
            );
            write_file(
                &mut steps,
                concat(install_root, "/usr/share/deploytix/gamescope/gamescope-guard.sh").as_str(),
                resources.guard_script.as_str(),
                Some(0o755),
            );
            make_parent(
                &mut steps,
                concat(
                    install_root,
                    "/usr/share/libalpm/hooks/deploytix-gamescope-guard.hook",
                ).as_str(),
            );
            write_file(
                &mut steps,
                concat(
                    install_root,
                    "/usr/share/libalpm/hooks/deploytix-gamescope-guard.hook",
                ).as_str(),
                resources.guard_hook.as_str(),
                Some(0o644),
            );
            make_parent(
                &mut steps,
                concat(
                    install_root,
                    "/usr/share/applications/deploytix-update-gamescope.desktop",
                ).as_str(),
            );
            write_file(
                &mut steps,
                concat(
                    install_root,
                    "/usr/share/applications/deploytix-update-gamescope.desktop",
                ).as_str(),
                resources.desktop_entry.as_str(),
                Some(0o644),
            );
            chroot(&mut steps, install_root, IGNORE_GAMESCOPE);
        }
    }
    assert(plan::acts(steps@) =~= setup_gamescope_update_steps(
        *config,
        *resources,
        install_root@,
        dry_run,
    ));
    steps
}

} // verus!
