//! The display manager that the target starts with.
use vstd::prelude::*;

use crate::config::model::DeploymentConfig;
use crate::config::options::{DesktopEnvironment, DisplayManager};
use crate::configure::gaming::greetd;
use crate::configure::gaming::greetd::configure_greetd;
use crate::plan;
use crate::plan::{make_dir, say, write_file, Act, Step};
use crate::text::{concat, Text};

verus! {

/// The configuration of SDDM: users with ordinary numbers, and KDE's own theme.
pub open spec fn sddm_conf(de: DesktopEnvironment) -> Text {
    (if de == DesktopEnvironment::Kde {
        "[Theme]\nCurrent=breeze\n\n"@
    } else {
        ""@
    }) + "[Users]\nMaximumUid=60000\nMinimumUid=1000\n"@
}

fn sddm_conf_for(de: DesktopEnvironment) -> (r: String)
    ensures
        r@ == sddm_conf(de),
{
    let theme = if de == DesktopEnvironment::Kde {
        "[Theme]\nCurrent=breeze\n\n"
    } else {
        ""
    };
    concat(theme, "[Users]\nMaximumUid=60000\nMinimumUid=1000\n")
}

/// SDDM, which shows a login screen.
pub open spec fn configure_sddm_steps(
    config: DeploymentConfig,
    install_root: Text,
    dry_run: bool,
) -> Seq<Act> {
    if dry_run {
        seq![Act::Say("  [dry-run] Would write /etc/sddm.conf.d/deploytix.conf"@)]
    } else {
        seq![
            Act::MakeDir(install_root + "/etc/sddm.conf.d"@),
            Act::Write {
                path: install_root + "/etc/sddm.conf.d/deploytix.conf"@,
                content: sddm_conf(config.desktop.environment),
                mode: None,
            },
        ]
    }
}

fn configure_sddm(config: &DeploymentConfig, install_root: &str, dry_run: bool) -> (r: Vec<Step>)
    ensures
        plan::acts(r@) == configure_sddm_steps(*config, install_root@, dry_run),
{
    let mut steps: Vec<Step> = Vec::new();
    if dry_run {
        say(&mut steps, "  [dry-run] Would write /etc/sddm.conf.d/deploytix.conf");
    } else {
        make_dir(&mut steps, concat(install_root, "/etc/sddm.conf.d").as_str());
        write_file(
            &mut steps,
            concat(install_root, "/etc/sddm.conf.d/deploytix.conf").as_str(),
            sddm_conf_for(config.desktop.environment).as_str(),
            None,
        );
    }
    assert(plan::acts(steps@) =~= configure_sddm_steps(*config, install_root@, dry_run));
    steps
}

/// The display manager of a target with a desktop. GDM and LightDM need nothing,
/// and a target without one boots to a terminal.
pub open spec fn configure_display_manager_steps(
    config: DeploymentConfig,
    install_root: Text,
    dry_run: bool,
) -> Seq<Act> {
    if config.desktop.environment == DesktopEnvironment::Headless {
        seq![]
    } else {
        match config.desktop.display_manager {
            DisplayManager::Greetd => greetd::configure_greetd_steps(config, install_root, dry_run),
            DisplayManager::Sddm => configure_sddm_steps(config, install_root, dry_run),
            DisplayManager::Gdm => seq![],
            DisplayManager::Lightdm => seq![],
            DisplayManager::Tty => seq![],
        }
    }
}

pub fn configure_display_manager(
    config: &DeploymentConfig,
    install_root: &str,
    dry_run: bool,
) -> (r: Vec<Step>)
    ensures
        plan::acts(r@) == configure_display_manager_steps(*config, install_root@, dry_run),
{
    let none: Vec<Step> = Vec::new();
    assert(plan::acts(none@) =~= seq![]);
    if config.desktop.environment == DesktopEnvironment::Headless {
        return none;
    }
    match config.desktop.display_manager {
        DisplayManager::Greetd => configure_greetd(config, install_root, dry_run),
        DisplayManager::Sddm => configure_sddm(config, install_root, dry_run),
        DisplayManager::Gdm => none,
        DisplayManager::Lightdm => none,
        DisplayManager::Tty => none,
    }
}

} // verus!
