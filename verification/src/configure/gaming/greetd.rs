//! Logging in through greetd, into the desktop or into switched sessions.
use vstd::prelude::*;

use crate::config::model::DeploymentConfig;
use crate::config::options::{DesktopEnvironment, InitSystem};
use crate::plan;
use crate::plan::{extend, make_dir, say, write_file, Act, Step};
use crate::text::{concat, Text};

verus! {

/// The command that starts a desktop.
pub open spec fn session_command(de: DesktopEnvironment) -> Text {
    match de {
        DesktopEnvironment::Kde => "dbus-launch startplasma-wayland"@,
        DesktopEnvironment::Gnome => "dbus-launch gnome-session"@,
        DesktopEnvironment::Xfce => "dbus-launch startxfce4"@,
        DesktopEnvironment::Headless => ""@,
    }
}

pub fn get_session_command(de: DesktopEnvironment) -> (r: &'static str)
    ensures
        r@ == session_command(de),
{
    match de {
        DesktopEnvironment::Kde => "dbus-launch startplasma-wayland",
        DesktopEnvironment::Gnome => "dbus-launch gnome-session",
        DesktopEnvironment::Xfce => "dbus-launch startxfce4",
        DesktopEnvironment::Headless => "",
    }
}

pub const GREETD_CONFIG_1: &'static str = r#"[terminal]
vt = 1

[default_session]
command = ""#;

pub const GREETD_CONFIG_2: &'static str = r#""
user = ""#;

/// The configuration of greetd: who is logged in, and what is started.
pub open spec fn greetd_config_text(session: Text, user: Text) -> Text {
    GREETD_CONFIG_1@ + session + GREETD_CONFIG_2@ + user + "\"\n"@
}

pub fn greetd_config(session: &str, user: &str) -> (r: String)
    ensures
        r@ == greetd_config_text(session@, user@),
{
    let mut s = GREETD_CONFIG_1.to_owned();
    s.push_str(session);
    s.push_str(GREETD_CONFIG_2);
    s.push_str(user);
    s.push_str("\"\n");
    s
}

/// greetd under s6, for which there is no package.
pub open spec fn write_greetd_s6_service_steps(install_root: Text) -> Seq<Act> {
    seq![
        Act::MakeDir(install_root + "/etc/s6/adminsv/greetd"@),
        Act::Write {
            path: install_root + "/etc/s6/adminsv/greetd/type"@,
            content: "longrun\n"@,
            mode: None,
        },
        Act::Write {
            path: install_root + "/etc/s6/adminsv/greetd/run"@,
            content: "#!/bin/sh\nexec 2>&1\nexec /usr/bin/greetd\n"@,
            mode: Some(0o755),
        },
    ]
}

fn write_greetd_s6_service(install_root: &str) -> (r: Vec<Step>)
    ensures
        plan::acts(r@) == write_greetd_s6_service_steps(install_root@),
{
    let mut steps: Vec<Step> = Vec::new();
    make_dir(&mut steps, concat(install_root, "/etc/s6/adminsv/greetd").as_str());
    write_file(
        &mut steps,
        concat(install_root, "/etc/s6/adminsv/greetd/type").as_str(),
        "longrun\n",
        None,
    );
    write_file(
        &mut steps,
        concat(install_root, "/etc/s6/adminsv/greetd/run").as_str(),
        "#!/bin/sh\nexec 2>&1\nexec /usr/bin/greetd\n",
        Some(0o755),
    );
    assert(plan::acts(steps@) =~= write_greetd_s6_service_steps(install_root@));
    steps
}

/// What greetd starts: the session manager where sessions are switched, else the
/// desktop.
pub open spec fn started(config: DeploymentConfig) -> Text {
    if config.packages.install_session_switching && config.packages.install_gaming {
        "deploytix-session-manager"@
    } else {
        session_command(config.desktop.environment)
    }
}

fn what_is_started(config: &DeploymentConfig) -> (r: &'static str)
    ensures
        r@ == started(*config),
{
    if config.packages.install_session_switching && config.packages.install_gaming {
        "deploytix-session-manager"
    } else {
        get_session_command(config.desktop.environment)
    }
}

/// Logging the user in when a target with a desktop starts.
pub open spec fn configure_greetd_steps(
    config: DeploymentConfig,
    install_root: Text,
    dry_run: bool,
) -> Seq<Act> {
    if config.desktop.environment != DesktopEnvironment::Headless {
        if dry_run {
            seq![
                Act::Say("  [dry-run] Would configure /etc/greetd/config.toml"@),
                Act::Say("    user: "@ + config.user.name@),
                Act::Say("    session: "@ + session_command(config.desktop.environment)),
            ] + (if config.system.init == InitSystem::S6 {
                seq![Act::Say("  [dry-run] Would write s6 service /etc/s6/adminsv/greetd/"@)]
            } else {
                seq![]
            })
        } else {
            seq![
                Act::MakeDir(install_root + "/etc/greetd"@),
                Act::Write {
                    path: install_root + "/etc/greetd/config.toml"@,
                    content: greetd_config_text(started(config), config.user.name@),
                    mode: None,
                },
            ] + (if config.system.init == InitSystem::S6 {
                write_greetd_s6_service_steps(install_root)
            } else {
                seq![]
            })
        }
    } else {
        seq![]
    }
}

pub fn configure_greetd(
    config: &DeploymentConfig,
    install_root: &str,
    dry_run: bool,
) -> (r: Vec<Step>)
    ensures
        plan::acts(r@) == configure_greetd_steps(*config, install_root@, dry_run),
{
    let mut steps: Vec<Step> = Vec::new();
    if config.desktop.environment != DesktopEnvironment::Headless {
        if dry_run {
            say(&mut steps, "  [dry-run] Would configure /etc/greetd/config.toml");
            say(&mut steps, concat("    user: ", config.user.name.as_str()).as_str());
            say(
                &mut steps,
                concat("    session: ", get_session_command(config.desktop.environment)).as_str(),
            );
            if config.system.init == InitSystem::S6 {
                say(&mut steps, "  [dry-run] Would write s6 service /etc/s6/adminsv/greetd/");
            }
        } else {
            make_dir(&mut steps, concat(install_root, "/etc/greetd").as_str());
            write_file(
                &mut steps,
                concat(install_root, "/etc/greetd/config.toml").as_str(),
                greetd_config(what_is_started(config), config.user.name.as_str()).as_str(),
                None,
            );
            if config.system.init == InitSystem::S6 {
                extend(&mut steps, write_greetd_s6_service(install_root));
            }
        }
    }
    assert(plan::acts(steps@) =~= configure_greetd_steps(*config, install_root@, dry_run));
    steps
}

} // verus!
