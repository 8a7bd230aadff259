//! Logging in through greetd, straight into the desktop.
use vstd::prelude::*;

use crate::config::model::DeploymentConfig;
use crate::config::options::{DesktopEnvironment, InitSystem};
use crate::configure::gaming::greetd;
use crate::configure::gaming::greetd::{get_session_command, greetd_config};
use crate::plan;
use crate::plan::{make_dir, say, set_mode, write_file, Act, Step};
use crate::text::{concat, Text};

verus! {

/// Logging the user straight into the desktop.
pub open spec fn configure_greetd_steps(
    config: DeploymentConfig,
    install_root: Text,
    dry_run: bool,
) -> Seq<Act> {
    if config.desktop.environment != DesktopEnvironment::Headless {
        if dry_run {
            seq![
                Act::Say("  [dry-run] Would configure /etc/greetd/config.toml"@),
                Act::Say("    user: "@ + config.user.name@),
                Act::Say("    session: "@ + greetd::session_command(config.desktop.environment)),
            ]
        } else {
            seq![
                Act::MakeDir(install_root + "/etc/greetd"@),
                Act::Write {
                    path: install_root + "/etc/greetd/config.toml"@,
                    content: greetd::greetd_config_text(
                        greetd::session_command(config.desktop.environment),
                        config.user.name@,
                    ),
                    mode: None,
                },
            ]
        }
    } else {
        seq![]
    }
}

pub fn configure_greetd(
    config: &DeploymentConfig,
    install_root: &str,
    dry_run: bool,
) -> (r: Vec<Step>)
    ensures
        plan::acts(r@) == configure_greetd_steps(*config, install_root@, dry_run),
{
    let mut steps: Vec<Step> = Vec::new();
    if config.desktop.environment != DesktopEnvironment::Headless {
        if dry_run {
            say(&mut steps, "  [dry-run] Would configure /etc/greetd/config.toml");
            say(&mut steps, concat("    user: ", config.user.name.as_str()).as_str());
            say(
                &mut steps,
                concat("    session: ", get_session_command(config.desktop.environment)).as_str(),
            );
        } else {
            make_dir(&mut steps, concat(install_root, "/etc/greetd").as_str());
            write_file(
                &mut steps,
                concat(install_root, "/etc/greetd/config.toml").as_str(),
                greetd_config(
                    get_session_command(config.desktop.environment),
                    config.user.name.as_str(),
                ).as_str(),
                None,
            );
        }
    }
    assert(plan::acts(steps@) =~= configure_greetd_steps(*config, install_root@, dry_run));
    steps
}

/// Running greetd.
pub const RUN: &'static str = r#"#!/bin/execlineb -P
fdmove -c 2 1
exec greetd
"#;

/// After it has stopped.
pub const FINISH: &'static str = r#"#!/bin/execlineb -P
foreground { s6-sleep 1 }
"#;

/// Its log.
pub const LOG_RUN: &'static str = r#"#!/bin/execlineb -P
s6-log -b -- n20 s1000000 /var/log/greetd/
"#;

/// A complete service of greetd under s6: it waits for the seat manager, reports
/// when it is ready and keeps a log.
pub open spec fn create_greetd_s6_service_steps(
    config: DeploymentConfig,
    install_root: Text,
    dry_run: bool,
) -> Seq<Act> {
    if config.desktop.environment != DesktopEnvironment::Headless && config.system.init
        == InitSystem::S6 {
        if dry_run {
            seq![
                Act::Say("  [dry-run] Would create s6 service directory at /etc/s6/sv/greetd/"@),
                Act::Say("  [dry-run] Would create run, finish, type, notification-fd"@),
                Act::Say("  [dry-run] Would create dependencies.d/seatd"@),
                Act::Say("  [dry-run] Would create log/run, log/type"@),
            ]
        } else {
            seq![
                Act::MakeDir(install_root + "/etc/s6/sv/greetd/dependencies.d"@),
                Act::MakeDir(install_root + "/etc/s6/sv/greetd/log"@),
                Act::Write {
                    path: install_root + "/etc/s6/sv/greetd/type"@,
                    content: "longrun\n"@,
                    mode: None,
                },
                Act::Write {
                    path: install_root + "/etc/s6/sv/greetd/run"@,
                    content: RUN@,
                    mode: None,
                },
                Act::Write {
                    path: install_root + "/etc/s6/sv/greetd/finish"@,
                    content: FINISH@,
                    mode: None,
                },
                Act::Write {
                    path: install_root + "/etc/s6/sv/greetd/notification-fd"@,
                    content: "3\n"@,
                    mode: None,
                },
                Act::Write {
                    path: install_root + "/etc/s6/sv/greetd/dependencies.d/seatd"@,
                    content: ""@,
                    mode: None,
                },
                Act::Write {
                    path: install_root + "/etc/s6/sv/greetd/log/type"@,
                    content: "longrun\n"@,
                    mode: None,
                },
                Act::Write {
                    path: install_root + "/etc/s6/sv/greetd/log/run"@,
                    content: LOG_RUN@,
                    mode: None,
                },
                Act::SetMode { path: install_root + "/etc/s6/sv/greetd/run"@, mode: 0o755 },
                Act::SetMode { path: install_root + "/etc/s6/sv/greetd/finish"@, mode: 0o755 },
                Act::SetMode { path: install_root + "/etc/s6/sv/greetd/log/run"@, mode: 0o755 },
                Act::MakeDir(install_root + "/var/log/greetd"@),
            ]
        }
    } else {
        seq![]
    }
}

pub fn create_greetd_s6_service(
    config: &DeploymentConfig,
    install_root: &str,
    dry_run: bool,
) -> (r: Vec<Step>)
    ensures
        plan::acts(r@) == create_greetd_s6_service_steps(*config, install_root@, dry_run),
{
    let mut steps: Vec<Step> = Vec::new();
    if config.desktop.environment != DesktopEnvironment::Headless && config.system.init
        == InitSystem::S6 {
        if dry_run {
            say(&mut steps, "  [dry-run] Would create s6 service directory at /etc/s6/sv/greetd/");
            say(&mut steps, "  [dry-run] Would create run, finish, type, notification-fd");
            say(&mut steps, "  [dry-run] Would create dependencies.d/seatd");
            say(&mut steps, "  [dry-run] Would create log/run, log/type");
        } else {
            make_dir(&mut steps, concat(install_root, "/etc/s6/sv/greetd/dependencies.d").as_str());
            make_dir(&mut steps, concat(install_root, "/etc/s6/sv/greetd/log").as_str());
            write_file(
                &mut steps,
                concat(install_root, "/etc/s6/sv/greetd/type").as_str(),
                "longrun\n",
                None,
            );
            write_file(
                &mut steps,
                concat(install_root, "/etc/s6/sv/greetd/run").as_str(),
                RUN,
                None,
            );
            write_file(
                &mut steps,
                concat(install_root, "/etc/s6/sv/greetd/finish").as_str(),
                FINISH,
                None,
            );
            write_file(
                &mut steps,
                concat(install_root, "/etc/s6/sv/greetd/notification-fd").as_str(),
                "3\n",
                None,
            );
            write_file(
                &mut steps,
                concat(install_root, "/etc/s6/sv/greetd/dependencies.d/seatd").as_str(),
                "",
                None,
            );
            write_file(
                &mut steps,
                concat(install_root, "/etc/s6/sv/greetd/log/type").as_str(),
                "longrun\n",
                None,
            );
            write_file(
                &mut steps,
                concat(install_root, "/etc/s6/sv/greetd/log/run").as_str(),
                LOG_RUN,
                None,
            );
            set_mode(&mut steps, concat(install_root, "/etc/s6/sv/greetd/run").as_str(), 0o755);
            set_mode(&mut steps, concat(install_root, "/etc/s6/sv/greetd/finish").as_str(), 0o755);
            set_mode(&mut steps, concat(install_root, "/etc/s6/sv/greetd/log/run").as_str(), 0o755);
            make_dir(&mut steps, concat(install_root, "/var/log/greetd").as_str());
        }
    }
    assert(plan::acts(steps@) =~= create_greetd_s6_service_steps(*config, install_root@, dry_run));
    steps
}

} // verus!
