//! What the user meets when the target has started: who is logged in, into what, and what
//! keeps the games' own session as it was built.
use vstd::prelude::*;

use crate::config::model::DeploymentConfig;
use crate::config::options::{DesktopEnvironment, DisplayManager, InitSystem};
use crate::configure::display_manager;
use crate::configure::gamescope_update;
use crate::configure::gamescope_update::UpdateResources;
use crate::configure::gaming;
use crate::configure::greetd;
use crate::effects;
use crate::plan::Act;
use crate::text;
use crate::text::Text;

verus! {

/// The program that a desktop's session is.
pub open spec fn session_program(de: DesktopEnvironment) -> Text {
    match de {
        DesktopEnvironment::Kde => "startplasma-wayland"@,
        DesktopEnvironment::Gnome => "gnome-session"@,
        DesktopEnvironment::Xfce => "startxfce4"@,
        DesktopEnvironment::Headless => ""@,
    }
}

/// What the user is logged in to: the manager of sessions where games and switched sessions
/// were chosen, else the desktop, with a message bus.
pub open spec fn session_of(config: DeploymentConfig) -> Text {
    if config.packages.install_gaming && config.packages.install_session_switching {
        "deploytix-session-manager"@
    } else {
        "dbus-launch "@ + session_program(config.desktop.environment)
    }
}

/// The configuration logs the user in and starts the command.
pub open spec fn logs_in(content: Text, user: Text, command: Text) -> bool {
    &&& text::holds(content, "\n[default_session]\ncommand = \""@ + command + "\"\n"@)
    &&& text::ends(content, "\"\nuser = \""@ + user + "\"\n"@)
}

proof fn lemma_logs_in(session: Text, user: Text)
    ensures
        logs_in(gaming::greetd::greetd_config_text(session, user), user, session),
{
    reveal_strlit(r#"[terminal]
vt = 1

[default_session]
command = ""#);
    reveal_strlit(r#""
user = ""#);
    reveal_strlit("\"\n");
    reveal_strlit("\n[default_session]\ncommand = \"");
    reveal_strlit("\"\nuser = \"");
    reveal_strlit("[terminal]\nvt = 1\n");
    reveal_strlit("user = \"");
    let content = gaming::greetd::greetd_config_text(session, user);
    let first = "\n[default_session]\ncommand = \""@ + session + "\"\n"@;
    let before = "[terminal]\nvt = 1\n"@;
    let after = "user = \""@ + user + "\"\n"@;
    assert(content =~= before + first + after);
    effects::lemma_part(before, first, after);
    let last = "\"\nuser = \""@ + user + "\"\n"@;
    let head = gaming::greetd::GREETD_CONFIG_1@ + session;
    let none = Seq::<char>::empty();
    assert(content =~= head + last + none);
    effects::lemma_part(head, last, none);
}

proof fn lemma_session(de: DesktopEnvironment)
    requires
        de != DesktopEnvironment::Headless,
    ensures
        gaming::greetd::session_command(de) == "dbus-launch "@ + session_program(de),
{
    reveal_strlit("dbus-launch ");
    reveal_strlit("dbus-launch startplasma-wayland");
    reveal_strlit("dbus-launch gnome-session");
    reveal_strlit("dbus-launch startxfce4");
    reveal_strlit("startplasma-wayland");
    reveal_strlit("gnome-session");
    reveal_strlit("startxfce4");
    assert(gaming::greetd::session_command(de) =~= "dbus-launch "@ + session_program(de));
}

/// The user is logged in to the chosen desktop, with a message bus; where games and
/// switched sessions were chosen, to the manager of these. A target without a desktop has
/// nobody logged in.
pub proof fn user_is_logged_in(config: DeploymentConfig, root: Text)
    ensures
        ({
            let path = root + "/etc/greetd/config.toml"@;
            let de = config.desktop.environment;
            let user = config.user.name@;
            let plain = greetd::configure_greetd_steps(config, root, false);
            let switched = gaming::greetd::configure_greetd_steps(config, root, false);
            let desktop = "dbus-launch "@ + session_program(de);
            &&& if de == DesktopEnvironment::Headless {
                plain.len() == 0 && switched.len() == 0
            } else {
                &&& exists|content: Text|
                    #[trigger] effects::leaves(plain, path, content) && logs_in(
                        content,
                        user,
                        desktop,
                    )
                &&& exists|content: Text|
                    #[trigger] effects::leaves(switched, path, content) && logs_in(
                        content,
                        user,
                        session_of(config),
                    )
            }
        }),
{
    let path = root + "/etc/greetd/config.toml"@;
    let de = config.desktop.environment;
    let user = config.user.name@;
    if de != DesktopEnvironment::Headless {
        let plain = greetd::configure_greetd_steps(config, root, false);
        let switched = gaming::greetd::configure_greetd_steps(config, root, false);
        lemma_session(de);
        let a = gaming::greetd::session_command(de);
        let b = gaming::greetd::started(config);
        lemma_logs_in(a, user);
        lemma_logs_in(b, user);
        assert(effects::touches(plain[1], path));
        assert(effects::leaves(plain, path, gaming::greetd::greetd_config_text(a, user)));
        lemma_service_paths(root);
        assert(effects::touches(switched[1], path));
        assert(effects::leaves(switched, path, gaming::greetd::greetd_config_text(b, user)));
    }
}

proof fn lemma_service_paths(root: Text)
    ensures
        root + "/etc/greetd/config.toml"@ != root + "/etc/s6/adminsv/greetd/type"@,
        root + "/etc/greetd/config.toml"@ != root + "/etc/s6/adminsv/greetd/run"@,
        root + "/etc/s6/adminsv/greetd/run"@ != root + "/etc/s6/adminsv/greetd/type"@,
{
    reveal_strlit("/etc/greetd/config.toml");
    reveal_strlit("/etc/s6/adminsv/greetd/type");
    reveal_strlit("/etc/s6/adminsv/greetd/run");
    effects::lemma_paths_differ(
        root,
        "/etc/greetd/config.toml"@,
        "/etc/s6/adminsv/greetd/type"@,
    );
    effects::lemma_paths_differ(root, "/etc/greetd/config.toml"@, "/etc/s6/adminsv/greetd/run"@);
    effects::lemma_paths_differ(
        root,
        "/etc/s6/adminsv/greetd/run"@,
        "/etc/s6/adminsv/greetd/type"@,
    );
}

/// Under s6, for which greetd has no service of its own, there is one that runs greetd, kept
/// running and executable.
pub proof fn greeter_runs_under_s6(config: DeploymentConfig, root: Text)
    requires
        config.system.init == InitSystem::S6,
        config.desktop.environment != DesktopEnvironment::Headless,
    ensures
        ({
            let steps = gaming::greetd::configure_greetd_steps(config, root, false);
            let whole = greetd::create_greetd_s6_service_steps(config, root, false);
            let dir = root + "/etc/s6/adminsv/greetd"@;
            let own = root + "/etc/s6/sv/greetd"@;
            &&& effects::leaves(steps, dir + "/type"@, "longrun\n"@)
            &&& exists|content: Text|
                #[trigger] effects::leaves_with(steps, dir + "/run"@, content, 0o755)
                    && text::begins(content, "#!/bin/sh\n"@) && text::ends(
                    content,
                    "\nexec /usr/bin/greetd\n"@,
                )
            &&& effects::leaves(whole, own + "/type"@, "longrun\n"@)
            &&& effects::leaves(whole, own + "/dependencies.d/seatd"@, ""@)
            &&& exists|content: Text|
                #[trigger] effects::leaves(whole, own + "/run"@, content) && text::ends(
                    content,
                    "\nexec greetd\n"@,
                )
            &&& whole.contains(Act::SetMode { path: own + "/run"@, mode: 0o755 })
            &&& whole.contains(Act::SetMode { path: own + "/log/run"@, mode: 0o755 })
        }),
{
    let steps = gaming::greetd::configure_greetd_steps(config, root, false);
    let dir = root + "/etc/s6/adminsv/greetd"@;
    lemma_service_paths(root);
    reveal_strlit("/etc/s6/adminsv/greetd");
    reveal_strlit("/etc/s6/adminsv/greetd/type");
    reveal_strlit("/etc/s6/adminsv/greetd/run");
    reveal_strlit("/type");
    reveal_strlit("/run");
    assert(dir + "/type"@ =~= root + "/etc/s6/adminsv/greetd/type"@);
    assert(dir + "/run"@ =~= root + "/etc/s6/adminsv/greetd/run"@);
    let script = "#!/bin/sh\nexec 2>&1\nexec /usr/bin/greetd\n"@;
    assert(effects::touches(steps[3], dir + "/type"@));
    assert(effects::touches(steps[4], dir + "/run"@));
    assert(effects::leaves(steps, dir + "/type"@, "longrun\n"@));
    assert(effects::leaves_with(steps, dir + "/run"@, script, 0o755));
    reveal_strlit("#!/bin/sh\nexec 2>&1\nexec /usr/bin/greetd\n");
    reveal_strlit("#!/bin/sh\n");
    reveal_strlit("\nexec /usr/bin/greetd\n");
    assert(script.subrange(0, 10) =~= "#!/bin/sh\n"@);
    assert(script.subrange(script.len() - 22, script.len() as int)
        =~= "\nexec /usr/bin/greetd\n"@);
    lemma_whole_service(config, root);
}

proof fn lemma_run_text()
    ensures
        text::ends(greetd::RUN@, "\nexec greetd\n"@),
{
    reveal_strlit(r#"#!/bin/execlineb -P
fdmove -c 2 1
exec greetd
"#);
    reveal_strlit("\nexec greetd\n");
    assert(greetd::RUN@.subrange(33, 46) =~= "\nexec greetd\n"@);
}

proof fn lemma_whole_service(config: DeploymentConfig, root: Text)
    requires
        config.system.init == InitSystem::S6,
        config.desktop.environment != DesktopEnvironment::Headless,
    ensures
        ({
            let whole = greetd::create_greetd_s6_service_steps(config, root, false);
            let own = root + "/etc/s6/sv/greetd"@;
            &&& effects::leaves(whole, own + "/type"@, "longrun\n"@)
            &&& effects::leaves(whole, own + "/dependencies.d/seatd"@, ""@)
            &&& effects::leaves(whole, own + "/run"@, greetd::RUN@)
            &&& text::ends(greetd::RUN@, "\nexec greetd\n"@)
            &&& whole.contains(Act::SetMode { path: own + "/run"@, mode: 0o755 })
            &&& whole.contains(Act::SetMode { path: own + "/log/run"@, mode: 0o755 })
        }),
{
    let whole = greetd::create_greetd_s6_service_steps(config, root, false);
    let own = root + "/etc/s6/sv/greetd"@;
    lemma_run_text();
    reveal_strlit("/etc/s6/sv/greetd");
    reveal_strlit("/type");
    reveal_strlit("/etc/s6/sv/greetd/type");
    reveal_strlit("/run");
    reveal_strlit("/etc/s6/sv/greetd/run");
    reveal_strlit("/finish");
    reveal_strlit("/etc/s6/sv/greetd/finish");
    reveal_strlit("/notification-fd");
    reveal_strlit("/etc/s6/sv/greetd/notification-fd");
    reveal_strlit("/dependencies.d/seatd");
    reveal_strlit("/etc/s6/sv/greetd/dependencies.d/seatd");
    reveal_strlit("/log/type");
    reveal_strlit("/etc/s6/sv/greetd/log/type");
    reveal_strlit("/log/run");
    reveal_strlit("/etc/s6/sv/greetd/log/run");
    assert(own + "/type"@ =~= root + "/etc/s6/sv/greetd/type"@);
    assert(own + "/run"@ =~= root + "/etc/s6/sv/greetd/run"@);
    assert(own + "/finish"@ =~= root + "/etc/s6/sv/greetd/finish"@);
    assert(own + "/notification-fd"@ =~= root + "/etc/s6/sv/greetd/notification-fd"@);
    assert(own + "/dependencies.d/seatd"@ =~= root + "/etc/s6/sv/greetd/dependencies.d/seatd"@);
    assert(own + "/log/type"@ =~= root + "/etc/s6/sv/greetd/log/type"@);
    assert(own + "/log/run"@ =~= root + "/etc/s6/sv/greetd/log/run"@);
    let n = own.len();
    assert((own + "/type"@).len() == n + 5 && (own + "/run"@).len() == n + 4 && (own + "/finish"@).len() == n + 7 && (own + "/notification-fd"@).len() == n + 16 && (own + "/dependencies.d/seatd"@).len() == n + 21 && (own + "/log/type"@).len() == n + 9 && (own + "/log/run"@).len() == n + 8);
    assert(effects::touches(whole[2], own + "/type"@));
    assert(effects::touches(whole[3], own + "/run"@));
    assert(effects::touches(whole[6], own + "/dependencies.d/seatd"@));
    assert(effects::leaves(whole, own + "/type"@, "longrun\n"@));
    assert(effects::leaves(whole, own + "/run"@, greetd::RUN@));
    assert(effects::leaves(whole, own + "/dependencies.d/seatd"@, ""@));
    assert(whole[9] == (Act::SetMode { path: own + "/run"@, mode: 0o755 }));
    assert(whole[11] == (Act::SetMode { path: own + "/log/run"@, mode: 0o755 }));
}

/// The login screen of SDDM offers the people and not the services, in KDE's dress under KDE
/// alone; the others need no configuration, and greetd gets its own. Without a desktop
/// there is no login screen.
pub proof fn login_screen_suits_the_desktop(config: DeploymentConfig, root: Text)
    ensures
        ({
            let steps = display_manager::configure_display_manager_steps(config, root, false);
            let de = config.desktop.environment;
            let dm = config.desktop.display_manager;
            let path = root + "/etc/sddm.conf.d/deploytix.conf"@;
            &&& de == DesktopEnvironment::Headless ==> steps.len() == 0
            &&& dm == DisplayManager::Gdm || dm == DisplayManager::Lightdm || dm
                == DisplayManager::Tty ==> steps.len() == 0
            &&& de != DesktopEnvironment::Headless && dm == DisplayManager::Sddm
                ==> exists|content: Text|
                {
                    &&& #[trigger] effects::leaves(steps, path, content)
                    &&& text::ends(content, "[Users]\nMaximumUid=60000\nMinimumUid=1000\n"@)
                    &&& text::begins(content, "[Theme]\nCurrent=breeze\n"@) <==> de
                        == DesktopEnvironment::Kde
                }
            &&& de != DesktopEnvironment::Headless && dm == DisplayManager::Greetd
                ==> exists|content: Text|
                #[trigger] effects::leaves(steps, root + "/etc/greetd/config.toml"@, content)
                    && logs_in(content, config.user.name@, session_of(config))
        }),
{
    let steps = display_manager::configure_display_manager_steps(config, root, false);
    let de = config.desktop.environment;
    let path = root + "/etc/sddm.conf.d/deploytix.conf"@;
    user_is_logged_in(config, root);
    if de != DesktopEnvironment::Headless && config.desktop.display_manager
        == DisplayManager::Sddm {
        let content = display_manager::sddm_conf(de);
        assert(effects::touches(steps[1], path));
        assert(effects::leaves(steps, path, content));
        reveal_strlit("[Theme]\nCurrent=breeze\n\n");
        reveal_strlit("[Theme]\nCurrent=breeze\n");
        reveal_strlit("[Users]\nMaximumUid=60000\nMinimumUid=1000\n");
        reveal_strlit("");
        let users = "[Users]\nMaximumUid=60000\nMinimumUid=1000\n"@;
        assert(content.subrange(content.len() - users.len(), content.len() as int) =~= users);
        let theme = "[Theme]\nCurrent=breeze\n"@;
        if de == DesktopEnvironment::Kde {
            assert(content.subrange(0, theme.len() as int) =~= theme);
        } else {
            assert(content =~= users);
            assert(content[1] == 'U');
            assert(theme[1] == 'T');
            if text::begins(content, theme) {
                assert(content.subrange(0, theme.len() as int)[1] == content[1]);
            }
        }
    }
}

/// Where games were chosen, gamescope is rebuilt by the script and from the recipe that came
/// along, other builds are held back by pacman itself and by the guard, and scripts can be
/// executed; elsewhere nothing is done.
pub proof fn own_gamescope_is_kept(config: DeploymentConfig, resources: UpdateResources, root: Text)
    ensures
        ({
            let steps = gamescope_update::setup_gamescope_update_steps(
                config,
                resources,
                root,
                false,
            );
            &&& !config.packages.install_gaming ==> steps.len() == 0
            &&& config.packages.install_gaming ==> {
                &&& effects::leaves_with(
                    steps,
                    root + "/usr/bin/deploytix-update-gamescope"@,
                    resources.update_script@,
                    0o755,
                )
                &&& effects::leaves_with(
                    steps,
                    root + "/usr/share/deploytix/gamescope/PKGBUILD"@,
                    resources.pkgbuild@,
                    0o644,
                )
                &&& effects::leaves_with(
                    steps,
                    root + "/usr/share/deploytix/gamescope/gamescope-guard.sh"@,
                    resources.guard_script@,
                    0o755,
                )
                &&& effects::leaves_with(
                    steps,
                    root + "/usr/share/libalpm/hooks/deploytix-gamescope-guard.hook"@,
                    resources.guard_hook@,
                    0o644,
                )
                &&& effects::leaves_with(
                    steps,
                    root + "/usr/share/applications/deploytix-update-gamescope.desktop"@,
                    resources.desktop_entry@,
                    0o644,
                )
                &&& steps.last() matches Act::Chroot { root: r, command } && r == root && text::holds(
                    command,
                    "IgnorePkg = gamescope-git"@,
                ) && text::ends(command, " /etc/pacman.conf"@)
            }
        }),
{
    let steps = gamescope_update::setup_gamescope_update_steps(config, resources, root, false);
    if config.packages.install_gaming {
        lemma_ignored();
        reveal_strlit("/usr/bin/deploytix-update-gamescope");
        reveal_strlit("/usr/share/deploytix/gamescope/PKGBUILD");
        reveal_strlit("/usr/share/deploytix/gamescope/gamescope-guard.sh");
        reveal_strlit("/usr/share/libalpm/hooks/deploytix-gamescope-guard.hook");
        reveal_strlit("/usr/share/applications/deploytix-update-gamescope.desktop");
        let n = root.len();
        assert((root + "/usr/bin/deploytix-update-gamescope"@).len() == n + 35 && (root + "/usr/share/deploytix/gamescope/PKGBUILD"@).len() == n + 39 && (root + "/usr/share/deploytix/gamescope/gamescope-guard.sh"@).len() == n + 49 && (root + "/usr/share/libalpm/hooks/deploytix-gamescope-guard.hook"@).len() == n + 55 && (root + "/usr/share/applications/deploytix-update-gamescope.desktop"@).len() == n + 58);
        assert(effects::touches(steps[1], root + "/usr/bin/deploytix-update-gamescope"@));
        assert(effects::leaves_with(steps, root + "/usr/bin/deploytix-update-gamescope"@, resources.update_script@, 0o755));
        assert(effects::touches(steps[3], root + "/usr/share/deploytix/gamescope/PKGBUILD"@));
        assert(effects::leaves_with(steps, root + "/usr/share/deploytix/gamescope/PKGBUILD"@, resources.pkgbuild@, 0o644));
        assert(effects::touches(steps[5], root + "/usr/share/deploytix/gamescope/gamescope-guard.sh"@));
        assert(effects::leaves_with(steps, root + "/usr/share/deploytix/gamescope/gamescope-guard.sh"@, resources.guard_script@, 0o755));
        assert(effects::touches(steps[7], root + "/usr/share/libalpm/hooks/deploytix-gamescope-guard.hook"@));
        assert(effects::leaves_with(steps, root + "/usr/share/libalpm/hooks/deploytix-gamescope-guard.hook"@, resources.guard_hook@, 0o644));
        assert(effects::touches(steps[9], root + "/usr/share/applications/deploytix-update-gamescope.desktop"@));
        assert(effects::leaves_with(steps, root + "/usr/share/applications/deploytix-update-gamescope.desktop"@, resources.desktop_entry@, 0o644));
    }
}

proof fn lemma_ignored()
    ensures
        text::holds(gamescope_update::IGNORE_GAMESCOPE@, "IgnorePkg = gamescope-git"@),
        text::ends(gamescope_update::IGNORE_GAMESCOPE@, " /etc/pacman.conf"@),
{
    reveal_strlit("grep -q '^IgnorePkg *= *gamescope-git' /etc/pacman.conf || sed -i '/^\\[options\\]/a IgnorePkg = gamescope-git' /etc/pacman.conf");
    reveal_strlit("IgnorePkg = gamescope-git");
    assert(gamescope_update::IGNORE_GAMESCOPE@.subrange(83, 108) =~= "IgnorePkg = gamescope-git"@);
    assert(text::at(gamescope_update::IGNORE_GAMESCOPE@, 83, "IgnorePkg = gamescope-git"@));
    reveal_strlit(" /etc/pacman.conf");
    assert(gamescope_update::IGNORE_GAMESCOPE@.subrange(109, 126) =~= " /etc/pacman.conf"@);
}

} // verus!
