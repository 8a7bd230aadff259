use deploytix::config::model::DeploymentConfig;
use deploytix::configure::gaming::session_switching::{
    deploy_files, render_desktop_session, setup_session_switching, DesktopSession,
    SessionResources, DESKTOP_SESSION_DEST,
};
use deploytix::plan::Step;

const TEMPLATE: &str = "#!/bin/bash
for _candidate in \"@DEPLOYTIX_DESKTOP_CMD@\" @DEPLOYTIX_DESKTOP_FALLBACKS@; do
    exec $_candidate
done
_DE_PROCS=\"
@DEPLOYTIX_DE_PROCS@
\"
";

fn resources() -> SessionResources {
    SessionResources {
        session_manager: "manager".into(),
        session_select: "select".into(),
        return_to_gamemode: "return".into(),
        steam_gamescope_session: "gamescope".into(),
        gamescope_session_desktop: "desktop entry".into(),
        steamos_select_branch: "branch".into(),
        steamos_update: "update".into(),
        jupiter_biosupdate: "bios".into(),
        greetd_ipc: "ipc".into(),
        restart_greetd: "restart".into(),
        steam_login_check: "check".into(),
        steam_first_login: "first".into(),
        steam_first_login_desktop: "first entry".into(),
        greetd_pam: "pam".into(),
        greetd_greeter_pam: "greeter pam".into(),
        desktop_session_template: TEMPLATE.into(),
        networkmanager_polkit_rules: "rules".into(),
    }
}

fn session(command: &str, procs: &[&str]) -> DesktopSession {
    DesktopSession {
        command: command.into(),
        fallbacks: vec!["/usr/bin/fallback".into()],
        procs: procs.iter().map(|p| p.to_string()).collect(),
    }
}

fn kde() -> DesktopSession {
    session("startplasma-wayland", &["x:kwin_wayland", "x:plasmashell"])
}

fn gnome() -> DesktopSession {
    session("gnome-session", &["x:gnome-shell"])
}

fn xfce() -> DesktopSession {
    session("startxfce4", &["x:xfwm4"])
}

fn written(steps: &[Step], wanted: &str) -> Option<(String, Option<u32>)> {
    steps.iter().find_map(|s| match s {
        Step::Write { path, content, mode } if path == wanted => Some((content.clone(), *mode)),
        _ => None,
    })
}

#[test]
fn no_destination_is_both_deployed_and_generated() {
    assert!(
        !deploy_files().iter().any(|d| d.dest == DESKTOP_SESSION_DEST),
        "{DESKTOP_SESSION_DEST} is written by both manifests; exactly one may own it"
    );
}

#[test]
fn desktop_session_is_installed_rendered_for_the_chosen_desktop() {
    let config = DeploymentConfig::sample();
    let steps = setup_session_switching(&config, &resources(), &Some(gnome()), "/mnt");
    let (content, mode) =
        written(&steps, "/mnt/usr/local/bin/desktop-session").expect("a session");
    assert_eq!(
        content,
        render_desktop_session(TEMPLATE, &gnome()),
        "the installed file must be the rendering for the configured desktop"
    );
    assert!(
        !content.contains("@DEPLOYTIX_"),
        "no placeholder may survive into the installed file"
    );
    assert!(content.contains("gnome-session"), "GNOME should launch GNOME");
    assert_ne!(
        content, TEMPLATE,
        "the template itself must never be what gets deployed"
    );
    assert_eq!(mode, Some(0o755), "greetd has to be able to exec it");
}

#[test]
fn headless_deployment_installs_no_desktop_session() {
    let config = DeploymentConfig::sample();
    let steps = setup_session_switching(&config, &resources(), &None, "/mnt");
    assert!(written(&steps, "/mnt/usr/local/bin/desktop-session").is_none());
}

#[test]
fn headless_config_renders_no_desktop_session() {
    let config = DeploymentConfig::sample();
    let steps = setup_session_switching(&config, &resources(), &None, "/mnt");
    assert!(!steps.iter().any(|s| matches!(s,
        Step::Write { content, .. } if content.contains("_DE_PROCS"))));
}

#[test]
fn steamos_session_select_is_symlinked() {
    let steps =
        setup_session_switching(&DeploymentConfig::sample(), &resources(), &Some(kde()), "/mnt");
    let target = steps
        .iter()
        .find_map(|s| match s {
            Step::Relink { target, path } | Step::Link { target, path }
                if path == "/mnt/usr/bin/steamos-session-select" =>
            {
                Some(target.as_str())
            }
            _ => None,
        })
        .expect("a link");
    assert_eq!(target, "session-select");
}

#[test]
fn desktop_session_rendered_per_desktop_environment() {
    for (de, cmd) in [
        (kde(), "startplasma-wayland"),
        (gnome(), "gnome-session"),
        (xfce(), "startxfce4"),
    ] {
        let rendered = render_desktop_session(TEMPLATE, &de);
        assert!(
            rendered.contains(&format!("for _candidate in \"{}\"", cmd)),
            "{:?} should launch {}",
            de,
            cmd
        );
        assert!(rendered.contains("x:wireplumber"));
    }
}

#[test]
fn rendered_desktop_session_leaves_no_placeholders() {
    for de in [kde(), gnome(), xfce()] {
        let rendered = render_desktop_session(TEMPLATE, &de);
        assert!(
            !rendered.contains("@DEPLOYTIX_"),
            "{:?} left an unsubstituted placeholder",
            de
        );
    }
}

#[test]
fn the_rendered_script_has_no_bare_teardown_entries() {
    for de in [kde(), gnome(), xfce()] {
        let rendered = render_desktop_session(TEMPLATE, &de);
        let mut in_procs = false;
        for (n, line) in rendered.lines().enumerate() {
            let code = line.trim();
            if code.starts_with("_DE_PROCS=") {
                in_procs = true;
            }
            if in_procs {
                if code.ends_with('"') && !code.starts_with("_DE_PROCS=") {
                    in_procs = false;
                }
                continue;
            }
            if code.starts_with('#') || code.is_empty() {
                continue;
            }
            assert!(
                !(code.starts_with("x:") || code.starts_with("f:")),
                "{de:?} line {} is a teardown entry loose in the script: {code}",
                n + 1
            );
        }
    }
}

#[test]
fn the_wrapper_exports_no_xdg_session_variables() {
    for de in [kde(), gnome(), xfce()] {
        let rendered = render_desktop_session(TEMPLATE, &de);
        for line in rendered.lines() {
            let code = line.trim();
            if code.starts_with('#') {
                continue;
            }
            for var in [
                "XDG_SESSION_TYPE",
                "XDG_CURRENT_DESKTOP",
                "XDG_SESSION_DESKTOP",
            ] {
                assert!(
                    !code.contains(&format!("{var}=")) && !code.contains(&format!("export {var}")),
                    "{de:?} exports {var}, which is what broke the desktop switch: {code}"
                );
            }
        }
    }
}

#[test]
fn desktop_session_teardown_is_desktop_specific() {
    let kde = render_desktop_session(TEMPLATE, &kde());
    let gnome = render_desktop_session(TEMPLATE, &gnome());
    assert!(kde.contains("x:kwin_wayland") && !kde.contains("x:gnome-shell"));
    assert!(gnome.contains("x:gnome-shell") && !gnome.contains("x:kwin_wayland"));
}

#[test]
fn rendering_is_idempotent() {
    let once = render_desktop_session(TEMPLATE, &kde());
    let twice = render_desktop_session(TEMPLATE, &kde());
    assert_eq!(once, twice);
}

#[test]
fn every_file_is_deployed_with_its_permissions() {
    let steps =
        setup_session_switching(&DeploymentConfig::sample(), &resources(), &Some(kde()), "/mnt");
    for f in deploy_files() {
        let (_, mode) = written(&steps, &format!("/mnt/{}", f.dest)).expect("a file");
        assert_eq!(mode, Some(f.mode), "{}", f.dest);
    }
}
