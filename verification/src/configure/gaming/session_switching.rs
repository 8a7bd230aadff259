//! Switching between gamescope and the desktop.
use vstd::prelude::*;

use crate::config::model::DeploymentConfig;
use crate::plan;
use crate::plan::{extend, make_dir, make_parent, relink, write_file, Act, Step};
use crate::text;
use crate::text::{concat, concat3, join, push_text, quote_each, replace, Text};

verus! {

/// The files that are deployed as they are, and the templates of those that are
/// made for the target.
#[derive(Debug, Clone)]
pub struct SessionResources {
    pub session_manager: String,
    pub session_select: String,
    pub return_to_gamemode: String,
    pub steam_gamescope_session: String,
    pub gamescope_session_desktop: String,
    pub steamos_select_branch: String,
    pub steamos_update: String,
    pub jupiter_biosupdate: String,
    pub greetd_ipc: String,
    pub restart_greetd: String,
    pub steam_login_check: String,
    pub steam_first_login: String,
    pub steam_first_login_desktop: String,
    pub greetd_pam: String,
    pub greetd_greeter_pam: String,
    pub desktop_session_template: String,
    pub networkmanager_polkit_rules: String,
}

/// Where a file goes, and its permissions.
#[derive(Debug, Clone)]
pub struct DeployFile {
    pub dest: String,
    pub mode: u32,
}

/// How a desktop is started and taken down.
#[derive(Debug, Clone)]
pub struct DesktopSession {
    pub command: String,
    pub fallbacks: Vec<String>,
    /// What is ended with the session.
    pub procs: Vec<String>,
}

/// Where the generated desktop session goes.
pub const DESKTOP_SESSION_DEST: &'static str = "usr/local/bin/desktop-session";

/// What is ended with any desktop session.
pub open spec fn common_teardown() -> Seq<Text> {
    seq!["f:Xwayland :"@, "x:pipewire"@, "x:pipewire-pulse"@, "x:wireplumber"@]
}

/// The script that runs a desktop session.
pub open spec fn rendered(template: Text, session: DesktopSession) -> Text {
    let fallbacks = text::joined(text::quoted(session.fallbacks.deep_view()), " "@);
    let procs = text::joined(session.procs.deep_view() + common_teardown(), "\n"@);
    text::replaced(
        text::replaced(
            text::replaced(template, "@DEPLOYTIX_DESKTOP_CMD@"@, session.command@),
            "@DEPLOYTIX_DESKTOP_FALLBACKS@"@,
            fallbacks,
        ),
        "@DEPLOYTIX_DE_PROCS@"@,
        procs,
    )
}

pub fn render_desktop_session(template: &str, session: &DesktopSession) -> (r: String)
    ensures
        r@ == rendered(template@, *session),
{
    let fallbacks = join(&quote_each(&session.fallbacks), " ");
    let mut procs: Vec<String> = Vec::new();
    let mut i: usize = 0;
    while i < session.procs.len()
        invariant
            i <= session.procs@.len(),
            procs.deep_view() == session.procs.deep_view().take(i as int),
        decreases session.procs.len() - i,
    {
        push_text(&mut procs, session.procs[i].as_str());
        i += 1;
        assert(procs.deep_view() =~= session.procs.deep_view().take(i as int));
    }
    push_text(&mut procs, "f:Xwayland :");
    push_text(&mut procs, "x:pipewire");
    push_text(&mut procs, "x:pipewire-pulse");
    push_text(&mut procs, "x:wireplumber");
    proof {
        assert(procs.deep_view() =~= session.procs.deep_view() + common_teardown());
        reveal_strlit("@DEPLOYTIX_DESKTOP_CMD@");
        reveal_strlit("@DEPLOYTIX_DESKTOP_FALLBACKS@");
        reveal_strlit("@DEPLOYTIX_DE_PROCS@");
    }
    let one = replace(template, "@DEPLOYTIX_DESKTOP_CMD@", session.command.as_str());
    let two = replace(one.as_str(), "@DEPLOYTIX_DESKTOP_FALLBACKS@", fallbacks.as_str());
    replace(two.as_str(), "@DEPLOYTIX_DE_PROCS@", join(&procs, "\n").as_str())
}

/// The files that are deployed as they are.
pub open spec fn deployed_files() -> Seq<(Text, u32)> {
    seq![
        ("usr/bin/deploytix-session-manager"@, 0o755),
        ("usr/bin/session-select"@, 0o755),
        ("usr/bin/return-to-gamemode"@, 0o755),
        ("usr/local/bin/steam-gamescope-session"@, 0o755),
        ("usr/share/wayland-sessions/gamescope-session.desktop"@, 0o644),
        ("usr/bin/steamos-select-branch"@, 0o755),
        ("usr/bin/steamos-update"@, 0o755),
        ("usr/bin/jupiter-biosupdate"@, 0o755),
        ("usr/bin/greetd-ipc"@, 0o755),
        ("usr/bin/deploytix-restart-greetd"@, 0o755),
        ("usr/bin/steam-login-check"@, 0o755),
        ("usr/bin/steam-first-login"@, 0o755),
        ("etc/xdg/autostart/deploytix-steam-first-login.desktop"@, 0o644),
        ("etc/pam.d/greetd"@, 0o644),
        ("etc/pam.d/greetd-greeter"@, 0o644),
    ]
}

/// A list of files as the contracts speak of it.
pub open spec fn destinations(v: Seq<DeployFile>) -> Seq<(Text, u32)> {
    v.map_values(|f: DeployFile| (f.dest@, f.mode))
}

fn add_file(v: &mut Vec<DeployFile>, dest: &str, mode: u32)
    ensures
        destinations(final(v)@) == destinations(old(v)@).push((dest@, mode)),
{
    v.push(DeployFile { dest: dest.to_owned(), mode });
    assert(destinations(v@) =~= destinations(old(v)@).push((dest@, mode)));
}

pub fn deploy_files() -> (r: Vec<DeployFile>)
    ensures
        destinations(r@) == deployed_files(),
{
    let mut v: Vec<DeployFile> = Vec::new();
    add_file(&mut v, "usr/bin/deploytix-session-manager", 0o755);
    add_file(&mut v, "usr/bin/session-select", 0o755);
    add_file(&mut v, "usr/bin/return-to-gamemode", 0o755);
    add_file(&mut v, "usr/local/bin/steam-gamescope-session", 0o755);
    add_file(&mut v, "usr/share/wayland-sessions/gamescope-session.desktop", 0o644);
    add_file(&mut v, "usr/bin/steamos-select-branch", 0o755);
    add_file(&mut v, "usr/bin/steamos-update", 0o755);
    add_file(&mut v, "usr/bin/jupiter-biosupdate", 0o755);
    add_file(&mut v, "usr/bin/greetd-ipc", 0o755);
    add_file(&mut v, "usr/bin/deploytix-restart-greetd", 0o755);
    add_file(&mut v, "usr/bin/steam-login-check", 0o755);
    add_file(&mut v, "usr/bin/steam-first-login", 0o755);
    add_file(&mut v, "etc/xdg/autostart/deploytix-steam-first-login.desktop", 0o644);
    add_file(&mut v, "etc/pam.d/greetd", 0o644);
    add_file(&mut v, "etc/pam.d/greetd-greeter", 0o644);
    assert(destinations(v@) =~= deployed_files());
    v
}

/// The contents of those files, in the same order.
pub open spec fn contents(resources: SessionResources) -> Seq<Text> {
    seq![
        resources.session_manager@,
        resources.session_select@,
        resources.return_to_gamemode@,
        resources.steam_gamescope_session@,
        resources.gamescope_session_desktop@,
        resources.steamos_select_branch@,
        resources.steamos_update@,
        resources.jupiter_biosupdate@,
        resources.greetd_ipc@,
        resources.restart_greetd@,
        resources.steam_login_check@,
        resources.steam_first_login@,
        resources.steam_first_login_desktop@,
        resources.greetd_pam@,
        resources.greetd_greeter_pam@,
    ]
}

fn contents_of(resources: &SessionResources) -> (r: Vec<String>)
    ensures
        r.deep_view() == contents(*resources),
{
    let mut v: Vec<String> = Vec::new();
    push_text(&mut v, resources.session_manager.as_str());
    push_text(&mut v, resources.session_select.as_str());
    push_text(&mut v, resources.return_to_gamemode.as_str());
    push_text(&mut v, resources.steam_gamescope_session.as_str());
    push_text(&mut v, resources.gamescope_session_desktop.as_str());
    push_text(&mut v, resources.steamos_select_branch.as_str());
    push_text(&mut v, resources.steamos_update.as_str());
    push_text(&mut v, resources.jupiter_biosupdate.as_str());
    push_text(&mut v, resources.greetd_ipc.as_str());
    push_text(&mut v, resources.restart_greetd.as_str());
    push_text(&mut v, resources.steam_login_check.as_str());
    push_text(&mut v, resources.steam_first_login.as_str());
    push_text(&mut v, resources.steam_first_login_desktop.as_str());
    push_text(&mut v, resources.greetd_pam.as_str());
    push_text(&mut v, resources.greetd_greeter_pam.as_str());
    assert(v.deep_view() =~= contents(*resources));
    v
}

/// Deploying one file.
pub open spec fn file_steps(install_root: Text, dest: Text, content: Text, mode: u32) -> Seq<Act> {
    seq![
        Act::MakeParent(install_root + "/"@ + dest),
        Act::Write { path: install_root + "/"@ + dest, content, mode: Some(mode) },
    ]
}

fn deploy(install_root: &str, dest: &str, content: &str, mode: u32) -> (r: Vec<Step>)
    ensures
        plan::acts(r@) == file_steps(install_root@, dest@, content@, mode),
{
    let mut steps: Vec<Step> = Vec::new();
    let path = concat3(install_root, "/", dest);
    make_parent(&mut steps, path.as_str());
    write_file(&mut steps, path.as_str(), content, Some(mode));
    assert(plan::acts(steps@) =~= file_steps(install_root@, dest@, content@, mode));
    steps
}

/// Deploying the first `n` files.
pub open spec fn files_steps(
    install_root: Text,
    files: Seq<(Text, u32)>,
    texts: Seq<Text>,
    n: int,
) -> Seq<Act>
    decreases n,
{
    if n <= 0 {
        seq![]
    } else {
        files_steps(install_root, files, texts, n - 1) + file_steps(
            install_root,
            files[n - 1].0,
            texts[n - 1],
            files[n - 1].1,
        )
    }
}

pub open spec fn polkit_path(install_root: Text) -> Text {
    install_root + "/etc/polkit-1/rules.d/50-deploytix-networkmanager.rules"@
}

/// Switching between gamescope and the desktop. `session` says how the desktop is
/// started; without a desktop there is none to switch to.
pub open spec fn setup_session_switching_steps(
    config: DeploymentConfig,
    resources: SessionResources,
    session: Option<DesktopSession>,
    install_root: Text,
) -> Seq<Act> {
    files_steps(
        install_root,
        deployed_files(),
        contents(resources),
        deployed_files().len() as int,
    ) + (match session {
        Some(s) => file_steps(
            install_root,
            DESKTOP_SESSION_DEST@,
            rendered(resources.desktop_session_template@, s),
            0o755,
        ),
        None => seq![],
    }) + seq![
        Act::MakeDir(install_root + "/etc/polkit-1/rules.d"@),
        Act::Write {
            path: polkit_path(install_root),
            content: text::replaced(
                resources.networkmanager_polkit_rules@,
                "@DEPLOYTIX_USER@"@,
                config.user.name@,
            ),
            mode: Some(0o644),
        },
        Act::Relink {
            target: "session-select"@,
            path: install_root + "/usr/bin/steamos-session-select"@,
        },
    ]
}

pub fn setup_session_switching(
    config: &DeploymentConfig,
    resources: &SessionResources,
    session: &Option<DesktopSession>,
    install_root: &str,
) -> (r: Vec<Step>)
    ensures
        plan::acts(r@) == setup_session_switching_steps(
            *config,
            *resources,
            *session,
            install_root@,
        ),
{
    let mut steps: Vec<Step> = Vec::new();
    let files = deploy_files();
    let texts = contents_of(resources);
    let ghost d = deployed_files();
    let ghost t = contents(*resources);
    assert(d.len() == files@.len()) by {
        assert(destinations(files@).len() == files@.len());
    }
    assert(t.len() == texts@.len());
    assert(plan::acts(steps@) =~= seq![]);
    let mut i: usize = 0;
    while i < files.len()
        invariant
            i <= files@.len(),
            files@.len() == texts@.len(),
            d == destinations(files@),
            t == texts.deep_view(),
            plan::acts(steps@) == files_steps(install_root@, d, t, i as int),
        decreases files.len() - i,
    {
        assert(d[i as int] == (files@[i as int].dest@, files@[i as int].mode));
        assert(t[i as int] == texts@[i as int]@);
        extend(
            &mut steps,
            deploy(install_root, files[i].dest.as_str(), texts[i].as_str(), files[i].mode),
        );
        i += 1;
    }
    if let Some(s) = session {
        let script = render_desktop_session(resources.desktop_session_template.as_str(), s);
        extend(&mut steps, deploy(install_root, DESKTOP_SESSION_DEST, script.as_str(), 0o755));
    }
    make_dir(&mut steps, concat(install_root, "/etc/polkit-1/rules.d").as_str());
    proof {
        reveal_strlit("@DEPLOYTIX_USER@");
    }
    let rules = replace(
        resources.networkmanager_polkit_rules.as_str(),
        "@DEPLOYTIX_USER@",
        config.user.name.as_str(),
    );
    write_file(
        &mut steps,
        concat(install_root, "/etc/polkit-1/rules.d/50-deploytix-networkmanager.rules").as_str(),
        rules.as_str(),
        Some(0o644),
    );
    relink(
        &mut steps,
        "session-select",
        concat(install_root, "/usr/bin/steamos-session-select").as_str(),
    );
    assert(plan::acts(steps@) =~= setup_session_switching_steps(
        *config,
        *resources,
        *session,
        install_root@,
    ));
    steps
}

// -------------------------------------------------------------------------- laws
/// The steps write a file of the target.
pub open spec fn writes(steps: Seq<Act>, path: Text, content: Text, mode: u32) -> bool {
    steps.contains(Act::Write { path, content, mode: Some(mode) })
}

proof fn lemma_file_written(root: Text, files: Seq<(Text, u32)>, texts: Seq<Text>, n: int, k: int)
    requires
        0 <= k < n,
    ensures
        writes(files_steps(root, files, texts, n), root + "/"@ + files[k].0, texts[k], files[k].1),
    decreases n,
{
    let all = files_steps(root, files, texts, n);
    let some = files_steps(root, files, texts, n - 1);
    let act = Act::Write { path: root + "/"@ + files[k].0, content: texts[k], mode: Some(files[k].1) };
    if k < n - 1 {
        lemma_file_written(root, files, texts, n - 1, k);
        let i = choose|i: int| 0 <= i < some.len() && some[i] == act;
        assert(all[i] == act);
    } else {
        assert(all[some.len() as int + 1] == act);
    }
}

/// Every part of the sessions comes to its own place: programs can be executed, and what
/// is only read cannot. The manager that the login starts is one of the programs, the switch
/// goes by the name that Steam calls as well, and the rules are made for the user.
pub proof fn sessions_are_in_place(
    config: DeploymentConfig,
    resources: SessionResources,
    session: Option<DesktopSession>,
    root: Text,
)
    ensures
        ({
            let steps = setup_session_switching_steps(config, resources, session, root);
            &&& writes(steps, root + "/usr/bin/deploytix-session-manager"@, resources.session_manager@, 0o755)
            &&& writes(steps, root + "/usr/bin/session-select"@, resources.session_select@, 0o755)
            &&& writes(steps, root + "/usr/bin/return-to-gamemode"@, resources.return_to_gamemode@, 0o755)
            &&& writes(steps, root + "/usr/local/bin/steam-gamescope-session"@, resources.steam_gamescope_session@, 0o755)
            &&& writes(steps, root + "/usr/share/wayland-sessions/gamescope-session.desktop"@, resources.gamescope_session_desktop@, 0o644)
            &&& writes(steps, root + "/usr/bin/steamos-select-branch"@, resources.steamos_select_branch@, 0o755)
            &&& writes(steps, root + "/usr/bin/steamos-update"@, resources.steamos_update@, 0o755)
            &&& writes(steps, root + "/usr/bin/jupiter-biosupdate"@, resources.jupiter_biosupdate@, 0o755)
            &&& writes(steps, root + "/usr/bin/greetd-ipc"@, resources.greetd_ipc@, 0o755)
            &&& writes(steps, root + "/usr/bin/deploytix-restart-greetd"@, resources.restart_greetd@, 0o755)
            &&& writes(steps, root + "/usr/bin/steam-login-check"@, resources.steam_login_check@, 0o755)
            &&& writes(steps, root + "/usr/bin/steam-first-login"@, resources.steam_first_login@, 0o755)
            &&& writes(steps, root + "/etc/xdg/autostart/deploytix-steam-first-login.desktop"@, resources.steam_first_login_desktop@, 0o644)
            &&& writes(steps, root + "/etc/pam.d/greetd"@, resources.greetd_pam@, 0o644)
            &&& writes(steps, root + "/etc/pam.d/greetd-greeter"@, resources.greetd_greeter_pam@, 0o644)
            &&& session matches Some(s) ==> writes(
                steps,
                root + "/usr/local/bin/desktop-session"@,
                rendered(resources.desktop_session_template@, s),
                0o755,
            )
            &&& steps.last() == (Act::Relink {
                target: "session-select"@,
                path: root + "/usr/bin/"@ + "steamos-session-select"@,
            })
            &&& text::holds(resources.networkmanager_polkit_rules@, "@DEPLOYTIX_USER@"@)
                ==> exists|rules: Text|
                #[trigger] writes(
                    steps,
                    root + "/etc/polkit-1/rules.d/50-deploytix-networkmanager.rules"@,
                    rules,
                    0o644,
                ) && text::holds(rules, config.user.name@)
        }),
{
    let steps = setup_session_switching_steps(config, resources, session, root);
    let files = deployed_files();
    let texts = contents(resources);
    let a = files_steps(root, files, texts, 15);
    assert(files.len() == 15);
    let rules = text::replaced(
        resources.networkmanager_polkit_rules@,
        "@DEPLOYTIX_USER@"@,
        config.user.name@,
    );
    let own = match session {
        Some(s) => file_steps(
            root,
            DESKTOP_SESSION_DEST@,
            rendered(resources.desktop_session_template@, s),
            0o755,
        ),
        None => seq![],
    };
    assert forall|k: int| 0 <= k < 15 implies writes(
        steps,
        root + "/"@ + (#[trigger] files[k]).0,
        texts[k],
        files[k].1,
    ) by {
        lemma_file_written(root, files, texts, 15, k);
        let act = Act::Write {
            path: root + "/"@ + files[k].0,
            content: texts[k],
            mode: Some(files[k].1),
        };
        let i = choose|i: int| 0 <= i < a.len() && a[i] == act;
        assert(steps[i] == act);
    }
    assert(root + "/"@ + files[0].0 == root + "/usr/bin/deploytix-session-manager"@) by {
        reveal_strlit("/");
        reveal_strlit("usr/bin/deploytix-session-manager");
        reveal_strlit("/usr/bin/deploytix-session-manager");
        assert(root + "/"@ + "usr/bin/deploytix-session-manager"@ =~= root + "/usr/bin/deploytix-session-manager"@);
    }
    assert(root + "/"@ + files[1].0 == root + "/usr/bin/session-select"@) by {
        reveal_strlit("/");
        reveal_strlit("usr/bin/session-select");
        reveal_strlit("/usr/bin/session-select");
        assert(root + "/"@ + "usr/bin/session-select"@ =~= root + "/usr/bin/session-select"@);
    }
    assert(root + "/"@ + files[2].0 == root + "/usr/bin/return-to-gamemode"@) by {
        reveal_strlit("/");
        reveal_strlit("usr/bin/return-to-gamemode");
        reveal_strlit("/usr/bin/return-to-gamemode");
        assert(root + "/"@ + "usr/bin/return-to-gamemode"@ =~= root + "/usr/bin/return-to-gamemode"@);
    }
    assert(root + "/"@ + files[3].0 == root + "/usr/local/bin/steam-gamescope-session"@) by {
        reveal_strlit("/");
        reveal_strlit("usr/local/bin/steam-gamescope-session");
        reveal_strlit("/usr/local/bin/steam-gamescope-session");
        assert(root + "/"@ + "usr/local/bin/steam-gamescope-session"@ =~= root + "/usr/local/bin/steam-gamescope-session"@);
    }
    assert(root + "/"@ + files[4].0 == root + "/usr/share/wayland-sessions/gamescope-session.desktop"@) by {
        reveal_strlit("/");
        reveal_strlit("usr/share/wayland-sessions/gamescope-session.desktop");
        reveal_strlit("/usr/share/wayland-sessions/gamescope-session.desktop");
        assert(root + "/"@ + "usr/share/wayland-sessions/gamescope-session.desktop"@ =~= root + "/usr/share/wayland-sessions/gamescope-session.desktop"@);
    }
    assert(root + "/"@ + files[5].0 == root + "/usr/bin/steamos-select-branch"@) by {
        reveal_strlit("/");
        reveal_strlit("usr/bin/steamos-select-branch");
        reveal_strlit("/usr/bin/steamos-select-branch");
        assert(root + "/"@ + "usr/bin/steamos-select-branch"@ =~= root + "/usr/bin/steamos-select-branch"@);
    }
    assert(root + "/"@ + files[6].0 == root + "/usr/bin/steamos-update"@) by {
        reveal_strlit("/");
        reveal_strlit("usr/bin/steamos-update");
        reveal_strlit("/usr/bin/steamos-update");
        assert(root + "/"@ + "usr/bin/steamos-update"@ =~= root + "/usr/bin/steamos-update"@);
    }
    assert(root + "/"@ + files[7].0 == root + "/usr/bin/jupiter-biosupdate"@) by {
        reveal_strlit("/");
        reveal_strlit("usr/bin/jupiter-biosupdate");
        reveal_strlit("/usr/bin/jupiter-biosupdate");
        assert(root + "/"@ + "usr/bin/jupiter-biosupdate"@ =~= root + "/usr/bin/jupiter-biosupdate"@);
    }
    assert(root + "/"@ + files[8].0 == root + "/usr/bin/greetd-ipc"@) by {
        reveal_strlit("/");
        reveal_strlit("usr/bin/greetd-ipc");
        reveal_strlit("/usr/bin/greetd-ipc");
        assert(root + "/"@ + "usr/bin/greetd-ipc"@ =~= root + "/usr/bin/greetd-ipc"@);
    }
    assert(root + "/"@ + files[9].0 == root + "/usr/bin/deploytix-restart-greetd"@) by {
        reveal_strlit("/");
        reveal_strlit("usr/bin/deploytix-restart-greetd");
        reveal_strlit("/usr/bin/deploytix-restart-greetd");
        assert(root + "/"@ + "usr/bin/deploytix-restart-greetd"@ =~= root + "/usr/bin/deploytix-restart-greetd"@);
    }
    assert(root + "/"@ + files[10].0 == root + "/usr/bin/steam-login-check"@) by {
        reveal_strlit("/");
        reveal_strlit("usr/bin/steam-login-check");
        reveal_strlit("/usr/bin/steam-login-check");
        assert(root + "/"@ + "usr/bin/steam-login-check"@ =~= root + "/usr/bin/steam-login-check"@);
    }
    assert(root + "/"@ + files[11].0 == root + "/usr/bin/steam-first-login"@) by {
        reveal_strlit("/");
        reveal_strlit("usr/bin/steam-first-login");
        reveal_strlit("/usr/bin/steam-first-login");
        assert(root + "/"@ + "usr/bin/steam-first-login"@ =~= root + "/usr/bin/steam-first-login"@);
    }
    assert(root + "/"@ + files[12].0 == root + "/etc/xdg/autostart/deploytix-steam-first-login.desktop"@) by {
        reveal_strlit("/");
        reveal_strlit("etc/xdg/autostart/deploytix-steam-first-login.desktop");
        reveal_strlit("/etc/xdg/autostart/deploytix-steam-first-login.desktop");
        assert(root + "/"@ + "etc/xdg/autostart/deploytix-steam-first-login.desktop"@ =~= root + "/etc/xdg/autostart/deploytix-steam-first-login.desktop"@);
    }
    assert(root + "/"@ + files[13].0 == root + "/etc/pam.d/greetd"@) by {
        reveal_strlit("/");
        reveal_strlit("etc/pam.d/greetd");
        reveal_strlit("/etc/pam.d/greetd");
        assert(root + "/"@ + "etc/pam.d/greetd"@ =~= root + "/etc/pam.d/greetd"@);
    }
    assert(root + "/"@ + files[14].0 == root + "/etc/pam.d/greetd-greeter"@) by {
        reveal_strlit("/");
        reveal_strlit("etc/pam.d/greetd-greeter");
        reveal_strlit("/etc/pam.d/greetd-greeter");
        assert(root + "/"@ + "etc/pam.d/greetd-greeter"@ =~= root + "/etc/pam.d/greetd-greeter"@);
    }
    let n = a.len() as int;
    if let Some(s) = session {
        reveal_strlit("/");
        reveal_strlit("usr/local/bin/desktop-session");
        reveal_strlit("/usr/local/bin/desktop-session");
        assert(root + "/"@ + "usr/local/bin/desktop-session"@ =~= root
            + "/usr/local/bin/desktop-session"@);
        assert(steps[n + 1] == own[1]);
    }
    assert(steps[n + own.len() as int + 1] == (Act::Write {
        path: polkit_path(root),
        content: rules,
        mode: Some(0o644),
    }));
    assert(writes(steps, polkit_path(root), rules, 0o644));
    assert(root + "/usr/bin/"@ + "steamos-session-select"@ =~= root
        + "/usr/bin/steamos-session-select"@) by {
        reveal_strlit("/usr/bin/");
        reveal_strlit("steamos-session-select");
        reveal_strlit("/usr/bin/steamos-session-select");
    }
    if text::holds(resources.networkmanager_polkit_rules@, "@DEPLOYTIX_USER@"@) {
        reveal_strlit("@DEPLOYTIX_USER@");
        text::lemma_replaced_holds(
            resources.networkmanager_polkit_rules@,
            "@DEPLOYTIX_USER@"@,
            config.user.name@,
        );
    }
}

} // verus!
