//! The services that start with the target, under each init system.
use vstd::prelude::*;

use crate::config::model::DeploymentConfig;
use crate::config::options::{DesktopEnvironment, DisplayManager, InitSystem, NetworkBackend};
use crate::configure::mkinitcpio;
use crate::effects;
use crate::plan;
use crate::plan::{chroot, extend, link, make_dir, pacman, say, Act, Step};
use crate::text;
use crate::text::{concat, concat3, join, push_text, same, Text};

verus! {

// ------------------------------------------------------------------------- the list
/// The services of the network.
pub open spec fn network_services(backend: NetworkBackend) -> Seq<Text> {
    match backend {
        NetworkBackend::Iwd => seq!["iwd"@],
        NetworkBackend::NetworkManager => seq!["NetworkManager"@, "iwd"@],
        NetworkBackend::NetworkManagerWpa => seq!["NetworkManager"@, "wpa_supplicant"@],
    }
}

/// The service of the display manager that was chosen, where one was.
pub open spec fn login_services(chosen: DisplayManager) -> Seq<Text> {
    match chosen.service() {
        Some(name) => seq![name],
        None => seq![],
    }
}

/// The services of a target: a seat manager for the desktop, the network, the
/// display manager that was chosen, and sessions where they are switched.
pub open spec fn service_list(config: DeploymentConfig) -> Seq<Text> {
    let desktop = config.desktop.environment != DesktopEnvironment::Headless;
    mkinitcpio::if_so(desktop, seq!["seatd"@]) + network_services(config.network.backend)
        + mkinitcpio::if_so(
        desktop,
        login_services(config.desktop.display_manager),
    ) + mkinitcpio::if_so(
        desktop && config.packages.install_session_switching,
        seq!["elogind"@],
    )
}

pub fn build_service_list(config: &DeploymentConfig) -> (r: Vec<String>)
    ensures
        r.deep_view() == service_list(*config),
{
    let desktop = config.desktop.environment != DesktopEnvironment::Headless;
    let mut services: Vec<String> = Vec::new();
    if desktop {
        push_text(&mut services, "seatd");
    }
    match config.network.backend {
        NetworkBackend::Iwd => {
            push_text(&mut services, "iwd");
        },
        NetworkBackend::NetworkManager => {
            push_text(&mut services, "NetworkManager");
            push_text(&mut services, "iwd");
        },
        NetworkBackend::NetworkManagerWpa => {
            push_text(&mut services, "NetworkManager");
            push_text(&mut services, "wpa_supplicant");
        },
    }
    if desktop {
        if let Some(name) = config.desktop.display_manager.service_name() {
            push_text(&mut services, name);
        }
    }
    if config.packages.install_session_switching && desktop {
        push_text(&mut services, "elogind");
    }
    assert(services.deep_view() =~= service_list(*config));
    services
}

// -------------------------------------------------------------------------- packages
/// The package that holds a service's program.
pub open spec fn base_package(service: Text) -> Text {
    if service == "NetworkManager"@ {
        "networkmanager"@
    } else {
        service
    }
}

pub fn service_base_package(service: &str) -> (r: String)
    ensures
        r@ == base_package(service@),
{
    if same(service, "NetworkManager") {
        "networkmanager".to_owned()
    } else {
        service.to_owned()
    }
}

/// A package holds the service's definition for the init system. There is none for
/// greetd under s6, and elogind's would clash with that of the seat manager.
pub open spec fn has_init_package(base: Text, init: InitSystem) -> bool {
    !(init == InitSystem::S6 && base == "greetd"@) && base != "elogind"@
}

/// The packages of one service.
pub open spec fn packages_of(service: Text, init: InitSystem) -> Seq<Text> {
    let base = base_package(service);
    seq![base] + mkinitcpio::if_so(
        has_init_package(base, init),
        seq![base + "-"@ + init.shown()],
    )
}

/// The packages of some services.
pub open spec fn service_packages(services: Seq<Text>, init: InitSystem) -> Seq<Text>
    decreases services.len(),
{
    if services.len() == 0 {
        seq![]
    } else {
        service_packages(services.drop_last(), init) + packages_of(services.last(), init)
    }
}

pub fn build_service_packages(services: &Vec<String>, init: InitSystem) -> (r: Vec<String>)
    ensures
        r.deep_view() == service_packages(services.deep_view(), init),
{
    let ghost d = services.deep_view();
    let mut packages: Vec<String> = Vec::new();
    assert(packages.deep_view() =~= service_packages(d.take(0), init));
    let mut i: usize = 0;
    while i < services.len()
        invariant
            i <= services@.len(),
            d == services.deep_view(),
            packages.deep_view() == service_packages(d.take(i as int), init),
        decreases services.len() - i,
    {
        let base = service_base_package(services[i].as_str());
        push_text(&mut packages, base.as_str());
        let greetd = same(base.as_str(), "greetd");
        let elogind = same(base.as_str(), "elogind");
        if !(init == InitSystem::S6 && greetd) && !elogind {
            push_text(
                &mut packages,
                concat3(base.as_str(), "-", init.to_text().as_str()).as_str(),
            );
        }
        proof {
            assert(d[i as int] == services@[i as int]@);
            assert(d.take(i + 1).drop_last() =~= d.take(i as int));
            assert(d.take(i + 1).last() == d[i as int]);
            assert(packages.deep_view() =~= service_packages(d.take(i + 1), init));
        }
        i += 1;
    }
    assert(d.take(i as int) =~= d);
    packages
}

/// Installing the packages of the services.
pub open spec fn install_steps(
    config: DeploymentConfig,
    install_root: Text,
    dry_run: bool,
) -> Seq<Act> {
    let list = text::joined(service_packages(service_list(config), config.system.init), " "@);
    if dry_run {
        seq![Act::Say("  [dry-run] Would install service packages: "@ + list)]
    } else {
        seq![
            Act::Pacman {
                root: install_root,
                command: "pacman -S --noconfirm --needed "@ + list,
            },
        ]
    }
}

/// Installs the packages of the services, before [`enable_services`].
pub fn install_service_packages(config: &DeploymentConfig, install_root: &str, dry_run: bool) -> (r:
    Vec<Step>)
    ensures
        plan::acts(r@) == install_steps(*config, install_root@, dry_run),
{
    let mut steps: Vec<Step> = Vec::new();
    let services = build_service_list(config);
    let list = join(&build_service_packages(&services, config.system.init), " ");
    if dry_run {
        say(
            &mut steps,
            concat("  [dry-run] Would install service packages: ", list.as_str()).as_str(),
        );
    } else {
        pacman(
            &mut steps,
            install_root,
            concat("pacman -S --noconfirm --needed ", list.as_str()).as_str(),
        );
    }
    assert(plan::acts(steps@) =~= install_steps(*config, install_root@, dry_run));
    steps
}

/// There is always a service, and so always a package to install.
pub proof fn some_service_starts(config: DeploymentConfig)
    ensures
        service_list(config).len() > 0,
        service_packages(service_list(config), config.system.init).len() > 0,
{
    let l = service_list(config);
    assert(l.len() > 0);
    assert(packages_of(l.last(), config.system.init).len() > 0);
}

/// On a desktop exactly the display manager that was chosen is started, and without one
/// none is.
pub proof fn chosen_display_manager_starts(config: DeploymentConfig, other: DisplayManager)
    requires
        other.service() is Some,
    ensures
        service_list(config).contains(other.service()->0) <==> config.desktop.environment
            != DesktopEnvironment::Headless && config.desktop.display_manager == other,
{
    let list = service_list(config);
    let name = other.service()->0;
    reveal_strlit("elogind");
    reveal_strlit("seatd");
    reveal_strlit("iwd");
    reveal_strlit("NetworkManager");
    reveal_strlit("wpa_supplicant");
    reveal_strlit("greetd");
    reveal_strlit("sddm");
    reveal_strlit("gdm");
    reveal_strlit("lightdm");
    assert("elogind"@[0] == 'e' && "lightdm"@[0] == 'l');
    assert("iwd"@[0] == 'i' && "gdm"@[0] == 'g');
    if config.desktop.environment != DesktopEnvironment::Headless
        && config.desktop.display_manager == other {
        let k = 1 + network_services(config.network.backend).len() as int;
        assert(list[k] == name);
    }
    if list.contains(name) {
        let k = choose|k: int| 0 <= k < list.len() && list[k] == name;
        assert(list[k] == name);
    }
}

/// The service package of elogind, which would clash with that of the seat manager, is
/// never installed.
pub proof fn seat_managers_do_not_clash(config: DeploymentConfig)
    ensures
        !service_packages(service_list(config), config.system.init).contains(
            "elogind"@ + "-"@ + config.system.init.shown(),
        ),
{
    let list = service_list(config);
    let init = config.system.init;
    let clash = "elogind"@ + "-"@ + init.shown();
    lemma_packages(list, init);
    reveal_strlit("elogind");
    reveal_strlit("-");
    reveal_strlit("runit");
    reveal_strlit("openrc");
    reveal_strlit("s6");
    reveal_strlit("dinit");
    reveal_strlit("seatd");
    reveal_strlit("iwd");
    reveal_strlit("NetworkManager");
    reveal_strlit("networkmanager");
    reveal_strlit("wpa_supplicant");
    reveal_strlit("greetd");
    reveal_strlit("sddm");
    reveal_strlit("gdm");
    reveal_strlit("lightdm");
    assert(clash[0] == 'e');
    assert forall|i: int| 0 <= i < list.len() implies base_package(#[trigger] list[i]) != clash by {
        assert("networkmanager"@[0] == 'n');
        assert("wpa_supplicant"@[0] == 'w');
    }
    let all = service_packages(list, init);
    if all.contains(clash) {
        let i = choose|i: int| 0 <= i < all.len() && all[i] == clash;
        let j = choose|j: int|
            0 <= j < list.len() && (all[i] == base_package(#[trigger] list[j]) || all[i]
                == base_package(list[j]) + "-"@ + init.shown() && has_init_package(
                base_package(list[j]),
                init,
            ));
        let base = base_package(list[j]);
        assert(base.len() == "elogind"@.len());
        assert(base =~= clash.take(base.len() as int));
        assert("elogind"@ =~= clash.take(base.len() as int));
    }
}

/// A package is that of a service, or holds its definition where there is such a one.
proof fn lemma_packages(services: Seq<Text>, init: InitSystem)
    ensures
        forall|i: int|
            #![trigger service_packages(services, init)[i]]
            0 <= i < service_packages(services, init).len() ==> exists|j: int|
                0 <= j < services.len() && (service_packages(services, init)[i] == base_package(
                    #[trigger] services[j],
                ) || service_packages(services, init)[i] == base_package(services[j]) + "-"@
                    + init.shown() && has_init_package(base_package(services[j]), init)),
    decreases services.len(),
{
    if services.len() > 0 {
        let before = services.drop_last();
        let all = service_packages(services, init);
        let some = service_packages(before, init);
        lemma_packages(before, init);
        assert forall|i: int|
            #![trigger all[i]]
            0 <= i < all.len() implies exists|j: int|
                0 <= j < services.len() && (all[i] == base_package(#[trigger] services[j])
                    || all[i] == base_package(services[j]) + "-"@ + init.shown()
                    && has_init_package(base_package(services[j]), init)) by {
            if i < some.len() {
                assert(all[i] == some[i]);
                let j = choose|j: int|
                    0 <= j < before.len() && (some[i] == base_package(#[trigger] before[j])
                        || some[i] == base_package(before[j]) + "-"@ + init.shown()
                        && has_init_package(base_package(before[j]), init));
                assert(services[j] == before[j]);
            } else {
                assert(services[services.len() - 1] == services.last());
            }
        }
    }
}

// -------------------------------------------------------------------------- enabling
/// What was looked up in the target about one service.
#[derive(Debug, Clone)]
pub struct ServiceFacts {
    /// Its definition is there: see [`definition_path`]. Without meaning under s6.
    pub defined: bool,
    /// It is enabled already: see [`link_path`]. Without meaning under OpenRC and s6.
    pub linked: bool,
    /// Which of the [`s6_candidates`] are there, in their order. Without meaning
    /// under the others.
    pub s6_found: Vec<bool>,
}

/// The name under which s6 knows a service: its own, or the one that older packages
/// gave it.
pub open spec fn s6_name(service: Text, found: Seq<bool>) -> Option<Text> {
    if found.len() > 0 && found[0] || found.len() > 1 && found[1] {
        Some(service)
    } else if found.len() > 2 && found[2] || found.len() > 3 && found[3] {
        Some(service + "-srv"@)
    } else {
        None
    }
}

/// Where s6 may have the definition of a service: from a package or from the
/// administrator, under its own name and under the older one.
pub open spec fn s6_paths(service: Text, install_root: Text) -> Seq<Text> {
    seq![
        install_root + "/etc/s6/sv/"@ + service,
        install_root + "/etc/s6/adminsv/"@ + service,
        install_root + "/etc/s6/sv/"@ + (service + "-srv"@),
        install_root + "/etc/s6/adminsv/"@ + (service + "-srv"@),
    ]
}

pub fn s6_candidates(service: &str, install_root: &str) -> (r: Vec<String>)
    ensures
        r.deep_view() == s6_paths(service@, install_root@),
{
    let legacy = concat(service, "-srv");
    let mut v: Vec<String> = Vec::new();
    push_text(&mut v, concat3(install_root, "/etc/s6/sv/", service).as_str());
    push_text(&mut v, concat3(install_root, "/etc/s6/adminsv/", service).as_str());
    push_text(&mut v, concat3(install_root, "/etc/s6/sv/", legacy.as_str()).as_str());
    push_text(&mut v, concat3(install_root, "/etc/s6/adminsv/", legacy.as_str()).as_str());
    assert(v.deep_view() =~= s6_paths(service@, install_root@));
    v
}

/// The name to enable, by which of the candidates are there.
pub fn resolve_s6_service_name(service: &str, found: &Vec<bool>) -> (r: Option<String>)
    ensures
        plan::seen(r) == s6_name(service@, found@),
{
    if (found.len() > 0 && found[0]) || (found.len() > 1 && found[1]) {
        Some(service.to_owned())
    } else if (found.len() > 2 && found[2]) || (found.len() > 3 && found[3]) {
        Some(concat(service, "-srv"))
    } else {
        None
    }
}

/// Where the definition of a service lies; nothing under s6, which has several
/// places.
pub open spec fn definition_of(
    init: InitSystem,
    service: Text,
    install_root: Text,
) -> Option<Text> {
    match init {
        InitSystem::Runit => Some(install_root + "/etc/runit/sv/"@ + service),
        InitSystem::OpenRC => Some(install_root + "/etc/init.d/"@ + service),
        InitSystem::S6 => None,
        InitSystem::Dinit => Some(install_root + "/etc/dinit.d/"@ + service),
    }
}

pub fn definition_path(init: InitSystem, service: &str, install_root: &str) -> (r: Option<String>)
    ensures
        plan::seen(r) == definition_of(init, service@, install_root@),
{
    match init {
        InitSystem::Runit => Some(concat3(install_root, "/etc/runit/sv/", service)),
        InitSystem::OpenRC => Some(concat3(install_root, "/etc/init.d/", service)),
        InitSystem::S6 => None,
        InitSystem::Dinit => Some(concat3(install_root, "/etc/dinit.d/", service)),
    }
}

/// The link that enables a service; nothing where it is enabled by a command.
pub open spec fn link_of(init: InitSystem, service: Text, install_root: Text) -> Option<Text> {
    match init {
        InitSystem::Runit => Some(install_root + "/etc/runit/runsvdir/default"@ + "/"@ + service),
        InitSystem::OpenRC => None,
        InitSystem::S6 => None,
        InitSystem::Dinit => Some(install_root + "/etc/dinit.d/boot.d"@ + "/"@ + service),
    }
}

pub fn link_path(init: InitSystem, service: &str, install_root: &str) -> (r: Option<String>)
    ensures
        plan::seen(r) == link_of(init, service@, install_root@),
{
    match init {
        InitSystem::Runit => Some(
            concat3(concat(install_root, "/etc/runit/runsvdir/default").as_str(), "/", service),
        ),
        InitSystem::OpenRC => None,
        InitSystem::S6 => None,
        InitSystem::Dinit => Some(
            concat3(concat(install_root, "/etc/dinit.d/boot.d").as_str(), "/", service),
        ),
    }
}

/// Enabling a service by a link, unless it is there.
pub open spec fn link_steps(dir: Text, service: Text, target: Text, linked: bool) -> Seq<Act> {
    seq![Act::MakeDir(dir)] + (if linked {
        seq![]
    } else {
        seq![Act::Link { target, path: dir + "/"@ + service }]
    })
}

fn enable_by_link(dir: &str, service: &str, target: &str, linked: bool) -> (r: Vec<Step>)
    ensures
        plan::acts(r@) == link_steps(dir@, service@, target@, linked),
{
    let mut steps: Vec<Step> = Vec::new();
    make_dir(&mut steps, dir);
    if !linked {
        link(&mut steps, target, concat3(dir, "/", service).as_str());
    }
    assert(plan::acts(steps@) =~= link_steps(dir@, service@, target@, linked));
    steps
}

/// Enabling a service. One without a definition is passed over.
pub open spec fn enable_steps(
    init: InitSystem,
    service: Text,
    facts: ServiceFacts,
    install_root: Text,
    dry_run: bool,
) -> Seq<Act> {
    if dry_run {
        seq![
            Act::Say(
                "  [dry-run] Would enable service "@ + service + " for "@ + init.shown(),
            ),
        ]
    } else {
        match init {
            InitSystem::Runit => if facts.defined {
                link_steps(
                    install_root + "/etc/runit/runsvdir/default"@,
                    service,
                    "/etc/runit/sv/"@ + service,
                    facts.linked,
                )
            } else {
                seq![]
            },
            InitSystem::OpenRC => if facts.defined {
                seq![
                    Act::Chroot {
                        root: install_root,
                        command: "rc-update add "@ + service + " default"@,
                    },
                ]
            } else {
                seq![]
            },
            InitSystem::S6 => match s6_name(service, facts.s6_found@) {
                Some(name) => seq![
                    Act::Chroot { root: install_root, command: "s6 set enable "@ + name },
                ],
                None => seq![],
            },
            InitSystem::Dinit => if facts.defined {
                link_steps(
                    install_root + "/etc/dinit.d/boot.d"@,
                    service,
                    "/etc/dinit.d/"@ + service,
                    facts.linked,
                )
            } else {
                seq![]
            },
        }
    }
}

pub fn enable_service(
    init: InitSystem,
    service: &str,
    facts: &ServiceFacts,
    install_root: &str,
    dry_run: bool,
) -> (r: Vec<Step>)
    ensures
        plan::acts(r@) == enable_steps(init, service@, *facts, install_root@, dry_run),
{
    let mut steps: Vec<Step> = Vec::new();
    if dry_run {
        let line = concat3("  [dry-run] Would enable service ", service, " for ");
        say(&mut steps, concat(line.as_str(), init.to_text().as_str()).as_str());
    } else {
        match init {
            InitSystem::Runit => {
                if facts.defined {
                    steps = enable_by_link(
                        concat(install_root, "/etc/runit/runsvdir/default").as_str(),
                        service,
                        concat("/etc/runit/sv/", service).as_str(),
                        facts.linked,
                    );
                }
            },
            InitSystem::OpenRC => {
                if facts.defined {
                    chroot(
                        &mut steps,
                        install_root,
                        concat3("rc-update add ", service, " default").as_str(),
                    );
                }
            },
            InitSystem::S6 => {
                if let Some(name) = resolve_s6_service_name(service, &facts.s6_found) {
                    chroot(
                        &mut steps,
                        install_root,
                        concat("s6 set enable ", name.as_str()).as_str(),
                    );
                }
            },
            InitSystem::Dinit => {
                if facts.defined {
                    steps = enable_by_link(
                        concat(install_root, "/etc/dinit.d/boot.d").as_str(),
                        service,
                        concat("/etc/dinit.d/", service).as_str(),
                        facts.linked,
                    );
                }
            },
        }
    }
    assert(plan::acts(steps@) =~= enable_steps(init, service@, *facts, install_root@, dry_run));
    steps
}

/// Enabling the first `n` of the services. elogind has no service of its own to
/// enable; its PAM module is all that is needed.
pub open spec fn enable_all_steps(
    init: InitSystem,
    services: Seq<Text>,
    facts: Seq<ServiceFacts>,
    install_root: Text,
    dry_run: bool,
    n: int,
) -> Seq<Act>
    decreases n,
{
    if n <= 0 {
        seq![]
    } else {
        enable_all_steps(init, services, facts, install_root, dry_run, n - 1) + (if services[n - 1]
            == "elogind"@ {
            seq![]
        } else {
            enable_steps(init, services[n - 1], facts[n - 1], install_root, dry_run)
        })
    }
}

/// Enables the services, once their packages are there. `facts` holds what was
/// looked up about each of the [`build_service_list`], in its order.
pub fn enable_services(
    config: &DeploymentConfig,
    facts: &Vec<ServiceFacts>,
    install_root: &str,
    dry_run: bool,
) -> (r: Vec<Step>)
    requires
        facts@.len() == service_list(*config).len(),
    ensures
        plan::acts(r@) == enable_all_steps(
            config.system.init,
            service_list(*config),
            facts@,
            install_root@,
            dry_run,
            facts@.len() as int,
        ),
{
    let services = build_service_list(config);
    let init = config.system.init;
    let ghost d = services.deep_view();
    let mut steps: Vec<Step> = Vec::new();
    assert(plan::acts(steps@) =~= seq![]);
    assert(d.len() == services@.len());
    let mut i: usize = 0;
    while i < services.len()
        invariant
            i <= services@.len(),
            services@.len() == facts@.len(),
            d == services.deep_view(),
            plan::acts(steps@) == enable_all_steps(
                init,
                d,
                facts@,
                install_root@,
                dry_run,
                i as int,
            ),
        decreases services.len() - i,
    {
        assert(d[i as int] == services@[i as int]@);
        if !same(services[i].as_str(), "elogind") {
            extend(
                &mut steps,
                enable_service(init, services[i].as_str(), &facts[i], install_root, dry_run),
            );
        }
        i += 1;
        assert(plan::acts(steps@) =~= enable_all_steps(
            init,
            d,
            facts@,
            install_root@,
            dry_run,
            i as int,
        ));
    }
    steps
}

/// Making the enabled services permanent, which only s6 asks for.
pub open spec fn commit_steps(init: InitSystem, install_root: Text) -> Seq<Act> {
    if init == InitSystem::S6 {
        seq![Act::Chroot { root: install_root, command: "s6 set commit"@ }]
    } else {
        seq![]
    }
}

pub fn commit_service_database(init: InitSystem, install_root: &str) -> (r: Vec<Step>)
    ensures
        plan::acts(r@) == commit_steps(init, install_root@),
{
    let mut steps: Vec<Step> = Vec::new();
    if init == InitSystem::S6 {
        chroot(&mut steps, install_root, "s6 set commit");
    }
    assert(plan::acts(steps@) =~= commit_steps(init, install_root@));
    steps
}

// -------------------------------------------------------------------------- laws
/// The name of an init system, as packages bear it.
pub open spec fn suffix(init: InitSystem) -> Text {
    match init {
        InitSystem::Runit => "runit"@,
        InitSystem::OpenRC => "openrc"@,
        InitSystem::S6 => "s6"@,
        InitSystem::Dinit => "dinit"@,
    }
}

/// The target knows the service.
pub open spec fn known(init: InitSystem, facts: ServiceFacts) -> bool {
    if init == InitSystem::S6 {
        exists|i: int| 0 <= i < 4 && i < facts.s6_found@.len() && #[trigger] facts.s6_found@[i]
    } else {
        facts.defined
    }
}

/// A service that the target knows starts with it from then on, under its own name or,
/// where s6 knows no other, under the older one. What started before still does, and one
/// that the target does not know changes nothing.
pub proof fn known_service_starts(
    init: InitSystem,
    service: Text,
    facts: ServiceFacts,
    install_root: Text,
    before: Set<Text>,
)
    requires
        effects::one_word(service),
        (init == InitSystem::Runit || init == InitSystem::Dinit) && facts.linked
            ==> before.contains(service),
    ensures
        ({
            let after = effects::starting(
                init,
                install_root,
                enable_steps(init, service, facts, install_root, false),
                before,
            );
            let newer = init == InitSystem::S6 ==> exists|i: int|
                0 <= i < 2 && i < facts.s6_found@.len() && #[trigger] facts.s6_found@[i];
            &&& known(init, facts) && newer ==> after == before.insert(service)
            &&& known(init, facts) && !newer ==> after == before.insert(service + "-srv"@)
            &&& !known(init, facts) ==> after == before
        }),
{
    let steps = enable_steps(init, service, facts, install_root, false);
    let none = Seq::<Act>::empty();
    let found = facts.s6_found@;
    assert(effects::starting(init, install_root, none, before) == before);
    match init {
        InitSystem::Runit => {
            if facts.defined {
                let dir = install_root + "/etc/runit/runsvdir/default"@;
                lemma_link(
                    init,
                    install_root,
                    dir,
                    install_root + "/etc/runit/runsvdir/default/"@,
                    "/etc/runit/sv/"@,
                    service,
                    facts.linked,
                    before,
                );
            }
        },
        InitSystem::Dinit => {
            if facts.defined {
                let dir = install_root + "/etc/dinit.d/boot.d"@;
                lemma_link(
                    init,
                    install_root,
                    dir,
                    install_root + "/etc/dinit.d/boot.d/"@,
                    "/etc/dinit.d/"@,
                    service,
                    facts.linked,
                    before,
                );
            }
        },
        InitSystem::OpenRC => {
            if facts.defined {
                let command = "rc-update add "@ + service + " default"@;
                let w = seq!["rc-update"@, "add"@, service, "default"@];
                reveal_strlit("rc-update add ");
                reveal_strlit(" default");
                reveal_strlit("rc-update");
                reveal_strlit("add");
                reveal_strlit("default");
                reveal_strlit(" ");
                reveal_with_fuel(text::joined, 5);
                assert(w.drop_last().drop_last().drop_last() =~= seq!["rc-update"@]);
                assert(command =~= text::joined(w, " "@));
                assert(effects::single_words(w));
                effects::lemma_words_joined(w);
                lemma_one_step(init, install_root, steps, before);
            }
        },
        InitSystem::S6 => {
            match s6_name(service, found) {
                Some(name) => {
                    reveal_strlit("-srv");
                    assert(effects::one_word(name));
                    let command = "s6 set enable "@ + name;
                    let w = seq!["s6"@, "set"@, "enable"@, name];
                    reveal_strlit("s6 set enable ");
                    reveal_strlit("s6");
                    reveal_strlit("set");
                    reveal_strlit("enable");
                    reveal_strlit(" ");
                    reveal_with_fuel(text::joined, 5);
                    assert(w.drop_last().drop_last().drop_last() =~= seq!["s6"@]);
                    assert(command =~= text::joined(w, " "@));
                    assert(effects::single_words(w));
                    effects::lemma_words_joined(w);
                    lemma_one_step(init, install_root, steps, before);
                    if found.len() > 0 && found[0] || found.len() > 1 && found[1] {
                    } else {
                        assert(found.len() > 2 && found[2] || found.len() > 3 && found[3]);
                    }
                },
                None => {},
            }
        },
    }
}

proof fn lemma_one_step(init: InitSystem, root: Text, steps: Seq<Act>, before: Set<Text>)
    requires
        steps.len() == 1,
    ensures
        effects::starting(init, root, steps, before) == effects::starting_after(
            init,
            root,
            steps[0],
            before,
        ),
{
    assert(steps.drop_last() =~= seq![]);
    assert(effects::starting(init, root, steps.drop_last(), before) == before);
}

proof fn lemma_link(
    init: InitSystem,
    root: Text,
    dir: Text,
    prefix: Text,
    definitions: Text,
    service: Text,
    linked: bool,
    before: Set<Text>,
)
    requires
        init == InitSystem::Runit && prefix == root + "/etc/runit/runsvdir/default/"@ && dir == root
            + "/etc/runit/runsvdir/default"@ && definitions == "/etc/runit/sv/"@ || init
            == InitSystem::Dinit && prefix == root + "/etc/dinit.d/boot.d/"@ && dir == root
            + "/etc/dinit.d/boot.d"@ && definitions == "/etc/dinit.d/"@,
        linked ==> before.contains(service),
    ensures
        effects::starting(
            init,
            root,
            link_steps(dir, service, definitions + service, linked),
            before,
        ) == before.insert(service),
{
    reveal_strlit("/etc/runit/runsvdir/default/");
    reveal_strlit("/etc/runit/runsvdir/default");
    reveal_strlit("/etc/dinit.d/boot.d/");
    reveal_strlit("/etc/dinit.d/boot.d");
    reveal_strlit("/");
    assert(dir + "/"@ =~= prefix);
    let steps = link_steps(dir, service, definitions + service, linked);
    let first = seq![Act::MakeDir(dir)];
    lemma_one_step(init, root, first, before);
    assert(effects::starting(init, root, first, before) == before);
    if linked {
        assert(steps =~= first);
        assert(before.insert(service) =~= before);
    } else {
        let path = dir + "/"@ + service;
        assert(path =~= prefix + service);
        assert(path.subrange(0, prefix.len() as int) =~= prefix);
        assert(path.skip(prefix.len() as int) =~= service);
        assert(text::without_prefix(path, prefix) == Some(service));
        assert(steps.drop_last() =~= first);
    }
}

/// The link that starts a service leads to the definition that was looked for, and lies
/// where it was looked for.
pub proof fn link_leads_to_the_definition(
    init: InitSystem,
    service: Text,
    facts: ServiceFacts,
    install_root: Text,
    i: int,
)
    requires
        0 <= i < enable_steps(init, service, facts, install_root, false).len(),
        enable_steps(init, service, facts, install_root, false)[i] is Link,
    ensures
        enable_steps(init, service, facts, install_root, false)[i] matches Act::Link {
            target,
            path,
        } && definition_of(init, service, install_root) == Some(install_root + target) && link_of(
            init,
            service,
            install_root,
        ) == Some(path),
{
    assert(install_root + ("/etc/runit/sv/"@ + service) =~= install_root + "/etc/runit/sv/"@
        + service);
    assert(install_root + ("/etc/dinit.d/"@ + service) =~= install_root + "/etc/dinit.d/"@
        + service);
}

proof fn lemma_services_are_words(config: DeploymentConfig)
    ensures
        effects::single_words(service_list(config)),
{
    reveal_strlit("elogind");
    reveal_strlit("seatd");
    reveal_strlit("iwd");
    reveal_strlit("NetworkManager");
    reveal_strlit("wpa_supplicant");
    reveal_strlit("greetd");
    reveal_strlit("sddm");
    reveal_strlit("gdm");
    reveal_strlit("lightdm");
}

/// All services of the target that it knows start with it, elogind aside, and those that
/// started before still do.
#[verifier::rlimit(40)]
pub proof fn chosen_services_start(
    config: DeploymentConfig,
    facts: Seq<ServiceFacts>,
    install_root: Text,
    before: Set<Text>,
    n: int,
)
    requires
        facts.len() == service_list(config).len(),
        0 <= n <= facts.len(),
        forall|i: int| 0 <= i < facts.len() ==> !(#[trigger] facts[i]).linked,
    ensures
        ({
            let after = effects::starting(
                config.system.init,
                install_root,
                enable_all_steps(
                    config.system.init,
                    service_list(config),
                    facts,
                    install_root,
                    false,
                    n,
                ),
                before,
            );
            let list = service_list(config);
            &&& forall|s: Text| before.contains(s) ==> #[trigger] after.contains(s)
            &&& forall|i: int|
                0 <= i < n && known(config.system.init, facts[i]) && list[i] != "elogind"@
                    ==> after.contains(#[trigger] list[i]) || (config.system.init == InitSystem::S6
                    && after.contains(list[i] + "-srv"@))
        }),
    decreases n,
{
    let init = config.system.init;
    let list = service_list(config);
    if n > 0 {
        chosen_services_start(config, facts, install_root, before, n - 1);
        lemma_services_are_words(config);
        let some = enable_all_steps(init, list, facts, install_root, false, n - 1);
        let mid = effects::starting(init, install_root, some, before);
        assert(!facts[n - 1].linked);
        assert(effects::one_word(list[n - 1]));
        if list[n - 1] != "elogind"@ {
            let more = enable_steps(init, list[n - 1], facts[n - 1], install_root, false);
            known_service_starts(init, list[n - 1], facts[n - 1], install_root, mid);
            effects::lemma_starting_sum(init, install_root, some, more, before);
        } else {
            assert(some + Seq::<Act>::empty() =~= some);
        }
    }
}

/// Whatever starts is installed: the program of each service and, but for elogind and for
/// greetd under s6, its definition for the init system.
pub proof fn services_are_installed(config: DeploymentConfig, install_root: Text, i: int)
    requires
        0 <= i < service_list(config).len(),
    ensures
        ({
            let steps = install_steps(config, install_root, false);
            let s = service_list(config)[i];
            let program = if s == "NetworkManager"@ {
                "networkmanager"@
            } else {
                s
            };
            &&& steps.len() == 1
            &&& steps[0] matches Act::Pacman { root, command }
            &&& root == install_root
            &&& text::words_of(command).len() > 4
            &&& text::words_of(command).take(4) == effects::installing()
            &&& text::words_of(command).skip(4).contains(program)
            &&& s != "elogind"@ && !(s == "greetd"@ && config.system.init == InitSystem::S6)
                ==> text::words_of(command).skip(4).contains(
                program + "-"@ + suffix(config.system.init),
            )
        }),
{
    let init = config.system.init;
    let list = service_list(config);
    let all = service_packages(list, init);
    lemma_services_are_words(config);
    lemma_packages_of_all(list, init, i);
    some_service_starts(config);
    lemma_packages_are_words(list, init);
    effects::lemma_installing(all);
    lemma_base_names();
}

proof fn lemma_base_names()
    ensures
        "networkmanager"@ != "elogind"@,
        "networkmanager"@ != "greetd"@,
        "NetworkManager"@ != "elogind"@,
        "NetworkManager"@ != "greetd"@,
        "elogind"@ != "greetd"@,
{
    reveal_strlit("networkmanager");
    reveal_strlit("NetworkManager");
    reveal_strlit("elogind");
    reveal_strlit("greetd");
    assert("greetd"@.len() == 6 && "elogind"@.len() == 7 && "networkmanager"@.len() == 14
        && "NetworkManager"@.len() == 14);
}

proof fn lemma_packages_of_all(services: Seq<Text>, init: InitSystem, i: int)
    requires
        0 <= i < services.len(),
    ensures
        service_packages(services, init).contains(base_package(services[i])),
        has_init_package(base_package(services[i]), init) ==> service_packages(
            services,
            init,
        ).contains(base_package(services[i]) + "-"@ + init.shown()),
    decreases services.len(),
{
    let before = services.drop_last();
    let all = service_packages(services, init);
    let some = service_packages(before, init);
    if i == services.len() - 1 {
        let k = some.len() as int;
        assert(all[k] == base_package(services[i]));
        if has_init_package(base_package(services[i]), init) {
            assert(all[k + 1] == base_package(services[i]) + "-"@ + init.shown());
        }
    } else {
        lemma_packages_of_all(before, init, i);
        assert(before[i] == services[i]);
        let a = choose|a: int| 0 <= a < some.len() && some[a] == base_package(before[i]);
        assert(all[a] == some[a]);
        if has_init_package(base_package(services[i]), init) {
            let b = choose|b: int|
                0 <= b < some.len() && some[b] == base_package(before[i]) + "-"@ + init.shown();
            assert(all[b] == some[b]);
        }
    }
}

proof fn lemma_packages_are_words(services: Seq<Text>, init: InitSystem)
    requires
        effects::single_words(services),
    ensures
        effects::single_words(service_packages(services, init)),
    decreases services.len(),
{
    if services.len() > 0 {
        let before = services.drop_last();
        assert forall|k: int| 0 <= k < before.len() implies effects::one_word(
            #[trigger] before[k],
        ) by {
            assert(before[k] == services[k]);
        }
        lemma_packages_are_words(before, init);
        let all = service_packages(services, init);
        let some = service_packages(before, init);
        let s = services.last();
        assert(s == services[services.len() - 1]);
        let base = base_package(s);
        reveal_strlit("networkmanager");
        reveal_strlit("-");
        reveal_strlit("runit");
        reveal_strlit("openrc");
        reveal_strlit("s6");
        reveal_strlit("dinit");
        assert(effects::one_word(base));
        let definition = base + "-"@ + init.shown();
        assert(effects::one_word(definition)) by {
            assert forall|k: int| 0 <= k < definition.len() implies !text::white(
                #[trigger] definition[k],
            ) by {
                if k < base.len() {
                    assert(definition[k] == base[k]);
                }
            }
        }
        assert forall|k: int| 0 <= k < all.len() implies effects::one_word(#[trigger] all[k]) by {
            if k < some.len() {
                assert(all[k] == some[k]);
            }
        }
    }
}

/// Under s6 nothing lasts until the database is committed, in the target; the other init
/// systems have no such step.
pub proof fn changes_are_committed(init: InitSystem, install_root: Text)
    ensures
        init == InitSystem::S6 <==> commit_steps(init, install_root).len() == 1,
        init != InitSystem::S6 <==> commit_steps(init, install_root).len() == 0,
        init == InitSystem::S6 ==> effects::target_words(
            commit_steps(init, install_root)[0],
            install_root,
        ) == seq!["s6"@, "set"@, "commit"@],
{
    let w = seq!["s6"@, "set"@, "commit"@];
    reveal_strlit("s6 set commit");
    reveal_strlit("s6");
    reveal_strlit("set");
    reveal_strlit("commit");
    reveal_strlit(" ");
    reveal_with_fuel(text::joined, 4);
    assert(w.drop_last().drop_last() =~= seq!["s6"@]);
    assert("s6 set commit"@ =~= text::joined(w, " "@));
    assert(effects::single_words(w));
    effects::lemma_words_joined(w);
}

/// The network has what drives it: a program for the radio, and NetworkManager where it was
/// chosen. Exactly one of the two programs for the radio starts.
pub proof fn one_radio_program_starts(config: DeploymentConfig)
    ensures
        service_list(config).contains("iwd"@) <==> config.network.backend
            != NetworkBackend::NetworkManagerWpa,
        service_list(config).contains("wpa_supplicant"@) <==> config.network.backend
            == NetworkBackend::NetworkManagerWpa,
        service_list(config).contains("NetworkManager"@) <==> config.network.backend
            != NetworkBackend::Iwd,
        service_list(config).contains("seatd"@) <==> config.desktop.environment
            != DesktopEnvironment::Headless,
        service_list(config).contains("elogind"@) <==> config.desktop.environment
            != DesktopEnvironment::Headless && config.packages.install_session_switching,
        service_list(config).no_duplicates(),
{
    let list = service_list(config);
    let backend = config.network.backend;
    reveal_strlit("elogind");
    reveal_strlit("seatd");
    reveal_strlit("iwd");
    reveal_strlit("NetworkManager");
    reveal_strlit("wpa_supplicant");
    reveal_strlit("greetd");
    reveal_strlit("sddm");
    reveal_strlit("gdm");
    reveal_strlit("lightdm");
    assert("elogind"@.len() == 7 && "elogind"@[0] == 'e' && "lightdm"@[0] == 'l');
    assert("iwd"@[0] == 'i' && "gdm"@[0] == 'g' && "seatd"@.len() == 5 && "sddm"@.len() == 4);
    assert("greetd"@.len() == 6 && "NetworkManager"@.len() == 14 && "wpa_supplicant"@[0] == 'w'
        && "NetworkManager"@[0] == 'N');
    let desktop = config.desktop.environment != DesktopEnvironment::Headless;
    let k: int = if desktop {
        1
    } else {
        0
    };
    let net = network_services(backend);
    assert(list[k] == net[0]);
    if net.len() > 1 {
        assert(list[k + 1] == net[1]);
    }
    if desktop {
        assert(list[0] == "seatd"@);
        if config.packages.install_session_switching {
            assert(list.last() == "elogind"@);
        }
    }
}

/// A definition is looked for below the target's root, under the name of the service, and
/// for s6 under the older name as well: the first two places have the one name, the last
/// two the other.
pub proof fn definitions_bear_the_name(init: InitSystem, service: Text, install_root: Text)
    ensures
        init == InitSystem::S6 <==> definition_of(init, service, install_root) is None,
        definition_of(init, service, install_root) matches Some(p) ==> p == install_root + (
        match init {
            InitSystem::Runit => "/etc/runit/sv"@,
            InitSystem::OpenRC => "/etc/init.d"@,
            InitSystem::S6 => "/etc/s6/sv"@,
            InitSystem::Dinit => "/etc/dinit.d"@,
        }) + "/"@ + service,
        s6_paths(service, install_root).len() == 4,
        forall|i: int|
            0 <= i < 4 ==> text::begins(
                #[trigger] s6_paths(service, install_root)[i],
                install_root + "/etc/s6/"@,
            ) && text::ends(
                s6_paths(service, install_root)[i],
                "sv/"@ + service + if i < 2 {
                    ""@
                } else {
                    "-srv"@
                },
            ),
{
    reveal_strlit("/");
    reveal_strlit("");
    reveal_strlit("-srv");
    reveal_strlit("sv/");
    reveal_strlit("/etc/s6/");
    reveal_strlit("/etc/s6/sv/");
    reveal_strlit("/etc/s6/adminsv/");
    reveal_strlit("/etc/runit/sv");
    reveal_strlit("/etc/runit/sv/");
    reveal_strlit("/etc/init.d");
    reveal_strlit("/etc/init.d/");
    reveal_strlit("/etc/dinit.d");
    reveal_strlit("/etc/dinit.d/");
    if let Some(p) = definition_of(init, service, install_root) {
        assert(p =~= install_root + (match init {
            InitSystem::Runit => "/etc/runit/sv"@,
            InitSystem::OpenRC => "/etc/init.d"@,
            InitSystem::S6 => "/etc/s6/sv"@,
            InitSystem::Dinit => "/etc/dinit.d"@,
        }) + "/"@ + service);
    }
    let start = install_root + "/etc/s6/"@;
    let v = s6_paths(service, install_root);
    assert forall|i: int| 0 <= i < 4 implies text::begins(#[trigger] v[i], start) && text::ends(
        v[i],
        "sv/"@ + service + if i < 2 {
            ""@
        } else {
            "-srv"@
        },
    ) by {
        assert(v[i].subrange(0, start.len() as int) =~= start);
        let end = "sv/"@ + service + if i < 2 {
            ""@
        } else {
            "-srv"@
        };
        assert(v[i].subrange(v[i].len() - end.len(), v[i].len() as int) =~= end);
    }
}

} // verus!
