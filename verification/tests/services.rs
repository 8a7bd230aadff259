use deploytix::config::model::DeploymentConfig;
use deploytix::config::options::{DesktopEnvironment, DisplayManager, InitSystem, NetworkBackend};
use deploytix::configure::services::{
    build_service_list, build_service_packages, definition_path, enable_service, enable_services,
    link_path, resolve_s6_service_name, s6_candidates, service_base_package, ServiceFacts,
};
use deploytix::plan::Step;

fn config(backend: NetworkBackend) -> DeploymentConfig {
    let mut c = DeploymentConfig::sample();
    c.network.backend = backend;
    c
}

#[test]
fn a_desktop_brings_a_seat_and_a_login() {
    let mut c = config(NetworkBackend::NetworkManager);
    c.desktop.environment = DesktopEnvironment::Kde;
    c.packages.install_session_switching = true;
    assert_eq!(
        build_service_list(&c),
        vec!["seatd", "NetworkManager", "iwd", "greetd", "elogind"]
    );
    c.desktop.environment = DesktopEnvironment::Headless;
    assert_eq!(build_service_list(&c), vec!["NetworkManager", "iwd"]);
}

#[test]
fn the_network_is_always_there() {
    for (backend, services) in [
        (NetworkBackend::Iwd, vec!["iwd"]),
        (NetworkBackend::NetworkManagerWpa, vec!["NetworkManager", "wpa_supplicant"]),
    ] {
        let mut c = config(backend);
        c.desktop.environment = DesktopEnvironment::Headless;
        assert_eq!(build_service_list(&c), services);
    }
}

#[test]
fn each_service_has_a_package_and_one_for_its_init() {
    assert_eq!(service_base_package("NetworkManager"), "networkmanager");
    let services = vec!["seatd".to_string(), "elogind".to_string()];
    let packages = build_service_packages(&services, InitSystem::Runit);
    assert!(packages.contains(&"seatd".to_string()));
    assert!(packages.contains(&"seatd-runit".to_string()));
    assert!(packages.contains(&"elogind".to_string()));
    assert!(!packages.contains(&"elogind-runit".to_string()));
}

#[test]
fn a_service_is_linked_where_its_init_looks() {
    assert_eq!(
        definition_path(InitSystem::Runit, "seatd", "/mnt").as_deref(),
        Some("/mnt/etc/runit/sv/seatd")
    );
    assert!(link_path(InitSystem::Runit, "seatd", "/mnt").is_some());
}

#[test]
fn a_name_of_s6_is_the_first_that_is_there() {
    let names = s6_candidates("seatd", "/mnt");
    let none = vec![false; names.len()];
    assert!(resolve_s6_service_name("seatd", &none).is_none());
    let mut one = none.clone();
    one[0] = true;
    assert!(resolve_s6_service_name("seatd", &one).is_some());
}

#[test]
fn a_dry_run_of_services_only_prints() {
    let c = config(NetworkBackend::Iwd);
    let facts: Vec<ServiceFacts> = build_service_list(&c)
        .iter()
        .map(|_| ServiceFacts { defined: true, linked: false, s6_found: vec![false; 3] })
        .collect();
    let steps = enable_services(&c, &facts, "/mnt", true);
    assert!(!steps.is_empty());
    assert!(!steps
        .iter()
        .any(|s| matches!(s, Step::Write { .. } | Step::Link { .. } | Step::MakeDir(_))));
    let one = enable_service(c.system.init.clone(), "seatd", &facts[0], "/mnt", true);
    assert_eq!(one.len(), 1);
}

#[test]
fn the_chosen_display_manager_is_started_and_no_other() {
    let mut c = config(NetworkBackend::NetworkManager);
    c.desktop.environment = DesktopEnvironment::Kde;
    c.packages.install_session_switching = false;
    for (dm, name) in [
        (DisplayManager::Greetd, Some("greetd")),
        (DisplayManager::Sddm, Some("sddm")),
        (DisplayManager::Gdm, Some("gdm")),
        (DisplayManager::Lightdm, Some("lightdm")),
        (DisplayManager::Tty, None),
    ] {
        c.desktop.display_manager = dm;
        let mut expected = vec!["seatd", "NetworkManager", "iwd"];
        expected.extend(name);
        assert_eq!(build_service_list(&c), expected);
    }
}
