use deploytix::config::model::DeploymentConfig;
use deploytix::config::options::NetworkBackend;
use deploytix::configure::network::{
    configure_network, configure_network_as, iwd_file_stem, preseed_wifi_iwd,
    preseed_wifi_networkmanager,
};
use deploytix::plan::Step;

const UUID: &str = "2f6b0f6e-6c0e-4a57-9c4a-0d8f5a3b7e10";

fn written(steps: &[Step], wanted: &str) -> Option<(String, Option<u32>)> {
    steps.iter().find_map(|s| match s {
        Step::Write { path, content, mode } if path == wanted => Some((content.clone(), *mode)),
        _ => None,
    })
}

#[test]
fn nm_preseed_writes_psk_profile_with_0600() {
    let steps = preseed_wifi_networkmanager("/mnt", "HomeNet", Some("hunter2222"), UUID);
    let (content, mode) = written(
        &steps,
        "/mnt/etc/NetworkManager/system-connections/HomeNet.nmconnection",
    )
    .expect("a profile");
    assert!(content.contains("id=HomeNet"));
    assert!(content.contains("ssid=HomeNet"));
    assert!(content.contains("key-mgmt=wpa-psk"));
    assert!(content.contains("psk=hunter2222"));
    assert!(content.contains("autoconnect=true"));
    assert!(content.contains(&format!("uuid={UUID}")));
    assert_eq!(mode, Some(0o600), "NM refuses profiles readable by others");
}

#[test]
fn nm_preseed_open_network_has_no_security_section() {
    let steps = preseed_wifi_networkmanager("/mnt", "CafeWifi", None, UUID);
    let (content, _) = written(
        &steps,
        "/mnt/etc/NetworkManager/system-connections/CafeWifi.nmconnection",
    )
    .expect("a profile");
    assert!(!content.contains("[wifi-security]"));
    assert!(content.contains("ssid=CafeWifi"));
}

#[test]
fn iwd_preseed_uses_plain_name_for_simple_ssid() {
    let steps = preseed_wifi_iwd("/mnt", "Home Net-2", Some("hunter2222"));
    let (content, _) = written(&steps, "/mnt/var/lib/iwd/Home Net-2.psk").expect("a profile");
    assert!(content.contains("Passphrase=hunter2222"));
    assert!(content.contains("AutoConnect=true"));
}

#[test]
fn iwd_preseed_hex_encodes_special_ssid() {
    let steps = preseed_wifi_iwd("/mnt", "Caf\u{e9}!", None);
    assert!(
        written(&steps, "/mnt/var/lib/iwd/=436166c3a921.open").is_some(),
        "expected hex-encoded iwd filename"
    );
}

#[test]
fn networks_keep_their_files_apart() {
    assert_eq!(iwd_file_stem("Home Net-2"), "Home Net-2");
    assert_ne!(iwd_file_stem("=4361"), iwd_file_stem("Ca"));
}

#[test]
fn a_connection_gets_an_identifier_of_its_own() {
    let mut cfg = DeploymentConfig::sample();
    cfg.network.backend = NetworkBackend::NetworkManager;
    cfg.network.wifi_ssid = Some("HomeNet".to_string());
    cfg.network.wifi_password = Some("hunter2222".to_string());
    let path = "/mnt/etc/NetworkManager/system-connections/HomeNet.nmconnection";
    let profile = |steps: Vec<Step>| written(&steps, path).expect("a profile").0;
    let id = |content: &str| {
        let line = content.lines().find(|l| l.starts_with("uuid=")).expect("an identifier");
        line["uuid=".len()..].to_string()
    };
    let one = id(&profile(configure_network(&cfg, "/mnt", false)));
    let two = id(&profile(configure_network(&cfg, "/mnt", false)));
    assert_ne!(one, two);
    for u in [&one, &two] {
        assert_eq!(u.len(), 36, "{u}");
        assert_eq!(&u[14..15], "4", "{u}");
        assert!(u
            .chars()
            .enumerate()
            .all(|(i, c)| if [8, 13, 18, 23].contains(&i) { c == '-' } else { c.is_ascii_hexdigit() }));
    }
    assert_eq!(id(&profile(configure_network_as(&cfg, "/mnt", UUID, false))), UUID);
}

#[test]
fn a_dry_run_of_the_network_only_prints() {
    let mut cfg = DeploymentConfig::sample();
    cfg.network.wifi_ssid = Some("HomeNet".to_string());
    let steps = configure_network_as(&cfg, "/mnt", UUID, true);
    assert!(!steps.is_empty());
    assert!(steps.iter().all(|s| matches!(s, Step::Say(_))));
}
