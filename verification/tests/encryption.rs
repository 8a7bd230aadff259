use deploytix::config::model::DeploymentConfig;
use deploytix::configure::encryption::{
    close_multi_luks, get_luks_uuid, is_mapper_active, resolve_mapper_name, setup_encryption,
    setup_multi_volume_encryption, to_title_case, verify_luks_credential, AdoptSpec, Credential,
    LuksPartition,
};
use deploytix::plan::Step;

#[test]
fn to_title_case_capitalizes_first_letter_lowercase_rest() {
    assert_eq!(to_title_case("root"), "Root");
    assert_eq!(to_title_case("home"), "Home");
    assert_eq!(to_title_case("usr"), "Usr");
}

#[test]
fn to_title_case_handles_already_uppercase_input() {
    assert_eq!(to_title_case("ROOT"), "Root");
    assert_eq!(to_title_case("HOME"), "Home");
}

#[test]
fn to_title_case_handles_mixed_case_input() {
    assert_eq!(to_title_case("rOoT"), "Root");
    assert_eq!(to_title_case("HoMe"), "Home");
}

#[test]
fn to_title_case_returns_empty_string_for_empty_input() {
    assert_eq!(to_title_case(""), "");
}

#[test]
fn to_title_case_handles_single_character() {
    assert_eq!(to_title_case("a"), "A");
    assert_eq!(to_title_case("Z"), "Z");
}

#[test]
fn keyfile_credentials_pass_key_file_and_never_use_stdin() {
    let c = Credential::Keyfile("/run/media/usb/crypthome.key".to_string());
    assert_eq!(
        c.key_file_args(),
        vec!["--key-file", "/run/media/usb/crypthome.key"]
    );
    assert!(c.stdin_secret().is_none());
}

#[test]
fn passphrase_credentials_use_stdin_and_add_no_arguments() {
    let c = Credential::Passphrase("hunter2".to_string());
    assert!(c.key_file_args().is_empty());
    assert_eq!(c.stdin_secret().as_deref(), Some("hunter2"));
}

#[test]
fn debug_and_describe_redact_the_passphrase() {
    let c = Credential::Passphrase("hunter2".to_string());
    assert!(!c.to_text().contains("hunter2"));
    assert!(!c.describe().contains("hunter2"));

    let k = Credential::Keyfile("/tmp/home.key".to_string());
    assert!(k.to_text().contains("/tmp/home.key"));
    assert!(k.describe().contains("/tmp/home.key"));
}

#[test]
fn a_missing_keyfile_is_rejected_before_cryptsetup_runs() {
    let c = Credential::Keyfile("/nonexistent/does-not-exist.key".to_string());
    let err = match verify_luks_credential("/dev/null", &c, false, false) {
        Err(e) => e.to_text(),
        Ok(_) => panic!("a missing keyfile was accepted"),
    };
    assert!(err.contains("does not exist"), "unexpected error: {}", err);
}

#[test]
fn dry_run_verification_touches_nothing() {
    let c = Credential::Keyfile("/nonexistent/does-not-exist.key".to_string());
    assert!(verify_luks_credential("/dev/null", &c, false, true).is_ok());
}

#[test]
fn adopt_matches_the_named_volume_case_insensitively() {
    let spec = AdoptSpec {
        volume_name: "Home".to_string(),
        credential: Credential::Keyfile("/tmp/home.key".to_string()),
    };
    assert!(spec.matches("Home"));
    assert!(spec.matches("home"));
    assert!(spec.matches("HOME"));
}

#[test]
fn adopt_does_not_match_other_volumes() {
    let spec = AdoptSpec {
        volume_name: "Home".to_string(),
        credential: Credential::Keyfile("/tmp/home.key".to_string()),
    };
    for other in ["Root", "Usr", "Var", "Boot"] {
        assert!(!spec.matches(other), "must not match {}", other);
    }
}

#[test]
fn a_mapper_name_in_use_is_not_taken() {
    let active = vec!["Crypt-Root".to_string()];
    assert!(is_mapper_active("Crypt-Root", &active));
    assert!(!is_mapper_active("Crypt-Usr", &active));
    assert_eq!(resolve_mapper_name("Crypt-Usr", &active), "Crypt-Usr");
    assert_ne!(resolve_mapper_name("Crypt-Root", &active), "Crypt-Root");
}

fn encrypted() -> DeploymentConfig {
    let mut cfg = DeploymentConfig::sample();
    cfg.disk.encryption = true;
    cfg.disk.encryption_password = Some("hunter2".to_string());
    cfg
}

fn calls(steps: &[Step]) -> Vec<String> {
    steps
        .iter()
        .filter_map(|s| match s {
            Step::Cryptsetup(c) => Some(c.args.join(" ")),
            _ => None,
        })
        .collect()
}

#[test]
fn a_container_is_formatted_and_opened() {
    let (c, steps) = match setup_encryption(&encrypted(), "/dev/sda", 4, &vec![], false) {
        Ok(r) => r,
        Err(e) => panic!("{}", e.to_text()),
    };
    assert_eq!(c.mapper_name, "Crypt-Root");
    let calls = calls(&steps);
    assert_eq!(calls.len(), 2);
    assert!(calls[0].contains("luksFormat") && calls[0].contains("/dev/sda4"), "{calls:?}");
    assert!(calls[1].contains("open"), "{calls:?}");
    assert!(calls.iter().all(|c| !c.contains("hunter2")));
}

#[test]
fn a_container_needs_a_password() {
    let mut cfg = encrypted();
    cfg.disk.encryption_password = None;
    assert!(setup_encryption(&cfg, "/dev/sda", 4, &vec![], false).is_err());
}

#[test]
fn the_volume_to_keep_is_opened_and_not_formatted() {
    let parts = vec![
        LuksPartition { number: 4, name: "Root".into() },
        LuksPartition { number: 7, name: "Home".into() },
    ];
    let adopt = Some(AdoptSpec {
        volume_name: "home".into(),
        credential: Credential::Keyfile("/tmp/home.key".into()),
    });
    let (containers, steps) = match setup_multi_volume_encryption(
        &encrypted(), "/dev/sda", &parts, &adopt, &vec![], false,
    ) {
        Ok(r) => r,
        Err(e) => panic!("{}", e.to_text()),
    };
    assert_eq!(containers.len(), 2);
    let calls = calls(&steps);
    assert!(calls.iter().any(|c| c.contains("luksFormat") && c.contains("/dev/sda4")));
    assert!(!calls.iter().any(|c| c.contains("luksFormat") && c.contains("/dev/sda7")));
    assert!(calls.iter().any(|c| c.contains("--key-file /tmp/home.key")));
    let closing = close_multi_luks(&containers, true);
    assert_eq!(closing.len(), 2);
}

#[test]
fn a_uuid_is_read_or_missed() {
    assert_eq!(get_luks_uuid("/dev/sda4", true, "aa-bb
").ok().as_deref(), Some("aa-bb"));
    let e = get_luks_uuid("/dev/sda4", false, "").err().unwrap();
    assert!(e.to_text().contains("Failed to get LUKS UUID for /dev/sda4"));
}
