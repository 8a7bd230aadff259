use deploytix::config::model::DeploymentConfig;
use deploytix::config::options::SecureBootMethod;
use deploytix::configure::secureboot::{
    expected_key_files, get_signing_key_paths, setup_secureboot, sign_boot_files,
    verify_secureboot_status,
};
use deploytix::plan::Step;

fn config(method: SecureBootMethod) -> DeploymentConfig {
    let mut c = DeploymentConfig::sample();
    c.system.secureboot = true;
    c.system.secureboot_method = method;
    c.system.secureboot_keys_path = Some("/keys".to_string());
    c
}

fn steps_of(c: &DeploymentConfig, present: &Vec<bool>) -> Vec<Step> {
    match setup_secureboot(c, "/mnt", present, false) {
        Ok(steps) => steps,
        Err(e) => panic!("{}", e.to_text()),
    }
}

#[test]
fn a_missing_key_is_named() {
    let mut present = vec![true; expected_key_files().len()];
    present[2] = false;
    let e = match setup_secureboot(&config(SecureBootMethod::ManualKeys), "/mnt", &present, false) {
        Err(e) => e.to_text(),
        Ok(_) => panic!("a missing key was accepted"),
    };
    assert_eq!(e, "Missing SecureBoot key file: /keys/KEK.key");
}

#[test]
fn manual_keys_need_a_path() {
    let mut c = config(SecureBootMethod::ManualKeys);
    c.system.secureboot_keys_path = None;
    let e = match setup_secureboot(&c, "/mnt", &vec![true; 6], false) {
        Err(e) => e.to_text(),
        Ok(_) => panic!("keys from nowhere were accepted"),
    };
    assert_eq!(e, "SecureBoot keys path required for ManualKeys method");
}

#[test]
fn private_keys_are_copied_and_kept_private() {
    let steps = steps_of(&config(SecureBootMethod::ManualKeys), &vec![true; 6]);
    let copied = steps.iter().filter(|s| matches!(s, Step::Copy { .. })).count();
    assert_eq!(copied, 6);
    let locked: Vec<&str> = steps
        .iter()
        .filter_map(|s| match s {
            Step::SetMode { path, mode: 0o600 } => Some(path.as_str()),
            _ => None,
        })
        .collect();
    assert_eq!(
        locked,
        vec![
            "/mnt/etc/secureboot/keys/PK.key",
            "/mnt/etc/secureboot/keys/KEK.key",
            "/mnt/etc/secureboot/keys/db.key",
        ]
    );
}

#[test]
fn keys_lie_where_their_method_puts_them() {
    assert_eq!(
        get_signing_key_paths(&config(SecureBootMethod::Shim), "/mnt"),
        (
            "/mnt/etc/secureboot/MOK/MOK.key".to_string(),
            "/mnt/etc/secureboot/MOK/MOK.crt".to_string()
        )
    );
}

#[test]
fn without_secure_boot_nothing_is_signed() {
    let c = DeploymentConfig::sample();
    assert!(!c.system.secureboot);
    assert!(sign_boot_files(&c, "/mnt", false).is_empty());
    assert!(steps_of(&c, &vec![false; 6]).is_empty());
}

#[test]
fn the_status_is_read_from_what_sbctl_prints() {
    assert!(!verify_secureboot_status(""));
}
