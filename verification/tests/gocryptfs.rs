use deploytix::config::model::DeploymentConfig;
use deploytix::configure::gocryptfs::{
    allow_other, setup_encrypted_home, with_pam_mount, with_volume_entry,
};
use deploytix::plan::Step;

#[test]
fn fuse_lets_users_share_their_mounts() {
    assert!(allow_other("user_allow_other\n").is_none());
    assert_eq!(allow_other("#user_allow_other\n").as_deref(), Some("user_allow_other\n"));
    assert_eq!(allow_other("mount_max = 9\n").as_deref(), Some("mount_max = 9\nuser_allow_other\n"));
    let twice = allow_other("##user_allow_other\n").expect("a new file");
    assert!(twice.lines().any(|l| l == "user_allow_other"));
    assert!(allow_other(&twice).is_none());
}

#[test]
fn a_user_has_one_volume_entry() {
    let first = with_volume_entry("<pam_mount>\n</pam_mount>\n", "deck").expect("an entry");
    assert!(first.contains("<volume user=\"deck\""));
    assert!(first.ends_with("</pam_mount>\n"));
    assert!(with_volume_entry(&first, "deck").is_none());
    assert!(with_volume_entry("", "deck").expect("a file").starts_with("<?xml"));
}

const LOGIN: &str = "#%PAM-1.0
auth      required  pam_shells.so
auth      include   system-auth
account   include   system-auth
session   include   system-auth
session   optional  pam_motd.so
";

#[test]
fn pam_mount_stands_before_auth_and_after_session() {
    let new = with_pam_mount(LOGIN).expect("a new file");
    let lines: Vec<&str> = new.lines().collect();
    let auth = lines.iter().position(|l| *l == "auth      include   system-auth").unwrap();
    let session = lines.iter().position(|l| *l == "session   include   system-auth").unwrap();
    assert!(lines[auth - 1].starts_with("auth") && lines[auth - 1].contains("pam_mount.so"));
    assert!(lines[session + 1].starts_with("session") && lines[session + 1].contains("pam_mount.so"));
    for l in LOGIN.lines() {
        assert!(lines.contains(&l), "{l} is gone");
    }
    assert!(with_pam_mount(&new).is_none());
}

#[test]
fn two_lines_are_added_to_the_login_and_none_is_changed() {
    let new = with_pam_mount(LOGIN).expect("a new file");
    let kept: Vec<&str> = new.lines().filter(|l| !l.contains("pam_mount.so")).collect();
    assert_eq!(kept, LOGIN.lines().collect::<Vec<&str>>());
    assert_eq!(new.lines().count(), LOGIN.lines().count() + 2);
}

#[test]
fn a_dry_run_of_the_encrypted_home_only_prints() {
    let mut c = DeploymentConfig::sample();
    c.user.encrypt_home = true;
    let steps = setup_encrypted_home(&c, "", "", LOGIN, "/mnt", true);
    assert!(steps.iter().all(|s| matches!(s, Step::Say(_))));
    let real = setup_encrypted_home(&c, "", "", LOGIN, "/mnt", false);
    assert!(real.iter().any(|s| matches!(s,
        Step::Write { path, .. } if path == "/mnt/etc/pam.d/system-login")));
}
