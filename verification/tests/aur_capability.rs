use deploytix::aur::capability::{
    base_devel_cmd, first_regular_user, is_login_shell, resolve_build_user, AurCapability, Blocker,
    BuildUser, BuildUserSource,
};
use deploytix::aur::helper::AurHelper;

const PASSWD: &str = "\
root:x:0:0::/root:/bin/bash
bin:x:1:1::/:/usr/bin/nologin
http:x:33:33::/srv/http:/usr/bin/nologin
nobody:x:65534:65534:Nobody:/:/usr/bin/nologin
superphenotype:x:1000:1000::/home/superphenotype:/bin/bash
guest:x:1001:1001::/home/guest:/bin/zsh
";

#[test]
fn pkexec_uid_wins_over_sudo_and_the_passwd_scan() {
    let user = resolve_build_user(Some("1001"), Some("1000"), PASSWD).expect("a build user");
    assert_eq!(user.name, "guest");
    assert_eq!(user.source, BuildUserSource::Pkexec);
    assert!(!user.source.is_guess());
}

#[test]
fn sudo_uid_used_when_pkexec_absent() {
    let user = resolve_build_user(None, Some("1000"), PASSWD).unwrap();
    assert_eq!(user.name, "superphenotype");
    assert_eq!(user.source, BuildUserSource::Sudo);
}

#[test]
fn falls_back_to_lowest_regular_uid_and_admits_it_is_a_guess() {
    let user = resolve_build_user(None, None, PASSWD).unwrap();
    assert_eq!(user.name, "superphenotype");
    assert_eq!(user.uid, 1000);
    assert!(user.source.is_guess());
}

#[test]
fn passwd_order_does_not_change_the_guess() {
    let reordered = "\
guest:x:1001:1001::/home/guest:/bin/zsh
superphenotype:x:1000:1000::/home/superphenotype:/bin/bash
";
    assert_eq!(first_regular_user(reordered).unwrap().0, "superphenotype");
}

#[test]
fn never_picks_root_or_a_system_account() {
    let only_system = "\
root:x:0:0::/root:/bin/bash
bin:x:1:1::/:/usr/bin/nologin
";
    assert!(first_regular_user(only_system).is_none());
    assert!(resolve_build_user(None, None, only_system).is_none());
}

#[test]
fn never_picks_nobody() {
    let with_nobody = "nobody:x:65534:65534:Nobody:/:/bin/bash\n";
    assert!(first_regular_user(with_nobody).is_none());
}

#[test]
fn an_env_uid_with_no_matching_account_falls_through_to_the_scan() {
    let user = resolve_build_user(Some("4242"), None, PASSWD).unwrap();
    assert_eq!(user.source, BuildUserSource::PasswdScan);
    assert_eq!(user.name, "superphenotype");
}

#[test]
fn a_nonnumeric_env_uid_is_ignored() {
    let user = resolve_build_user(Some("nonsense"), None, PASSWD).unwrap();
    assert_eq!(user.source, BuildUserSource::PasswdScan);
}

#[test]
fn nologin_accounts_are_not_build_users() {
    assert!(!is_login_shell("/usr/bin/nologin"));
    assert!(!is_login_shell("/bin/false"));
    assert!(!is_login_shell(""));
    assert!(is_login_shell("/bin/bash"));
}

#[test]
fn malformed_passwd_lines_are_skipped_not_fatal() {
    let junk = "garbage\n::::\nsuperphenotype:x:1000:1000::/home/s:/bin/bash\n";
    assert_eq!(first_regular_user(junk).unwrap().0, "superphenotype");
}

#[test]
fn unreadable_passwd_yields_a_blocker_rather_than_a_wrong_name() {
    assert!(resolve_build_user(None, None, "").is_none());
}

#[test]
fn every_missing_piece_is_reported_not_just_the_first() {
    let cap = AurCapability::default().with_blockers();
    assert_eq!(cap.blockers.len(), 3);
    assert!(cap.blockers.contains(&Blocker::NoHelper));
    assert!(cap.blockers.contains(&Blocker::NoBuildUser));
    assert!(cap.blockers.contains(&Blocker::NoBaseDevel));
    assert!(!cap.is_ready());
}

#[test]
fn fully_equipped_system_is_ready() {
    let cap = AurCapability {
        helpers: vec![AurHelper::Paru],
        helper: Some(AurHelper::Paru),
        build_user: Some(BuildUser {
            name: "deck".into(),
            uid: 1000,
            source: BuildUserSource::Pkexec,
        }),
        base_devel: true,
        blockers: Vec::new(),
    }
    .with_blockers();
    assert!(cap.is_ready());
    assert_eq!(cap.summary(), "paru, building as deck");
}

#[test]
fn summary_explains_the_blocker_rather_than_saying_unavailable() {
    let cap = AurCapability::default().with_blockers();
    assert!(cap.summary().contains("No AUR helper"));
}

#[test]
fn base_devel_probe_uses_group_query() {
    assert!(base_devel_cmd().contains("-Qg"));
    assert!(!base_devel_cmd().contains("-Qi"));
}

#[test]
fn each_source_of_a_build_user_has_its_label() {
    assert_eq!(BuildUserSource::Pkexec.label(), "the user who authenticated");
    assert_eq!(BuildUserSource::Sudo.label(), "the user who ran sudo");
    assert_eq!(BuildUserSource::PasswdScan.label(), "first regular account (guessed)");
}

#[test]
fn an_account_of_the_system_is_never_handed_a_build() {
    let passwd = "root:x:0:0::/root:/bin/bash\nsuperphenotype:x:1000:1000::/home/superphenotype:/bin/bash\n";
    let user = resolve_build_user(Some("0"), None, passwd).unwrap();
    assert_eq!((user.name.as_str(), user.uid), ("superphenotype", 1000));
    assert_eq!(user.source, BuildUserSource::PasswdScan);
    let user = resolve_build_user(Some("0"), Some("1000"), passwd).unwrap();
    assert_eq!(user.source, BuildUserSource::Sudo);
    assert!(resolve_build_user(Some("0"), Some("0"), "root:x:0:0::/root:/bin/bash\n").is_none());
}
