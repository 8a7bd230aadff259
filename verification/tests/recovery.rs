use deploytix::configure::recovery::{
    advance, has_extra, inject_config_flag, is_signature_error, next_action, relax_pacman_conf,
    with_extra_repo, Action, Outcome, Stage,
};

const REFUSAL: &str = "error: foo: signature is unknown trust";

/// Runs a recovery against what each action brings, and tells what was done.
fn run(command: &str, bring: fn(usize, &Action) -> Outcome) -> (Vec<String>, bool) {
    let mut stage = Stage::First;
    let mut done: Vec<String> = Vec::new();
    loop {
        let action = next_action(stage, command);
        match &action {
            Action::Command(c) => done.push(c.clone()),
            Action::WriteRelaxed => done.push("write".to_string()),
            Action::RemoveRelaxed => done.push("remove".to_string()),
            Action::Report { succeeded } => return (done, *succeeded),
        }
        stage = advance(stage, &bring(done.len(), &action));
    }
}

#[test]
fn a_command_that_works_is_run_once() {
    let (done, succeeded) = run("pacman -S x", |_, _| Outcome::Succeeded);
    assert_eq!(done, vec!["pacman -S x"]);
    assert!(succeeded);
}

#[test]
fn another_failure_is_reported_at_once() {
    let (done, succeeded) = run("pacman -S x", |_, _| {
        Outcome::Refused("error: target not found: x".to_string())
    });
    assert_eq!(done.len(), 1);
    assert!(!succeeded);
}

#[test]
fn a_refused_signature_leads_to_a_fresh_keyring_and_a_second_try() {
    let (done, succeeded) = run("pacman -S x", |n, _| {
        if n == 1 {
            Outcome::Refused(REFUSAL.to_string())
        } else {
            Outcome::Succeeded
        }
    });
    assert_eq!(
        done,
        vec![
            "pacman -S x",
            "pacman -Scc --noconfirm",
            "pacman-key --init",
            "pacman -Sy --noconfirm artix-keyring",
            "pacman-key --populate artix",
            "pacman-key --populate archlinux",
            "pacman -S x",
        ]
    );
    assert!(succeeded);
}

#[test]
fn the_policy_is_relaxed_for_one_command_and_put_back() {
    let (done, succeeded) = run("pacman -S x", |_, action| match action {
        Action::Command(c) if c.ends_with("-S x") => Outcome::Refused(REFUSAL.to_string()),
        _ => Outcome::Succeeded,
    });
    assert_eq!(done[7..], ["pacman -Scc --noconfirm", "write",
        "pacman --config /etc/deploytix-siglevel.conf -S x", "remove"]);
    assert!(!succeeded);
}

#[test]
fn a_keyring_that_cannot_be_made_ends_it() {
    let (done, succeeded) = run("pacman -S x", |_, action| match action {
        Action::Command(c) if c == "pacman-key --init" => Outcome::Failed,
        Action::Command(c) if c == "pacman -S x" => Outcome::Refused(REFUSAL.to_string()),
        _ => Outcome::Succeeded,
    });
    assert_eq!(done.len(), 3);
    assert!(!succeeded);
}

#[test]
fn signature_errors_are_told_by_what_pacman_prints() {
    assert!(is_signature_error("signature from \"X\" is invalid"));
    assert!(is_signature_error("key \"AB\" could not be looked up remotely"));
    assert!(is_signature_error("required key missing from keyring"));
    assert!(!is_signature_error("signature from \"X\" is fine"));
    assert!(!is_signature_error("disk full"));
}

#[test]
fn only_set_policies_are_relaxed() {
    assert_eq!(
        relax_pacman_conf("[options]\nSigLevel    = Required\n#SigLevel = Never\n[system]\n"),
        "[options]\nSigLevel = Optional TrustAll\n#SigLevel = Never\n[system]\n"
    );
}

#[test]
fn options_without_a_policy_get_the_relaxed_one() {
    assert_eq!(
        relax_pacman_conf("[options]\nColor\n[system]\nSigLevel = Required\n"),
        "[options]\nSigLevel = Optional TrustAll\nColor\n[system]\nSigLevel = Optional TrustAll\n"
    );
    assert_eq!(
        relax_pacman_conf("[system]\n"),
        "[options]\nSigLevel = Optional TrustAll\n[system]\n"
    );
}

#[test]
fn other_programs_get_no_flag() {
    assert_eq!(inject_config_flag("yay -S x"), "yay -S x");
}

#[test]
fn the_extra_repository_is_added_once() {
    let conf = "[options]\n[system]\n";
    assert!(!has_extra(conf));
    let more = with_extra_repo(conf, true).expect("a new file");
    assert!(has_extra(&more));
    assert!(with_extra_repo(&more, true).is_none());
}
