use deploytix::aur::scratch::{
    build_env, build_env_prefix, ensure_build_root, ensure_build_root_cmd, subdir, subdirs,
    BUILD_ROOT,
};
use deploytix::plan::Step;

#[test]
fn build_root_is_under_var_so_it_is_rbound_into_a_set() {
    assert!(BUILD_ROOT.starts_with("/var/"));
}

#[test]
fn build_root_is_not_under_tmp() {
    assert!(!BUILD_ROOT.starts_with("/tmp"));
}

#[test]
fn env_redirects_every_makepkg_output_path() {
    let env = build_env();
    for key in ["BUILDDIR", "SRCDEST", "PKGDEST", "SRCPKGDEST", "LOGDEST"] {
        let (_, value) = env
            .iter()
            .find(|(k, _)| k == key)
            .unwrap_or_else(|| panic!("{key} missing from build_env()"));
        assert!(
            value.starts_with(BUILD_ROOT),
            "{key} points outside the build root: {value}"
        );
    }
}

#[test]
fn env_sets_tmpdir_away_from_tmp() {
    let env = build_env();
    let (_, tmpdir) = env.iter().find(|(k, _)| k == "TMPDIR").expect("TMPDIR");
    assert!(!tmpdir.starts_with("/tmp"));
}

#[test]
fn prefix_is_prependable() {
    let prefix = build_env_prefix();
    assert!(
        prefix.ends_with(' '),
        "prefix must separate from the command"
    );
    assert!(prefix.contains("BUILDDIR=/var/cache/deploytix/build/build"));
    let rendered = format!("{prefix}makepkg -si");
    assert!(rendered.ends_with("makepkg -si"));
}

#[test]
fn ensure_cmd_creates_every_subdir_and_chowns_the_root() {
    let sh = ensure_build_root_cmd("builder");
    for d in ["build", "src", "pkg", "srcpkg", "log"] {
        assert!(sh.contains(&subdir(d)), "missing subdir {d}");
    }
    assert_eq!(subdirs().len(), 5);
    assert!(sh.contains("chown -R builder:builder /var/cache/deploytix/build"));
}

#[test]
fn ensure_cmd_is_idempotent_in_shape() {
    let sh = ensure_build_root_cmd("builder");
    assert!(sh.contains("mkdir -p"));
    assert!(!sh.contains("mkdir ") || sh.contains("mkdir -p"));
}

#[test]
fn ensuring_the_build_root_is_one_command_in_the_target() {
    let steps = ensure_build_root("/mnt/set", "builder", false);
    assert_eq!(steps.len(), 1);
    match &steps[0] {
        Step::Chroot { root, command } => {
            assert_eq!(root, "/mnt/set");
            assert_eq!(command, &ensure_build_root_cmd("builder"));
        }
        _ => panic!("not a command in the target"),
    }
}
