//! Arch's repositories in the target's pacman.conf.
use vstd::prelude::*;

use crate::configure::recovery;
use crate::configure::recovery::has_extra;
use crate::plan;
use crate::plan::{say, try_chroot, write_file, Act, Step};
use crate::text;
use crate::text::{concat, trim_end, Text};

verus! {

/// The list of Arch's mirrors, in the target.
pub const MIRRORLIST_ARCH: &'static str = "/etc/pacman.d/mirrorlist-arch";

pub const REPOS_1: &'static str = r#"

# Arch Linux repositories (added by deploytix installer)
[extra]
SigLevel = PackageRequired
"#;

pub const REPOS_2: &'static str = r#"

[multilib]
SigLevel = PackageRequired
"#;

/// Arch's repositories.
pub open spec fn repos_section_text(mirror: Text) -> Text {
    REPOS_1@ + mirror + REPOS_2@ + mirror + "\n"@
}

fn repos_section(mirror: &str) -> (r: String)
    ensures
        r@ == repos_section_text(mirror@),
{
    let mut s = REPOS_1.to_owned();
    s.push_str(mirror);
    s.push_str(REPOS_2);
    s.push_str(mirror);
    s.push_str("\n");
    s
}

pub open spec fn mirror_line(mirrorlist_exists: bool) -> Text {
    if mirrorlist_exists {
        "Include = "@ + MIRRORLIST_ARCH@
    } else {
        "Server = https://geo.mirror.pkgbuild.com/$repo/os/$arch"@
    }
}

/// Making Arch's repositories available in the target, given its pacman.conf.
pub open spec fn configure_arch_repos_steps(
    conf: Text,
    mirrorlist_exists: bool,
    install_root: Text,
    dry_run: bool,
) -> Seq<Act> {
    let path = install_root + "/etc/pacman.conf"@;
    if dry_run {
        if recovery::names_extra(conf) {
            seq![]
        } else {
            seq![
                Act::Say("  [dry-run] Would append [extra] and [multilib] to "@ + path),
                Act::Say("  [dry-run] Would run pacman-key --populate archlinux in chroot"@),
            ]
        }
    } else {
        (if recovery::names_extra(conf) {
            seq![]
        } else {
            seq![
                Act::Write {
                    path,
                    content: text::trimmed_end(conf) + repos_section_text(
                        mirror_line(mirrorlist_exists),
                    ),
                    mode: None,
                },
            ]
        }) + seq![
            Act::TryChroot { root: install_root, command: "pacman-key --populate archlinux"@ },
        ]
    }
}

/// Makes Arch's repositories available. `conf` is the content of the target's
/// pacman.conf, empty where it is missing.
pub fn configure_arch_repos(
    conf: &str,
    mirrorlist_exists: bool,
    install_root: &str,
    dry_run: bool,
) -> (r: Vec<Step>)
    ensures
        plan::acts(r@) == configure_arch_repos_steps(
            conf@,
            mirrorlist_exists,
            install_root@,
            dry_run,
        ),
{
    let mut steps: Vec<Step> = Vec::new();
    let path = concat(install_root, "/etc/pacman.conf");
    let present = has_extra(conf);
    if dry_run {
        if !present {
            say(
                &mut steps,
                concat(
                    "  [dry-run] Would append [extra] and [multilib] to ",
                    path.as_str(),
                ).as_str(),
            );
            say(&mut steps, "  [dry-run] Would run pacman-key --populate archlinux in chroot");
        }
    } else {
        if !present {
            let mirror = if mirrorlist_exists {
                concat("Include = ", MIRRORLIST_ARCH)
            } else {
                "Server = https://geo.mirror.pkgbuild.com/$repo/os/$arch".to_owned()
            };
            let section = repos_section(mirror.as_str());
            write_file(
                &mut steps,
                path.as_str(),
                concat(trim_end(conf).as_str(), section.as_str()).as_str(),
                None,
            );
        }
        try_chroot(&mut steps, install_root, "pacman-key --populate archlinux");
    }
    assert(plan::acts(steps@) =~= configure_arch_repos_steps(
        conf@,
        mirrorlist_exists,
        install_root@,
        dry_run,
    ));
    steps
}

} // verus!
