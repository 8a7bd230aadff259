//! Building AUR packages into a new set of snapshots.
use vstd::prelude::*;

use crate::aur::capability::AurCapability;
use crate::aur::helper::AurHelper;
use crate::aur::scratch;
use crate::aur::scratch::{build_env_prefix, ensure_build_root};
use crate::cleanup;
use crate::cleanup::is_under;
use crate::effects;
use crate::error::{DeploytixError, Result};
use crate::plan;
use crate::plan::{chroot, Act, Step};
use crate::text;
use crate::text::{concat, ends_with, join, lines, push_text, same, starts_with, Text};

verus! {

/// How a transaction ends: how many sets are kept, and whether the system is
/// started anew.
#[derive(Debug, Clone, Copy, PartialEq, Eq, Structural)]
pub struct UpdateOptions {
    pub keep_sets: usize,
    pub reboot: bool,
}

/// The same of a build.
#[derive(Debug, Clone, Copy, PartialEq, Eq, Structural)]
pub struct AurInstallOptions {
    pub keep_sets: usize,
    pub reboot: bool,
}

impl AurInstallOptions {
    /// A build ends like any other transaction.
    pub fn like_update(update: UpdateOptions) -> (r: Self)
        ensures
            r.keep_sets == update.keep_sets,
            r.reboot == update.reboot,
    {
        AurInstallOptions { keep_sets: update.keep_sets, reboot: update.reboot }
    }

    /// The options of the transaction that a build is.
    pub fn to_update(self) -> (r: UpdateOptions)
        ensures
            r.keep_sets == self.keep_sets,
            r.reboot == self.reboot,
    {
        UpdateOptions { keep_sets: self.keep_sets, reboot: self.reboot }
    }
}

pub const LVM_AB_REFUSAL: &'static str =
    "Building AUR packages is not implemented for the LVM A/B backend. Running the btrfs path here would build into a root that is not the one that boots.";

/// Why nothing can be built, where that is so.
pub open spec fn refusal(cap: AurCapability, is_lvm_ab: bool) -> Option<Text> {
    if is_lvm_ab {
        Some(LVM_AB_REFUSAL@)
    } else if cap.missing().len() > 0 {
        Some(cap.missing()[0].shown())
    } else {
        None
    }
}

pub fn refusal_reason(cap: &AurCapability, is_lvm_ab: bool) -> (r: Option<String>)
    ensures
        plan::seen(r) == refusal(*cap, is_lvm_ab),
{
    if is_lvm_ab {
        return Some(LVM_AB_REFUSAL.to_owned());
    }
    let blockers = cap.blockers();
    if blockers.len() > 0 {
        Some(blockers[0].to_text())
    } else {
        None
    }
}

/// The command that builds and installs packages.
pub open spec fn build_command(helper: AurHelper, user: Text, packages: Seq<Text>) -> Text {
    helper.command(user, scratch::assignments(scratch::env_pairs()), packages)
}

pub fn build_cmd(helper: AurHelper, build_user: &str, packages: &Vec<String>) -> (r: String)
    ensures
        r@ == build_command(helper, build_user@, packages.deep_view()),
{
    helper.install_cmd(build_user, build_env_prefix().as_str(), packages)
}

/// What is done inside the new set.
pub open spec fn build_steps(
    helper: AurHelper,
    user: Text,
    packages: Seq<Text>,
    target: Text,
    dry_run: bool,
) -> Seq<Act> {
    scratch::ensure_steps(target, user, dry_run) + seq![
        Act::Chroot { root: target, command: build_command(helper, user, packages) },
    ]
}

/// Builds packages inside a new set mounted at `target`. [`finish_aur_install`]
/// goes on from it; a set whose build fails is thrown away.
pub fn run_aur_install(
    cap: &AurCapability,
    packages: &Vec<String>,
    is_lvm_ab: bool,
    target: &str,
    dry_run: bool,
) -> (r: Result<Vec<Step>>)
    ensures
        match r {
            Ok(steps) => {
                &&& packages@.len() > 0
                &&& refusal(*cap, is_lvm_ab) is None
                &&& cap.helper matches Some(h)
                &&& cap.build_user matches Some(u)
                &&& plan::acts(steps@) == build_steps(
                    h,
                    u.name@,
                    packages.deep_view(),
                    target@,
                    dry_run,
                )
            },
            Err(e) => if packages@.len() == 0 {
                e.config_says("no AUR packages given"@)
            } else {
                refusal(*cap, is_lvm_ab) matches Some(reason) && e.config_says(reason)
            },
        },
{
    if packages.len() == 0 {
        return Err(DeploytixError::ConfigError("no AUR packages given".to_owned()));
    }
    if let Some(reason) = refusal_reason(cap, is_lvm_ab) {
        return Err(DeploytixError::ConfigError(reason));
    }
    match (&cap.helper, &cap.build_user) {
        (Some(h), Some(u)) => {
            let mut steps = ensure_build_root(target, u.name.as_str(), dry_run);
            chroot(&mut steps, target, build_cmd(*h, u.name.as_str(), packages).as_str());
            assert(plan::acts(steps@) =~= build_steps(
                *h,
                u.name@,
                packages.deep_view(),
                target@,
                dry_run,
            ));
            Ok(steps)
        },
        _ => {
            assert(cap.missing().len() > 0);
            Err(DeploytixError::ConfigError("no AUR helper or build user available".to_owned()))
        },
    }
}

pub const SHARED_STATE: &'static str =
    "These packages write to state shared by every snapshot set, which no rollback can undo:\n  ";

/// A file that all sets share, or that decides how they start: anything under /boot, the
/// kernel, and on an encrypted root what unlocks it and what the initramfs is made of.
pub open spec fn shared_file(path: Text, encrypted: bool) -> bool {
    ||| cleanup::under(path, "/boot"@)
    ||| text::begins(path, "/usr/lib/modules/"@) && text::ends(path, "/vmlinuz"@)
    ||| encrypted && (path == "/usr/bin/cryptsetup"@ || cleanup::under(
        path,
        "/usr/lib/initcpio"@,
    ))
}

/// The files of a listing that all sets share, in their order.
pub open spec fn shared_among(files: Seq<Text>, encrypted: bool) -> Seq<Text>
    decreases files.len(),
{
    if files.len() == 0 {
        seq![]
    } else if shared_file(files.last(), encrypted) {
        shared_among(files.drop_last(), encrypted).push(files.last())
    } else {
        shared_among(files.drop_last(), encrypted)
    }
}

/// What a build must not own, out of the listing of what it owns, one file in each line.
pub fn shared_files(listing: &str, encrypted: bool) -> (r: Vec<String>)
    ensures
        r.deep_view() == shared_among(text::lines_of(listing@), encrypted),
{
    let all = lines(listing);
    let ghost d = all.deep_view();
    let mut r: Vec<String> = Vec::new();
    assert(d.take(0) =~= seq![]);
    assert(r.deep_view() =~= seq![]);
    for i in 0..all.len()
        invariant
            d == all.deep_view(),
            r.deep_view() == shared_among(d.take(i as int), encrypted),
    {
        let f = all[i].as_str();
        proof {
            assert(d.take(i + 1).drop_last() =~= d.take(i as int));
            assert(d.take(i + 1).last() == f@);
        }
        let kernel = starts_with(f, "/usr/lib/modules/") && ends_with(f, "/vmlinuz");
        let unlocks = same(f, "/usr/bin/cryptsetup") || is_under(f, "/usr/lib/initcpio");
        if is_under(f, "/boot") || kernel || (encrypted && unlocks) {
            let ghost before = r.deep_view();
            push_text(&mut r, f);
            assert(r.deep_view() =~= before.push(f@));
        }
    }
    assert(d.take(all@.len() as int) =~= d);
    r
}

/// Goes on after the build: a set is not put to use where its packages own files
/// that all sets share, which `blocked` tells. Otherwise its initramfs is made.
pub fn finish_aur_install(blocked: &Vec<String>, target: &str) -> (r: Result<Vec<Step>>)
    ensures
        match r {
            Ok(steps) => blocked@.len() == 0 && plan::acts(steps@) == seq![
                Act::Chroot { root: target@, command: "mkinitcpio -P"@ },
            ],
            Err(e) => blocked@.len() > 0 && e.config_says(
                SHARED_STATE@ + text::joined(blocked.deep_view(), "\n  "@),
            ),
        },
{
    if blocked.len() > 0 {
        return Err(
            DeploytixError::ConfigError(concat(SHARED_STATE, join(blocked, "\n  ").as_str())),
        );
    }
    let mut steps: Vec<Step> = Vec::new();
    chroot(&mut steps, target, "mkinitcpio -P");
    assert(plan::acts(steps@) =~= seq![
        Act::Chroot { root: target@, command: "mkinitcpio -P"@ },
    ]);
    Ok(steps)
}

/// Where nothing stands in the way there is something to build with and somebody to
/// build as.
pub proof fn unrefused_means_equipped(cap: AurCapability, is_lvm_ab: bool)
    requires
        refusal(cap, is_lvm_ab) is None,
    ensures
        !is_lvm_ab,
        cap.helper is Some,
        cap.build_user is Some,
        cap.base_devel,
{
}

/// A file is held back exactly where all sets share it: below the boot partition or that
/// partition itself, a kernel among the modules, and, where the root is encrypted, the
/// program that unlocks it or whatever the initramfs is made of.
pub proof fn shared_files_are_found(files: Seq<Text>, encrypted: bool, f: Text)
    ensures
        shared_among(files, encrypted).contains(f) <==> files.contains(f) && {
            ||| f == "/boot"@
            ||| text::begins(f, "/boot/"@)
            ||| text::begins(f, "/usr/lib/modules/"@) && text::ends(f, "/vmlinuz"@)
            ||| encrypted && f == "/usr/bin/cryptsetup"@
            ||| encrypted && f == "/usr/lib/initcpio"@
            ||| encrypted && text::begins(f, "/usr/lib/initcpio/"@)
        },
    decreases files.len(),
{
    reveal_strlit("/");
    reveal_strlit("/boot");
    reveal_strlit("/boot/");
    reveal_strlit("/usr/lib/initcpio");
    reveal_strlit("/usr/lib/initcpio/");
    assert("/boot"@ + "/"@ =~= "/boot/"@);
    assert("/usr/lib/initcpio"@ + "/"@ =~= "/usr/lib/initcpio/"@);
    if files.len() > 0 {
        let init = files.drop_last();
        shared_files_are_found(init, encrypted, f);
        effects::lemma_sum_contains(init, seq![files.last()], f);
        assert(init + seq![files.last()] =~= files);
        assert(seq![files.last()].contains(f) <==> files.last() == f) by {
            assert(seq![files.last()][0] == files.last());
        }
        let some = shared_among(init, encrypted);
        effects::lemma_sum_contains(some, seq![files.last()], f);
        assert(some + seq![files.last()] =~= some.push(files.last()));
    }
}

/// Whatever is built is built by the user and not by the administrator, except where the
/// helper itself drops its rights: the command changes to the user before anything else.
pub proof fn builds_run_as_the_user(helper: AurHelper, user: Text, packages: Seq<Text>)
    requires
        helper != AurHelper::Aura,
    ensures
        text::begins(build_command(helper, user, packages), "sudo -u "@ + user + " env BUILDDIR="@),
        text::ends(build_command(helper, user, packages), " "@ + text::joined(packages, " "@)),
{
    let command = build_command(helper, user, packages);
    let pairs = scratch::env_pairs();
    let env = scratch::assignments(pairs);
    reveal_strlit("sudo -u ");
    reveal_strlit(" env ");
    reveal_strlit(" env BUILDDIR=");
    reveal_strlit("BUILDDIR");
    reveal_strlit("=");
    reveal_strlit(" ");
    lemma_first_assignment(pairs);
    let first = "BUILDDIR"@ + "="@;
    assert(env.subrange(0, 9) =~= first);
    let head = "sudo -u "@ + user + " env BUILDDIR="@;
    let n = ("sudo -u "@ + user + " env "@).len() as int;
    assert(command.subrange(0, n) =~= "sudo -u "@ + user + " env "@);
    assert(command.subrange(n, n + 9) =~= env.subrange(0, 9));
    assert(head =~= ("sudo -u "@ + user + " env "@) + first);
    assert(command.subrange(0, head.len() as int) =~= head) by {
        assert forall|i: int| 0 <= i < head.len() implies command[i] == head[i] by {
            if i < n {
                assert(command[i] == command.subrange(0, n)[i]);
            } else {
                assert(command[i] == command.subrange(n, n + 9)[i - n]);
            }
        }
    }
    let last = " "@ + text::joined(packages, " "@);
    assert(command.subrange(command.len() - last.len(), command.len() as int) =~= last);
}

proof fn lemma_first_assignment(pairs: Seq<(Text, Text)>)
    requires
        pairs.len() > 0,
    ensures
        text::begins(scratch::assignments(pairs), pairs[0].0 + "="@),
    decreases pairs.len(),
{
    let s = scratch::assignments(pairs);
    let p = pairs[0].0 + "="@;
    if pairs.len() > 1 {
        lemma_first_assignment(pairs.drop_last());
        let t = scratch::assignments(pairs.drop_last());
        assert(t.subrange(0, p.len() as int) == p);
        assert(s.subrange(0, p.len() as int) =~= t.subrange(0, p.len() as int));
    } else {
        assert(scratch::assignments(pairs.drop_last()) =~= seq![]);
        assert(s.subrange(0, p.len() as int) =~= p);
    }
}

} // verus!
