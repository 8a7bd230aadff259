//! The initramfs: which modules, programs, files and hooks go into it.
use vstd::prelude::*;

use crate::text;
use crate::plan;
use crate::config::model::DeploymentConfig;
use crate::config::options::{Filesystem, PartitionLayout};
use crate::configure::keyfiles;
use crate::effects;
use crate::plan::{chroot, copy_file, say, write_file, Act, Step};
use crate::text::{concat, join, lines, push_text, Text};

verus! {

/// The kernel module of a filesystem. ZFS comes with its hook instead.
pub open spec fn module_of(fs: Filesystem) -> Seq<Text> {
    match fs {
        Filesystem::Btrfs => seq!["btrfs"@],
        Filesystem::Ext4 => seq!["ext4"@],
        Filesystem::Xfs => seq!["xfs"@],
        Filesystem::Zfs => seq![],
        Filesystem::F2fs => seq!["f2fs"@],
    }
}

fn push_module(modules: &mut Vec<String>, fs: Filesystem)
    ensures
        final(modules).deep_view() == old(modules).deep_view() + module_of(fs),
{
    match fs {
        Filesystem::Btrfs => push_text(modules, "btrfs"),
        Filesystem::Ext4 => push_text(modules, "ext4"),
        Filesystem::Xfs => push_text(modules, "xfs"),
        Filesystem::Zfs => {},
        Filesystem::F2fs => push_text(modules, "f2fs"),
    }
    assert(modules.deep_view() =~= old(modules).deep_view() + module_of(fs));
}

/// `list` where `b` holds, else nothing.
pub open spec fn if_so(b: bool, list: Seq<Text>) -> Seq<Text> {
    if b {
        list
    } else {
        seq![]
    }
}

/// The modules: those of the two filesystems, those of the EFI partition, and
/// those of the device mapper that encryption and thin volumes need.
pub open spec fn modules_of(config: DeploymentConfig) -> Seq<Text> {
    let d = config.disk;
    module_of(d.filesystem) + if_so(
        d.boot_filesystem != d.filesystem,
        module_of(d.boot_filesystem),
    ) + seq!["vfat"@, "fat"@, "nls_cp437"@, "nls_iso8859_1"@] + if_so(
        d.encryption,
        seq!["dm_crypt"@, "dm_mod"@],
    ) + if_so(d.encryption && d.integrity, seq!["dm_integrity"@]) + if_so(
        d.use_lvm_thin,
        seq!["dm_thin_pool"@],
    )
}

pub fn construct_modules(config: &DeploymentConfig) -> (r: Vec<String>)
    ensures
        r.deep_view() == modules_of(*config),
{
    let ghost d = config.disk;
    let mut modules: Vec<String> = Vec::new();
    push_module(&mut modules, config.disk.filesystem);
    if config.disk.boot_filesystem != config.disk.filesystem {
        push_module(&mut modules, config.disk.boot_filesystem);
    }
    let ghost m0 = module_of(d.filesystem) + if_so(
        d.boot_filesystem != d.filesystem,
        module_of(d.boot_filesystem),
    );
    assert(modules.deep_view() =~= m0);
    push_text(&mut modules, "vfat");
    push_text(&mut modules, "fat");
    push_text(&mut modules, "nls_cp437");
    push_text(&mut modules, "nls_iso8859_1");
    let ghost m1 = m0 + seq!["vfat"@, "fat"@, "nls_cp437"@, "nls_iso8859_1"@];
    assert(modules.deep_view() =~= m1);
    if config.disk.encryption {
        push_text(&mut modules, "dm_crypt");
        push_text(&mut modules, "dm_mod");
    }
    let ghost m2 = m1 + if_so(d.encryption, seq!["dm_crypt"@, "dm_mod"@]);
    assert(modules.deep_view() =~= m2);
    if config.disk.encryption && config.disk.integrity {
        push_text(&mut modules, "dm_integrity");
    }
    let ghost m3 = m2 + if_so(d.encryption && d.integrity, seq!["dm_integrity"@]);
    assert(modules.deep_view() =~= m3);
    if config.disk.use_lvm_thin {
        push_text(&mut modules, "dm_thin_pool");
    }
    assert(modules.deep_view() =~= m3 + if_so(d.use_lvm_thin, seq!["dm_thin_pool"@]));
    modules
}

/// Each data partition has a LUKS container of its own.
pub open spec fn multi_luks(config: DeploymentConfig) -> bool {
    config.disk.encryption && !config.disk.use_lvm_thin
}

/// The hooks that every initramfs starts with.
pub open spec fn first_hooks() -> Seq<Text> {
    seq![
        "base"@,
        "udev"@,
        "autodetect"@,
        "modconf"@,
        "block"@,
        "keyboard"@,
        "keymap"@,
        "consolefont"@,
    ]
}

/// The hooks that mount the root by the usual way: btrfs and resume come
/// before the filesystems.
pub open spec fn mounting_hooks(config: DeploymentConfig) -> Seq<Text> {
    if_so(config.disk.filesystem == Filesystem::Btrfs, seq!["btrfs"@]) + if_so(
        config.system.hibernation,
        seq!["resume"@],
    ) + seq!["filesystems"@, "fsck"@]
}

/// The hooks. Separate containers are unlocked and mounted by hooks of this
/// project; a volume group lies in one container that `encrypt` opens, the boot
/// container aside; without either the usual hooks suffice.
pub open spec fn hooks_of(config: DeploymentConfig) -> Seq<Text> {
    let d = config.disk;
    first_hooks() + if_so(d.encryption || d.use_lvm_thin, seq!["lvm2"@]) + (if multi_luks(config) {
        seq!["crypttab-unlock"@, "mountcrypt"@]
    } else if d.use_lvm_thin {
        if_so(d.encryption, seq!["encrypt"@]) + if_so(d.boot_encryption, seq!["crypttab-unlock"@])
            + mounting_hooks(config) + seq!["usr"@]
    } else {
        mounting_hooks(config) + if_so(d.layout == PartitionLayout::Standard, seq!["usr"@])
    })
}

fn push_mounting_hooks(hooks: &mut Vec<String>, config: &DeploymentConfig)
    ensures
        final(hooks).deep_view() == old(hooks).deep_view() + mounting_hooks(*config),
{
    if config.disk.filesystem == Filesystem::Btrfs {
        push_text(hooks, "btrfs");
    }
    if config.system.hibernation {
        push_text(hooks, "resume");
    }
    push_text(hooks, "filesystems");
    push_text(hooks, "fsck");
    assert(hooks.deep_view() =~= old(hooks).deep_view() + mounting_hooks(*config));
}

pub fn construct_hooks(config: &DeploymentConfig) -> (r: Vec<String>)
    ensures
        r.deep_view() == hooks_of(*config),
{
    let uses_lvm_thin = config.disk.use_lvm_thin;
    let uses_encryption = config.disk.encryption;
    let mut hooks: Vec<String> = Vec::new();
    push_text(&mut hooks, "base");
    push_text(&mut hooks, "udev");
    push_text(&mut hooks, "autodetect");
    push_text(&mut hooks, "modconf");
    push_text(&mut hooks, "block");
    push_text(&mut hooks, "keyboard");
    push_text(&mut hooks, "keymap");
    push_text(&mut hooks, "consolefont");
    assert(hooks.deep_view() =~= first_hooks());
    if uses_encryption || uses_lvm_thin {
        push_text(&mut hooks, "lvm2");
    }
    if uses_encryption && !uses_lvm_thin {
        push_text(&mut hooks, "crypttab-unlock");
        push_text(&mut hooks, "mountcrypt");
    } else if uses_lvm_thin {
        if uses_encryption {
            push_text(&mut hooks, "encrypt");
        }
        if config.disk.boot_encryption {
            push_text(&mut hooks, "crypttab-unlock");
        }
        push_mounting_hooks(&mut hooks, config);
        push_text(&mut hooks, "usr");
    } else {
        push_mounting_hooks(&mut hooks, config);
        if config.disk.layout == PartitionLayout::Standard {
            push_text(&mut hooks, "usr");
        }
    }
    assert(hooks.deep_view() =~= hooks_of(*config));
    hooks
}

/// The programs that go into the initramfs, whatever the configuration.
pub fn construct_binaries(_config: &DeploymentConfig) -> (r: Vec<String>)
    ensures
        r.deep_view() == seq!["lsblk"@],
{
    let mut binaries: Vec<String> = Vec::new();
    push_text(&mut binaries, "lsblk");
    assert(binaries.deep_view() =~= seq!["lsblk"@]);
    binaries
}

/// The files: crypttab and the keyfiles that the hooks read. A volume group
/// has keyfiles only where boot is encrypted too.
pub open spec fn files_of(config: DeploymentConfig) -> Seq<Text> {
    let d = config.disk;
    if multi_luks(config) {
        seq![
            "/etc/crypttab"@,
            "/etc/cryptsetup-keys.d/cryptroot.key"@,
            "/etc/cryptsetup-keys.d/cryptusr.key"@,
            "/etc/cryptsetup-keys.d/cryptvar.key"@,
            "/etc/cryptsetup-keys.d/crypthome.key"@,
        ] + if_so(d.boot_encryption, seq!["/etc/cryptsetup-keys.d/cryptboot.key"@])
    } else if d.use_lvm_thin && d.encryption && d.boot_encryption {
        seq![
            "/etc/cryptsetup-keys.d/cryptlvm.key"@,
            "/etc/crypttab"@,
            "/etc/cryptsetup-keys.d/cryptboot.key"@,
        ]
    } else {
        seq![]
    }
}

pub fn construct_files(config: &DeploymentConfig) -> (r: Vec<String>)
    ensures
        r.deep_view() == files_of(*config),
{
    let uses_lvm_thin = config.disk.use_lvm_thin;
    let mut files: Vec<String> = Vec::new();
    if config.disk.encryption && !uses_lvm_thin {
        push_text(&mut files, "/etc/crypttab");
        push_text(&mut files, "/etc/cryptsetup-keys.d/cryptroot.key");
        push_text(&mut files, "/etc/cryptsetup-keys.d/cryptusr.key");
        push_text(&mut files, "/etc/cryptsetup-keys.d/cryptvar.key");
        push_text(&mut files, "/etc/cryptsetup-keys.d/crypthome.key");
        if config.disk.boot_encryption {
            push_text(&mut files, "/etc/cryptsetup-keys.d/cryptboot.key");
        }
    }
    if uses_lvm_thin && config.disk.encryption && config.disk.boot_encryption {
        push_text(&mut files, "/etc/cryptsetup-keys.d/cryptlvm.key");
        push_text(&mut files, "/etc/crypttab");
        push_text(&mut files, "/etc/cryptsetup-keys.d/cryptboot.key");
    }
    assert(files.deep_view() =~= files_of(*config));
    files
}

/// Crypttab and the given keyfiles, where the disk is encrypted.
pub fn construct_files_with_keyfiles(
    config: &DeploymentConfig,
    keyfile_paths: &Vec<String>,
) -> (r: Vec<String>)
    ensures
        r.deep_view() == if_so(
            config.disk.encryption,
            seq!["/etc/crypttab"@] + keyfile_paths.deep_view(),
        ),
{
    let mut files: Vec<String> = Vec::new();
    if config.disk.encryption {
        push_text(&mut files, "/etc/crypttab");
        let mut i: usize = 0;
        while i < keyfile_paths.len()
            invariant
                i <= keyfile_paths@.len(),
                files.deep_view() == seq!["/etc/crypttab"@] + keyfile_paths.deep_view().take(
                    i as int,
                ),
            decreases keyfile_paths.len() - i,
        {
            push_text(&mut files, keyfile_paths[i].as_str());
            assert(files.deep_view() =~= seq!["/etc/crypttab"@] + keyfile_paths.deep_view().take(
                i + 1,
            ));
            i += 1;
        }
        assert(keyfile_paths.deep_view().take(i as int) =~= keyfile_paths.deep_view());
    } else {
        assert(files.deep_view() =~= seq![]);
    }
    files
}

pub const CONF_HEAD: &'static str = "# mkinitcpio.conf - Generated by Deploytix\n# See mkinitcpio(8) for details\n\nMODULES=(";

pub const CONF_TAIL: &'static str = ")\n\n# Compression\nCOMPRESSION=\"zstd\"\nCOMPRESSION_OPTIONS=(-T0)\n";

/// The content of mkinitcpio.conf.
pub open spec fn conf_text(config: DeploymentConfig) -> Text {
    CONF_HEAD@ + text::joined(modules_of(config), " "@) + ")\nBINARIES=("@ + text::joined(
        seq!["lsblk"@],
        " "@,
    ) + ")\nFILES=("@ + text::joined(files_of(config), " "@) + ")\nHOOKS=("@ + text::joined(
        hooks_of(config),
        " "@,
    ) + CONF_TAIL@
}

pub fn generate_mkinitcpio_conf(config: &DeploymentConfig) -> (r: String)
    ensures
        r@ == conf_text(*config),
{
    let mut s = CONF_HEAD.to_owned();
    s.push_str(join(&construct_modules(config), " ").as_str());
    s.push_str(")\nBINARIES=(");
    s.push_str(join(&construct_binaries(config), " ").as_str());
    s.push_str(")\nFILES=(");
    s.push_str(join(&construct_files(config), " ").as_str());
    s.push_str(")\nHOOKS=(");
    s.push_str(join(&construct_hooks(config), " ").as_str());
    s.push_str(CONF_TAIL);
    s
}

/// The steps that put mkinitcpio.conf in place; one that is there is kept as a
/// backup. A dry run shows the content.
pub open spec fn conf_steps(
    config: DeploymentConfig,
    install_root: Text,
    conf_exists: bool,
    dry_run: bool,
) -> Seq<Act> {
    let path = install_root + "/etc/mkinitcpio.conf"@;
    let shown = text::lines_of(conf_text(config));
    if dry_run {
        seq![Act::Say("  [dry-run] Would write mkinitcpio.conf:"@)] + Seq::new(
            shown.len(),
            |i: int| Act::Say("    "@ + shown[i]),
        )
    } else {
        (if conf_exists {
            seq![Act::Copy { from: path, to: path + ".bak"@ }]
        } else {
            seq![]
        }) + seq![Act::Write { path, content: conf_text(config), mode: None }]
    }
}

pub fn configure_mkinitcpio(
    config: &DeploymentConfig,
    install_root: &str,
    conf_exists: bool,
    dry_run: bool,
) -> (r: Vec<Step>)
    ensures
        plan::acts(r@) == conf_steps(*config, install_root@, conf_exists, dry_run),
{
    let conf = generate_mkinitcpio_conf(config);
    let path = concat(install_root, "/etc/mkinitcpio.conf");
    let mut plan: Vec<Step> = Vec::new();
    if dry_run {
        say(&mut plan, "  [dry-run] Would write mkinitcpio.conf:");
        let shown = lines(conf.as_str());
        let ghost d = shown.deep_view();
        let ghost head = seq![Act::Say("  [dry-run] Would write mkinitcpio.conf:"@)];
        assert(plan::acts(plan@) =~= head + Seq::new(0, |j: int| Act::Say("    "@ + d[j])));
        let mut i: usize = 0;
        while i < shown.len()
            invariant
                i <= shown@.len(),
                d == shown.deep_view(),
                plan::acts(plan@) == head + Seq::new(i as nat, |j: int| Act::Say("    "@ + d[j])),
            decreases shown.len() - i,
        {
            say(&mut plan, concat("    ", shown[i].as_str()).as_str());
            assert(plan::acts(plan@) =~= head + Seq::new(
                (i + 1) as nat,
                |j: int| Act::Say("    "@ + d[j]),
            ));
            i += 1;
        }
    } else {
        if conf_exists {
            copy_file(&mut plan, path.as_str(), concat(path.as_str(), ".bak").as_str());
        }
        write_file(&mut plan, path.as_str(), conf.as_str(), None);
    }
    assert(plan::acts(plan@) =~= conf_steps(*config, install_root@, conf_exists, dry_run));
    plan
}

/// Rebuilds every initramfs of the target.
pub fn regenerate_initramfs(install_root: &str) -> (r: Vec<Step>)
    ensures
        plan::acts(r@) == seq![(Act::Chroot { root: install_root@, command: "mkinitcpio -P"@ })],
{
    let mut plan: Vec<Step> = Vec::new();
    chroot(&mut plan, install_root, "mkinitcpio -P");
    assert(plan::acts(plan@) =~= seq![(Act::Chroot { root: install_root@, command: "mkinitcpio -P"@ })]);
    plan
}

// ------------------------------------------------------------------------- laws
/// The one hook stands before the other.
pub open spec fn in_order(hooks: Seq<Text>, a: Text, b: Text) -> bool {
    exists|i: int, j: int| 0 <= i < j < hooks.len() && #[trigger] hooks[i] == a && #[trigger] hooks[j] == b
}

/// Separate containers are unlocked after the device mapper is there and before
/// they are mounted, and nothing else mounts.
pub proof fn unlocking_precedes_mounting(config: DeploymentConfig)
    requires
        multi_luks(config),
    ensures
        in_order(hooks_of(config), "lvm2"@, "crypttab-unlock"@),
        in_order(hooks_of(config), "crypttab-unlock"@, "mountcrypt"@),
        !hooks_of(config).contains("filesystems"@),
        !hooks_of(config).contains("encrypt"@),
{
    let h = hooks_of(config);
    assert(h =~= first_hooks() + seq!["lvm2"@, "crypttab-unlock"@, "mountcrypt"@]);
    assert(h[8] == "lvm2"@);
    assert(h[9] == "crypttab-unlock"@);
    assert(h[10] == "mountcrypt"@);
    lemma_hook_names_differ();
}

/// A hibernation image is looked for before the filesystems are mounted.
pub proof fn resume_precedes_filesystems(config: DeploymentConfig)
    requires
        config.system.hibernation,
        !multi_luks(config),
    ensures
        in_order(hooks_of(config), "resume"@, "filesystems"@),
{
    let h = hooks_of(config);
    let m = mounting_hooks(config);
    let k: int = if config.disk.filesystem == Filesystem::Btrfs {
        1
    } else {
        0
    };
    assert(m[k] == "resume"@);
    assert(m[k + 1] == "filesystems"@);
    let before: Seq<Text> = first_hooks() + if_so(
        config.disk.encryption || config.disk.use_lvm_thin,
        seq!["lvm2"@],
    ) + if_so(config.disk.use_lvm_thin && config.disk.encryption, seq!["encrypt"@]) + if_so(
        config.disk.use_lvm_thin && config.disk.boot_encryption,
        seq!["crypttab-unlock"@],
    );
    let after: Seq<Text> = if_so(
        config.disk.use_lvm_thin || config.disk.layout == PartitionLayout::Standard,
        seq!["usr"@],
    );
    assert(h =~= before + m + after);
    assert(h[before.len() + k] == "resume"@);
    assert(h[before.len() + k + 1] == "filesystems"@);
}

/// The hooks without the mountcrypt hook mount the root, and /usr after it.
pub proof fn usr_follows_filesystems(config: DeploymentConfig)
    requires
        config.disk.use_lvm_thin || (!config.disk.encryption && config.disk.layout
            == PartitionLayout::Standard),
    ensures
        in_order(hooks_of(config), "filesystems"@, "usr"@),
{
    let h = hooks_of(config);
    let m = mounting_hooks(config);
    let n = h.len() as int;
    assert(m.last() == "fsck"@);
    assert(m[m.len() - 2] == "filesystems"@);
    assert(h[n - 1] == "usr"@);
    assert(h[n - 3] == "filesystems"@);
}

/// Without encryption nothing of it goes into the initramfs.
pub proof fn plain_disk_needs_no_secrets(config: DeploymentConfig)
    requires
        !config.disk.encryption,
    ensures
        files_of(config) == Seq::<Text>::empty(),
        !hooks_of(config).contains("encrypt"@),
        !hooks_of(config).contains("mountcrypt"@),
{
    lemma_hook_names_differ();
}

proof fn lemma_hook_names_differ()
    ensures
        forall|i: int|
            0 <= i < first_hooks().len() ==> #[trigger] first_hooks()[i] != "filesystems"@
                && first_hooks()[i] != "encrypt"@ && first_hooks()[i] != "mountcrypt"@,
        "lvm2"@ != "filesystems"@ && "lvm2"@ != "encrypt"@ && "lvm2"@ != "mountcrypt"@,
        "crypttab-unlock"@ != "filesystems"@ && "crypttab-unlock"@ != "encrypt"@
            && "crypttab-unlock"@ != "mountcrypt"@,
        "mountcrypt"@ != "filesystems"@ && "mountcrypt"@ != "encrypt"@,
        "btrfs"@ != "encrypt"@ && "btrfs"@ != "mountcrypt"@,
        "resume"@ != "encrypt"@ && "resume"@ != "mountcrypt"@,
        "filesystems"@ != "encrypt"@ && "filesystems"@ != "mountcrypt"@,
        "fsck"@ != "encrypt"@ && "fsck"@ != "mountcrypt"@,
        "usr"@ != "encrypt"@ && "usr"@ != "mountcrypt"@,
{
    reveal_strlit("base");
    reveal_strlit("udev");
    reveal_strlit("autodetect");
    reveal_strlit("modconf");
    reveal_strlit("block");
    reveal_strlit("keyboard");
    reveal_strlit("keymap");
    reveal_strlit("consolefont");
    reveal_strlit("lvm2");
    reveal_strlit("crypttab-unlock");
    reveal_strlit("mountcrypt");
    reveal_strlit("filesystems");
    reveal_strlit("encrypt");
    reveal_strlit("btrfs");
    reveal_strlit("resume");
    reveal_strlit("fsck");
    reveal_strlit("usr");
    assert("autodetect"@[0] == 'a');
    assert("encrypt"@[0] == 'e');
    assert("consolefont"@[0] == 'c');
    assert("mountcrypt"@[0] == 'm');
    assert("modconf"@.len() == 7);
    assert("filesystems"@[0] == 'f');
}

/// When a hook is due while the machine boots: devices and the keyboard come first, then
/// the device mapper, what unlocks, what mounts containers, and then the filesystems with
/// what has to be there before them and what builds on them.
pub open spec fn due(hook: Text) -> int {
    if hook == "base"@ {
        0
    } else if hook == "udev"@ {
        1
    } else if hook == "autodetect"@ {
        2
    } else if hook == "modconf"@ {
        3
    } else if hook == "block"@ {
        4
    } else if hook == "keyboard"@ {
        5
    } else if hook == "keymap"@ {
        6
    } else if hook == "consolefont"@ {
        7
    } else if hook == "lvm2"@ {
        8
    } else if hook == "encrypt"@ {
        9
    } else if hook == "crypttab-unlock"@ {
        10
    } else if hook == "mountcrypt"@ {
        11
    } else if hook == "btrfs"@ {
        12
    } else if hook == "resume"@ {
        13
    } else if hook == "filesystems"@ {
        14
    } else if hook == "fsck"@ {
        15
    } else if hook == "usr"@ {
        16
    } else {
        -1
    }
}

proof fn lemma_due()
    ensures
        due("base"@) == 0,
        due("udev"@) == 1,
        due("autodetect"@) == 2,
        due("modconf"@) == 3,
        due("block"@) == 4,
        due("keyboard"@) == 5,
        due("keymap"@) == 6,
        due("consolefont"@) == 7,
        due("lvm2"@) == 8,
        due("encrypt"@) == 9,
        due("crypttab-unlock"@) == 10,
        due("mountcrypt"@) == 11,
        due("btrfs"@) == 12,
        due("resume"@) == 13,
        due("filesystems"@) == 14,
        due("fsck"@) == 15,
        due("usr"@) == 16,
{
    reveal_strlit("base");
    reveal_strlit("udev");
    reveal_strlit("autodetect");
    reveal_strlit("modconf");
    reveal_strlit("block");
    reveal_strlit("keyboard");
    reveal_strlit("keymap");
    reveal_strlit("consolefont");
    reveal_strlit("lvm2");
    reveal_strlit("encrypt");
    reveal_strlit("crypttab-unlock");
    reveal_strlit("mountcrypt");
    reveal_strlit("btrfs");
    reveal_strlit("resume");
    reveal_strlit("filesystems");
    reveal_strlit("fsck");
    reveal_strlit("usr");
    assert("base"@[0] == 'b' && "udev"@[0] == 'u' && "autodetect"@[0] == 'a' && "modconf"@[0] == 'm'
        && "block"@[1] == 'l' && "keyboard"@[3] == 'b' && "keymap"@[3] == 'm' && "consolefont"@[1]
        == 'o' && "lvm2"@[0] == 'l' && "encrypt"@[0] == 'e' && "crypttab-unlock"@[1] == 'r'
        && "mountcrypt"@[2] == 'u' && "btrfs"@[1] == 't' && "resume"@[0] == 'r' && "filesystems"@[1]
        == 'i' && "fsck"@[1] == 's' && "usr"@[1] == 's');
    assert("base"@[1] == 'a' && "keyboard"@.len() == 8 && "keymap"@.len() == 6);
    assert("modconf"@.len() == 7 && "mountcrypt"@.len() == 10 && "consolefont"@.len() == 11
        && "crypttab-unlock"@.len() == 15 && "udev"@.len() == 4 && "usr"@.len() == 3
        && "fsck"@.len() == 4 && "filesystems"@.len() == 11 && "block"@.len() == 5 && "btrfs"@.len()
        == 5 && "base"@.len() == 4 && "lvm2"@.len() == 4);
}

/// Hooks that are due one after the other, within bounds.
pub open spec fn in_turn(v: Seq<Text>, lo: int, hi: int) -> bool {
    &&& forall|i: int| 0 <= i < v.len() ==> lo <= due(#[trigger] v[i]) <= hi
    &&& forall|i: int, j: int| 0 <= i < j < v.len() ==> due(#[trigger] v[i]) < due(#[trigger] v[j])
}

proof fn lemma_in_turn(a: Seq<Text>, b: Seq<Text>, lo: int, m: int, hi: int)
    requires
        in_turn(a, lo, m),
        in_turn(b, m + 1, hi),
        lo <= m < hi,
    ensures
        in_turn(a + b, lo, hi),
{
    let s = a + b;
    assert forall|i: int| 0 <= i < s.len() implies lo <= due(#[trigger] s[i]) <= hi by {
        if i < a.len() {
            assert(s[i] == a[i]);
        } else {
            assert(s[i] == b[i - a.len()]);
        }
    }
    assert forall|i: int, j: int| 0 <= i < j < s.len() implies due(#[trigger] s[i]) < due(
        #[trigger] s[j],
    ) by {
        if j < a.len() {
            assert(s[i] == a[i] && s[j] == a[j]);
        } else if i >= a.len() {
            assert(s[i] == b[i - a.len()] && s[j] == b[j - a.len()]);
        } else {
            assert(s[i] == a[i] && s[j] == b[j - a.len()]);
        }
    }
}

proof fn lemma_mounting_in_turn(config: DeploymentConfig)
    ensures
        in_turn(mounting_hooks(config), 12, 15),
{
    lemma_due();
    let a = if_so(config.disk.filesystem == Filesystem::Btrfs, seq!["btrfs"@]);
    let b = if_so(config.system.hibernation, seq!["resume"@]);
    let c = seq!["filesystems"@, "fsck"@];
    assert(in_turn(a, 12, 12) && in_turn(b, 13, 13) && in_turn(c, 14, 15));
    lemma_in_turn(a, b, 12, 12, 13);
    lemma_in_turn(a + b, c, 12, 13, 15);
}

/// The hooks stand in the order in which they are due, each of them once. So what unlocks
/// comes after the keyboard and the device mapper and before what mounts, for every way to
/// store the system.
pub proof fn hooks_stand_in_turn(config: DeploymentConfig)
    ensures
        in_turn(hooks_of(config), 0, 16),
        hooks_of(config).no_duplicates(),
{
    let d = config.disk;
    lemma_due();
    lemma_mounting_in_turn(config);
    let m = mounting_hooks(config);
    let f = first_hooks();
    let l = if_so(d.encryption || d.use_lvm_thin, seq!["lvm2"@]);
    assert(in_turn(f, 0, 7));
    assert(in_turn(l, 8, 8));
    lemma_in_turn(f, l, 0, 7, 8);
    let e = if_so(d.encryption, seq!["encrypt"@]);
    let u = if_so(d.boot_encryption, seq!["crypttab-unlock"@]);
    let x = seq!["usr"@];
    let y = if_so(d.layout == PartitionLayout::Standard, seq!["usr"@]);
    let c = seq!["crypttab-unlock"@, "mountcrypt"@];
    assert(in_turn(e, 9, 9) && in_turn(u, 10, 11) && in_turn(x, 16, 16) && in_turn(y, 16, 16)
        && in_turn(c, 9, 16));
    if multi_luks(config) {
        lemma_in_turn(f + l, c, 0, 8, 16);
    } else if d.use_lvm_thin {
        lemma_in_turn(e, u, 9, 9, 11);
        lemma_in_turn(e + u, m, 9, 11, 15);
        lemma_in_turn(e + u + m, x, 9, 15, 16);
        lemma_in_turn(f + l, e + u + m + x, 0, 8, 16);
    } else {
        assert(in_turn(m, 9, 15));
        lemma_in_turn(m, y, 9, 15, 16);
        lemma_in_turn(f + l, m + y, 0, 8, 16);
    }
    let h = hooks_of(config);
    assert forall|i: int, j: int| 0 <= i < h.len() && 0 <= j < h.len() && i != j implies h[i]
        != h[j] by {
        if i < j {
            assert(due(h[i]) < due(h[j]));
        } else {
            assert(due(h[j]) < due(h[i]));
        }
    }
}

/// Which hooks there are: what finds the disk and reads the keyboard always, each other
/// one where it is needed.
pub proof fn hooks_are_those_needed(config: DeploymentConfig)
    ensures
        ({
            let h = hooks_of(config);
            let d = config.disk;
            let own = d.encryption && !d.use_lvm_thin;
            &&& h.contains("base"@) && h.contains("udev"@) && h.contains("autodetect"@)
            &&& h.contains("modconf"@) && h.contains("block"@) && h.contains("keyboard"@)
            &&& h.contains("keymap"@) && h.contains("consolefont"@)
            &&& h.contains("lvm2"@) <==> d.encryption || d.use_lvm_thin
            &&& h.contains("encrypt"@) <==> d.encryption && d.use_lvm_thin
            &&& h.contains("crypttab-unlock"@) <==> own || d.use_lvm_thin && d.boot_encryption
            &&& h.contains("mountcrypt"@) <==> own
            &&& h.contains("filesystems"@) <==> !own
            &&& h.contains("fsck"@) <==> !own
            &&& h.contains("btrfs"@) <==> !own && d.filesystem == Filesystem::Btrfs
            &&& h.contains("resume"@) <==> !own && config.system.hibernation
            &&& h.contains("usr"@) <==> d.use_lvm_thin || !d.encryption && d.layout
                == PartitionLayout::Standard
            &&& forall|i: int| 0 <= i < h.len() ==> 0 <= due(#[trigger] h[i]) <= 16
        }),
{
    hooks_stand_in_turn(config);
    lemma_due();
    let h = hooks_of(config);
    let f = first_hooks();
    assert forall|i: int| 0 <= i < 8 implies h.contains(#[trigger] f[i]) by {
        assert(h[i] == f[i]);
    }
    assert(f[0] == "base"@ && f[1] == "udev"@ && f[2] == "autodetect"@ && f[3] == "modconf"@ && f[4]
        == "block"@ && f[5] == "keyboard"@ && f[6] == "keymap"@ && f[7] == "consolefont"@);
    lemma_holds_hook(config, "lvm2"@);
    lemma_holds_hook(config, "encrypt"@);
    lemma_holds_hook(config, "crypttab-unlock"@);
    lemma_holds_hook(config, "mountcrypt"@);
    lemma_holds_hook(config, "btrfs"@);
    lemma_holds_hook(config, "resume"@);
    lemma_holds_hook(config, "filesystems"@);
    lemma_holds_hook(config, "fsck"@);
    lemma_holds_hook(config, "usr"@);
}

proof fn lemma_holds_hook(config: DeploymentConfig, x: Text)
    requires
        due(x) >= 8,
    ensures
        ({
            let d = config.disk;
            let own = d.encryption && !d.use_lvm_thin;
            hooks_of(config).contains(x) <==> {
                ||| due(x) == 8 && (d.encryption || d.use_lvm_thin)
                ||| due(x) == 9 && d.encryption && d.use_lvm_thin
                ||| due(x) == 10 && (own || d.use_lvm_thin && d.boot_encryption)
                ||| due(x) == 11 && own
                ||| due(x) == 12 && !own && d.filesystem == Filesystem::Btrfs
                ||| due(x) == 13 && !own && config.system.hibernation
                ||| due(x) == 14 && !own
                ||| due(x) == 15 && !own
                ||| due(x) == 16 && (d.use_lvm_thin || !d.encryption && d.layout
                    == PartitionLayout::Standard)
            }
        }),
{
    let d = config.disk;
    lemma_due();
    let f = first_hooks();
    let l = if_so(d.encryption || d.use_lvm_thin, seq!["lvm2"@]);
    let e = if_so(d.encryption, seq!["encrypt"@]);
    let u = if_so(d.boot_encryption, seq!["crypttab-unlock"@]);
    let s = seq!["usr"@];
    let y = if_so(d.layout == PartitionLayout::Standard, seq!["usr"@]);
    let c = seq!["crypttab-unlock"@, "mountcrypt"@];
    let b = if_so(d.filesystem == Filesystem::Btrfs, seq!["btrfs"@]);
    let r = if_so(config.system.hibernation, seq!["resume"@]);
    let g = seq!["filesystems"@, "fsck"@];
    let m = mounting_hooks(config);
    lemma_only(d.encryption || d.use_lvm_thin, "lvm2"@, x);
    lemma_only(d.encryption, "encrypt"@, x);
    lemma_only(d.boot_encryption, "crypttab-unlock"@, x);
    lemma_only(true, "usr"@, x);
    lemma_only(d.layout == PartitionLayout::Standard, "usr"@, x);
    lemma_only(d.filesystem == Filesystem::Btrfs, "btrfs"@, x);
    lemma_only(config.system.hibernation, "resume"@, x);
    if f.contains(x) {
        let i = choose|i: int| 0 <= i < f.len() && f[i] == x;
        assert(due(f[i]) < 8);
    }
    assert(c[0] == "crypttab-unlock"@ && c[1] == "mountcrypt"@);
    assert(g[0] == "filesystems"@ && g[1] == "fsck"@);
    assert(c.contains(x) <==> x == "crypttab-unlock"@ || x == "mountcrypt"@);
    assert(g.contains(x) <==> x == "filesystems"@ || x == "fsck"@);
    effects::lemma_sum_contains(b, r, x);
    effects::lemma_sum_contains(b + r, g, x);
    effects::lemma_sum_contains(f, l, x);
    effects::lemma_sum_contains(f + l, c, x);
    effects::lemma_sum_contains(e, u, x);
    effects::lemma_sum_contains(e + u, m, x);
    effects::lemma_sum_contains(e + u + m, s, x);
    effects::lemma_sum_contains(f + l, e + u + m + s, x);
    effects::lemma_sum_contains(m, y, x);
    effects::lemma_sum_contains(f + l, m + y, x);
}

proof fn lemma_only(b: bool, y: Text, x: Text)
    ensures
        if_so(b, seq![y]).contains(x) <==> b && x == y,
        seq![y].contains(x) <==> x == y,
{
    assert(seq![y][0] == y);
}

/// The one container of a volume group is opened before the filesystems are mounted, and so
/// is that of /boot where it has one; the group is activated in between by a hook that is
/// there.
pub proof fn pool_is_unlocked_before_mounting(config: DeploymentConfig)
    requires
        config.disk.use_lvm_thin,
        config.disk.encryption,
    ensures
        in_order(hooks_of(config), "encrypt"@, "filesystems"@),
        in_order(hooks_of(config), "keyboard"@, "encrypt"@),
        in_order(hooks_of(config), "block"@, "encrypt"@),
        in_order(hooks_of(config), "lvm2"@, "filesystems"@),
        in_order(hooks_of(config), "filesystems"@, "usr"@),
        config.disk.boot_encryption ==> in_order(
            hooks_of(config),
            "crypttab-unlock"@,
            "filesystems"@,
        ),
        hooks_of(config).no_duplicates(),
{
    hooks_stand_in_turn(config);
    hooks_are_those_needed(config);
    lemma_due();
    lemma_order(config, "encrypt"@, "filesystems"@);
    lemma_order(config, "keyboard"@, "encrypt"@);
    lemma_order(config, "block"@, "encrypt"@);
    lemma_order(config, "lvm2"@, "filesystems"@);
    lemma_order(config, "filesystems"@, "usr"@);
    if config.disk.boot_encryption {
        lemma_order(config, "crypttab-unlock"@, "filesystems"@);
    }
}

proof fn lemma_order(config: DeploymentConfig, a: Text, b: Text)
    requires
        hooks_of(config).contains(a),
        hooks_of(config).contains(b),
        due(a) < due(b),
    ensures
        in_order(hooks_of(config), a, b),
{
    hooks_stand_in_turn(config);
    let h = hooks_of(config);
    let i = choose|i: int| 0 <= i < h.len() && h[i] == a;
    let j = choose|j: int| 0 <= j < h.len() && h[j] == b;
    if j < i {
        assert(due(h[j]) < due(h[i]));
    }
    assert(i < j);
}

/// The modules that the early system cannot do without are there: those of both
/// filesystems, of the EFI partition, and of the device mapper where it is used.
pub proof fn modules_are_those_needed(config: DeploymentConfig)
    ensures
        ({
            let m = modules_of(config);
            let d = config.disk;
            let used = |f: Filesystem| d.filesystem == f || d.boot_filesystem == f;
            &&& m.contains("vfat"@) && m.contains("fat"@) && m.contains("nls_cp437"@)
            &&& m.contains("nls_iso8859_1"@)
            &&& used(Filesystem::Btrfs) ==> m.contains("btrfs"@)
            &&& used(Filesystem::Ext4) ==> m.contains("ext4"@)
            &&& used(Filesystem::Xfs) ==> m.contains("xfs"@)
            &&& used(Filesystem::F2fs) ==> m.contains("f2fs"@)
            &&& d.encryption ==> m.contains("dm_crypt"@) && m.contains("dm_mod"@)
            &&& d.encryption && d.integrity ==> m.contains("dm_integrity"@)
            &&& d.use_lvm_thin ==> m.contains("dm_thin_pool"@)
            &&& !d.encryption ==> !m.contains("dm_crypt"@)
            &&& !d.integrity ==> !m.contains("dm_integrity"@)
        }),
{
    let m = modules_of(config);
    let d = config.disk;
    let a = module_of(d.filesystem);
    let b = if_so(d.boot_filesystem != d.filesystem, module_of(d.boot_filesystem));
    let n = (a + b).len() as int;
    let e = seq!["vfat"@, "fat"@, "nls_cp437"@, "nls_iso8859_1"@];
    let c = if_so(d.encryption, seq!["dm_crypt"@, "dm_mod"@]);
    let i = if_so(d.encryption && d.integrity, seq!["dm_integrity"@]);
    let t = if_so(d.use_lvm_thin, seq!["dm_thin_pool"@]);
    assert(m =~= a + b + e + c + i + t);
    assert(m[n] == "vfat"@ && m[n + 1] == "fat"@ && m[n + 2] == "nls_cp437"@ && m[n + 3]
        == "nls_iso8859_1"@);
    if a.len() > 0 {
        assert(m[0] == a[0]);
    }
    if b.len() > 0 {
        assert(m[a.len() as int] == b[0]);
    }
    if d.encryption {
        assert(m[n + 4] == "dm_crypt"@ && m[n + 5] == "dm_mod"@);
        if d.integrity {
            assert(m[n + 6] == "dm_integrity"@);
        }
    }
    if d.use_lvm_thin {
        assert(m.last() == "dm_thin_pool"@);
    }
    reveal_strlit("vfat");
    reveal_strlit("fat");
    reveal_strlit("nls_cp437");
    reveal_strlit("nls_iso8859_1");
    reveal_strlit("btrfs");
    reveal_strlit("ext4");
    reveal_strlit("xfs");
    reveal_strlit("f2fs");
    reveal_strlit("dm_crypt");
    reveal_strlit("dm_mod");
    reveal_strlit("dm_integrity");
    reveal_strlit("dm_thin_pool");
    assert("dm_crypt"@.len() == 8 && "dm_integrity"@.len() == 12 && "dm_integrity"@[3] == 'i'
        && "dm_thin_pool"@[3] == 't' && "dm_mod"@.len() == 6);
}

/// The keyfiles that go into the initramfs are those that the volumes were given, and
/// crypttab goes with them; only an encrypted disk has any.
pub proof fn embedded_keyfiles_are_those_of_the_volumes(config: DeploymentConfig)
    ensures
        ({
            let f = files_of(config);
            let d = config.disk;
            &&& d.encryption && !d.use_lvm_thin ==> f.contains("/etc/crypttab"@) && f.contains(
                keyfiles::keyfile_of("Root"@),
            ) && f.contains(keyfiles::keyfile_of("Usr"@)) && f.contains(
                keyfiles::keyfile_of("Var"@),
            ) && f.contains(keyfiles::keyfile_of("Home"@)) && (f.contains(
                keyfiles::keyfile_of("Boot"@),
            ) <==> d.boot_encryption)
            &&& d.encryption && d.use_lvm_thin && d.boot_encryption ==> f.contains(
                "/etc/crypttab"@,
            ) && f.contains(keyfiles::keyfile_of("LVM"@)) && f.contains(
                keyfiles::keyfile_of("Boot"@),
            )
            &&& d.use_lvm_thin && !d.boot_encryption ==> f.len() == 0
            &&& !d.encryption ==> f.len() == 0
        }),
{
    let f = files_of(config);
    let d = config.disk;
    lemma_keyfile_names();
    if d.encryption && !d.use_lvm_thin {
        assert(f[0] == "/etc/crypttab"@);
        assert(f[1] == keyfiles::keyfile_of("Root"@));
        assert(f[2] == keyfiles::keyfile_of("Usr"@));
        assert(f[3] == keyfiles::keyfile_of("Var"@));
        assert(f[4] == keyfiles::keyfile_of("Home"@));
        if d.boot_encryption {
            assert(f[5] == keyfiles::keyfile_of("Boot"@));
        }
    } else if d.encryption && d.boot_encryption {
        assert(f[0] == keyfiles::keyfile_of("LVM"@));
        assert(f[1] == "/etc/crypttab"@);
        assert(f[2] == keyfiles::keyfile_of("Boot"@));
    }
}

proof fn lemma_keyfile_names()
    ensures
        keyfiles::keyfile_of("Root"@) == "/etc/cryptsetup-keys.d/cryptroot.key"@,
        keyfiles::keyfile_of("Usr"@) == "/etc/cryptsetup-keys.d/cryptusr.key"@,
        keyfiles::keyfile_of("Var"@) == "/etc/cryptsetup-keys.d/cryptvar.key"@,
        keyfiles::keyfile_of("Home"@) == "/etc/cryptsetup-keys.d/crypthome.key"@,
        keyfiles::keyfile_of("Boot"@) == "/etc/cryptsetup-keys.d/cryptboot.key"@,
        keyfiles::keyfile_of("LVM"@) == "/etc/cryptsetup-keys.d/cryptlvm.key"@,
        "/etc/crypttab"@ != "/etc/cryptsetup-keys.d/cryptboot.key"@,
        "/etc/cryptsetup-keys.d/cryptroot.key"@ != "/etc/cryptsetup-keys.d/cryptboot.key"@,
        "/etc/cryptsetup-keys.d/cryptusr.key"@ != "/etc/cryptsetup-keys.d/cryptboot.key"@,
        "/etc/cryptsetup-keys.d/cryptvar.key"@ != "/etc/cryptsetup-keys.d/cryptboot.key"@,
        "/etc/cryptsetup-keys.d/crypthome.key"@ != "/etc/cryptsetup-keys.d/cryptboot.key"@,
{
    reveal_strlit("/etc/cryptsetup-keys.d");
    reveal_strlit("/crypt");
    reveal_strlit(".key");
    reveal_strlit("/etc/crypttab");
    reveal_strlit("Root");
    reveal_strlit("Usr");
    reveal_strlit("Var");
    reveal_strlit("Home");
    reveal_strlit("Boot");
    reveal_strlit("LVM");
    reveal_strlit("/etc/cryptsetup-keys.d/cryptroot.key");
    reveal_strlit("/etc/cryptsetup-keys.d/cryptusr.key");
    reveal_strlit("/etc/cryptsetup-keys.d/cryptvar.key");
    reveal_strlit("/etc/cryptsetup-keys.d/crypthome.key");
    reveal_strlit("/etc/cryptsetup-keys.d/cryptboot.key");
    reveal_strlit("/etc/cryptsetup-keys.d/cryptlvm.key");
    assert(text::lowered("Root"@) =~= seq!['r', 'o', 'o', 't']);
    assert(text::lowered("Usr"@) =~= seq!['u', 's', 'r']);
    assert(text::lowered("Var"@) =~= seq!['v', 'a', 'r']);
    assert(text::lowered("Home"@) =~= seq!['h', 'o', 'm', 'e']);
    assert(text::lowered("Boot"@) =~= seq!['b', 'o', 'o', 't']);
    assert(text::lowered("LVM"@) =~= seq!['l', 'v', 'm']);
    assert(keyfiles::keyfile_of("Root"@) =~= "/etc/cryptsetup-keys.d/cryptroot.key"@);
    assert(keyfiles::keyfile_of("Usr"@) =~= "/etc/cryptsetup-keys.d/cryptusr.key"@);
    assert(keyfiles::keyfile_of("Var"@) =~= "/etc/cryptsetup-keys.d/cryptvar.key"@);
    assert(keyfiles::keyfile_of("Home"@) =~= "/etc/cryptsetup-keys.d/crypthome.key"@);
    assert(keyfiles::keyfile_of("Boot"@) =~= "/etc/cryptsetup-keys.d/cryptboot.key"@);
    assert(keyfiles::keyfile_of("LVM"@) =~= "/etc/cryptsetup-keys.d/cryptlvm.key"@);
    assert("/etc/cryptsetup-keys.d/cryptboot.key"@[28] == 'b');
    assert("/etc/cryptsetup-keys.d/cryptroot.key"@[28] == 'r');
    assert("/etc/cryptsetup-keys.d/crypthome.key"@[28] == 'h');
}

/// The written configuration has one line each with the modules, the files and the hooks;
/// the one that was there is kept beside it.
pub proof fn configuration_is_written(
    config: DeploymentConfig,
    install_root: Text,
    conf_exists: bool,
)
    ensures
        exists|content: Text|
            {
                &&& #[trigger] effects::leaves(
                    conf_steps(config, install_root, conf_exists, false),
                    install_root + "/etc/mkinitcpio.conf"@,
                    content,
                )
                &&& text::holds(
                    content,
                    "\nMODULES=("@ + text::joined(modules_of(config), " "@) + ")\n"@,
                )
                &&& text::holds(
                    content,
                    "\nFILES=("@ + text::joined(files_of(config), " "@) + ")\n"@,
                )
                &&& text::holds(
                    content,
                    "\nHOOKS=("@ + text::joined(hooks_of(config), " "@) + ")\n"@,
                )
                &&& text::holds(content, "\nBINARIES=(lsblk)\n"@)
            },
        conf_exists ==> conf_steps(config, install_root, conf_exists, false)[0] == (Act::Copy {
            from: install_root + "/etc/mkinitcpio.conf"@,
            to: install_root + "/etc/mkinitcpio.conf"@ + ".bak"@,
        }),
{
    let steps = conf_steps(config, install_root, conf_exists, false);
    let path = install_root + "/etc/mkinitcpio.conf"@;
    let content = conf_text(config);
    let k: int = if conf_exists {
        1
    } else {
        0
    };
    reveal_strlit(".bak");
    assert(path + ".bak"@ != path) by {
        assert((path + ".bak"@).len() == path.len() + 4);
    }
    assert(effects::touches(steps[k], path));
    assert(effects::leaves(steps, path, content));
    reveal_strlit(
        "# mkinitcpio.conf - Generated by Deploytix\n# See mkinitcpio(8) for details\n\nMODULES=(",
    );
    reveal_strlit(
        ")\n\n# Compression\nCOMPRESSION=\"zstd\"\nCOMPRESSION_OPTIONS=(-T0)\n",
    );
    reveal_strlit("\nMODULES=(");
    reveal_strlit("\nFILES=(");
    reveal_strlit("\nHOOKS=(");
    reveal_strlit(")\n");
    reveal_strlit("\nBINARIES=(lsblk)\n");
    reveal_strlit("lsblk");
    reveal_strlit(")\nBINARIES=(");
    reveal_strlit(")\nFILES=(");
    reveal_strlit(")\nHOOKS=(");
    let a = text::joined(modules_of(config), " "@);
    let b = text::joined(files_of(config), " "@);
    let c = text::joined(hooks_of(config), " "@);
    let l = text::joined(seq!["lsblk"@], " "@);
    assert(l == "lsblk"@);
    let n = CONF_HEAD@.len() - 10;
    let x = "\nMODULES=("@ + a + ")\n"@;
    assert(content.subrange(n, n + x.len()) =~= x);
    assert(text::at(content, n, x));
    let n2: int = (CONF_HEAD@.len() + a.len() + 1) as int;
    let y = "\nBINARIES=(lsblk)\n"@;
    assert(content.subrange(n2, n2 + y.len()) =~= y);
    assert(text::at(content, n2, y));
    let n3: int = (CONF_HEAD@.len() + a.len() + 12 + 5 + 1) as int;
    let z = "\nFILES=("@ + b + ")\n"@;
    assert(content.subrange(n3, n3 + z.len()) =~= z);
    assert(text::at(content, n3, z));
    let n4: int = (CONF_HEAD@.len() + a.len() + 12 + 5 + 9 + b.len() + 1) as int;
    let w = "\nHOOKS=("@ + c + ")\n"@;
    assert(content.subrange(n4, n4 + w.len()) =~= w);
    assert(text::at(content, n4, w));
}

} // verus!
