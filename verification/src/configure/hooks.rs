//! The initramfs hooks of this project: which ones a target gets, and what
//! they do.
use vstd::prelude::*;

use crate::config::model::DeploymentConfig;
use crate::config::options::Filesystem;
use crate::configure::hook_texts;
use crate::configure::mkinitcpio;
use crate::disk;
use crate::disk::{
    is_root_partition, multi_volume_subvolumes, ComputedLayout, PartitionDef, StorageNames,
    Subvolume, SubvolumeDef, SETS_DIR,
};
use crate::index;
use crate::plan;
use crate::plan::{make_dir, say, write_file, Act, Step};
use crate::text;
use crate::text::{chars_of, concat, concat3, join, lower, push_text, same, slice_text, title, Text};

verus! {

/// A hook: the script that runs at boot and the one that installs it.
#[derive(Debug, Clone)]
pub struct GeneratedHook {
    pub name: String,
    pub hook_content: String,
    pub install_content: String,
}

/// A hook as the contracts speak of it.
pub struct Hook {
    pub name: Text,
    pub script: Text,
    pub install: Text,
}

impl View for GeneratedHook {
    type V = Hook;

    open spec fn view(&self) -> Hook {
        Hook { name: self.name@, script: self.hook_content@, install: self.install_content@ }
    }
}

/// The hooks of a list as the contracts speak of them.
pub open spec fn hooks_in(v: Seq<GeneratedHook>) -> Seq<Hook> {
    Seq::new(v.len(), |i: int| v[i]@)
}

// -------------------------------------------------------------- crypttab-unlock
pub open spec fn crypttab_unlock() -> Hook {
    Hook {
        name: "crypttab-unlock"@,
        script: hook_texts::CRYPTTAB_UNLOCK_HOOK@,
        install: hook_texts::CRYPTTAB_UNLOCK_INSTALL@,
    }
}

/// The hook that opens every container of crypttab.
pub fn generate_crypttab_unlock_hook() -> (r: GeneratedHook)
    ensures
        r@ == crypttab_unlock(),
{
    GeneratedHook {
        name: "crypttab-unlock".to_owned(),
        hook_content: hook_texts::CRYPTTAB_UNLOCK_HOOK.to_owned(),
        install_content: hook_texts::CRYPTTAB_UNLOCK_INSTALL.to_owned(),
    }
}

// -------------------------------------------------------------------- verity-ab
pub open spec fn verity_ab(config: DeploymentConfig, names: StorageNames) -> Hook {
    Hook {
        name: "verity-ab"@,
        script: hook_texts::verity_ab_script_text(
            config.disk.lvm_vg_name@,
            names.verity_mapper@,
            names.root_a@,
            names.root_b@,
            names.hash_a@,
            names.hash_b@,
            names.etc_overlay@,
        ),
        install: hook_texts::VERITY_AB_INSTALL@,
    }
}

/// The hook that opens the verified root of the active slot.
pub fn generate_verity_ab_hook(
    config: &DeploymentConfig,
    names: &StorageNames,
) -> (r: GeneratedHook)
    ensures
        r@ == verity_ab(*config, *names),
{
    GeneratedHook {
        name: "verity-ab".to_owned(),
        hook_content: hook_texts::verity_ab_script(
            config.disk.lvm_vg_name.as_str(),
            names.verity_mapper.as_str(),
            names.root_a.as_str(),
            names.root_b.as_str(),
            names.hash_a.as_str(),
            names.hash_b.as_str(),
            names.etc_overlay.as_str(),
        ),
        install_content: hook_texts::VERITY_AB_INSTALL.to_owned(),
    }
}

// ------------------------------------------------------------------- mountcrypt
/// An encrypted data partition: neither EFI, boot, swap nor BIOS boot.
pub open spec fn luks_data(p: PartitionDef) -> bool {
    p.is_luks && !p.is_efi && !p.is_boot_fs && !p.is_swap && !p.is_bios_boot
}

/// The encrypted data partitions of a layout, in its order.
pub open spec fn volumes(parts: Seq<PartitionDef>) -> Seq<PartitionDef>
    decreases parts.len(),
{
    if parts.len() == 0 {
        seq![]
    } else if luks_data(parts.last()) {
        volumes(parts.drop_last()).push(parts.last())
    } else {
        volumes(parts.drop_last())
    }
}

/// The partitions behind a list of references.
pub open spec fn behind(v: Seq<&PartitionDef>) -> Seq<PartitionDef> {
    Seq::new(v.len(), |i: int| *v[i])
}

fn luks_volumes<'a>(layout: &'a ComputedLayout) -> (r: Vec<&'a PartitionDef>)
    ensures
        behind(r@) == volumes(layout.partitions@),
{
    let parts = &layout.partitions;
    let mut out: Vec<&'a PartitionDef> = Vec::new();
    let mut i: usize = 0;
    assert(parts@.take(0) =~= seq![]);
    assert(behind(out@) =~= volumes(parts@.take(0)));
    while i < parts.len()
        invariant
            i <= parts@.len(),
            parts@ == layout.partitions@,
            behind(out@) == volumes(parts@.take(i as int)),
        decreases parts.len() - i,
    {
        let p = &parts[i];
        let ghost before = behind(out@);
        assert(parts@.take(i + 1).drop_last() =~= parts@.take(i as int));
        assert(parts@.take(i + 1).last() == *p);
        if p.is_luks && !p.is_efi && !p.is_boot_fs && !p.is_swap && !p.is_bios_boot {
            out.push(p);
            assert(behind(out@) =~= before.push(*p));
        }
        i += 1;
    }
    assert(parts@.take(i as int) =~= parts@);
    out
}

/// The mapper device of a partition: its name in title case after "Crypt-".
pub open spec fn mapper_of(p: PartitionDef) -> Text {
    "Crypt-"@ + text::titled(p.name@)
}

fn mapper_name(p: &PartitionDef) -> (r: String)
    ensures
        r@ == mapper_of(*p),
{
    concat("Crypt-", title(p.name.as_str()).as_str())
}

/// The text without the at signs that it starts with.
pub open spec fn without_at(s: Text) -> Text
    decreases s.len(),
{
    if s.len() > 0 && s[0] == '@' {
        without_at(s.drop_first())
    } else {
        s
    }
}

fn strip_at(s: &str) -> (r: String)
    ensures
        r@ == without_at(s@),
{
    let v = chars_of(s);
    let mut i: usize = 0;
    assert(v@.skip(0) =~= v@);
    while i < v.len() && v[i] == '@'
        invariant
            i <= v@.len(),
            v@ == s@,
            without_at(s@) == without_at(v@.skip(i as int)),
        decreases v.len() - i,
    {
        assert(v@.skip(i as int).drop_first() =~= v@.skip(i + 1));
        i += 1;
    }
    let t = slice_text(&v, i, v.len());
    assert(t@ =~= v@.skip(i as int));
    t
}

/// Mount options of /boot, after a blank, where it lies in a subvolume.
pub open spec fn boot_options(config: DeploymentConfig) -> Text {
    if config.disk.boot_filesystem == Filesystem::Btrfs {
        " \"subvol=@boot,noatime,compress=zstd\""@
    } else {
        ""@
    }
}

/// The part of the script that mounts /boot.
pub open spec fn boot_mount(config: DeploymentConfig) -> Text {
    if config.disk.boot_encryption {
        hook_texts::encrypted_boot_text(
            config.disk.luks_boot_mapper_name@,
            boot_options(config),
        )
    } else {
        hook_texts::plain_boot_text(boot_options(config))
    }
}

fn boot_mount_section(config: &DeploymentConfig) -> (r: String)
    ensures
        r@ == boot_mount(*config),
{
    let options = if config.disk.boot_filesystem == Filesystem::Btrfs {
        " \"subvol=@boot,noatime,compress=zstd\""
    } else {
        ""
    };
    if config.disk.boot_encryption {
        hook_texts::encrypted_boot(config.disk.luks_boot_mapper_name.as_str(), options)
    } else {
        hook_texts::plain_boot(options)
    }
}

/// One of the volumes is the root.
pub open spec fn has_root(v: Seq<PartitionDef>) -> bool {
    exists|i: int| 0 <= i < v.len() && (#[trigger] v[i]).is_root()
}

fn any_root(v: &Vec<&PartitionDef>) -> (r: bool)
    ensures
        r == has_root(behind(v@)),
{
    let mut i: usize = 0;
    while i < v.len()
        invariant
            i <= v@.len(),
            forall|j: int| 0 <= j < i ==> !(#[trigger] behind(v@)[j]).is_root(),
        decreases v.len() - i,
    {
        if is_root_partition(v[i]) {
            assert(behind(v@)[i as int].is_root());
            return true;
        }
        i += 1;
    }
    false
}

/// The device of /usr: its own container where it has one, else that of the root.
pub open spec fn usr_device(v: Seq<PartitionDef>) -> Text {
    let i = index::first(v.len() as int, |i: int| v[i].mounted_at("/usr"@));
    if i < v.len() {
        "/dev/mapper/"@ + mapper_of(v[i])
    } else {
        "/dev/mapper/Crypt-Root"@
    }
}

fn device_of_usr(v: &Vec<&PartitionDef>) -> (r: String)
    ensures
        r@ == usr_device(behind(v@)),
{
    let ghost d = behind(v@);
    let ghost g = |i: int| d[i].mounted_at("/usr"@);
    let mut i: usize = 0;
    while i < v.len()
        invariant
            i <= v@.len(),
            d == behind(v@),
            g == (|i: int| d[i].mounted_at("/usr"@)),
            forall|j: int| 0 <= j < i ==> !#[trigger] g(j),
        decreases v.len() - i,
    {
        if v[i].is_mounted_at("/usr") {
            proof {
                index::lemma_first_is(d.len() as int, g, i as int);
            }
            return concat("/dev/mapper/", mapper_name(v[i]).as_str());
        }
        i += 1;
    }
    proof {
        index::lemma_first_is(d.len() as int, g, d.len() as int);
    }
    "/dev/mapper/Crypt-Root".to_owned()
}

/// Under an immutable root, /usr and /etc come from the subvolumes that belong
/// to the booted root.
pub open spec fn etc_mount(config: DeploymentConfig, v: Seq<PartitionDef>) -> Text {
    if config.packages.immutable_root {
        hook_texts::paired_mounts_text(usr_device(v))
    } else {
        ""@
    }
}

/// The part of the script that mounts the root, which is always the first. The
/// overlay for read-only snapshots lies over the root before anything else is
/// mounted into it.
pub open spec fn root_mount(
    config: DeploymentConfig,
    v: Seq<PartitionDef>,
    subvolumes: bool,
) -> Text {
    if !has_root(v) {
        ""@
    } else if !subvolumes {
        hook_texts::ROOT_PLAIN@
    } else {
        let root = disk::subvolumes_of("Root"@)[0];
        hook_texts::root_subvolume_text(
            root.name,
            root.mount_options,
            if config.packages.immutable_root {
                ",ro"@
            } else {
                ""@
            },
        ) + if config.packages.install_grub_btrfs {
            hook_texts::overlay_text(
                hook_texts::overlay_guard_text(root.name, SETS_DIR@),
                etc_mount(config, v),
            )
        } else {
            ""@
        }
    }
}

fn root_mount_section(
    config: &DeploymentConfig,
    v: &Vec<&PartitionDef>,
    subvolumes: bool,
) -> (r: String)
    ensures
        r@ == root_mount(*config, behind(v@), subvolumes),
{
    if !any_root(v) {
        return "".to_owned();
    }
    if !subvolumes {
        return hook_texts::ROOT_PLAIN.to_owned();
    }
    let roots = multi_volume_subvolumes("Root");
    proof {
        assert(disk::subvolumes(roots@).len() == disk::subvolumes_of("Root"@).len());
        assert(disk::subvolumes(roots@)[0] == roots@[0]@);
    }
    let root = &roots[0];
    let suffix = if config.packages.immutable_root {
        ",ro"
    } else {
        ""
    };
    let mut s = hook_texts::root_subvolume(
        root.name.as_str(),
        root.mount_options.as_str(),
        suffix,
    );
    if config.packages.install_grub_btrfs {
        let etc = if config.packages.immutable_root {
            hook_texts::paired_mounts(device_of_usr(v).as_str())
        } else {
            "".to_owned()
        };
        let guard = hook_texts::overlay_guard(root.name.as_str(), SETS_DIR);
        s.push_str(hook_texts::overlay(guard.as_str(), etc.as_str()).as_str());
    } else {
        s.push_str("");
    }
    s
}

/// Failing to mount /usr is an error, anything else a warning.
pub open spec fn severity_of(m: Text) -> Text {
    if m == "/usr"@ {
        "ERROR"@
    } else {
        "WARNING"@
    }
}

pub open spec fn failure_of(m: Text) -> Text {
    if m == "/usr"@ {
        "        ret=1"@
    } else {
        ""@
    }
}

/// Mounting one subvolume of a volume; /usr of an immutable root is mounted with
/// the root.
pub open spec fn subvolume_mount(mapper: Text, sv: Subvolume, immutable: bool) -> Text {
    if immutable && sv.mount_point == "/usr"@ {
        ""@
    } else {
        hook_texts::volume_subvolume_text(
            sv.mount_point,
            mapper,
            sv.name,
            sv.mount_options,
            without_at(sv.name),
            severity_of(sv.mount_point),
            failure_of(sv.mount_point),
        )
    }
}

/// Mounting the subvolumes one after the other.
pub open spec fn subvolume_mounts(mapper: Text, list: Seq<Subvolume>, immutable: bool) -> Text
    decreases list.len(),
{
    if list.len() == 0 {
        seq![]
    } else {
        subvolume_mounts(mapper, list.drop_last(), immutable) + subvolume_mount(
            mapper,
            list.last(),
            immutable,
        )
    }
}

/// Mounting one volume other than the root.
pub open spec fn volume_mount(p: PartitionDef, subvolumes: bool, immutable: bool) -> Text {
    if p.is_root() || p.mount_point is None {
        seq![]
    } else if subvolumes {
        subvolume_mounts(mapper_of(p), disk::subvolumes_of(text::titled(p.name@)), immutable)
    } else {
        let m = p.mount_point->0@;
        hook_texts::volume_plain_text(
            m,
            mapper_of(p),
            text::lowered(p.name@),
            severity_of(m),
            failure_of(m),
        )
    }
}

/// Mounting the volumes other than the root, in their order.
pub open spec fn other_mounts(v: Seq<PartitionDef>, subvolumes: bool, immutable: bool) -> Text
    decreases v.len(),
{
    if v.len() == 0 {
        seq![]
    } else {
        other_mounts(v.drop_last(), subvolumes, immutable) + volume_mount(
            v.last(),
            subvolumes,
            immutable,
        )
    }
}

fn severity(m: &str) -> (r: &'static str)
    ensures
        r@ == severity_of(m@),
{
    if same(m, "/usr") {
        "ERROR"
    } else {
        "WARNING"
    }
}

fn failure(m: &str) -> (r: &'static str)
    ensures
        r@ == failure_of(m@),
{
    if same(m, "/usr") {
        "        ret=1"
    } else {
        ""
    }
}

fn subvolume_section(mapper: &str, list: &Vec<SubvolumeDef>, immutable: bool) -> (r: String)
    ensures
        r@ == subvolume_mounts(mapper@, disk::subvolumes(list@), immutable),
{
    let ghost d = disk::subvolumes(list@);
    let mut s = String::new();
    let mut i: usize = 0;
    assert(d.take(0) =~= seq![]);
    assert(s@ =~= subvolume_mounts(mapper@, d.take(0), immutable));
    while i < list.len()
        invariant
            i <= list@.len(),
            d == disk::subvolumes(list@),
            s@ == subvolume_mounts(mapper@, d.take(i as int), immutable),
        decreases list.len() - i,
    {
        let sv = &list[i];
        proof {
            assert(d.take(i + 1).drop_last() =~= d.take(i as int));
            assert(d.take(i + 1).last() == sv@);
        }
        let m = sv.mount_point.as_str();
        if immutable && same(m, "/usr") {
            s.push_str("");
        } else {
            let t = hook_texts::volume_subvolume(
                m,
                mapper,
                sv.name.as_str(),
                sv.mount_options.as_str(),
                strip_at(sv.name.as_str()).as_str(),
                severity(m),
                failure(m),
            );
            s.push_str(t.as_str());
        }
        i += 1;
    }
    assert(d.take(i as int) =~= d);
    s
}

fn other_mount_section(v: &Vec<&PartitionDef>, subvolumes: bool, immutable: bool) -> (r: String)
    ensures
        r@ == other_mounts(behind(v@), subvolumes, immutable),
{
    let ghost d = behind(v@);
    let mut s = String::new();
    let mut i: usize = 0;
    assert(d.take(0) =~= seq![]);
    assert(s@ =~= other_mounts(d.take(0), subvolumes, immutable));
    while i < v.len()
        invariant
            i <= v@.len(),
            d == behind(v@),
            s@ == other_mounts(d.take(i as int), subvolumes, immutable),
        decreases v.len() - i,
    {
        let p = v[i];
        let ghost before = s@;
        proof {
            assert(d.take(i + 1).drop_last() =~= d.take(i as int));
            assert(d.take(i + 1).last() == *p);
        }
        if !is_root_partition(p) {
            if let Some(mp) = &p.mount_point {
                let m = mp.as_str();
                let mapper = mapper_name(p);
                if subvolumes {
                    let list = multi_volume_subvolumes(title(p.name.as_str()).as_str());
                    s.push_str(subvolume_section(mapper.as_str(), &list, immutable).as_str());
                } else {
                    let t = hook_texts::volume_plain(
                        m,
                        mapper.as_str(),
                        lower(p.name.as_str()).as_str(),
                        severity(m),
                        failure(m),
                    );
                    s.push_str(t.as_str());
                }
            }
        }
        assert(s@ =~= before + volume_mount(*p, subvolumes, immutable));
        i += 1;
    }
    assert(d.take(i as int) =~= d);
    s
}

/// The line of a volume in the head of the script.
pub open spec fn comment_of(p: PartitionDef) -> Text {
    "#   - "@ + mapper_of(p) + " -> "@ + match p.mount_point {
        Some(m) => m@,
        None => "-"@,
    }
}

pub open spec fn comments_of(v: Seq<PartitionDef>) -> Seq<Text> {
    Seq::new(v.len(), |i: int| comment_of(v[i]))
}

fn volume_comments(v: &Vec<&PartitionDef>) -> (r: Vec<String>)
    ensures
        r.deep_view() == comments_of(behind(v@)),
{
    let ghost d = behind(v@);
    let mut out: Vec<String> = Vec::new();
    let mut i: usize = 0;
    assert(out.deep_view() =~= comments_of(d).take(0));
    while i < v.len()
        invariant
            i <= v@.len(),
            d == behind(v@),
            out.deep_view() == comments_of(d).take(i as int),
        decreases v.len() - i,
    {
        let mut s = concat3("#   - ", mapper_name(v[i]).as_str(), " -> ");
        match &v[i].mount_point {
            Some(m) => s.push_str(m.as_str()),
            None => s.push_str("-"),
        }
        assert(s@ == comment_of(d[i as int]));
        push_text(&mut out, s.as_str());
        assert(out.deep_view() =~= comments_of(d).take(i + 1));
        i += 1;
    }
    assert(comments_of(d).take(i as int) =~= comments_of(d));
    out
}

/// The mapper devices of the volumes that have a name.
pub open spec fn named_mappers(v: Seq<PartitionDef>) -> Seq<Text>
    decreases v.len(),
{
    if v.len() == 0 {
        seq![]
    } else if v.last().name@.len() == 0 {
        named_mappers(v.drop_last())
    } else {
        named_mappers(v.drop_last()).push(mapper_of(v.last()))
    }
}

fn help_volumes(v: &Vec<&PartitionDef>) -> (r: Vec<String>)
    ensures
        r.deep_view() == named_mappers(behind(v@)),
{
    let ghost d = behind(v@);
    let mut out: Vec<String> = Vec::new();
    let mut i: usize = 0;
    assert(d.take(0) =~= seq![]);
    assert(out.deep_view() =~= named_mappers(d.take(0)));
    while i < v.len()
        invariant
            i <= v@.len(),
            d == behind(v@),
            out.deep_view() == named_mappers(d.take(i as int)),
        decreases v.len() - i,
    {
        proof {
            assert(d.take(i + 1).drop_last() =~= d.take(i as int));
            assert(d.take(i + 1).last() == *v@[i as int]);
        }
        if !v[i].name.as_str().is_empty() {
            push_text(&mut out, mapper_name(v[i]).as_str());
        }
        i += 1;
    }
    assert(d.take(i as int) =~= d);
    out
}

/// The function that reads the root subvolume, where the root has subvolumes.
pub open spec fn resolve_function(v: Seq<PartitionDef>, subvolumes: bool) -> Text {
    if subvolumes && has_root(v) {
        hook_texts::resolve_root_text(disk::subvolumes_of("Root"@)[0].name)
    } else {
        ""@
    }
}

/// The hook that mounts the opened containers.
pub open spec fn mountcrypt(config: DeploymentConfig, layout: ComputedLayout) -> Hook {
    let v = volumes(layout.partitions@);
    let sub = layout.has_subvolumes();
    Hook {
        name: "mountcrypt"@,
        script: hook_texts::mountcrypt_script_text(
            text::joined(comments_of(v), "\n"@),
            root_mount(config, v, sub) + other_mounts(v, sub, config.packages.immutable_root),
            boot_mount(config),
            resolve_function(v, sub),
        ),
        install: hook_texts::mountcrypt_install_text(text::joined(named_mappers(v), ", "@)),
    }
}

pub fn generate_mountcrypt_hook(config: &DeploymentConfig, layout: &ComputedLayout) -> (r:
    GeneratedHook)
    ensures
        r@ == mountcrypt(*config, *layout),
{
    let v = luks_volumes(layout);
    let sub = layout.uses_subvolumes();
    let mut mounts = root_mount_section(config, &v, sub);
    mounts.push_str(other_mount_section(&v, sub, config.packages.immutable_root).as_str());
    let resolve = if sub && any_root(&v) {
        let roots = multi_volume_subvolumes("Root");
        proof {
            assert(disk::subvolumes(roots@).len() == disk::subvolumes_of("Root"@).len());
            assert(disk::subvolumes(roots@)[0] == roots@[0]@);
        }
        hook_texts::resolve_root(roots[0].name.as_str())
    } else {
        "".to_owned()
    };
    let boot = boot_mount_section(config);
    let comment = join(&volume_comments(&v), "\n");
    GeneratedHook {
        name: "mountcrypt".to_owned(),
        hook_content: hook_texts::mountcrypt_script(
            comment.as_str(),
            mounts.as_str(),
            boot.as_str(),
            resolve.as_str(),
        ),
        install_content: hook_texts::mountcrypt_install(join(&help_volumes(&v), ", ").as_str()),
    }
}

// -------------------------------------------------------------------- selection
/// The hooks of a target: containers are unlocked and mounted by hooks of
/// their own, a boot container beside a volume group is unlocked, and a
/// verified root is mounted by its slot.
pub open spec fn hooks_for(
    config: DeploymentConfig,
    layout: ComputedLayout,
    names: StorageNames,
) -> Seq<Hook> {
    (if mkinitcpio::multi_luks(config) {
        seq![crypttab_unlock(), mountcrypt(config, layout)]
    } else {
        seq![]
    }) + (if config.disk.use_lvm_thin && config.disk.boot_encryption {
        seq![crypttab_unlock()]
    } else {
        seq![]
    }) + (if config.lvm_ab_backend() {
        seq![verity_ab(config, names)]
    } else {
        seq![]
    })
}

pub fn generate_hooks(
    config: &DeploymentConfig,
    layout: &ComputedLayout,
    names: &StorageNames,
) -> (r: Vec<GeneratedHook>)
    ensures
        hooks_in(r@) == hooks_for(*config, *layout, *names),
{
    let mut hooks: Vec<GeneratedHook> = Vec::new();
    if config.disk.encryption && !config.disk.use_lvm_thin {
        hooks.push(generate_crypttab_unlock_hook());
        hooks.push(generate_mountcrypt_hook(config, layout));
    }
    if config.disk.use_lvm_thin && config.disk.boot_encryption {
        hooks.push(generate_crypttab_unlock_hook());
    }
    if config.immutable_lvm_ab() {
        hooks.push(generate_verity_ab_hook(config, names));
    }
    assert(hooks_in(hooks@) =~= hooks_for(*config, *layout, *names));
    hooks
}

/// The steps that install one hook, or the lines that a dry run prints for it.
pub open spec fn install_one(h: Hook, install_root: Text, dry_run: bool) -> Seq<Act> {
    if dry_run {
        seq![
            Act::Say("  [dry-run] Would install hook: "@ + h.name),
            Act::Say("    -> /usr/lib/initcpio/hooks/"@ + h.name),
            Act::Say("    -> /usr/lib/initcpio/install/"@ + h.name),
        ]
    } else {
        seq![
            Act::Write {
                path: install_root + "/usr/lib/initcpio/hooks/"@ + h.name,
                content: h.script,
                mode: Some(0o755),
            },
            Act::Write {
                path: install_root + "/usr/lib/initcpio/install/"@ + h.name,
                content: h.install,
                mode: Some(0o755),
            },
        ]
    }
}

/// The steps that install the hooks one after the other.
pub open spec fn install_all(hooks: Seq<Hook>, install_root: Text, dry_run: bool) -> Seq<Act>
    decreases hooks.len(),
{
    if hooks.len() == 0 {
        seq![]
    } else {
        install_all(hooks.drop_last(), install_root, dry_run) + install_one(
            hooks.last(),
            install_root,
            dry_run,
        )
    }
}

pub open spec fn hook_steps(hooks: Seq<Hook>, install_root: Text, dry_run: bool) -> Seq<Act> {
    (if dry_run {
        seq![]
    } else {
        seq![
            Act::MakeDir(install_root + "/usr/lib/initcpio/hooks"@),
            Act::MakeDir(install_root + "/usr/lib/initcpio/install"@),
        ]
    }) + install_all(hooks, install_root, dry_run)
}

/// The steps that install the hooks of a target.
pub fn install_custom_hooks(
    config: &DeploymentConfig,
    layout: &ComputedLayout,
    names: &StorageNames,
    install_root: &str,
    dry_run: bool,
) -> (r: Vec<Step>)
    ensures
        plan::acts(r@) == hook_steps(
            hooks_for(*config, *layout, *names),
            install_root@,
            dry_run,
        ),
{
    let hooks = generate_hooks(config, layout, names);
    let ghost d = hooks_in(hooks@);
    let mut steps: Vec<Step> = Vec::new();
    if !dry_run {
        make_dir(&mut steps, concat(install_root, "/usr/lib/initcpio/hooks").as_str());
        make_dir(&mut steps, concat(install_root, "/usr/lib/initcpio/install").as_str());
    }
    let ghost head = plan::acts(steps@);
    assert(head =~= hook_steps(seq![], install_root@, dry_run));
    assert(d.take(0) =~= seq![]);
    assert(plan::acts(steps@) =~= head + install_all(d.take(0), install_root@, dry_run));
    let mut i: usize = 0;
    while i < hooks.len()
        invariant
            i <= hooks@.len(),
            d == hooks_in(hooks@),
            plan::acts(steps@) == head + install_all(d.take(i as int), install_root@, dry_run),
        decreases hooks.len() - i,
    {
        let ghost before = plan::acts(steps@);
        proof {
            assert(d.take(i + 1).drop_last() =~= d.take(i as int));
            assert(d.take(i + 1).last() == hooks@[i as int]@);
        }
        let name = hooks[i].name.as_str();
        if dry_run {
            say(&mut steps, concat("  [dry-run] Would install hook: ", name).as_str());
            say(&mut steps, concat("    -> /usr/lib/initcpio/hooks/", name).as_str());
            say(&mut steps, concat("    -> /usr/lib/initcpio/install/", name).as_str());
        } else {
            write_file(
                &mut steps,
                concat3(install_root, "/usr/lib/initcpio/hooks/", name).as_str(),
                hooks[i].hook_content.as_str(),
                Some(0o755),
            );
            write_file(
                &mut steps,
                concat3(install_root, "/usr/lib/initcpio/install/", name).as_str(),
                hooks[i].install_content.as_str(),
                Some(0o755),
            );
        }
        assert(plan::acts(steps@) =~= before + install_one(
            hooks@[i as int]@,
            install_root@,
            dry_run,
        ));
        assert(plan::acts(steps@) =~= head + install_all(d.take(i + 1), install_root@, dry_run));
        i += 1;
    }
    assert(d.take(i as int) =~= d);
    assert(plan::acts(steps@) =~= hook_steps(d, install_root@, dry_run));
    steps
}

// ---------------------------------------------------------------------------- laws
/// A hook with this name is installed.
pub open spec fn installs(hooks: Seq<Hook>, name: Text) -> bool {
    exists|i: int| 0 <= i < hooks.len() && (#[trigger] hooks[i]).name == name
}

/// The initramfs runs the project's own unlocking and mounting hooks if and only if
/// they are installed.
pub proof fn own_hooks_run_where_they_are_installed(
    config: DeploymentConfig,
    layout: ComputedLayout,
    names: StorageNames,
)
    ensures
        installs(hooks_for(config, layout, names), "crypttab-unlock"@) <==> mkinitcpio::hooks_of(
            config,
        ).contains("crypttab-unlock"@),
        installs(hooks_for(config, layout, names), "mountcrypt"@) <==> mkinitcpio::hooks_of(
            config,
        ).contains("mountcrypt"@),
{
    reveal_strlit("crypttab-unlock");
    reveal_strlit("mountcrypt");
    reveal_strlit("verity-ab");
    reveal_strlit("base");
    reveal_strlit("udev");
    reveal_strlit("autodetect");
    reveal_strlit("modconf");
    reveal_strlit("block");
    reveal_strlit("keyboard");
    reveal_strlit("keymap");
    reveal_strlit("consolefont");
    reveal_strlit("lvm2");
    reveal_strlit("encrypt");
    reveal_strlit("btrfs");
    reveal_strlit("resume");
    reveal_strlit("filesystems");
    reveal_strlit("fsck");
    reveal_strlit("usr");
    let hooks = hooks_for(config, layout, names);
    let list = mkinitcpio::hooks_of(config);
    let d = config.disk;
    let k = 8int + if d.encryption || d.use_lvm_thin {
        1int
    } else {
        0
    };
    assert("modconf"@[0] == 'm' && "mountcrypt"@.len() == 10 && "autodetect"@.len() == 10);
    assert("autodetect"@[0] == 'a' && "mountcrypt"@[0] == 'm');
    if mkinitcpio::multi_luks(config) {
        assert(hooks[0] == crypttab_unlock());
        assert(hooks[1] == mountcrypt(config, layout));
        assert(list[k] == "crypttab-unlock"@);
        assert(list[k + 1] == "mountcrypt"@);
        assert(installs(hooks, "crypttab-unlock"@));
    } else if d.use_lvm_thin && d.boot_encryption {
        assert(hooks[0] == crypttab_unlock());
        let j = if d.encryption {
            k + 1
        } else {
            k
        };
        assert(list[j] == "crypttab-unlock"@);
        assert(hooks[0].name == "crypttab-unlock"@);
        assert(installs(hooks, "crypttab-unlock"@));
    } else {
        assert forall|i: int| 0 <= i < list.len() implies (#[trigger] list[i]).len() < 15 by {
            if i < 8 {
                assert(list[i] == mkinitcpio::first_hooks()[i]);
            }
        }
        assert forall|i: int| 0 <= i < hooks.len() implies (#[trigger] hooks[i]).name
            == "verity-ab"@ by {}
        assert("verity-ab"@.len() != "crypttab-unlock"@.len());
    }
}

/// Every encrypted data partition of the layout is mounted at boot: the root by its
/// own part of the script, each other one by the part that belongs to it.
pub proof fn every_volume_is_mounted(config: DeploymentConfig, layout: ComputedLayout, j: int)
    requires
        0 <= j < layout.partitions@.len(),
        luks_data(layout.partitions@[j]),
    ensures
        ({
            let p = layout.partitions@[j];
            let v = volumes(layout.partitions@);
            let sub = layout.has_subvolumes();
            let script = mountcrypt(config, layout).script;
            &&& text::holds(script, comment_of(p))
            &&& text::holds(script, volume_mount(p, sub, config.packages.immutable_root))
            &&& p.is_root() ==> has_root(v)
            &&& text::holds(script, root_mount(config, v, sub))
        }),
{
    let p = layout.partitions@[j];
    let v = volumes(layout.partitions@);
    lemma_volumes_hold(layout.partitions@, j);
    let k = choose|k: int| 0 <= k < v.len() && v[k] == p;
    let sub = layout.has_subvolumes();
    let immutable = config.packages.immutable_root;
    let root = root_mount(config, v, sub);
    let others = other_mounts(v, sub, immutable);
    let one = volume_mount(p, sub, immutable);
    let comments = text::joined(comments_of(v), "\n"@);
    text::lemma_whole_holds(root);
    text::lemma_sum_holds(root, others, root);
    lemma_others_hold(v, sub, immutable, k);
    text::lemma_sum_holds(root, others, one);
    text::lemma_joined_holds(comments_of(v), "\n"@, k);
    let resolve = resolve_function(v, sub);
    let boot = boot_mount(config);
    lemma_script_holds(comments, root + others, boot, resolve, root);
    lemma_script_holds(comments, root + others, boot, resolve, one);
    lemma_script_holds(comments, root + others, boot, resolve, comment_of(p));
}

/// The volumes are all the encrypted data partitions.
proof fn lemma_volumes_hold(parts: Seq<PartitionDef>, j: int)
    requires
        0 <= j < parts.len(),
        luks_data(parts[j]),
    ensures
        volumes(parts).contains(parts[j]),
    decreases parts.len(),
{
    let v = volumes(parts);
    if j == parts.len() - 1 {
        assert(v.last() == parts[j]);
    } else {
        let before = volumes(parts.drop_last());
        lemma_volumes_hold(parts.drop_last(), j);
        let i = choose|i: int| 0 <= i < before.len() && before[i] == parts[j];
        assert(v[i] == parts[j]);
    }
}

proof fn lemma_others_hold(v: Seq<PartitionDef>, subvolumes: bool, immutable: bool, k: int)
    requires
        0 <= k < v.len(),
    ensures
        text::holds(
            other_mounts(v, subvolumes, immutable),
            volume_mount(v[k], subvolumes, immutable),
        ),
    decreases v.len(),
{
    let one = volume_mount(v[k], subvolumes, immutable);
    if k == v.len() - 1 {
        text::lemma_whole_holds(one);
    } else {
        lemma_others_hold(v.drop_last(), subvolumes, immutable, k);
    }
    text::lemma_sum_holds(
        other_mounts(v.drop_last(), subvolumes, immutable),
        volume_mount(v.last(), subvolumes, immutable),
        one,
    );
}

/// What stands among the comments or the mounts stands in the script.
proof fn lemma_script_holds(comments: Text, mounts: Text, boot: Text, resolve: Text, p: Text)
    requires
        text::holds(comments, p) || text::holds(mounts, p),
    ensures
        text::holds(hook_texts::mountcrypt_script_text(comments, mounts, boot, resolve), p),
{
    let one = hook_texts::MOUNTCRYPT_1@;
    let two = hook_texts::MOUNTCRYPT_2@;
    let three = hook_texts::MOUNTCRYPT_3@;
    let four = hook_texts::MOUNTCRYPT_4@;
    let five = hook_texts::MOUNTCRYPT_5@;
    let head = one + comments + two + resolve + three;
    if text::holds(comments, p) {
        text::lemma_sum_holds(one, comments, p);
        text::lemma_sum_holds(one + comments, two, p);
        text::lemma_sum_holds(one + comments + two, resolve, p);
        text::lemma_sum_holds(one + comments + two + resolve, three, p);
    }
    text::lemma_sum_holds(head, mounts, p);
    text::lemma_sum_holds(head + mounts, four, p);
    text::lemma_sum_holds(head + mounts + four, boot, p);
    text::lemma_sum_holds(head + mounts + four + boot, five, p);
}

} // verus!
