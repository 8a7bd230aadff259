//! Installing GRUB: its kernel command line, its binary, its boot entry and
//! the hooks that keep it current.
use vstd::prelude::*;

use crate::config::model::DeploymentConfig;
use crate::config::options::{Bootloader, Filesystem, SecureBootMethod};
use crate::configure::boot_texts;
use crate::configure::mkinitcpio;
use crate::configure::secureboot;
use crate::configure::secureboot::sign_boot_files;
use crate::disk;
use crate::disk::{
    is_root_partition, lv_path, partition_path, ComputedLayout, PartitionDef, StorageNames,
};
use crate::error::{DeploytixError, Result};
use crate::index;
use crate::plan;
use crate::plan::{chroot, extend, make_dir, run, say, write_file, Act, Step};
use crate::text;
use crate::text::{concat, concat3, join, number, push_text, Text};

verus! {

/// Stands for a UUID in a dry run.
pub const DRY_RUN_UUID: &'static str = "XXXXXXXX-XXXX-XXXX-XXXX-XXXXXXXXXXXX";

/// Stands for the root hash until the slot's hash tree is built.
pub const AB_ROOTHASH_PLACEHOLDER: &'static str = "0";

/// The script that reinstalls GRUB, in the target.
pub const REINSTALL_GRUB_PATH: &'static str = "/usr/local/bin/reinstall-grub";

pub const MKCONFIG: &'static str = "grub-mkconfig -o /boot/grub/grub.cfg";

/// GRUB is one signed binary that holds its own configuration.
pub open spec fn standalone_grub(config: DeploymentConfig) -> bool {
    config.system.secureboot && config.system.secureboot_method == SecureBootMethod::Sbctl
        && config.disk.encryption
}

pub fn uses_standalone_grub(config: &DeploymentConfig) -> (r: bool)
    ensures
        r == standalone_grub(*config),
{
    config.system.secureboot && config.system.secureboot_method == SecureBootMethod::Sbctl
        && config.disk.encryption
}

// ------------------------------------------------------------------------ routes
/// How the kernel finds its root.
#[derive(Debug, Clone, Copy, PartialEq, Eq, Structural)]
pub enum Route {
    /// From a verified slot, in the container on this partition where there is one.
    Slots(Option<u32>),
    /// From a thin pool in the container on this partition.
    EncryptedPool(u32),
    /// From a thin pool.
    Pool,
    /// From the opened root container; the first container is on this partition.
    Containers(u32),
    /// From this partition.
    Plain(u32),
}

pub open spec fn is_luks(p: Seq<PartitionDef>) -> spec_fn(int) -> bool {
    |i: int| p[i].is_luks
}

pub open spec fn is_root(p: Seq<PartitionDef>) -> spec_fn(int) -> bool {
    |i: int| p[i].is_root()
}

pub open spec fn is_swap(p: Seq<PartitionDef>) -> spec_fn(int) -> bool {
    |i: int| p[i].is_swap
}

/// The number of the first partition with a property.
pub open spec fn first_number(
    p: Seq<PartitionDef>,
    g: spec_fn(int) -> bool,
) -> Option<u32> {
    let i = index::first(p.len() as int, g);
    if i < p.len() {
        Some(p[i].number)
    } else {
        None
    }
}

pub const NEEDS_LAYOUT: &'static str =
    "Encrypted or LVM thin systems require install_bootloader_with_layout";

pub const NO_ROOT: &'static str = "No root partition found in layout";

pub const NO_LUKS: &'static str = "LVM thin + encryption: no LUKS partition found in layout";

/// The route of a plain system, or why it has none.
pub open spec fn plain_route(
    config: DeploymentConfig,
    layout: ComputedLayout,
) -> core::result::Result<
    Route,
    Text,
> {
    if config.disk.encryption || config.disk.use_lvm_thin {
        Err(NEEDS_LAYOUT@)
    } else {
        match first_number(layout.partitions@, is_root(layout.partitions@)) {
            Some(n) => Ok(Route::Plain(n)),
            None => Err(NO_ROOT@),
        }
    }
}

/// The route of any system, or why it has none.
pub open spec fn route_of(config: DeploymentConfig, layout: ComputedLayout) -> core::result::Result<
    Route,
    Text,
> {
    let luks = first_number(layout.partitions@, is_luks(layout.partitions@));
    if config.lvm_ab_backend() {
        Ok(
            Route::Slots(
                if config.disk.encryption {
                    luks
                } else {
                    None
                },
            ),
        )
    } else if config.disk.use_lvm_thin && config.disk.encryption {
        match luks {
            Some(n) => Ok(Route::EncryptedPool(n)),
            None => Err(NO_LUKS@),
        }
    } else if config.disk.use_lvm_thin {
        Ok(Route::Pool)
    } else {
        match luks {
            Some(n) => Ok(Route::Containers(n)),
            None => plain_route(config, layout),
        }
    }
}

/// A result with its route, or with its text as a configuration error.
pub open spec fn routed(
    r: Result<Route>,
    spec: core::result::Result<Route, Text>,
) -> bool {
    match r {
        Ok(x) => spec == core::result::Result::<Route, Text>::Ok(x),
        Err(e) => spec matches Err(t) && e.config_says(t),
    }
}

fn find_luks(layout: &ComputedLayout) -> (r: Option<u32>)
    ensures
        r == first_number(layout.partitions@, is_luks(layout.partitions@)),
{
    let p = &layout.partitions;
    let mut i: usize = 0;
    while i < p.len()
        invariant
            i <= p@.len(),
            p@ == layout.partitions@,
            forall|j: int| 0 <= j < i ==> !#[trigger] is_luks(p@)(j),
        decreases p.len() - i,
    {
        if p[i].is_luks {
            proof {
                index::lemma_first_is(p@.len() as int, is_luks(p@), i as int);
            }
            return Some(p[i].number);
        }
        i += 1;
    }
    proof {
        index::lemma_first_is(p@.len() as int, is_luks(p@), p@.len() as int);
    }
    None
}

fn find_root(layout: &ComputedLayout) -> (r: Option<u32>)
    ensures
        r == first_number(layout.partitions@, is_root(layout.partitions@)),
{
    let p = &layout.partitions;
    let mut i: usize = 0;
    while i < p.len()
        invariant
            i <= p@.len(),
            p@ == layout.partitions@,
            forall|j: int| 0 <= j < i ==> !#[trigger] is_root(p@)(j),
        decreases p.len() - i,
    {
        if is_root_partition(&p[i]) {
            proof {
                index::lemma_first_is(p@.len() as int, is_root(p@), i as int);
            }
            return Some(p[i].number);
        }
        i += 1;
    }
    proof {
        index::lemma_first_is(p@.len() as int, is_root(p@), p@.len() as int);
    }
    None
}

fn find_swap(layout: &ComputedLayout) -> (r: Option<u32>)
    ensures
        r == first_number(layout.partitions@, is_swap(layout.partitions@)),
{
    let p = &layout.partitions;
    let mut i: usize = 0;
    while i < p.len()
        invariant
            i <= p@.len(),
            p@ == layout.partitions@,
            forall|j: int| 0 <= j < i ==> !#[trigger] is_swap(p@)(j),
        decreases p.len() - i,
    {
        if p[i].is_swap {
            proof {
                index::lemma_first_is(p@.len() as int, is_swap(p@), i as int);
            }
            return Some(p[i].number);
        }
        i += 1;
    }
    proof {
        index::lemma_first_is(p@.len() as int, is_swap(p@), p@.len() as int);
    }
    None
}

fn find_plain_route(config: &DeploymentConfig, layout: &ComputedLayout) -> (r: Result<Route>)
    ensures
        routed(r, plain_route(*config, *layout)),
{
    if config.disk.encryption || config.disk.use_lvm_thin {
        return Err(DeploytixError::ConfigError(NEEDS_LAYOUT.to_owned()));
    }
    match find_root(layout) {
        Some(n) => Ok(Route::Plain(n)),
        None => Err(DeploytixError::ConfigError(NO_ROOT.to_owned())),
    }
}

/// The route of a system.
pub fn grub_route(config: &DeploymentConfig, layout: &ComputedLayout) -> (r: Result<Route>)
    ensures
        routed(r, route_of(*config, *layout)),
{
    let luks = find_luks(layout);
    if config.immutable_lvm_ab() {
        Ok(
            Route::Slots(
                if config.disk.encryption {
                    luks
                } else {
                    None
                },
            ),
        )
    } else if config.disk.use_lvm_thin && config.disk.encryption {
        match luks {
            Some(n) => Ok(Route::EncryptedPool(n)),
            None => Err(DeploytixError::ConfigError(NO_LUKS.to_owned())),
        }
    } else if config.disk.use_lvm_thin {
        Ok(Route::Pool)
    } else {
        match luks {
            Some(n) => Ok(Route::Containers(n)),
            None => find_plain_route(config, layout),
        }
    }
}

/// Whose UUID a route needs.
#[derive(Debug, Clone)]
pub enum UuidQuery {
    Nothing,
    /// That of the filesystem on this device.
    Filesystem(String),
    /// That of the container on this device.
    Luks(String),
}

/// A query as the contracts speak of it.
pub enum Query {
    Nothing,
    Filesystem(Text),
    Luks(Text),
}

impl View for UuidQuery {
    type V = Query;

    open spec fn view(&self) -> Query {
        match *self {
            UuidQuery::Nothing => Query::Nothing,
            UuidQuery::Filesystem(d) => Query::Filesystem(d@),
            UuidQuery::Luks(d) => Query::Luks(d@),
        }
    }
}

pub open spec fn query_of(config: DeploymentConfig, device: Text, route: Route) -> Query {
    match route {
        Route::Slots(None) => Query::Nothing,
        Route::Slots(Some(n)) => Query::Luks(disk::partition_file(device, n as int)),
        Route::EncryptedPool(n) => Query::Luks(disk::partition_file(device, n as int)),
        Route::Pool => Query::Filesystem(disk::lv_file(config.disk.lvm_vg_name@, "root"@)),
        Route::Containers(n) => Query::Luks(disk::partition_file(device, n as int)),
        Route::Plain(n) => Query::Filesystem(disk::partition_file(device, n as int)),
    }
}

/// The UUID that has to be looked up before GRUB is installed along a route.
pub fn uuid_query(config: &DeploymentConfig, device: &str, route: Route) -> (r: UuidQuery)
    ensures
        r@ == query_of(*config, device@, route),
{
    match route {
        Route::Slots(None) => UuidQuery::Nothing,
        Route::Slots(Some(n)) => UuidQuery::Luks(partition_path(device, n)),
        Route::EncryptedPool(n) => UuidQuery::Luks(partition_path(device, n)),
        Route::Pool => UuidQuery::Filesystem(lv_path(config.disk.lvm_vg_name.as_str(), "root")),
        Route::Containers(n) => UuidQuery::Luks(partition_path(device, n)),
        Route::Plain(n) => UuidQuery::Filesystem(partition_path(device, n)),
    }
}

/// The device of the swap partition, whose UUID is looked up too.
pub open spec fn swap_device_of(device: Text, layout: ComputedLayout) -> Option<Text> {
    match first_number(layout.partitions@, is_swap(layout.partitions@)) {
        Some(n) => Some(disk::partition_file(device, n as int)),
        None => None,
    }
}

pub fn swap_device(device: &str, layout: &ComputedLayout) -> (r: Option<String>)
    ensures
        plan::seen(r) == swap_device_of(device@, *layout),
{
    match find_swap(layout) {
        Some(n) => Some(partition_path(device, n)),
        None => None,
    }
}

/// What was looked up for an installation.
#[derive(Debug, Clone)]
pub struct BootFacts {
    /// The UUID that the route needs; without meaning where it needs none.
    pub uuid: String,
    /// The UUID of the swap partition; without meaning where there is none.
    pub swap_uuid: String,
    /// EFI variables can be written on this host.
    pub efivars_usable: bool,
}

/// A dry run looks nothing up.
pub open spec fn uuid_used(found: Text, dry_run: bool) -> Text {
    if dry_run {
        DRY_RUN_UUID@
    } else {
        found
    }
}

/// The UUID of the swap partition, where the layout has one.
pub open spec fn swap_uuid_used(
    layout: ComputedLayout,
    found: Text,
    dry_run: bool,
) -> Option<Text> {
    match first_number(layout.partitions@, is_swap(layout.partitions@)) {
        Some(_) => Some(uuid_used(found, dry_run)),
        None => None,
    }
}

/// The UUID of the swap partition as the boot loader uses it.
pub fn get_swap_uuid_from_layout(layout: &ComputedLayout, found: &str, dry_run: bool) -> (r: Option<
    String,
>)
    ensures
        plan::seen(r) == swap_uuid_used(*layout, found@, dry_run),
{
    match find_swap(layout) {
        Some(_) => Some(
            if dry_run {
                DRY_RUN_UUID.to_owned()
            } else {
                found.to_owned()
            },
        ),
        None => None,
    }
}

// --------------------------------------------------------------- command lines
/// Where to resume from, in a system that hibernates and has a swap partition.
pub open spec fn resume_part(config: DeploymentConfig, swap: Option<Text>) -> Seq<Text> {
    match swap {
        Some(u) if config.system.hibernation => seq!["resume=UUID="@ + u],
        _ => seq![],
    }
}

fn push_resume(parts: &mut Vec<String>, config: &DeploymentConfig, swap: &Option<String>)
    ensures
        final(parts).deep_view() == old(parts).deep_view() + resume_part(
            *config,
            plan::seen(*swap),
        ),
{
    if config.system.hibernation {
        if let Some(u) = swap {
            push_text(parts, concat("resume=UUID=", u.as_str()).as_str());
        }
    }
    assert(parts.deep_view() =~= old(parts).deep_view() + resume_part(*config, plan::seen(*swap)));
}

/// The kernel parameters that name the root: its mapper device where there is
/// one, a ZFS dataset, or a UUID.
pub open spec fn root_part(
    config: DeploymentConfig,
    names: StorageNames,
    uuid: Text,
    mapper: Option<Text>,
    subvolumes: bool,
) -> Seq<Text> {
    let flags = mkinitcpio::if_so(subvolumes, seq!["rootflags=subvol=@"@]);
    match mapper {
        Some(m) => seq!["root=/dev/mapper/"@ + m] + flags + seq!["rw"@],
        None => if config.disk.filesystem == Filesystem::Zfs {
            seq!["root=ZFS="@ + names.zfs_root_dataset@, "rw"@]
        } else {
            seq!["root=UUID="@ + uuid] + flags + seq!["rw"@]
        },
    }
}

pub open spec fn kernel_parts(
    config: DeploymentConfig,
    names: StorageNames,
    uuid: Text,
    mapper: Option<Text>,
    subvolumes: bool,
    swap: Option<Text>,
) -> Seq<Text> {
    seq!["quiet"@] + root_part(config, names, uuid, mapper, subvolumes) + resume_part(config, swap)
}

fn kernel_parameters(
    config: &DeploymentConfig,
    names: &StorageNames,
    uuid: &str,
    mapper: &Option<String>,
    subvolumes: bool,
    swap: &Option<String>,
) -> (r: Vec<String>)
    ensures
        r.deep_view() == kernel_parts(
            *config,
            *names,
            uuid@,
            plan::seen(*mapper),
            subvolumes,
            plan::seen(*swap),
        ),
{
    let mut parts: Vec<String> = Vec::new();
    push_text(&mut parts, "quiet");
    if let Some(m) = mapper {
        push_text(&mut parts, concat("root=/dev/mapper/", m.as_str()).as_str());
        if subvolumes {
            push_text(&mut parts, "rootflags=subvol=@");
        }
        push_text(&mut parts, "rw");
    } else if config.disk.filesystem == Filesystem::Zfs {
        push_text(&mut parts, concat("root=ZFS=", names.zfs_root_dataset.as_str()).as_str());
        push_text(&mut parts, "rw");
    } else {
        push_text(&mut parts, concat("root=UUID=", uuid).as_str());
        if subvolumes {
            push_text(&mut parts, "rootflags=subvol=@");
        }
        push_text(&mut parts, "rw");
    }
    assert(parts.deep_view() =~= seq!["quiet"@] + root_part(
        *config,
        *names,
        uuid@,
        plan::seen(*mapper),
        subvolumes,
    ));
    push_resume(&mut parts, config, swap);
    parts
}

/// The line that makes GRUB open an encrypted /boot.
pub open spec fn cryptodisk_line(boot_encryption: bool) -> Text {
    if boot_encryption {
        "GRUB_ENABLE_CRYPTODISK=y\n"@
    } else {
        ""@
    }
}

fn cryptodisk(boot_encryption: bool) -> (r: &'static str)
    ensures
        r@ == cryptodisk_line(boot_encryption),
{
    if boot_encryption {
        "GRUB_ENABLE_CRYPTODISK=y\n"
    } else {
        ""
    }
}

/// Writing /etc/default/grub.
pub open spec fn defaults_written(install_root: Text, content: Text) -> Seq<Act> {
    seq![
        Act::MakeDir(install_root + "/etc/default"@),
        Act::Write { path: install_root + "/etc/default/grub"@, content, mode: None },
    ]
}

fn write_defaults(install_root: &str, content: &str) -> (r: Vec<Step>)
    ensures
        plan::acts(r@) == defaults_written(install_root@, content@),
{
    let mut steps: Vec<Step> = Vec::new();
    make_dir(&mut steps, concat(install_root, "/etc/default").as_str());
    write_file(&mut steps, concat(install_root, "/etc/default/grub").as_str(), content, None);
    assert(plan::acts(steps@) =~= defaults_written(install_root@, content@));
    steps
}

/// The defaults of a system with partitions or containers.
pub open spec fn defaults_steps(
    config: DeploymentConfig,
    names: StorageNames,
    uuid: Text,
    mapper: Option<Text>,
    subvolumes: bool,
    boot_encryption: bool,
    install_root: Text,
    swap: Option<Text>,
    dry_run: bool,
) -> Seq<Act> {
    if dry_run {
        seq![Act::Say("  [dry-run] Would configure /etc/default/grub"@)] + (if mapper is Some {
            seq![
                Act::Say("    GRUB_ENABLE_CRYPTODISK=y"@),
                Act::Say(
                    "    cryptdevice=UUID=<LUKS_UUID>:<mapper> root=/dev/mapper/<mapper>"@,
                ),
            ]
        } else {
            seq![]
        }) + (if subvolumes {
            seq![Act::Say("    rootflags=subvol=@"@)]
        } else {
            seq![]
        })
    } else {
        defaults_written(
            install_root,
            boot_texts::defaults_text(
                text::joined(kernel_parts(config, names, uuid, mapper, subvolumes, swap), " "@),
            ) + cryptodisk_line(boot_encryption),
        )
    }
}

fn configure_grub_defaults(
    config: &DeploymentConfig,
    names: &StorageNames,
    uuid: &str,
    mapper: &Option<String>,
    subvolumes: bool,
    boot_encryption: bool,
    install_root: &str,
    swap: &Option<String>,
    dry_run: bool,
) -> (r: Vec<Step>)
    ensures
        plan::acts(r@) == defaults_steps(
            *config,
            *names,
            uuid@,
            plan::seen(*mapper),
            subvolumes,
            boot_encryption,
            install_root@,
            plan::seen(*swap),
            dry_run,
        ),
{
    if dry_run {
        let mut steps: Vec<Step> = Vec::new();
        say(&mut steps, "  [dry-run] Would configure /etc/default/grub");
        if mapper.is_some() {
            say(&mut steps, "    GRUB_ENABLE_CRYPTODISK=y");
            say(
                &mut steps,
                "    cryptdevice=UUID=<LUKS_UUID>:<mapper> root=/dev/mapper/<mapper>",
            );
        }
        if subvolumes {
            say(&mut steps, "    rootflags=subvol=@");
        }
        assert(plan::acts(steps@) =~= defaults_steps(
            *config,
            *names,
            uuid@,
            plan::seen(*mapper),
            subvolumes,
            boot_encryption,
            install_root@,
            plan::seen(*swap),
            dry_run,
        ));
        return steps;
    }
    let parts = kernel_parameters(config, names, uuid, mapper, subvolumes, swap);
    let mut content = boot_texts::defaults(join(&parts, " ").as_str());
    content.push_str(cryptodisk(boot_encryption));
    write_defaults(install_root, content.as_str())
}

pub const CRYPTKEY: &'static str = "cryptkey=rootfs:/etc/cryptsetup-keys.d/cryptlvm.key";

/// The kernel parameters over an encrypted thin pool. With an encrypted /boot
/// the keyfile of the pool is in the initramfs, so nothing is asked for twice.
pub open spec fn thin_parts(
    config: DeploymentConfig,
    luks_uuid: Text,
    swap: Option<Text>,
) -> Seq<Text> {
    seq![
        "quiet"@,
        "cryptdevice=UUID="@ + luks_uuid + ":Crypt-LVM"@,
        "root="@ + disk::lv_file(config.disk.lvm_vg_name@, "root"@),
    ] + mkinitcpio::if_so(config.disk.boot_encryption, seq![CRYPTKEY@]) + seq!["rw"@]
        + resume_part(config, swap)
}

/// The defaults of an encrypted thin pool.
pub open spec fn thin_defaults_steps(
    config: DeploymentConfig,
    luks_uuid: Text,
    install_root: Text,
    swap: Option<Text>,
    dry_run: bool,
) -> Seq<Act> {
    if dry_run {
        seq![
            Act::Say("  [dry-run] Would configure /etc/default/grub for LvmThin"@),
            Act::Say(
                "    cryptdevice=UUID="@ + luks_uuid + ":Crypt-LVM root="@ + disk::lv_file(
                    config.disk.lvm_vg_name@,
                    "root"@,
                ),
            ),
        ] + (if config.disk.boot_encryption {
            seq![Act::Say("    GRUB_ENABLE_CRYPTODISK=y"@)]
        } else {
            seq![]
        })
    } else {
        defaults_written(
            install_root,
            boot_texts::defaults_thin_text(
                text::joined(thin_parts(config, luks_uuid, swap), " "@),
            ) + cryptodisk_line(config.disk.boot_encryption),
        )
    }
}

fn configure_grub_defaults_lvm_thin(
    config: &DeploymentConfig,
    luks_uuid: &str,
    install_root: &str,
    swap: &Option<String>,
    dry_run: bool,
) -> (r: Vec<Step>)
    ensures
        plan::acts(r@) == thin_defaults_steps(
            *config,
            luks_uuid@,
            install_root@,
            plan::seen(*swap),
            dry_run,
        ),
{
    let root_lv = lv_path(config.disk.lvm_vg_name.as_str(), "root");
    if dry_run {
        let mut steps: Vec<Step> = Vec::new();
        say(&mut steps, "  [dry-run] Would configure /etc/default/grub for LvmThin");
        let mut line = concat3("    cryptdevice=UUID=", luks_uuid, ":Crypt-LVM root=");
        line.push_str(root_lv.as_str());
        say(&mut steps, line.as_str());
        if config.disk.boot_encryption {
            say(&mut steps, "    GRUB_ENABLE_CRYPTODISK=y");
        }
        assert(plan::acts(steps@) =~= thin_defaults_steps(
            *config,
            luks_uuid@,
            install_root@,
            plan::seen(*swap),
            dry_run,
        ));
        return steps;
    }
    let mut parts: Vec<String> = Vec::new();
    push_text(&mut parts, "quiet");
    push_text(&mut parts, concat3("cryptdevice=UUID=", luks_uuid, ":Crypt-LVM").as_str());
    push_text(&mut parts, concat("root=", root_lv.as_str()).as_str());
    if config.disk.boot_encryption {
        push_text(&mut parts, CRYPTKEY);
    }
    push_text(&mut parts, "rw");
    let ghost head = seq![
        "quiet"@,
        "cryptdevice=UUID="@ + luks_uuid@ + ":Crypt-LVM"@,
        "root="@ + disk::lv_file(config.disk.lvm_vg_name@, "root"@),
    ] + mkinitcpio::if_so(config.disk.boot_encryption, seq![CRYPTKEY@]) + seq!["rw"@];
    assert(parts.deep_view() =~= head);
    push_resume(&mut parts, config, swap);
    let mut content = boot_texts::defaults_thin(join(&parts, " ").as_str());
    content.push_str(cryptodisk(config.disk.boot_encryption));
    write_defaults(install_root, content.as_str())
}

/// The kernel parameters of a verified slot: the first boot is from slot A, and
/// the root is read-only.
pub open spec fn slot_parts(
    config: DeploymentConfig,
    names: StorageNames,
    luks_uuid: Option<Text>,
    swap: Option<Text>,
) -> Seq<Text> {
    seq!["quiet"@] + (match luks_uuid {
        Some(u) => seq!["cryptdevice=UUID="@ + u + ":Crypt-LVM"@] + mkinitcpio::if_so(
            config.disk.boot_encryption,
            seq![CRYPTKEY@],
        ),
        None => seq![],
    }) + seq![
        "root=/dev/mapper/"@ + names.verity_mapper@,
        "deploytix.slot=A"@,
        "deploytix.roothash="@ + AB_ROOTHASH_PLACEHOLDER@,
        "ro"@,
    ] + resume_part(config, swap)
}

/// The defaults of a verified slot.
pub open spec fn slot_defaults_steps(
    config: DeploymentConfig,
    names: StorageNames,
    luks_uuid: Option<Text>,
    install_root: Text,
    swap: Option<Text>,
    dry_run: bool,
) -> Seq<Act> {
    if dry_run {
        seq![
            Act::Say("  [dry-run] Would configure /etc/default/grub for LVM immutable A/B"@),
            Act::Say(
                "    deploytix.slot=A deploytix.roothash="@ + AB_ROOTHASH_PLACEHOLDER@
                    + " root=/dev/mapper/"@ + names.verity_mapper@,
            ),
        ]
    } else {
        defaults_written(
            install_root,
            boot_texts::defaults_ab_text(
                text::joined(slot_parts(config, names, luks_uuid, swap), " "@),
            ) + cryptodisk_line(config.disk.boot_encryption),
        )
    }
}

fn configure_grub_defaults_lvm_ab(
    config: &DeploymentConfig,
    names: &StorageNames,
    luks_uuid: &Option<String>,
    install_root: &str,
    swap: &Option<String>,
    dry_run: bool,
) -> (r: Vec<Step>)
    ensures
        plan::acts(r@) == slot_defaults_steps(
            *config,
            *names,
            plan::seen(*luks_uuid),
            install_root@,
            plan::seen(*swap),
            dry_run,
        ),
{
    if dry_run {
        let mut steps: Vec<Step> = Vec::new();
        say(&mut steps, "  [dry-run] Would configure /etc/default/grub for LVM immutable A/B");
        let mut line = concat(
            "    deploytix.slot=A deploytix.roothash=",
            AB_ROOTHASH_PLACEHOLDER,
        );
        line.push_str(" root=/dev/mapper/");
        line.push_str(names.verity_mapper.as_str());
        say(&mut steps, line.as_str());
        assert(plan::acts(steps@) =~= slot_defaults_steps(
            *config,
            *names,
            plan::seen(*luks_uuid),
            install_root@,
            plan::seen(*swap),
            dry_run,
        ));
        return steps;
    }
    let mut parts: Vec<String> = Vec::new();
    push_text(&mut parts, "quiet");
    let ghost container = match plan::seen(*luks_uuid) {
        Some(u) => seq!["cryptdevice=UUID="@ + u + ":Crypt-LVM"@] + mkinitcpio::if_so(
            config.disk.boot_encryption,
            seq![CRYPTKEY@],
        ),
        None => seq![],
    };
    if let Some(u) = luks_uuid {
        push_text(&mut parts, concat3("cryptdevice=UUID=", u.as_str(), ":Crypt-LVM").as_str());
        if config.disk.boot_encryption {
            push_text(&mut parts, CRYPTKEY);
        }
    }
    assert(parts.deep_view() =~= seq!["quiet"@] + container);
    push_text(&mut parts, concat("root=/dev/mapper/", names.verity_mapper.as_str()).as_str());
    push_text(&mut parts, "deploytix.slot=A");
    push_text(&mut parts, concat("deploytix.roothash=", AB_ROOTHASH_PLACEHOLDER).as_str());
    push_text(&mut parts, "ro");
    assert(parts.deep_view() =~= seq!["quiet"@] + container + seq![
        "root=/dev/mapper/"@ + names.verity_mapper@,
        "deploytix.slot=A"@,
        "deploytix.roothash="@ + AB_ROOTHASH_PLACEHOLDER@,
        "ro"@,
    ]);
    push_resume(&mut parts, config, swap);
    let mut content = boot_texts::defaults_ab(join(&parts, " ").as_str());
    content.push_str(cryptodisk(config.disk.boot_encryption));
    write_defaults(install_root, content.as_str())
}

// ------------------------------------------------------------------ installation
pub open spec fn efibootmgr_args(device: Text, partition: int, label: Text) -> Seq<Text> {
    seq![
        "--create"@,
        "--disk"@,
        device,
        "--part"@,
        text::decimal(partition as nat),
        "--loader"@,
        "/EFI/BOOT/BOOTX64.EFI"@,
        "--label"@,
        label,
    ]
}

/// How a dry run shows a boot entry.
pub open spec fn entry_shown(device: Text, partition: int, label: Text) -> Text {
    "  [dry-run] efibootmgr --create --disk "@ + device + " --part "@ + text::decimal(
        partition as nat,
    ) + " --loader /EFI/BOOT/BOOTX64.EFI --label '"@ + label + "'"@
}

/// Registering the loader with the firmware. Where EFI variables cannot be
/// written nothing is done: the loader lies on the fallback path.
pub open spec fn entry_steps(
    device: Text,
    partition: int,
    label: Text,
    efivars_usable: bool,
    dry_run: bool,
) -> Seq<Act> {
    if dry_run {
        seq![Act::Say(entry_shown(device, partition, label))]
    } else if efivars_usable {
        seq![
            Act::Run {
                program: "efibootmgr"@,
                args: efibootmgr_args(device, partition, label),
            },
        ]
    } else {
        seq![]
    }
}

pub fn create_efi_boot_entry(
    device: &str,
    efi_partition: u32,
    label: &str,
    efivars_usable: bool,
    dry_run: bool,
) -> (r: Vec<Step>)
    ensures
        plan::acts(r@) == entry_steps(
            device@,
            efi_partition as int,
            label@,
            efivars_usable,
            dry_run,
        ),
{
    let mut steps: Vec<Step> = Vec::new();
    let n = number(efi_partition as u64);
    if dry_run {
        let mut line = concat3(
            "  [dry-run] efibootmgr --create --disk ",
            device,
            " --part ",
        );
        line.push_str(n.as_str());
        line.push_str(" --loader /EFI/BOOT/BOOTX64.EFI --label '");
        line.push_str(label);
        line.push_str("'");
        say(&mut steps, line.as_str());
    } else if efivars_usable {
        let mut args: Vec<String> = Vec::new();
        push_text(&mut args, "--create");
        push_text(&mut args, "--disk");
        push_text(&mut args, device);
        push_text(&mut args, "--part");
        push_text(&mut args, n.as_str());
        push_text(&mut args, "--loader");
        push_text(&mut args, "/EFI/BOOT/BOOTX64.EFI");
        push_text(&mut args, "--label");
        push_text(&mut args, label);
        assert(args.deep_view() =~= efibootmgr_args(device@, efi_partition as int, label@));
        run(&mut steps, "efibootmgr", args);
    }
    assert(plan::acts(steps@) =~= entry_steps(
        device@,
        efi_partition as int,
        label@,
        efivars_usable,
        dry_run,
    ));
    steps
}

/// Installing GRUB with its configuration on the disk.
pub open spec fn install_steps(
    device: Text,
    install_root: Text,
    efivars_usable: bool,
    dry_run: bool,
) -> Seq<Act> {
    (if dry_run {
        seq![
            Act::Say("  [dry-run] "@ + boot_texts::grub_install_text(device)),
            Act::Say("  [dry-run] "@ + MKCONFIG@),
        ]
    } else {
        seq![
            Act::Chroot { root: install_root, command: boot_texts::grub_install_text(device) },
            Act::Chroot { root: install_root, command: MKCONFIG@ },
        ]
    }) + entry_steps(device, 1, "Artix Linux"@, efivars_usable, dry_run)
}

fn run_grub_install(
    device: &str,
    install_root: &str,
    efivars_usable: bool,
    dry_run: bool,
) -> (r: Vec<Step>)
    ensures
        plan::acts(r@) == install_steps(device@, install_root@, efivars_usable, dry_run),
{
    let mut steps: Vec<Step> = Vec::new();
    let command = boot_texts::grub_install(device);
    if dry_run {
        say(&mut steps, concat("  [dry-run] ", command.as_str()).as_str());
        say(&mut steps, concat("  [dry-run] ", MKCONFIG).as_str());
    } else {
        chroot(&mut steps, install_root, command.as_str());
        chroot(&mut steps, install_root, MKCONFIG);
    }
    extend(&mut steps, create_efi_boot_entry(device, 1, "Artix Linux", efivars_usable, dry_run));
    assert(plan::acts(steps@) =~= install_steps(device@, install_root@, efivars_usable, dry_run));
    steps
}

/// Building a standalone GRUB.
pub open spec fn standalone_steps(
    device: Text,
    install_root: Text,
    efivars_usable: bool,
    dry_run: bool,
) -> Seq<Act> {
    (if dry_run {
        seq![
            Act::Say("  [dry-run] "@ + MKCONFIG@),
            Act::Say(boot_texts::MKSTANDALONE_SHOWN@),
        ]
    } else {
        seq![
            Act::MakeDir(install_root + "/boot/grub"@),
            Act::Chroot { root: install_root, command: MKCONFIG@ },
            Act::MakeDir(install_root + "/boot/efi/EFI/BOOT"@),
            Act::Chroot {
                root: install_root,
                command: boot_texts::mkstandalone_text(boot_texts::GRUB_STANDALONE_MODULES@),
            },
        ]
    }) + entry_steps(device, 1, "Artix-SB"@, efivars_usable, dry_run)
}

fn run_grub_mkstandalone(
    device: &str,
    install_root: &str,
    efivars_usable: bool,
    dry_run: bool,
) -> (r: Vec<Step>)
    ensures
        plan::acts(r@) == standalone_steps(device@, install_root@, efivars_usable, dry_run),
{
    let mut steps: Vec<Step> = Vec::new();
    if dry_run {
        say(&mut steps, concat("  [dry-run] ", MKCONFIG).as_str());
        say(&mut steps, boot_texts::MKSTANDALONE_SHOWN);
    } else {
        make_dir(&mut steps, concat(install_root, "/boot/grub").as_str());
        chroot(&mut steps, install_root, MKCONFIG);
        make_dir(&mut steps, concat(install_root, "/boot/efi/EFI/BOOT").as_str());
        chroot(
            &mut steps,
            install_root,
            boot_texts::mkstandalone(boot_texts::GRUB_STANDALONE_MODULES).as_str(),
        );
    }
    extend(&mut steps, create_efi_boot_entry(device, 1, "Artix-SB", efivars_usable, dry_run));
    assert(plan::acts(steps@) =~= standalone_steps(device@, install_root@, efivars_usable, dry_run));
    steps
}

/// Installing GRUB in the form that the configuration asks for, and signing it
/// under SecureBoot.
pub open spec fn secure_install_steps(
    config: DeploymentConfig,
    device: Text,
    install_root: Text,
    efivars_usable: bool,
    dry_run: bool,
) -> Seq<Act> {
    (if standalone_grub(config) {
        standalone_steps(device, install_root, efivars_usable, dry_run)
    } else {
        install_steps(device, install_root, efivars_usable, dry_run)
    }) + secureboot::sign_boot_steps(config, install_root, dry_run)
}

pub fn run_grub_install_with_secureboot(
    config: &DeploymentConfig,
    device: &str,
    install_root: &str,
    efivars_usable: bool,
    dry_run: bool,
) -> (r: Vec<Step>)
    ensures
        plan::acts(r@) == secure_install_steps(
            *config,
            device@,
            install_root@,
            efivars_usable,
            dry_run,
        ),
{
    let mut steps = if uses_standalone_grub(config) {
        run_grub_mkstandalone(device, install_root, efivars_usable, dry_run)
    } else {
        run_grub_install(device, install_root, efivars_usable, dry_run)
    };
    extend(&mut steps, sign_boot_files(config, install_root, dry_run));
    steps
}

/// The defaults along a route.
pub open spec fn route_defaults(
    config: DeploymentConfig,
    layout: ComputedLayout,
    names: StorageNames,
    route: Route,
    install_root: Text,
    uuid: Text,
    swap: Option<Text>,
    dry_run: bool,
) -> Seq<Act> {
    match route {
        Route::Slots(n) => slot_defaults_steps(
            config,
            names,
            if n is Some {
                Some(uuid)
            } else {
                None
            },
            install_root,
            swap,
            dry_run,
        ),
        Route::EncryptedPool(_) => thin_defaults_steps(config, uuid, install_root, swap, dry_run),
        Route::Pool => defaults_steps(
            config,
            names,
            uuid,
            None,
            layout.has_subvolumes(),
            false,
            install_root,
            swap,
            dry_run,
        ),
        Route::Containers(_) => defaults_steps(
            config,
            names,
            uuid,
            Some(config.disk.luks_mapper_name@),
            layout.has_subvolumes(),
            config.disk.boot_encryption,
            install_root,
            swap,
            dry_run,
        ),
        Route::Plain(_) => defaults_steps(
            config,
            names,
            uuid,
            None,
            config.disk.use_subvolumes,
            false,
            install_root,
            swap,
            dry_run,
        ),
    }
}

/// Installing GRUB along a route. A plain system is not signed here.
pub open spec fn grub_steps(
    config: DeploymentConfig,
    device: Text,
    layout: ComputedLayout,
    names: StorageNames,
    route: Route,
    install_root: Text,
    facts: BootFacts,
    dry_run: bool,
) -> Seq<Act> {
    route_defaults(
        config,
        layout,
        names,
        route,
        install_root,
        uuid_used(facts.uuid@, dry_run),
        swap_uuid_used(layout, facts.swap_uuid@, dry_run),
        dry_run,
    ) + if config.system.secureboot && !(route is Plain) {
        secure_install_steps(config, device, install_root, facts.efivars_usable, dry_run)
    } else {
        install_steps(device, install_root, facts.efivars_usable, dry_run)
    }
}

fn grub_along(
    config: &DeploymentConfig,
    device: &str,
    layout: &ComputedLayout,
    names: &StorageNames,
    route: Route,
    install_root: &str,
    facts: &BootFacts,
    dry_run: bool,
) -> (r: Vec<Step>)
    ensures
        plan::acts(r@) == grub_steps(
            *config,
            device@,
            *layout,
            *names,
            route,
            install_root@,
            *facts,
            dry_run,
        ),
{
    let uuid = if dry_run {
        DRY_RUN_UUID
    } else {
        facts.uuid.as_str()
    };
    let swap = get_swap_uuid_from_layout(layout, facts.swap_uuid.as_str(), dry_run);
    let none: Option<String> = None;
    let mut plain = false;
    let mut steps = match route {
        Route::Slots(n) => {
            let luks = match n {
                Some(_) => Some(uuid.to_owned()),
                None => None,
            };
            configure_grub_defaults_lvm_ab(config, names, &luks, install_root, &swap, dry_run)
        },
        Route::EncryptedPool(_) => configure_grub_defaults_lvm_thin(
            config,
            uuid,
            install_root,
            &swap,
            dry_run,
        ),
        Route::Pool => configure_grub_defaults(
            config,
            names,
            uuid,
            &none,
            layout.uses_subvolumes(),
            false,
            install_root,
            &swap,
            dry_run,
        ),
        Route::Containers(_) => {
            let mapper = Some(config.disk.luks_mapper_name.clone());
            configure_grub_defaults(
                config,
                names,
                uuid,
                &mapper,
                layout.uses_subvolumes(),
                config.disk.boot_encryption,
                install_root,
                &swap,
                dry_run,
            )
        },
        Route::Plain(_) => {
            plain = true;
            configure_grub_defaults(
                config,
                names,
                uuid,
                &none,
                config.disk.use_subvolumes,
                false,
                install_root,
                &swap,
                dry_run,
            )
        },
    };
    if config.system.secureboot && !plain {
        extend(
            &mut steps,
            run_grub_install_with_secureboot(
                config,
                device,
                install_root,
                facts.efivars_usable,
                dry_run,
            ),
        );
    } else {
        extend(&mut steps, run_grub_install(device, install_root, facts.efivars_usable, dry_run));
    }
    steps
}

/// Installs the boot loader of a plain system.
pub fn install_bootloader(
    config: &DeploymentConfig,
    device: &str,
    layout: &ComputedLayout,
    names: &StorageNames,
    install_root: &str,
    facts: &BootFacts,
    dry_run: bool,
) -> (r: Result<Vec<Step>>)
    ensures
        match r {
            Ok(p) => plain_route(*config, *layout) matches Ok(route) && plan::acts(p@)
                == grub_steps(
                *config,
                device@,
                *layout,
                *names,
                route,
                install_root@,
                *facts,
                dry_run,
            ),
            Err(e) => plain_route(*config, *layout) matches Err(t) && e.config_says(t),
        },
{
    match config.system.bootloader {
        Bootloader::Grub => match find_plain_route(config, layout) {
            Ok(route) => Ok(
                grub_along(config, device, layout, names, route, install_root, facts, dry_run),
            ),
            Err(e) => Err(e),
        },
    }
}

/// Installs the boot loader of any system.
pub fn install_bootloader_with_layout(
    config: &DeploymentConfig,
    device: &str,
    layout: &ComputedLayout,
    names: &StorageNames,
    install_root: &str,
    facts: &BootFacts,
    dry_run: bool,
) -> (r: Result<Vec<Step>>)
    ensures
        match r {
            Ok(p) => route_of(*config, *layout) matches Ok(route) && plan::acts(p@)
                == grub_steps(
                *config,
                device@,
                *layout,
                *names,
                route,
                install_root@,
                *facts,
                dry_run,
            ),
            Err(e) => route_of(*config, *layout) matches Err(t) && e.config_says(t),
        },
{
    match config.system.bootloader {
        Bootloader::Grub => match grub_route(config, layout) {
            Ok(route) => Ok(
                grub_along(config, device, layout, names, route, install_root, facts, dry_run),
            ),
            Err(e) => Err(e),
        },
    }
}

// ------------------------------------------------------------------------- hooks
/// What the reinstalling script signs again.
pub open spec fn resign_block(config: DeploymentConfig) -> Text {
    if !config.system.secureboot {
        ""@
    } else if config.system.secureboot_method == SecureBootMethod::Sbctl {
        boot_texts::RESIGN_SBCTL@
    } else {
        boot_texts::RESIGN_SCRIPT@
    }
}

/// The script that reinstalls GRUB.
pub open spec fn reinstall_script(config: DeploymentConfig, device: Text) -> Text {
    if standalone_grub(config) {
        boot_texts::reinstall_standalone_text(
            boot_texts::GRUB_STANDALONE_MODULES@,
            resign_block(config),
        )
    } else {
        boot_texts::reinstall_standard_text(device, resign_block(config))
    }
}

/// What the hook depends on.
pub open spec fn hook_depends(config: DeploymentConfig) -> Text {
    if config.system.secureboot && config.system.secureboot_method == SecureBootMethod::Sbctl {
        "Depends = grub"@ + "\n"@ + "Depends = sbctl"@
    } else {
        "Depends = grub"@
    }
}

/// The script and the hook that reinstall GRUB after an update.
pub open spec fn reinstall_steps(
    config: DeploymentConfig,
    device: Text,
    install_root: Text,
    dry_run: bool,
) -> Seq<Act> {
    let dir = install_root + "/etc/pacman.d/hooks"@;
    if dry_run {
        seq![
            Act::Say("  [dry-run] Would create /etc/pacman.d/hooks/95-grub-reinstall.hook"@),
            Act::Say("  [dry-run] Would create /usr/local/bin/reinstall-grub"@),
        ]
    } else {
        seq![
            Act::MakeDir(dir),
            Act::MakeDir(install_root + "/usr/local/bin"@),
            Act::Write {
                path: install_root + REINSTALL_GRUB_PATH@,
                content: reinstall_script(config, device),
                mode: Some(0o755),
            },
            Act::Write {
                path: dir + "/95-grub-reinstall.hook"@,
                content: boot_texts::reinstall_hook_text(hook_depends(config)),
                mode: None,
            },
        ]
    }
}

pub fn create_grub_reinstall_hook(
    config: &DeploymentConfig,
    device: &str,
    install_root: &str,
    dry_run: bool,
) -> (r: Vec<Step>)
    ensures
        plan::acts(r@) == reinstall_steps(*config, device@, install_root@, dry_run),
{
    let mut steps: Vec<Step> = Vec::new();
    if dry_run {
        say(&mut steps, "  [dry-run] Would create /etc/pacman.d/hooks/95-grub-reinstall.hook");
        say(&mut steps, "  [dry-run] Would create /usr/local/bin/reinstall-grub");
    } else {
        let sbctl = config.system.secureboot_method == SecureBootMethod::Sbctl;
        let resign = if !config.system.secureboot {
            ""
        } else if sbctl {
            boot_texts::RESIGN_SBCTL
        } else {
            boot_texts::RESIGN_SCRIPT
        };
        let script = if uses_standalone_grub(config) {
            boot_texts::reinstall_standalone(boot_texts::GRUB_STANDALONE_MODULES, resign)
        } else {
            boot_texts::reinstall_standard(device, resign)
        };
        let depends = if config.system.secureboot && sbctl {
            concat3("Depends = grub", "\n", "Depends = sbctl")
        } else {
            "Depends = grub".to_owned()
        };
        let dir = concat(install_root, "/etc/pacman.d/hooks");
        make_dir(&mut steps, dir.as_str());
        make_dir(&mut steps, concat(install_root, "/usr/local/bin").as_str());
        write_file(
            &mut steps,
            concat(install_root, REINSTALL_GRUB_PATH).as_str(),
            script.as_str(),
            Some(0o755),
        );
        write_file(
            &mut steps,
            concat(dir.as_str(), "/95-grub-reinstall.hook").as_str(),
            boot_texts::reinstall_hook(depends.as_str()).as_str(),
            None,
        );
    }
    assert(plan::acts(steps@) =~= reinstall_steps(*config, device@, install_root@, dry_run));
    steps
}

/// The script that adapts grub-btrfs. Only an encrypted /boot has GRUB open
/// containers, and then the one that holds it is pinned.
pub open spec fn patch_text(config: DeploymentConfig, boot_luks_uuid: Option<Text>) -> Text {
    boot_texts::patch_script_text(
        if config.disk.boot_encryption {
            "true"@
        } else {
            "false"@
        },
        match boot_luks_uuid {
            Some(u) if config.disk.boot_encryption => u,
            _ => ""@,
        },
    )
}

pub open spec fn compat_steps(
    config: DeploymentConfig,
    boot_luks_uuid: Option<Text>,
    install_root: Text,
    dry_run: bool,
) -> Seq<Act> {
    if dry_run {
        seq![
            Act::Say("  [dry-run] Would create /usr/local/bin/patch-grub-btrfs-integrity"@),
            Act::Say("  [dry-run] Would create /etc/pacman.d/hooks/91-patch-grub-btrfs.hook"@),
        ]
    } else {
        seq![
            Act::MakeDir(install_root + "/usr/local/bin"@),
            Act::Write {
                path: install_root + "/usr/local/bin/patch-grub-btrfs-integrity"@,
                content: patch_text(config, boot_luks_uuid),
                mode: Some(0o755),
            },
            Act::MakeDir(install_root + "/etc/pacman.d/hooks"@),
            Act::Write {
                path: install_root + "/etc/pacman.d/hooks/91-patch-grub-btrfs.hook"@,
                content: boot_texts::PATCH_HOOK@,
                mode: None,
            },
        ]
    }
}

/// Adapts grub-btrfs to an encrypted layout.
pub fn create_grub_btrfs_compat(
    config: &DeploymentConfig,
    boot_luks_uuid: Option<&str>,
    install_root: &str,
    dry_run: bool,
) -> (r: Vec<Step>)
    ensures
        plan::acts(r@) == compat_steps(
            *config,
            match boot_luks_uuid {
                Some(u) => Some(u@),
                None => None,
            },
            install_root@,
            dry_run,
        ),
{
    let ghost uuid = match boot_luks_uuid {
        Some(u) => Some(u@),
        None => None,
    };
    let mut steps: Vec<Step> = Vec::new();
    if dry_run {
        say(&mut steps, "  [dry-run] Would create /usr/local/bin/patch-grub-btrfs-integrity");
        say(&mut steps, "  [dry-run] Would create /etc/pacman.d/hooks/91-patch-grub-btrfs.hook");
    } else {
        let cryptodisk = if config.disk.boot_encryption {
            "true"
        } else {
            "false"
        };
        let pinned = if config.disk.boot_encryption {
            match boot_luks_uuid {
                Some(u) => u,
                None => "",
            }
        } else {
            ""
        };
        make_dir(&mut steps, concat(install_root, "/usr/local/bin").as_str());
        write_file(
            &mut steps,
            concat(install_root, "/usr/local/bin/patch-grub-btrfs-integrity").as_str(),
            boot_texts::patch_script(cryptodisk, pinned).as_str(),
            Some(0o755),
        );
        make_dir(&mut steps, concat(install_root, "/etc/pacman.d/hooks").as_str());
        write_file(
            &mut steps,
            concat(install_root, "/etc/pacman.d/hooks/91-patch-grub-btrfs.hook").as_str(),
            boot_texts::PATCH_HOOK,
            None,
        );
    }
    assert(plan::acts(steps@) =~= compat_steps(*config, uuid, install_root@, dry_run));
    steps
}

} // verus!
