//! Partitions, subvolumes and logical volumes as the rest of the library sees
//! them.
use vstd::prelude::*;

use crate::text;
use crate::text::{chars_of, concat, lower, number, same, Text};

verus! {

/// A partition of a computed layout.
#[derive(Debug, Clone)]
pub struct PartitionDef {
    pub number: u32,
    pub name: String,
    pub size_mib: u64,
    pub type_guid: String,
    pub mount_point: Option<String>,
    pub is_swap: bool,
    pub is_efi: bool,
    pub is_luks: bool,
    pub is_bios_boot: bool,
    pub is_boot_fs: bool,
    pub attributes: Option<String>,
    pub subvolume_name: Option<String>,
    /// First and last sector of a partition that stays where it is.
    pub pinned: Option<(u64, u64)>,
}

/// A btrfs subvolume.
#[derive(Debug, Clone)]
pub struct SubvolumeDef {
    pub name: String,
    pub mount_point: String,
    pub mount_options: String,
}

/// What is written to the disk.
#[derive(Debug, Clone)]
pub struct ComputedLayout {
    pub partitions: Vec<PartitionDef>,
    pub total_mib: u64,
    pub subvolumes: Option<Vec<SubvolumeDef>>,
    pub planned_thin_volumes: Option<Vec<String>>,
}

/// Names that the storage stack of the target goes by.
#[derive(Debug, Clone)]
pub struct StorageNames {
    /// Mapper device of the verified root.
    pub verity_mapper: String,
    /// Dataset of a ZFS root.
    pub zfs_root_dataset: String,
    pub root_a: String,
    pub root_b: String,
    pub hash_a: String,
    pub hash_b: String,
    /// Volume of the writable /etc.
    pub etc_overlay: String,
}

/// Directory of the snapshot sets, below the top of the root filesystem.
pub const SETS_DIR: &'static str = "@deploytix-sets";

pub const SUBVOLUME_OPTIONS: &'static str = "defaults,noatime,compress=zstd";

impl PartitionDef {
    pub open spec fn mounted_at(self, m: Text) -> bool {
        self.mount_point matches Some(p) && p@ == m
    }

    /// The partition holds the root filesystem.
    pub open spec fn is_root(self) -> bool {
        self.mounted_at("/"@)
    }

    pub fn is_mounted_at(&self, m: &str) -> (r: bool)
        ensures
            r == self.mounted_at(m@),
    {
        match &self.mount_point {
            Some(p) => same(p.as_str(), m),
            None => false,
        }
    }
}

pub fn is_root_partition(p: &PartitionDef) -> (r: bool)
    ensures
        r == p.is_root(),
{
    p.is_mounted_at("/")
}

impl ComputedLayout {
    pub open spec fn has_subvolumes(self) -> bool {
        self.subvolumes is Some
    }

    pub fn uses_subvolumes(&self) -> (r: bool)
        ensures
            r == self.has_subvolumes(),
    {
        self.subvolumes.is_some()
    }
}

/// A subvolume as the contracts speak of it.
pub struct Subvolume {
    pub name: Text,
    pub mount_point: Text,
    pub mount_options: Text,
}

impl View for SubvolumeDef {
    type V = Subvolume;

    open spec fn view(&self) -> Subvolume {
        Subvolume {
            name: self.name@,
            mount_point: self.mount_point@,
            mount_options: self.mount_options@,
        }
    }
}

/// The subvolumes of a list as the contracts speak of them.
pub open spec fn subvolumes(v: Seq<SubvolumeDef>) -> Seq<Subvolume> {
    Seq::new(v.len(), |i: int| v[i]@)
}

/// The subvolumes of a volume: `@` at the root for the root volume, else one
/// that is named and mounted like the volume in lower case.
pub open spec fn subvolumes_of(volume: Text) -> Seq<Subvolume> {
    if volume == "Root"@ {
        seq![
            Subvolume { name: "@"@, mount_point: "/"@, mount_options: SUBVOLUME_OPTIONS@ },
        ]
    } else {
        seq![
            Subvolume {
                name: "@"@ + text::lowered(volume),
                mount_point: "/"@ + text::lowered(volume),
                mount_options: SUBVOLUME_OPTIONS@,
            },
        ]
    }
}

pub fn multi_volume_subvolumes(volume: &str) -> (r: Vec<SubvolumeDef>)
    ensures
        subvolumes(r@) == subvolumes_of(volume@),
{
    let sv = if same(volume, "Root") {
        SubvolumeDef {
            name: "@".to_owned(),
            mount_point: "/".to_owned(),
            mount_options: SUBVOLUME_OPTIONS.to_owned(),
        }
    } else {
        let l = lower(volume);
        SubvolumeDef {
            name: concat("@", l.as_str()),
            mount_point: concat("/", l.as_str()),
            mount_options: SUBVOLUME_OPTIONS.to_owned(),
        }
    };
    let r = vec![sv];
    assert(subvolumes(r@) =~= subvolumes_of(volume@));
    r
}

/// The device file of a partition: a device whose name ends in a digit has a
/// `p` before the number.
pub open spec fn partition_file(device: Text, number: int) -> Text {
    if device.len() > 0 && text::digit(device.last()) {
        device + "p"@ + text::decimal(number as nat)
    } else {
        device + text::decimal(number as nat)
    }
}

pub fn partition_path(device: &str, partition: u32) -> (r: String)
    ensures
        r@ == partition_file(device@, partition as int),
{
    let v = chars_of(device);
    let mut s = device.to_owned();
    if v.len() > 0 && '0' <= v[v.len() - 1] && v[v.len() - 1] <= '9' {
        s.push_str("p");
    }
    s.push_str(number(partition as u64).as_str());
    s
}

/// The device file of a logical volume.
pub open spec fn lv_file(vg: Text, lv: Text) -> Text {
    "/dev/"@ + vg + "/"@ + lv
}

pub fn lv_path(vg: &str, lv: &str) -> (r: String)
    ensures
        r@ == lv_file(vg@, lv@),
{
    let mut s = "/dev/".to_owned();
    s.push_str(vg);
    s.push_str("/");
    s.push_str(lv);
    s
}

// -------------------------------------------------------------------------- laws
/// The name of a partition is told from its device and its number alone: what follows the
/// device is the number, behind a letter exactly where the device's own name ends in a digit,
/// so that no two partitions of a device share a name.
pub proof fn partitions_are_told_apart(device: Text, a: nat, b: nat)
    ensures
        ({
            let f = partition_file(device, a as int);
            let rest = f.skip(device.len() as int);
            &&& text::begins(f, device)
            &&& device.len() > 0 && '0' <= device.last() && device.last() <= '9' ==> rest[0] == 'p'
                && text::parsed(rest.skip(1), a as int) == Some(a as int)
            &&& !(device.len() > 0 && '0' <= device.last() && device.last() <= '9')
                ==> text::parsed(rest, a as int) == Some(a as int)
            &&& partition_file(device, a as int) == partition_file(device, b as int) ==> a == b
        }),
{
    reveal_strlit("p");
    text::decimal_is_read_back(a);
    text::decimal_is_read_back(b);
    let f = partition_file(device, a as int);
    let g = partition_file(device, b as int);
    let n = device.len() as int;
    assert(f.subrange(0, n) =~= device);
    if device.len() > 0 && text::digit(device.last()) {
        assert(f.skip(n).skip(1) =~= text::decimal(a));
        assert(g.skip(n).skip(1) =~= text::decimal(b));
        assert(f.skip(n)[0] == 'p');
    } else {
        assert(f.skip(n) =~= text::decimal(a));
        assert(g.skip(n) =~= text::decimal(b));
    }
}

/// The subvolume of a volume goes by the place where it is mounted: the name is that place
/// with the first stroke turned into the mark, and the root alone is the bare mark.
pub proof fn subvolumes_go_by_their_place(volume: Text)
    ensures
        ({
            let v = subvolumes_of(volume);
            &&& v.len() == 1
            &&& v[0].name.len() > 0 && v[0].name[0] == '@'
            &&& v[0].mount_point.len() > 0 && v[0].mount_point[0] == '/'
            &&& v[0].name.skip(1) == v[0].mount_point.skip(1)
            &&& volume == "Root"@ ==> v[0].mount_point == "/"@
            &&& volume != "Root"@ ==> v[0].mount_point.skip(1) == text::lowered(volume)
            &&& text::holds(v[0].mount_options, "compress=zstd"@)
            &&& text::holds(v[0].mount_options, "noatime"@)
        }),
{
    reveal_strlit("@");
    reveal_strlit("/");
    reveal_strlit("defaults,noatime,compress=zstd");
    reveal_strlit("compress=zstd");
    reveal_strlit("noatime");
    let v = subvolumes_of(volume);
    assert(SUBVOLUME_OPTIONS@.subrange(17, 30) =~= "compress=zstd"@);
    assert(text::at(SUBVOLUME_OPTIONS@, 17, "compress=zstd"@));
    assert(SUBVOLUME_OPTIONS@.subrange(9, 16) =~= "noatime"@);
    assert(text::at(SUBVOLUME_OPTIONS@, 9, "noatime"@));
    assert(v[0].name.skip(1) =~= v[0].mount_point.skip(1));
    if volume != "Root"@ {
        assert(v[0].mount_point.skip(1) =~= text::lowered(volume));
    }
}

/// A logical volume lies below the directory of its group, under its own name.
pub proof fn volumes_lie_below_their_group(vg: Text, lv: Text)
    ensures
        text::begins(lv_file(vg, lv), "/dev/"@ + vg + "/"@),
        text::ends(lv_file(vg, lv), "/"@ + lv),
        lv_file(vg, lv).len() == vg.len() + lv.len() + 6,
{
    reveal_strlit("/dev/");
    reveal_strlit("/");
    let f = lv_file(vg, lv);
    let a = "/dev/"@ + vg + "/"@;
    let b = "/"@ + lv;
    assert(f.subrange(0, a.len() as int) =~= a);
    assert(f.subrange(f.len() - b.len(), f.len() as int) =~= b);
}

} // verus!
