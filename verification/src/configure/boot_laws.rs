//! What holds of every installed boot loader: the kernel finds its root, and the firmware
//! finds the loader.
use vstd::prelude::*;

use crate::config::model::DeploymentConfig;
use crate::config::options::{Filesystem, SecureBootMethod};
use crate::configure::boot_texts;
use crate::configure::bootloader;
use crate::configure::bootloader::{BootFacts, Query, Route};
use crate::configure::keyfiles;
use crate::configure::mkinitcpio;
use crate::configure::secureboot;
use crate::disk;
use crate::disk::{ComputedLayout, StorageNames};
use crate::effects;
use crate::index;
use crate::plan::Act;
use crate::text;
use crate::text::Text;

verus! {

// -------------------------------------------------------------- the command line
/// No word begins like this.
pub open spec fn none_with(w: Seq<Text>, prefix: Text) -> bool {
    forall|i: int| 0 <= i < w.len() ==> !text::begins(#[trigger] w[i], prefix)
}

/// Exactly one word begins like this, and it goes on like that.
pub open spec fn one_with(w: Seq<Text>, prefix: Text, value: Text) -> bool {
    exists|k: int|
        {
            &&& 0 <= k < w.len()
            &&& #[trigger] w[k] == prefix + value
            &&& forall|i: int|
                0 <= i < w.len() && text::begins(#[trigger] w[i], prefix) ==> i == k
        }
}

/// The word that begins like this, where there is to be one.
pub open spec fn word_with(w: Seq<Text>, prefix: Text, value: Option<Text>) -> bool {
    match value {
        Some(v) => one_with(w, prefix, v),
        None => none_with(w, prefix),
    }
}

/// Where the kernel has to look for its root: at the opened container, at the volume of the
/// group, at the verified device, or at the filesystem with the UUID that was looked up.
pub open spec fn root_target(
    config: DeploymentConfig,
    names: StorageNames,
    route: Route,
    uuid: Text,
) -> Text {
    match route {
        Route::Containers(_) => "/dev/mapper/"@ + config.disk.luks_mapper_name@,
        Route::EncryptedPool(_) => "/dev/"@ + config.disk.lvm_vg_name@ + "/root"@,
        Route::Slots(_) => "/dev/mapper/"@ + names.verity_mapper@,
        Route::Pool | Route::Plain(_) => if config.disk.filesystem == Filesystem::Zfs {
            "ZFS="@ + names.zfs_root_dataset@
        } else {
            "UUID="@ + uuid
        },
    }
}

/// The container that the initramfs opens by itself, where a volume group lies in one.
pub open spec fn pool_container(route: Route, uuid: Text) -> Option<Text> {
    match route {
        Route::EncryptedPool(_) => Some("UUID="@ + uuid + ":Crypt-LVM"@),
        Route::Slots(Some(_)) => Some("UUID="@ + uuid + ":Crypt-LVM"@),
        _ => None,
    }
}

/// The layout has a swap partition.
pub open spec fn has_swap(layout: ComputedLayout) -> bool {
    exists|i: int| 0 <= i < layout.partitions@.len() && (#[trigger] layout.partitions@[i]).is_swap
}

/// A command line that boots the system along its route.
pub open spec fn boots(
    config: DeploymentConfig,
    layout: ComputedLayout,
    names: StorageNames,
    route: Route,
    uuid: Text,
    swap_uuid: Text,
    w: Seq<Text>,
) -> bool {
    &&& one_with(w, "root="@, root_target(config, names, route, uuid))
    &&& word_with(w, "cryptdevice="@, pool_container(route, uuid))
    &&& word_with(
        w,
        "cryptkey="@,
        if pool_container(route, uuid) is Some && config.disk.boot_encryption {
            Some("rootfs:"@ + keyfiles::keyfile_of("LVM"@))
        } else {
            None
        },
    )
    &&& word_with(
        w,
        "resume="@,
        if config.system.hibernation && has_swap(layout) {
            Some("UUID="@ + swap_uuid)
        } else {
            None
        },
    )
    &&& w.contains("rw"@) <==> !(route is Slots)
    &&& w.contains("ro"@) <==> route is Slots
    &&& word_with(
        w,
        "deploytix.slot="@,
        if route is Slots {
            Some("A"@)
        } else {
            None
        },
    )
    &&& word_with(
        w,
        "rootflags="@,
        if (route is Containers && layout.subvolumes is Some) || config.disk.filesystem
            != Filesystem::Zfs && (route is Pool && layout.subvolumes is Some || route is Plain
            && config.disk.use_subvolumes) {
            Some("subvol=@"@)
        } else {
            None
        },
    )
}

/// What a word begins with, by number.
pub open spec fn heads(k: int) -> Text {
    if k == 0 {
        "root="@
    } else if k == 1 {
        "cryptdevice="@
    } else if k == 2 {
        "cryptkey="@
    } else if k == 3 {
        "resume="@
    } else if k == 4 {
        "deploytix.slot="@
    } else {
        "rootflags="@
    }
}

/// The word begins with this one of the beginnings and with no other; with none of them
/// where it is negative.
pub open spec fn headed(w: Text, k: int) -> bool {
    forall|j: int| 0 <= j < 6 ==> (text::begins(w, #[trigger] heads(j)) <==> j == k)
}

proof fn lemma_headed(k: int, x: Text)
    requires
        0 <= k < 6,
    ensures
        headed(heads(k) + x, k),
{
    reveal_strlit("root=");
    reveal_strlit("cryptdevice=");
    reveal_strlit("cryptkey=");
    reveal_strlit("resume=");
    reveal_strlit("deploytix.slot=");
    reveal_strlit("rootflags=");
    let w = heads(k) + x;
    assert forall|j: int| 0 <= j < 6 implies (text::begins(w, #[trigger] heads(j)) <==> j == k) by {
        let n = heads(j).len() as int;
        if j == k {
            assert(w.subrange(0, n) =~= heads(j));
        } else if text::begins(w, heads(j)) {
            assert(w.subrange(0, n)[0] == heads(j)[0]);
            assert(w.subrange(0, n)[1] == heads(j)[1]);
            assert(w.subrange(0, n)[4] == heads(j)[4]);
            assert(w[0] == heads(k)[0] && w[1] == heads(k)[1] && w[4] == heads(k)[4]);
            assert(w.subrange(0, n)[5] == heads(j)[5] || n == 5);
            assert(heads(k).len() > 5 ==> w[5] == heads(k)[5]);
        }
    }
}

/// A word without such a beginning.
pub open spec fn bare(w: Text) -> bool {
    w == "quiet"@ || w == "rw"@ || w == "ro"@ || w == "deploytix.roothash="@ + "0"@
}

proof fn lemma_unheaded(w: Text)
    requires
        bare(w),
    ensures
        headed(w, -1),
{
    reveal_strlit("root=");
    reveal_strlit("cryptdevice=");
    reveal_strlit("cryptkey=");
    reveal_strlit("resume=");
    reveal_strlit("deploytix.slot=");
    reveal_strlit("rootflags=");
    reveal_strlit("quiet");
    reveal_strlit("rw");
    reveal_strlit("ro");
    reveal_strlit("0");
    reveal_strlit("deploytix.roothash=");
    assert forall|j: int| 0 <= j < 6 implies !text::begins(w, #[trigger] heads(j)) by {
        let n = heads(j).len() as int;
        if text::begins(w, heads(j)) {
            assert(w.subrange(0, n)[0] == heads(j)[0]);
            assert(n <= w.len());
            if w == "deploytix.roothash="@ + "0"@ {
                assert(w[0] == 'd');
                assert(j == 4);
                assert(w.subrange(0, n)[10] == heads(j)[10]);
                assert(w[10] == 'r');
            }
        }
    }
}

/// A list of words that are told apart by their beginnings holds at most one of each.
proof fn lemma_pick(w: Seq<Text>, kinds: Seq<int>, k: int, value: Text)
    requires
        w.len() == kinds.len(),
        0 <= k < 6,
        forall|i: int| 0 <= i < w.len() ==> headed(#[trigger] w[i], kinds[i]),
        forall|i: int, j: int|
            0 <= i < j < w.len() ==> #[trigger] kinds[i] != #[trigger] kinds[j] || kinds[i] < 0,
    ensures
        (exists|i: int| 0 <= i < w.len() && #[trigger] kinds[i] == k && w[i] == heads(k) + value)
            ==> one_with(w, heads(k), value),
        (forall|i: int| 0 <= i < w.len() ==> #[trigger] kinds[i] != k) ==> none_with(w, heads(k)),
{
    if exists|i: int| 0 <= i < w.len() && #[trigger] kinds[i] == k && w[i] == heads(k) + value {
        let i = choose|i: int|
            0 <= i < w.len() && #[trigger] kinds[i] == k && w[i] == heads(k) + value;
        assert forall|j: int| 0 <= j < w.len() && text::begins(#[trigger] w[j], heads(k)) implies j
            == i by {
            assert(headed(w[j], kinds[j]));
            assert(kinds[j] == k);
        }
    }
    if forall|i: int| 0 <= i < w.len() ==> #[trigger] kinds[i] != k {
        assert forall|j: int| 0 <= j < w.len() implies !text::begins(#[trigger] w[j], heads(k)) by {
            assert(headed(w[j], kinds[j]));
            assert(kinds[j] != k);
        }
    }
}

/// Texts of the configuration that have to be single words for a command line to hold them.
pub open spec fn plain_names(
    config: DeploymentConfig,
    names: StorageNames,
    facts: BootFacts,
) -> bool {
    &&& effects::one_word(config.disk.luks_mapper_name@)
    &&& effects::one_word(config.disk.lvm_vg_name@)
    &&& effects::one_word(names.verity_mapper@)
    &&& effects::one_word(names.zfs_root_dataset@)
    &&& effects::one_word(facts.uuid@)
    &&& effects::one_word(facts.swap_uuid@)
}

proof fn lemma_sum_is_a_word(a: Text, b: Text)
    requires
        effects::one_word(a),
        effects::one_word(b),
    ensures
        effects::one_word(a + b),
{
    let s = a + b;
    assert forall|i: int| 0 <= i < s.len() implies !text::white(#[trigger] s[i]) by {
        if i < a.len() {
            assert(s[i] == a[i]);
        } else {
            assert(s[i] == b[i - a.len()]);
        }
    }
}

proof fn lemma_heads_are_words()
    ensures
        forall|k: int| 0 <= k < 6 ==> effects::one_word(#[trigger] heads(k)),
        effects::one_word("quiet"@),
        effects::one_word("rw"@),
        effects::one_word("ro"@),
        effects::one_word("A"@),
        effects::one_word("subvol=@"@),
        effects::one_word("UUID="@),
        effects::one_word("ZFS="@),
        effects::one_word(":Crypt-LVM"@),
        effects::one_word("/dev/mapper/"@),
        effects::one_word("/dev/"@),
        effects::one_word("/root"@),
        effects::one_word("deploytix.roothash="@ + "0"@),
        "quiet"@ != "rw"@ && "quiet"@ != "ro"@ && "rw"@ != "ro"@,
        "deploytix.roothash="@ + "0"@ != "rw"@,
        "deploytix.roothash="@ + "0"@ != "ro"@,
{
    reveal_strlit("root=");
    reveal_strlit("cryptdevice=");
    reveal_strlit("cryptkey=");
    reveal_strlit("resume=");
    reveal_strlit("deploytix.slot=");
    reveal_strlit("rootflags=");
    reveal_strlit("quiet");
    reveal_strlit("rw");
    reveal_strlit("ro");
    reveal_strlit("A");
    reveal_strlit("subvol=@");
    reveal_strlit("UUID=");
    reveal_strlit("ZFS=");
    reveal_strlit(":Crypt-LVM");
    reveal_strlit("/dev/mapper/");
    reveal_strlit("/dev/");
    reveal_strlit("/root");
    reveal_strlit("0");
    reveal_strlit("deploytix.roothash=");
    assert("quiet"@.len() == 5 && "rw"@[1] == 'w' && "ro"@[1] == 'o');
    lemma_sum_is_a_word("deploytix.roothash="@, "0"@);
}

/// The words that a list of kinds and values makes.
pub open spec fn spelled(kinds: Seq<int>, values: Seq<Text>) -> Seq<Text> {
    Seq::new(
        kinds.len(),
        |i: int|
            if kinds[i] < 0 {
                values[i]
            } else {
                heads(kinds[i]) + values[i]
            },
    )
}

proof fn lemma_spelled(kinds: Seq<int>, values: Seq<Text>)
    requires
        kinds.len() == values.len(),
        forall|i: int| 0 <= i < kinds.len() ==> #[trigger] kinds[i] < 6,
        forall|i: int| 0 <= i < values.len() ==> effects::one_word(#[trigger] values[i]),
        forall|i: int|
            0 <= i < values.len() && #[trigger] kinds[i] < 0 ==> kinds[i] == -1 && bare(values[i]),
    ensures
        forall|i: int|
            0 <= i < kinds.len() ==> headed(#[trigger] spelled(kinds, values)[i], kinds[i]),
        effects::single_words(spelled(kinds, values)),
{
    lemma_heads_are_words();
    let w = spelled(kinds, values);
    assert forall|i: int| 0 <= i < kinds.len() implies headed(#[trigger] w[i], kinds[i])
        && effects::one_word(w[i]) by {
        assert(effects::one_word(values[i]));
        if kinds[i] < 0 {
            lemma_unheaded(values[i]);
        } else {
            assert(kinds[i] < 6);
            lemma_headed(kinds[i], values[i]);
            assert(effects::one_word(heads(kinds[i])));
            lemma_sum_is_a_word(heads(kinds[i]), values[i]);
        }
    }
}

/// The six beginnings at once.
proof fn lemma_picks(w: Seq<Text>, kinds: Seq<int>, values: Seq<Text>)
    requires
        w == spelled(kinds, values),
        kinds.len() == values.len(),
        forall|i: int| 0 <= i < w.len() ==> headed(#[trigger] w[i], kinds[i]),
        forall|i: int| 0 <= i < kinds.len() ==> -1 <= #[trigger] kinds[i] < 6,
        forall|i: int, j: int|
            0 <= i < j < w.len() ==> #[trigger] kinds[i] != #[trigger] kinds[j] || kinds[i] < 0,
    ensures
        forall|i: int|
            0 <= i < kinds.len() && kinds[i] >= 0 ==> one_with(
                w,
                heads(#[trigger] kinds[i]),
                values[i],
            ),
        forall|k: int|
            0 <= k < 6 && (forall|i: int| 0 <= i < kinds.len() ==> #[trigger] kinds[i] != k)
                ==> none_with(w, #[trigger] heads(k)),
{
    assert forall|i: int| 0 <= i < kinds.len() && kinds[i] >= 0 implies one_with(
        w,
        heads(#[trigger] kinds[i]),
        values[i],
    ) by {
        lemma_pick(w, kinds, kinds[i], values[i]);
        assert(w[i] == heads(kinds[i]) + values[i]);
    }
    assert forall|k: int|
        0 <= k < 6 && (forall|i: int| 0 <= i < kinds.len() ==> #[trigger] kinds[i] != k) implies none_with(
        w,
        #[trigger] heads(k),
    ) by {
        lemma_pick(w, kinds, k, seq![]);
    }
}

proof fn lemma_swap(layout: ComputedLayout, found: Text)
    ensures
        bootloader::swap_uuid_used(layout, found, false) == if has_swap(layout) {
            Some(found)
        } else {
            None
        },
{
    let p = layout.partitions@;
    let g = bootloader::is_swap(p);
    index::lemma_first(p.len() as int, g);
    let k = index::first(p.len() as int, g);
    if has_swap(layout) {
        let i = choose|i: int| 0 <= i < p.len() && (#[trigger] p[i]).is_swap;
        assert(g(i));
        assert(k < p.len());
    } else if k < p.len() {
        assert(g(k));
        assert(p[k].is_swap);
    }
}

proof fn lemma_flags(kinds: Seq<int>, values: Seq<Text>, x: Text)
    requires
        kinds.len() == values.len(),
        x == "rw"@ || x == "ro"@,
        forall|i: int| 0 <= i < kinds.len() ==> -1 <= #[trigger] kinds[i] < 6,
    ensures
        spelled(kinds, values).contains(x) <==> exists|i: int|
            0 <= i < kinds.len() && #[trigger] kinds[i] < 0 && values[i] == x,
{
    reveal_strlit("root=");
    reveal_strlit("cryptdevice=");
    reveal_strlit("cryptkey=");
    reveal_strlit("resume=");
    reveal_strlit("deploytix.slot=");
    reveal_strlit("rootflags=");
    reveal_strlit("rw");
    reveal_strlit("ro");
    let w = spelled(kinds, values);
    if exists|i: int| 0 <= i < kinds.len() && #[trigger] kinds[i] < 0 && values[i] == x {
        let i = choose|i: int| 0 <= i < kinds.len() && #[trigger] kinds[i] < 0 && values[i] == x;
        assert(w[i] == x);
    }
    if w.contains(x) {
        let i = choose|i: int| 0 <= i < w.len() && w[i] == x;
        assert(x.len() == 2);
        if kinds[i] >= 0 {
            assert(heads(kinds[i]).len() >= 5);
            assert(w[i].len() >= 5);
        }
        assert(kinds[i] < 0);
    }
}

proof fn lemma_cryptkey()
    ensures
        bootloader::CRYPTKEY@ == heads(2) + ("rootfs:"@ + keyfiles::keyfile_of("LVM"@)),
        effects::one_word("rootfs:"@ + keyfiles::keyfile_of("LVM"@)),
{
    reveal_strlit("cryptkey=rootfs:/etc/cryptsetup-keys.d/cryptlvm.key");
    reveal_strlit("cryptkey=");
    reveal_strlit("rootfs:");
    reveal_strlit("/etc/cryptsetup-keys.d");
    reveal_strlit("/crypt");
    reveal_strlit(".key");
    reveal_strlit("LVM");
    assert(text::lowered("LVM"@) =~= seq!['l', 'v', 'm']);
    let v = "rootfs:"@ + keyfiles::keyfile_of("LVM"@);
    assert(bootloader::CRYPTKEY@ =~= heads(2) + v);
    assert forall|i: int| 0 <= i < v.len() implies !text::white(#[trigger] v[i]) by {
        assert(v[i] == bootloader::CRYPTKEY@[i + 9]);
    }
}

proof fn lemma_spelling(uuid: Text, mapper: Text, vg: Text)
    ensures
        "root=/dev/mapper/"@ + mapper == heads(0) + ("/dev/mapper/"@ + mapper),
        "root=UUID="@ + uuid == heads(0) + ("UUID="@ + uuid),
        "root=ZFS="@ + mapper == heads(0) + ("ZFS="@ + mapper),
        "root="@ + disk::lv_file(vg, "root"@) == heads(0) + ("/dev/"@ + vg + "/root"@),
        "cryptdevice=UUID="@ + uuid + ":Crypt-LVM"@ == heads(1) + ("UUID="@ + uuid + ":Crypt-LVM"@),
        "resume=UUID="@ + uuid == heads(3) + ("UUID="@ + uuid),
        "deploytix.slot=A"@ == heads(4) + "A"@,
        "rootflags=subvol=@"@ == heads(5) + "subvol=@"@,
{
    reveal_strlit("root=/dev/mapper/");
    reveal_strlit("root=UUID=");
    reveal_strlit("root=ZFS=");
    reveal_strlit("root=");
    reveal_strlit("root");
    reveal_strlit("/root");
    reveal_strlit("/");
    reveal_strlit("/dev/");
    reveal_strlit("/dev/mapper/");
    reveal_strlit("UUID=");
    reveal_strlit("ZFS=");
    reveal_strlit("cryptdevice=UUID=");
    reveal_strlit("cryptdevice=");
    reveal_strlit("resume=UUID=");
    reveal_strlit("resume=");
    reveal_strlit("deploytix.slot=A");
    reveal_strlit("deploytix.slot=");
    reveal_strlit("A");
    reveal_strlit("rootflags=subvol=@");
    reveal_strlit("rootflags=");
    reveal_strlit("subvol=@");
    assert("root=/dev/mapper/"@ + mapper =~= heads(0) + ("/dev/mapper/"@ + mapper));
    assert("root=UUID="@ + uuid =~= heads(0) + ("UUID="@ + uuid));
    assert("root=ZFS="@ + mapper =~= heads(0) + ("ZFS="@ + mapper));
    assert("root="@ + disk::lv_file(vg, "root"@) =~= heads(0) + ("/dev/"@ + vg + "/root"@));
    assert("cryptdevice=UUID="@ + uuid + ":Crypt-LVM"@ =~= heads(1) + ("UUID="@ + uuid
        + ":Crypt-LVM"@));
    assert("resume=UUID="@ + uuid =~= heads(3) + ("UUID="@ + uuid));
    assert("deploytix.slot=A"@ =~= heads(4) + "A"@);
    assert("rootflags=subvol=@"@ =~= heads(5) + "subvol=@"@);
}

/// The words of the command line along a route.
pub open spec fn route_parts(
    config: DeploymentConfig,
    layout: ComputedLayout,
    names: StorageNames,
    route: Route,
    uuid: Text,
    swap: Option<Text>,
) -> Seq<Text> {
    match route {
        Route::Slots(n) => bootloader::slot_parts(
            config,
            names,
            if n is Some {
                Some(uuid)
            } else {
                None
            },
            swap,
        ),
        Route::EncryptedPool(_) => bootloader::thin_parts(config, uuid, swap),
        Route::Pool => bootloader::kernel_parts(
            config,
            names,
            uuid,
            None,
            layout.has_subvolumes(),
            swap,
        ),
        Route::Containers(_) => bootloader::kernel_parts(
            config,
            names,
            uuid,
            Some(config.disk.luks_mapper_name@),
            layout.has_subvolumes(),
            swap,
        ),
        Route::Plain(_) => bootloader::kernel_parts(
            config,
            names,
            uuid,
            None,
            config.disk.use_subvolumes,
            swap,
        ),
    }
}

/// The kinds of the words in front of the one that says where to resume from.
pub open spec fn kinds_of(shape: int, kept: bool, parted: bool) -> Seq<int> {
    if shape == 0 {
        if kept {
            seq![-1int, 1, 2, 0, 4, -1, -1]
        } else {
            seq![-1int, 1, 0, 4, -1, -1]
        }
    } else if shape == 1 {
        seq![-1int, 0, 4, -1, -1]
    } else if shape == 2 {
        if kept {
            seq![-1int, 1, 0, 2, -1]
        } else {
            seq![-1int, 1, 0, -1]
        }
    } else {
        if parted {
            seq![-1int, 0, 5, -1]
        } else {
            seq![-1int, 0, -1]
        }
    }
}

/// Their values.
pub open spec fn values_of(
    shape: int,
    kept: bool,
    parted: bool,
    pool: Text,
    key: Text,
    target: Text,
) -> Seq<Text> {
    let hash = "deploytix.roothash="@ + "0"@;
    if shape == 0 {
        if kept {
            seq!["quiet"@, pool, key, target, "A"@, hash, "ro"@]
        } else {
            seq!["quiet"@, pool, target, "A"@, hash, "ro"@]
        }
    } else if shape == 1 {
        seq!["quiet"@, target, "A"@, hash, "ro"@]
    } else if shape == 2 {
        if kept {
            seq!["quiet"@, pool, target, key, "rw"@]
        } else {
            seq!["quiet"@, pool, target, "rw"@]
        }
    } else {
        if parted {
            seq!["quiet"@, target, "subvol=@"@, "rw"@]
        } else {
            seq!["quiet"@, target, "rw"@]
        }
    }
}

/// What the words say, by their kinds.
pub open spec fn says(
    w: Seq<Text>,
    shape: int,
    kept: bool,
    parted: bool,
    pool: Text,
    key: Text,
    target: Text,
    resume: Option<Text>,
) -> bool {
    &&& one_with(w, heads(0), target)
    &&& word_with(
        w,
        heads(1),
        if shape == 0 || shape == 2 {
            Some(pool)
        } else {
            None
        },
    )
    &&& word_with(
        w,
        heads(2),
        if (shape == 0 || shape == 2) && kept {
            Some(key)
        } else {
            None
        },
    )
    &&& word_with(w, heads(3), resume)
    &&& word_with(
        w,
        heads(4),
        if shape == 0 || shape == 1 {
            Some("A"@)
        } else {
            None
        },
    )
    &&& word_with(
        w,
        heads(5),
        if shape == 3 && parted {
            Some("subvol=@"@)
        } else {
            None
        },
    )
    &&& w.contains("rw"@) <==> shape == 2 || shape == 3
    &&& w.contains("ro"@) <==> shape == 0 || shape == 1
}

/// No kind occurs twice but that of words without a beginning.
pub open spec fn told_apart(kinds: Seq<int>) -> bool {
    &&& forall|i: int| 0 <= i < kinds.len() ==> -1 <= #[trigger] kinds[i] < 6
    &&& forall|i: int, j: int|
        0 <= i < j < kinds.len() ==> #[trigger] kinds[i] != #[trigger] kinds[j] || kinds[i] < 0
}

proof fn lemma_kinds(shape: int, kept: bool, parted: bool)
    requires
        0 <= shape <= 3,
    ensures
        told_apart(kinds_of(shape, kept, parted)),
        told_apart(kinds_of(shape, kept, parted).push(3)),
{
    let k = kinds_of(shape, kept, parted);
    assert(told_apart(k));
    assert forall|i: int| 0 <= i < k.len() implies #[trigger] k[i] != 3 by {}
    assert(told_apart(k.push(3)));
}

/// The values fit the kinds.
pub open spec fn fit(kinds: Seq<int>, values: Seq<Text>) -> bool {
    &&& kinds.len() == values.len()
    &&& forall|i: int| 0 <= i < values.len() ==> effects::one_word(#[trigger] values[i])
    &&& forall|i: int|
        0 <= i < values.len() && #[trigger] kinds[i] < 0 ==> kinds[i] == -1 && bare(values[i])
}

proof fn lemma_values(
    shape: int,
    kept: bool,
    parted: bool,
    pool: Text,
    key: Text,
    target: Text,
)
    requires
        0 <= shape <= 3,
        effects::one_word(pool),
        effects::one_word(key),
        effects::one_word(target),
    ensures
        fit(kinds_of(shape, kept, parted), values_of(shape, kept, parted, pool, key, target)),
{
    lemma_heads_are_words();
}

proof fn lemma_value_more(kinds: Seq<int>, values: Seq<Text>, r: Text)
    requires
        fit(kinds, values),
        effects::one_word(r),
    ensures
        fit(kinds.push(3), values.push(r)),
{
    let k = kinds.push(3);
    let v = values.push(r);
    assert(k.len() == v.len());
    assert forall|i: int| 0 <= i < v.len() implies effects::one_word(#[trigger] v[i]) by {
        if i < values.len() {
            assert(v[i] == values[i]);
        } else {
            assert(v[i] == r);
        }
    }
    assert forall|i: int| 0 <= i < v.len() implies (#[trigger] k[i] < 0 ==> k[i] == -1
        && bare(v[i])) by {
        if i < values.len() {
            assert(k[i] == kinds[i] && v[i] == values[i]);
        } else {
            assert(k[i] == 3);
        }
    }
}

/// What a list of kinds and values says of one beginning.
proof fn lemma_word(kinds: Seq<int>, values: Seq<Text>, k: int)
    requires
        told_apart(kinds),
        fit(kinds, values),
        0 <= k < 6,
    ensures
        forall|i: int|
            0 <= i < kinds.len() && #[trigger] kinds[i] == k ==> one_with(
                spelled(kinds, values),
                heads(k),
                values[i],
            ),
        (forall|i: int| 0 <= i < kinds.len() ==> #[trigger] kinds[i] != k) ==> none_with(
            spelled(kinds, values),
            heads(k),
        ),
        effects::single_words(spelled(kinds, values)),
{
    lemma_spelled(kinds, values);
    lemma_picks(spelled(kinds, values), kinds, values);
}

proof fn lemma_says(
    shape: int,
    kept: bool,
    parted: bool,
    pool: Text,
    key: Text,
    target: Text,
    resume: Option<Text>,
)
    requires
        0 <= shape <= 3,
        effects::one_word(pool),
        effects::one_word(key),
        effects::one_word(target),
        resume matches Some(r) ==> effects::one_word(r),
    ensures
        ({
            let k = kinds_of(shape, kept, parted);
            let v = values_of(shape, kept, parted, pool, key, target);
            let w = match resume {
                Some(r) => spelled(k.push(3), v.push(r)),
                None => spelled(k, v),
            };
            &&& effects::single_words(w)
            &&& says(w, shape, kept, parted, pool, key, target, resume)
        }),
{
    let k = kinds_of(shape, kept, parted);
    let v = values_of(shape, kept, parted, pool, key, target);
    lemma_kinds(shape, kept, parted);
    lemma_values(shape, kept, parted, pool, key, target);
    let kinds = match resume {
        Some(_) => k.push(3),
        None => k,
    };
    let values = match resume {
        Some(r) => v.push(r),
        None => v,
    };
    if resume is Some {
        lemma_value_more(k, v, resume->0);
    }
    lemma_read(shape, kept, parted, pool, key, target, kinds, values, resume);
}

#[verifier::spinoff_prover]
#[verifier::rlimit(60)]
proof fn lemma_read(
    shape: int,
    kept: bool,
    parted: bool,
    pool: Text,
    key: Text,
    target: Text,
    kinds: Seq<int>,
    values: Seq<Text>,
    resume: Option<Text>,
)
    requires
        0 <= shape <= 3,
        told_apart(kinds),
        fit(kinds, values),
        resume is None ==> kinds == kinds_of(shape, kept, parted) && values == values_of(
            shape,
            kept,
            parted,
            pool,
            key,
            target,
        ),
        resume matches Some(r) ==> kinds == kinds_of(shape, kept, parted).push(3) && values
            == values_of(shape, kept, parted, pool, key, target).push(r),
    ensures
        effects::single_words(spelled(kinds, values)),
        says(spelled(kinds, values), shape, kept, parted, pool, key, target, resume),
{
    let w = spelled(kinds, values);
    let n = kinds_of(shape, kept, parted).len() as int;
    lemma_marks(shape, kept, parted, pool, key, target, kinds, values, resume);
    assert(one_with(w, heads(0), target)) by {
        lemma_word(kinds, values, 0);
        let i: int = if shape == 0 {
            if kept {
                3
            } else {
                2
            }
        } else if shape == 2 {
            2
        } else {
            1
        };
        assert(kinds[i] == 0 && values[i] == target);
    }
    assert(word_with(
        w,
        heads(1),
        if shape == 0 || shape == 2 {
            Some(pool)
        } else {
            None
        },
    )) by {
        lemma_word(kinds, values, 1);
        if shape == 0 || shape == 2 {
            assert(kinds[1] == 1 && values[1] == pool);
        }
    }
    assert(word_with(
        w,
        heads(2),
        if (shape == 0 || shape == 2) && kept {
            Some(key)
        } else {
            None
        },
    )) by {
        lemma_word(kinds, values, 2);
        if shape == 0 && kept {
            assert(kinds[2] == 2 && values[2] == key);
        } else if shape == 2 && kept {
            assert(kinds[3] == 2 && values[3] == key);
        }
    }
    assert(word_with(w, heads(3), resume)) by {
        lemma_word(kinds, values, 3);
        if resume is Some {
            assert(kinds[n] == 3 && values[n] == resume->0);
        }
    }
    assert(word_with(
        w,
        heads(4),
        if shape == 0 || shape == 1 {
            Some("A"@)
        } else {
            None
        },
    )) by {
        lemma_word(kinds, values, 4);
        if shape == 0 {
            let i: int = if kept {
                4
            } else {
                3
            };
            assert(kinds[i] == 4 && values[i] == "A"@);
        } else if shape == 1 {
            assert(kinds[2] == 4 && values[2] == "A"@);
        }
    }
    assert(word_with(
        w,
        heads(5),
        if shape == 3 && parted {
            Some("subvol=@"@)
        } else {
            None
        },
    )) by {
        lemma_word(kinds, values, 5);
        if shape == 3 && parted {
            assert(kinds[2] == 5 && values[2] == "subvol=@"@);
        }
    }
    assert(effects::single_words(w)) by {
        lemma_word(kinds, values, 0);
    }
}

proof fn lemma_marks(
    shape: int,
    kept: bool,
    parted: bool,
    pool: Text,
    key: Text,
    target: Text,
    kinds: Seq<int>,
    values: Seq<Text>,
    resume: Option<Text>,
)
    requires
        0 <= shape <= 3,
        told_apart(kinds),
        kinds.len() == values.len(),
        resume is None ==> kinds == kinds_of(shape, kept, parted) && values == values_of(
            shape,
            kept,
            parted,
            pool,
            key,
            target,
        ),
        resume matches Some(r) ==> kinds == kinds_of(shape, kept, parted).push(3) && values
            == values_of(shape, kept, parted, pool, key, target).push(r),
    ensures
        spelled(kinds, values).contains("rw"@) <==> shape == 2 || shape == 3,
        spelled(kinds, values).contains("ro"@) <==> shape == 0 || shape == 1,
{
    assert("quiet"@ != "rw"@ && "quiet"@ != "ro"@ && "rw"@ != "ro"@ && "deploytix.roothash="@
        + "0"@ != "rw"@ && "deploytix.roothash="@ + "0"@ != "ro"@) by {
        lemma_heads_are_words();
    }
    lemma_flags(kinds, values, "rw"@);
    lemma_flags(kinds, values, "ro"@);
    let n = kinds_of(shape, kept, parted).len() as int;
    assert(kinds[n - 1] == -1);
}

/// How the words along a route are made up.
pub open spec fn shape_of(route: Route) -> int {
    match route {
        Route::Slots(Some(_)) => 0,
        Route::Slots(None) => 1,
        Route::EncryptedPool(_) => 2,
        _ => 3,
    }
}

pub open spec fn parted_of(config: DeploymentConfig, layout: ComputedLayout, route: Route) -> bool {
    (route is Containers && layout.subvolumes is Some) || config.disk.filesystem
        != Filesystem::Zfs && (route is Pool && layout.subvolumes is Some || route is Plain
        && config.disk.use_subvolumes)
}

#[verifier::spinoff_prover]
#[verifier::rlimit(40)]
proof fn lemma_route_spelled(
    config: DeploymentConfig,
    layout: ComputedLayout,
    names: StorageNames,
    route: Route,
    uuid: Text,
    swap: Option<Text>,
)
    ensures
        ({
            let shape = shape_of(route);
            let kept = config.disk.boot_encryption;
            let parted = parted_of(config, layout, route);
            let k = kinds_of(shape, kept, parted);
            let v = values_of(
                shape,
                kept,
                parted,
                "UUID="@ + uuid + ":Crypt-LVM"@,
                "rootfs:"@ + keyfiles::keyfile_of("LVM"@),
                root_target(config, names, route, uuid),
            );
            route_parts(config, layout, names, route, uuid, swap) == match swap {
                Some(u) if config.system.hibernation => spelled(k.push(3), v.push("UUID="@ + u)),
                _ => spelled(k, v),
            }
        }),
{
    lemma_cryptkey();
    lemma_spelling(uuid, config.disk.luks_mapper_name@, config.disk.lvm_vg_name@);
    lemma_spelling(uuid, names.verity_mapper@, config.disk.lvm_vg_name@);
    lemma_spelling(uuid, names.zfs_root_dataset@, config.disk.lvm_vg_name@);
    if swap is Some {
        lemma_spelling(swap->0, names.zfs_root_dataset@, config.disk.lvm_vg_name@);
    }
    let shape = shape_of(route);
    let kept = config.disk.boot_encryption;
    let parted = parted_of(config, layout, route);
    let k = kinds_of(shape, kept, parted);
    let pool = "UUID="@ + uuid + ":Crypt-LVM"@;
    let key = "rootfs:"@ + keyfiles::keyfile_of("LVM"@);
    let target = root_target(config, names, route, uuid);
    let v = values_of(shape, kept, parted, pool, key, target);
    let w = route_parts(config, layout, names, route, uuid, swap);
    match swap {
        Some(u) if config.system.hibernation => {
            assert(w =~= spelled(k.push(3), v.push("UUID="@ + u)));
        },
        _ => {
            assert(w =~= spelled(k, v));
        },
    }
}

proof fn lemma_route_boots(
    config: DeploymentConfig,
    layout: ComputedLayout,
    names: StorageNames,
    route: Route,
    facts: BootFacts,
)
    requires
        plain_names(config, names, facts),
    ensures
        ({
            let w = route_parts(
                config,
                layout,
                names,
                route,
                facts.uuid@,
                bootloader::swap_uuid_used(layout, facts.swap_uuid@, false),
            );
            &&& effects::single_words(w)
            &&& boots(config, layout, names, route, facts.uuid@, facts.swap_uuid@, w)
        }),
{
    let uuid = facts.uuid@;
    let swap = facts.swap_uuid@;
    lemma_swap(layout, swap);
    lemma_heads_are_words();
    lemma_cryptkey();
    lemma_sum_is_a_word("/dev/mapper/"@, config.disk.luks_mapper_name@);
    lemma_sum_is_a_word("/dev/mapper/"@, names.verity_mapper@);
    lemma_sum_is_a_word("UUID="@, uuid);
    lemma_sum_is_a_word("UUID="@, swap);
    lemma_sum_is_a_word("UUID="@ + uuid, ":Crypt-LVM"@);
    lemma_sum_is_a_word("ZFS="@, names.zfs_root_dataset@);
    lemma_sum_is_a_word("/dev/"@, config.disk.lvm_vg_name@);
    lemma_sum_is_a_word("/dev/"@ + config.disk.lvm_vg_name@, "/root"@);
    lemma_route_spelled(
        config,
        layout,
        names,
        route,
        uuid,
        bootloader::swap_uuid_used(layout, swap, false),
    );
    lemma_says(
        shape_of(route),
        config.disk.boot_encryption,
        parted_of(config, layout, route),
        "UUID="@ + uuid + ":Crypt-LVM"@,
        "rootfs:"@ + keyfiles::keyfile_of("LVM"@),
        root_target(config, names, route, uuid),
        if config.system.hibernation && has_swap(layout) {
            Some("UUID="@ + swap)
        } else {
            None
        },
    );
}

// --------------------------------------------------------------------- the laws
/// The line of /etc/default/grub that holds the kernel's command line.
pub open spec fn command_line(content: Text, line: Text) -> bool {
    text::lines_of(content).contains("GRUB_CMDLINE_LINUX_DEFAULT=\""@ + line + "\""@)
}

/// What goes before the command line in the file of the defaults.
pub open spec fn defaults_head(route: Route) -> Text {
    match route {
        Route::Slots(_) => boot_texts::DEFAULTS_AB@,
        Route::EncryptedPool(_) => boot_texts::DEFAULTS_THIN@,
        _ => boot_texts::DEFAULTS@,
    }
}

proof fn lemma_defaults_head(route: Route)
    ensures
        ({
            let h = defaults_head(route);
            let t = "GRUB_CMDLINE_LINUX_DEFAULT=\""@;
            let n = h.len() - t.len();
            &&& n > 0
            &&& h[n - 1] == '\n'
            &&& h.skip(n) == t
        }),
{
    reveal_strlit("GRUB_CMDLINE_LINUX_DEFAULT=\"");
    reveal_strlit(
        r#"# GRUB boot loader configuration
# Generated by Deploytix

GRUB_DEFAULT=0
GRUB_TIMEOUT=5
GRUB_DISTRIBUTOR="Artix"
GRUB_CMDLINE_LINUX_DEFAULT=""#,
    );
    reveal_strlit(
        r#"# GRUB boot loader configuration
# Generated by Deploytix - LVM Thin Provisioning layout

GRUB_DEFAULT=0
GRUB_TIMEOUT=5
GRUB_DISTRIBUTOR="Artix"
GRUB_CMDLINE_LINUX_DEFAULT=""#,
    );
    reveal_strlit(
        r#"# GRUB boot loader configuration
# Generated by Deploytix - LVM immutable A/B (dm-verity) layout

GRUB_DEFAULT=0
GRUB_TIMEOUT=5
GRUB_DISTRIBUTOR="Artix"
GRUB_CMDLINE_LINUX_DEFAULT=""#,
    );
    let h = defaults_head(route);
    let t = "GRUB_CMDLINE_LINUX_DEFAULT=\""@;
    let n = h.len() - t.len();
    assert(h.skip(n) =~= t);
}

proof fn lemma_command_line(head: Text, line: Text, rest: Text)
    requires
        ({
            let t = "GRUB_CMDLINE_LINUX_DEFAULT=\""@;
            let n = head.len() - t.len();
            n > 0 && head[n - 1] == '\n' && head.skip(n) == t
        }),
        forall|i: int| 0 <= i < line.len() ==> #[trigger] line[i] != '\n',
    ensures
        command_line(head + line + "\"\n"@ + rest, line),
{
    let t = "GRUB_CMDLINE_LINUX_DEFAULT=\""@;
    reveal_strlit("GRUB_CMDLINE_LINUX_DEFAULT=\"");
    reveal_strlit("\"\n");
    reveal_strlit("\"");
    let n = head.len() - t.len();
    let whole = head + line + "\"\n"@ + rest;
    let full = t + line + "\""@;
    assert(head =~= head.take(n - 1) + seq!['\n'] + t) by {
        assert forall|i: int| n <= i < head.len() implies head[i] == t[i - n] by {
            assert(head.skip(n)[i - n] == head[i]);
        }
    }
    assert(whole =~= head.take(n - 1) + seq!['\n'] + full + seq!['\n'] + rest);
    assert forall|i: int| 0 <= i < full.len() implies full[i] != '\n' by {
        if t.len() <= i < t.len() + line.len() {
            assert(full[i] == line[i - t.len()]);
        }
    }
    assert(full.last() == '"');
    text::lemma_line_between(head.take(n - 1), full, rest);
}

/// A line made of words holds no line feed.
proof fn lemma_joined_unbroken(parts: Seq<Text>)
    requires
        effects::single_words(parts),
    ensures
        forall|i: int|
            0 <= i < text::joined(parts, " "@).len() ==> #[trigger] text::joined(parts, " "@)[i]
                != '\n',
    decreases parts.len(),
{
    reveal_strlit(" ");
    assert(text::white('\n'));
    if parts.len() > 0 {
        let last = parts[parts.len() - 1];
        assert(effects::one_word(last));
        assert forall|i: int| 0 <= i < last.len() implies last[i] != '\n' by {
            assert(!text::white(last[i]));
        }
        if parts.len() > 1 {
            let init = parts.drop_last();
            assert forall|i: int| 0 <= i < init.len() implies effects::one_word(
                #[trigger] init[i],
            ) by {
                assert(init[i] == parts[i]);
            }
            lemma_joined_unbroken(init);
            let a = text::joined(init, " "@);
            let s = text::joined(parts, " "@);
            assert forall|i: int| 0 <= i < s.len() implies #[trigger] s[i] != '\n' by {
                if i < a.len() {
                    assert(s[i] == a[i]);
                } else if i > a.len() {
                    assert(s[i] == last[i - a.len() - 1]);
                }
            }
        }
    }
}

/// The steps after the defaults.
pub open spec fn after_defaults(
    config: DeploymentConfig,
    device: Text,
    route: Route,
    install_root: Text,
    efivars_usable: bool,
) -> Seq<Act> {
    if config.system.secureboot && !(route is Plain) {
        bootloader::secure_install_steps(config, device, install_root, efivars_usable, false)
    } else {
        bootloader::install_steps(device, install_root, efivars_usable, false)
    }
}

proof fn lemma_rest_writes_nothing(
    config: DeploymentConfig,
    device: Text,
    route: Route,
    install_root: Text,
    efivars_usable: bool,
    path: Text,
)
    ensures
        effects::untouched(
            after_defaults(config, device, route, install_root, efivars_usable),
            path,
        ),
{
    let e1 = bootloader::entry_steps(device, 1, "Artix Linux"@, efivars_usable, false);
    let e2 = bootloader::entry_steps(device, 1, "Artix-SB"@, efivars_usable, false);
    assert(effects::untouched(e1, path) && effects::untouched(e2, path));
    let a = bootloader::install_steps(device, install_root, efivars_usable, false);
    let b = bootloader::standalone_steps(device, install_root, efivars_usable, false);
    assert(effects::untouched(a, path));
    assert(effects::untouched(b, path));
    let g = secureboot::sign_steps(
        config,
        "/boot/efi/EFI/BOOT/BOOTX64.EFI"@,
        install_root,
        Some(install_root + "/boot/efi/EFI/BOOT/BOOTX64.EFI"@),
        false,
    );
    let k = secureboot::sign_steps(
        config,
        "/boot/vmlinuz-linux-zen"@,
        install_root,
        Some(install_root + "/boot/vmlinuz-linux-zen"@),
        false,
    );
    assert(effects::untouched(g, path) && effects::untouched(k, path));
    let s = secureboot::sign_boot_steps(config, install_root, false);
    assert(effects::untouched(s, path));
    effects::lemma_leaves_sum(a, s, path, seq![]);
    effects::lemma_leaves_sum(b, s, path, seq![]);
}

/// The kernel finds its root along every route: the command line in /etc/default/grub names
/// it once, as the opened container, the volume, the verified device or the filesystem that
/// it is. It opens the container of a volume group, resumes from the swap partition where
/// the system hibernates, and mounts the root for writing unless it is verified.
pub proof fn kernel_finds_its_root(
    config: DeploymentConfig,
    device: Text,
    layout: ComputedLayout,
    names: StorageNames,
    route: Route,
    install_root: Text,
    facts: BootFacts,
)
    requires
        plain_names(config, names, facts),
    ensures
        exists|content: Text, line: Text|
            {
                &&& #[trigger] effects::leaves(
                    bootloader::grub_steps(
                        config,
                        device,
                        layout,
                        names,
                        route,
                        install_root,
                        facts,
                        false,
                    ),
                    install_root + "/etc/default/grub"@,
                    content,
                )
                &&& #[trigger] command_line(content, line)
                &&& boots(
                    config,
                    layout,
                    names,
                    route,
                    facts.uuid@,
                    facts.swap_uuid@,
                    text::words_of(line),
                )
                &&& if config.disk.boot_encryption && !(route is Plain || route is Pool) {
                    text::ends(content, "\nGRUB_ENABLE_CRYPTODISK=y\n"@)
                } else {
                    text::ends(content, "\"\n"@)
                }
            },
{
    let path = install_root + "/etc/default/grub"@;
    let used = bootloader::swap_uuid_used(layout, facts.swap_uuid@, false);
    let w = route_parts(config, layout, names, route, facts.uuid@, used);
    let line = text::joined(w, " "@);
    lemma_route_boots(config, layout, names, route, facts);
    effects::lemma_words_joined(w);
    lemma_joined_unbroken(w);
    lemma_defaults_head(route);
    let opens = config.disk.boot_encryption && !(route is Plain || route is Pool);
    let rest = bootloader::cryptodisk_line(opens);
    let content = defaults_head(route) + line + "\"\n"@ + rest;
    lemma_command_line(defaults_head(route), line, rest);
    let a = bootloader::route_defaults(
        config,
        layout,
        names,
        route,
        install_root,
        facts.uuid@,
        used,
        false,
    );
    let b = after_defaults(config, device, route, install_root, facts.efivars_usable);
    assert(a =~= bootloader::defaults_written(install_root, content));
    assert(effects::touches(a[1], path));
    assert(effects::leaves(a, path, content));
    lemma_rest_writes_nothing(config, device, route, install_root, facts.efivars_usable, path);
    effects::lemma_leaves_sum(a, b, path, content);
    assert(bootloader::grub_steps(config, device, layout, names, route, install_root, facts, false)
        =~= a + b);
    reveal_strlit("\"\n");
    reveal_strlit("");
    reveal_strlit("GRUB_ENABLE_CRYPTODISK=y\n");
    reveal_strlit("\nGRUB_ENABLE_CRYPTODISK=y\n");
    let e = if opens {
        "\nGRUB_ENABLE_CRYPTODISK=y\n"@
    } else {
        "\"\n"@
    };
    assert(content.subrange(content.len() - e.len(), content.len() as int) =~= e);
}

/// A route leads to where the root is: the partition that is named is in the layout and is
/// of the kind that the route needs, and the UUID that is looked up is that of its device.
pub proof fn route_leads_to_a_partition(
    config: DeploymentConfig,
    layout: ComputedLayout,
    route: Route,
    device: Text,
)
    requires
        bootloader::route_of(config, layout) == core::result::Result::<Route, Text>::Ok(route),
    ensures
        ({
            let p = layout.partitions@;
            let asked = bootloader::query_of(config, device, route);
            let thin = config.disk.use_lvm_thin;
            match route {
                Route::Containers(n) => !thin && asked == Query::Luks(
                    disk::partition_file(device, n as int),
                ) && exists|i: int| 0 <= i < p.len() && (#[trigger] p[i]).is_luks && p[i].number == n,
                Route::EncryptedPool(n) => thin && config.disk.encryption && asked == Query::Luks(
                    disk::partition_file(device, n as int),
                ) && exists|i: int| 0 <= i < p.len() && (#[trigger] p[i]).is_luks && p[i].number == n,
                Route::Pool => thin && !config.disk.encryption && asked == Query::Filesystem(
                    "/dev/"@ + config.disk.lvm_vg_name@ + "/root"@,
                ),
                Route::Plain(n) => !thin && !config.disk.encryption && asked == Query::Filesystem(
                    disk::partition_file(device, n as int),
                ) && (exists|i: int|
                    0 <= i < p.len() && (#[trigger] p[i]).mount_point is Some
                        && p[i].mount_point->0@ == "/"@ && p[i].number == n) && (forall|i: int|
                    0 <= i < p.len() ==> !(#[trigger] p[i]).is_luks),
                Route::Slots(Some(n)) => thin && config.packages.immutable_root
                    && config.disk.encryption && asked == Query::Luks(
                    disk::partition_file(device, n as int),
                ) && exists|i: int| 0 <= i < p.len() && (#[trigger] p[i]).is_luks && p[i].number == n,
                Route::Slots(None) => thin && config.packages.immutable_root && asked
                    == Query::Nothing,
            }
        }),
{
    let p = layout.partitions@;
    let n = p.len() as int;
    let g = bootloader::is_luks(p);
    let r = bootloader::is_root(p);
    index::lemma_first(n, g);
    index::lemma_first(n, r);
    let i = index::first(n, g);
    let j = index::first(n, r);
    if i < n {
        assert(g(i));
        assert(p[i].is_luks);
    } else {
        assert forall|k: int| 0 <= k < n implies !(#[trigger] p[k]).is_luks by {
            assert(!g(k));
        }
    }
    if j < n {
        assert(r(j));
        assert(p[j].is_root());
    }
    reveal_strlit("/");
    reveal_strlit("root");
    reveal_strlit("/root");
    assert(disk::lv_file(config.disk.lvm_vg_name@, "root"@) =~= "/dev/"@ + config.disk.lvm_vg_name@
        + "/root"@);
}

/// There is a route wherever there is a root: an encrypted pool needs its container and a
/// plain system its partition, and nothing else is refused.
pub proof fn route_is_found(config: DeploymentConfig, layout: ComputedLayout)
    ensures
        ({
            let p = layout.partitions@;
            let luks = exists|i: int| 0 <= i < p.len() && (#[trigger] p[i]).is_luks;
            let root = exists|i: int| 0 <= i < p.len() && (#[trigger] p[i]).is_root();
            let d = config.disk;
            let slots = config.packages.immutable_root && d.use_lvm_thin;
            bootloader::route_of(config, layout) is Ok <==> {
                ||| slots
                ||| d.use_lvm_thin && (d.encryption ==> luks)
                ||| !d.use_lvm_thin && luks
                ||| !d.use_lvm_thin && !d.encryption && root
            }
        }),
{
    let p = layout.partitions@;
    let n = p.len() as int;
    let g = bootloader::is_luks(p);
    let r = bootloader::is_root(p);
    index::lemma_first(n, g);
    index::lemma_first(n, r);
    if exists|i: int| 0 <= i < p.len() && (#[trigger] p[i]).is_luks {
        let i = choose|i: int| 0 <= i < p.len() && (#[trigger] p[i]).is_luks;
        assert(g(i));
    } else if index::first(n, g) < n {
        assert(g(index::first(n, g)));
        assert(p[index::first(n, g)].is_luks);
    }
    if exists|i: int| 0 <= i < p.len() && (#[trigger] p[i]).is_root() {
        let i = choose|i: int| 0 <= i < p.len() && (#[trigger] p[i]).is_root();
        assert(r(i));
    } else if index::first(n, r) < n {
        assert(r(index::first(n, r)));
        assert(p[index::first(n, r)].is_root());
    }
}

/// A step inside the target that makes this file of the loader: GRUB installs itself with
/// its files below /boot, or is built as one binary around its configuration.
pub open spec fn makes_loader(a: Act, install_root: Text, device: Text) -> bool {
    a matches Act::Chroot { root, command } && root == install_root && (text::words_of(command)
        == seq![
        "grub-install"@,
        "--target=x86_64-efi"@,
        "--boot-directory=/boot"@,
        "--efi-directory=/boot/efi"@,
        "--removable"@,
        device,
    ] || text::begins(command, "grub-mkstandalone "@) && text::holds(
        command,
        " --format=x86_64-efi "@,
    ) && text::holds(command, " --output=/boot/efi/EFI/BOOT/BOOTX64.EFI "@) && text::ends(
        command,
        " \"boot/grub/grub.cfg=/boot/grub/grub.cfg\""@,
    ))
}

/// A step inside the target that writes GRUB's menu.
pub open spec fn makes_menu(a: Act, install_root: Text) -> bool {
    a matches Act::Chroot { root, command } && root == install_root && text::words_of(command)
        == seq!["grub-mkconfig"@, "-o"@, "/boot/grub/grub.cfg"@]
}

proof fn lemma_menu(install_root: Text)
    ensures
        makes_menu(
            (Act::Chroot { root: install_root, command: bootloader::MKCONFIG@ }),
            install_root,
        ),
{
    let w = seq!["grub-mkconfig"@, "-o"@, "/boot/grub/grub.cfg"@];
    reveal_strlit("grub-mkconfig -o /boot/grub/grub.cfg");
    reveal_strlit("grub-mkconfig");
    reveal_strlit("-o");
    reveal_strlit("/boot/grub/grub.cfg");
    reveal_strlit(" ");
    reveal_with_fuel(text::joined, 4);
    assert(w.drop_last().drop_last() =~= seq!["grub-mkconfig"@]);
    assert(bootloader::MKCONFIG@ =~= text::joined(w, " "@));
    assert(effects::single_words(w));
    effects::lemma_words_joined(w);
}

proof fn lemma_install_command(install_root: Text, device: Text)
    requires
        effects::one_word(device),
    ensures
        makes_loader(
            (Act::Chroot { root: install_root, command: boot_texts::grub_install_text(device) }),
            install_root,
            device,
        ),
{
    let w = seq![
        "grub-install"@,
        "--target=x86_64-efi"@,
        "--boot-directory=/boot"@,
        "--efi-directory=/boot/efi"@,
        "--removable"@,
        device,
    ];
    reveal_strlit(
        "grub-install --target=x86_64-efi --boot-directory=/boot --efi-directory=/boot/efi --removable ",
    );
    reveal_strlit("grub-install");
    reveal_strlit("--target=x86_64-efi");
    reveal_strlit("--boot-directory=/boot");
    reveal_strlit("--efi-directory=/boot/efi");
    reveal_strlit("--removable");
    reveal_strlit(" ");
    reveal_with_fuel(text::joined, 7);
    assert(w.drop_last().drop_last().drop_last().drop_last().drop_last() =~= seq!["grub-install"@]);
    assert(boot_texts::grub_install_text(device) =~= text::joined(w, " "@));
    assert(effects::single_words(w));
    effects::lemma_words_joined(w);
}

proof fn lemma_standalone_command(install_root: Text, device: Text, modules: Text)
    ensures
        makes_loader(
            (Act::Chroot { root: install_root, command: boot_texts::mkstandalone_text(modules) }),
            install_root,
            device,
        ),
{
    let c = boot_texts::mkstandalone_text(modules);
    reveal_strlit(
        "grub-mkstandalone --format=x86_64-efi --output=/boot/efi/EFI/BOOT/BOOTX64.EFI --disable-shim-lock --modules=\"",
    );
    reveal_strlit("\" \"boot/grub/grub.cfg=/boot/grub/grub.cfg\"");
    reveal_strlit(" \"boot/grub/grub.cfg=/boot/grub/grub.cfg\"");
    reveal_strlit("grub-mkstandalone ");
    reveal_strlit(" --format=x86_64-efi ");
    reveal_strlit(" --output=/boot/efi/EFI/BOOT/BOOTX64.EFI ");
    let a = "grub-mkstandalone "@;
    assert(c.subrange(0, a.len() as int) =~= a);
    let f = " --format=x86_64-efi "@;
    assert(c.subrange(17, 17 + f.len() as int) =~= f);
    assert(text::at(c, 17, f));
    let o = " --output=/boot/efi/EFI/BOOT/BOOTX64.EFI "@;
    assert(c.subrange(37, 37 + o.len() as int) =~= o);
    assert(text::at(c, 37, o));
    let e = " \"boot/grub/grub.cfg=/boot/grub/grub.cfg\""@;
    assert(c.subrange(c.len() - e.len(), c.len() as int) =~= e);
}

/// The firmware is told about the loader where it lies: on the first partition of the disk,
/// which is mounted at /boot/efi.
pub open spec fn registers_loader(a: Act, device: Text) -> bool {
    a matches Act::Run { program, args } && program == "efibootmgr"@ && args.contains("--create"@)
        && effects::has_option(args, "--disk"@, device) && effects::has_option(
        args,
        "--part"@,
        "1"@,
    ) && effects::has_option(args, "--loader"@, "/EFI/BOOT/BOOTX64.EFI"@)
}

proof fn lemma_registers(device: Text, label: Text)
    ensures
        registers_loader(bootloader::entry_steps(device, 1, label, true, false)[0], device),
{
    let args = bootloader::efibootmgr_args(device, 1, label);
    reveal_strlit("1");
    assert(text::decimal(1) =~= "1"@);
    assert(args[0] == "--create"@ && args[1] == "--disk"@ && args[3] == "--part"@ && args[5]
        == "--loader"@);
    assert(args[2] == device && args[4] == "1"@ && args[6] == "/EFI/BOOT/BOOTX64.EFI"@);
}

/// One binary that holds its menu is made: where sbctl signs an encrypted system.
pub open spec fn in_one_piece(config: DeploymentConfig, route: Route) -> bool {
    config.system.secureboot && config.system.secureboot_method == SecureBootMethod::Sbctl
        && config.disk.encryption && !(route is Plain)
}

/// The loader and its menu are made in this order: the one binary after the menu that it
/// holds, and otherwise the menu after the loader.
pub open spec fn made_in_order(
    config: DeploymentConfig,
    route: Route,
    device: Text,
    install_root: Text,
    menu: Act,
    loader: Act,
    menu_first: bool,
) -> bool {
    &&& makes_menu(menu, install_root)
    &&& makes_loader(loader, install_root, device)
    &&& menu_first <==> in_one_piece(config, route)
    &&& in_one_piece(config, route) ==> text::begins(
        loader->Chroot_command,
        "grub-mkstandalone "@,
    )
    &&& !in_one_piece(config, route) ==> text::words_of(loader->Chroot_command).contains(
        "grub-install"@,
    )
}

/// What comes after the defaults, up to the signatures.
pub open spec fn loader_steps(
    config: DeploymentConfig,
    device: Text,
    route: Route,
    install_root: Text,
    efivars_usable: bool,
) -> Seq<Act> {
    if in_one_piece(config, route) {
        bootloader::standalone_steps(device, install_root, efivars_usable, false)
    } else {
        bootloader::install_steps(device, install_root, efivars_usable, false)
    }
}

proof fn lemma_loader_steps(
    config: DeploymentConfig,
    device: Text,
    route: Route,
    install_root: Text,
    efivars_usable: bool,
)
    requires
        effects::one_word(device),
    ensures
        ({
            let f = loader_steps(config, device, route, install_root, efivars_usable);
            let whole = in_one_piece(config, route);
            let m: int = 1;
            let l: int = if whole {
                3
            } else {
                0
            };
            &&& l < f.len() && m < f.len()
            &&& made_in_order(config, route, device, install_root, f[m], f[l], m < l)
        }),
{
    let f = loader_steps(config, device, route, install_root, efivars_usable);
    lemma_menu(install_root);
    if in_one_piece(config, route) {
        lemma_standalone_command(install_root, device, boot_texts::GRUB_STANDALONE_MODULES@);
        let c = boot_texts::mkstandalone_text(boot_texts::GRUB_STANDALONE_MODULES@);
        lemma_standalone_begins(boot_texts::GRUB_STANDALONE_MODULES@);
        assert(f[3] == (Act::Chroot { root: install_root, command: c }));
        assert(f[1] == (Act::Chroot { root: install_root, command: bootloader::MKCONFIG@ }));
    } else {
        lemma_install_command(install_root, device);
        lemma_first_word(install_root, device);
        let c = boot_texts::grub_install_text(device);
        assert(f[0] == (Act::Chroot { root: install_root, command: c }));
        assert(f[1] == (Act::Chroot { root: install_root, command: bootloader::MKCONFIG@ }));
    }
}

proof fn lemma_standalone_begins(modules: Text)
    ensures
        text::begins(boot_texts::mkstandalone_text(modules), "grub-mkstandalone "@),
{
    reveal_strlit("grub-mkstandalone ");
    reveal_strlit(
        "grub-mkstandalone --format=x86_64-efi --output=/boot/efi/EFI/BOOT/BOOTX64.EFI --disable-shim-lock --modules=\"",
    );
    let c = boot_texts::mkstandalone_text(modules);
    assert(c.subrange(0, "grub-mkstandalone "@.len() as int) =~= "grub-mkstandalone "@);
}

proof fn lemma_steps_split(
    config: DeploymentConfig,
    device: Text,
    layout: ComputedLayout,
    names: StorageNames,
    route: Route,
    install_root: Text,
    facts: BootFacts,
)
    ensures
        ({
            let steps = bootloader::grub_steps(
                config,
                device,
                layout,
                names,
                route,
                install_root,
                facts,
                false,
            );
            let f = loader_steps(config, device, route, install_root, facts.efivars_usable);
            let s = secureboot::sign_boot_steps(config, install_root, false);
            let signs = config.system.secureboot && !(route is Plain);
            &&& steps.len() == 2 + f.len() + if signs {
                s.len() as int
            } else {
                0
            }
            &&& effects::touches(steps[1], install_root + "/etc/default/grub"@)
            &&& !(steps[0] is Run) && !(steps[1] is Run)
            &&& forall|i: int| 0 <= i < f.len() ==> #[trigger] f[i] == steps[i + 2]
            &&& signs ==> forall|i: int|
                0 <= i < s.len() ==> #[trigger] s[i] == steps[i + 2 + f.len()]
        }),
{
    let a = bootloader::route_defaults(
        config,
        layout,
        names,
        route,
        install_root,
        facts.uuid@,
        bootloader::swap_uuid_used(layout, facts.swap_uuid@, false),
        false,
    );
    let f = loader_steps(config, device, route, install_root, facts.efivars_usable);
    let s = secureboot::sign_boot_steps(config, install_root, false);
    lemma_defaults_shape(
        config,
        layout,
        names,
        route,
        install_root,
        facts.uuid@,
        bootloader::swap_uuid_used(layout, facts.swap_uuid@, false),
    );
    lemma_three(a, f, s);
}

proof fn lemma_three(a: Seq<Act>, f: Seq<Act>, s: Seq<Act>)
    requires
        a.len() == 2,
    ensures
        (a + f).len() == 2 + f.len(),
        (a + (f + s)).len() == 2 + f.len() + s.len(),
        (a + f)[0] == a[0] && (a + f)[1] == a[1],
        (a + (f + s))[0] == a[0] && (a + (f + s))[1] == a[1],
        forall|i: int| 0 <= i < f.len() ==> #[trigger] f[i] == (a + f)[i + 2],
        forall|i: int| 0 <= i < f.len() ==> #[trigger] f[i] == (a + (f + s))[i + 2],
        forall|i: int| 0 <= i < s.len() ==> #[trigger] s[i] == (a + (f + s))[i + 2 + f.len()],
{
}

proof fn lemma_defaults_shape(
    config: DeploymentConfig,
    layout: ComputedLayout,
    names: StorageNames,
    route: Route,
    install_root: Text,
    uuid: Text,
    swap: Option<Text>,
)
    ensures
        ({
            let a = bootloader::route_defaults(
                config,
                layout,
                names,
                route,
                install_root,
                uuid,
                swap,
                false,
            );
            &&& a.len() == 2
            &&& effects::touches(a[1], install_root + "/etc/default/grub"@)
            &&& !(a[0] is Run) && !(a[1] is Run)
        }),
{
}

/// Once the defaults are written, the loader and its menu are made inside the target. One
/// binary that holds its menu is made exactly where sbctl signs an encrypted system, and
/// then after its menu.
pub proof fn loader_is_made(
    config: DeploymentConfig,
    device: Text,
    layout: ComputedLayout,
    names: StorageNames,
    route: Route,
    install_root: Text,
    facts: BootFacts,
)
    requires
        effects::one_word(device),
    ensures
        ({
            let steps = bootloader::grub_steps(
                config,
                device,
                layout,
                names,
                route,
                install_root,
                facts,
                false,
            );
            exists|w: int, m: int, l: int|
                #![trigger steps[w], steps[m], steps[l]]
                {
                    &&& 0 <= w < m < steps.len()
                    &&& w < l < steps.len()
                    &&& effects::touches(steps[w], install_root + "/etc/default/grub"@)
                    &&& made_in_order(
                        config,
                        route,
                        device,
                        install_root,
                        steps[m],
                        steps[l],
                        m < l,
                    )
                }
        }),
{
    let steps = bootloader::grub_steps(
        config,
        device,
        layout,
        names,
        route,
        install_root,
        facts,
        false,
    );
    let f = loader_steps(config, device, route, install_root, facts.efivars_usable);
    lemma_steps_split(config, device, layout, names, route, install_root, facts);
    lemma_loader_steps(config, device, route, install_root, facts.efivars_usable);
    let l: int = if in_one_piece(config, route) {
        3
    } else {
        0
    };
    assert(f[1] == steps[3]);
    assert(f[l] == steps[l + 2]);
    assert(effects::touches(steps[1], install_root + "/etc/default/grub"@));
}

/// The firmware is told about the loader if and only if it can be told, and nothing else is
/// run on the host.
pub proof fn loader_is_registered(
    config: DeploymentConfig,
    device: Text,
    layout: ComputedLayout,
    names: StorageNames,
    route: Route,
    install_root: Text,
    facts: BootFacts,
)
    ensures
        ({
            let steps = bootloader::grub_steps(
                config,
                device,
                layout,
                names,
                route,
                install_root,
                facts,
                false,
            );
            &&& facts.efivars_usable ==> exists|i: int|
                0 <= i < steps.len() && registers_loader(#[trigger] steps[i], device)
            &&& forall|i: int|
                0 <= i < steps.len() && (#[trigger] steps[i] is Run) ==> facts.efivars_usable
                    && registers_loader(steps[i], device)
        }),
{
    let steps = bootloader::grub_steps(
        config,
        device,
        layout,
        names,
        route,
        install_root,
        facts,
        false,
    );
    let f = loader_steps(config, device, route, install_root, facts.efivars_usable);
    let s = secureboot::sign_boot_steps(config, install_root, false);
    let whole = in_one_piece(config, route);
    lemma_steps_split(config, device, layout, names, route, install_root, facts);
    lemma_registers(device, "Artix-SB"@);
    lemma_registers(device, "Artix Linux"@);
    let n: int = if whole {
        4
    } else {
        2
    };
    if facts.efivars_usable {
        assert(f[n] == steps[n + 2]);
        assert(registers_loader(f[n], device));
    }
    assert forall|i: int| 0 <= i < f.len() && (#[trigger] f[i] is Run) implies facts.efivars_usable
        && registers_loader(f[i], device) by {
        if i < n {
            assert(!(f[i] is Run));
        }
    }
    lemma_nothing_runs(config, install_root);
    assert forall|i: int| 0 <= i < steps.len() && (#[trigger] steps[i] is Run) implies facts.efivars_usable
        && registers_loader(steps[i], device) by {
        if i >= 2 && i - 2 < f.len() {
            assert(f[i - 2] == steps[i]);
        } else if i >= 2 {
            assert(s[i - 2 - f.len()] == steps[i]);
        }
    }
}

proof fn lemma_first_word(install_root: Text, device: Text)
    requires
        effects::one_word(device),
    ensures
        text::words_of(boot_texts::grub_install_text(device)).contains("grub-install"@),
{
    let w = seq![
        "grub-install"@,
        "--target=x86_64-efi"@,
        "--boot-directory=/boot"@,
        "--efi-directory=/boot/efi"@,
        "--removable"@,
        device,
    ];
    reveal_strlit(
        "grub-install --target=x86_64-efi --boot-directory=/boot --efi-directory=/boot/efi --removable ",
    );
    reveal_strlit("grub-install");
    reveal_strlit("--target=x86_64-efi");
    reveal_strlit("--boot-directory=/boot");
    reveal_strlit("--efi-directory=/boot/efi");
    reveal_strlit("--removable");
    reveal_strlit(" ");
    reveal_with_fuel(text::joined, 7);
    assert(w.drop_last().drop_last().drop_last().drop_last().drop_last() =~= seq!["grub-install"@]);
    assert(boot_texts::grub_install_text(device) =~= text::joined(w, " "@));
    assert(effects::single_words(w));
    effects::lemma_words_joined(w);
    assert(w[0] == "grub-install"@);
}

proof fn lemma_nothing_runs(config: DeploymentConfig, install_root: Text)
    ensures
        forall|i: int|
            0 <= i < secureboot::sign_boot_steps(config, install_root, false).len()
                ==> !(#[trigger] secureboot::sign_boot_steps(config, install_root, false)[i] is Run),
{
}

} // verus!
