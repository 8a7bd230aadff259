//! Undoing an installation: unmounting what it mounted, closing what it opened and,
//! where that is asked for, wiping its disk.
use vstd::prelude::*;

use crate::cleanup::guards::{deepest_first, unmount_each};
use crate::error::{DeploytixError, Result};
use crate::plan;
use crate::plan::{add_step, extend, run, say, try_run, Act, Step};
use crate::text;
use crate::text::{
    chars_of, concat, copy_all, lines, push_text, same, slice_text, sort_unique, split_words,
    starts_with, Text,
};

pub mod guards;

verus! {

/// Where an installation is mounted.
pub const INSTALL_ROOT: &'static str = "/install";

/// A path is the root or lies below it.
pub open spec fn under(path: Text, root: Text) -> bool {
    path == root || text::begins(path, root + "/"@)
}

pub fn is_under(path: &str, root: &str) -> (r: bool)
    ensures
        r == under(path@, root@),
{
    same(path, root) || starts_with(path, concat(root, "/").as_str())
}

// --------------------------------------------------------------------------- scope
/// The disk that a cleanup is for.
#[derive(Debug, Clone, PartialEq, Eq)]
pub enum Target {
    Named(String),
    /// The user must choose it.
    Ask,
    Nothing,
}

/// What a cleanup does, part by part.
#[derive(Debug, Clone, PartialEq, Eq)]
pub enum Stage {
    Unmount,
    Close,
    Wipe(String),
}

/// A part as the contracts speak of it.
pub enum Part {
    Unmount,
    Close,
    Wipe(Text),
}

impl View for Stage {
    type V = Part;

    open spec fn view(&self) -> Part {
        match *self {
            Stage::Unmount => Part::Unmount,
            Stage::Close => Part::Close,
            Stage::Wipe(d) => Part::Wipe(d@),
        }
    }
}

pub open spec fn parts(v: Seq<Stage>) -> Seq<Part> {
    Seq::new(v.len(), |i: int| v[i]@)
}

/// What a cleanup does. Without a disk to act on nothing is unmounted or closed.
pub open spec fn cleanup_parts(target: Option<Text>, targets: Seq<Text>, wipe: bool) -> Seq<Part> {
    (if targets.len() == 0 {
        Seq::<Part>::empty()
    } else {
        seq![Part::Unmount, Part::Close]
    }) + match target {
        Some(d) => if wipe {
            seq![Part::Wipe(d)]
        } else {
            seq![]
        },
        None => seq![],
    }
}

// --------------------------------------------------------------------------- facts
/// A device with the disks that it is on.
#[derive(Debug, Clone, PartialEq, Eq)]
pub struct Device {
    pub path: String,
    pub disks: Vec<String>,
}

/// A mapping with the disks that it is on and where it is mounted outside the
/// installation.
#[derive(Debug, Clone, PartialEq, Eq)]
pub struct Volume {
    pub name: String,
    pub disks: Vec<String>,
    pub outside: Vec<String>,
}

/// A disk that the user can choose.
#[derive(Debug, Clone, PartialEq, Eq)]
pub struct Choice {
    pub path: String,
    pub size: String,
    pub model: Option<String>,
}

/// Something is on disks, and on none but these.
pub open spec fn on_only(disks: Seq<Text>, targets: Seq<Text>) -> bool {
    disks.len() > 0 && forall|i: int| 0 <= i < disks.len() ==> targets.contains(#[trigger] disks[i])
}

pub fn backed_only_by(disks: &Vec<String>, targets: &Vec<String>) -> (r: bool)
    ensures
        r == on_only(disks.deep_view(), targets.deep_view()),
{
    if disks.len() == 0 {
        return false;
    }
    for i in 0..disks.len()
        invariant
            forall|j: int|
                0 <= j < i ==> targets.deep_view().contains(#[trigger] disks.deep_view()[j]),
    {
        assert(disks.deep_view()[i as int] == disks@[i as int]@);
        if !is_listed(targets, disks[i].as_str()) {
            return false;
        }
    }
    true
}

fn is_listed(v: &Vec<String>, s: &str) -> (r: bool)
    ensures
        r == v.deep_view().contains(s@),
{
    for i in 0..v.len()
        invariant
            forall|j: int| 0 <= j < i ==> #[trigger] v.deep_view()[j] != s@,
    {
        assert(v.deep_view()[i as int] == v@[i as int]@);
        if same(v[i].as_str(), s) {
            return true;
        }
    }
    false
}

// ---------------------------------------------------------------------------- swap
/// The first words of the lines after the first, where they have one.
pub open spec fn swap_devices_of(lines: Seq<Text>) -> Seq<Text>
    decreases lines.len(),
{
    if lines.len() <= 1 {
        seq![]
    } else {
        let words = text::words_of(lines.last());
        let before = swap_devices_of(lines.drop_last());
        if words.len() > 0 {
            before.push(words[0])
        } else {
            before
        }
    }
}

/// The devices that are in use as swap.
pub fn swap_devices(swaps: &str) -> (r: Vec<String>)
    ensures
        r.deep_view() == swap_devices_of(text::lines_of(swaps@)),
{
    let all = lines(swaps);
    let ghost v = all.deep_view();
    let mut r: Vec<String> = Vec::new();
    if all.len() <= 1 {
        assert(r.deep_view() =~= swap_devices_of(v));
        return r;
    }
    let mut i: usize = 1;
    assert(r.deep_view() =~= swap_devices_of(v.take(1)));
    while i < all.len()
        invariant
            1 <= i <= all@.len(),
            v == all.deep_view(),
            r.deep_view() == swap_devices_of(v.take(i as int)),
        decreases all@.len() - i,
    {
        let ghost seen = v.take(i + 1);
        assert(seen.drop_last() =~= v.take(i as int));
        assert(seen.last() == all@[i as int]@);
        let words = split_words(all[i].as_str());
        if words.len() > 0 {
            let ghost before = r.deep_view();
            assert(words.deep_view()[0] == words@[0]@);
            push_text(&mut r, words[0].as_str());
            assert(r.deep_view() =~= before.push(words@[0]@));
        }
        i += 1;
    }
    assert(v.take(all@.len() as int) =~= v);
    r
}

/// A swap device of the installation: one below its root, or on its disks alone.
pub open spec fn own_swap(d: Device, targets: Seq<Text>) -> bool {
    under(d.path@, INSTALL_ROOT@) || on_only(d.disks.deep_view(), targets)
}

/// Disabling the swap devices of the installation, and no others.
pub open spec fn swap_steps(devices: Seq<Device>, targets: Seq<Text>) -> Seq<Act>
    decreases devices.len(),
{
    if devices.len() == 0 {
        seq![]
    } else {
        let before = swap_steps(devices.drop_last(), targets);
        if own_swap(devices.last(), targets) {
            before.push(Act::TryRun { program: "swapoff"@, args: seq![devices.last().path@] })
        } else {
            before
        }
    }
}

// --------------------------------------------------------------------------- mounts
/// The mount points of the installation, in the order of the table.
pub open spec fn install_points(mounts: Text) -> Seq<Text> {
    guards::chosen_points(text::lines_of(mounts), |p: Text| under(p, INSTALL_ROOT@))
}

fn points_of(mounts: &str) -> (r: Vec<String>)
    ensures
        r.deep_view() == install_points(mounts@),
{
    let all = lines(mounts);
    let mut points: Vec<String> = Vec::new();
    let ghost f = |p: Text| under(p, INSTALL_ROOT@);
    assert(all.deep_view().take(0) =~= seq![]);
    for i in 0..all.len()
        invariant
            f == (|p: Text| under(p, INSTALL_ROOT@)),
            points.deep_view() == guards::chosen_points(all.deep_view().take(i as int), f),
    {
        let ghost seen = all.deep_view().take(i + 1);
        assert(seen.drop_last() =~= all.deep_view().take(i as int));
        assert(seen.last() == all@[i as int]@);
        let words = split_words(all[i].as_str());
        if words.len() >= 2 && is_under(words[1].as_str(), INSTALL_ROOT) {
            let ghost before = points.deep_view();
            assert(words.deep_view()[1] == words@[1]@);
            push_text(&mut points, words[1].as_str());
            assert(points.deep_view() =~= before.push(words@[1]@));
        } else {
            assert(words@.len() >= 2 ==> words.deep_view()[1] == words@[1]@);
        }
    }
    assert(all.deep_view().take(all@.len() as int) =~= all.deep_view());
    points
}

// ------------------------------------------------------------------------- mappings
/// The name of a mapping that an installation may have made.
pub open spec fn own_name(name: Text) -> bool {
    text::begins(name, "Crypt-"@) || text::begins(name, "temporary-cryptsetup-"@)
}

/// The mappings that may be the installation's, the last first: what lies on another
/// is closed before it.
pub open spec fn candidates(nodes: Seq<Text>) -> Seq<Text>
    decreases nodes.len(),
{
    if nodes.len() == 0 {
        seq![]
    } else {
        let rest = candidates(nodes.drop_first());
        if own_name(nodes[0]) {
            rest.push(nodes[0])
        } else {
            rest
        }
    }
}

pub fn mapper_candidates(nodes: &Vec<String>) -> (r: Vec<String>)
    ensures
        r.deep_view() == candidates(nodes.deep_view()),
{
    let ghost v = nodes.deep_view();
    let mut r: Vec<String> = Vec::new();
    let mut i: usize = nodes.len();
    assert(v.skip(v.len() as int) =~= seq![]);
    while i > 0
        invariant
            i <= nodes@.len(),
            v == nodes.deep_view(),
            r.deep_view() == candidates(v.skip(i as int)),
        decreases i,
    {
        i -= 1;
        proof {
            assert(v[i as int] == nodes@[i as int]@);
            assert(v.skip(i as int)[0] == v[i as int]);
            assert(v.skip(i as int).drop_first() =~= v.skip(i + 1));
        }
        let name = nodes[i].as_str();
        if starts_with(name, "Crypt-") || starts_with(name, "temporary-cryptsetup-") {
            let ghost before = r.deep_view();
            push_text(&mut r, name);
            assert(r.deep_view() =~= before.push(name@));
        }
    }
    assert(v.skip(0) =~= v);
    r
}

/// A mapping that is closed: it is on the disks being cleaned up alone, and mounted
/// nowhere outside the installation.
pub open spec fn closable(v: Volume, targets: Seq<Text>) -> bool {
    on_only(v.disks.deep_view(), targets) && v.outside@.len() == 0
}

pub open spec fn close_steps(volumes: Seq<Volume>, targets: Seq<Text>) -> Seq<Act>
    decreases volumes.len(),
{
    if volumes.len() == 0 {
        seq![]
    } else {
        let before = close_steps(volumes.drop_last(), targets);
        if closable(volumes.last(), targets) {
            before.push(
                Act::TryRun { program: "cryptsetup"@, args: seq!["close"@, volumes.last().name@] },
            )
        } else {
            before
        }
    }
}

// ------------------------------------------------------------------------ processes
/// Where a character last stands in a text, or -1.
pub open spec fn last_place(s: Text, c: char) -> int
    decreases s.len(),
{
    if s.len() == 0 {
        -1
    } else if s.last() == c {
        s.len() - 1
    } else {
        last_place(s.drop_last(), c)
    }
}

/// The process runs cryptsetup and its parent is gone, so that init adopted it.
pub open spec fn orphan(cmdline: Text, stat: Text) -> bool {
    let k = last_place(stat, ')');
    let fields = text::words_of(stat.skip(k + 1));
    &&& text::begins(cmdline, "cryptsetup\0"@) || text::begins(cmdline, "cryptsetup "@)
    &&& k >= 0
    &&& fields.len() >= 2
    &&& fields[1] == "1"@
}

/// Whether a process is an orphaned cryptsetup, by its command line and its status.
pub fn is_orphaned_cryptsetup(cmdline: &str, stat: &str) -> (r: bool)
    ensures
        r == orphan(cmdline@, stat@),
{
    if !starts_with(cmdline, "cryptsetup\0") && !starts_with(cmdline, "cryptsetup ") {
        return false;
    }
    let chars = chars_of(stat);
    let mut k: usize = chars.len();
    assert(stat@.take(k as int) =~= stat@);
    while k > 0 && chars[k - 1] != ')'
        invariant
            chars@ == stat@,
            k <= stat@.len(),
            last_place(stat@, ')') == last_place(stat@.take(k as int), ')'),
        decreases k,
    {
        let ghost seen = stat@.take(k as int);
        assert(seen.last() == stat@[k - 1]);
        assert(seen.drop_last() =~= stat@.take(k - 1));
        k -= 1;
    }
    let ghost seen = stat@.take(k as int);
    if k == 0 {
        assert(last_place(stat@, ')') == -1);
        return false;
    }
    assert(seen.last() == stat@[k - 1]);
    assert(last_place(stat@, ')') == k - 1);
    assert(stat@.skip(k as int) =~= stat@.subrange(k as int, stat@.len() as int));
    let fields = split_words(slice_text(&chars, k, chars.len()).as_str());
    if fields.len() < 2 {
        return false;
    }
    assert(fields.deep_view()[1] == fields@[1]@);
    same(fields[1].as_str(), "1")
}

// ------------------------------------------------------------------------- the user
pub open spec fn item(c: Choice) -> Text {
    c.path@ + " - "@ + c.size@ + " "@ + match c.model {
        Some(m) => m@,
        None => ""@,
    }
}

/// How the disks are offered to the user. There must be one.
pub fn device_items(choices: &Vec<Choice>) -> (r: Result<Vec<String>>)
    ensures
        match r {
            Ok(v) => choices@.len() > 0 && v.deep_view() == Seq::new(
                choices@.len(),
                |i: int| item(choices@[i]),
            ),
            Err(e) => choices@.len() == 0 && e.config_says("No block devices found"@),
        },
{
    if choices.len() == 0 {
        return Err(DeploytixError::ConfigError("No block devices found".to_owned()));
    }
    let ghost want = Seq::new(choices@.len(), |i: int| item(choices@[i]));
    let mut r: Vec<String> = Vec::new();
    for i in 0..choices.len()
        invariant
            want == Seq::new(choices@.len(), |i: int| item(choices@[i])),
            r.deep_view() == want.take(i as int),
    {
        let c = &choices[i];
        let mut s = concat(c.path.as_str(), " - ");
        s.push_str(c.size.as_str());
        s.push_str(" ");
        match &c.model {
            Some(m) => {
                s.push_str(m.as_str());
            },
            None => {
                s.push_str("");
            },
        }
        assert(s@ =~= item(choices@[i as int]));
        let ghost before = r.deep_view();
        r.push(s);
        assert(r.deep_view() =~= before.push(s@));
        assert(r.deep_view() =~= want.take(i + 1));
    }
    assert(want.take(choices@.len() as int) =~= want);
    Ok(r)
}

/// What the user is told before a disk is wiped.
pub fn wipe_warning(device: &str) -> (r: String)
    ensures
        r@ == "This will WIPE the partition table on "@ + device@ + ". This cannot be undone!"@,
{
    let mut s = concat("This will WIPE the partition table on ", device);
    s.push_str(". This cannot be undone!");
    s
}

/// What wipes a disk.
pub open spec fn wipe_steps(device: Text, dry_run: bool) -> Seq<Act> {
    if dry_run {
        seq![Act::Say("  [dry-run] Would wipe partition table on "@ + device)]
    } else {
        seq![
            Act::Run { program: "wipefs"@, args: seq!["-a"@, device] },
            Act::Partition { device, script: "label: gpt\n"@, otherwise: "g\nw\n"@ },
        ]
    }
}

// ---------------------------------------------------------------------- the cleaner
/// Undoes an installation.
#[derive(Debug, Clone, Copy)]
pub struct Cleaner {
    pub dry_run: bool,
}

impl Cleaner {
    pub fn new(dry_run: bool) -> (r: Self)
        ensures
            r.dry_run == dry_run,
    {
        Cleaner { dry_run }
    }

    /// The disk that a cleanup is for: the one that was named, or the one that the
    /// user must choose where a disk is to be wiped.
    pub fn target_device(&self, device: Option<&str>, wipe: bool) -> (r: Target)
        ensures
            match device {
                Some(d) => r matches Target::Named(n) && n@ == d@,
                None => r == if wipe {
                    Target::Ask
                } else {
                    Target::Nothing
                },
            },
    {
        match device {
            Some(d) => Target::Named(d.to_owned()),
            None => if wipe {
                Target::Ask
            } else {
                Target::Nothing
            },
        }
    }

    /// The disks that a cleanup may touch: those with something mounted under the
    /// installation's root, and those behind the disk that it is for.
    pub fn scope(&self, mounted: &Vec<String>, backing: &Vec<String>) -> (r: Vec<String>)
        ensures
            r.deep_view() == text::arranged(mounted.deep_view() + backing.deep_view()),
    {
        let mut all = copy_all(mounted);
        let mut more = copy_all(backing);
        let ghost a = all.deep_view();
        let ghost b = more.deep_view();
        all.append(&mut more);
        assert(all.deep_view() =~= a + b);
        sort_unique(&all)
    }

    /// What a cleanup does, once its target and its scope are known.
    pub fn cleanup(&self, target: &Option<String>, targets: &Vec<String>, wipe: bool) -> (r: Vec<
        Stage,
    >)
        ensures
            parts(r@) == cleanup_parts(plan::seen(*target), targets.deep_view(), wipe),
    {
        let mut r: Vec<Stage> = Vec::new();
        if targets.len() > 0 {
            r.push(Stage::Unmount);
            r.push(Stage::Close);
        }
        if let Some(d) = target {
            if wipe {
                r.push(Stage::Wipe(d.clone()));
            }
        }
        assert(parts(r@) =~= cleanup_parts(plan::seen(*target), targets.deep_view(), wipe));
        r
    }

    /// Disables the swap of the installation and unmounts what it mounted, the deepest
    /// first.
    pub fn unmount_all(&self, swaps: &Vec<Device>, targets: &Vec<String>, mounts: &str) -> (r: Vec<
        Step,
    >)
        ensures
            plan::acts(r@) == swap_steps(swaps@, targets.deep_view()) + guards::unmounting(
                guards::deepest(install_points(mounts@)),
            ),
    {
        let mut r: Vec<Step> = Vec::new();
        assert(swaps@.take(0) =~= seq![]);
        assert(plan::acts(r@) =~= seq![]);
        for i in 0..swaps.len()
            invariant
                plan::acts(r@) == swap_steps(swaps@.take(i as int), targets.deep_view()),
        {
            assert(swaps@.take(i + 1).drop_last() =~= swaps@.take(i as int));
            assert(swaps@.take(i + 1).last() == swaps@[i as int]);
            let d = &swaps[i];
            if is_under(d.path.as_str(), INSTALL_ROOT) || backed_only_by(&d.disks, targets) {
                let args: Vec<String> = vec![d.path.clone()];
                assert(args.deep_view() =~= seq![d.path@]);
                try_run(&mut r, "swapoff", args);
            }
        }
        assert(swaps@.take(swaps@.len() as int) =~= swaps@);
        extend(&mut r, unmount_each(&deepest_first(&points_of(mounts))));
        r
    }

    /// Closes the mappings of the installation. A name alone says little: on a host
    /// that was itself installed this way the running system has the same names.
    pub fn close_encrypted_volumes(&self, volumes: &Vec<Volume>, targets: &Vec<String>) -> (r: Vec<
        Step,
    >)
        ensures
            plan::acts(r@) == close_steps(volumes@, targets.deep_view()),
    {
        let mut r: Vec<Step> = Vec::new();
        assert(volumes@.take(0) =~= seq![]);
        assert(plan::acts(r@) =~= seq![]);
        for i in 0..volumes.len()
            invariant
                plan::acts(r@) == close_steps(volumes@.take(i as int), targets.deep_view()),
        {
            assert(volumes@.take(i + 1).drop_last() =~= volumes@.take(i as int));
            assert(volumes@.take(i + 1).last() == volumes@[i as int]);
            let v = &volumes[i];
            if backed_only_by(&v.disks, targets) && v.outside.len() == 0 {
                let args: Vec<String> = vec!["close".to_owned(), v.name.clone()];
                assert(args.deep_view() =~= seq!["close"@, v.name@]);
                try_run(&mut r, "cryptsetup", args);
            }
        }
        assert(volumes@.take(volumes@.len() as int) =~= volumes@);
        r
    }

    /// Wipes a disk, once the user has agreed.
    pub fn wipe_device(&self, device: &str, agreed: bool) -> (r: Result<Vec<Step>>)
        ensures
            match r {
                Ok(v) => agreed && plan::acts(v@) == wipe_steps(device@, self.dry_run),
                Err(e) => !agreed && e is UserCancelled,
            },
    {
        if !agreed {
            return Err(DeploytixError::UserCancelled);
        }
        let mut r: Vec<Step> = Vec::new();
        if self.dry_run {
            say(&mut r, concat("  [dry-run] Would wipe partition table on ", device).as_str());
        } else {
            let args: Vec<String> = vec!["-a".to_owned(), device.to_owned()];
            assert(args.deep_view() =~= seq!["-a"@, device@]);
            run(&mut r, "wipefs", args);
            add_step(
                &mut r,
                Step::Partition {
                    device: device.to_owned(),
                    script: "label: gpt\n".to_owned(),
                    otherwise: "g\nw\n".to_owned(),
                },
            );
        }
        assert(plan::acts(r@) =~= wipe_steps(device@, self.dry_run));
        Ok(r)
    }
}

// ---------------------------------------------------------------------------- laws
/// Without a disk to act on, a cleanup unmounts nothing and closes nothing.
pub proof fn no_scope_no_teardown(target: Option<Text>, wipe: bool)
    ensures
        forall|i: int|
            0 <= i < cleanup_parts(target, seq![], wipe).len() ==> (#[trigger] cleanup_parts(
                target,
                seq![],
                wipe,
            )[i]) is Wipe,
{
}

/// A disk is wiped last, and only where that was asked for.
pub proof fn wiping_comes_last(target: Option<Text>, targets: Seq<Text>, wipe: bool, i: int)
    requires
        0 <= i < cleanup_parts(target, targets, wipe).len(),
        cleanup_parts(target, targets, wipe)[i] is Wipe,
    ensures
        wipe,
        target is Some,
        cleanup_parts(target, targets, wipe)[i] == Part::Wipe(target->0),
        i == cleanup_parts(target, targets, wipe).len() - 1,
{
}

/// Whatever is closed is on the disks being cleaned up, on no other, and mounted
/// nowhere outside the installation: the running system is left alone.
pub proof fn running_system_is_left_alone(volumes: Seq<Volume>, targets: Seq<Text>, i: int)
    requires
        0 <= i < close_steps(volumes, targets).len(),
    ensures
        exists|k: int|
            #![trigger volumes[k]]
            0 <= k < volumes.len() && closable(volumes[k], targets) && close_steps(
                volumes,
                targets,
            )[i] == (Act::TryRun {
                program: "cryptsetup"@,
                args: seq!["close"@, volumes[k].name@],
            }),
    decreases volumes.len(),
{
    if volumes.len() > 0 {
        let init = volumes.drop_last();
        let before = close_steps(init, targets);
        if i < before.len() {
            assert(close_steps(volumes, targets)[i] == before[i]);
            running_system_is_left_alone(init, targets, i);
            let k = choose|k: int|
                #![trigger init[k]]
                0 <= k < init.len() && closable(init[k], targets) && before[i] == (Act::TryRun {
                    program: "cryptsetup"@,
                    args: seq!["close"@, init[k].name@],
                });
            assert(volumes[k] == init[k]);
        } else {
            assert(volumes[volumes.len() - 1] == volumes.last());
        }
    }
}

/// The same of swap: what is disabled lies below the installation's root or on the
/// disks being cleaned up, and on no other.
pub proof fn host_swap_stays(devices: Seq<Device>, targets: Seq<Text>, i: int)
    requires
        0 <= i < swap_steps(devices, targets).len(),
    ensures
        exists|k: int|
            #![trigger devices[k]]
            0 <= k < devices.len() && own_swap(devices[k], targets) && swap_steps(
                devices,
                targets,
            )[i] == (Act::TryRun { program: "swapoff"@, args: seq![devices[k].path@] }),
    decreases devices.len(),
{
    if devices.len() > 0 {
        let init = devices.drop_last();
        let before = swap_steps(init, targets);
        if i < before.len() {
            assert(swap_steps(devices, targets)[i] == before[i]);
            host_swap_stays(init, targets, i);
            let k = choose|k: int|
                #![trigger init[k]]
                0 <= k < init.len() && own_swap(init[k], targets) && before[i] == (Act::TryRun {
                    program: "swapoff"@,
                    args: seq![init[k].path@],
                });
            assert(devices[k] == init[k]);
        } else {
            assert(devices[devices.len() - 1] == devices.last());
        }
    }
}

/// What is closed is on the disks being cleaned up and on no other, and nothing outside the
/// installation is mounted from it; and whatever is so is closed.
pub proof fn own_volumes_are_closed(volumes: Seq<Volume>, targets: Seq<Text>)
    ensures
        forall|name: Text|
            close_steps(volumes, targets).contains(
                #[trigger] closing(name),
            ) <==> exists|k: int|
                {
                    &&& 0 <= k < volumes.len()
                    &&& (#[trigger] volumes[k]).name@ == name
                    &&& volumes[k].outside@.len() == 0
                    &&& volumes[k].disks.deep_view().len() > 0
                    &&& forall|j: int|
                        0 <= j < volumes[k].disks.deep_view().len() ==> targets.contains(
                            #[trigger] volumes[k].disks.deep_view()[j],
                        )
                },
        forall|i: int|
            0 <= i < close_steps(volumes, targets).len() ==> exists|name: Text|
                #[trigger] close_steps(volumes, targets)[i] == closing(name),
    decreases volumes.len(),
{
    let all = close_steps(volumes, targets);
    if volumes.len() > 0 {
        let init = volumes.drop_last();
        let some = close_steps(init, targets);
        let last = volumes[volumes.len() - 1];
        own_volumes_are_closed(init, targets);
        assert forall|name: Text| all.contains(#[trigger] closing(name)) <==> exists|k: int|
            {
                &&& 0 <= k < volumes.len()
                &&& (#[trigger] volumes[k]).name@ == name
                &&& volumes[k].outside@.len() == 0
                &&& volumes[k].disks.deep_view().len() > 0
                &&& forall|j: int|
                    0 <= j < volumes[k].disks.deep_view().len() ==> targets.contains(
                        #[trigger] volumes[k].disks.deep_view()[j],
                    )
            } by {
            if some.contains(closing(name)) {
                let i = choose|i: int| 0 <= i < some.len() && some[i] == closing(name);
                assert(all[i] == some[i]);
                let k = choose|k: int|
                    {
                        &&& 0 <= k < init.len()
                        &&& (#[trigger] init[k]).name@ == name
                        &&& init[k].outside@.len() == 0
                        &&& init[k].disks.deep_view().len() > 0
                        &&& forall|j: int|
                            0 <= j < init[k].disks.deep_view().len() ==> targets.contains(
                                #[trigger] init[k].disks.deep_view()[j],
                            )
                    };
                assert(volumes[k] == init[k]);
            }
            if all.contains(closing(name)) && !some.contains(closing(name)) {
                let i = choose|i: int| 0 <= i < all.len() && all[i] == closing(name);
                if i < some.len() {
                    assert(some[i] == closing(name));
                }
                assert(all[i] == closing(last.name@));
                assert(closing(last.name@)->TryRun_args[1] == last.name@);
                assert(closing(name)->TryRun_args[1] == name);
                assert(last.name@ == name);
            }
            if exists|k: int|
                {
                    &&& 0 <= k < volumes.len()
                    &&& (#[trigger] volumes[k]).name@ == name
                    &&& volumes[k].outside@.len() == 0
                    &&& volumes[k].disks.deep_view().len() > 0
                    &&& forall|j: int|
                        0 <= j < volumes[k].disks.deep_view().len() ==> targets.contains(
                            #[trigger] volumes[k].disks.deep_view()[j],
                        )
                } {
                let k = choose|k: int|
                    {
                        &&& 0 <= k < volumes.len()
                        &&& (#[trigger] volumes[k]).name@ == name
                        &&& volumes[k].outside@.len() == 0
                        &&& volumes[k].disks.deep_view().len() > 0
                        &&& forall|j: int|
                            0 <= j < volumes[k].disks.deep_view().len() ==> targets.contains(
                                #[trigger] volumes[k].disks.deep_view()[j],
                            )
                    };
                if k < init.len() {
                    assert(init[k] == volumes[k]);
                    assert(some.contains(closing(name)));
                } else {
                    assert(closable(last, targets));
                    assert(all.last() == closing(name));
                }
            }
        }
        assert forall|i: int| 0 <= i < all.len() implies exists|name: Text|
            #[trigger] all[i] == closing(name) by {
            if i < some.len() {
                assert(all[i] == some[i]);
            } else {
                assert(all[i] == closing(last.name@));
            }
        }
    }
}

/// Closing a mapping, without regard to failure.
pub open spec fn closing(name: Text) -> Act {
    Act::TryRun { program: "cryptsetup"@, args: seq!["close"@, name] }
}

/// Only swap of the installation is disabled: a file below its root, or a device on the
/// disks being cleaned up and on no other. All of it is.
pub proof fn own_swap_is_disabled(devices: Seq<Device>, targets: Seq<Text>, k: int)
    requires
        0 <= k < devices.len(),
    ensures
        ({
            let d = devices[k];
            let own = d.path@ == "/install"@ || text::begins(d.path@, "/install/"@)
                || d.disks.deep_view().len() > 0 && forall|j: int|
                0 <= j < d.disks.deep_view().len() ==> targets.contains(
                    #[trigger] d.disks.deep_view()[j],
                );
            &&& own ==> swap_steps(devices, targets).contains(
                Act::TryRun { program: "swapoff"@, args: seq![d.path@] },
            )
            &&& !own && (forall|i: int|
                0 <= i < devices.len() && i != k ==> (#[trigger] devices[i]).path@ != d.path@)
                ==> !swap_steps(devices, targets).contains(
                Act::TryRun { program: "swapoff"@, args: seq![d.path@] },
            )
        }),
    decreases devices.len(),
{
    let d = devices[k];
    reveal_strlit("/install");
    reveal_strlit("/install/");
    reveal_strlit("/");
    assert("/install"@ + "/"@ =~= "/install/"@);
    let init = devices.drop_last();
    let some = swap_steps(init, targets);
    let all = swap_steps(devices, targets);
    let act = Act::TryRun { program: "swapoff"@, args: seq![d.path@] };
    if k < init.len() {
        own_swap_is_disabled(init, targets, k);
        assert(init[k] == d);
        if some.contains(act) {
            let i = choose|i: int| 0 <= i < some.len() && some[i] == act;
            assert(all[i] == act);
        }
    } else if own_swap(d, targets) {
        assert(all.last() == act);
    }
    if !own_swap(d, targets) && (forall|i: int|
        0 <= i < devices.len() && i != k ==> (#[trigger] devices[i]).path@ != d.path@)
        && all.contains(act) {
        let i = choose|i: int| 0 <= i < all.len() && all[i] == act;
        host_swap_stays(devices, targets, i);
        let m = choose|m: int|
            #![trigger devices[m]]
            0 <= m < devices.len() && own_swap(devices[m], targets) && all[i] == (Act::TryRun {
                program: "swapoff"@,
                args: seq![devices[m].path@],
            });
        assert(all[i]->TryRun_args[0] == devices[m].path@);
        assert(act->TryRun_args[0] == d.path@);
        assert(devices[m].path@ == d.path@);
        assert(m == k);
    }
}

/// What is unmounted is the installation's root or lies below it.
pub proof fn only_the_installation_is_unmounted(mounts: Text, i: int)
    requires
        0 <= i < guards::deepest(install_points(mounts)).len(),
    ensures
        ({
            let p = guards::deepest(install_points(mounts))[i];
            p == "/install"@ || text::begins(p, "/install/"@)
        }),
{
    let points = install_points(mounts);
    let all = guards::deepest(points);
    reveal_strlit("/install");
    reveal_strlit("/install/");
    reveal_strlit("/");
    assert("/install"@ + "/"@ =~= "/install/"@);
    guards::every_point_is_unmounted(points);
    assert(all.contains(all[i]));
    assert(all.to_multiset().count(all[i]) > 0) by {
        broadcast use vstd::seq_lib::group_to_multiset_ensures;

    }
    assert(points.contains(all[i])) by {
        broadcast use vstd::seq_lib::group_to_multiset_ensures;

    }
    let j = choose|j: int| 0 <= j < points.len() && points[j] == all[i];
    lemma_points_are_under(text::lines_of(mounts), j);
}

proof fn lemma_points_are_under(lines: Seq<Text>, j: int)
    requires
        0 <= j < guards::chosen_points(lines, |p: Text| under(p, INSTALL_ROOT@)).len(),
    ensures
        under(guards::chosen_points(lines, |p: Text| under(p, INSTALL_ROOT@))[j], INSTALL_ROOT@),
    decreases lines.len(),
{
    let f = |p: Text| under(p, INSTALL_ROOT@);
    let init = lines.drop_last();
    let some = guards::chosen_points(init, f);
    if j < some.len() {
        lemma_points_are_under(init, j);
    }
}

/// Wiping takes the old signatures off the disk that was named and gives it an empty
/// partition table; no other disk is touched.
pub proof fn named_disk_is_wiped(device: Text)
    ensures
        ({
            let s = wipe_steps(device, false);
            &&& s.len() == 2
            &&& s[0] matches Act::Run { program, args } && program == "wipefs"@ && args.len() == 2
                && args.contains("-a"@) && args.last() == device
            &&& s[1] matches Act::Partition { device: d, script, otherwise } && d == device
                && text::lines_of(script) == seq!["label: gpt"@] && text::lines_of(otherwise)
                == seq!["g"@, "w"@]
        }),
{
    reveal_strlit("label: gpt\n");
    reveal_strlit("label: gpt");
    reveal_strlit("g\nw\n");
    reveal_strlit("g");
    reveal_strlit("w");
    let none = Seq::<char>::empty();
    text::lemma_line_added(none, "label: gpt"@);
    assert(none + "label: gpt"@ + seq!['\n'] =~= "label: gpt\n"@);
    assert(text::lines_of(none) =~= seq![]);
    assert(text::lines_of("label: gpt\n"@) =~= seq!["label: gpt"@]);
    text::lemma_line_added(none, "g"@);
    let first = none + "g"@ + seq!['\n'];
    text::lemma_line_added(first, "w"@);
    assert(first + "w"@ + seq!['\n'] =~= "g\nw\n"@);
    assert(text::lines_of("g\nw\n"@) =~= seq!["g"@, "w"@]);
    let s = wipe_steps(device, false);
    assert(s[0]->Run_args[0] == "-a"@);
}

/// With disks to act on, everything is unmounted first and closed then.
pub proof fn teardown_goes_from_the_top(target: Option<Text>, targets: Seq<Text>, wipe: bool)
    requires
        targets.len() > 0,
    ensures
        cleanup_parts(target, targets, wipe).len() >= 2,
        cleanup_parts(target, targets, wipe)[0] == Part::Unmount,
        cleanup_parts(target, targets, wipe)[1] == Part::Close,
        wipe && target is Some ==> cleanup_parts(target, targets, wipe).last() == Part::Wipe(
            target->0,
        ) && cleanup_parts(target, targets, wipe).len() == 3,
        !wipe || target is None ==> cleanup_parts(target, targets, wipe).len() == 2,
{
}

} // verus!
