//! What an installation has opened and must release again.
use vstd::prelude::*;

use crate::cleanup;
use crate::cleanup::is_under;
use crate::plan;
use crate::plan::{add_step, try_run, Act, Step};
use crate::text;
use crate::text::{chars_of, lines, push_text, same, slice_text, split_words, Text};

verus! {

/// Something that an installation opened.
#[derive(Debug, Clone, PartialEq, Eq)]
pub enum Resource {
    /// Everything that is mounted under this path.
    MountTree(String),
    /// An open LUKS container, by the name of its mapping.
    Luks(String),
    /// An active volume group, by its name.
    VolumeGroup(String),
}

/// A resource as the contracts speak of it.
pub enum Held {
    MountTree(Text),
    Luks(Text),
    VolumeGroup(Text),
}

impl View for Resource {
    type V = Held;

    open spec fn view(&self) -> Held {
        match *self {
            Resource::MountTree(p) => Held::MountTree(p@),
            Resource::Luks(n) => Held::Luks(n@),
            Resource::VolumeGroup(n) => Held::VolumeGroup(n@),
        }
    }
}

pub open spec fn held(v: Seq<Resource>) -> Seq<Held> {
    Seq::new(v.len(), |i: int| v[i]@)
}

/// The resources that are open, in the order in which they were opened.
pub struct ResourceStack {
    pub entries: Vec<Resource>,
    pub dry_run: bool,
    pub armed: bool,
}

fn same_resource(a: &Resource, b: &Resource) -> (r: bool)
    ensures
        r == (a@ == b@),
{
    match (a, b) {
        (Resource::MountTree(x), Resource::MountTree(y)) => same(x.as_str(), y.as_str()),
        (Resource::Luks(x), Resource::Luks(y)) => same(x.as_str(), y.as_str()),
        (Resource::VolumeGroup(x), Resource::VolumeGroup(y)) => same(x.as_str(), y.as_str()),
        _ => false,
    }
}

impl ResourceStack {
    /// What is tracked.
    pub open spec fn held(self) -> Seq<Held> {
        held(self.entries@)
    }

    /// Nothing is tracked twice.
    pub open spec fn well_formed(self) -> bool {
        self.held().no_duplicates()
    }

    pub fn new(dry_run: bool) -> (r: Self)
        ensures
            r.well_formed(),
            r.held() == Seq::<Held>::empty(),
            r.dry_run == dry_run,
            r.armed,
    {
        let r = ResourceStack { entries: Vec::new(), dry_run, armed: true };
        assert(r.held() =~= Seq::<Held>::empty());
        r
    }

    /// Tracks a resource. One that is tracked already stays where it is.
    pub fn register(&mut self, resource: Resource)
        requires
            old(self).well_formed(),
        ensures
            final(self).well_formed(),
            final(self).held() == if old(self).held().contains(resource@) {
                old(self).held()
            } else {
                old(self).held().push(resource@)
            },
            final(self).dry_run == old(self).dry_run,
            final(self).armed == old(self).armed,
    {
        let ghost before = self.held();
        let mut i: usize = 0;
        while i < self.entries.len()
            invariant
                *self == *old(self),
                self.well_formed(),
                before == self.held(),
                i <= self.entries@.len(),
                forall|j: int| 0 <= j < i ==> #[trigger] before[j] != resource@,
            decreases self.entries@.len() - i,
        {
            if same_resource(&self.entries[i], &resource) {
                assert(before[i as int] == resource@);
                return;
            }
            i += 1;
        }
        assert(!before.contains(resource@));
        self.entries.push(resource);
        assert(self.held() =~= before.push(resource@));
    }

    /// Tracks nothing any more.
    pub fn disarm(&mut self)
        ensures
            final(self).well_formed(),
            final(self).held() == Seq::<Held>::empty(),
            !final(self).armed,
            final(self).dry_run == old(self).dry_run,
    {
        self.armed = false;
        self.entries = Vec::new();
        assert(self.held() =~= Seq::<Held>::empty());
    }

    /// What is tracked, in the order in which it was opened.
    pub fn opened(&self) -> (r: &[Resource])
        ensures
            r@ == self.entries@,
    {
        self.entries.as_slice()
    }

    /// Gives out everything that is tracked, what was opened last first, and tracks
    /// it no more.
    pub fn release_all(&mut self) -> (r: Vec<Resource>)
        ensures
            held(r@) == old(self).held().reverse(),
            final(self).held() == Seq::<Held>::empty(),
            final(self).well_formed(),
            final(self).dry_run == old(self).dry_run,
            final(self).armed == old(self).armed,
    {
        let ghost all = self.entries@;
        let mut r: Vec<Resource> = Vec::new();
        while self.entries.len() > 0
            invariant
                all == old(self).entries@,
                self.dry_run == old(self).dry_run,
                self.armed == old(self).armed,
                self.entries@.len() <= all.len(),
                self.entries@ == all.take(self.entries@.len() as int),
                r@ == all.skip(self.entries@.len() as int).reverse(),
            decreases self.entries@.len(),
        {
            let ghost n = self.entries@.len() as int;
            if let Some(x) = self.entries.pop() {
                r.push(x);
                proof {
                    assert(self.entries@ =~= all.take(n - 1));
                    assert(r@ =~= all.skip(n - 1).reverse());
                }
            }
        }
        assert(all.skip(0) =~= all);
        assert(held(r@) =~= old(self).held().reverse());
        assert(self.held() =~= Seq::<Held>::empty());
        r
    }

    /// What an installation that ends without a word must still release: everything
    /// that is tracked, unless it was disarmed.
    pub fn abandon(&mut self) -> (r: Vec<Resource>)
        ensures
            held(r@) == if old(self).armed {
                old(self).held().reverse()
            } else {
                Seq::<Held>::empty()
            },
            old(self).armed ==> final(self).held() == Seq::<Held>::empty(),
            !old(self).armed ==> final(self).held() == old(self).held(),
    {
        if !self.armed {
            let r: Vec<Resource> = Vec::new();
            assert(held(r@) =~= Seq::<Held>::empty());
            return r;
        }
        self.release_all()
    }
}

// --------------------------------------------------------------------- mount points
/// How deep a path lies: how many slashes it has.
pub open spec fn depth(path: Text) -> nat
    decreases path.len(),
{
    if path.len() == 0 {
        0
    } else {
        depth(path.drop_last()) + if path.last() == '/' {
            1nat
        } else {
            0nat
        }
    }
}

fn depth_of(path: &str) -> (r: usize)
    ensures
        r == depth(path@),
{
    let chars = text::chars_of(path);
    let mut n: usize = 0;
    assert(path@.take(0) =~= seq![]);
    for i in 0..chars.len()
        invariant
            chars@ == path@,
            n <= i,
            n == depth(path@.take(i as int)),
    {
        assert(path@.take(i + 1).drop_last() =~= path@.take(i as int));
        assert(path@.take(i + 1).last() == path@[i as int]);
        if chars[i] == '/' {
            n += 1;
        }
    }
    assert(path@.take(chars@.len() as int) =~= path@);
    n
}

/// The second words of the lines that have one, where `f` holds of it.
pub open spec fn chosen_points(lines: Seq<Text>, f: spec_fn(Text) -> bool) -> Seq<Text>
    decreases lines.len(),
{
    if lines.len() == 0 {
        seq![]
    } else {
        let words = text::words_of(lines.last());
        let before = chosen_points(lines.drop_last(), f);
        if words.len() >= 2 && f(words[1]) {
            before.push(words[1])
        } else {
            before
        }
    }
}

/// A list with one more path, before those that lie no deeper.
pub open spec fn placed(path: Text, v: Seq<Text>) -> Seq<Text>
    decreases v.len(),
{
    if v.len() == 0 || depth(v[0]) <= depth(path) {
        seq![path] + v
    } else {
        seq![v[0]] + placed(path, v.drop_first())
    }
}

/// The paths with the deepest first; those that lie equally deep stay in their order.
pub open spec fn deepest(v: Seq<Text>) -> Seq<Text>
    decreases v.len(),
{
    if v.len() == 0 {
        seq![]
    } else {
        placed(v[0], deepest(v.drop_first()))
    }
}

proof fn lemma_placed_at(path: Text, v: Seq<Text>, k: int)
    requires
        0 <= k <= v.len(),
        forall|i: int| 0 <= i < k ==> depth(#[trigger] v[i]) > depth(path),
        k < v.len() ==> depth(v[k]) <= depth(path),
    ensures
        placed(path, v) == v.insert(k, path),
    decreases v.len(),
{
    if k == 0 {
        assert(seq![path] + v =~= v.insert(0, path));
    } else {
        let t = v.drop_first();
        assert forall|i: int| 0 <= i < k - 1 implies depth(#[trigger] t[i]) > depth(path) by {
            assert(t[i] == v[i + 1]);
        }
        lemma_placed_at(path, t, k - 1);
        assert(seq![v[0]] + t.insert(k - 1, path) =~= v.insert(k, path));
    }
}

/// Sorts paths, the deepest first.
pub fn deepest_first(paths: &Vec<String>) -> (r: Vec<String>)
    ensures
        r.deep_view() == deepest(paths.deep_view()),
{
    let ghost all = paths.deep_view();
    let mut r: Vec<String> = Vec::new();
    let mut i: usize = paths.len();
    assert(all.skip(all.len() as int) =~= seq![]);
    while i > 0
        invariant
            i <= paths@.len(),
            all == paths.deep_view(),
            r.deep_view() == deepest(all.skip(i as int)),
        decreases i,
    {
        i -= 1;
        let d: usize = depth_of(paths[i].as_str());
        let ghost before = r.deep_view();
        let mut k: usize = 0;
        while k < r.len() && depth_of(r[k].as_str()) > d
            invariant
                k <= r@.len(),
                before == r.deep_view(),
                forall|j: int| 0 <= j < k ==> depth(#[trigger] before[j]) > d,
            decreases r@.len() - k,
        {
            k += 1;
        }
        proof {
            assert(all[i as int] == paths@[i as int]@);
            assert(all.skip(i as int)[0] == all[i as int]);
            assert(all.skip(i as int).drop_first() =~= all.skip(i + 1));
            lemma_placed_at(all[i as int], before, k as int);
        }
        r.insert(k, paths[i].clone());
        assert(r.deep_view() =~= before.insert(k as int, all[i as int]));
    }
    assert(all.skip(0) =~= all);
    r
}

/// A path without the slashes at its end; nothing of the root of all.
pub open spec fn bare(path: Text) -> Text
    decreases path.len(),
{
    if path.len() > 0 && path.last() == '/' {
        bare(path.drop_last())
    } else {
        path
    }
}

fn without_slashes(path: &str) -> (r: String)
    ensures
        r@ == bare(path@),
{
    let v = chars_of(path);
    let mut n: usize = v.len();
    assert(v@.take(n as int) =~= path@);
    while n > 0 && v[n - 1] == '/'
        invariant
            n <= v@.len(),
            v@ == path@,
            bare(path@) == bare(v@.take(n as int)),
        decreases n,
    {
        assert(v@.take(n as int).drop_last() =~= v@.take(n - 1));
        n -= 1;
    }
    let r = slice_text(&v, 0, n);
    assert(r@ =~= v@.take(n as int));
    r
}

/// The mount points at `root` and below it, in the order of the table.
pub open spec fn tree_points(mounts: Text, root: Text) -> Seq<Text> {
    chosen_points(text::lines_of(mounts), |p: Text| cleanup::under(p, bare(root)))
}

/// What must be unmounted to release a tree: every mount point at its root or below it,
/// the deepest first. What merely begins alike is left alone.
pub fn release_mount_tree(mounts: &str, root: &str) -> (r: Vec<String>)
    ensures
        r.deep_view() == deepest(tree_points(mounts@, root@)),
{
    let base = without_slashes(root);
    let all = lines(mounts);
    let mut points: Vec<String> = Vec::new();
    let ghost f = |p: Text| cleanup::under(p, bare(root@));
    assert(all.deep_view().take(0) =~= seq![]);
    for i in 0..all.len()
        invariant
            base@ == bare(root@),
            f == (|p: Text| cleanup::under(p, bare(root@))),
            points.deep_view() == chosen_points(all.deep_view().take(i as int), f),
    {
        let ghost seen = all.deep_view().take(i + 1);
        assert(seen.drop_last() =~= all.deep_view().take(i as int));
        assert(seen.last() == all@[i as int]@);
        let words = split_words(all[i].as_str());
        if words.len() >= 2 && is_under(words[1].as_str(), base.as_str()) {
            let ghost before = points.deep_view();
            assert(words.deep_view()[1] == words@[1]@);
            push_text(&mut points, words[1].as_str());
            assert(points.deep_view() =~= before.push(words@[1]@));
        } else {
            assert(words@.len() >= 2 ==> words.deep_view()[1] == words@[1]@);
        }
    }
    assert(all.deep_view().take(all@.len() as int) =~= all.deep_view());
    deepest_first(&points)
}

/// Unmounting paths, one after the other.
pub open spec fn unmounting(points: Seq<Text>) -> Seq<Act> {
    Seq::new(points.len(), |i: int| Act::Unmount(points[i]))
}

pub fn unmount_each(points: &Vec<String>) -> (r: Vec<Step>)
    ensures
        plan::acts(r@) == unmounting(points.deep_view()),
{
    let mut r: Vec<Step> = Vec::new();
    for i in 0..points.len()
        invariant
            plan::acts(r@) == unmounting(points.deep_view()).take(i as int),
    {
        let ghost before = plan::acts(r@);
        add_step(&mut r, Step::Unmount(points[i].clone()));
        assert(points.deep_view()[i as int] == points@[i as int]@);
        assert(plan::acts(r@) =~= unmounting(points.deep_view()).take(i + 1));
    }
    assert(unmounting(points.deep_view()).take(points@.len() as int) =~= unmounting(
        points.deep_view(),
    ));
    r
}

/// What releases a resource, given what is mounted by then.
pub open spec fn release_steps(resource: Held, mounts: Text) -> Seq<Act> {
    match resource {
        Held::MountTree(root) => unmounting(deepest(tree_points(mounts, root))),
        Held::Luks(name) => seq![
            Act::TryRun { program: "cryptsetup"@, args: seq!["close"@, name] },
        ],
        Held::VolumeGroup(name) => seq![
            Act::TryRun { program: "vgchange"@, args: seq!["-an"@, name] },
        ],
    }
}

pub fn release(resource: &Resource, mounts: &str) -> (r: Vec<Step>)
    ensures
        plan::acts(r@) == release_steps(resource@, mounts@),
{
    match resource {
        Resource::MountTree(root) => unmount_each(&release_mount_tree(mounts, root.as_str())),
        Resource::Luks(name) => {
            let mut r: Vec<Step> = Vec::new();
            let args: Vec<String> = vec!["close".to_owned(), name.clone()];
            assert(args.deep_view() =~= seq!["close"@, name@]);
            try_run(&mut r, "cryptsetup", args);
            assert(plan::acts(r@) =~= release_steps(resource@, mounts@));
            r
        },
        Resource::VolumeGroup(name) => {
            let mut r: Vec<Step> = Vec::new();
            let args: Vec<String> = vec!["-an".to_owned(), name.clone()];
            assert(args.deep_view() =~= seq!["-an"@, name@]);
            try_run(&mut r, "vgchange", args);
            assert(plan::acts(r@) =~= release_steps(resource@, mounts@));
            r
        },
    }
}

// ---------------------------------------------------------------------------- laws
proof fn lemma_placed_members(path: Text, v: Seq<Text>)
    ensures
        placed(path, v).to_multiset() == v.to_multiset().insert(path),
    decreases v.len(),
{
    broadcast use vstd::seq_lib::group_to_multiset_ensures;

    if v.len() == 0 || depth(v[0]) <= depth(path) {
        assert(v.insert(0, path) =~= seq![path] + v);
        vstd::seq_lib::lemma_multiset_commutative(seq![path], v);
        assert(seq![path].to_multiset() =~= vstd::multiset::Multiset::empty().insert(path)) by {
            assert(seq![path] =~= Seq::<Text>::empty().push(path));
        }
        assert(placed(path, v).to_multiset() =~= v.to_multiset().insert(path));
    } else {
        lemma_placed_members(path, v.drop_first());
        vstd::seq_lib::lemma_multiset_commutative(seq![v[0]], placed(path, v.drop_first()));
        vstd::seq_lib::lemma_multiset_commutative(seq![v[0]], v.drop_first());
        assert(seq![v[0]] + v.drop_first() =~= v);
        assert(placed(path, v).to_multiset() =~= v.to_multiset().insert(path));
    }
}

/// Only what lies at the root or below it is unmounted.
pub proof fn other_trees_stay_mounted(mounts: Text, root: Text, i: int)
    requires
        0 <= i < release_steps(Held::MountTree(root), mounts).len(),
    ensures
        exists|p: Text| #[trigger]
            cleanup::under(p, bare(root)) && release_steps(Held::MountTree(root), mounts)[i]
                == Act::Unmount(p),
{
    let f = |p: Text| cleanup::under(p, bare(root));
    let points = tree_points(mounts, root);
    let sorted = deepest(points);
    every_point_is_unmounted(points);
    lemma_chosen(text::lines_of(mounts), f);
    broadcast use vstd::seq_lib::group_to_multiset_ensures;
    assert(sorted.contains(sorted[i]));
    assert(sorted.to_multiset().count(sorted[i]) > 0);
    assert(points.contains(sorted[i]));
    let k = choose|k: int| 0 <= k < points.len() && points[k] == sorted[i];
    assert(f(points[k]));
}

proof fn lemma_chosen(lines: Seq<Text>, f: spec_fn(Text) -> bool)
    ensures
        forall|k: int| 0 <= k < chosen_points(lines, f).len() ==> f(#[trigger] chosen_points(lines, f)[k]),
    decreases lines.len(),
{
    if lines.len() > 0 {
        lemma_chosen(lines.drop_last(), f);
        let before = chosen_points(lines.drop_last(), f);
        let all = chosen_points(lines, f);
        assert forall|k: int| 0 <= k < all.len() implies f(#[trigger] all[k]) by {
            if k < before.len() {
                assert(all[k] == before[k]);
            }
        }
    }
}

/// Sorting loses nothing and adds nothing.
pub proof fn every_point_is_unmounted(v: Seq<Text>)
    ensures
        deepest(v).to_multiset() == v.to_multiset(),
    decreases v.len(),
{
    broadcast use vstd::seq_lib::group_to_multiset_ensures;

    if v.len() > 0 {
        every_point_is_unmounted(v.drop_first());
        lemma_placed_members(v[0], deepest(v.drop_first()));
        vstd::seq_lib::lemma_multiset_commutative(seq![v[0]], v.drop_first());
        assert(seq![v[0]] + v.drop_first() =~= v);
        assert(seq![v[0]] =~= Seq::<Text>::empty().push(v[0]));
        assert(deepest(v).to_multiset() =~= v.to_multiset());
    }
}

spec fn no_deeper(v: Seq<Text>, b: nat) -> bool {
    forall|i: int| 0 <= i < v.len() ==> depth(#[trigger] v[i]) <= b
}

proof fn lemma_placed_ordered(path: Text, v: Seq<Text>)
    requires
        forall|i: int, j: int|
            0 <= i < j < v.len() ==> depth(#[trigger] v[i]) >= depth(#[trigger] v[j]),
    ensures
        ({
            let p = placed(path, v);
            &&& forall|i: int, j: int|
                0 <= i < j < p.len() ==> depth(#[trigger] p[i]) >= depth(#[trigger] p[j])
            &&& p.len() == v.len() + 1
            &&& forall|b: nat|
                depth(path) <= b && #[trigger] no_deeper(v, b) ==> no_deeper(p, b)
        }),
    decreases v.len(),
{
    let p = placed(path, v);
    if v.len() == 0 || depth(v[0]) <= depth(path) {
        assert forall|i: int, j: int| 0 <= i < j < p.len() implies depth(#[trigger] p[i]) >= depth(
            #[trigger] p[j],
        ) by {
            assert(p[j] == v[j - 1]);
            if i > 0 {
                assert(p[i] == v[i - 1]);
            } else if j > 1 {
                assert(depth(v[0]) >= depth(v[j - 1]));
            }
        }
    } else {
        let t = v.drop_first();
        assert forall|i: int, j: int| 0 <= i < j < t.len() implies depth(#[trigger] t[i]) >= depth(
            #[trigger] t[j],
        ) by {
            assert(t[i] == v[i + 1] && t[j] == v[j + 1]);
        }
        lemma_placed_ordered(path, t);
        let q = placed(path, t);
        assert forall|i: int| 0 <= i < t.len() implies depth(#[trigger] t[i]) <= depth(v[0]) by {
            assert(t[i] == v[i + 1]);
        }
        assert(no_deeper(t, depth(v[0])));
        assert forall|i: int, j: int| 0 <= i < j < p.len() implies depth(#[trigger] p[i]) >= depth(
            #[trigger] p[j],
        ) by {
            assert(p[j] == q[j - 1]);
            if i > 0 {
                assert(p[i] == q[i - 1]);
            }
        }
        assert forall|b: nat| depth(path) <= b && #[trigger] no_deeper(v, b) implies no_deeper(
            p,
            b,
        ) by {
            assert forall|i: int| 0 <= i < t.len() implies depth(#[trigger] t[i]) <= b by {
                assert(t[i] == v[i + 1]);
            }
            assert(no_deeper(t, b));
            assert forall|i: int| 0 <= i < p.len() implies depth(#[trigger] p[i]) <= b by {
                if i > 0 {
                    assert(p[i] == q[i - 1]);
                } else {
                    assert(p[0] == v[0]);
                }
            }
        }
    }
}

/// Nothing is unmounted before what is mounted deeper.
pub proof fn deeper_points_come_first(v: Seq<Text>)
    ensures
        forall|i: int, j: int|
            0 <= i < j < deepest(v).len() ==> depth(#[trigger] deepest(v)[i]) >= depth(
                #[trigger] deepest(v)[j],
            ),
    decreases v.len(),
{
    if v.len() > 0 {
        deeper_points_come_first(v.drop_first());
        lemma_placed_ordered(v[0], deepest(v.drop_first()));
    }
}

/// Tracking a resource again changes nothing.
pub proof fn registering_twice_is_registering_once(
    before: ResourceStack,
    once: ResourceStack,
    twice: ResourceStack,
    resource: Resource,
)
    requires
        once.held() == if before.held().contains(resource@) {
            before.held()
        } else {
            before.held().push(resource@)
        },
        twice.held() == if once.held().contains(resource@) {
            once.held()
        } else {
            once.held().push(resource@)
        },
    ensures
        twice.held() == once.held(),
        once.held().contains(resource@),
{
    if !before.held().contains(resource@) {
        assert(once.held()[before.held().len() as int] == resource@);
    }
}

/// What is released is what was held, in the way that is fit for it: a container is closed,
/// a group of volumes is put out of use, and of a tree everything at or below its root is
/// unmounted and nothing else is touched.
pub proof fn release_suits_what_is_held(resource: Held, mounts: Text)
    ensures
        ({
            let steps = release_steps(resource, mounts);
            match resource {
                Held::Luks(name) => steps.len() == 1 && (steps[0] matches Act::TryRun {
                    program,
                    args,
                } && program == "cryptsetup"@ && args.len() == 2 && args[0] == "close"@ && args[1]
                    == name),
                Held::VolumeGroup(name) => steps.len() == 1 && (steps[0] matches Act::TryRun {
                    program,
                    args,
                } && program == "vgchange"@ && args.len() == 2 && args.contains("-an"@)
                    && args.last() == name),
                Held::MountTree(root) => steps.len() == tree_points(mounts, root).len(),
            }
        }),
{
    match resource {
        Held::MountTree(root) => {
            every_point_is_unmounted(tree_points(mounts, root));
            let v = tree_points(mounts, root);
            assert(deepest(v).to_multiset().len() == v.to_multiset().len());
            assert(deepest(v).len() == deepest(v).to_multiset().len()) by {
                broadcast use vstd::seq_lib::group_to_multiset_ensures;

            }
            assert(v.len() == v.to_multiset().len()) by {
                broadcast use vstd::seq_lib::group_to_multiset_ensures;

            }
        },
        Held::VolumeGroup(name) => {
            assert(release_steps(resource, mounts)[0]->TryRun_args[0] == "-an"@);
        },
        Held::Luks(_) => {},
    }
}

} // verus!
