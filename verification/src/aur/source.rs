//! The AUR as a source of packages, and the source that asks the repositories first
//! and the AUR for what they do not have.
use vstd::prelude::*;

use crate::aur::rpc;
use crate::aur::rpc::{AurRpc, HttpGet, AUR_REPO, AUR_RPC_BASE};
use crate::error::Result;
use crate::pkgdeps::model;
use crate::pkgdeps::model::{InstallPlan, Package, PackageModel};
use crate::pkgdeps::source::MetadataSource;
use crate::plan;
use crate::text;
use crate::text::{comes_before, concat, copy_all, push_text, same, Text};

verus! {

/// What the AUR said of a name.
pub struct Known {
    pub name: String,
    /// The package, or that there is none.
    pub package: Option<Package>,
}

/// What a search for those who provide a name came to.
pub struct Told {
    pub name: String,
    /// The one that was chosen, or that there is none.
    pub provider: Option<String>,
}

/// The AUR as a source. It remembers every answer, also that there is no such
/// package and that nothing provides a name.
pub struct AurSource<H: HttpGet> {
    pub rpc: AurRpc<H>,
    pub cache: Vec<Known>,
    pub providers: Vec<Told>,
    /// What went wrong, so that a thin answer can be explained.
    pub errors: Vec<String>,
    /// How many requests left the machine.
    pub requests: usize,
}

/// The last package with this name.
pub open spec fn last_named(found: Seq<PackageModel>, name: Text) -> Option<PackageModel>
    decreases found.len(),
{
    if found.len() == 0 {
        None
    } else if found.last().name == name {
        Some(found.last())
    } else {
        last_named(found.drop_last(), name)
    }
}

/// What is remembered of a name from the entry `i` on.
pub open spec fn known_from(cache: Seq<Known>, name: Text, i: int) -> Option<Option<PackageModel>>
    decreases cache.len() - i,
{
    if i >= cache.len() {
        None
    } else if cache[i].name@ == name {
        Some(model::package_of(cache[i].package))
    } else {
        known_from(cache, name, i + 1)
    }
}

/// What is remembered of a name: nothing, that there is no such package, or the
/// package.
pub open spec fn known(cache: Seq<Known>, name: Text) -> Option<Option<PackageModel>> {
    known_from(cache, name, 0)
}

/// The names of which nothing is remembered.
pub open spec fn unknown(cache: Seq<Known>, names: Seq<Text>) -> Seq<Text>
    decreases names.len(),
{
    if names.len() == 0 {
        seq![]
    } else if known(cache, names.last()) is None {
        unknown(cache, names.drop_last()).push(names.last())
    } else {
        unknown(cache, names.drop_last())
    }
}

/// A package is remembered and nothing else changes.
pub open spec fn remembers(
    before: Seq<Known>,
    after: Seq<Known>,
    name: Text,
    package: Option<PackageModel>,
) -> bool {
    forall|n: Text| #[trigger]
        known(after, n) == if n == name {
            Some(package)
        } else {
            known(before, n)
        }
}

proof fn lemma_known_at(cache: Seq<Known>, name: Text, i: int, k: int)
    requires
        0 <= i <= k <= cache.len(),
        forall|j: int| i <= j < k ==> (#[trigger] cache[j]).name@ != name,
    ensures
        known_from(cache, name, i) == known_from(cache, name, k),
    decreases k - i,
{
    if i < k {
        lemma_known_at(cache, name, i + 1, k);
    }
}

/// Where a name stands among what is remembered, or the number of entries.
fn entry_of(cache: &Vec<Known>, name: &str) -> (r: usize)
    ensures
        r <= cache@.len(),
        r < cache@.len() ==> cache@[r as int].name@ == name@,
        forall|j: int| 0 <= j < r ==> (#[trigger] cache@[j]).name@ != name@,
        known(cache@, name@) == known_from(cache@, name@, r as int),
{
    let mut i: usize = 0;
    while i < cache.len()
        invariant
            i <= cache@.len(),
            forall|j: int| 0 <= j < i ==> (#[trigger] cache@[j]).name@ != name@,
        decreases cache@.len() - i,
    {
        if same(cache[i].name.as_str(), name) {
            proof {
                lemma_known_at(cache@, name@, 0, i as int);
            }
            return i;
        }
        i += 1;
    }
    proof {
        lemma_known_at(cache@, name@, 0, i as int);
    }
    i
}

proof fn lemma_known_push(cache: Seq<Known>, e: Known, n: Text, i: int)
    requires
        0 <= i <= cache.len(),
    ensures
        known_from(cache.push(e), n, i) == match known_from(cache, n, i) {
            Some(p) => Some(p),
            None => if e.name@ == n {
                Some(model::package_of(e.package))
            } else {
                None
            },
        },
    decreases cache.len() - i,
{
    let c = cache.push(e);
    if i < cache.len() {
        assert(c[i] == cache[i]);
        lemma_known_push(cache, e, n, i + 1);
    } else {
        assert(c[i] == e);
        assert(known_from(c, n, i + 1) is None);
    }
}

proof fn lemma_known_update(cache: Seq<Known>, k: int, e: Known, n: Text, i: int)
    requires
        0 <= i <= cache.len(),
        0 <= k < cache.len(),
        cache[k].name@ == e.name@,
        forall|j: int| 0 <= j < k ==> (#[trigger] cache[j]).name@ != e.name@,
    ensures
        known_from(cache.update(k, e), n, i) == if n == e.name@ && i <= k {
            Some(model::package_of(e.package))
        } else {
            known_from(cache, n, i)
        },
    decreases cache.len() - i,
{
    let c = cache.update(k, e);
    if i < cache.len() {
        lemma_known_update(cache, k, e, n, i + 1);
        if i == k {
            assert(c[i] == e);
        } else {
            assert(c[i] == cache[i]);
        }
    }
}

/// Remembers what there is of a name.
fn remember(cache: &mut Vec<Known>, name: &str, package: Option<Package>)
    ensures
        remembers(old(cache)@, final(cache)@, name@, model::package_of(package)),
{
    let ghost before = cache@;
    let i: usize = entry_of(cache, name);
    let e = Known { name: name.to_owned(), package };
    if i < cache.len() {
        proof {
            assert forall|n: Text| #[trigger]
                known(before.update(i as int, e), n) == if n == name@ {
                    Some(model::package_of(package))
                } else {
                    known(before, n)
                } by {
                lemma_known_update(before, i as int, e, n, 0);
            }
        }
        cache.set(i, e);
        assert(cache@ =~= before.update(i as int, e));
    } else {
        proof {
            assert forall|n: Text| #[trigger]
                known(before.push(e), n) == if n == name@ {
                    Some(model::package_of(package))
                } else {
                    known(before, n)
                } by {
                lemma_known_push(before, e, n, 0);
            }
        }
        cache.push(e);
    }
}

fn copy_package(p: &Option<Package>) -> (r: Option<Package>)
    ensures
        model::package_of(r) == model::package_of(*p),
{
    match p {
        Some(p) => Some(p.copy()),
        None => None,
    }
}

/// The errors with one more.
pub open spec fn noted(before: Seq<Text>, after: Seq<Text>, e: Text) -> bool {
    after == before.push(e)
}

/// The first of the names by alphabet: what a list of packages sorted by name starts
/// with.
pub open spec fn is_first_name(found: Seq<Package>, r: Option<String>) -> bool {
    match r {
        None => found.len() == 0,
        Some(n) => {
            &&& exists|i: int| 0 <= i < found.len() && (#[trigger] found[i]).name@ == n@
            &&& forall|i: int|
                0 <= i < found.len() ==> !text::precedes((#[trigger] found[i]).name@, n@)
        },
    }
}

fn first_name(found: &Vec<Package>) -> (r: Option<String>)
    ensures
        is_first_name(found@, r),
{
    if found.len() == 0 {
        return None;
    }
    let mut best: usize = 0;
    let mut i: usize = 1;
    proof {
        text::lemma_precedes_total(found@[0].name@, found@[0].name@);
    }
    while i < found.len()
        invariant
            best < i <= found@.len(),
            forall|j: int|
                0 <= j < i ==> !text::precedes(
                    (#[trigger] found@[j]).name@,
                    found@[best as int].name@,
                ),
        decreases found@.len() - i,
    {
        if comes_before(found[i].name.as_str(), found[best].name.as_str()) {
            let ghost b = found@[best as int].name@;
            let ghost c = found@[i as int].name@;
            proof {
                assert forall|j: int| 0 <= j < i + 1 implies !text::precedes(
                    (#[trigger] found@[j]).name@,
                    c,
                ) by {
                    let a = found@[j].name@;
                    text::lemma_precedes_total(c, c);
                    if text::precedes(a, c) {
                        text::lemma_precedes_transitive(a, c, b);
                    }
                }
            }
            best = i;
        }
        i += 1;
    }
    Some(found[best].name.clone())
}

/// What is remembered from the entry `i` on of those who provide a name.
pub open spec fn told_from(list: Seq<Told>, name: Text, i: int) -> Option<Option<Text>>
    decreases list.len() - i,
{
    if i >= list.len() {
        None
    } else if list[i].name@ == name {
        Some(plan::seen(list[i].provider))
    } else {
        told_from(list, name, i + 1)
    }
}

/// What is remembered of those who provide a name: nothing, that there is none, or the
/// one that was chosen.
pub open spec fn told(list: Seq<Told>, name: Text) -> Option<Option<Text>> {
    told_from(list, name, 0)
}

/// Who provides the name is remembered and nothing else changes.
pub open spec fn tells(
    before: Seq<Told>,
    after: Seq<Told>,
    name: Text,
    provider: Option<Text>,
) -> bool {
    forall|n: Text| #[trigger]
        told(after, n) == if n == name {
            Some(provider)
        } else {
            told(before, n)
        }
}

/// What was chosen for a name, where that is remembered.
fn tell(list: &Vec<Told>, name: &str) -> (r: Option<Option<String>>)
    ensures
        match r {
            Some(p) => told(list@, name@) == Some(plan::seen(p)),
            None => told(list@, name@) is None,
        },
{
    let mut i: usize = 0;
    while i < list.len()
        invariant
            i <= list@.len(),
            told(list@, name@) == told_from(list@, name@, i as int),
        decreases list@.len() - i,
    {
        if same(list[i].name.as_str(), name) {
            return Some(copy_name(&list[i].provider));
        }
        i += 1;
    }
    None
}

fn copy_name(p: &Option<String>) -> (r: Option<String>)
    ensures
        plan::seen(r) == plan::seen(*p),
{
    match p {
        Some(n) => Some(n.as_str().to_owned()),
        None => None,
    }
}

proof fn lemma_told_push(list: Seq<Told>, e: Told, n: Text, i: int)
    requires
        0 <= i <= list.len(),
    ensures
        told_from(list.push(e), n, i) == match told_from(list, n, i) {
            Some(p) => Some(p),
            None => if e.name@ == n {
                Some(plan::seen(e.provider))
            } else {
                None
            },
        },
    decreases list.len() - i,
{
    let l = list.push(e);
    if i < list.len() {
        assert(l[i] == list[i]);
        lemma_told_push(list, e, n, i + 1);
    } else {
        assert(l[i] == e);
        assert(told_from(l, n, i + 1) is None);
    }
}

/// Remembers who provides a name of which nothing was known.
fn note_provider(list: &mut Vec<Told>, name: &str, provider: Option<String>)
    requires
        told(old(list)@, name@) is None,
    ensures
        tells(old(list)@, final(list)@, name@, plan::seen(provider)),
{
    let ghost before = list@;
    let e = Told { name: name.to_owned(), provider };
    proof {
        assert forall|n: Text| #[trigger]
            told(before.push(e), n) == if n == name@ {
                Some(plan::seen(provider))
            } else {
                told(before, n)
            } by {
            lemma_told_push(before, e, n, 0);
        }
    }
    list.push(e);
}

/// How many requests it takes to ask for a name.
pub open spec fn cost(name: Text) -> nat {
    if rpc::valid_name(name) {
        1
    } else {
        0
    }
}

impl<H: HttpGet> AurSource<H> {
    pub fn new(http: H) -> (r: Self)
        ensures
            r.rpc.http == http,
            r.rpc.base@ == AUR_RPC_BASE@,
            r.cache@.len() == 0,
            r.providers@.len() == 0,
            r.errors@.len() == 0,
            r.requests == 0,
    {
        AurSource {
            rpc: AurRpc::new(http),
            cache: Vec::new(),
            providers: Vec::new(),
            errors: Vec::new(),
            requests: 0,
        }
    }

    /// How many requests left the machine.
    pub fn rpc_calls(&self) -> (r: usize)
        ensures
            r == self.requests,
    {
        self.requests
    }

    fn count_requests(&mut self, sent: usize)
        requires
            old(self).requests + sent <= usize::MAX,
        ensures
            final(self).rpc == old(self).rpc,
            final(self).cache == old(self).cache,
            final(self).providers == old(self).providers,
            final(self).errors == old(self).errors,
            final(self).requests == old(self).requests + sent,
    {
        self.requests = self.requests + sent;
    }

    /// What went wrong so far.
    pub fn errors(&self) -> (r: Vec<String>)
        ensures
            r.deep_view() == self.errors.deep_view(),
    {
        copy_all(&self.errors)
    }

    /// What is remembered of a name.
    fn cached(&self, name: &str) -> (r: Option<Option<Package>>)
        ensures
            match r {
                Some(p) => known(self.cache@, name@) == Some(model::package_of(p)),
                None => known(self.cache@, name@) is None,
            },
    {
        let i: usize = entry_of(&self.cache, name);
        if i < self.cache.len() {
            Some(copy_package(&self.cache[i].package))
        } else {
            None
        }
    }

    /// What asking for all unknown names at once may do: nothing where there is none,
    /// and otherwise one lookup, after which each of them is remembered, also that it
    /// is not there. A lookup that fails is noted and nothing is remembered. Every
    /// request of the lookup counts.
    pub open spec fn prefetch_may_give(self, after: Self, names: Seq<Text>) -> bool {
        let asked = unknown(self.cache@, names);
        if asked.len() == 0 {
            after == self
        } else {
            &&& after.providers == self.providers
            &&& exists|sent: nat, looked: Result<Vec<Package>>| #[trigger]
                self.rpc.info_may_take(after.rpc, asked, sent, looked) && after.requests
                    == self.requests + sent && match looked {
                    Ok(v) => {
                        &&& after.errors == self.errors
                        &&& forall|n: Text| #[trigger]
                            known(after.cache@, n) == known_after(
                                self.cache@,
                                asked,
                                model::packages_of(v@),
                                n,
                            )
                    },
                    Err(e) => {
                        &&& after.cache == self.cache
                        &&& noted(self.errors.deep_view(), after.errors.deep_view(), e.text())
                    },
                }
        }
    }

    /// What listing those who provide a name may do.
    pub open spec fn search_may_give(
        self,
        after: Self,
        name: Text,
        r: Result<Option<String>>,
    ) -> bool {
        &&& after.cache == self.cache
        &&& after.requests == self.requests + cost(name)
        &&& r is Ok
        &&& tells(self.providers@, after.providers@, name, plan::seen(r->Ok_0))
        &&& exists|found: Result<Vec<Package>>| #[trigger]
            self.rpc.providers_may_be(after.rpc, name, found) && match found {
                Ok(v) => {
                    &&& after.errors == self.errors
                    &&& is_first_name(v@, r->Ok_0)
                },
                Err(e) => {
                    &&& r->Ok_0 is None
                    &&& noted(self.errors.deep_view(), after.errors.deep_view(), e.text())
                },
            }
    }

    /// Asks for several packages in one lookup, so that asking for each of them later
    /// costs nothing.
    pub fn prefetch(&mut self, names: &[&str])
        requires
            old(self).requests + names@.len() <= usize::MAX,
        ensures
            old(self).prefetch_may_give(*final(self), rpc::texts(names@)),
    {
        let ghost before = *self;
        let asked = keep_unknown(&self.cache, names);
        if asked.len() == 0 {
            return;
        }
        let (sent, looked) = self.rpc.info_counted(asked.as_slice());
        let ghost rpc_after = self.rpc;
        proof {
            lemma_unknown_count(before.cache@, rpc::texts(names@));
        }
        self.count_requests(sent);
        assert(before.rpc.info_may_take(self.rpc, rpc::texts(asked@), sent as nat, looked));
        match looked {
            Ok(found) => {
                let ghost packages = model::packages_of(found@);
                let mut i: usize = 0;
                while i < found.len()
                    invariant
                        i <= found@.len(),
                        packages == model::packages_of(found@),
                        self.rpc == rpc_after,
                        self.providers == before.providers,
                        self.errors == before.errors,
                        self.requests == before.requests + sent,
                        forall|n: Text| #[trigger]
                            known(self.cache@, n) == known_after(
                                before.cache@,
                                seq![],
                                packages.take(i as int),
                                n,
                            ),
                    decreases found@.len() - i,
                {
                    let ghost mid = self.cache@;
                    remember(&mut self.cache, found[i].name.as_str(), Some(found[i].copy()));
                    proof {
                        let taken = packages.take(i + 1);
                        assert(taken.drop_last() =~= packages.take(i as int));
                        assert(taken.last() == found@[i as int]@);
                        assert forall|n: Text| #[trigger]
                            known(self.cache@, n) == known_after(
                                before.cache@,
                                seq![],
                                taken,
                                n,
                            ) by {
                            assert(known(mid, n) == known_after(
                                before.cache@,
                                seq![],
                                packages.take(i as int),
                                n,
                            ));
                        }
                    }
                    i += 1;
                }
                assert(packages.take(found@.len() as int) =~= packages);
                let ghost names_asked = rpc::texts(asked@);
                assert(names_asked.take(0) =~= seq![]);
                let mut k: usize = 0;
                while k < asked.len()
                    invariant
                        k <= asked@.len(),
                        names_asked == rpc::texts(asked@),
                        self.rpc == rpc_after,
                        self.providers == before.providers,
                        self.errors == before.errors,
                        self.requests == before.requests + sent,
                        forall|n: Text| #[trigger]
                            known(self.cache@, n) == known_after(
                                before.cache@,
                                names_asked.take(k as int),
                                packages,
                                n,
                            ),
                    decreases asked@.len() - k,
                {
                    let ghost mid = self.cache@;
                    let ghost taken = names_asked.take(k as int);
                    let ghost more = names_asked.take(k + 1);
                    let name = asked[k];
                    proof {
                        assert(more =~= taken.push(name@));
                    }
                    let j: usize = entry_of(&self.cache, name);
                    if j == self.cache.len() {
                        remember(&mut self.cache, name, None);
                    }
                    proof {
                        assert forall|n: Text| #[trigger]
                            known(self.cache@, n) == known_after(
                                before.cache@,
                                more,
                                packages,
                                n,
                            ) by {
                            assert(known(mid, n) == known_after(before.cache@, taken, packages, n));
                            assert(more.contains(n) <==> taken.contains(n) || n == name@) by {
                                if taken.contains(n) {
                                    let q = choose|q: int| 0 <= q < taken.len() && taken[q] == n;
                                    assert(more[q] == n);
                                }
                                if n == name@ {
                                    assert(more[k as int] == n);
                                }
                            }
                        }
                    }
                    k += 1;
                }
                assert(names_asked.take(asked@.len() as int) =~= names_asked);
                assert(before.rpc.info_may_take(self.rpc, names_asked, sent as nat, looked));
            },
            Err(e) => {
                let why = e.to_text();
                let ghost old_errors = self.errors.deep_view();
                self.errors.push(why);
                assert(self.errors.deep_view() =~= old_errors.push(why@));
                assert(before.rpc.info_may_take(
                    self.rpc,
                    unknown(before.cache@, rpc::texts(names@)),
                    sent as nat,
                    looked,
                ));
            },
        }
    }
}

/// What is remembered of `n` once `found` came back for `asked`.
pub open spec fn known_after(
    before: Seq<Known>,
    asked: Seq<Text>,
    found: Seq<PackageModel>,
    n: Text,
) -> Option<Option<PackageModel>> {
    match last_named(found, n) {
        Some(p) => Some(Some(p)),
        None => match known(before, n) {
            Some(p) => Some(p),
            None => if asked.contains(n) {
                Some(None)
            } else {
                None
            },
        },
    }
}

proof fn lemma_unknown_count(cache: Seq<Known>, names: Seq<Text>)
    ensures
        unknown(cache, names).len() <= names.len(),
    decreases names.len(),
{
    if names.len() > 0 {
        lemma_unknown_count(cache, names.drop_last());
    }
}

fn keep_unknown<'a>(cache: &Vec<Known>, names: &[&'a str]) -> (r: Vec<&'a str>)
    ensures
        rpc::texts(r@) == unknown(cache@, rpc::texts(names@)),
{
    let mut r: Vec<&'a str> = Vec::new();
    let ghost all = rpc::texts(names@);
    assert(all.take(0) =~= seq![]);
    assert(rpc::texts(r@) =~= seq![]);
    for i in 0..names.len()
        invariant
            all == rpc::texts(names@),
            rpc::texts(r@) == unknown(cache@, all.take(i as int)),
    {
        proof {
            assert(all.take(i + 1).drop_last() =~= all.take(i as int));
            assert(all.take(i + 1).last() == names@[i as int]@);
        }
        let name = names[i];
        let j: usize = entry_of(cache, name);
        if j == cache.len() {
            let ghost before = rpc::texts(r@);
            r.push(name);
            assert(rpc::texts(r@) =~= before.push(name@));
        }
    }
    assert(all.take(names@.len() as int) =~= all);
    r
}

pub const NOT_PLANNED: &'static str =
    "AUR packages are built, not installed from a repository, so pacman cannot pre-plan the transaction.";

pub open spec fn incomplete(errors: Seq<Text>) -> Seq<Text> {
    Seq::new(errors.len(), |i: int| "AUR metadata may be incomplete: "@ + errors[i])
}

impl<H: HttpGet> MetadataSource for AurSource<H> {
    open spec fn ready(&self) -> bool {
        self.requests + 2 <= usize::MAX
    }

    /// What is remembered is given and nothing changes. Otherwise one lookup gives the
    /// package, or none where it fails, which is noted; either way it is remembered. It
    /// takes one request, and none where the name cannot be a package.
    open spec fn package_may_give(
        &self,
        after: &Self,
        name: Text,
        r: Result<Option<Package>>,
    ) -> bool {
        match known(self.cache@, name) {
            Some(p) => {
                &&& *after == *self
                &&& r matches Ok(q) && model::package_of(q) == p
            },
            None => {
                &&& after.providers == self.providers
                &&& after.requests == self.requests + cost(name)
                &&& r is Ok
                &&& remembers(self.cache@, after.cache@, name, model::package_of(r->Ok_0))
                &&& exists|looked: Result<Vec<Package>>| #[trigger]
                    self.rpc.info_may_take(after.rpc, seq![name], cost(name), looked)
                        && match looked {
                        Ok(v) => {
                            &&& after.errors == self.errors
                            &&& model::package_of(r->Ok_0) == if v@.len() == 0 {
                                None
                            } else {
                                Some(v@.last()@)
                            }
                        },
                        Err(e) => {
                            &&& r->Ok_0 is None
                            &&& noted(self.errors.deep_view(), after.errors.deep_view(), e.text())
                        },
                    }
            },
        }
    }

    /// A package with this name provides it. Otherwise it is what is remembered. Otherwise
    /// it is the first by alphabet of those that the AUR lists, or none where listing them
    /// fails, which is noted; either way it is remembered. Listing them takes one request,
    /// and none where the name cannot be a package.
    open spec fn provider_may_be(
        &self,
        after: &Self,
        name: Text,
        r: Result<Option<String>>,
    ) -> bool {
        exists|mid: Self, named: Result<Option<Package>>| #[trigger]
            self.package_may_give(&mid, name, named) && match named {
                Ok(Some(p)) => {
                    &&& *after == mid
                    &&& r matches Ok(Some(n)) && n@ == p.name@
                },
                _ => match told(mid.providers@, name) {
                    Some(p) => {
                        &&& *after == mid
                        &&& r matches Ok(n) && plan::seen(n) == p
                    },
                    None => mid.search_may_give(*after, name, r),
                },
            }
    }

    open spec fn required_by_may_give(&self, name: Text, r: Result<Vec<String>>) -> bool {
        r matches Ok(v) && v@.len() == 0
    }

    open spec fn optional_for_may_give(&self, name: Text, r: Result<Vec<String>>) -> bool {
        r matches Ok(v) && v@.len() == 0
    }

    open spec fn is_installed_may_give(&self, name: Text, r: Result<bool>) -> bool {
        r matches Ok(b) && !b
    }

    open spec fn databases_may_be(&self, r: Seq<Text>) -> bool {
        r == seq![AUR_REPO@]
    }

    open spec fn warnings_may_be(&self, r: Seq<Text>) -> bool {
        r == incomplete(self.errors.deep_view())
    }

    open spec fn plan_may_be(
        &self,
        targets: Seq<&str>,
        clean_root: bool,
        r: Result<InstallPlan>,
    ) -> bool {
        r matches Ok(p) && p.targets.deep_view() == rpc::texts(targets) && p.clean_root == clean_root
            && p.warnings.deep_view() == seq![NOT_PLANNED@]
    }

    fn package(&mut self, name: &str) -> (r: Result<Option<Package>>) {
        let ghost before = *self;
        if let Some(hit) = self.cached(name) {
            return Ok(hit);
        }
        let one: Vec<&str> = vec![name];
        let (sent, looked) = self.rpc.info_counted(one.as_slice());
        assert(rpc::texts(one@) =~= seq![name@]);
        proof {
            before.rpc.lemma_one_name(self.rpc, name@, sent as nat, looked);
        }
        self.count_requests(sent);
        let ghost asked = self.rpc;
        assert(before.rpc.info_may_take(asked, seq![name@], cost(name@), looked));
        let found: Option<Package> = match looked {
            Ok(mut results) => results.pop(),
            Err(e) => {
                let why = e.to_text();
                let ghost old_errors = self.errors.deep_view();
                self.errors.push(why);
                assert(self.errors.deep_view() =~= old_errors.push(why@));
                None
            },
        };
        remember(&mut self.cache, name, copy_package(&found));
        assert(self.rpc == asked);
        Ok(found)
    }

    fn provider_of(&mut self, virtual_name: &str) -> (r: Result<Option<String>>) {
        let ghost before = *self;
        let named = self.package(virtual_name);
        let ghost mid = *self;
        assert(before.package_may_give(&mid, virtual_name@, named));
        match named {
            Ok(Some(p)) => Ok(Some(p.name)),
            _ => {
                if let Some(p) = tell(&self.providers, virtual_name) {
                    return Ok(p);
                }
                let found = self.rpc.providers_of(virtual_name);
                let ghost asked = self.rpc;
                assert(mid.rpc.providers_may_be(asked, virtual_name@, found));
                if rpc::is_valid_package_name(virtual_name) {
                    self.count_requests(1);
                }
                let chosen: Option<String> = match found {
                    Ok(v) => first_name(&v),
                    Err(e) => {
                        let why = e.to_text();
                        let ghost old_errors = self.errors.deep_view();
                        self.errors.push(why);
                        assert(self.errors.deep_view() =~= old_errors.push(why@));
                        None
                    },
                };
                note_provider(&mut self.providers, virtual_name, copy_name(&chosen));
                assert(self.rpc == asked);
                assert(mid.search_may_give(*self, virtual_name@, Ok(chosen)));
                Ok(chosen)
            },
        }
    }

    fn required_by(&self, name: &str) -> (r: Result<Vec<String>>) {
        Ok(Vec::new())
    }

    fn optional_for(&self, name: &str) -> (r: Result<Vec<String>>) {
        Ok(Vec::new())
    }

    fn is_installed(&self, name: &str) -> (r: Result<bool>) {
        Ok(false)
    }

    fn databases(&self) -> (r: Vec<String>) {
        let mut r: Vec<String> = Vec::new();
        push_text(&mut r, AUR_REPO);
        assert(r.deep_view() =~= seq![AUR_REPO@]);
        r
    }

    fn staleness_warnings(&self) -> (r: Vec<String>) {
        let mut r: Vec<String> = Vec::new();
        let ghost want = incomplete(self.errors.deep_view());
        for i in 0..self.errors.len()
            invariant
                want == incomplete(self.errors.deep_view()),
                r.deep_view() == want.take(i as int),
        {
            let w = concat("AUR metadata may be incomplete: ", self.errors[i].as_str());
            let ghost before = r.deep_view();
            r.push(w);
            assert(r.deep_view() =~= before.push(w@));
            assert(self.errors.deep_view()[i as int] == self.errors@[i as int]@);
            assert(r.deep_view() =~= want.take(i + 1));
        }
        assert(want.take(self.errors@.len() as int) =~= want);
        r
    }

    fn install_plan(&self, targets: &[&str], clean_root: bool) -> (r: Result<InstallPlan>) {
        let mut named: Vec<String> = Vec::new();
        let ghost want = rpc::texts(targets@);
        for i in 0..targets.len()
            invariant
                want == rpc::texts(targets@),
                named.deep_view() == want.take(i as int),
        {
            let ghost before = named.deep_view();
            push_text(&mut named, targets[i]);
            assert(named.deep_view() =~= before.push(targets@[i as int]@));
            assert(named.deep_view() =~= want.take(i + 1));
        }
        assert(want.take(targets@.len() as int) =~= want);
        let mut warnings: Vec<String> = Vec::new();
        push_text(&mut warnings, NOT_PLANNED);
        assert(warnings.deep_view() =~= seq![NOT_PLANNED@]);
        Ok(InstallPlan { targets: named, clean_root, warnings })
    }
}

// --------------------------------------------------------------------- both sources
/// Repositories first, and a second source for what they do not have.
pub struct CompositeSource<P: MetadataSource, A: MetadataSource> {
    pub primary: P,
    pub fallback: A,
}

impl<P: MetadataSource, A: MetadataSource> CompositeSource<P, A> {
    pub fn new(primary: P, fallback: A) -> (r: Self)
        ensures
            r.primary == primary,
            r.fallback == fallback,
    {
        CompositeSource { primary, fallback }
    }

    pub fn primary(&self) -> (r: &P)
        ensures
            *r == self.primary,
    {
        &self.primary
    }

    pub fn fallback(&self) -> (r: &A)
        ensures
            *r == self.fallback,
    {
        &self.fallback
    }
}

impl<P: MetadataSource, A: MetadataSource> MetadataSource for CompositeSource<P, A> {
    open spec fn ready(&self) -> bool {
        self.primary.ready() && self.fallback.ready()
    }

    /// The second source is asked only where the first gave no package, also where it
    /// failed.
    open spec fn package_may_give(
        &self,
        after: &Self,
        name: Text,
        r: Result<Option<Package>>,
    ) -> bool {
        exists|first: Result<Option<Package>>| #[trigger]
            self.primary.package_may_give(&after.primary, name, first) && if first matches Ok(
                Some(_),
            ) {
                r == first && after.fallback == self.fallback
            } else {
                self.fallback.package_may_give(&after.fallback, name, r)
            }
    }

    open spec fn provider_may_be(
        &self,
        after: &Self,
        name: Text,
        r: Result<Option<String>>,
    ) -> bool {
        exists|first: Result<Option<String>>| #[trigger]
            self.primary.provider_may_be(&after.primary, name, first) && if first matches Ok(
                Some(_),
            ) {
                r == first && after.fallback == self.fallback
            } else {
                self.fallback.provider_may_be(&after.fallback, name, r)
            }
    }

    open spec fn required_by_may_give(&self, name: Text, r: Result<Vec<String>>) -> bool {
        self.primary.required_by_may_give(name, r)
    }

    open spec fn optional_for_may_give(&self, name: Text, r: Result<Vec<String>>) -> bool {
        self.primary.optional_for_may_give(name, r)
    }

    open spec fn is_installed_may_give(&self, name: Text, r: Result<bool>) -> bool {
        self.primary.is_installed_may_give(name, r)
    }

    open spec fn databases_may_be(&self, r: Seq<Text>) -> bool {
        exists|a: Seq<Text>, b: Seq<Text>| #[trigger]
            self.primary.databases_may_be(a) && #[trigger] self.fallback.databases_may_be(b) && r
                == a + b
    }

    open spec fn warnings_may_be(&self, r: Seq<Text>) -> bool {
        exists|a: Seq<Text>, b: Seq<Text>| #[trigger]
            self.primary.warnings_may_be(a) && #[trigger] self.fallback.warnings_may_be(b) && r == a
                + b
    }

    open spec fn plan_may_be(
        &self,
        targets: Seq<&str>,
        clean_root: bool,
        r: Result<InstallPlan>,
    ) -> bool {
        self.primary.plan_may_be(targets, clean_root, r)
    }

    fn package(&mut self, name: &str) -> (r: Result<Option<Package>>) {
        let ghost before = *self;
        let first = self.primary.package(name);
        assert(before.primary.package_may_give(&self.primary, name@, first));
        if let Ok(Some(_)) = &first {
            return first;
        }
        let ghost mid = *self;
        let r = self.fallback.package(name);
        assert(self.primary == mid.primary);
        assert(before.fallback.package_may_give(&self.fallback, name@, r));
        r
    }

    fn provider_of(&mut self, virtual_name: &str) -> (r: Result<Option<String>>) {
        let ghost before = *self;
        let first = self.primary.provider_of(virtual_name);
        assert(before.primary.provider_may_be(&self.primary, virtual_name@, first));
        if let Ok(Some(_)) = &first {
            return first;
        }
        let ghost mid = *self;
        let r = self.fallback.provider_of(virtual_name);
        assert(self.primary == mid.primary);
        assert(before.fallback.provider_may_be(&self.fallback, virtual_name@, r));
        r
    }

    fn required_by(&self, name: &str) -> (r: Result<Vec<String>>) {
        self.primary.required_by(name)
    }

    fn optional_for(&self, name: &str) -> (r: Result<Vec<String>>) {
        self.primary.optional_for(name)
    }

    fn is_installed(&self, name: &str) -> (r: Result<bool>) {
        self.primary.is_installed(name)
    }

    fn databases(&self) -> (r: Vec<String>) {
        let mut r = self.primary.databases();
        let mut more = self.fallback.databases();
        let ghost a = r.deep_view();
        let ghost b = more.deep_view();
        r.append(&mut more);
        assert(r.deep_view() =~= a + b);
        r
    }

    fn staleness_warnings(&self) -> (r: Vec<String>) {
        let mut r = self.primary.staleness_warnings();
        let mut more = self.fallback.staleness_warnings();
        let ghost a = r.deep_view();
        let ghost b = more.deep_view();
        r.append(&mut more);
        assert(r.deep_view() =~= a + b);
        r
    }

    fn install_plan(&self, targets: &[&str], clean_root: bool) -> (r: Result<InstallPlan>) {
        self.primary.install_plan(targets, clean_root)
    }
}

/// The databases of pacman, and behind them the real AUR, reached through `http`.
pub fn system_source<P: MetadataSource, H: HttpGet>(pacman: P, http: H) -> (r: CompositeSource<
    P,
    AurSource<H>,
>)
    ensures
        r.primary == pacman,
        r.fallback.rpc.http == http,
        r.fallback.rpc.base@ == AUR_RPC_BASE@,
        r.fallback.cache@.len() == 0,
        r.fallback.providers@.len() == 0,
        r.fallback.errors@.len() == 0,
        r.fallback.requests == 0,
{
    CompositeSource::new(pacman, AurSource::new(http))
}

// ---------------------------------------------------------------------------- laws
/// A name is looked up once: whatever asking for it gave, asking again gives the same
/// and leaves the AUR alone.
pub proof fn names_are_looked_up_once<H: HttpGet>(
    before: AurSource<H>,
    mid: AurSource<H>,
    after: AurSource<H>,
    name: Text,
    first: Result<Option<Package>>,
    again: Result<Option<Package>>,
)
    requires
        before.package_may_give(&mid, name, first),
        mid.package_may_give(&after, name, again),
    ensures
        first is Ok,
        again is Ok,
        model::package_of(again->Ok_0) == model::package_of(first->Ok_0),
        after == mid,
        mid.requests <= before.requests + 1,
{
    if known(before.cache@, name) is None {
        assert(known(mid.cache@, name) == Some(model::package_of(first->Ok_0)));
    }
}

/// Who provides a name is looked up once: whatever asking for it gave, also that there is
/// none, asking again gives the same and leaves the AUR alone.
pub proof fn providers_are_looked_up_once<H: HttpGet>(
    before: AurSource<H>,
    mid: AurSource<H>,
    after: AurSource<H>,
    name: Text,
    first: Result<Option<String>>,
    again: Result<Option<String>>,
)
    requires
        before.provider_may_be(&mid, name, first),
        mid.provider_may_be(&after, name, again),
    ensures
        first is Ok,
        again is Ok,
        plan::seen(again->Ok_0) == plan::seen(first->Ok_0),
        after == mid,
        mid.requests <= before.requests + 2,
{
    let (one, named) = choose|one: AurSource<H>, named: Result<Option<Package>>| #[trigger]
        before.package_may_give(&one, name, named) && match named {
            Ok(Some(p)) => {
                &&& mid == one
                &&& first matches Ok(Some(n)) && n@ == p.name@
            },
            _ => match told(one.providers@, name) {
                Some(p) => {
                    &&& mid == one
                    &&& first matches Ok(n) && plan::seen(n) == p
                },
                None => one.search_may_give(mid, name, first),
            },
        };
    assert(known(one.cache@, name) == Some(model::package_of(named->Ok_0)));
    assert(mid.cache == one.cache);
    if named->Ok_0 is None {
        assert(told(mid.providers@, name) == Some(plan::seen(first->Ok_0)));
    }
}

/// A name that cannot be a package costs nothing: no request leaves the machine, and
/// there is no such package.
pub proof fn impossible_names_cost_nothing<H: HttpGet>(
    before: AurSource<H>,
    after: AurSource<H>,
    name: Text,
    r: Result<Option<Package>>,
)
    requires
        before.package_may_give(&after, name, r),
        !rpc::valid_name(name),
        known(before.cache@, name) is None,
    ensures
        after.requests == before.requests,
        after.rpc == before.rpc,
        r matches Ok(None),
{
    let looked = choose|looked: Result<Vec<Package>>| #[trigger]
        before.rpc.info_may_take(after.rpc, seq![name], cost(name), looked) && match looked {
            Ok(v) => {
                &&& after.errors == before.errors
                &&& model::package_of(r->Ok_0) == if v@.len() == 0 {
                    None
                } else {
                    Some(v@.last()@)
                }
            },
            Err(e) => {
                &&& r->Ok_0 is None
                &&& noted(before.errors.deep_view(), after.errors.deep_view(), e.text())
            },
        };
    let names = seq![name];
    assert(names.drop_last() =~= seq![]);
    assert(rpc::valid_names(names).len() == 0);
    before.rpc.lemma_nothing_to_ask(after.rpc, names, cost(name), looked);
}

proof fn lemma_unknown_asked(cache: Seq<Known>, names: Seq<Text>, n: Text)
    requires
        names.contains(n),
        known(cache, n) is None,
    ensures
        unknown(cache, names).contains(n),
    decreases names.len(),
{
    let k = choose|k: int| 0 <= k < names.len() && names[k] == n;
    let init = names.drop_last();
    let u = unknown(cache, names);
    if k == names.len() - 1 {
        assert(u.last() == n);
    } else {
        assert(init[k] == n);
        lemma_unknown_asked(cache, init, n);
        let q = choose|q: int| 0 <= q < unknown(cache, init).len() && unknown(cache, init)[q] == n;
        assert(u[q] == n);
    }
}

/// What is asked for at once is known afterwards: where it went well, each batch took one
/// request, any of the names is then given from memory, as the answers had it, and asking
/// for all of them again sends nothing.
pub proof fn prefetched_names_cost_nothing<H: HttpGet>(
    before: AurSource<H>,
    mid: AurSource<H>,
    names: Seq<Text>,
)
    requires
        before.prefetch_may_give(mid, names),
        mid.errors == before.errors,
    ensures
        mid.requests == before.requests + rpc::batches(
            rpc::valid_names(unknown(before.cache@, names)),
        ).len(),
        forall|after: AurSource<H>, name: Text, r: Result<Option<Package>>|
            names.contains(name) && #[trigger] mid.package_may_give(&after, name, r) ==> after
                == mid && r is Ok,
        forall|after: AurSource<H>| #[trigger]
            mid.prefetch_may_give(after, names) ==> after == mid,
        unknown(before.cache@, names).len() > 0 ==> exists|sent: nat, v: Vec<Package>| #[trigger]
            before.rpc.info_may_take(mid.rpc, unknown(before.cache@, names), sent, Ok(v))
                && forall|after: AurSource<H>, name: Text, r: Result<Option<Package>>|
                unknown(before.cache@, names).contains(name) && #[trigger] mid.package_may_give(
                    &after,
                    name,
                    r,
                ) ==> model::package_of(r->Ok_0) == last_named(model::packages_of(v@), name),
{
    let asked = unknown(before.cache@, names);
    if asked.len() == 0 {
        assert(rpc::valid_names(asked) =~= seq![]);
        assert forall|after: AurSource<H>, name: Text, r: Result<Option<Package>>|
            names.contains(name) && #[trigger] mid.package_may_give(&after, name, r) implies after
            == mid && r is Ok by {
            if known(before.cache@, name) is None {
                lemma_unknown_asked(before.cache@, names, name);
            }
        }
    } else {
        let (sent, looked) = choose|sent: nat, looked: Result<Vec<Package>>| #[trigger]
            before.rpc.info_may_take(mid.rpc, asked, sent, looked) && mid.requests
                == before.requests + sent && match looked {
                Ok(v) => {
                    &&& mid.errors == before.errors
                    &&& forall|n: Text| #[trigger]
                        known(mid.cache@, n) == known_after(
                            before.cache@,
                            asked,
                            model::packages_of(v@),
                            n,
                        )
                },
                Err(e) => {
                    &&& mid.cache == before.cache
                    &&& noted(before.errors.deep_view(), mid.errors.deep_view(), e.text())
                },
            };
        if let Err(e) = looked {
            assert(before.errors.deep_view().len() + 1 == mid.errors.deep_view().len());
        }
        let v = looked->Ok_0;
        let packages = model::packages_of(v@);
        before.rpc.lemma_all_pages(mid.rpc, asked, sent, looked);
        assert forall|name: Text| names.contains(name) implies known(mid.cache@, name)
            is Some by {
            if known(before.cache@, name) is None {
                lemma_unknown_asked(before.cache@, names, name);
            }
            assert(known(mid.cache@, name) == known_after(before.cache@, asked, packages, name));
        }
        lemma_none_unknown(mid.cache@, names);
        assert forall|after: AurSource<H>, name: Text, r: Result<Option<Package>>|
            asked.contains(name) && #[trigger] mid.package_may_give(
                &after,
                name,
                r,
            ) implies model::package_of(r->Ok_0) == last_named(packages, name) by {
            lemma_asked_unknown(before.cache@, names, name);
            assert(known(mid.cache@, name) == known_after(before.cache@, asked, packages, name));
        }
        assert(before.rpc.info_may_take(mid.rpc, asked, sent, Ok(v)));
    }
}

proof fn lemma_asked_unknown(cache: Seq<Known>, names: Seq<Text>, n: Text)
    requires
        unknown(cache, names).contains(n),
    ensures
        known(cache, n) is None,
    decreases names.len(),
{
    let u = unknown(cache, names);
    let k = choose|k: int| 0 <= k < u.len() && u[k] == n;
    if names.len() > 0 {
        let v = unknown(cache, names.drop_last());
        if k < v.len() {
            assert(v[k] == n);
            lemma_asked_unknown(cache, names.drop_last(), n);
        }
    }
}

proof fn lemma_none_unknown(cache: Seq<Known>, names: Seq<Text>)
    requires
        forall|n: Text| names.contains(n) ==> known(cache, n) is Some,
    ensures
        unknown(cache, names).len() == 0,
    decreases names.len(),
{
    if names.len() > 0 {
        assert(names.contains(names.last()));
        assert forall|n: Text| names.drop_last().contains(n) implies known(cache, n) is Some by {
            let k = choose|k: int| 0 <= k < names.drop_last().len() && names.drop_last()[k] == n;
            assert(names[k] == n);
            assert(names.contains(n));
        }
        lemma_none_unknown(cache, names.drop_last());
    }
}

/// Some names that were never asked for, few enough for one page, cost one request
/// together: the count goes up by one, and each is afterwards what the one answer says.
pub proof fn few_names_cost_one_request<H: HttpGet>(
    before: AurSource<H>,
    mid: AurSource<H>,
    names: Seq<Text>,
)
    requires
        before.prefetch_may_give(mid, names),
        mid.errors == before.errors,
        0 < names.len() <= rpc::INFO_BATCH,
        forall|i: int|
            0 <= i < names.len() ==> rpc::valid_name(#[trigger] names[i]) && known(
                before.cache@,
                names[i],
            ) is None,
    ensures
        mid.requests == before.requests + 1,
        exists|answer: rpc::RpcResponse| #[trigger]
            before.rpc.http.may_reply(
                &mid.rpc.http,
                before.rpc.info_page(names),
                Ok(answer),
            ) && forall|after: AurSource<H>, name: Text, r: Result<Option<Package>>|
                names.contains(name) && #[trigger] mid.package_may_give(&after, name, r) ==> after
                    == mid && r is Ok && model::package_of(r->Ok_0) == last_named(
                    rpc::packages_in(answer.results@),
                    name,
                ),
{
    lemma_all_unknown(before.cache@, names);
    lemma_all_valid(names);
    assert(rpc::batches(names).len() == 1);
    prefetched_names_cost_nothing(before, mid, names);
    let (sent, v) = choose|sent: nat, v: Vec<Package>| #[trigger]
        before.rpc.info_may_take(mid.rpc, names, sent, Ok(v)) && forall|
            after: AurSource<H>,
            name: Text,
            r: Result<Option<Package>>,
        |
            names.contains(name) && #[trigger] mid.package_may_give(&after, name, r)
                ==> model::package_of(r->Ok_0) == last_named(model::packages_of(v@), name);
    let answer = before.rpc.lemma_one_page(mid.rpc, names, sent, v);
    assert(before.rpc.http.may_reply(&mid.rpc.http, before.rpc.info_page(names), Ok(answer)));
}

proof fn lemma_all_unknown(cache: Seq<Known>, names: Seq<Text>)
    requires
        forall|i: int| 0 <= i < names.len() ==> known(cache, #[trigger] names[i]) is None,
    ensures
        unknown(cache, names) == names,
    decreases names.len(),
{
    if names.len() > 0 {
        let init = names.drop_last();
        assert forall|i: int| 0 <= i < init.len() implies known(cache, #[trigger] init[i])
            is None by {
            assert(init[i] == names[i]);
        }
        lemma_all_unknown(cache, init);
        assert(names[names.len() - 1] == names.last());
        assert(init.push(names.last()) =~= names);
    } else {
        assert(unknown(cache, names) =~= names);
    }
}

proof fn lemma_all_valid(names: Seq<Text>)
    requires
        forall|i: int| 0 <= i < names.len() ==> rpc::valid_name(#[trigger] names[i]),
    ensures
        rpc::valid_names(names) == names,
    decreases names.len(),
{
    if names.len() > 0 {
        let init = names.drop_last();
        assert forall|i: int| 0 <= i < init.len() implies rpc::valid_name(#[trigger] init[i]) by {
            assert(init[i] == names[i]);
        }
        lemma_all_valid(init);
        assert(names[names.len() - 1] == names.last());
        assert(init.push(names.last()) =~= names);
    } else {
        assert(rpc::valid_names(names) =~= names);
    }
}

/// A source whose lookup failed says so: a warning is added whenever the AUR could
/// not be asked, and the answer is not an error.
pub proof fn failures_are_reported<H: HttpGet>(
    before: AurSource<H>,
    after: AurSource<H>,
    name: Text,
    r: Result<Option<Package>>,
    warnings: Seq<Text>,
)
    requires
        before.package_may_give(&after, name, r),
        known(before.cache@, name) is None,
        forall|looked: Result<Vec<Package>>| #[trigger]
            before.rpc.info_may_take(after.rpc, seq![name], cost(name), looked) ==> looked is Err,
        after.warnings_may_be(warnings),
    ensures
        r matches Ok(None),
        warnings.len() == before.errors@.len() + 1,
{
}

/// The repositories win: where they have the package, it is theirs and the second
/// source is not asked.
pub proof fn repository_wins<P: MetadataSource, A: MetadataSource>(
    before: CompositeSource<P, A>,
    after: CompositeSource<P, A>,
    name: Text,
    r: Result<Option<Package>>,
)
    requires
        before.package_may_give(&after, name, r),
        forall|first: Result<Option<Package>>| #[trigger]
            before.primary.package_may_give(&after.primary, name, first) ==> first matches Ok(
                Some(_),
            ),
    ensures
        before.primary.package_may_give(&after.primary, name, r),
        after.fallback == before.fallback,
{
}

} // verus!
