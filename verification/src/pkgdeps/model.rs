//! Packages and the names they depend on.
use vstd::prelude::*;

use crate::effects;
use crate::plan;
use crate::text;
use crate::text::{chars_of, copy_all, is_at, slice_text, trim, Text};

verus! {

// -------------------------------------------------------------------- dependencies
/// A name that a package depends on, provides, conflicts with or replaces.
#[derive(Debug, Clone, PartialEq, Eq)]
pub struct Dep {
    pub name: String,
    /// Which versions will do, such as `>=3.10`.
    pub constraint: Option<String>,
    /// What it is good for, where it is optional.
    pub description: Option<String>,
}

/// A dependency as a value.
pub struct DepModel {
    pub name: Text,
    pub constraint: Option<Text>,
    pub description: Option<Text>,
}

impl View for Dep {
    type V = DepModel;

    open spec fn view(&self) -> DepModel {
        DepModel {
            name: self.name@,
            constraint: plan::seen(self.constraint),
            description: plan::seen(self.description),
        }
    }
}

/// Where `p` first stands in `s` from `i` on, or the length of `s`.
pub open spec fn place_from(s: Text, p: Text, i: int) -> int
    decreases s.len() - i,
{
    if i >= s.len() {
        s.len() as int
    } else if text::at(s, i, p) {
        i
    } else {
        place_from(s, p, i + 1)
    }
}

/// Where a version constraint begins, or the length of `s`.
pub open spec fn constraint_from(s: Text, i: int) -> int
    decreases s.len() - i,
{
    if i >= s.len() {
        s.len() as int
    } else if s[i] == '<' || s[i] == '>' || s[i] == '=' {
        i
    } else {
        constraint_from(s, i + 1)
    }
}

/// A dependency written as pacman writes it: the name, a version constraint where
/// there is one, and a description behind a colon and a space.
pub open spec fn dep_of(token: Text) -> DepModel {
    let k = place_from(token, ": "@, 0);
    let head = token.take(k);
    let c = constraint_from(head, 0);
    DepModel {
        name: text::trimmed(head.take(c)),
        constraint: if c < head.len() {
            Some(text::trimmed(head.skip(c)))
        } else {
            None
        },
        description: if k < token.len() {
            Some(text::trimmed(token.skip(k + 2)))
        } else {
            None
        },
    }
}

fn find_place(s: &Vec<char>, p: &Vec<char>) -> (r: usize)
    ensures
        r == place_from(s@, p@, 0),
        r <= s@.len(),
        r < s@.len() ==> text::at(s@, r as int, p@),
{
    let mut i: usize = 0;
    while i < s.len()
        invariant
            i <= s@.len(),
            place_from(s@, p@, 0) == place_from(s@, p@, i as int),
        decreases s@.len() - i,
    {
        if is_at(s, i, p) {
            return i;
        }
        i += 1;
    }
    i
}

fn find_constraint(s: &Vec<char>, end: usize) -> (r: usize)
    requires
        end <= s@.len(),
    ensures
        r == constraint_from(s@.take(end as int), 0),
        r <= end,
{
    let ghost head = s@.take(end as int);
    let mut i: usize = 0;
    while i < end
        invariant
            i <= end <= s@.len(),
            head == s@.take(end as int),
            constraint_from(head, 0) == constraint_from(head, i as int),
        decreases end - i,
    {
        let c = s[i];
        assert(head[i as int] == c);
        if c == '<' || c == '>' || c == '=' {
            return i;
        }
        i += 1;
    }
    i
}

impl Dep {
    /// Reads a dependency.
    pub fn parse(token: &str) -> (r: Self)
        ensures
            r@ == dep_of(token@),
    {
        proof {
            reveal_strlit(": ");
        }
        let chars = chars_of(token);
        let mark = chars_of(": ");
        let k: usize = find_place(&chars, &mark);
        let c: usize = find_constraint(&chars, k);
        let n: usize = chars.len();
        let ghost head = token@.take(k as int);
        assert(head.take(c as int) =~= token@.subrange(0, c as int));
        assert(head.skip(c as int) =~= token@.subrange(c as int, k as int));
        let name = trim(slice_text(&chars, 0, c).as_str());
        let constraint = if c < k {
            Some(trim(slice_text(&chars, c, k).as_str()))
        } else {
            None
        };
        let description = if k < n {
            assert(k + 2 <= n);
            assert(token@.skip(k + 2) =~= token@.subrange(k + 2, n as int));
            Some(trim(slice_text(&chars, k + 2, n).as_str()))
        } else {
            None
        };
        Dep { name, constraint, description }
    }

    /// A name without a constraint.
    pub fn unversioned(name: &str) -> (r: Self)
        ensures
            r@ == (DepModel { name: name@, constraint: None, description: None }),
    {
        Dep { name: name.to_owned(), constraint: None, description: None }
    }

    fn copy(&self) -> (r: Self)
        ensures
            r@ == self@,
    {
        Dep {
            name: self.name.clone(),
            constraint: copy_text(&self.constraint),
            description: copy_text(&self.description),
        }
    }
}

fn copy_text(s: &Option<String>) -> (r: Option<String>)
    ensures
        plan::seen(r) == plan::seen(*s),
{
    match s {
        Some(t) => Some(t.clone()),
        None => None,
    }
}

// ------------------------------------------------------------------------ packages
/// A package.
#[derive(Debug, Clone, PartialEq, Eq)]
pub struct Package {
    pub name: String,
    pub version: String,
    /// The repository that has it.
    pub repo: String,
    pub description: String,
    pub url: String,
    pub licenses: Vec<String>,
    pub groups: Vec<String>,
    pub depends: Vec<Dep>,
    pub makedepends: Vec<Dep>,
    pub checkdepends: Vec<Dep>,
    pub optdepends: Vec<Dep>,
    pub provides: Vec<Dep>,
    pub conflicts: Vec<Dep>,
    pub replaces: Vec<Dep>,
}

/// A package as a value.
#[verifier::ext_equal]
pub struct PackageModel {
    pub name: Text,
    pub version: Text,
    pub repo: Text,
    pub description: Text,
    pub url: Text,
    pub licenses: Seq<Text>,
    pub groups: Seq<Text>,
    pub depends: Seq<DepModel>,
    pub makedepends: Seq<DepModel>,
    pub checkdepends: Seq<DepModel>,
    pub optdepends: Seq<DepModel>,
    pub provides: Seq<DepModel>,
    pub conflicts: Seq<DepModel>,
    pub replaces: Seq<DepModel>,
}

pub open spec fn deps_of(v: Seq<Dep>) -> Seq<DepModel> {
    Seq::new(v.len(), |i: int| v[i]@)
}

impl View for Package {
    type V = PackageModel;

    open spec fn view(&self) -> PackageModel {
        PackageModel {
            name: self.name@,
            version: self.version@,
            repo: self.repo@,
            description: self.description@,
            url: self.url@,
            licenses: self.licenses.deep_view(),
            groups: self.groups.deep_view(),
            depends: deps_of(self.depends@),
            makedepends: deps_of(self.makedepends@),
            checkdepends: deps_of(self.checkdepends@),
            optdepends: deps_of(self.optdepends@),
            provides: deps_of(self.provides@),
            conflicts: deps_of(self.conflicts@),
            replaces: deps_of(self.replaces@),
        }
    }
}

pub open spec fn packages_of(v: Seq<Package>) -> Seq<PackageModel> {
    Seq::new(v.len(), |i: int| v[i]@)
}

/// The package as one value, where there is one.
pub open spec fn package_of(p: Option<Package>) -> Option<PackageModel> {
    match p {
        Some(p) => Some(p@),
        None => None,
    }
}

/// A package of which only this much is known.
pub open spec fn bare(name: Text, version: Text, repo: Text) -> PackageModel {
    PackageModel {
        name,
        version,
        repo,
        description: seq![],
        url: seq![],
        licenses: seq![],
        groups: seq![],
        depends: seq![],
        makedepends: seq![],
        checkdepends: seq![],
        optdepends: seq![],
        provides: seq![],
        conflicts: seq![],
        replaces: seq![],
    }
}

impl Package {
    pub fn new(name: &str, version: &str, repo: &str) -> (r: Self)
        ensures
            r@ == bare(name@, version@, repo@),
    {
        let r = Package {
            name: name.to_owned(),
            version: version.to_owned(),
            repo: repo.to_owned(),
            description: String::new(),
            url: String::new(),
            licenses: Vec::new(),
            groups: Vec::new(),
            depends: Vec::new(),
            makedepends: Vec::new(),
            checkdepends: Vec::new(),
            optdepends: Vec::new(),
            provides: Vec::new(),
            conflicts: Vec::new(),
            replaces: Vec::new(),
        };
        assert(r@ =~= bare(name@, version@, repo@));
        r
    }

    pub fn copy(&self) -> (r: Self)
        ensures
            r@ == self@,
    {
        Package {
            name: self.name.clone(),
            version: self.version.clone(),
            repo: self.repo.clone(),
            description: self.description.clone(),
            url: self.url.clone(),
            licenses: copy_all(&self.licenses),
            groups: copy_all(&self.groups),
            depends: copy_deps(&self.depends),
            makedepends: copy_deps(&self.makedepends),
            checkdepends: copy_deps(&self.checkdepends),
            optdepends: copy_deps(&self.optdepends),
            provides: copy_deps(&self.provides),
            conflicts: copy_deps(&self.conflicts),
            replaces: copy_deps(&self.replaces),
        }
    }
}

fn copy_deps(v: &Vec<Dep>) -> (r: Vec<Dep>)
    ensures
        deps_of(r@) == deps_of(v@),
{
    let mut r: Vec<Dep> = Vec::new();
    for i in 0..v.len()
        invariant
            deps_of(r@) == deps_of(v@).take(i as int),
    {
        let d = v[i].copy();
        let ghost before = deps_of(r@);
        r.push(d);
        assert(deps_of(r@) =~= before.push(v@[i as int]@));
        assert(deps_of(r@) =~= deps_of(v@).take(i + 1));
    }
    assert(deps_of(v@).take(v@.len() as int) =~= deps_of(v@));
    r
}

/// What a transaction would do. One that cannot be planned says why.
#[derive(Debug, Clone, PartialEq, Eq)]
pub struct InstallPlan {
    pub targets: Vec<String>,
    /// Nothing is taken to be installed yet.
    pub clean_root: bool,
    pub warnings: Vec<String>,
}

// -------------------------------------------------------------------------- laws
proof fn lemma_word_stays(w: Text)
    requires
        effects::one_word(w),
    ensures
        text::trimmed(w) == w,
{
    assert(!text::white(w[0]));
    assert(text::trimmed_start(w) == w);
    assert(!text::white(w[w.len() - 1]));
    assert(text::trimmed_end(w) == w);
}

proof fn lemma_place(s: Text, p: Text, i: int, k: int)
    requires
        0 <= i <= k <= s.len(),
        forall|j: int| i <= j < k ==> !#[trigger] text::at(s, j, p),
        k < s.len() ==> text::at(s, k, p),
    ensures
        place_from(s, p, i) == k,
    decreases k - i,
{
    if i < k {
        assert(!text::at(s, i, p));
        lemma_place(s, p, i + 1, k);
    }
}

proof fn lemma_constraint(s: Text, i: int, k: int)
    requires
        0 <= i <= k <= s.len(),
        forall|j: int|
            i <= j < k ==> (#[trigger] s[j]) != '<' && s[j] != '>' && s[j] != '=',
        k < s.len() ==> s[k] == '<' || s[k] == '>' || s[k] == '=',
    ensures
        constraint_from(s, i) == k,
    decreases k - i,
{
    if i < k {
        assert(s[i] != '<' && s[i] != '>' && s[i] != '=');
        lemma_constraint(s, i + 1, k);
    }
}

/// What pacman writes is read as it was meant: the name, the constraint behind it where there
/// is one, and the purpose behind a colon where there is one. A colon without a space, such
/// as that of an epoch, is part of the constraint.
pub proof fn dependencies_are_read_as_written(name: Text, constraint: Text, purpose: Text)
    requires
        effects::one_word(name),
        forall|j: int|
            0 <= j < name.len() ==> (#[trigger] name[j]) != '<' && name[j] != '>' && name[j] != '=',
        constraint.len() > 0 ==> effects::one_word(constraint) && (constraint[0] == '<'
            || constraint[0] == '>' || constraint[0] == '='),
        text::trimmed(purpose) == purpose,
    ensures
        ({
            let wanted = if constraint.len() > 0 {
                Some(constraint)
            } else {
                None
            };
            let bare = dep_of(name + constraint);
            let full = dep_of(name + constraint + ": "@ + purpose);
            &&& bare.name == name && bare.constraint == wanted && bare.description is None
            &&& full.name == name && full.constraint == wanted && full.description == Some(purpose)
        }),
{
    let head = name + constraint;
    let mark = ": "@;
    reveal_strlit(": ");
    assert forall|j: int| 0 <= j < head.len() implies !text::white(#[trigger] head[j]) by {
        if j < name.len() {
            assert(head[j] == name[j]);
        } else {
            assert(head[j] == constraint[j - name.len()]);
        }
    }
    assert forall|j: int| 0 <= j < name.len() implies (#[trigger] head[j]) != '<' && head[j] != '>'
        && head[j] != '=' by {
        assert(head[j] == name[j]);
    }
    if constraint.len() > 0 {
        assert(head[name.len() as int] == constraint[0]);
        lemma_word_stays(constraint);
    }
    lemma_constraint(head, 0, name.len() as int);
    lemma_word_stays(name);
    assert(head.take(name.len() as int) =~= name);
    assert(head.skip(name.len() as int) =~= constraint);
    assert(text::white(' '));
    assert forall|j: int| 0 <= j < head.len() implies !#[trigger] text::at(head, j, mark) by {
        if text::at(head, j, mark) {
            assert(head.subrange(j, j + 2)[1] == head[j + 1]);
        }
    }
    lemma_place(head, mark, 0, head.len() as int);
    assert(head.take(head.len() as int) =~= head);
    let whole = head + mark + purpose;
    assert forall|j: int| 0 <= j < head.len() implies !#[trigger] text::at(whole, j, mark) by {
        if text::at(whole, j, mark) {
            assert(whole.subrange(j, j + 2)[1] == whole[j + 1]);
            if j + 1 < head.len() {
                assert(whole[j + 1] == head[j + 1]);
            } else {
                assert(whole[j + 1] == ':');
            }
        }
    }
    assert(whole.subrange(head.len() as int, head.len() as int + 2) =~= mark);
    lemma_place(whole, mark, 0, head.len() as int);
    assert(whole.take(head.len() as int) =~= head);
    assert(whole.skip(head.len() as int + 2) =~= purpose);
}

} // verus!
