//! The AUR's RPC interface: what is asked, and what an answer says.
use vstd::prelude::*;

use crate::error::{DeploytixError, Result};
use crate::pkgdeps::model;
use crate::pkgdeps::model::{Dep, DepModel, Package, PackageModel};
use crate::text;
use crate::text::{concat, join, same, Text};

verus! {

/// Where the interface is.
pub const AUR_RPC_BASE: &'static str = "https://aur.archlinux.org/rpc/v5";

/// The repository that packages of the AUR are said to come from. No repository of
/// pacman has this name: it tells what must be built from what can be installed.
pub const AUR_REPO: &'static str = "aur";

/// How many names one request asks for at most.
pub const INFO_BATCH: usize = 50;

/// How many seconds a connection may take, and a whole transfer.
pub const CONNECT_TIMEOUT: u32 = 10;

pub const MAX_TIME: u32 = 30;

// --------------------------------------------------------------------------- names
/// A character that the name of a package may hold.
pub open spec fn name_char(c: char) -> bool {
    'a' <= c <= 'z' || 'A' <= c <= 'Z' || '0' <= c <= '9' || c == '@' || c == '.' || c == '_' || c
        == '+' || c == '-'
}

/// The name that a package of the AUR can have: some letters, digits and `@._+-`,
/// with neither a hyphen nor a dot in front.
pub open spec fn valid_name(name: Text) -> bool {
    &&& name.len() > 0
    &&& name[0] != '-'
    &&& name[0] != '.'
    &&& forall|i: int| 0 <= i < name.len() ==> name_char(#[trigger] name[i])
}

pub fn is_valid_package_name(name: &str) -> (r: bool)
    ensures
        r == valid_name(name@),
{
    let chars = text::chars_of(name);
    if chars.len() == 0 || chars[0] == '-' || chars[0] == '.' {
        return false;
    }
    for i in 0..chars.len()
        invariant
            chars@ == name@,
            forall|j: int| 0 <= j < i ==> name_char(#[trigger] name@[j]),
    {
        let c = chars[i];
        let letter = ('a' <= c && c <= 'z') || ('A' <= c && c <= 'Z') || ('0' <= c && c <= '9');
        let mark = c == '@' || c == '.' || c == '_' || c == '+' || c == '-';
        if !(letter || mark) {
            assert(!name_char(name@[i as int]));
            return false;
        }
    }
    true
}

// ------------------------------------------------------------------------- answers
/// One package in an answer.
#[derive(Debug, Clone, PartialEq, Eq)]
pub struct InfoResult {
    pub name: String,
    pub version: String,
    pub description: Option<String>,
    pub url: Option<String>,
    pub license: Vec<String>,
    pub groups: Vec<String>,
    pub depends: Vec<String>,
    pub make_depends: Vec<String>,
    pub check_depends: Vec<String>,
    pub opt_depends: Vec<String>,
    pub provides: Vec<String>,
    pub conflicts: Vec<String>,
    pub replaces: Vec<String>,
}

/// What every answer comes in.
#[derive(Debug, Clone, PartialEq, Eq)]
pub struct RpcResponse {
    /// What kind of answer it is; `error` where it is none.
    pub kind: String,
    pub error: Option<String>,
    pub results: Vec<InfoResult>,
}

/// The dependencies that a list of tokens names.
pub open spec fn deps_in(tokens: Seq<Text>) -> Seq<DepModel> {
    Seq::new(tokens.len(), |i: int| model::dep_of(tokens[i]))
}

fn parse_deps(tokens: &Vec<String>) -> (r: Vec<Dep>)
    ensures
        model::deps_of(r@) == deps_in(tokens.deep_view()),
{
    let mut r: Vec<Dep> = Vec::new();
    for i in 0..tokens.len()
        invariant
            model::deps_of(r@) == deps_in(tokens.deep_view()).take(i as int),
    {
        let d = Dep::parse(tokens[i].as_str());
        let ghost before = model::deps_of(r@);
        r.push(d);
        assert(model::deps_of(r@) =~= before.push(d@));
        assert(tokens.deep_view()[i as int] == tokens@[i as int]@);
        assert(model::deps_of(r@) =~= deps_in(tokens.deep_view()).take(i + 1));
    }
    assert(deps_in(tokens.deep_view()).take(tokens@.len() as int) =~= deps_in(tokens.deep_view()));
    r
}

pub open spec fn or_nothing(s: Option<String>) -> Text {
    match s {
        Some(t) => t@,
        None => seq![],
    }
}

fn unwrap_text(s: Option<String>) -> (r: String)
    ensures
        r@ == or_nothing(s),
{
    match s {
        Some(t) => t,
        None => String::new(),
    }
}

impl InfoResult {
    /// The package, of the AUR.
    pub open spec fn package(self) -> PackageModel {
        PackageModel {
            name: self.name@,
            version: self.version@,
            repo: AUR_REPO@,
            description: or_nothing(self.description),
            url: or_nothing(self.url),
            licenses: self.license.deep_view(),
            groups: self.groups.deep_view(),
            depends: deps_in(self.depends.deep_view()),
            makedepends: deps_in(self.make_depends.deep_view()),
            checkdepends: deps_in(self.check_depends.deep_view()),
            optdepends: deps_in(self.opt_depends.deep_view()),
            provides: deps_in(self.provides.deep_view()),
            conflicts: deps_in(self.conflicts.deep_view()),
            replaces: deps_in(self.replaces.deep_view()),
        }
    }

    pub fn into_package(self) -> (r: Package)
        ensures
            r@ == self.package(),
    {
        let mut p = Package::new(self.name.as_str(), self.version.as_str(), AUR_REPO);
        p.depends = parse_deps(&self.depends);
        p.makedepends = parse_deps(&self.make_depends);
        p.checkdepends = parse_deps(&self.check_depends);
        p.optdepends = parse_deps(&self.opt_depends);
        p.provides = parse_deps(&self.provides);
        p.conflicts = parse_deps(&self.conflicts);
        p.replaces = parse_deps(&self.replaces);
        p.description = unwrap_text(self.description);
        p.url = unwrap_text(self.url);
        p.licenses = self.license;
        p.groups = self.groups;
        p
    }
}

/// The packages in an answer.
pub open spec fn packages_in(results: Seq<InfoResult>) -> Seq<PackageModel> {
    Seq::new(results.len(), |i: int| results[i].package())
}

/// What an answer amounts to: an error where it says so, and its packages otherwise.
pub open spec fn amounts_to(answer: RpcResponse, r: Result<Vec<Package>>) -> bool {
    if answer.kind@ == "error"@ {
        r matches Err(DeploytixError::CommandFailed { command, stderr }) && command@ == "AUR RPC"@
            && stderr@ == match answer.error {
            Some(e) => e@,
            None => "unspecified error"@,
        }
    } else {
        r matches Ok(v) && model::packages_of(v@) == packages_in(answer.results@)
    }
}

/// Reads an answer. One that reports an error is no empty list: that the AUR refused
/// is not that it has no such package.
pub fn parse_info_response(answer: RpcResponse) -> (r: Result<Vec<Package>>)
    ensures
        amounts_to(answer, r),
{
    if same(answer.kind.as_str(), "error") {
        let why = match answer.error {
            Some(e) => e,
            None => "unspecified error".to_owned(),
        };
        return Err(DeploytixError::CommandFailed { command: "AUR RPC".to_owned(), stderr: why });
    }
    let ghost all = answer.results@;
    let mut rest = answer.results;
    let mut back: Vec<Package> = Vec::new();
    while rest.len() > 0
        invariant
            rest@.len() <= all.len(),
            rest@ == all.take(rest@.len() as int),
            back@.len() == all.len() - rest@.len(),
            forall|i: int|
                0 <= i < back@.len() ==> (#[trigger] back@[i])@ == all[all.len() - 1 - i].package(),
        decreases rest@.len(),
    {
        let ghost n = rest@.len() as int;
        if let Some(x) = rest.pop() {
            assert(x == all[n - 1]);
            assert(rest@ =~= all.take(n - 1));
            back.push(x.into_package());
        }
    }
    let mut out: Vec<Package> = Vec::new();
    let ghost total = back@;
    while back.len() > 0
        invariant
            total.len() == all.len(),
            forall|i: int|
                0 <= i < total.len() ==> (#[trigger] total[i])@ == all[all.len() - 1 - i].package(),
            back@.len() <= total.len(),
            back@ == total.take(back@.len() as int),
            out@.len() == total.len() - back@.len(),
            forall|i: int| 0 <= i < out@.len() ==> (#[trigger] out@[i])@ == all[i].package(),
        decreases back@.len(),
    {
        let ghost n = back@.len() as int;
        if let Some(x) = back.pop() {
            assert(x == total[n - 1]);
            assert(back@ =~= total.take(n - 1));
            out.push(x);
        }
    }
    assert(model::packages_of(out@) =~= packages_in(all));
    Ok(out)
}

// ------------------------------------------------------------------------ requests
/// What asking for a page may bring.
pub type Reply = Result<RpcResponse>;

/// Something that can ask for a page and read the answer. Asking may change it: it may
/// keep a log.
pub trait HttpGet: Sized {
    /// Whether asking for `url` may bring this reply and leave the getter as `after`.
    /// Any may come, unless an implementation knows better.
    open spec fn may_reply(&self, after: &Self, url: Text, reply: Reply) -> bool {
        true
    }

    fn get(&mut self, url: &str) -> (r: Reply)
        ensures
            old(self).may_reply(&*final(self), url@, r),
    ;
}

/// The texts of a list.
pub open spec fn texts(names: Seq<&str>) -> Seq<Text> {
    Seq::new(names.len(), |i: int| names[i]@)
}

/// The names that packages can have, in their order.
pub open spec fn valid_names(names: Seq<Text>) -> Seq<Text>
    decreases names.len(),
{
    if names.len() == 0 {
        seq![]
    } else if valid_name(names.last()) {
        valid_names(names.drop_last()).push(names.last())
    } else {
        valid_names(names.drop_last())
    }
}

/// Names in batches, each as full as it can be.
pub open spec fn batches(names: Seq<Text>) -> Seq<Seq<Text>>
    decreases names.len(),
{
    if names.len() == 0 {
        seq![]
    } else if names.len() <= INFO_BATCH {
        seq![names]
    } else {
        seq![names.take(INFO_BATCH as int)] + batches(names.skip(INFO_BATCH as int))
    }
}

pub open spec fn query(names: Seq<Text>) -> Seq<Text> {
    Seq::new(names.len(), |i: int| "arg[]="@ + names[i])
}

/// A client of the interface.
pub struct AurRpc<H: HttpGet> {
    pub http: H,
    pub base: String,
}

/// Requests for the first of these pages, one after the other and nothing between them:
/// `states` are the getter before each of them and in the end, `replies` what each
/// brought.
pub open spec fn exchanged<H: HttpGet>(
    states: Seq<H>,
    pages: Seq<Text>,
    replies: Seq<Reply>,
) -> bool {
    &&& states.len() == replies.len() + 1
    &&& replies.len() <= pages.len()
    &&& forall|i: int|
        0 <= i < replies.len() ==> states[i].may_reply(
            &states[i + 1],
            pages[i],
            #[trigger] replies[i],
        )
}

/// What a run of requests amounts to, given what each of them brought: all packages
/// in their order, or what the first request that failed said. Nothing is asked after
/// that one.
pub open spec fn run_amounts_to(replies: Seq<Reply>, wanted: nat, r: Result<Vec<Package>>) -> bool {
    match r {
        Ok(v) => {
            &&& replies.len() == wanted
            &&& forall|i: int| 0 <= i < replies.len() ==> sound(#[trigger] replies[i])
            &&& model::packages_of(v@) == gathered(replies)
        },
        Err(e) => {
            &&& 0 < replies.len() <= wanted
            &&& forall|i: int| 0 <= i < replies.len() - 1 ==> sound(#[trigger] replies[i])
            &&& match replies.last() {
                Ok(answer) => answer.kind@ == "error"@ && amounts_to(answer, r),
                Err(f) => e == f,
            }
        },
    }
}

/// A request that was answered, and not by an error.
pub open spec fn sound(reply: Reply) -> bool {
    reply matches Ok(answer) && answer.kind@ != "error"@
}

/// The packages in a run of answers.
pub open spec fn gathered(replies: Seq<Reply>) -> Seq<PackageModel>
    decreases replies.len(),
{
    if replies.len() == 0 {
        seq![]
    } else {
        gathered(replies.drop_last()) + match replies.last() {
            Ok(answer) => packages_in(answer.results@),
            Err(_) => seq![],
        }
    }
}

impl<H: HttpGet> AurRpc<H> {
    pub fn new(http: H) -> (r: Self)
        ensures
            r.http == http,
            r.base@ == AUR_RPC_BASE@,
    {
        AurRpc { http, base: AUR_RPC_BASE.to_owned() }
    }

    /// A client of the same interface elsewhere.
    pub fn with_base(http: H, base: &str) -> (r: Self)
        ensures
            r.http == http,
            r.base@ == base@,
    {
        AurRpc { http, base: base.to_owned() }
    }

    /// The page that tells of these packages.
    pub open spec fn info_page(self, names: Seq<Text>) -> Text {
        self.base@ + "/info?"@ + text::joined(query(names), "&"@)
    }

    /// The page that lists who provides a name.
    pub open spec fn search_page(self, name: Text) -> Text {
        self.base@ + "/search/"@ + name + "?by=provides"@
    }

    pub fn info_url(&self, names: &Vec<String>) -> (r: String)
        ensures
            r@ == self.info_page(names.deep_view()),
    {
        let mut args: Vec<String> = Vec::new();
        for i in 0..names.len()
            invariant
                args.deep_view() == query(names.deep_view()).take(i as int),
        {
            let arg = concat("arg[]=", names[i].as_str());
            let ghost before = args.deep_view();
            args.push(arg);
            assert(args.deep_view() =~= before.push(arg@));
            assert(names.deep_view()[i as int] == names@[i as int]@);
            assert(args.deep_view() =~= query(names.deep_view()).take(i + 1));
        }
        assert(query(names.deep_view()).take(names@.len() as int) =~= query(names.deep_view()));
        let mut s = concat(self.base.as_str(), "/info?");
        s.push_str(join(&args, "&").as_str());
        s
    }

    /// The pages that are asked for to look up these names: one for each batch of those
    /// that can be a package.
    pub open spec fn info_pages(self, names: Seq<Text>) -> Seq<Text> {
        let wanted = batches(valid_names(names));
        Seq::new(wanted.len(), |i: int| self.info_page(wanted[i]))
    }

    /// What looking up these names may give, with so many requests: what the replies to
    /// one request for each of the pages amount to. Nothing else is asked for, and
    /// nothing after a request that failed.
    pub open spec fn info_may_take(
        self,
        after: Self,
        names: Seq<Text>,
        sent: nat,
        r: Result<Vec<Package>>,
    ) -> bool {
        let pages = self.info_pages(names);
        &&& after.base == self.base
        &&& exists|states: Seq<H>, replies: Seq<Reply>| #[trigger]
            exchanged(states, pages, replies) && states[0] == self.http && states.last()
                == after.http && replies.len() == sent && run_amounts_to(replies, pages.len(), r)
    }

    /// What looking up these names may give.
    pub open spec fn info_may_give(
        self,
        after: Self,
        names: Seq<Text>,
        r: Result<Vec<Package>>,
    ) -> bool {
        exists|sent: nat| self.info_may_take(after, names, sent, r)
    }

    /// Looks up many packages at once. Names that the AUR does not have are absent
    /// from the result.
    pub fn info(&mut self, names: &[&str]) -> (r: Result<Vec<Package>>)
        ensures
            old(self).info_may_give(*final(self), texts(names@), r),
            valid_names(texts(names@)).len() == 0 ==> *final(self) == *old(self) && (r matches Ok(v)
                && v@.len() == 0),
    {
        let ghost before = *self;
        let (sent, r) = self.info_counted(names);
        proof {
            if valid_names(texts(names@)).len() == 0 {
                before.lemma_nothing_to_ask(*self, texts(names@), sent as nat, r);
            }
        }
        r
    }

    /// Where no name can be a package, nothing is asked and nothing found.
    pub(crate) proof fn lemma_nothing_to_ask(
        self,
        after: Self,
        names: Seq<Text>,
        sent: nat,
        r: Result<Vec<Package>>,
    )
        requires
            self.info_may_take(after, names, sent, r),
            valid_names(names).len() == 0,
        ensures
            sent == 0,
            after == self,
            r matches Ok(v) && v@.len() == 0,
    {
        let pages = self.info_pages(names);
        let (states, replies) = choose|states: Seq<H>, replies: Seq<Reply>| #[trigger]
            exchanged(states, pages, replies) && states[0] == self.http && states.last()
                == after.http && replies.len() == sent && run_amounts_to(replies, pages.len(), r);
        assert(replies.len() == 0);
        if let Ok(v) = r {
            assert(model::packages_of(v@).len() == v@.len());
        }
    }

    /// Looking up one name takes one request where it can be a package, else none.
    pub(crate) proof fn lemma_one_name(
        self,
        after: Self,
        name: Text,
        sent: nat,
        r: Result<Vec<Package>>,
    )
        requires
            self.info_may_take(after, seq![name], sent, r),
        ensures
            sent == if valid_name(name) {
                1nat
            } else {
                0nat
            },
    {
        let names = seq![name];
        let pages = self.info_pages(names);
        assert(names.drop_last() =~= seq![]);
        assert(valid_names(names.drop_last()) =~= seq![]);
        if valid_name(name) {
            assert(valid_names(names).len() == 1);
            assert(batches(valid_names(names)).len() == 1);
        } else {
            assert(valid_names(names).len() == 0);
        }
        let (states, replies) = choose|states: Seq<H>, replies: Seq<Reply>| #[trigger]
            exchanged(states, pages, replies) && states[0] == self.http && states.last()
                == after.http && replies.len() == sent && run_amounts_to(replies, pages.len(), r);
        assert(replies.len() <= pages.len());
    }

    /// A lookup that went well asked for every page.
    pub(crate) proof fn lemma_all_pages(
        self,
        after: Self,
        names: Seq<Text>,
        sent: nat,
        r: Result<Vec<Package>>,
    )
        requires
            self.info_may_take(after, names, sent, r),
            r is Ok,
        ensures
            sent == batches(valid_names(names)).len(),
    {
        let pages = self.info_pages(names);
        let (states, replies) = choose|states: Seq<H>, replies: Seq<Reply>| #[trigger]
            exchanged(states, pages, replies) && states[0] == self.http && states.last()
                == after.http && replies.len() == sent && run_amounts_to(replies, pages.len(), r);
        assert(replies.len() == pages.len());
    }

    /// A lookup of names that fit one page gives what the one answer says.
    pub(crate) proof fn lemma_one_page(
        self,
        after: Self,
        names: Seq<Text>,
        sent: nat,
        v: Vec<Package>,
    ) -> (answer: RpcResponse)
        requires
            self.info_may_take(after, names, sent, Ok(v)),
            valid_names(names) == names,
            0 < names.len() <= INFO_BATCH,
        ensures
            self.http.may_reply(&after.http, self.info_page(names), Ok(answer)),
            model::packages_of(v@) == packages_in(answer.results@),
    {
        let r: Result<Vec<Package>> = Ok(v);
        let pages = self.info_pages(names);
        let (states, replies) = choose|states: Seq<H>, replies: Seq<Reply>| #[trigger]
            exchanged(states, pages, replies) && states[0] == self.http && states.last()
                == after.http && replies.len() == sent && run_amounts_to(replies, pages.len(), r);
        assert(batches(names)[0] == names);
        assert(replies.len() == 1);
        assert(sound(replies[0]));
        assert(states[0].may_reply(&states[1], pages[0], replies[0]));
        assert(replies.drop_last() =~= seq![]);
        assert(gathered(replies.drop_last()) =~= seq![]);
        let answer = replies[0]->Ok_0;
        assert(gathered(replies) =~= packages_in(answer.results@));
        answer
    }

    /// The same, and how many requests were made.
    pub(crate) fn info_counted(&mut self, names: &[&str]) -> (r: (usize, Result<Vec<Package>>))
        ensures
            old(self).info_may_take(*final(self), texts(names@), r.0 as nat, r.1),
            r.0 <= names@.len(),
    {
        let ghost before = *self;
        let valid = keep_valid(names);
        let ghost all = valid.deep_view();
        let ghost wanted = batches(all);
        let ghost pages = before.info_pages(texts(names@));
        let mut found: Vec<Package> = Vec::new();
        let mut from: usize = 0;
        let mut sent: usize = 0;
        let ghost mut replies: Seq<Reply> = seq![];
        let ghost mut states: Seq<H> = seq![self.http];
        let n: usize = valid.len();
        proof {
            lemma_valid_count(texts(names@));
            assert(all.skip(0) =~= all);
            assert(wanted.skip(0) =~= wanted);
            assert(model::packages_of(found@) =~= gathered(replies));
        }
        while from < n
            invariant
                n == valid@.len(),
                n <= names@.len(),
                from <= n,
                sent <= from,
                sent == replies.len(),
                all == valid.deep_view(),
                all == valid_names(texts(names@)),
                wanted == batches(all),
                before == *old(self),
                pages == before.info_pages(texts(names@)),
                self.base == before.base,
                states[0] == before.http,
                states.last() == self.http,
                exchanged(states, pages, replies),
                wanted.skip(replies.len() as int) == batches(all.skip(from as int)),
                forall|i: int| 0 <= i < replies.len() ==> sound(#[trigger] replies[i]),
                model::packages_of(found@) == gathered(replies),
            decreases n - from,
        {
            let to: usize = if n - from <= INFO_BATCH {
                n
            } else {
                from + INFO_BATCH
            };
            let batch = part(&valid, from, to);
            let ghost k = replies.len() as int;
            let ghost rest = all.skip(from as int);
            proof {
                assert(rest.len() == n - from);
                if rest.len() <= INFO_BATCH {
                    assert(batch.deep_view() =~= rest);
                    assert(all.skip(n as int) =~= seq![]);
                    assert(batches(rest) =~= seq![rest]);
                } else {
                    assert(batch.deep_view() =~= rest.take(INFO_BATCH as int));
                    assert(rest.skip(INFO_BATCH as int) =~= all.skip(to as int));
                    assert(batches(rest) =~= seq![rest.take(INFO_BATCH as int)] + batches(
                        all.skip(to as int),
                    ));
                }
                assert(batches(rest)[0] == batch.deep_view());
                assert(wanted.skip(k).len() == wanted.len() - k);
                assert(batches(rest).len() > 0);
                assert(wanted.skip(k)[0] == wanted[k]);
                assert(wanted[k] == batch.deep_view());
                assert(wanted.skip(k + 1) =~= wanted.skip(k).skip(1));
                assert(batches(rest).skip(1) =~= batches(all.skip(to as int)));
            }
            let url = self.info_url(&batch);
            assert(url@ == pages[k]);
            let ghost asking = self.http;
            let reply = self.http.get(url.as_str());
            sent = sent + 1;
            let ghost asked = replies.push(reply);
            let ghost passed = states.push(self.http);
            proof {
                assert(asked.drop_last() =~= replies);
                assert forall|i: int| 0 <= i < asked.len() implies passed[i].may_reply(
                    &passed[i + 1],
                    pages[i],
                    #[trigger] asked[i],
                ) by {
                    if i < k {
                        assert(asked[i] == replies[i]);
                        assert(passed[i] == states[i]);
                        assert(passed[i + 1] == states[i + 1]);
                    } else {
                        assert(passed[i] == asking);
                    }
                }
                assert(exchanged(passed, pages, asked));
                assert(passed[0] == states[0]);
            }
            match reply {
                Err(e) => {
                    assert(asked.last() == reply);
                    assert(run_amounts_to(asked, pages.len(), Err(e)));
                    return (sent, Err(e));
                },
                Ok(answer) => {
                    let read = parse_info_response(answer);
                    match read {
                        Err(e) => {
                            assert(asked.last() == reply);
                            assert(run_amounts_to(asked, pages.len(), Err(e)));
                            return (sent, Err(e));
                        },
                        Ok(mut more) => {
                            let ghost had = found@;
                            let ghost added = more@;
                            found.append(&mut more);
                            proof {
                                assert(found@ =~= had + added);
                                assert(model::packages_of(found@) =~= model::packages_of(had)
                                    + model::packages_of(added));
                                replies = asked;
                                states = passed;
                            }
                        },
                    }
                },
            }
            from = to;
        }
        proof {
            assert(all.skip(n as int) =~= seq![]);
            assert(wanted.skip(replies.len() as int).len() == 0);
            assert(run_amounts_to(replies, pages.len(), Ok(found)));
        }
        (sent, Ok(found))
    }

    /// What looking up who provides a name may give: nothing is asked for where the name
    /// cannot be a package, and otherwise the search for it, once.
    pub open spec fn providers_may_be(
        self,
        after: Self,
        name: Text,
        r: Result<Vec<Package>>,
    ) -> bool {
        if !valid_name(name) {
            &&& after == self
            &&& r matches Ok(v) && v@.len() == 0
        } else {
            &&& after.base == self.base
            &&& exists|reply: Reply| #[trigger]
                self.http.may_reply(&after.http, self.search_page(name), reply) && match reply {
                    Ok(answer) => amounts_to(answer, r),
                    Err(f) => r matches Err(e) && e == f,
                }
        }
    }

    /// Looks up the packages that provide a name, which need not be a package.
    pub fn providers_of(&mut self, virtual_name: &str) -> (r: Result<Vec<Package>>)
        ensures
            old(self).providers_may_be(*final(self), virtual_name@, r),
    {
        let ghost before = *self;
        if !is_valid_package_name(virtual_name) {
            return Ok(Vec::new());
        }
        let mut url = concat(self.base.as_str(), "/search/");
        url.push_str(virtual_name);
        url.push_str("?by=provides");
        assert(url@ =~= before.search_page(virtual_name@));
        let reply = self.http.get(url.as_str());
        assert(before.http.may_reply(&self.http, before.search_page(virtual_name@), reply));
        match reply {
            Ok(answer) => parse_info_response(answer),
            Err(e) => Err(e),
        }
    }
}

proof fn lemma_valid_count(names: Seq<Text>)
    ensures
        valid_names(names).len() <= names.len(),
    decreases names.len(),
{
    if names.len() > 0 {
        lemma_valid_count(names.drop_last());
    }
}

fn keep_valid(names: &[&str]) -> (r: Vec<String>)
    ensures
        r.deep_view() == valid_names(texts(names@)),
{
    let mut r: Vec<String> = Vec::new();
    let ghost all = texts(names@);
    assert(all.take(0) =~= seq![]);
    for i in 0..names.len()
        invariant
            all == texts(names@),
            r.deep_view() == valid_names(all.take(i as int)),
    {
        proof {
            assert(all.take(i + 1).drop_last() =~= all.take(i as int));
            assert(all.take(i + 1).last() == names@[i as int]@);
        }
        let name = names[i];
        if is_valid_package_name(name) {
            let ghost before = r.deep_view();
            text::push_text(&mut r, name);
            assert(r.deep_view() =~= before.push(name@));
        }
    }
    assert(all.take(names@.len() as int) =~= all);
    r
}

fn part(v: &Vec<String>, from: usize, to: usize) -> (r: Vec<String>)
    requires
        from <= to <= v@.len(),
    ensures
        r.deep_view() == v.deep_view().subrange(from as int, to as int),
{
    let mut r: Vec<String> = Vec::new();
    let mut i: usize = from;
    while i < to
        invariant
            from <= i <= to <= v@.len(),
            r.deep_view() == v.deep_view().subrange(from as int, i as int),
        decreases to - i,
    {
        let ghost before = r.deep_view();
        text::push_text(&mut r, v[i].as_str());
        assert(r.deep_view() =~= before.push(v@[i as int]@));
        i += 1;
        assert(r.deep_view() =~= v.deep_view().subrange(from as int, i as int));
    }
    r
}

// ---------------------------------------------------------------------------- laws
/// What a lookup gives is of the AUR, every package of it.
pub proof fn found_packages_are_of_the_aur<H: HttpGet>(
    before: AurRpc<H>,
    after: AurRpc<H>,
    names: Seq<Text>,
    r: Result<Vec<Package>>,
)
    requires
        before.info_may_give(after, names, r),
    ensures
        r matches Ok(v) ==> forall|i: int| 0 <= i < v@.len() ==> (#[trigger] v@[i]).repo@
            == AUR_REPO@,
{
    let sent = choose|sent: nat| before.info_may_take(after, names, sent, r);
    if let Ok(v) = r {
        let pages = before.info_pages(names);
        let (states, replies) = choose|states: Seq<H>, replies: Seq<Reply>| #[trigger]
            exchanged(states, pages, replies) && states[0] == before.http && states.last()
                == after.http && replies.len() == sent && run_amounts_to(replies, pages.len(), r);
        lemma_gathered_repo(replies);
        assert forall|i: int| 0 <= i < v@.len() implies (#[trigger] v@[i]).repo@ == AUR_REPO@ by {
            assert(model::packages_of(v@)[i] == v@[i]@);
        }
    }
}

/// A lookup sends exactly its requests: a getter that logs what it is asked for has, after
/// it, the pages of the batches in their order, all of them where the lookup went well
/// and none where no name can be a package.
pub proof fn exactly_the_pages_are_asked<H: HttpGet>(
    before: AurRpc<H>,
    after: AurRpc<H>,
    names: Seq<Text>,
    sent: nat,
    r: Result<Vec<Package>>,
    log: spec_fn(H) -> Seq<Text>,
)
    requires
        before.info_may_take(after, names, sent, r),
        forall|a: H, b: H, url: Text, reply: Reply| #[trigger]
            a.may_reply(&b, url, reply) ==> log(b) == log(a).push(url),
    ensures
        sent <= before.info_pages(names).len(),
        log(after.http) == log(before.http) + before.info_pages(names).take(sent as int),
        r is Ok ==> sent == before.info_pages(names).len(),
        r is Err ==> sent > 0,
        valid_names(names).len() == 0 ==> sent == 0 && r is Ok && log(after.http) == log(
            before.http,
        ),
{
    let pages = before.info_pages(names);
    let (states, replies) = choose|states: Seq<H>, replies: Seq<Reply>| #[trigger]
        exchanged(states, pages, replies) && states[0] == before.http && states.last()
            == after.http && replies.len() == sent && run_amounts_to(replies, pages.len(), r);
    lemma_log(states, pages, replies, sent as int, log);
    if valid_names(names).len() == 0 {
        assert(log(after.http) =~= log(before.http));
    }
}

proof fn lemma_log<H: HttpGet>(
    states: Seq<H>,
    pages: Seq<Text>,
    replies: Seq<Reply>,
    k: int,
    log: spec_fn(H) -> Seq<Text>,
)
    requires
        exchanged(states, pages, replies),
        0 <= k <= replies.len(),
        forall|a: H, b: H, url: Text, reply: Reply| #[trigger]
            a.may_reply(&b, url, reply) ==> log(b) == log(a).push(url),
    ensures
        log(states[k]) == log(states[0]) + pages.take(k),
    decreases k,
{
    if k == 0 {
        assert(log(states[0]) + pages.take(0) =~= log(states[0]));
    } else {
        lemma_log(states, pages, replies, k - 1, log);
        assert(states[k - 1].may_reply(&states[k - 1 + 1], pages[k - 1], replies[k - 1]));
        assert(log(states[0]) + pages.take(k) =~= (log(states[0]) + pages.take(k - 1)).push(
            pages[k - 1],
        ));
    }
}

/// Looking up who provides a name sends one request, for the search by what packages
/// provide, and none where the name cannot be a package.
pub proof fn one_search_is_asked<H: HttpGet>(
    before: AurRpc<H>,
    after: AurRpc<H>,
    name: Text,
    r: Result<Vec<Package>>,
    log: spec_fn(H) -> Seq<Text>,
)
    requires
        before.providers_may_be(after, name, r),
        forall|a: H, b: H, url: Text, reply: Reply| #[trigger]
            a.may_reply(&b, url, reply) ==> log(b) == log(a).push(url),
    ensures
        log(after.http) == if valid_name(name) {
            log(before.http).push(before.base@ + "/search/"@ + name + "?by=provides"@)
        } else {
            log(before.http)
        },
{
}

proof fn lemma_gathered_repo(replies: Seq<Reply>)
    ensures
        forall|i: int|
            0 <= i < gathered(replies).len() ==> (#[trigger] gathered(replies)[i]).repo
                == AUR_REPO@,
    decreases replies.len(),
{
    if replies.len() > 0 {
        let before = gathered(replies.drop_last());
        lemma_gathered_repo(replies.drop_last());
        assert forall|i: int| 0 <= i < gathered(replies).len() implies (#[trigger] gathered(
            replies,
        )[i]).repo == AUR_REPO@ by {
            if i < before.len() {
                assert(gathered(replies)[i] == before[i]);
            }
        }
    }
}

/// A batch is never empty and never over its limit, and the batches hold the names in
/// their order: nothing that can be a package is left out, and nothing is asked twice.
pub proof fn batches_hold_every_name(names: Seq<Text>)
    ensures
        batches(names).flatten() == names,
        forall|i: int|
            0 <= i < batches(names).len() ==> 0 < (#[trigger] batches(names)[i]).len()
                <= INFO_BATCH,
    decreases names.len(),
{
    let b = batches(names);
    if names.len() == 0 {
        assert(b.flatten() =~= names);
    } else if names.len() <= INFO_BATCH {
        assert(b =~= seq![names]);
        assert(b.drop_first() =~= seq![]);
        reveal_with_fuel(Seq::flatten, 2);
        assert(b.flatten() =~= names);
    } else {
        let head = names.take(INFO_BATCH as int);
        let rest = names.skip(INFO_BATCH as int);
        batches_hold_every_name(rest);
        assert(b.first() == head);
        assert(b.drop_first() =~= batches(rest));
        assert(head + rest =~= names);
        assert forall|i: int| 0 <= i < b.len() implies 0 < (#[trigger] b[i]).len()
            <= INFO_BATCH by {
            if i > 0 {
                assert(b[i] == batches(rest)[i - 1]);
            }
        }
    }
}

/// What is asked for can be a package: a name that cannot never reaches a request.
pub proof fn only_valid_names_are_asked(names: Seq<Text>)
    ensures
        forall|i: int|
            0 <= i < valid_names(names).len() ==> valid_name(#[trigger] valid_names(names)[i])
                && names.contains(valid_names(names)[i]),
        forall|i: int|
            0 <= i < names.len() && valid_name(#[trigger] names[i]) ==> valid_names(names).contains(
                names[i],
            ),
    decreases names.len(),
{
    if names.len() > 0 {
        let init = names.drop_last();
        only_valid_names_are_asked(init);
        let v = valid_names(names);
        let w = valid_names(init);
        assert forall|i: int| 0 <= i < v.len() implies valid_name(#[trigger] v[i])
            && names.contains(v[i]) by {
            if i < w.len() {
                assert(v[i] == w[i]);
                let k = choose|k: int| 0 <= k < init.len() && init[k] == w[i];
                assert(names[k] == v[i]);
            } else {
                assert(names[names.len() - 1] == v[i]);
            }
        }
        assert forall|i: int| 0 <= i < names.len() && valid_name(#[trigger] names[i]) implies v.contains(
            names[i],
        ) by {
            if i < init.len() {
                assert(init[i] == names[i]);
                let k = choose|k: int| 0 <= k < w.len() && w[k] == init[i];
                assert(v[k] == names[i]);
            } else {
                assert(v[v.len() - 1] == names[i]);
            }
        }
    }
}

/// A page asks for every name that it is made for and for nothing but names; who provides a
/// name is asked by what is provided.
pub proof fn pages_ask_for_their_names<H: HttpGet>(rpc: AurRpc<H>, names: Seq<Text>, k: int)
    requires
        0 <= k < names.len(),
    ensures
        text::begins(rpc.info_page(names), rpc.base@ + "/info?arg[]="@ + names[0]),
        text::holds(rpc.info_page(names), "arg[]="@ + names[k]),
        text::ends(rpc.info_page(names), "arg[]="@ + names.last()),
        text::begins(rpc.search_page(names[k]), rpc.base@ + "/search/"@ + names[k] + "?by="@),
        text::ends(rpc.search_page(names[k]), "?by=provides"@),
{
    let head = rpc.base@ + "/info?"@;
    let args = query(names);
    let all = text::joined(args, "&"@);
    assert(args[k] == "arg[]="@ + names[k]);
    text::lemma_joined_holds(args, "&"@, k);
    text::lemma_sum_holds(head, all, args[k]);
    let page = rpc.info_page(names);
    lemma_joined_ends(args);
    let first = args[0];
    let last = args.last();
    assert(page.subrange(page.len() - last.len(), page.len() as int) =~= all.subrange(
        all.len() - last.len(),
        all.len() as int,
    ));
    reveal_strlit("/info?");
    reveal_strlit("arg[]=");
    reveal_strlit("/info?arg[]=");
    let begin = rpc.base@ + "/info?arg[]="@ + names[0];
    assert(begin =~= head + first);
    assert(page.subrange(0, begin.len() as int) =~= head + all.subrange(0, first.len() as int));
    let search = rpc.search_page(names[k]);
    reveal_strlit("?by=provides");
    reveal_strlit("?by=");
    let a = rpc.base@ + "/search/"@ + names[k] + "?by="@;
    assert(search.subrange(0, a.len() as int) =~= a);
    let b = "?by=provides"@;
    assert(search.subrange(search.len() - b.len(), search.len() as int) =~= b);
}

proof fn lemma_joined_ends(parts: Seq<Text>)
    requires
        parts.len() > 0,
    ensures
        text::begins(text::joined(parts, "&"@), parts[0]),
        text::ends(text::joined(parts, "&"@), parts.last()),
    decreases parts.len(),
{
    let all = text::joined(parts, "&"@);
    if parts.len() == 1 {
        assert(all.subrange(0, all.len() as int) =~= parts[0]);
    } else {
        let init = parts.drop_last();
        lemma_joined_ends(init);
        let some = text::joined(init, "&"@);
        let first = parts[0];
        let last = parts.last();
        assert(all =~= some + "&"@ + last);
        assert(all.subrange(0, first.len() as int) =~= some.subrange(0, first.len() as int));
        assert(all.subrange(all.len() - last.len(), all.len() as int) =~= last);
    }
}

} // verus!
