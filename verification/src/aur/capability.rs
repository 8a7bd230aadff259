//! What a system can do with the AUR, decided before anything starts, and why it
//! cannot do more.
use vstd::prelude::*;

use crate::aur::helper;
use crate::aur::helper::{parse_detected, preferred, AurHelper};
use crate::plan;
use crate::text;
use crate::text::{
    concat, concat3, contains, lines, parse, push_text, same, split, trim, Text,
};

verus! {

/// The lowest number of an ordinary account.
pub const FIRST_REGULAR_UID: u32 = 1000;

/// The highest one, below those with a meaning of their own.
pub const LAST_REGULAR_UID: u32 = 60000;

/// Why nothing can be built.
#[derive(Debug, Clone, Copy, PartialEq, Eq, Structural)]
pub enum Blocker {
    NoHelper,
    /// No ordinary account to build as.
    NoBuildUser,
    /// No compiler and what goes with it.
    NoBaseDevel,
}

impl Blocker {
    /// How the user is told.
    pub open spec fn shown(self) -> Text {
        match self {
            Blocker::NoHelper =>
                "No AUR helper found. Install paru or yay to build AUR packages."@,
            Blocker::NoBuildUser =>
                "No unprivileged user account found. makepkg refuses to run as root, so an AUR build needs a normal user to build as."@,
            Blocker::NoBaseDevel =>
                "base-devel is not installed, so builds would fail at the first compiler invocation."@,
        }
    }

    pub fn to_text(&self) -> (r: String)
        ensures
            r@ == self.shown(),
    {
        match self {
            Blocker::NoHelper =>
                "No AUR helper found. Install paru or yay to build AUR packages.".to_owned(),
            Blocker::NoBuildUser =>
                "No unprivileged user account found. makepkg refuses to run as root, so an AUR build needs a normal user to build as.".to_owned(),
            Blocker::NoBaseDevel =>
                "base-devel is not installed, so builds would fail at the first compiler invocation.".to_owned(),
        }
    }
}

/// How the account was found.
#[derive(Debug, Clone, Copy, PartialEq, Eq, Structural)]
pub enum BuildUserSource {
    /// Whoever authenticated for the operation.
    Pkexec,
    /// Whoever ran sudo.
    Sudo,
    /// The first ordinary account, which is a guess.
    PasswdScan,
}

impl BuildUserSource {
    pub fn label(self) -> (r: &'static str)
        ensures
            r@ == match self {
                BuildUserSource::Pkexec => "the user who authenticated"@,
                BuildUserSource::Sudo => "the user who ran sudo"@,
                BuildUserSource::PasswdScan => "first regular account (guessed)"@,
            },
    {
        match self {
            BuildUserSource::Pkexec => "the user who authenticated",
            BuildUserSource::Sudo => "the user who ran sudo",
            BuildUserSource::PasswdScan => "first regular account (guessed)",
        }
    }

    /// Whether the user should confirm it.
    pub fn is_guess(self) -> (r: bool)
        ensures
            r == (self == BuildUserSource::PasswdScan),
    {
        match self {
            BuildUserSource::PasswdScan => true,
            _ => false,
        }
    }
}

/// The account that builds.
#[derive(Debug, Clone, PartialEq, Eq)]
pub struct BuildUser {
    pub name: String,
    pub uid: u32,
    pub source: BuildUserSource,
}

/// An account as the contracts speak of it.
pub struct Account {
    pub name: Text,
    pub uid: int,
    pub source: BuildUserSource,
}

/// An optional account as the contracts speak of it.
pub open spec fn seen_user(u: Option<BuildUser>) -> Option<Account> {
    match u {
        Some(b) => Some(Account { name: b.name@, uid: b.uid as int, source: b.source }),
        None => None,
    }
}

/// What a system can do.
#[derive(Debug, Clone, PartialEq, Eq)]
pub struct AurCapability {
    /// The helpers that were found, the preferred ones first.
    pub helpers: Vec<AurHelper>,
    /// The one to use.
    pub helper: Option<AurHelper>,
    pub build_user: Option<BuildUser>,
    pub base_devel: bool,
    pub blockers: Vec<Blocker>,
}

impl Default for AurCapability {
    fn default() -> (r: Self)
        ensures
            r.helpers@ == Seq::<AurHelper>::empty(),
            r.helper is None,
            r.build_user is None,
            !r.base_devel,
            r.blockers@ == Seq::<Blocker>::empty(),
    {
        AurCapability {
            helpers: Vec::new(),
            helper: None,
            build_user: None,
            base_devel: false,
            blockers: Vec::new(),
        }
    }
}

pub open spec fn blocker_if(missing: bool, b: Blocker) -> Seq<Blocker> {
    if missing {
        seq![b]
    } else {
        seq![]
    }
}

impl AurCapability {
    /// Everything that is missing.
    pub open spec fn missing(self) -> Seq<Blocker> {
        blocker_if(self.helper is None, Blocker::NoHelper) + blocker_if(
            self.build_user is None,
            Blocker::NoBuildUser,
        ) + blocker_if(!self.base_devel, Blocker::NoBaseDevel)
    }

    /// Everything that is missing, by what is there.
    pub fn blockers(&self) -> (r: Vec<Blocker>)
        ensures
            r@ == self.missing(),
    {
        let mut v: Vec<Blocker> = Vec::new();
        if self.helper.is_none() {
            v.push(Blocker::NoHelper);
        }
        if self.build_user.is_none() {
            v.push(Blocker::NoBuildUser);
        }
        if !self.base_devel {
            v.push(Blocker::NoBaseDevel);
        }
        assert(v@ =~= self.missing());
        v
    }

    /// The same, with everything that is missing written down.
    pub fn with_blockers(self) -> (r: Self)
        ensures
            r.blockers@ == self.missing(),
            r.helpers == self.helpers,
            r.helper == self.helper,
            r.build_user == self.build_user,
            r.base_devel == self.base_devel,
    {
        let blockers = self.blockers();
        AurCapability {
            helpers: self.helpers,
            helper: self.helper,
            build_user: self.build_user,
            base_devel: self.base_devel,
            blockers,
        }
    }

    /// Whether a build can start: nothing is written down as missing.
    pub fn is_ready(&self) -> (r: bool)
        ensures
            r == (self.blockers@.len() == 0),
    {
        self.blockers.len() == 0
    }

    /// The system in one line: the first thing that is missing, or who builds by what.
    pub fn summary(&self) -> (r: String)
        ensures
            r@ == if self.blockers@.len() > 0 {
                self.blockers@[0].shown()
            } else {
                match (self.helper, self.build_user) {
                    (Some(h), Some(u)) => h.program() + ", building as "@ + u.name@,
                    _ => "Unavailable"@,
                }
            },
    {
        if self.blockers.len() > 0 {
            return self.blockers[0].to_text();
        }
        match (&self.helper, &self.build_user) {
            (Some(h), Some(u)) => concat3(h.binary(), ", building as ", u.name.as_str()),
            _ => "Unavailable".to_owned(),
        }
    }
}

/// With everything that is missing written down, a system is ready if and only if
/// nothing is missing, and then it has a helper and an account.
pub proof fn ready_means_complete(c: AurCapability)
    requires
        c.blockers@ == c.missing(),
    ensures
        c.blockers@.len() == 0 <==> c.helper is Some && c.build_user is Some && c.base_devel,
{
}

// --------------------------------------------------------------------- the accounts
/// A row of /etc/passwd.
pub struct Row {
    pub name: Text,
    pub uid: int,
    pub shell: Text,
}

/// A line as a row, where it is one: a name, a password, a number, and a shell in
/// its seventh field.
pub open spec fn row_of(line: Text) -> Option<Row> {
    let f = text::pieces(line, ':');
    if f.len() < 3 || f[0].len() == 0 {
        None
    } else {
        match text::parsed(f[2], u32::MAX as int) {
            Some(uid) => Some(
                Row {
                    name: f[0],
                    uid,
                    shell: if f.len() > 6 {
                        f[6]
                    } else {
                        ""@
                    },
                },
            ),
            None => None,
        }
    }
}

/// The rows among some lines; other lines are passed over.
pub open spec fn rows_of(lines: Seq<Text>) -> Seq<Row>
    decreases lines.len(),
{
    if lines.len() == 0 {
        seq![]
    } else {
        match row_of(lines.last()) {
            Some(row) => rows_of(lines.drop_last()).push(row),
            None => rows_of(lines.drop_last()),
        }
    }
}

/// A row in executable form.
struct PasswdRow {
    name: String,
    uid: u32,
    shell: String,
}

spec fn seen_row(row: PasswdRow) -> Row {
    Row { name: row.name@, uid: row.uid as int, shell: row.shell@ }
}

spec fn seen_rows(v: Seq<PasswdRow>) -> Seq<Row> {
    v.map_values(|row: PasswdRow| seen_row(row))
}

fn read_row(line: &str) -> (r: Option<PasswdRow>)
    ensures
        match r {
            Some(row) => row_of(line@) == Some(seen_row(row)),
            None => row_of(line@) is None,
        },
{
    let f = split(line, ':');
    let ghost d = f.deep_view();
    assert(d.len() == f@.len());
    if f.len() < 3 {
        return None;
    }
    assert(d[0] == f@[0]@);
    assert(d[2] == f@[2]@);
    if same(f[0].as_str(), "") {
        proof {
            reveal_strlit("");
        }
        return None;
    }
    assert(d[0].len() > 0) by {
        reveal_strlit("");
        if d[0].len() == 0 {
            assert(d[0] =~= ""@);
        }
    }
    match parse(f[2].as_str(), u32::MAX as u64) {
        Some(n) => {
            let shell = if f.len() > 6 {
                assert(d[6] == f@[6]@);
                f[6].clone()
            } else {
                "".to_owned()
            };
            proof {
                text::lemma_parsed_range(f@[2]@, u32::MAX as int);
            }
            Some(PasswdRow { name: f[0].clone(), uid: n as u32, shell })
        },
        None => None,
    }
}

fn passwd_rows(passwd: &str) -> (r: Vec<PasswdRow>)
    ensures
        seen_rows(r@) == rows_of(text::lines_of(passwd@)),
{
    let all = lines(passwd);
    let ghost d = all.deep_view();
    let mut v: Vec<PasswdRow> = Vec::new();
    assert(seen_rows(v@) =~= rows_of(d.take(0)));
    let mut i: usize = 0;
    while i < all.len()
        invariant
            i <= all@.len(),
            d == all.deep_view(),
            seen_rows(v@) == rows_of(d.take(i as int)),
        decreases all.len() - i,
    {
        let ghost before = v@;
        assert(d[i as int] == all@[i as int]@);
        if let Some(row) = read_row(all[i].as_str()) {
            v.push(row);
            assert(seen_rows(v@) =~= seen_rows(before).push(seen_row(row)));
        }
        proof {
            assert(d.take(i + 1).drop_last() =~= d.take(i as int));
            assert(d.take(i + 1).last() == d[i as int]);
        }
        i += 1;
    }
    assert(d.take(i as int) =~= d);
    v
}

/// The name in the first row from the `n`th on with this number.
pub open spec fn name_from(rows: Seq<Row>, uid: int, n: int) -> Option<Text>
    decreases rows.len() - n,
{
    if n >= rows.len() {
        None
    } else if rows[n].uid == uid {
        Some(rows[n].name)
    } else {
        name_from(rows, uid, n + 1)
    }
}

fn username_for_uid(rows: &Vec<PasswdRow>, want: u32) -> (r: Option<String>)
    ensures
        plan::seen(r) == name_from(seen_rows(rows@), want as int, 0),
{
    let mut i: usize = 0;
    while i < rows.len()
        invariant
            i <= rows@.len(),
            name_from(seen_rows(rows@), want as int, 0) == name_from(
                seen_rows(rows@),
                want as int,
                i as int,
            ),
        decreases rows.len() - i,
    {
        assert(seen_rows(rows@)[i as int] == seen_row(rows@[i as int]));
        if rows[i].uid == want {
            return Some(rows[i].name.clone());
        }
        i += 1;
    }
    assert(seen_rows(rows@).len() == rows@.len());
    None
}

/// Somebody can log in with the shell.
pub open spec fn login_shell(shell: Text) -> bool {
    let t = text::trimmed(shell);
    &&& t != ""@
    &&& t != "/usr/bin/nologin"@
    &&& t != "/sbin/nologin"@
    &&& t != "/usr/sbin/nologin"@
    &&& t != "/bin/false"@
    &&& t != "/usr/bin/false"@
}

pub fn is_login_shell(shell: &str) -> (r: bool)
    ensures
        r == login_shell(shell@),
{
    let t = trim(shell);
    let t = t.as_str();
    !same(t, "") && !same(t, "/usr/bin/nologin") && !same(t, "/sbin/nologin") && !same(
        t,
        "/usr/sbin/nologin",
    ) && !same(t, "/bin/false") && !same(t, "/usr/bin/false")
}

/// An ordinary account that somebody can log in to.
pub open spec fn regular(row: Row) -> bool {
    FIRST_REGULAR_UID <= row.uid <= LAST_REGULAR_UID && login_shell(row.shell)
}

/// Among the first `n` rows, the ordinary account with the lowest number, the
/// first of them where there are several.
pub open spec fn lowest(rows: Seq<Row>, n: int) -> Option<Row>
    decreases n,
{
    if n <= 0 {
        None
    } else {
        let row = rows[n - 1];
        match lowest(rows, n - 1) {
            Some(best) if best.uid <= row.uid => Some(best),
            best => if regular(row) {
                Some(row)
            } else {
                best
            },
        }
    }
}

fn lowest_regular(rows: &Vec<PasswdRow>) -> (r: Option<usize>)
    ensures
        match r {
            Some(k) => k < rows@.len() && lowest(seen_rows(rows@), rows@.len() as int) == Some(
                seen_row(rows@[k as int]),
            ),
            None => lowest(seen_rows(rows@), rows@.len() as int) is None,
        },
{
    let mut best: Option<usize> = None;
    let mut i: usize = 0;
    while i < rows.len()
        invariant
            i <= rows@.len(),
            match best {
                Some(k) => k < i && lowest(seen_rows(rows@), i as int) == Some(
                    seen_row(rows@[k as int]),
                ),
                None => lowest(seen_rows(rows@), i as int) is None,
            },
        decreases rows.len() - i,
    {
        assert(seen_rows(rows@)[i as int] == seen_row(rows@[i as int]));
        let beaten = match best {
            Some(k) => rows[k].uid <= rows[i].uid,
            None => false,
        };
        if !beaten && FIRST_REGULAR_UID <= rows[i].uid && rows[i].uid <= LAST_REGULAR_UID
            && is_login_shell(rows[i].shell.as_str()) {
            best = Some(i);
        }
        i += 1;
    }
    best
}

/// The first ordinary account in the content of /etc/passwd, and its number.
pub fn first_regular_user(passwd: &str) -> (r: Option<(String, u32)>)
    ensures
        ({
            let rows = rows_of(text::lines_of(passwd@));
            match r {
                Some((name, uid)) => lowest(rows, rows.len() as int) matches Some(row) && name@
                    == row.name && uid == row.uid,
                None => lowest(rows, rows.len() as int) is None,
            }
        }),
{
    let rows = passwd_rows(passwd);
    assert(seen_rows(rows@).len() == rows@.len());
    match lowest_regular(&rows) {
        Some(k) => Some((rows[k].name.clone(), rows[k].uid)),
        None => None,
    }
}

/// The account that a variable with a number names, where it names one that is no
/// account of the system.
pub open spec fn named_account(
    value: Option<Text>,
    rows: Seq<Row>,
    source: BuildUserSource,
) -> Option<Account> {
    match value {
        Some(v) => match text::parsed(text::trimmed(v), u32::MAX as int) {
            Some(uid) => match name_from(rows, uid, 0) {
                Some(name) if uid >= FIRST_REGULAR_UID => Some(Account { name, uid, source }),
                _ => None,
            },
            None => None,
        },
        None => None,
    }
}

/// Who builds: whoever authenticated, else whoever ran sudo, else a guess.
pub open spec fn account_of(
    pkexec_uid: Option<Text>,
    sudo_uid: Option<Text>,
    rows: Seq<Row>,
) -> Option<Account> {
    match named_account(pkexec_uid, rows, BuildUserSource::Pkexec) {
        Some(a) => Some(a),
        None => match named_account(sudo_uid, rows, BuildUserSource::Sudo) {
            Some(a) => Some(a),
            None => match lowest(rows, rows.len() as int) {
                Some(row) => Some(
                    Account { name: row.name, uid: row.uid, source: BuildUserSource::PasswdScan },
                ),
                None => None,
            },
        },
    }
}

fn find_named(value: Option<&str>, rows: &Vec<PasswdRow>, source: BuildUserSource) -> (r: Option<
    BuildUser,
>)
    ensures
        seen_user(r) == named_account(plan::seen_str(value), seen_rows(rows@), source),
{
    match value {
        Some(v) => {
            let t = trim(v);
            proof {
                text::lemma_parsed_range(t@, u32::MAX as int);
            }
            match parse(t.as_str(), u32::MAX as u64) {
                Some(n) => {
                    if n < FIRST_REGULAR_UID as u64 {
                        return None;
                    }
                    match username_for_uid(rows, n as u32) {
                        Some(name) => Some(BuildUser { name, uid: n as u32, source }),
                        None => None,
                    }
                },
                None => None,
            }
        },
        None => None,
    }
}

/// Finds the account that builds, by the variables PKEXEC_UID and SUDO_UID and the
/// content of /etc/passwd.
pub fn resolve_build_user(pkexec_uid: Option<&str>, sudo_uid: Option<&str>, passwd: &str) -> (r:
    Option<BuildUser>)
    ensures
        seen_user(r) == account_of(
            plan::seen_str(pkexec_uid),
            plan::seen_str(sudo_uid),
            rows_of(text::lines_of(passwd@)),
        ),
{
    let rows = passwd_rows(passwd);
    assert(seen_rows(rows@).len() == rows@.len());
    if let Some(u) = find_named(pkexec_uid, &rows, BuildUserSource::Pkexec) {
        return Some(u);
    }
    if let Some(u) = find_named(sudo_uid, &rows, BuildUserSource::Sudo) {
        return Some(u);
    }
    match lowest_regular(&rows) {
        Some(k) => Some(
            BuildUser {
                name: rows[k].name.clone(),
                uid: rows[k].uid,
                source: BuildUserSource::PasswdScan,
            },
        ),
        None => None,
    }
}

// ---------------------------------------------------------------------------- laws
/// A guessed account is an ordinary one that /etc/passwd holds, and no ordinary one
/// has a lower number. In particular it is neither root nor an account of the system.
pub proof fn guess_is_the_lowest_regular(rows: Seq<Row>)
    ensures
        match lowest(rows, rows.len() as int) {
            Some(best) => {
                &&& rows.contains(best)
                &&& regular(best)
                &&& forall|i: int|
                    0 <= i < rows.len() && regular(#[trigger] rows[i]) ==> best.uid <= rows[i].uid
            },
            None => forall|i: int| 0 <= i < rows.len() ==> !regular(#[trigger] rows[i]),
        },
{
    lemma_lowest(rows, rows.len() as int);
}

proof fn lemma_lowest(rows: Seq<Row>, n: int)
    requires
        0 <= n <= rows.len(),
    ensures
        match lowest(rows, n) {
            Some(best) => {
                &&& rows.contains(best)
                &&& regular(best)
                &&& forall|i: int|
                    0 <= i < n && regular(#[trigger] rows[i]) ==> best.uid <= rows[i].uid
            },
            None => forall|i: int| 0 <= i < n ==> !regular(#[trigger] rows[i]),
        },
    decreases n,
{
    if n > 0 {
        lemma_lowest(rows, n - 1);
        assert(rows.contains(rows[n - 1]));
    }
}

/// Whoever builds is in /etc/passwd, under that name and number.
pub proof fn builder_exists(pkexec_uid: Option<Text>, sudo_uid: Option<Text>, rows: Seq<Row>)
    ensures
        account_of(pkexec_uid, sudo_uid, rows) matches Some(a) ==> exists|i: int|
            0 <= i < rows.len() && (#[trigger] rows[i]).name == a.name && rows[i].uid == a.uid,
{
    if let Some(a) = named_account(pkexec_uid, rows, BuildUserSource::Pkexec) {
        lemma_name_from(rows, a.uid, 0);
    }
    if let Some(a) = named_account(sudo_uid, rows, BuildUserSource::Sudo) {
        lemma_name_from(rows, a.uid, 0);
    }
    if let Some(best) = lowest(rows, rows.len() as int) {
        lemma_lowest(rows, rows.len() as int);
        let i = choose|i: int| 0 <= i < rows.len() && rows[i] == best;
        assert(rows[i].name == best.name);
    }
}

/// Neither root nor an account of the system is ever handed a build, whatever the
/// variables say.
pub proof fn system_accounts_never_build(
    pkexec_uid: Option<Text>,
    sudo_uid: Option<Text>,
    rows: Seq<Row>,
)
    ensures
        account_of(pkexec_uid, sudo_uid, rows) matches Some(a) ==> a.uid >= FIRST_REGULAR_UID,
{
    lemma_lowest(rows, rows.len() as int);
}

proof fn lemma_name_from(rows: Seq<Row>, uid: int, n: int)
    requires
        0 <= n,
    ensures
        name_from(rows, uid, n) matches Some(t) ==> exists|i: int|
            0 <= i < rows.len() && (#[trigger] rows[i]).name == t && rows[i].uid == uid,
    decreases rows.len() - n,
{
    if n < rows.len() && rows[n].uid != uid {
        lemma_name_from(rows, uid, n + 1);
    }
}

// ------------------------------------------------------------------------- probing
/// The command that tells whether base-devel is there. It is a group of packages,
/// and never a package itself.
pub const BASE_DEVEL_CMD: &'static str =
    "pacman -Qg base-devel >/dev/null 2>&1 && echo base-devel; true";

pub fn base_devel_cmd() -> (r: &'static str)
    ensures
        r@ == BASE_DEVEL_CMD@,
{
    BASE_DEVEL_CMD
}

/// The shell command that asks a system for base-devel; an empty root is the
/// running one.
pub fn base_devel_probe(root: &str) -> (r: String)
    ensures
        r@ == if root@.len() == 0 {
            BASE_DEVEL_CMD@
        } else {
            "chroot "@ + root@ + " sh -c '"@ + BASE_DEVEL_CMD@ + "'"@
        },
{
    if same(root, "") {
        proof {
            reveal_strlit("");
        }
        return BASE_DEVEL_CMD.to_owned();
    }
    assert(root@.len() > 0) by {
        reveal_strlit("");
        if root@.len() == 0 {
            assert(root@ =~= ""@);
        }
    }
    concat3(concat3("chroot ", root, " sh -c '").as_str(), BASE_DEVEL_CMD, "'")
}

/// What was looked up in a system.
#[derive(Debug, Clone)]
pub struct ProbeFacts {
    /// What the command of `helper::detect_cmd` printed; nothing where it failed.
    pub helpers: Option<String>,
    /// What the command of [`base_devel_probe`] printed; nothing where it failed.
    pub base_devel: Option<String>,
    /// The content of /etc/passwd; empty where it cannot be read.
    pub passwd: String,
    pub pkexec_uid: Option<String>,
    pub sudo_uid: Option<String>,
}

fn borrowed(t: &Option<String>) -> (r: Option<&str>)
    ensures
        plan::seen_str(r) == plan::seen(*t),
{
    match t {
        Some(s) => Some(s.as_str()),
        None => None,
    }
}

/// What a system can do, by what was looked up in it.
pub fn probe(facts: &ProbeFacts) -> (r: AurCapability)
    ensures
        r.helpers@ == match facts.helpers {
            Some(out) => helper::detected(out@),
            None => Seq::<AurHelper>::empty(),
        },
        r.helper == helper::preferred_of(r.helpers@),
        seen_user(r.build_user) == account_of(
            plan::seen(facts.pkexec_uid),
            plan::seen(facts.sudo_uid),
            rows_of(text::lines_of(facts.passwd@)),
        ),
        r.base_devel == match facts.base_devel {
            Some(out) => text::holds(out@, "base-devel"@),
            None => false,
        },
        r.blockers@ == r.missing(),
{
    let helpers = match &facts.helpers {
        Some(out) => parse_detected(out.as_str()),
        None => Vec::new(),
    };
    let helper = preferred(&helpers);
    let base_devel = match &facts.base_devel {
        Some(out) => contains(out.as_str(), "base-devel"),
        None => false,
    };
    let build_user = resolve_build_user(
        borrowed(&facts.pkexec_uid),
        borrowed(&facts.sudo_uid),
        facts.passwd.as_str(),
    );
    let c = AurCapability { helpers, helper, build_user, base_devel, blockers: Vec::new() };
    c.with_blockers()
}

/// An account is read as it is entered: the name before the first colon, the number behind the
/// second and the shell behind the last, whatever the other fields hold.
pub proof fn accounts_are_read_as_entered(
    name: Text,
    password: Text,
    uid: nat,
    group: Text,
    remark: Text,
    home: Text,
    shell: Text,
)
    requires
        name.len() > 0,
        uid <= u32::MAX,
        !name.contains(':'),
        !password.contains(':'),
        !group.contains(':'),
        !remark.contains(':'),
        !home.contains(':'),
        !shell.contains(':'),
    ensures
        row_of(
            name + seq![':'] + (password + seq![':'] + (text::decimal(uid) + seq![':'] + (group + seq![
                ':',
            ] + (remark + seq![':'] + (home + seq![':'] + shell))))),
        ) == Some(Row { name, uid: uid as int, shell }),
{
    let number = text::decimal(uid);
    text::decimal_is_read_back(uid);
    if number.contains(':') {
        let i = choose|i: int| 0 <= i < number.len() && number[i] == ':';
        assert(text::digit(number[i]));
    }
    let f = home + seq![':'] + shell;
    let e = remark + seq![':'] + f;
    let d = group + seq![':'] + e;
    let c = number + seq![':'] + d;
    let b = password + seq![':'] + c;
    text::lemma_pieces_sum(home, shell, ':');
    text::lemma_pieces_sum(remark, f, ':');
    text::lemma_pieces_sum(group, e, ':');
    text::lemma_pieces_sum(number, d, ':');
    text::lemma_pieces_sum(password, c, ':');
    text::lemma_pieces_sum(name, b, ':');
    text::lemma_one_piece(name, ':');
    text::lemma_one_piece(password, ':');
    text::lemma_one_piece(number, ':');
    text::lemma_one_piece(group, ':');
    text::lemma_one_piece(remark, ':');
    text::lemma_one_piece(home, ':');
    text::lemma_one_piece(shell, ':');
    let v = text::pieces(name + seq![':'] + b, ':');
    assert(v =~= seq![name, password, number, group, remark, home, shell]);
    assert(text::digit(number[0]));
    assert(text::unsigned_digits(number) == number);
    assert(text::parsed(number, u32::MAX as int) == Some(uid as int));
}

/// Whoever authenticated builds, whoever ran sudo and whoever else is there; whoever ran sudo
/// builds where nobody authenticated. Only where neither is known is an account guessed, and
/// nobody below the ordinary numbers ever builds.
pub proof fn whoever_asked_builds(uid: nat, other: Option<Text>, rows: Seq<Row>, k: int)
    requires
        1000 <= uid <= u32::MAX,
        0 <= k < rows.len(),
        rows[k].uid == uid,
    ensures
        account_of(Some(text::decimal(uid)), other, rows) matches Some(a) && a.uid == uid && a.source
            == BuildUserSource::Pkexec,
        account_of(None, Some(text::decimal(uid)), rows) matches Some(a) && a.uid == uid && a.source
            == BuildUserSource::Sudo,
        account_of(None, None, rows) matches Some(a) ==> a.source == BuildUserSource::PasswdScan
            && 1000 <= a.uid,
{
    let d = text::decimal(uid);
    text::decimal_is_read_back(uid);
    assert(text::digit(d[0]));
    assert(text::digit(d[d.len() - 1]));
    assert(text::trimmed_start(d) == d);
    assert(text::trimmed_end(d) == d);
    assert(text::unsigned_digits(d) == d);
    assert(text::parsed(text::trimmed(d), u32::MAX as int) == Some(uid as int));
    lemma_name_found(rows, uid as int, 0, k);
    lemma_lowest(rows, rows.len() as int);
}

proof fn lemma_name_found(rows: Seq<Row>, uid: int, n: int, k: int)
    requires
        0 <= n <= k < rows.len(),
        rows[k].uid == uid,
    ensures
        name_from(rows, uid, n) is Some,
    decreases k - n,
{
    if n < k && rows[n].uid != uid {
        lemma_name_found(rows, uid, n + 1, k);
    }
}

} // verus!
