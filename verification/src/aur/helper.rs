//! The programs that build AUR packages, and how each is called.
use vstd::prelude::*;

use crate::text;
use crate::text::{concat, concat3, join, lines, push_text, same, trim, Text};

verus! {

/// A program that builds AUR packages, the preferred ones first.
#[derive(Debug, Clone, Copy, PartialEq, Eq, PartialOrd, Ord, Structural)]
pub enum AurHelper {
    Paru,
    Yay,
    Pikaur,
    Trizen,
    /// The one that runs as root and has a flag of its own.
    Aura,
}

/// The helpers in the order of preference.
pub open spec fn every_helper() -> Seq<AurHelper> {
    seq![
        AurHelper::Paru,
        AurHelper::Yay,
        AurHelper::Pikaur,
        AurHelper::Trizen,
        AurHelper::Aura,
    ]
}

impl AurHelper {
    /// All of them, the preferred ones first.
    pub fn all() -> (r: Vec<AurHelper>)
        ensures
            r@ == every_helper(),
    {
        let v = vec![
            AurHelper::Paru,
            AurHelper::Yay,
            AurHelper::Pikaur,
            AurHelper::Trizen,
            AurHelper::Aura,
        ];
        assert(v@ =~= every_helper());
        v
    }

    /// The name of the program.
    pub open spec fn program(self) -> Text {
        match self {
            AurHelper::Paru => "paru"@,
            AurHelper::Yay => "yay"@,
            AurHelper::Pikaur => "pikaur"@,
            AurHelper::Trizen => "trizen"@,
            AurHelper::Aura => "aura"@,
        }
    }

    pub fn binary(self) -> (r: &'static str)
        ensures
            r@ == self.program(),
    {
        match self {
            AurHelper::Paru => "paru",
            AurHelper::Yay => "yay",
            AurHelper::Pikaur => "pikaur",
            AurHelper::Trizen => "trizen",
            AurHelper::Aura => "aura",
        }
    }

    /// How the helper is shown to the user.
    pub fn to_text(&self) -> (r: String)
        ensures
            r@ == self.program(),
    {
        self.binary().to_owned()
    }

    /// Whether it has to run as root. The others must not, because makepkg does not
    /// build as root.
    pub fn runs_as_root(self) -> (r: bool)
        ensures
            r == (self == AurHelper::Aura),
    {
        match self {
            AurHelper::Aura => true,
            _ => false,
        }
    }

    /// The flag that installs from the AUR.
    pub open spec fn flag(self) -> Text {
        if self == AurHelper::Aura {
            "-A"@
        } else {
            "-S"@
        }
    }

    fn install_flag(self) -> (r: &'static str)
        ensures
            r@ == self.flag(),
    {
        match self {
            AurHelper::Aura => "-A",
            _ => "-S",
        }
    }

    /// The flags that keep it from asking. Not every helper can pass over what is
    /// installed.
    pub open spec fn quiet_flags(self) -> Text {
        match self {
            AurHelper::Paru | AurHelper::Yay => "--noconfirm --needed"@,
            _ => "--noconfirm"@,
        }
    }

    fn noninteractive_flags(self) -> (r: &'static str)
        ensures
            r@ == self.quiet_flags(),
    {
        match self {
            AurHelper::Paru | AurHelper::Yay => "--noconfirm --needed",
            _ => "--noconfirm",
        }
    }

    /// Where its program lies below a root.
    pub open spec fn path_below(self, root: Text) -> Text {
        root + "/usr/bin/"@ + self.program()
    }

    pub fn path_in(self, root: &str) -> (r: String)
        ensures
            r@ == self.path_below(root@),
    {
        concat3(root, "/usr/bin/", self.binary())
    }

    /// The call itself, with the assignments in front of it.
    pub open spec fn call(self, env_prefix: Text, packages: Seq<Text>) -> Text {
        env_prefix + self.program() + " "@ + self.flag() + " "@ + self.quiet_flags() + " "@
            + text::joined(packages, " "@)
    }

    /// The command that installs packages. The assignments are made on the far side
    /// of the change of user, which would drop them.
    pub open spec fn command(self, user: Text, env_prefix: Text, packages: Seq<Text>) -> Text {
        if self == AurHelper::Aura {
            self.call(env_prefix, packages)
        } else {
            "sudo -u "@ + user + " env "@ + self.call(env_prefix, packages)
        }
    }

    /// The command that installs packages as the user who builds.
    pub fn install_cmd(self, build_user: &str, env_prefix: &str, packages: &Vec<String>) -> (r:
        String)
        ensures
            r@ == self.command(build_user@, env_prefix@, packages.deep_view()),
    {
        let a = concat3(env_prefix, self.binary(), " ");
        let b = concat3(a.as_str(), self.install_flag(), " ");
        let c = concat3(b.as_str(), self.noninteractive_flags(), " ");
        let core = concat(c.as_str(), join(packages, " ").as_str());
        if self.runs_as_root() {
            core
        } else {
            concat(concat3("sudo -u ", build_user, " env ").as_str(), core.as_str())
        }
    }
}

/// The test for one helper.
pub open spec fn probe_of(h: AurHelper, root: Text) -> Text {
    "[ -x "@ + h.path_below(root) + " ] && echo "@ + h.program()
}

/// The command that names the helpers below a root; it never fails.
pub open spec fn detect_command(root: Text) -> Text {
    text::joined(every_helper().map_values(|h: AurHelper| probe_of(h, root)), "; "@) + "; true"@
}

pub fn detect_cmd(root: &str) -> (r: String)
    ensures
        r@ == detect_command(root@),
{
    let all = AurHelper::all();
    let ghost probes = every_helper().map_values(|h: AurHelper| probe_of(h, root@));
    let mut tests: Vec<String> = Vec::new();
    let mut i: usize = 0;
    while i < all.len()
        invariant
            i <= all@.len(),
            all@ == every_helper(),
            probes == every_helper().map_values(|h: AurHelper| probe_of(h, root@)),
            tests.deep_view() == probes.take(i as int),
        decreases all.len() - i,
    {
        let h = all[i];
        let one = concat3("[ -x ", h.path_in(root).as_str(), " ] && echo ");
        push_text(&mut tests, concat(one.as_str(), h.binary()).as_str());
        i += 1;
        assert(tests.deep_view() =~= probes.take(i as int));
    }
    assert(probes.take(i as int) =~= probes);
    concat(join(&tests, "; ").as_str(), "; true")
}

/// A line of the output names the helper.
pub open spec fn named(stdout: Text, h: AurHelper) -> bool {
    exists|i: int|
        0 <= i < text::lines_of(stdout).len() && text::trimmed(#[trigger] text::lines_of(stdout)[i])
            == h.program()
}

/// The helpers among the first `n` that the output names, in the order of preference.
pub open spec fn named_among(stdout: Text, n: int) -> Seq<AurHelper>
    decreases n,
{
    if n <= 0 {
        seq![]
    } else if named(stdout, every_helper()[n - 1]) {
        named_among(stdout, n - 1).push(every_helper()[n - 1])
    } else {
        named_among(stdout, n - 1)
    }
}

/// The helpers that the output names: each once, the preferred ones first. Lines
/// that name none are passed over.
pub open spec fn detected(stdout: Text) -> Seq<AurHelper> {
    named_among(stdout, every_helper().len() as int)
}

fn is_named(all: &Vec<String>, h: AurHelper) -> (r: bool)
    ensures
        r == exists|i: int|
            0 <= i < all.deep_view().len() && text::trimmed(#[trigger] all.deep_view()[i])
                == h.program(),
{
    let ghost d = all.deep_view();
    let mut i: usize = 0;
    while i < all.len()
        invariant
            i <= all@.len(),
            d == all.deep_view(),
            forall|j: int| 0 <= j < i ==> text::trimmed(#[trigger] d[j]) != h.program(),
        decreases all.len() - i,
    {
        assert(d[i as int] == all@[i as int]@);
        if same(trim(all[i].as_str()).as_str(), h.binary()) {
            assert(text::trimmed(d[i as int]) == h.program());
            return true;
        }
        i += 1;
    }
    assert(d.len() == all@.len());
    false
}

/// The helpers in the output of [`detect_cmd`].
pub fn parse_detected(stdout: &str) -> (r: Vec<AurHelper>)
    ensures
        r@ == detected(stdout@),
{
    let all = lines(stdout);
    let helpers = AurHelper::all();
    let mut found: Vec<AurHelper> = Vec::new();
    let mut i: usize = 0;
    while i < helpers.len()
        invariant
            i <= helpers@.len(),
            helpers@ == every_helper(),
            all.deep_view() == text::lines_of(stdout@),
            found@ == named_among(stdout@, i as int),
        decreases helpers.len() - i,
    {
        if is_named(&all, helpers[i]) {
            found.push(helpers[i]);
        }
        i += 1;
    }
    found
}

/// The first helper from the `n`th on that is among those found.
pub open spec fn preferred_from(found: Seq<AurHelper>, n: int) -> Option<AurHelper>
    decreases every_helper().len() - n,
{
    if n >= every_helper().len() {
        None
    } else if found.contains(every_helper()[n]) {
        Some(every_helper()[n])
    } else {
        preferred_from(found, n + 1)
    }
}

/// The most preferred of those found.
pub open spec fn preferred_of(found: Seq<AurHelper>) -> Option<AurHelper> {
    preferred_from(found, 0)
}

pub fn preferred(detected: &Vec<AurHelper>) -> (r: Option<AurHelper>)
    ensures
        r == preferred_of(detected@),
{
    let helpers = AurHelper::all();
    let mut i: usize = 0;
    while i < helpers.len()
        invariant
            i <= helpers@.len(),
            helpers@ == every_helper(),
            preferred_of(detected@) == preferred_from(detected@, i as int),
        decreases helpers.len() - i,
    {
        let mut j: usize = 0;
        while j < detected.len()
            invariant
                i < helpers@.len(),
                helpers@ == every_helper(),
                preferred_of(detected@) == preferred_from(detected@, i as int),
                j <= detected@.len(),
                forall|k: int| 0 <= k < j ==> #[trigger] detected@[k] != helpers@[i as int],
            decreases detected.len() - j,
        {
            if detected[j] == helpers[i] {
                assert(detected@.contains(every_helper()[i as int]));
                return Some(helpers[i]);
            }
            j += 1;
        }
        assert(!detected@.contains(every_helper()[i as int]));
        i += 1;
    }
    None
}

// ---------------------------------------------------------------------------- laws
/// Which helper is preferred does not depend on the order in which they were found,
/// nor on how often.
pub proof fn preference_ignores_order(a: Seq<AurHelper>, b: Seq<AurHelper>)
    requires
        forall|h: AurHelper| a.contains(h) <==> b.contains(h),
    ensures
        preferred_of(a) == preferred_of(b),
{
    lemma_preferred_alike(a, b, 0);
}

proof fn lemma_preferred_alike(a: Seq<AurHelper>, b: Seq<AurHelper>, n: int)
    requires
        0 <= n,
        forall|h: AurHelper| a.contains(h) <==> b.contains(h),
    ensures
        preferred_from(a, n) == preferred_from(b, n),
    decreases every_helper().len() - n,
{
    if n < every_helper().len() {
        let h = every_helper()[n];
        assert(a.contains(h) <==> b.contains(h));
        lemma_preferred_alike(a, b, n + 1);
    }
}

/// No helper ever waits for an answer, whoever it builds for.
pub proof fn commands_never_ask(h: AurHelper, user: Text, env_prefix: Text, packages: Seq<Text>)
    ensures
        text::holds(h.command(user, env_prefix, packages), "--noconfirm"@),
{
    let flags = h.quiet_flags();
    let before = env_prefix + h.program() + " "@ + h.flag() + " "@;
    reveal_strlit("--noconfirm");
    reveal_strlit("--noconfirm --needed");
    assert(flags.subrange(0, 11) =~= "--noconfirm"@);
    assert(text::at(flags, 0, "--noconfirm"@));
    text::lemma_sum_holds(before, flags, "--noconfirm"@);
    text::lemma_sum_holds(before + flags, " "@, "--noconfirm"@);
    text::lemma_sum_holds(
        before + flags + " "@,
        text::joined(packages, " "@),
        "--noconfirm"@,
    );
    text::lemma_sum_holds(
        "sudo -u "@ + user + " env "@,
        h.call(env_prefix, packages),
        "--noconfirm"@,
    );
}

/// Every package that is asked for is named to the helper.
pub proof fn commands_name_every_package(
    h: AurHelper,
    user: Text,
    env_prefix: Text,
    packages: Seq<Text>,
    k: int,
)
    requires
        0 <= k < packages.len(),
    ensures
        text::holds(h.command(user, env_prefix, packages), packages[k]),
{
    text::lemma_joined_holds(packages, " "@, k);
    text::lemma_sum_holds(
        env_prefix + h.program() + " "@ + h.flag() + " "@ + h.quiet_flags() + " "@,
        text::joined(packages, " "@),
        packages[k],
    );
    text::lemma_sum_holds(
        "sudo -u "@ + user + " env "@,
        h.call(env_prefix, packages),
        packages[k],
    );
}

/// The assignments stand directly before the program, on the far side of the change
/// of user.
pub proof fn assignments_reach_the_program(
    h: AurHelper,
    user: Text,
    env_prefix: Text,
    packages: Seq<Text>,
)
    ensures
        text::ends(h.command(user, env_prefix, packages), h.call(env_prefix, packages)),
        text::begins(h.call(env_prefix, packages), env_prefix + h.program()),
{
    let call = h.call(env_prefix, packages);
    let all = h.command(user, env_prefix, packages);
    let i = all.len() - call.len();
    assert(all.subrange(i, i + call.len()) =~= call);
    let first = env_prefix + h.program();
    assert(call.subrange(0, first.len() as int) =~= first);
}

/// A helper is preferred whenever one was found, and the preferred one was found.
pub proof fn preferred_is_found(found: Seq<AurHelper>)
    ensures
        preferred_of(found) is None <==> found.len() == 0,
        preferred_of(found) matches Some(h) ==> found.contains(h),
{
    if found.len() > 0 {
        let h = found[0];
        assert(found.contains(h));
        assert(every_helper().contains(h)) by {
            match h {
                AurHelper::Paru => { assert(every_helper()[0] == h); },
                AurHelper::Yay => { assert(every_helper()[1] == h); },
                AurHelper::Pikaur => { assert(every_helper()[2] == h); },
                AurHelper::Trizen => { assert(every_helper()[3] == h); },
                AurHelper::Aura => { assert(every_helper()[4] == h); },
            }
        }
        let k = choose|k: int| 0 <= k < every_helper().len() && every_helper()[k] == h;
        lemma_preferred_exists(found, 0, k);
    } else {
        lemma_preferred_none(found, 0);
    }
    lemma_preferred_found(found, 0);
}

proof fn lemma_preferred_exists(found: Seq<AurHelper>, n: int, k: int)
    requires
        0 <= n <= k < every_helper().len(),
        found.contains(every_helper()[k]),
    ensures
        preferred_from(found, n) is Some,
    decreases every_helper().len() - n,
{
    if n < k {
        lemma_preferred_exists(found, n + 1, k);
    }
}

proof fn lemma_preferred_none(found: Seq<AurHelper>, n: int)
    requires
        found.len() == 0,
        0 <= n,
    ensures
        preferred_from(found, n) is None,
    decreases every_helper().len() - n,
{
    if n < every_helper().len() {
        lemma_preferred_none(found, n + 1);
    }
}

proof fn lemma_preferred_found(found: Seq<AurHelper>, n: int)
    requires
        0 <= n,
    ensures
        preferred_from(found, n) matches Some(h) ==> found.contains(h),
    decreases every_helper().len() - n,
{
    if n < every_helper().len() {
        lemma_preferred_found(found, n + 1);
    }
}

/// The order of preference: paru before yay, yay before pikaur, pikaur before trizen, and
/// aura where there is nothing else.
pub proof fn paru_goes_before_the_others(found: Seq<AurHelper>)
    ensures
        found.contains(AurHelper::Paru) ==> preferred_of(found) == Some(AurHelper::Paru),
        !found.contains(AurHelper::Paru) && found.contains(AurHelper::Yay) ==> preferred_of(found)
            == Some(AurHelper::Yay),
        preferred_of(found) == Some(AurHelper::Trizen) ==> !found.contains(AurHelper::Pikaur),
        preferred_of(found) == Some(AurHelper::Aura) ==> forall|i: int|
            0 <= i < found.len() ==> #[trigger] found[i] == AurHelper::Aura,
{
    reveal_with_fuel(preferred_from, 6);
    if preferred_of(found) == Some(AurHelper::Aura) {
        assert forall|i: int| 0 <= i < found.len() implies #[trigger] found[i]
            == AurHelper::Aura by {
            assert(found.contains(found[i]));
        }
    }
}

/// What looks for the helpers tests the program of each below the root and prints its name,
/// by which no two are confused and by which it is then recognised.
pub proof fn probe_prints_what_is_read(root: Text, h: AurHelper, g: AurHelper, stdout: Text)
    ensures
        text::holds(
            detect_command(root),
            "[ -x "@ + (root + "/usr/bin/"@ + h.program()) + " ] && echo "@ + h.program(),
        ),
        text::ends(detect_command(root), "; true"@),
        h.program() == g.program() ==> h == g,
        detected(stdout).contains(h) <==> exists|i: int|
            0 <= i < text::lines_of(stdout).len() && text::trimmed(
                #[trigger] text::lines_of(stdout)[i],
            ) == h.program(),
{
    let probes = every_helper().map_values(|h: AurHelper| probe_of(h, root));
    let all = text::joined(probes, "; "@);
    let k: int = match h {
        AurHelper::Paru => 0,
        AurHelper::Yay => 1,
        AurHelper::Pikaur => 2,
        AurHelper::Trizen => 3,
        AurHelper::Aura => 4,
    };
    assert(every_helper()[k] == h);
    assert(probes[k] == probe_of(h, root));
    text::lemma_joined_holds(probes, "; "@, k);
    text::lemma_sum_holds(all, "; true"@, probe_of(h, root));
    let command = detect_command(root);
    let last = "; true"@;
    assert(command.subrange(command.len() - last.len(), command.len() as int) =~= last);
    reveal_strlit("paru");
    reveal_strlit("yay");
    reveal_strlit("pikaur");
    reveal_strlit("trizen");
    reveal_strlit("aura");
    assert("paru"@[0] == 'p' && "aura"@[0] == 'a' && "pikaur"@[0] == 'p' && "trizen"@[0] == 't');
    lemma_named_members(stdout, 5, h, k);
}

proof fn lemma_named_members(stdout: Text, n: int, h: AurHelper, k: int)
    requires
        0 <= n <= 5,
        0 <= k < 5,
        every_helper()[k] == h,
    ensures
        named_among(stdout, n).contains(h) <==> k < n && named(stdout, h),
    decreases n,
{
    if n > 0 {
        lemma_named_members(stdout, n - 1, h, k);
        let some = named_among(stdout, n - 1);
        let x = every_helper()[n - 1];
        let more = some.push(x);
        if some.contains(h) {
            let i = choose|i: int| 0 <= i < some.len() && some[i] == h;
            assert(more[i] == h);
        }
        assert(more[some.len() as int] == x);
        if more.contains(h) && x != h {
            let i = choose|i: int| 0 <= i < more.len() && more[i] == h;
            assert(some[i] == h);
        }
        assert(x == h <==> n - 1 == k);
    }
}

} // verus!
