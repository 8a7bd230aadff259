//! Running pacman inside the target, and what is done when it refuses a
//! signature: the keyring is refreshed, and as a last resort the signature
//! policy is relaxed for one command.
use vstd::prelude::*;

use crate::text;
use crate::text::{
    concat, concat3, contains, lines, push_text, same, starts_with, strip_prefix, terminate, trim,
    trim_end, Text,
};

verus! {

/// A refusal that has to do with signatures, by what pacman printed.
pub open spec fn signature_error(stderr: Text) -> bool {
    ||| text::holds(stderr, "is invalid"@) && text::holds(stderr, "signature from"@)
    ||| text::holds(stderr, "signature is unknown trust"@)
    ||| text::holds(stderr, "required key missing"@)
    ||| text::holds(stderr, "could not be looked up remotely"@)
}

pub fn is_signature_error(stderr: &str) -> (r: bool)
    ensures
        r == signature_error(stderr@),
{
    (contains(stderr, "is invalid") && contains(stderr, "signature from")) || contains(
        stderr,
        "signature is unknown trust",
    ) || contains(stderr, "required key missing") || contains(
        stderr,
        "could not be looked up remotely",
    )
}

/// Where the relaxed pacman.conf lies inside the target. Not under /tmp, which
/// each chroot covers with a fresh filesystem.
pub const SIG_BYPASS_CONF: &'static str = "/etc/deploytix-siglevel.conf";

/// The policy that accepts whatever signature there is.
pub const RELAXED_POLICY: &'static str = "SigLevel = Optional TrustAll";

/// A line that sets a policy on signatures.
pub open spec fn policy_line(line: Text) -> bool {
    text::begins(text::trimmed(line), "SigLevel"@)
}

/// The line that the options start with.
pub open spec fn options_line(line: Text) -> bool {
    text::trimmed(line) == "[options]"@
}

/// The line belongs to the options, which hold for all repositories.
pub open spec fn in_options(lines: Seq<Text>, i: int) -> bool
    decreases i + 1,
{
    if i < 0 {
        false
    } else if text::begins(text::trimmed(lines[i]), "["@) {
        options_line(lines[i])
    } else {
        in_options(lines, i - 1)
    }
}

/// The options set a policy.
pub open spec fn policy_is_set(lines: Seq<Text>) -> bool {
    exists|i: int|
        0 <= i < lines.len() && policy_line(#[trigger] lines[i]) && in_options(lines, i)
}

/// There are options.
pub open spec fn has_options(lines: Seq<Text>) -> bool {
    exists|i: int| 0 <= i < lines.len() && options_line(#[trigger] lines[i])
}

/// One line of the relaxed pacman.conf.
pub open spec fn relaxed_line(line: Text) -> Text {
    if policy_line(line) {
        RELAXED_POLICY@
    } else {
        line
    }
}

/// The first `n` lines relaxed, and the policy at the top of the options where it is to
/// be added.
pub open spec fn relaxed_lines(lines: Seq<Text>, add: bool, n: int) -> Seq<Text>
    decreases n,
{
    if n <= 0 {
        seq![]
    } else {
        relaxed_lines(lines, add, n - 1).push(relaxed_line(lines[n - 1])) + (if add
            && options_line(lines[n - 1]) {
            seq![RELAXED_POLICY@]
        } else {
            seq![]
        })
    }
}

/// The lines of a pacman.conf that accepts whatever signature there is: every policy is
/// relaxed, and where the options set none, they get the relaxed one.
pub open spec fn all_relaxed(lines: Seq<Text>) -> Seq<Text> {
    (if has_options(lines) {
        seq![]
    } else {
        seq!["[options]"@, RELAXED_POLICY@]
    }) + relaxed_lines(lines, !policy_is_set(lines), lines.len() as int)
}

/// A pacman.conf that accepts whatever signature there is.
pub open spec fn relaxed_conf(conf: Text) -> Text {
    text::terminated(all_relaxed(text::lines_of(conf)))
}

pub fn relax_pacman_conf(conf: &str) -> (r: String)
    ensures
        r@ == relaxed_conf(conf@),
{
    let before = lines(conf);
    let ghost all = text::lines_of(conf@);
    let mut set = false;
    let mut options = false;
    let mut inside = false;
    let mut i: usize = 0;
    while i < before.len()
        invariant
            i <= before@.len(),
            before.deep_view() == all,
            inside == in_options(all, i - 1),
            options ==> has_options(all),
            !options ==> forall|j: int| 0 <= j < i ==> !options_line(#[trigger] all[j]),
            set ==> policy_is_set(all),
            !set ==> forall|j: int|
                0 <= j < i ==> !(policy_line(#[trigger] all[j]) && in_options(all, j)),
        decreases before.len() - i,
    {
        let t = trim(before[i].as_str());
        assert(all[i as int] == before@[i as int]@);
        let head = same(t.as_str(), "[options]");
        if starts_with(t.as_str(), "[") {
            inside = head;
        }
        if head {
            assert(options_line(all[i as int]));
            options = true;
        }
        if inside && starts_with(t.as_str(), "SigLevel") {
            assert(policy_line(all[i as int]) && in_options(all, i as int));
            set = true;
        }
        i += 1;
    }
    let mut after: Vec<String> = Vec::new();
    if !options {
        push_text(&mut after, "[options]");
        push_text(&mut after, RELAXED_POLICY);
    }
    let ghost start = after.deep_view();
    assert(start =~= if has_options(all) {
        seq![]
    } else {
        seq!["[options]"@, RELAXED_POLICY@]
    });
    let mut k: usize = 0;
    assert(after.deep_view() =~= start + relaxed_lines(all, !set, 0));
    while k < before.len()
        invariant
            k <= before@.len(),
            before.deep_view() == all,
            after.deep_view() == start + relaxed_lines(all, !set, k as int),
        decreases before.len() - k,
    {
        let ghost had = after.deep_view();
        let line = before[k].as_str();
        assert(all[k as int] == line@);
        let t = trim(line);
        if starts_with(t.as_str(), "SigLevel") {
            push_text(&mut after, RELAXED_POLICY);
        } else {
            push_text(&mut after, line);
        }
        if !set && same(t.as_str(), "[options]") {
            push_text(&mut after, RELAXED_POLICY);
        }
        k += 1;
        assert(after.deep_view() =~= start + relaxed_lines(all, !set, k as int));
    }
    assert(after.deep_view() =~= all_relaxed(all));
    terminate(&after)
}

/// A pacman command with the relaxed configuration.
pub open spec fn with_config_flag(command: Text) -> Text {
    match text::without_prefix(command, "pacman "@) {
        Some(rest) => "pacman --config "@ + SIG_BYPASS_CONF@ + " "@ + rest,
        None => command,
    }
}

pub fn inject_config_flag(command: &str) -> (r: String)
    ensures
        r@ == with_config_flag(command@),
{
    match strip_prefix(command, "pacman ") {
        Some(rest) => concat(
            concat3("pacman --config ", SIG_BYPASS_CONF, " ").as_str(),
            rest.as_str(),
        ),
        None => command.to_owned(),
    }
}

/// How far the recovery is: what is done next.
#[derive(Debug, Clone, Copy, PartialEq, Eq, Structural)]
pub enum Stage {
    /// The command, for the first time.
    First,
    /// The package cache is emptied, so that no bad download is used again.
    Clear,
    /// The keyring is made anew.
    Init,
    /// The keyring's own package is brought up to date.
    Keyring,
    Populate,
    PopulateArch,
    /// The command, for the second time.
    Second,
    ClearAgain,
    /// The relaxed pacman.conf is written.
    Relax,
    /// The command, with the relaxed pacman.conf.
    Third,
    /// The relaxed pacman.conf is removed.
    CleanUp { succeeded: bool },
    Finished { succeeded: bool },
}

/// What the program has to do.
#[derive(Debug, Clone)]
pub enum Action {
    /// Run a command inside the target.
    Command(String),
    /// Write the relaxed form of the target's pacman.conf to [`SIG_BYPASS_CONF`].
    WriteRelaxed,
    /// Remove [`SIG_BYPASS_CONF`].
    RemoveRelaxed,
    /// Nothing more: report success, or the last failure that was not tolerated.
    Report { succeeded: bool },
}

/// An action as the contracts speak of it.
#[allow(inconsistent_fields)]
pub enum Deed {
    Command(Text),
    WriteRelaxed,
    RemoveRelaxed,
    Report { succeeded: bool },
}

impl View for Action {
    type V = Deed;

    open spec fn view(&self) -> Deed {
        match *self {
            Action::Command(c) => Deed::Command(c@),
            Action::WriteRelaxed => Deed::WriteRelaxed,
            Action::RemoveRelaxed => Deed::RemoveRelaxed,
            Action::Report { succeeded } => Deed::Report { succeeded },
        }
    }
}

/// What came of an action.
#[derive(Debug, Clone)]
pub enum Outcome {
    Succeeded,
    /// The command ran and failed with this on its standard error.
    Refused(String),
    /// It failed in any other way.
    Failed,
}

/// The outcome is a refusal that has to do with signatures.
pub open spec fn refused_signature(o: Outcome) -> bool {
    o matches Outcome::Refused(e) && signature_error(e@)
}

pub open spec fn deed_at(stage: Stage, command: Text) -> Deed {
    match stage {
        Stage::First => Deed::Command(command),
        Stage::Clear => Deed::Command("pacman -Scc --noconfirm"@),
        Stage::Init => Deed::Command("pacman-key --init"@),
        Stage::Keyring => Deed::Command("pacman -Sy --noconfirm artix-keyring"@),
        Stage::Populate => Deed::Command("pacman-key --populate artix"@),
        Stage::PopulateArch => Deed::Command("pacman-key --populate archlinux"@),
        Stage::Second => Deed::Command(command),
        Stage::ClearAgain => Deed::Command("pacman -Scc --noconfirm"@),
        Stage::Relax => Deed::WriteRelaxed,
        Stage::Third => Deed::Command(with_config_flag(command)),
        Stage::CleanUp { .. } => Deed::RemoveRelaxed,
        Stage::Finished { succeeded } => Deed::Report { succeeded },
    }
}

/// What is done at a stage of installing with `command`.
pub fn next_action(stage: Stage, command: &str) -> (r: Action)
    ensures
        r@ == deed_at(stage, command@),
{
    match stage {
        Stage::First => Action::Command(command.to_owned()),
        Stage::Clear => Action::Command("pacman -Scc --noconfirm".to_owned()),
        Stage::Init => Action::Command("pacman-key --init".to_owned()),
        Stage::Keyring => Action::Command("pacman -Sy --noconfirm artix-keyring".to_owned()),
        Stage::Populate => Action::Command("pacman-key --populate artix".to_owned()),
        Stage::PopulateArch => Action::Command("pacman-key --populate archlinux".to_owned()),
        Stage::Second => Action::Command(command.to_owned()),
        Stage::ClearAgain => Action::Command("pacman -Scc --noconfirm".to_owned()),
        Stage::Relax => Action::WriteRelaxed,
        Stage::Third => Action::Command(inject_config_flag(command)),
        Stage::CleanUp { .. } => Action::RemoveRelaxed,
        Stage::Finished { succeeded } => Action::Report { succeeded },
    }
}

/// A stage that has to succeed.
pub open spec fn or_finished(next: Stage, o: Outcome) -> Stage {
    if o is Succeeded {
        next
    } else {
        Stage::Finished { succeeded: false }
    }
}

/// A try of the command: only a refused signature leads on.
pub open spec fn tried(next: Stage, o: Outcome) -> Stage {
    if o is Succeeded {
        Stage::Finished { succeeded: true }
    } else if refused_signature(o) {
        next
    } else {
        Stage::Finished { succeeded: false }
    }
}

pub open spec fn stage_after(stage: Stage, o: Outcome) -> Stage {
    match stage {
        Stage::First => tried(Stage::Clear, o),
        Stage::Clear => Stage::Init,
        Stage::Init => or_finished(Stage::Keyring, o),
        Stage::Keyring => Stage::Populate,
        Stage::Populate => or_finished(Stage::PopulateArch, o),
        Stage::PopulateArch => Stage::Second,
        Stage::Second => tried(Stage::ClearAgain, o),
        Stage::ClearAgain => Stage::Relax,
        Stage::Relax => or_finished(Stage::Third, o),
        Stage::Third => Stage::CleanUp { succeeded: o is Succeeded },
        Stage::CleanUp { succeeded } => Stage::Finished { succeeded },
        Stage::Finished { .. } => stage,
    }
}

fn or_stop(next: Stage, o: &Outcome) -> (r: Stage)
    ensures
        r == or_finished(next, *o),
{
    match o {
        Outcome::Succeeded => next,
        _ => Stage::Finished { succeeded: false },
    }
}

fn after_try(next: Stage, o: &Outcome) -> (r: Stage)
    ensures
        r == tried(next, *o),
{
    match o {
        Outcome::Succeeded => Stage::Finished { succeeded: true },
        Outcome::Refused(e) => if is_signature_error(e.as_str()) {
            next
        } else {
            Stage::Finished { succeeded: false }
        },
        Outcome::Failed => Stage::Finished { succeeded: false },
    }
}

/// Where the recovery goes on after an action.
pub fn advance(stage: Stage, o: &Outcome) -> (r: Stage)
    ensures
        r == stage_after(stage, *o),
{
    match stage {
        Stage::First => after_try(Stage::Clear, o),
        Stage::Clear => Stage::Init,
        Stage::Init => or_stop(Stage::Keyring, o),
        Stage::Keyring => Stage::Populate,
        Stage::Populate => or_stop(Stage::PopulateArch, o),
        Stage::PopulateArch => Stage::Second,
        Stage::Second => after_try(Stage::ClearAgain, o),
        Stage::ClearAgain => Stage::Relax,
        Stage::Relax => or_stop(Stage::Third, o),
        Stage::Third => {
            let succeeded = match o {
                Outcome::Succeeded => true,
                _ => false,
            };
            Stage::CleanUp { succeeded }
        },
        Stage::CleanUp { succeeded } => Stage::Finished { succeeded },
        Stage::Finished { .. } => stage,
    }
}

// -------------------------------------------------------------------------- laws
/// The stage that a list of outcomes leads to.
pub open spec fn reached(outcomes: Seq<Outcome>) -> Stage
    decreases outcomes.len(),
{
    if outcomes.len() == 0 {
        Stage::First
    } else {
        stage_after(reached(outcomes.drop_last()), outcomes.last())
    }
}

/// How many actions precede a stage.
pub open spec fn actions_before(stage: Stage) -> int {
    match stage {
        Stage::First => 0,
        Stage::Clear => 1,
        Stage::Init => 2,
        Stage::Keyring => 3,
        Stage::Populate => 4,
        Stage::PopulateArch => 5,
        Stage::Second => 6,
        Stage::ClearAgain => 7,
        Stage::Relax => 8,
        Stage::Third => 9,
        Stage::CleanUp { .. } => 10,
        Stage::Finished { .. } => 11,
    }
}

/// A stage other than the last is reached after as many actions as precede it,
/// and after eleven actions the recovery has finished, whatever came of them.
pub proof fn recovery_ends(outcomes: Seq<Outcome>)
    ensures
        !(reached(outcomes) is Finished) ==> outcomes.len() == actions_before(reached(outcomes)),
        outcomes.len() >= 11 ==> reached(outcomes) is Finished,
    decreases outcomes.len(),
{
    if outcomes.len() > 0 {
        recovery_ends(outcomes.drop_last());
    }
}

/// The signature policy is relaxed only after pacman refused a signature twice:
/// before the keyring was refreshed and after it.
pub proof fn relaxed_only_after_two_refusals(outcomes: Seq<Outcome>)
    requires
        actions_before(reached(outcomes)) >= 7,
        !(reached(outcomes) is Finished),
    ensures
        outcomes.len() >= 7,
        refused_signature(outcomes[0]),
        refused_signature(outcomes[6]),
{
    lemma_refusals(outcomes);
}

proof fn lemma_refusals(outcomes: Seq<Outcome>)
    ensures
        !(reached(outcomes) is Finished) && outcomes.len() >= 1 ==> refused_signature(outcomes[0]),
        !(reached(outcomes) is Finished) && outcomes.len() >= 7 ==> refused_signature(outcomes[6]),
        !(reached(outcomes) is Finished) ==> outcomes.len() == actions_before(reached(outcomes)),
    decreases outcomes.len(),
{
    if outcomes.len() > 0 {
        lemma_refusals(outcomes.drop_last());
        recovery_ends(outcomes.drop_last());
    }
}

/// A command that succeeds, or that fails for another reason than a signature,
/// is run once and nothing else is done.
pub proof fn other_failures_are_not_recovered(o: Outcome)
    requires
        !refused_signature(o),
    ensures
        reached(seq![o]) == (Stage::Finished { succeeded: o is Succeeded }),
{
    assert(seq![o].drop_last() =~= seq![]);
    assert(reached(seq![]) == Stage::First);
}

/// The relaxed pacman.conf is removed again, whatever came of its use.
pub proof fn relaxed_conf_is_removed(o: Outcome, command: Text)
    ensures
        deed_at(stage_after(Stage::Third, o), command) is RemoveRelaxed,
{
}

// ------------------------------------------------------------------ repositories
/// A pacman.conf that names Arch's [extra] repository.
pub open spec fn names_extra(conf: Text) -> bool {
    exists|i: int|
        0 <= i < text::lines_of(conf).len() && text::trimmed(#[trigger] text::lines_of(conf)[i])
            == "[extra]"@
}

pub const EXTRA_SECTION: &'static str =
    "\n\n# Arch Linux [extra] repository (auto-added by deploytix installer)\n[extra]\nSigLevel = PackageRequired\n";

/// Where the packages of [extra] are fetched: through the list of mirrors, where
/// the target has it.
pub open spec fn mirror_entry(mirrorlist_exists: bool) -> Text {
    if mirrorlist_exists {
        "Include = /etc/pacman.d/mirrorlist-arch"@
    } else {
        "Server = https://geo.mirror.pkgbuild.com/$repo/os/$arch"@
    }
}

pub fn has_extra(conf: &str) -> (r: bool)
    ensures
        r == names_extra(conf@),
{
    let all = lines(conf);
    let mut i: usize = 0;
    while i < all.len()
        invariant
            i <= all@.len(),
            all.deep_view() == text::lines_of(conf@),
            forall|j: int|
                0 <= j < i ==> text::trimmed(#[trigger] text::lines_of(conf@)[j]) != "[extra]"@,
        decreases all.len() - i,
    {
        assert(all.deep_view()[i as int] == all@[i as int]@);
        if same(trim(all[i].as_str()).as_str(), "[extra]") {
            assert(text::trimmed(text::lines_of(conf@)[i as int]) == "[extra]"@);
            return true;
        }
        i += 1;
    }
    false
}

/// The configuration with the section at its end.
pub open spec fn extended(conf: Text, mirrorlist_exists: bool) -> Text {
    text::trimmed_end(conf) + (EXTRA_SECTION@ + mirror_entry(mirrorlist_exists) + "\n"@)
}

/// The pacman.conf with Arch's [extra] repository; nothing where it has it.
pub fn with_extra_repo(conf: &str, mirrorlist_exists: bool) -> (r: Option<String>)
    ensures
        r is None <==> names_extra(conf@),
        r matches Some(t) ==> t@ == extended(conf@, mirrorlist_exists),
{
    if has_extra(conf) {
        return None;
    }
    let entry = if mirrorlist_exists {
        "Include = /etc/pacman.d/mirrorlist-arch"
    } else {
        "Server = https://geo.mirror.pkgbuild.com/$repo/os/$arch"
    };
    let section = concat3(EXTRA_SECTION, entry, "\n");
    Some(concat(trim_end(conf).as_str(), section.as_str()))
}

/// The repository is added once: it is named afterwards, and a second run changes
/// nothing.
pub proof fn extra_is_added_once(conf: Text, mirrorlist_exists: bool)
    ensures
        names_extra(extended(conf, mirrorlist_exists)),
{
    let conf = text::trimmed_end(conf);
    let entry = mirror_entry(mirrorlist_exists);
    let head =
        "\n\n# Arch Linux [extra] repository (auto-added by deploytix installer)"@;
    let tail = "SigLevel = PackageRequired\n"@;
    reveal_strlit("\n\n# Arch Linux [extra] repository (auto-added by deploytix installer)");
    reveal_strlit("SigLevel = PackageRequired\n");
    reveal_strlit("[extra]");
    reveal_strlit(
        "\n\n# Arch Linux [extra] repository (auto-added by deploytix installer)\n[extra]\nSigLevel = PackageRequired\n",
    );
    assert(EXTRA_SECTION@ =~= head + seq!['\n'] + "[extra]"@ + seq!['\n'] + tail);
    let before = conf + head;
    let after = tail + entry + "\n"@;
    let whole = conf + (EXTRA_SECTION@ + entry + "\n"@);
    assert(whole =~= before + seq!['\n'] + "[extra]"@ + seq!['\n'] + after);
    text::lemma_line_between(before, "[extra]"@, after);
    let all = text::lines_of(whole);
    let i = choose|i: int| 0 <= i < all.len() && all[i] == "[extra]"@;
    assert(text::trimmed_start("[extra]"@) == "[extra]"@);
    assert(text::trimmed(all[i]) == "[extra]"@);
}

proof fn lemma_relaxed_policy()
    ensures
        text::trimmed(RELAXED_POLICY@) == RELAXED_POLICY@,
        policy_line(RELAXED_POLICY@),
        !text::begins(text::trimmed(RELAXED_POLICY@), "["@),
        text::trimmed("[options]"@) == "[options]"@,
        text::begins("[options]"@, "["@),
{
    reveal_strlit("SigLevel = Optional TrustAll");
    reveal_strlit("SigLevel");
    reveal_strlit("[options]");
    reveal_strlit("[");
    let p = RELAXED_POLICY@;
    assert(p[0] == 'S' && p.last() == 'l');
    assert(text::trimmed_start(p) == p);
    assert(text::trimmed_end(p) == p);
    assert(p.subrange(0, 8) =~= "SigLevel"@);
    if text::begins(p, "["@) {
        assert(p.subrange(0, 1)[0] == '[');
    }
    let o = "[options]"@;
    assert(text::trimmed_start(o) == o);
    assert(text::trimmed_end(o) == o);
    assert(o.subrange(0, 1) =~= "["@);
}

/// What stands in the first `n` lines stands in the relaxed ones, in the same section.
proof fn lemma_relaxed(lines: Seq<Text>, add: bool, n: int, before: Seq<Text>)
    requires
        0 <= n <= lines.len(),
    ensures
        ({
            let out = before + relaxed_lines(lines, add, n);
            &&& forall|i: int|
                before.len() <= i < out.len() && policy_line(#[trigger] out[i]) ==> out[i]
                    == RELAXED_POLICY@
            &&& n > 0 && in_options(lines, n - 1) ==> in_options(out, out.len() - 1)
            &&& (exists|i: int|
                0 <= i < n && policy_line(#[trigger] lines[i]) && in_options(lines, i))
                ==> policy_is_set(out)
            &&& add && (exists|i: int| 0 <= i < n && options_line(#[trigger] lines[i]))
                ==> policy_is_set(out)
        }),
    decreases n,
{
    lemma_relaxed_policy();
    let out = before + relaxed_lines(lines, add, n);
    if n > 0 {
        lemma_relaxed(lines, add, n - 1, before);
        let some = before + relaxed_lines(lines, add, n - 1);
        let line = lines[n - 1];
        let k = some.len() as int;
        assert(out[k] == relaxed_line(line));
        assert forall|i: int| 0 <= i < k implies #[trigger] out[i] == some[i] by {}
        lemma_same_start(some, out, k - 1);
        assert forall|i: int|
            before.len() <= i < out.len() && policy_line(#[trigger] out[i]) implies out[i]
            == RELAXED_POLICY@ by {
            if i < k {
                assert(out[i] == some[i]);
            }
        }
        if policy_line(line) {
            lemma_policy_is_no_header(line);
        }
        if in_options(lines, n - 1) {
            if policy_line(line) || !text::begins(text::trimmed(line), "["@) {
                assert(in_options(lines, n - 2));
                assert(n - 1 > 0);
                assert(in_options(out, k - 1));
            }
            assert(in_options(out, k));
            if out.len() > k + 1 {
                assert(in_options(out, k + 1));
            }
        }
        if policy_is_set(some) {
            let i = choose|i: int|
                0 <= i < some.len() && policy_line(#[trigger] some[i]) && in_options(some, i);
            lemma_same_start(some, out, i);
            assert(policy_line(out[i]) && in_options(out, i));
        }
        if policy_line(line) && in_options(lines, n - 1) {
            assert(policy_line(out[k]));
        }
        if add && options_line(line) {
            lemma_header_is_no_policy(line);
            assert(out[k + 1] == RELAXED_POLICY@);
            assert(in_options(out, k));
            assert(in_options(out, k + 1));
            assert(policy_line(out[k + 1]));
        }
        if exists|i: int|
            0 <= i < n && policy_line(#[trigger] lines[i]) && in_options(lines, i) {
            let i = choose|i: int|
                0 <= i < n && policy_line(#[trigger] lines[i]) && in_options(lines, i);
            if i < n - 1 {
                assert(policy_is_set(some));
            }
        }
        if add && exists|i: int| 0 <= i < n && options_line(#[trigger] lines[i]) {
            let i = choose|i: int| 0 <= i < n && options_line(#[trigger] lines[i]);
            if i < n - 1 {
                assert(policy_is_set(some));
            }
        }
    }
}

proof fn lemma_policy_is_no_header(line: Text)
    requires
        policy_line(line),
    ensures
        !text::begins(text::trimmed(line), "["@),
{
    reveal_strlit("SigLevel");
    reveal_strlit("[");
    let t = text::trimmed(line);
    assert(t.subrange(0, 8)[0] == 'S');
    if text::begins(t, "["@) {
        assert(t.subrange(0, 1)[0] == '[');
    }
}

proof fn lemma_header_is_no_policy(line: Text)
    requires
        options_line(line),
    ensures
        !policy_line(line),
        text::begins(text::trimmed(line), "["@),
{
    lemma_relaxed_policy();
    if policy_line(line) {
        lemma_policy_is_no_header(line);
    }
}

proof fn lemma_same_start(a: Seq<Text>, b: Seq<Text>, i: int)
    requires
        i < a.len(),
        i < b.len(),
        forall|j: int| 0 <= j <= i ==> a[j] == b[j],
    ensures
        in_options(a, i) == in_options(b, i),
    decreases i + 1,
{
    if i >= 0 {
        assert(a[i] == b[i]);
        lemma_same_start(a, b, i - 1);
    }
}

proof fn lemma_all_relaxed(lines: Seq<Text>)
    ensures
        policy_is_set(all_relaxed(lines)),
        forall|i: int|
            0 <= i < all_relaxed(lines).len() && policy_line(#[trigger] all_relaxed(lines)[i])
                ==> all_relaxed(lines)[i] == RELAXED_POLICY@,
{
    let n = lines.len() as int;
    let add = !policy_is_set(lines);
    let all = all_relaxed(lines);
    lemma_relaxed_policy();
    if has_options(lines) {
        let none = Seq::<Text>::empty();
        lemma_relaxed(lines, add, n, none);
        assert(all =~= none + relaxed_lines(lines, add, n));
    } else {
        let head = seq!["[options]"@, RELAXED_POLICY@];
        lemma_relaxed(lines, add, n, head);
        assert(all =~= head + relaxed_lines(lines, add, n));
        lemma_header_is_no_policy("[options]"@);
        assert(all[0] == "[options]"@ && all[1] == RELAXED_POLICY@);
        assert(in_options(all, 0));
        assert(in_options(all, 1));
        assert(policy_line(all[1]));
    }
}

proof fn lemma_relaxed_unbroken(lines: Seq<Text>, add: bool, n: int)
    requires
        0 <= n <= lines.len(),
        forall|i: int| 0 <= i < lines.len() ==> !(#[trigger] lines[i]).contains('\n'),
    ensures
        forall|i: int|
            0 <= i < relaxed_lines(lines, add, n).len() ==> !(#[trigger] relaxed_lines(
                lines,
                add,
                n,
            )[i]).contains('\n'),
    decreases n,
{
    reveal_strlit("SigLevel = Optional TrustAll");
    let p = RELAXED_POLICY@;
    assert forall|j: int| 0 <= j < p.len() implies p[j] != '\n' by {}
    if n > 0 {
        lemma_relaxed_unbroken(lines, add, n - 1);
        let some = relaxed_lines(lines, add, n - 1);
        let all = relaxed_lines(lines, add, n);
        assert forall|i: int| 0 <= i < all.len() implies !(#[trigger] all[i]).contains('\n') by {
            if i < some.len() {
                assert(all[i] == some[i]);
            } else if i == some.len() {
                assert(all[i] == relaxed_line(lines[n - 1]));
            } else {
                assert(all[i] == p);
            }
        }
    }
}

/// Lines that are alike but for white space at their ends stand in the same sections.
proof fn lemma_sections_alike(a: Seq<Text>, b: Seq<Text>, i: int)
    requires
        i < a.len(),
        a.len() == b.len(),
        forall|j: int| 0 <= j < a.len() ==> text::trimmed(#[trigger] a[j]) == text::trimmed(b[j]),
    ensures
        in_options(a, i) == in_options(b, i),
    decreases i + 1,
{
    if i >= 0 {
        assert(text::trimmed(a[i]) == text::trimmed(b[i]));
        lemma_sections_alike(a, b, i - 1);
    }
}

/// The relaxed configuration is relaxed: its options set a policy, and every policy in it
/// accepts whatever signature there is.
pub proof fn every_policy_is_relaxed(conf: Text)
    ensures
        ({
            let written = text::lines_of(relaxed_conf(conf));
            &&& policy_is_set(written)
            &&& forall|i: int|
                0 <= i < written.len() && policy_line(#[trigger] written[i]) ==> written[i]
                    == RELAXED_POLICY@
        }),
{
    let old = text::lines_of(conf);
    let add = !policy_is_set(old);
    let all = all_relaxed(old);
    let written = text::lines_of(relaxed_conf(conf));
    lemma_all_relaxed(old);
    text::lemma_lines_unbroken(conf);
    lemma_relaxed_unbroken(old, add, old.len() as int);
    reveal_strlit("SigLevel = Optional TrustAll");
    reveal_strlit("[options]");
    assert forall|i: int| 0 <= i < all.len() implies !(#[trigger] all[i]).contains('\n') by {
        let rest = relaxed_lines(old, add, old.len() as int);
        if has_options(old) {
            assert(all[i] == rest[i]);
        } else if i >= 2 {
            assert(all[i] == rest[i - 2]);
        } else if i == 0 {
            assert(all[i] == "[options]"@);
            assert forall|j: int| 0 <= j < all[i].len() implies all[i][j] != '\n' by {}
        } else {
            assert(all[i] == RELAXED_POLICY@);
            assert forall|j: int| 0 <= j < all[i].len() implies all[i][j] != '\n' by {}
        }
    }
    text::lemma_lines_of_terminated(all);
    assert forall|i: int| 0 <= i < all.len() implies text::trimmed(#[trigger] all[i])
        == text::trimmed(written[i]) by {
        assert(written[i] == text::without_cr(all[i]));
        text::lemma_trimmed_return(all[i]);
    }
    assert forall|i: int|
        0 <= i < written.len() && policy_line(#[trigger] written[i]) implies written[i]
        == RELAXED_POLICY@ by {
        assert(text::trimmed(all[i]) == text::trimmed(written[i]));
        assert(all[i] == RELAXED_POLICY@);
        assert(all[i].last() == 'l');
    }
    let k = choose|k: int|
        0 <= k < all.len() && policy_line(#[trigger] all[k]) && in_options(all, k);
    lemma_sections_alike(all, written, k);
    assert(text::trimmed(all[k]) == text::trimmed(written[k]));
    assert(policy_line(written[k]) && in_options(written, k));
}

} // verus!
