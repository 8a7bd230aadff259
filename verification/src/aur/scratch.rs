//! Where packages are built inside a chroot: on disk, because its /tmp is half of
//! the memory at most.
use vstd::prelude::*;

use crate::plan;
use crate::plan::{chroot, say, Act, Step};
use crate::effects;
use crate::text;
use crate::text::{concat, concat3, join, push_text, Text};

verus! {

/// The directory of all builds. It has the same path inside and outside of a
/// target, and outlives the transaction it is used in.
pub const BUILD_ROOT: &'static str = "/var/cache/deploytix/build";

/// Its subdirectories, one for each kind of output.
pub open spec fn subdir_names() -> Seq<Text> {
    seq!["build"@, "src"@, "pkg"@, "srcpkg"@, "log"@]
}

pub open spec fn subdir_path(name: Text) -> Text {
    BUILD_ROOT@ + "/"@ + name
}

/// The path of one subdirectory.
pub fn subdir(name: &str) -> (r: String)
    ensures
        r@ == subdir_path(name@),
{
    concat3(BUILD_ROOT, "/", name)
}

pub open spec fn subdir_paths() -> Seq<Text> {
    subdir_names().map_values(|n: Text| subdir_path(n))
}

/// The paths of the subdirectories.
pub fn subdirs() -> (r: Vec<String>)
    ensures
        r.deep_view() == subdir_paths(),
{
    let mut v: Vec<String> = Vec::new();
    push_text(&mut v, subdir("build").as_str());
    push_text(&mut v, subdir("src").as_str());
    push_text(&mut v, subdir("pkg").as_str());
    push_text(&mut v, subdir("srcpkg").as_str());
    push_text(&mut v, subdir("log").as_str());
    assert(v.deep_view() =~= subdir_paths());
    v
}

/// The variables that point makepkg, and whatever it calls, to these directories.
pub open spec fn env_pairs() -> Seq<(Text, Text)> {
    seq![
        ("BUILDDIR"@, subdir_path("build"@)),
        ("SRCDEST"@, subdir_path("src"@)),
        ("PKGDEST"@, subdir_path("pkg"@)),
        ("SRCPKGDEST"@, subdir_path("srcpkg"@)),
        ("LOGDEST"@, subdir_path("log"@)),
        ("TMPDIR"@, subdir_path("build"@)),
    ]
}

/// Pairs of texts as the contracts speak of them.
pub open spec fn seen_pairs(v: Seq<(String, String)>) -> Seq<(Text, Text)> {
    v.map_values(|p: (String, String)| (p.0@, p.1@))
}

fn add_pair(v: &mut Vec<(String, String)>, key: &str, dir: &str)
    ensures
        seen_pairs(final(v)@) == seen_pairs(old(v)@).push((key@, subdir_path(dir@))),
{
    v.push((key.to_owned(), subdir(dir)));
    assert(seen_pairs(v@) =~= seen_pairs(old(v)@).push((key@, subdir_path(dir@))));
}

pub fn build_env() -> (r: Vec<(String, String)>)
    ensures
        seen_pairs(r@) == env_pairs(),
{
    let mut v: Vec<(String, String)> = Vec::new();
    add_pair(&mut v, "BUILDDIR", "build");
    add_pair(&mut v, "SRCDEST", "src");
    add_pair(&mut v, "PKGDEST", "pkg");
    add_pair(&mut v, "SRCPKGDEST", "srcpkg");
    add_pair(&mut v, "LOGDEST", "log");
    add_pair(&mut v, "TMPDIR", "build");
    assert(seen_pairs(v@) =~= env_pairs());
    v
}

/// Assignments in front of a command.
pub open spec fn assignments(pairs: Seq<(Text, Text)>) -> Text
    decreases pairs.len(),
{
    if pairs.len() == 0 {
        seq![]
    } else {
        assignments(pairs.drop_last()) + (pairs.last().0 + "="@ + pairs.last().1 + " "@)
    }
}

/// The variables, ready to stand in front of a command.
pub fn build_env_prefix() -> (r: String)
    ensures
        r@ == assignments(env_pairs()),
{
    let env = build_env();
    let ghost all = seen_pairs(env@);
    let mut s = String::new();
    let mut i: usize = 0;
    assert(all.take(0) =~= seq![]);
    while i < env.len()
        invariant
            i <= env@.len(),
            all == seen_pairs(env@),
            s@ == assignments(all.take(i as int)),
        decreases env.len() - i,
    {
        let one = concat(
            concat3(env[i].0.as_str(), "=", env[i].1.as_str()).as_str(),
            " ",
        );
        s.push_str(one.as_str());
        proof {
            assert(all.take(i + 1).drop_last() =~= all.take(i as int));
            assert(all.take(i + 1).last() == (env@[i as int].0@, env@[i as int].1@));
        }
        i += 1;
    }
    assert(all.take(i as int) =~= all);
    s
}

/// The command that makes the directories, for the user who builds.
pub open spec fn ensure_command(user: Text) -> Text {
    "mkdir -p "@ + text::joined(subdir_paths(), " "@) + " && chown -R "@ + user + ":"@ + user
        + " "@ + BUILD_ROOT@
}

pub fn ensure_build_root_cmd(user: &str) -> (r: String)
    ensures
        r@ == ensure_command(user@),
{
    let a = concat3("mkdir -p ", join(&subdirs(), " ").as_str(), " && chown -R ");
    let b = concat3(a.as_str(), user, ":");
    concat3(concat(b.as_str(), user).as_str(), " ", BUILD_ROOT)
}

/// Making the directories in a target.
pub open spec fn ensure_steps(target: Text, user: Text, dry_run: bool) -> Seq<Act> {
    if dry_run {
        seq![
            Act::Say("  [dry-run] Would create "@ + BUILD_ROOT@ + " owned by "@ + user),
        ]
    } else {
        seq![Act::Chroot { root: target, command: ensure_command(user) }]
    }
}

/// Makes the directories in a target; an empty one is the running system.
pub fn ensure_build_root(target: &str, user: &str, dry_run: bool) -> (r: Vec<Step>)
    ensures
        plan::acts(r@) == ensure_steps(target@, user@, dry_run),
{
    let mut steps: Vec<Step> = Vec::new();
    if dry_run {
        let line = concat3("  [dry-run] Would create ", BUILD_ROOT, " owned by ");
        say(&mut steps, concat(line.as_str(), user).as_str());
    } else {
        chroot(&mut steps, target, ensure_build_root_cmd(user).as_str());
    }
    assert(plan::acts(steps@) =~= ensure_steps(target@, user@, dry_run));
    steps
}

/// Everything that makepkg writes stays below the directory of all builds.
pub proof fn builds_stay_on_disk(i: int)
    requires
        0 <= i < env_pairs().len(),
    ensures
        text::begins(env_pairs()[i].1, BUILD_ROOT@),
{
    let v = env_pairs()[i].1;
    assert(exists|n: Text| v == subdir_path(n));
    let n = choose|n: Text| v == subdir_path(n);
    assert(v.subrange(0, BUILD_ROOT@.len() as int) =~= BUILD_ROOT@);
}

/// Every variable points to a directory that is made beforehand, below the one that is then
/// given to the user who builds; it lies on disk, not in memory.
pub proof fn builds_find_their_directories(user: Text, i: int)
    requires
        0 <= i < env_pairs().len(),
        effects::one_word(user),
    ensures
        ({
            let words = text::words_of(ensure_command(user));
            let place = env_pairs()[i].1;
            exists|j: int, k: int|
                {
                    &&& 1 < j < k
                    &&& k + 4 < words.len()
                    &&& words[0] == "mkdir"@
                    &&& words[1] == "-p"@
                    &&& #[trigger] words[j] == place
                    &&& #[trigger] words[k] == "&&"@
                    &&& words[k + 1] == "chown"@
                    &&& words[k + 2] == "-R"@
                    &&& words[k + 3] == user + ":"@ + user
                    &&& text::begins(place, words[k + 4] + "/"@)
                    &&& text::begins(words[k + 4], "/var/"@)
                    &&& words.len() == k + 5
                }
        }),
{
    let dirs = subdir_paths();
    let whom = user + ":"@ + user;
    let head = seq!["mkdir"@, "-p"@];
    let tail = seq!["&&"@, "chown"@, "-R"@, whom, BUILD_ROOT@];
    let all = head + dirs + tail;
    reveal_strlit(" ");
    reveal_strlit("/");
    reveal_strlit("/var/");
    reveal_strlit("/var/cache/deploytix/build");
    assert(single(head, dirs, tail)) by {
        lemma_plain(user);
    }
    assert(text::joined(all, " "@) == ensure_command(user)) by {
        effects::lemma_joined_sum(head, dirs, " "@);
        effects::lemma_joined_sum(head + dirs, tail, " "@);
        assert(text::joined(head, " "@) + " "@ =~= "mkdir -p "@) by {
            reveal_strlit("mkdir -p ");
            reveal_strlit("mkdir");
            reveal_strlit("-p");
            reveal_with_fuel(text::joined, 3);
            assert(head.drop_last() =~= seq!["mkdir"@]);
        }
        assert(" "@ + text::joined(tail, " "@) =~= " && chown -R "@ + user + ":"@ + user + " "@
            + BUILD_ROOT@) by {
            reveal_strlit(" && chown -R ");
            reveal_strlit("&&");
            reveal_strlit("chown");
            reveal_strlit("-R");
            reveal_with_fuel(text::joined, 6);
            assert(tail.drop_last().drop_last().drop_last().drop_last() =~= seq!["&&"@]);
        }
        let middle = text::joined(dirs, " "@);
        let first = text::joined(head, " "@) + " "@;
        let last = " "@ + text::joined(tail, " "@);
        assert(text::joined(all, " "@) =~= first + middle + last);
        assert(ensure_command(user) =~= "mkdir -p "@ + middle + (" && chown -R "@ + user + ":"@
            + user + " "@ + BUILD_ROOT@));
    }
    effects::lemma_words_joined(all);
    let words = text::words_of(ensure_command(user));
    assert(words == all);
    let place = env_pairs()[i].1;
    let n = if i == 5 {
        0
    } else {
        i
    };
    assert(dirs[n] == place);
    assert(words[n + 2] == place);
    assert(words[7] == "&&"@);
    let root = BUILD_ROOT@ + "/"@;
    assert(place.subrange(0, root.len() as int) =~= root);
    assert(BUILD_ROOT@.subrange(0, 5) =~= "/var/"@);
}

spec fn single(head: Seq<Text>, dirs: Seq<Text>, tail: Seq<Text>) -> bool {
    effects::single_words(head + dirs + tail)
}

proof fn lemma_plain(user: Text)
    requires
        effects::one_word(user),
    ensures
        single(
            seq!["mkdir"@, "-p"@],
            subdir_paths(),
            seq!["&&"@, "chown"@, "-R"@, user + ":"@ + user, BUILD_ROOT@],
        ),
{
    let dirs = subdir_paths();
    let tail = seq!["&&"@, "chown"@, "-R"@, user + ":"@ + user, BUILD_ROOT@];
    let head = seq!["mkdir"@, "-p"@];
    let all = head + dirs + tail;
    reveal_strlit("mkdir");
    reveal_strlit("-p");
    reveal_strlit("&&");
    reveal_strlit("chown");
    reveal_strlit("-R");
    reveal_strlit(":");
    reveal_strlit("/");
    reveal_strlit("/var/cache/deploytix/build");
    reveal_strlit("build");
    reveal_strlit("src");
    reveal_strlit("pkg");
    reveal_strlit("srcpkg");
    reveal_strlit("log");
    assert forall|i: int| 0 <= i < dirs.len() implies effects::one_word(#[trigger] dirs[i]) by {
        let name = subdir_names()[i];
        assert(effects::one_word(name));
        assert(dirs[i] == BUILD_ROOT@ + "/"@ + name);
        lemma_word_sum(BUILD_ROOT@, "/"@);
        lemma_word_sum(BUILD_ROOT@ + "/"@, name);
    }
    lemma_word_sum(user, ":"@);
    lemma_word_sum(user + ":"@, user);
    assert forall|i: int| 0 <= i < all.len() implies effects::one_word(#[trigger] all[i]) by {
        if 2 <= i < 7 {
            assert(all[i] == dirs[i - 2]);
        }
    }
}

proof fn lemma_word_sum(a: Text, b: Text)
    requires
        effects::one_word(a),
        effects::one_word(b),
    ensures
        effects::one_word(a + b),
{
    let s = a + b;
    assert forall|i: int| 0 <= i < s.len() implies !text::white(#[trigger] s[i]) by {
        if i < a.len() {
            assert(s[i] == a[i]);
        } else {
            assert(s[i] == b[i - a.len()]);
        }
    }
}

} // verus!
