//! What steps amount to on a machine: what a command line consists of, what a file
//! holds in the end, which services start, and which containers are open.
use vstd::prelude::*;

use crate::config::options::InitSystem;
use crate::plan::{Act, CryptsetupCall};
use crate::text;
use crate::text::Text;

verus! {

// ------------------------------------------------------------------------- words
/// A text that is one word of a command line.
pub open spec fn one_word(s: Text) -> bool {
    s.len() > 0 && forall|i: int| 0 <= i < s.len() ==> !text::white(#[trigger] s[i])
}

/// Texts that are one word each.
pub open spec fn single_words(v: Seq<Text>) -> bool {
    forall|i: int| 0 <= i < v.len() ==> one_word(#[trigger] v[i])
}

proof fn lemma_word_whole(w: Text)
    requires
        forall|i: int| 0 <= i < w.len() ==> !text::white(#[trigger] w[i]),
    ensures
        text::word_len(w) == w.len(),
    decreases w.len(),
{
    if w.len() > 0 {
        let t = w.drop_first();
        assert forall|i: int| 0 <= i < t.len() implies !text::white(#[trigger] t[i]) by {
            assert(t[i] == w[i + 1]);
        }
        lemma_word_whole(t);
    }
}

/// A word is its own only word.
pub proof fn lemma_words_one(w: Text)
    requires
        one_word(w),
    ensures
        text::words_of(w) == seq![w],
{
    lemma_word_whole(w);
    assert(text::trimmed_start(w) == w);
    assert(w.take(w.len() as int) =~= w);
    let rest = w.skip(w.len() as int);
    assert(rest.len() == 0);
    assert(text::trimmed_start(rest).len() == 0);
    assert(text::words_of(rest) =~= seq![]);
    assert(text::words_of(w) =~= seq![w]);
}

/// A word behind a space is the last word.
pub proof fn lemma_words_push(s: Text, w: Text)
    requires
        one_word(w),
    ensures
        text::words_of(s + seq![' '] + w) == text::words_of(s).push(w),
    decreases s.len(),
{
    let whole = s + seq![' '] + w;
    if s.len() == 0 {
        assert(whole.drop_first() =~= w);
        assert(whole[0] == ' ');
        assert(text::trimmed_start(whole) == text::trimmed_start(w));
        lemma_words_one(w);
        assert(text::words_of(s) =~= seq![]);
        assert(text::words_of(whole) =~= text::words_of(w));
        assert(text::words_of(whole) =~= text::words_of(s).push(w));
    } else if text::white(s[0]) {
        let t = s.drop_first();
        assert(whole.drop_first() =~= t + seq![' '] + w);
        assert(whole[0] == s[0]);
        lemma_words_push(t, w);
        assert(text::trimmed_start(whole) == text::trimmed_start(whole.drop_first()));
        assert(text::trimmed_start(s) == text::trimmed_start(t));
        assert(text::words_of(whole) =~= text::words_of(whole.drop_first()));
        assert(text::words_of(s) =~= text::words_of(t));
    } else {
        text::lemma_word_len(s);
        text::lemma_word_len(whole);
        let n = text::word_len(s);
        let m = text::word_len(whole);
        assert(whole[0] == s[0]);
        assert(n <= s.len());
        if m < n {
            assert(whole[m] == s[m]);
        }
        if n < m {
            if n < s.len() {
                assert(whole[n] == s[n]);
            } else {
                assert(whole[n] == ' ');
            }
        }
        assert(n > 0) by {
            text::lemma_word_len(s.drop_first());
        }
        assert(whole.take(n) =~= s.take(n));
        assert(whole.skip(n) =~= s.skip(n) + seq![' '] + w);
        lemma_words_push(s.skip(n), w);
        assert(text::trimmed_start(whole) == whole);
        assert(text::trimmed_start(s) == s);
        assert(text::words_of(whole) =~= text::words_of(s).push(w));
    }
}

/// Words that are joined by spaces are the words of the whole.
pub proof fn lemma_words_joined(parts: Seq<Text>)
    requires
        single_words(parts),
    ensures
        text::words_of(text::joined(parts, " "@)) == parts,
    decreases parts.len(),
{
    reveal_strlit(" ");
    assert(" "@ =~= seq![' ']);
    if parts.len() == 0 {
        assert(text::words_of(text::joined(parts, " "@)) =~= parts);
    } else if parts.len() == 1 {
        lemma_words_one(parts[0]);
        assert(parts =~= seq![parts[0]]);
    } else {
        let init = parts.drop_last();
        assert(one_word(parts[parts.len() - 1]));
        assert forall|i: int| 0 <= i < init.len() implies one_word(#[trigger] init[i]) by {
            assert(init[i] == parts[i]);
        }
        lemma_words_joined(init);
        lemma_words_push(text::joined(init, " "@), parts.last());
        assert(init.push(parts.last()) =~= parts);
    }
}

/// Lists of words that are joined by a space are joined lists.
pub proof fn lemma_joined_sum(a: Seq<Text>, b: Seq<Text>, sep: Text)
    requires
        a.len() > 0,
        b.len() > 0,
    ensures
        text::joined(a + b, sep) == text::joined(a, sep) + sep + text::joined(b, sep),
    decreases b.len(),
{
    let all = a + b;
    if b.len() == 1 {
        assert(all.drop_last() =~= a);
        assert(all.last() == b[0]);
    } else {
        let init = b.drop_last();
        lemma_joined_sum(a, init, sep);
        assert(all.drop_last() =~= a + init);
        assert(all.last() == b.last());
        assert(text::joined(all, sep) =~= text::joined(a, sep) + sep + text::joined(b, sep));
    }
}

// ------------------------------------------------------------------------- files
/// The step may change what is at the path.
pub open spec fn touches(a: Act, p: Text) -> bool {
    match a {
        Act::Write { path, .. } => path == p,
        Act::WriteIf { path, .. } => path == p,
        Act::Link { path, .. } => path == p,
        Act::Relink { path, .. } => path == p,
        Act::Copy { to, .. } => to == p,
        Act::Remove(path) => path == p,
        _ => false,
    }
}

/// The steps leave a file with this content: one writes it, and none writes another
/// or takes it away.
pub open spec fn leaves(acts: Seq<Act>, p: Text, content: Text) -> bool {
    &&& exists|i: int| 0 <= i < acts.len() && touches(#[trigger] acts[i], p)
    &&& forall|i: int|
        0 <= i < acts.len() && touches(#[trigger] acts[i], p) ==> (acts[i] matches Act::Write {
            content: c,
            ..
        } && c == content)
}

/// The steps leave a file with this content that none but those whom the mode admits can
/// read.
pub open spec fn leaves_with(acts: Seq<Act>, p: Text, content: Text, mode: u32) -> bool {
    &&& leaves(acts, p, content)
    &&& forall|i: int|
        0 <= i < acts.len() && touches(#[trigger] acts[i], p) ==> (acts[i] matches Act::Write {
            mode: m,
            ..
        } && m == Some(mode))
    &&& forall|i: int|
        0 <= i < acts.len() && (#[trigger] acts[i] matches Act::SetMode { path, .. } && path == p)
            ==> (acts[i] matches Act::SetMode { mode: m, .. } && m == mode)
}

/// No step changes what is at the path.
pub open spec fn untouched(acts: Seq<Act>, p: Text) -> bool {
    forall|i: int| 0 <= i < acts.len() ==> !touches(#[trigger] acts[i], p)
}

/// Steps that leave a file alone do not change what other steps leave in it.
pub proof fn lemma_leaves_sum(a: Seq<Act>, b: Seq<Act>, p: Text, content: Text)
    ensures
        leaves(a, p, content) && untouched(b, p) ==> leaves(a + b, p, content),
        untouched(a, p) && leaves(b, p, content) ==> leaves(a + b, p, content),
        untouched(a, p) && untouched(b, p) ==> untouched(a + b, p),
{
    let s = a + b;
    assert forall|i: int| 0 <= i < a.len() implies #[trigger] s[i] == a[i] by {}
    assert forall|i: int| a.len() <= i < s.len() implies #[trigger] s[i] == b[i - a.len()] by {}
    if leaves(a, p, content) && untouched(b, p) {
        let k = choose|k: int| 0 <= k < a.len() && touches(#[trigger] a[k], p);
        assert(touches(s[k], p));
        assert forall|i: int| 0 <= i < s.len() && touches(#[trigger] s[i], p) implies (s[i] matches Act::Write {
            content: c,
            ..
        } && c == content) by {
            if i < a.len() {
                assert(s[i] == a[i]);
            } else {
                assert(!touches(b[i - a.len()], p));
            }
        }
    }
    if untouched(a, p) && leaves(b, p, content) {
        let k = choose|k: int| 0 <= k < b.len() && touches(#[trigger] b[k], p);
        assert(touches(s[a.len() + k], p));
        assert forall|i: int| 0 <= i < s.len() && touches(#[trigger] s[i], p) implies (s[i] matches Act::Write {
            content: c,
            ..
        } && c == content) by {
            if i < a.len() {
                assert(!touches(a[i], p));
            } else {
                assert(s[i] == b[i - a.len()]);
            }
        }
    }
    if untouched(a, p) && untouched(b, p) {
        assert forall|i: int| 0 <= i < s.len() implies !touches(#[trigger] s[i], p) by {
            if i < a.len() {
                assert(s[i] == a[i]);
            } else {
                assert(s[i] == b[i - a.len()]);
            }
        }
    }
}

/// Paths below one directory are told apart by what follows it.
pub proof fn lemma_paths_differ(root: Text, a: Text, b: Text)
    requires
        a != b,
    ensures
        root + a != root + b,
{
    if root + a == root + b {
        assert((root + a).skip(root.len() as int) =~= a);
        assert((root + b).skip(root.len() as int) =~= b);
    }
}

// ---------------------------------------------------------------------- services
/// The service that a link in this directory starts: it has the name of its definition,
/// and the link leads there.
pub open spec fn linked_service(a: Act, dir: Text, definitions: Text) -> Option<Text> {
    match a {
        Act::Link { target, path } => match text::without_prefix(path, dir) {
            Some(s) if target == definitions + s => Some(s),
            _ => None,
        },
        _ => None,
    }
}

/// The words of a command that is run inside the target.
pub open spec fn target_words(a: Act, root: Text) -> Seq<Text> {
    match a {
        Act::Chroot { root: r, command } if r == root => text::words_of(command),
        Act::TryChroot { root: r, command } if r == root => text::words_of(command),
        _ => seq![],
    }
}

/// The services that start with the target after one step.
pub open spec fn starting_after(init: InitSystem, root: Text, a: Act, before: Set<Text>) -> Set<Text> {
    let w = target_words(a, root);
    match init {
        InitSystem::Runit => match linked_service(
            a,
            root + "/etc/runit/runsvdir/default/"@,
            "/etc/runit/sv/"@,
        ) {
            Some(s) => before.insert(s),
            None => before,
        },
        InitSystem::Dinit => match linked_service(
            a,
            root + "/etc/dinit.d/boot.d/"@,
            "/etc/dinit.d/"@,
        ) {
            Some(s) => before.insert(s),
            None => before,
        },
        InitSystem::OpenRC => if w.len() == 4 && w[0] == "rc-update"@ && w[3] == "default"@ {
            if w[1] == "add"@ {
                before.insert(w[2])
            } else if w[1] == "del"@ {
                before.remove(w[2])
            } else {
                before
            }
        } else {
            before
        },
        InitSystem::S6 => if w.len() == 4 && w[0] == "s6"@ && w[1] == "set"@ {
            if w[2] == "enable"@ {
                before.insert(w[3])
            } else if w[2] == "disable"@ {
                before.remove(w[3])
            } else {
                before
            }
        } else {
            before
        },
    }
}

/// The services that start with the target after some steps.
pub open spec fn starting(init: InitSystem, root: Text, acts: Seq<Act>, before: Set<Text>) -> Set<Text>
    decreases acts.len(),
{
    if acts.len() == 0 {
        before
    } else {
        starting_after(init, root, acts.last(), starting(init, root, acts.drop_last(), before))
    }
}

pub proof fn lemma_starting_sum(
    init: InitSystem,
    root: Text,
    a: Seq<Act>,
    b: Seq<Act>,
    before: Set<Text>,
)
    ensures
        starting(init, root, a + b, before) == starting(
            init,
            root,
            b,
            starting(init, root, a, before),
        ),
    decreases b.len(),
{
    let s = a + b;
    if b.len() == 0 {
        assert(s =~= a);
    } else {
        assert(s.drop_last() =~= a + b.drop_last());
        assert(s.last() == b.last());
        lemma_starting_sum(init, root, a, b.drop_last(), before);
    }
}

// -------------------------------------------------------------------- containers
/// What opens a container.
#[allow(inconsistent_fields)]
pub enum Key {
    Passphrase(Text),
    /// The file with this path.
    File(Text),
}

/// A LUKS container on a device.
pub struct Vault {
    /// The version of its header.
    pub version: Text,
    /// Each sector has a checksum.
    pub checked: bool,
    pub keys: Set<Key>,
}

/// The containers of a machine by their devices, and the mapper names of the open ones
/// with the devices behind them.
pub struct Vaults {
    pub made: Map<Text, Vault>,
    pub open: Map<Text, Text>,
}

/// The argument that follows an option.
pub open spec fn option_of(args: Seq<Text>, name: Text) -> Option<Text> {
    let i = crate::index::first(args.len() as int, |i: int| args[i] == name);
    if i + 1 < args.len() {
        Some(args[i + 1])
    } else {
        None
    }
}

/// What a call hands over to open a container.
pub open spec fn key_of(call: CryptsetupCall) -> Option<Key> {
    if call.args.len() >= 2 && call.args[0] == "--key-file"@ {
        Some(Key::File(call.args[1]))
    } else {
        match call.secret {
            Some(p) => Some(Key::Passphrase(p)),
            None => None,
        }
    }
}

/// What a call does, without the key that it hands over.
pub open spec fn request_of(call: CryptsetupCall) -> Seq<Text> {
    if call.args.len() >= 2 && call.args[0] == "--key-file"@ {
        call.args.skip(2)
    } else {
        call.args
    }
}

/// The key opens the container on the device.
pub open spec fn fits(v: Vaults, device: Text, key: Option<Key>) -> bool {
    key matches Some(k) && v.made.contains_key(device) && v.made[device].keys.contains(k)
}

/// What cryptsetup does; nothing where it fails.
pub open spec fn cryptsetup_after(v: Vaults, call: CryptsetupCall) -> Option<Vaults> {
    let a = request_of(call);
    let key = key_of(call);
    if a.len() >= 2 && a[0] == "luksFormat"@ {
        match (key, option_of(a, "--type"@)) {
            (Some(k), Some(version)) => Some(
                Vaults {
                    made: v.made.insert(
                        a.last(),
                        Vault { version, checked: a.contains("--integrity"@), keys: set![k] },
                    ),
                    ..v
                },
            ),
            _ => None,
        }
    } else if a.len() == 3 && a[0] == "open"@ && a[1] == "--test-passphrase"@ {
        if fits(v, a[2], key) {
            Some(v)
        } else {
            None
        }
    } else if a.len() == 3 && a[0] == "open"@ {
        if fits(v, a[1], key) && !v.open.contains_key(a[2]) {
            Some(Vaults { open: v.open.insert(a[2], a[1]), ..v })
        } else {
            None
        }
    } else if a.len() == 3 && a[0] == "luksAddKey"@ {
        if fits(v, a[1], key) {
            let old = v.made[a[1]];
            Some(
                Vaults {
                    made: v.made.insert(a[1], Vault { keys: old.keys.insert(Key::File(a[2])), ..old }),
                    ..v
                },
            )
        } else {
            None
        }
    } else {
        None
    }
}

/// The containers after one step; nothing where it fails.
pub open spec fn vaults_after(v: Vaults, a: Act) -> Option<Vaults> {
    match a {
        Act::Cryptsetup(call) => cryptsetup_after(v, call),
        Act::Run { program, args } if program == "cryptsetup"@ => if args.len() == 2 && args[0]
            == "close"@ && v.open.contains_key(args[1]) {
            Some(Vaults { open: v.open.remove(args[1]), ..v })
        } else {
            None
        },
        _ => Some(v),
    }
}

/// The containers after some steps; nothing where one of them fails.
pub open spec fn vaults(v: Vaults, acts: Seq<Act>) -> Option<Vaults>
    decreases acts.len(),
{
    if acts.len() == 0 {
        Some(v)
    } else {
        match vaults(v, acts.drop_last()) {
            Some(w) => vaults_after(w, acts.last()),
            None => None,
        }
    }
}

pub proof fn lemma_vaults_sum(v: Vaults, a: Seq<Act>, b: Seq<Act>)
    ensures
        vaults(v, a + b) == match vaults(v, a) {
            Some(w) => vaults(w, b),
            None => None,
        },
    decreases b.len(),
{
    let s = a + b;
    if b.len() == 0 {
        assert(s =~= a);
    } else {
        assert(s.drop_last() =~= a + b.drop_last());
        assert(s.last() == b.last());
        lemma_vaults_sum(v, a, b.drop_last());
    }
}

/// Steps that are no calls of cryptsetup leave the containers as they are.
pub proof fn lemma_vaults_same(v: Vaults, acts: Seq<Act>)
    requires
        forall|i: int|
            0 <= i < acts.len() ==> vaults_after(v, #[trigger] acts[i]) == Some(v),
    ensures
        vaults(v, acts) == Some(v),
    decreases acts.len(),
{
    if acts.len() > 0 {
        let init = acts.drop_last();
        assert forall|i: int| 0 <= i < init.len() implies vaults_after(v, #[trigger] init[i])
            == Some(v) by {
            assert(init[i] == acts[i]);
        }
        lemma_vaults_same(v, init);
        assert(vaults_after(v, acts[acts.len() - 1]) == Some(v));
    }
}

/// The arguments hold the option with this value behind it.
pub open spec fn has_option(args: Seq<Text>, name: Text, value: Text) -> bool {
    exists|i: int| 0 <= i < args.len() - 1 && #[trigger] args[i] == name && args[i + 1] == value
}

/// What two lists hold together.
pub proof fn lemma_sum_contains(a: Seq<Text>, b: Seq<Text>, x: Text)
    ensures
        (a + b).contains(x) <==> a.contains(x) || b.contains(x),
{
    let s = a + b;
    if a.contains(x) {
        let i = choose|i: int| 0 <= i < a.len() && a[i] == x;
        assert(s[i] == x);
    }
    if b.contains(x) {
        let i = choose|i: int| 0 <= i < b.len() && b[i] == x;
        assert(s[a.len() + i] == x);
    }
    if s.contains(x) {
        let i = choose|i: int| 0 <= i < s.len() && s[i] == x;
        if i < a.len() {
            assert(a[i] == x);
        } else {
            assert(b[i - a.len()] == x);
        }
    }
}

/// The words with which pacman is told to install packages without a question.
pub open spec fn installing() -> Seq<Text> {
    seq!["pacman"@, "-S"@, "--noconfirm"@, "--needed"@]
}

/// The words of a command that installs packages.
pub proof fn lemma_installing(packages: Seq<Text>)
    requires
        packages.len() > 0,
        single_words(packages),
    ensures
        text::words_of("pacman -S --noconfirm --needed "@ + text::joined(packages, " "@))
            == installing() + packages,
        text::words_of("pacman -S --noconfirm --needed "@ + text::joined(packages, " "@)).take(4)
            == installing(),
        text::words_of("pacman -S --noconfirm --needed "@ + text::joined(packages, " "@)).skip(4)
            == packages,
{
    let head = installing();
    let all = head + packages;
    let command = "pacman -S --noconfirm --needed "@ + text::joined(packages, " "@);
    assert(text::joined(head, " "@) + " "@ == "pacman -S --noconfirm --needed "@) by {
        reveal_strlit("pacman -S --noconfirm --needed ");
        reveal_strlit("pacman");
        reveal_strlit("-S");
        reveal_strlit("--noconfirm");
        reveal_strlit("--needed");
        reveal_strlit(" ");
        reveal_with_fuel(text::joined, 5);
        assert(head.drop_last().drop_last().drop_last() =~= seq!["pacman"@]);
        assert(text::joined(head, " "@) + " "@ =~= "pacman -S --noconfirm --needed "@);
    }
    lemma_joined_sum(head, packages, " "@);
    assert(single_words(head)) by {
        reveal_strlit("pacman");
        reveal_strlit("-S");
        reveal_strlit("--noconfirm");
        reveal_strlit("--needed");
    }
    assert forall|k: int| 0 <= k < all.len() implies one_word(#[trigger] all[k]) by {
        if k >= 4 {
            assert(all[k] == packages[k - 4]);
        } else {
            assert(all[k] == head[k]);
        }
    }
    lemma_words_joined(all);
    assert(all.take(4) =~= head);
    assert(all.skip(4) =~= packages);
}

/// A text between two others stands in the whole.
pub proof fn lemma_part(before: Text, part: Text, after: Text)
    ensures
        text::holds(before + part + after, part),
        after.len() == 0 ==> text::ends(before + part + after, part),
{
    let s = before + part + after;
    assert(s.subrange(before.len() as int, before.len() as int + part.len()) =~= part);
    assert(text::at(s, before.len() as int, part));
}

} // verus!
