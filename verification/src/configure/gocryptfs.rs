//! Encrypted homes that open when their users log in.
use vstd::prelude::*;

use crate::config::model::DeploymentConfig;
use crate::index;
use crate::plan;
use crate::plan::{chroot, extend, make_dir, run, say, write_file, Act, Step};
use crate::text;
use crate::text::{
    concat, concat3, contains, join, lines, push_text, replace, same, starts_with, trim, trim_end,
    Text,
};

verus! {

// -------------------------------------------------------------------------- FUSE
/// A fuse.conf that lets users share their mounts.
pub open spec fn allows_other(conf: Text) -> bool {
    exists|i: int|
        0 <= i < text::lines_of(conf).len() && text::trimmed(#[trigger] text::lines_of(conf)[i])
            == "user_allow_other"@
}

/// The fuse.conf that lets users share their mounts; nothing where it does so.
pub open spec fn fuse_conf_for(conf: Text) -> Option<Text> {
    if allows_other(conf) {
        None
    } else if allows_other(uncommented(conf)) {
        Some(uncommented(conf))
    } else {
        Some(text::trimmed_end(conf) + "\nuser_allow_other\n"@)
    }
}

/// The fuse.conf with the option no longer commented out.
pub open spec fn uncommented(conf: Text) -> Text {
    text::replaced(conf, "#user_allow_other"@, "user_allow_other"@)
}

fn lets_others(conf: &str) -> (r: bool)
    ensures
        r == allows_other(conf@),
{
    let all = lines(conf);
    let mut i: usize = 0;
    while i < all.len()
        invariant
            i <= all@.len(),
            all.deep_view() == text::lines_of(conf@),
            forall|j: int|
                0 <= j < i ==> text::trimmed(#[trigger] text::lines_of(conf@)[j])
                    != "user_allow_other"@,
        decreases all.len() - i,
    {
        assert(all.deep_view()[i as int] == all@[i as int]@);
        if same(trim(all[i].as_str()).as_str(), "user_allow_other") {
            assert(text::trimmed(text::lines_of(conf@)[i as int]) == "user_allow_other"@);
            return true;
        }
        i += 1;
    }
    false
}

pub fn allow_other(conf: &str) -> (r: Option<String>)
    ensures
        plan::seen(r) == fuse_conf_for(conf@),
{
    if lets_others(conf) {
        return None;
    }
    proof {
        reveal_strlit("#user_allow_other");
    }
    let open = replace(conf, "#user_allow_other", "user_allow_other");
    if lets_others(open.as_str()) {
        Some(open)
    } else {
        Some(concat(trim_end(conf).as_str(), "\nuser_allow_other\n"))
    }
}

/// Letting users share their mounts, given the fuse.conf of the target.
pub open spec fn fuse_steps(conf: Text, install_root: Text) -> Seq<Act> {
    let path = install_root + "/etc/fuse.conf"@;
    match fuse_conf_for(conf) {
        Some(content) => seq![
            Act::Write { path, content, mode: None },
            Act::Run { program: "chmod"@, args: seq!["644"@, path] },
        ],
        None => seq![],
    }
}

fn configure_fuse(conf: &str, install_root: &str) -> (r: Vec<Step>)
    ensures
        plan::acts(r@) == fuse_steps(conf@, install_root@),
{
    let mut steps: Vec<Step> = Vec::new();
    let path = concat(install_root, "/etc/fuse.conf");
    if let Some(content) = allow_other(conf) {
        write_file(&mut steps, path.as_str(), content.as_str(), None);
        let mut args: Vec<String> = Vec::new();
        push_text(&mut args, "644");
        push_text(&mut args, path.as_str());
        assert(args.deep_view() =~= seq!["644"@, path@]);
        run(&mut steps, "chmod", args);
    }
    assert(plan::acts(steps@) =~= fuse_steps(conf@, install_root@));
    steps
}

// ----------------------------------------------------------------- the directory
/// Making the encrypted directory.
pub open spec fn cipher_steps(user: Text, password: Text, install_root: Text) -> Seq<Act> {
    seq![
        Act::MakeDir(install_root + "/home/"@ + user + ".cipher"@),
        Act::Chroot {
            root: install_root,
            command: "gocryptfs -init -q -extpass \"echo '"@ + password + "'\" /home/"@ + user
                + ".cipher"@,
        },
        Act::Chroot {
            root: install_root,
            command: "chown -R "@ + user + ":"@ + user + " /home/"@ + user + ".cipher"@,
        },
        Act::Chroot { root: install_root, command: "chmod 700 /home/"@ + user + ".cipher"@ },
    ]
}

fn init_cipher_directory(user: &str, password: &str, install_root: &str) -> (r: Vec<Step>)
    ensures
        plan::acts(r@) == cipher_steps(user@, password@, install_root@),
{
    let mut steps: Vec<Step> = Vec::new();
    make_dir(
        &mut steps,
        concat(concat3(install_root, "/home/", user).as_str(), ".cipher").as_str(),
    );
    chroot(
        &mut steps,
        install_root,
        concat3(
            concat3("gocryptfs -init -q -extpass \"echo '", password, "'\" /home/").as_str(),
            user,
            ".cipher",
        ).as_str(),
    );
    chroot(
        &mut steps,
        install_root,
        concat3(
            concat3(concat3("chown -R ", user, ":").as_str(), user, " /home/").as_str(),
            user,
            ".cipher",
        ).as_str(),
    );
    chroot(&mut steps, install_root, concat3("chmod 700 /home/", user, ".cipher").as_str());
    assert(plan::acts(steps@) =~= cipher_steps(user@, password@, install_root@));
    steps
}

/// Filling the encrypted directory, in one command: the mount does not outlive a
/// chroot.
pub open spec fn skel_steps(user: Text, password: Text, install_root: Text) -> Seq<Act> {
    seq![
        Act::Chroot {
            root: install_root,
            command: "gocryptfs -extpass \"echo '"@ + password + "'\" /home/"@ + user
                + ".cipher /home/"@ + user + " && cp -a /etc/skel/. /home/"@ + user
                + "/ && chown -R "@ + user + ":"@ + user + " /home/"@ + user
                + " && fusermount -u /home/"@ + user,
        },
    ]
}

fn populate_skel(user: &str, password: &str, install_root: &str) -> (r: Vec<Step>)
    ensures
        plan::acts(r@) == skel_steps(user@, password@, install_root@),
{
    let mut steps: Vec<Step> = Vec::new();
    chroot(
        &mut steps,
        install_root,
        concat(
            concat3(
                concat3(
                    concat3(
                        concat3(
                            concat3(
                                concat3(
                                    concat3(
                                        "gocryptfs -extpass \"echo '",
                                        password,
                                        "'\" /home/",
                                    ).as_str(),
                                    user,
                                    ".cipher /home/",
                                ).as_str(),
                                user,
                                " && cp -a /etc/skel/. /home/",
                            ).as_str(),
                            user,
                            "/ && chown -R ",
                        ).as_str(),
                        user,
                        ":",
                    ).as_str(),
                    user,
                    " /home/",
                ).as_str(),
                user,
                " && fusermount -u /home/",
            ).as_str(),
            user,
        ).as_str(),
    );
    assert(plan::acts(steps@) =~= skel_steps(user@, password@, install_root@));
    steps
}

// ---------------------------------------------------------------------- pam_mount
pub const VOLUME_ENTRY: &'static str =
    "\" fstype=\"fuse\" options=\"nodev,nosuid,quiet,allow_other\" path=\"/usr/bin/gocryptfs#/home/%(USER).cipher\" mountpoint=\"/home/%(USER)\" />";

/// The entry that mounts a user's home when they log in.
pub open spec fn volume_entry_text(user: Text) -> Text {
    "<volume user=\""@ + user + VOLUME_ENTRY@
}

fn volume_entry(user: &str) -> (r: String)
    ensures
        r@ == volume_entry_text(user@),
{
    let mut s = "<volume user=\"".to_owned();
    s.push_str(user);
    s.push_str(VOLUME_ENTRY);
    s
}

pub const MINIMAL_CONF: &'static str = r#"<?xml version="1.0" encoding="utf-8" ?>
<!DOCTYPE pam_mount SYSTEM "pam_mount.conf.xml.dtd">
<pam_mount>
"#;

/// A pam_mount.conf.xml with nothing but an entry.
pub open spec fn minimal_conf_text(entry: Text) -> Text {
    MINIMAL_CONF@ + entry + "\n</pam_mount>\n"@
}

fn minimal_conf(entry: &str) -> (r: String)
    ensures
        r@ == minimal_conf_text(entry@),
{
    let mut s = MINIMAL_CONF.to_owned();
    s.push_str(entry);
    s.push_str("\n</pam_mount>\n");
    s
}

/// The pam_mount.conf.xml with an entry for the user; nothing where it has it.
pub open spec fn mount_conf_for(conf: Text, user: Text) -> Option<Text> {
    let entry = volume_entry_text(user);
    if text::holds(conf, entry) {
        None
    } else if text::holds(conf, "</pam_mount>"@) {
        Some(text::replaced(conf, "</pam_mount>"@, entry + "\n</pam_mount>"@))
    } else {
        Some(minimal_conf_text(entry))
    }
}

pub fn with_volume_entry(conf: &str, user: &str) -> (r: Option<String>)
    ensures
        plan::seen(r) == mount_conf_for(conf@, user@),
{
    let entry = volume_entry(user);
    if contains(conf, entry.as_str()) {
        None
    } else if contains(conf, "</pam_mount>") {
        proof {
            reveal_strlit("</pam_mount>");
        }
        Some(replace(conf, "</pam_mount>", concat(entry.as_str(), "\n</pam_mount>").as_str()))
    } else {
        Some(minimal_conf(entry.as_str()))
    }
}

/// Telling pam_mount about the user's home, given its configuration.
pub open spec fn mount_steps(conf: Text, user: Text, install_root: Text) -> Seq<Act> {
    match mount_conf_for(conf, user) {
        Some(content) => seq![
            Act::MakeDir(install_root + "/etc/security"@),
            Act::Write {
                path: install_root + "/etc/security/pam_mount.conf.xml"@,
                content,
                mode: None,
            },
        ],
        None => seq![],
    }
}

fn configure_pam_mount(conf: &str, user: &str, install_root: &str) -> (r: Vec<Step>)
    ensures
        plan::acts(r@) == mount_steps(conf@, user@, install_root@),
{
    let mut steps: Vec<Step> = Vec::new();
    if let Some(content) = with_volume_entry(conf, user) {
        make_dir(&mut steps, concat(install_root, "/etc/security").as_str());
        write_file(
            &mut steps,
            concat(install_root, "/etc/security/pam_mount.conf.xml").as_str(),
            content.as_str(),
            None,
        );
    }
    assert(plan::acts(steps@) =~= mount_steps(conf@, user@, install_root@));
    steps
}

// --------------------------------------------------------------------------- PAM
pub const AUTH_LINE: &'static str = "auth      optional  pam_mount.so";

pub const SESSION_LINE: &'static str = "session   optional  pam_mount.so";

/// The line that takes another stack in, exactly as it is shipped.
pub open spec fn exactly(shipped: Text) -> spec_fn(Text) -> bool {
    |l: Text| text::trimmed(l) == shipped
}

/// A line that takes system-auth in for the facility.
pub open spec fn roughly(facility: Text) -> spec_fn(Text) -> bool {
    |l: Text|
        {
            let t = text::trimmed(l);
            text::begins(t, facility) && text::holds(t, "include"@) && text::holds(
                t,
                "system-auth"@,
            )
        }
}

/// The first line with a property, or the number of lines.
pub open spec fn first_line(lines: Seq<Text>, g: spec_fn(Text) -> bool) -> int {
    index::first(lines.len() as int, |i: int| g(lines[i]))
}

/// The line at which pam_mount is hooked in for a facility: the one as shipped,
/// else one like it, else none, which is the number of lines.
pub open spec fn hook_line(lines: Seq<Text>, shipped: Text, facility: Text) -> int {
    let e = first_line(lines, exactly(shipped));
    if e < lines.len() {
        e
    } else {
        first_line(lines, roughly(facility))
    }
}

pub const AUTH_SHIPPED: &'static str = "auth      include   system-auth";

pub const SESSION_SHIPPED: &'static str = "session   include   system-auth";

pub open spec fn auth_hook(lines: Seq<Text>) -> int {
    hook_line(lines, AUTH_SHIPPED@, "auth"@)
}

pub open spec fn session_hook(lines: Seq<Text>) -> int {
    hook_line(lines, SESSION_SHIPPED@, "session"@)
}

/// The first `n` lines, with pam_mount before the line `a` and after the line `s`.
pub open spec fn hooked(lines: Seq<Text>, a: int, s: int, n: int) -> Seq<Text>
    decreases n,
{
    if n <= 0 {
        seq![]
    } else {
        hooked(lines, a, s, n - 1) + (if n - 1 == a {
            seq![AUTH_LINE@]
        } else {
            seq![]
        }) + seq![lines[n - 1]] + (if n - 1 == s {
            seq![SESSION_LINE@]
        } else {
            seq![]
        })
    }
}

/// The lines with pam_mount hooked in; at the end, where no line is fit for it.
pub open spec fn pam_lines(lines: Seq<Text>) -> Seq<Text> {
    let a = auth_hook(lines);
    let s = session_hook(lines);
    hooked(lines, a, s, lines.len() as int) + (if a >= lines.len() {
        seq![AUTH_LINE@]
    } else {
        seq![]
    }) + (if s >= lines.len() {
        seq![SESSION_LINE@]
    } else {
        seq![]
    })
}

/// The system-login with pam_mount hooked in; nothing where it speaks of it.
pub open spec fn pam_for(content: Text) -> Option<Text> {
    if text::holds(content, "pam_mount.so"@) {
        None
    } else {
        Some(text::joined(pam_lines(text::lines_of(content)), "\n"@) + "\n"@)
    }
}

fn find_hook(all: &Vec<String>, shipped: &str, facility: &str) -> (r: usize)
    ensures
        r == hook_line(all.deep_view(), shipped@, facility@),
        r <= all@.len(),
{
    let ghost d = all.deep_view();
    let ghost exact = |i: int| exactly(shipped@)(d[i]);
    let ghost rough = |i: int| roughly(facility@)(d[i]);
    let n: usize = all.len();
    let mut i: usize = 0;
    while i < n
        invariant
            n == all@.len(),
            d == all.deep_view(),
            i <= n,
            exact == (|i: int| exactly(shipped@)(d[i])),
            forall|j: int| 0 <= j < i ==> !#[trigger] exact(j),
        decreases n - i,
    {
        assert(d[i as int] == all@[i as int]@);
        if same(trim(all[i].as_str()).as_str(), shipped) {
            proof {
                assert(exact(i as int));
                index::lemma_first_is(n as int, exact, i as int);
            }
            return i;
        }
        assert(!exact(i as int));
        i += 1;
    }
    proof {
        index::lemma_first_is(n as int, exact, n as int);
    }
    let mut k: usize = 0;
    while k < n
        invariant
            n == all@.len(),
            d == all.deep_view(),
            k <= n,
            rough == (|i: int| roughly(facility@)(d[i])),
            forall|j: int| 0 <= j < k ==> !#[trigger] rough(j),
            first_line(d, exactly(shipped@)) == n,
        decreases n - k,
    {
        assert(d[k as int] == all@[k as int]@);
        let t = trim(all[k].as_str());
        if starts_with(t.as_str(), facility) && contains(t.as_str(), "include") && contains(
            t.as_str(),
            "system-auth",
        ) {
            proof {
                assert(rough(k as int));
                index::lemma_first_is(n as int, rough, k as int);
            }
            return k;
        }
        assert(!rough(k as int));
        k += 1;
    }
    proof {
        index::lemma_first_is(n as int, rough, n as int);
    }
    n
}

/// Hooks pam_mount into the content of system-login.
pub fn with_pam_mount(content: &str) -> (r: Option<String>)
    ensures
        plan::seen(r) == pam_for(content@),
{
    let all = lines(content);
    let ghost d = all.deep_view();
    let a: usize = find_hook(&all, AUTH_SHIPPED, "auth");
    let s: usize = find_hook(&all, SESSION_SHIPPED, "session");
    let n: usize = all.len();
    let mut out: Vec<String> = Vec::new();
    assert(out.deep_view() =~= seq![]);
    let mut i: usize = 0;
    while i < n
        invariant
            n == all@.len(),
            d == all.deep_view(),
            i <= n,
            out.deep_view() == hooked(d, a as int, s as int, i as int),
        decreases n - i,
    {
        let ghost before = out.deep_view();
        if i == a {
            push_text(&mut out, AUTH_LINE);
        }
        push_text(&mut out, all[i].as_str());
        if i == s {
            push_text(&mut out, SESSION_LINE);
        }
        i += 1;
        proof {
            assert(d[i - 1] == all@[i - 1]@);
            assert(out.deep_view() =~= hooked(d, a as int, s as int, i as int));
        }
    }
    if a >= n {
        push_text(&mut out, AUTH_LINE);
    }
    if s >= n {
        push_text(&mut out, SESSION_LINE);
    }
    assert(out.deep_view() =~= pam_lines(d));
    if contains(content, "pam_mount.so") {
        return None;
    }
    Some(concat(join(&out, "\n").as_str(), "\n"))
}

/// Hooking pam_mount into the log-in, given its system-login.
pub open spec fn pam_steps(content: Text, install_root: Text) -> Seq<Act> {
    match pam_for(content) {
        Some(content) => seq![
            Act::Write { path: install_root + "/etc/pam.d/system-login"@, content, mode: None },
        ],
        None => seq![],
    }
}

fn configure_pam(content: &str, install_root: &str) -> (r: Vec<Step>)
    ensures
        plan::acts(r@) == pam_steps(content@, install_root@),
{
    let mut steps: Vec<Step> = Vec::new();
    if let Some(new) = with_pam_mount(content) {
        write_file(
            &mut steps,
            concat(install_root, "/etc/pam.d/system-login").as_str(),
            new.as_str(),
            None,
        );
    }
    assert(plan::acts(steps@) =~= pam_steps(content@, install_root@));
    steps
}

// -------------------------------------------------------------------------- laws
pub open spec fn one_if(c: bool) -> int {
    if c {
        1
    } else {
        0
    }
}

/// Hooking pam_mount in keeps every line, in its order: what remains without the
/// lines that were added is what was there.
pub proof fn pam_keeps_every_line(lines: Seq<Text>, i: int)
    requires
        0 <= i < lines.len(),
    ensures
        pam_lines(lines).len() == lines.len() + 2,
        pam_lines(lines)[i + one_if(auth_hook(lines) <= i) + one_if(session_hook(lines) < i)] == lines[i],
{
    let a = auth_hook(lines);
    let s = session_hook(lines);
    lemma_hook_bounds(lines, AUTH_SHIPPED@, "auth"@);
    lemma_hook_bounds(lines, SESSION_SHIPPED@, "session"@);
    lemma_hooked(lines, a, s, lines.len() as int, i);
}

proof fn lemma_hook_bounds(lines: Seq<Text>, shipped: Text, facility: Text)
    ensures
        0 <= hook_line(lines, shipped, facility) <= lines.len(),
{
    index::lemma_first(lines.len() as int, |i: int| exactly(shipped)(lines[i]));
    index::lemma_first(lines.len() as int, |i: int| roughly(facility)(lines[i]));
}

proof fn lemma_hooked(lines: Seq<Text>, a: int, s: int, n: int, i: int)
    requires
        0 <= n <= lines.len(),
        0 <= a,
        0 <= s,
    ensures
        hooked(lines, a, s, n).len() == n + one_if(a < n) + one_if(s < n),
        0 <= i < n ==> hooked(lines, a, s, n)[i + one_if(a <= i) + one_if(s < i)] == lines[i],
    decreases n,
{
    if n > 0 {
        lemma_hooked(lines, a, s, n - 1, i);
    }
}

/// What stands before and after a hooked line.
pub proof fn pam_lines_stand_where_they_should(lines: Seq<Text>)
    ensures
        ({
            let a = auth_hook(lines);
            let s = session_hook(lines);
            &&& pam_lines(lines)[if a < lines.len() {
                a + one_if(s < a)
            } else {
                lines.len() + one_if(s < lines.len())
            }] == AUTH_LINE@
            &&& pam_lines(lines)[if s < lines.len() {
                s + 1 + one_if(a <= s)
            } else {
                lines.len() as int + 1
            }] == SESSION_LINE@
        }),
{
    let a = auth_hook(lines);
    let s = session_hook(lines);
    lemma_hook_bounds(lines, AUTH_SHIPPED@, "auth"@);
    lemma_hook_bounds(lines, SESSION_SHIPPED@, "session"@);
    lemma_added(lines, a, s, lines.len() as int);
}

proof fn lemma_added(lines: Seq<Text>, a: int, s: int, n: int)
    requires
        0 <= n <= lines.len(),
        0 <= a,
        0 <= s,
    ensures
        hooked(lines, a, s, n).len() == n + one_if(a < n) + one_if(s < n),
        a < n ==> hooked(lines, a, s, n)[a + one_if(s < a)] == AUTH_LINE@,
        s < n ==> hooked(lines, a, s, n)[s + 1 + one_if(a <= s)] == SESSION_LINE@,
    decreases n,
{
    if n > 0 {
        lemma_added(lines, a, s, n - 1);
    }
}

/// Where the line for `auth` stands among the written ones.
pub open spec fn auth_place(lines: Seq<Text>) -> int {
    let a = auth_hook(lines);
    let s = session_hook(lines);
    if a < lines.len() {
        a + one_if(s < a)
    } else {
        lines.len() + one_if(s < lines.len())
    }
}

/// Where the line for `session` stands among the written ones.
pub open spec fn session_place(lines: Seq<Text>) -> int {
    let a = auth_hook(lines);
    let s = session_hook(lines);
    if s < lines.len() {
        s + 1 + one_if(a <= s)
    } else {
        lines.len() as int + 1
    }
}

/// What was there of a written list: all but the two lines that were added.
pub open spec fn without_added(written: Seq<Text>, auth: int, session: int) -> Seq<Text> {
    if auth < session {
        written.remove(session).remove(auth)
    } else {
        written.remove(auth).remove(session)
    }
}

/// The written system-login, read line by line: each of the two lines stands in it once,
/// the one for `auth` directly before the line it is hooked to and the one for `session`
/// directly after its own, or at the end where there is none to hook to; without the two,
/// the lines are those that were there, in their order. A line that ends in a carriage
/// return cannot be read again as it was.
pub proof fn pam_is_written_line_by_line(content: Text)
    requires
        text::without_returns(text::lines_of(content)),
    ensures
        pam_for(content) matches Some(new) ==> ({
            let old = text::lines_of(content);
            let written = text::lines_of(new);
            let a = auth_place(old);
            let s = session_place(old);
            &&& written == pam_lines(old)
            &&& written.len() == old.len() + 2
            &&& 0 <= a < written.len() && 0 <= s < written.len() && a != s
            &&& forall|i: int|
                0 <= i < written.len() ==> (#[trigger] written[i] == AUTH_LINE@ <==> i == a)
            &&& forall|i: int|
                0 <= i < written.len() ==> (#[trigger] written[i] == SESSION_LINE@ <==> i == s)
            &&& auth_hook(old) < old.len() ==> written[a + 1] == old[auth_hook(old)]
            &&& session_hook(old) < old.len() ==> written[s - 1] == old[session_hook(old)]
            &&& without_added(written, a, s) == old
        }),
{
    if let Some(new) = pam_for(content) {
        let old = text::lines_of(content);
        let all = pam_lines(old);
        let a = auth_place(old);
        let s = session_place(old);
        pam_lines_stand_where_they_should(old);
        lemma_hook_bounds(old, AUTH_SHIPPED@, "auth"@);
        lemma_hook_bounds(old, SESSION_SHIPPED@, "session"@);
        lemma_hooked(old, auth_hook(old), session_hook(old), old.len() as int, 0);
        assert(all.len() == old.len() + 2);
        reveal_strlit("auth      optional  pam_mount.so");
        reveal_strlit("session   optional  pam_mount.so");
        reveal_strlit("pam_mount.so");
        assert(AUTH_LINE@[0] == 'a' && SESSION_LINE@[0] == 's');
        text::lemma_lines_unbroken(content);
        assert forall|i: int| 0 <= i < old.len() implies #[trigger] old[i] != AUTH_LINE@ && old[i]
            != SESSION_LINE@ by {
            text::lemma_line_holds(content, i);
            assert(AUTH_LINE@.subrange(20, 32) =~= "pam_mount.so"@);
            assert(text::at(AUTH_LINE@, 20, "pam_mount.so"@));
            assert(SESSION_LINE@.subrange(20, 32) =~= "pam_mount.so"@);
            assert(text::at(SESSION_LINE@, 20, "pam_mount.so"@));
            if text::holds(old[i], "pam_mount.so"@) {
                text::lemma_part_holds(content, old[i], "pam_mount.so"@);
            }
        }
        assert forall|i: int| 0 <= i < all.len() && i != a && i != s implies ({
            let k = i - one_if(a < i) - one_if(s < i);
            0 <= k < old.len() && #[trigger] all[i] == old[k]
        }) by {
            let k = i - one_if(a < i) - one_if(s < i);
            pam_keeps_every_line(old, k);
        }
        assert forall|i: int| 0 <= i < all.len() implies !(#[trigger] all[i]).contains('\n')
            && !(all[i].len() > 0 && all[i].last() == '\r') by {
            if i != a && i != s {
                let k = i - one_if(a < i) - one_if(s < i);
                assert(all[i] == old[k]);
            }
        }
        text::lemma_lines_of_joined(all);
        assert(text::lines_of(new) == all);
        if auth_hook(old) < old.len() {
            pam_keeps_every_line(old, auth_hook(old));
        }
        if session_hook(old) < old.len() {
            pam_keeps_every_line(old, session_hook(old));
        }
        let left = without_added(all, a, s);
        assert(left.len() == old.len());
        assert forall|k: int| 0 <= k < old.len() implies left[k] == old[k] by {
            pam_keeps_every_line(old, k);
        }
        assert(left =~= old);
    }
}

/// A line that hands a facility on to system-auth.
pub open spec fn hands_on(line: Text, shipped: Text, facility: Text) -> bool {
    exactly(shipped)(line) || roughly(facility)(line)
}

/// What pam_mount is hooked to hands the facility on to system-auth, and it goes to the
/// end only where no line does.
pub proof fn pam_is_hooked_to_system_auth(lines: Seq<Text>, shipped: Text, facility: Text)
    ensures
        ({
            let h = hook_line(lines, shipped, facility);
            &&& 0 <= h <= lines.len()
            &&& h < lines.len() ==> hands_on(lines[h], shipped, facility)
            &&& h == lines.len() ==> forall|i: int|
                0 <= i < lines.len() ==> !hands_on(#[trigger] lines[i], shipped, facility)
        }),
{
    let exact = |i: int| exactly(shipped)(lines[i]);
    let rough = |i: int| roughly(facility)(lines[i]);
    let n = lines.len() as int;
    index::lemma_first(n, exact);
    index::lemma_first(n, rough);
    if hook_line(lines, shipped, facility) == n {
        assert forall|i: int| 0 <= i < n implies !hands_on(
            #[trigger] lines[i],
            shipped,
            facility,
        ) by {
            assert(!exact(i));
            assert(!rough(i));
        }
    }
}

/// Once hooked in, pam_mount is not hooked in again.
pub proof fn pam_is_hooked_in_once(content: Text)
    ensures
        pam_for(content) matches Some(new) ==> pam_for(new) is None,
{
    if let Some(new) = pam_for(content) {
        let lines = text::lines_of(content);
        let all = pam_lines(lines);
        pam_lines_stand_where_they_should(lines);
        lemma_hook_bounds(lines, AUTH_SHIPPED@, "auth"@);
        lemma_hook_bounds(lines, SESSION_SHIPPED@, "session"@);
        lemma_hooked(lines, auth_hook(lines), session_hook(lines), lines.len() as int, 0);
        let k = if auth_hook(lines) < lines.len() {
            auth_hook(lines) + one_if(session_hook(lines) < auth_hook(lines))
        } else {
            lines.len() + one_if(session_hook(lines) < lines.len())
        };
        assert(all[k] == AUTH_LINE@);
        text::lemma_joined_holds(all, "\n"@, k);
        let j = text::joined(all, "\n"@);
        let p = choose|p: int| text::at(j, p, AUTH_LINE@);
        reveal_strlit("auth      optional  pam_mount.so");
        reveal_strlit("pam_mount.so");
        assert(AUTH_LINE@.subrange(20, 32) =~= "pam_mount.so"@);
        assert(new.subrange(p + 20, p + 32) =~= j.subrange(p, p + 32).subrange(20, 32));
        assert(text::at(new, p + 20, "pam_mount.so"@));
    }
}

// ------------------------------------------------------------------ the whole of it
/// Encrypting the user's home.
pub open spec fn setup_encrypted_home_steps(
    config: DeploymentConfig,
    fuse_conf: Text,
    mount_conf: Text,
    system_login: Text,
    install_root: Text,
    dry_run: bool,
) -> Seq<Act> {
    if config.user.encrypt_home {
        if dry_run {
            seq![
                Act::Say(
                    "  [dry-run] Would set up gocryptfs encrypted home for "@ + config.user.name@,
                ),
                Act::Say(
                    "  [dry-run] Would create /home/"@ + config.user.name@
                        + ".cipher and initialize gocryptfs"@,
                ),
                Act::Say("  [dry-run] Would configure pam_mount and PAM for auto-unlock"@),
            ]
        } else {
            fuse_steps(fuse_conf, install_root)
                + cipher_steps(config.user.name@, config.user.password@, install_root)
                + skel_steps(config.user.name@, config.user.password@, install_root)
                + mount_steps(mount_conf, config.user.name@, install_root)
                + pam_steps(system_login, install_root)
        }
    } else {
        seq![]
    }
}

/// Encrypts the user's home. `fuse_conf`, `mount_conf` and `system_login` are the
/// contents of the target's fuse.conf, pam_mount.conf.xml and system-login, empty
/// where a file is missing.
pub fn setup_encrypted_home(
    config: &DeploymentConfig,
    fuse_conf: &str,
    mount_conf: &str,
    system_login: &str,
    install_root: &str,
    dry_run: bool,
) -> (r: Vec<Step>)
    ensures
        plan::acts(r@) == setup_encrypted_home_steps(
            *config,
            fuse_conf@,
            mount_conf@,
            system_login@,
            install_root@,
            dry_run,
        ),
{
    let mut steps: Vec<Step> = Vec::new();
    if config.user.encrypt_home {
        if dry_run {
            say(
                &mut steps,
                concat(
                    "  [dry-run] Would set up gocryptfs encrypted home for ",
                    config.user.name.as_str(),
                ).as_str(),
            );
            say(
                &mut steps,
                concat3(
                    "  [dry-run] Would create /home/",
                    config.user.name.as_str(),
                    ".cipher and initialize gocryptfs",
                ).as_str(),
            );
            say(&mut steps, "  [dry-run] Would configure pam_mount and PAM for auto-unlock");
        } else {
            extend(&mut steps, configure_fuse(fuse_conf, install_root));
            extend(
                &mut steps,
                init_cipher_directory(
                    config.user.name.as_str(),
                    config.user.password.as_str(),
                    install_root,
                ),
            );
            extend(
                &mut steps,
                populate_skel(
                    config.user.name.as_str(),
                    config.user.password.as_str(),
                    install_root,
                ),
            );
            extend(
                &mut steps,
                configure_pam_mount(mount_conf, config.user.name.as_str(), install_root),
            );
            extend(&mut steps, configure_pam(system_login, install_root));
        }
    }
    assert(plan::acts(steps@) =~= setup_encrypted_home_steps(
        *config,
        fuse_conf@,
        mount_conf@,
        system_login@,
        install_root@,
        dry_run,
    ));
    steps
}

/// Users may share their mounts afterwards, and a second run finds it so.
pub proof fn mounts_are_shared_afterwards(conf: Text)
    ensures
        fuse_conf_for(conf) matches Some(t) ==> allows_other(t) && fuse_conf_for(t) is None,
{
    reveal_strlit("\nuser_allow_other\n");
    reveal_strlit("user_allow_other");
    let before = text::trimmed_end(conf);
    let line = "user_allow_other"@;
    let none = Seq::<char>::empty();
    let t = before + "\nuser_allow_other\n"@;
    assert(t =~= before + seq!['\n'] + line + seq!['\n'] + none);
    text::lemma_line_between(before, line, none);
    let all = text::lines_of(t);
    let i = choose|i: int| 0 <= i < all.len() && all[i] == line;
    assert(text::trimmed_start(line) == line);
    assert(text::trimmed_end(line) == line);
    assert(text::trimmed(all[i]) == line);
}

/// A user's home is entered for pam_mount once: the entry is there afterwards, and a
/// second run finds it.
pub proof fn home_is_entered_once(conf: Text, user: Text)
    ensures
        mount_conf_for(conf, user) matches Some(t) ==> {
            &&& text::holds(t, volume_entry_text(user))
            &&& mount_conf_for(t, user) is None
        },
        mount_conf_for(conf, user) is None ==> text::holds(conf, volume_entry_text(user)),
{
    let entry = volume_entry_text(user);
    let closed = entry + "\n</pam_mount>"@;
    text::lemma_whole_holds(entry);
    text::lemma_sum_holds(entry, "\n</pam_mount>"@, entry);
    if text::holds(conf, "</pam_mount>"@) {
        reveal_strlit("</pam_mount>");
        text::lemma_replaced_holds(conf, "</pam_mount>"@, closed);
        text::lemma_part_holds(
            text::replaced(conf, "</pam_mount>"@, closed),
            closed,
            entry,
        );
    } else {
        text::lemma_sum_holds(MINIMAL_CONF@, entry, entry);
        text::lemma_sum_holds(MINIMAL_CONF@ + entry, "\n</pam_mount>\n"@, entry);
    }
}

} // verus!
