//! Time zone, locale, keyboard layout and host name.
use vstd::prelude::*;

use crate::config::model::DeploymentConfig;
use crate::config::options::InitSystem;
use crate::effects;
use crate::plan;
use crate::plan::{chroot, extend, link, make_dir, make_parent, remove, say, write_file, Act, Step};
use crate::text;
use crate::text::{
    chars_of, concat, concat3, ends_with, join, lines, push_text, same, slice_text, split_words,
    strip_prefix, trim, Text,
};

verus! {

// ---------------------------------------------------------------------- locale.gen
/// What follows the last `c` of a text.
pub open spec fn after_last(s: Text, c: char) -> Option<Text>
    decreases s.len(),
{
    if s.len() == 0 {
        None
    } else if s.last() == c {
        Some(seq![])
    } else {
        match after_last(s.drop_last(), c) {
            Some(t) => Some(t.push(s.last())),
            None => None,
        }
    }
}

proof fn lemma_after_last(s: Text, c: char, k: int)
    requires
        0 <= k < s.len(),
        s[k] == c,
        forall|j: int| k < j < s.len() ==> s[j] != c,
    ensures
        after_last(s, c) == Some(s.skip(k + 1)),
    decreases s.len(),
{
    if k == s.len() - 1 {
        assert(s.skip(k + 1) =~= seq![]);
    } else {
        lemma_after_last(s.drop_last(), c, k);
        assert(s.drop_last().skip(k + 1).push(s.last()) =~= s.skip(k + 1));
    }
}

proof fn lemma_no_last(s: Text, c: char)
    requires
        !s.contains(c),
    ensures
        after_last(s, c) is None,
    decreases s.len(),
{
    if s.len() > 0 {
        assert(s.contains(s.last()));
        assert forall|x: char| s.drop_last().contains(x) implies s.contains(x) by {
            let k = choose|k: int| 0 <= k < s.drop_last().len() && s.drop_last()[k] == x;
            assert(s[k] == x);
        }
        lemma_no_last(s.drop_last(), c);
    }
}

/// The character set that a locale's name ends in; UTF-8 where it names none.
pub open spec fn charset_of(locale: Text) -> Text {
    match after_last(locale, '.') {
        Some(t) if t.len() > 0 => t,
        _ => "UTF-8"@,
    }
}

pub fn locale_charset(locale: &str) -> (r: String)
    ensures
        r@ == charset_of(locale@),
{
    let v = chars_of(locale);
    let mut i: usize = v.len();
    while i > 0
        invariant
            i <= v@.len(),
            v@ == locale@,
            forall|j: int| i <= j < v@.len() ==> v@[j] != '.',
        decreases i,
    {
        i -= 1;
        if v[i] == '.' {
            proof {
                lemma_after_last(v@, '.', i as int);
            }
            if i + 1 < v.len() {
                let t = slice_text(&v, i + 1, v.len());
                assert(t@ =~= v@.skip(i + 1));
                return t;
            }
            return "UTF-8".to_owned();
        }
    }
    proof {
        lemma_no_last(v@, '.');
    }
    "UTF-8".to_owned()
}

/// What a line of locale.gen says, whether it is commented out or not.
pub open spec fn line_body(line: Text) -> Text {
    let t = text::trimmed(line);
    match text::without_prefix(t, "#"@) {
        Some(rest) => text::trimmed(rest),
        None => t,
    }
}

/// The body of a line selects the locale.
pub open spec fn selects(body: Text, locale: Text) -> bool {
    text::words_of(body).len() > 0 && text::words_of(body)[0] == locale
}

pub fn locale_gen_line_matches(uncommented_body: &str, locale: &str) -> (r: bool)
    ensures
        r == selects(uncommented_body@, locale@),
{
    let words = split_words(uncommented_body);
    assert(words.deep_view().len() == words@.len());
    if words.len() == 0 {
        return false;
    }
    assert(words.deep_view()[0] == words@[0]@);
    same(words[0].as_str(), locale)
}

/// The line that enables a locale.
pub open spec fn locale_entry(locale: Text) -> Text {
    locale + " "@ + charset_of(locale)
}

pub open spec fn enabled_line(line: Text, locale: Text) -> Text {
    if selects(line_body(line), locale) {
        locale_entry(locale)
    } else {
        line
    }
}

/// Some line speaks of the locale.
pub open spec fn listed_in(lines: Seq<Text>, locale: Text) -> bool {
    exists|i: int| 0 <= i < lines.len() && selects(line_body(#[trigger] lines[i]), locale)
}

/// The lines with the locale enabled: wherever they speak of it, else at the end.
pub open spec fn enabled_lines(lines: Seq<Text>, locale: Text) -> Seq<Text> {
    lines.map_values(|l: Text| enabled_line(l, locale)) + (if listed_in(lines, locale) {
        seq![]
    } else {
        seq![locale_entry(locale)]
    })
}

/// A locale.gen with the locale enabled.
pub open spec fn locale_gen_with(content: Text, locale: Text) -> Text {
    let whole = text::joined(enabled_lines(text::lines_of(content), locale), "\n"@);
    if text::ends(whole, "\n"@) {
        whole
    } else {
        whole + "\n"@
    }
}

fn line_selects(line: &str, locale: &str) -> (r: bool)
    ensures
        r == selects(line_body(line@), locale@),
{
    let t = trim(line);
    match strip_prefix(t.as_str(), "#") {
        Some(rest) => locale_gen_line_matches(trim(rest.as_str()).as_str(), locale),
        None => locale_gen_line_matches(t.as_str(), locale),
    }
}

/// Enables a locale in the content of locale.gen.
pub fn enable_locale_in_gen(content: &str, locale: &str) -> (r: String)
    ensures
        r@ == locale_gen_with(content@, locale@),
{
    let entry = concat3(locale, " ", locale_charset(locale).as_str());
    let all = lines(content);
    let ghost d = all.deep_view();
    let ghost mapped = d.map_values(|l: Text| enabled_line(l, locale@));
    let mut out: Vec<String> = Vec::new();
    let mut found = false;
    let mut i: usize = 0;
    while i < all.len()
        invariant
            i <= all@.len(),
            d == all.deep_view(),
            d.len() == all@.len(),
            entry@ == locale_entry(locale@),
            mapped == d.map_values(|l: Text| enabled_line(l, locale@)),
            out.deep_view() == mapped.take(i as int),
            found ==> listed_in(d, locale@),
            !found ==> forall|j: int|
                0 <= j < i ==> !selects(line_body(#[trigger] d[j]), locale@),
        decreases all.len() - i,
    {
        let line = all[i].as_str();
        assert(d[i as int] == line@);
        if line_selects(line, locale) {
            found = true;
            push_text(&mut out, entry.as_str());
        } else {
            push_text(&mut out, line);
        }
        i += 1;
        assert(out.deep_view() =~= mapped.take(i as int));
    }
    if !found {
        push_text(&mut out, entry.as_str());
    }
    assert(out.deep_view() =~= enabled_lines(d, locale@));
    let mut whole = join(&out, "\n");
    if !ends_with(whole.as_str(), "\n") {
        whole.push_str("\n");
    }
    whole
}

// ---------------------------------------------------------------------------- laws
/// A name that can stand in locale.gen: one word, not a comment.
pub open spec fn plain_name(locale: Text) -> bool {
    &&& locale.len() > 0
    &&& locale[0] != '#'
    &&& forall|i: int| 0 <= i < locale.len() ==> !text::white(#[trigger] locale[i])
}

proof fn lemma_tail_plain(locale: Text)
    requires
        forall|i: int| 0 <= i < locale.len() ==> !text::white(#[trigger] locale[i]),
    ensures
        after_last(locale, '.') matches Some(t) ==> forall|i: int|
            0 <= i < t.len() ==> !text::white(#[trigger] t[i]),
    decreases locale.len(),
{
    if locale.len() > 0 && locale.last() != '.' {
        let front = locale.drop_last();
        assert forall|i: int| 0 <= i < front.len() implies !text::white(#[trigger] front[i]) by {
            assert(front[i] == locale[i]);
        }
        lemma_tail_plain(front);
    }
}

proof fn lemma_first_word(name: Text, rest: Text)
    requires
        name.len() > 0,
        forall|i: int| 0 <= i < name.len() ==> !text::white(#[trigger] name[i]),
        rest.len() > 0,
        text::white(rest[0]),
    ensures
        text::word_len(name + rest) == name.len(),
    decreases name.len(),
{
    let s = name + rest;
    text::lemma_word_len(s);
    let w = text::word_len(s);
    if w < name.len() {
        assert(s[w] == name[w]);
    }
    if w > name.len() {
        assert(s[name.len() as int] == rest[0]);
    }
}

/// The line that enables a locale selects it.
pub proof fn entry_selects_its_locale(locale: Text)
    requires
        plain_name(locale),
    ensures
        selects(line_body(locale_entry(locale)), locale),
{
    reveal_strlit(" ");
    reveal_strlit("#");
    reveal_strlit("UTF-8");
    let charset = charset_of(locale);
    lemma_tail_plain(locale);
    let e = locale_entry(locale);
    assert(charset.len() > 0);
    assert(!text::white(charset.last())) by {
        match after_last(locale, '.') {
            Some(t) if t.len() > 0 => {
                assert(!text::white(t[t.len() - 1]));
            },
            _ => {
                assert("UTF-8"@.last() == '8');
            },
        }
    }
    assert(e[0] == locale[0]);
    assert(e.last() == charset.last());
    assert(text::trimmed_start(e) == e);
    assert(text::trimmed_end(e) == e);
    assert(text::trimmed(e) == e);
    assert(!text::begins(e, "#"@)) by {
        if text::begins(e, "#"@) {
            assert(e.subrange(0, 1)[0] == "#"@[0]);
        }
    }
    assert(line_body(e) == e);
    let rest = " "@ + charset;
    assert(e =~= locale + rest);
    lemma_first_word(locale, rest);
    assert(e.take(locale.len() as int) =~= locale);
    assert(text::words_of(e)[0] == locale);
}

/// Once a locale is enabled, enabling it again changes nothing.
pub proof fn enabling_twice_changes_nothing(lines: Seq<Text>, locale: Text)
    requires
        plain_name(locale),
    ensures
        listed_in(enabled_lines(lines, locale), locale),
        enabled_lines(enabled_lines(lines, locale), locale) == enabled_lines(lines, locale),
{
    entry_selects_its_locale(locale);
    let once = enabled_lines(lines, locale);
    let mapped = lines.map_values(|l: Text| enabled_line(l, locale));
    if listed_in(lines, locale) {
        let k = choose|k: int|
            0 <= k < lines.len() && selects(line_body(#[trigger] lines[k]), locale);
        assert(once[k] == mapped[k]);
        assert(selects(line_body(once[k]), locale));
    } else {
        assert(once[lines.len() as int] == locale_entry(locale));
        assert(selects(line_body(once[lines.len() as int]), locale));
    }
    assert forall|i: int| 0 <= i < once.len() implies enabled_line(#[trigger] once[i], locale)
        == once[i] by {
        if i < lines.len() {
            assert(once[i] == mapped[i]);
        }
    }
    assert(once.map_values(|l: Text| enabled_line(l, locale)) =~= once);
    assert(enabled_lines(once, locale) =~= once);
}

/// The entry is one line.
proof fn lemma_entry_is_a_line(locale: Text)
    requires
        plain_name(locale),
    ensures
        locale_entry(locale).len() > 0,
        !locale_entry(locale).contains('\n'),
        locale_entry(locale).last() != '\r',
{
    reveal_strlit(" ");
    reveal_strlit("UTF-8");
    lemma_tail_plain(locale);
    let charset = charset_of(locale);
    let e = locale_entry(locale);
    assert(charset.len() > 0);
    assert forall|i: int| 0 <= i < charset.len() implies charset[i] != '\n' && charset[i]
        != '\r' by {
        match after_last(locale, '.') {
            Some(t) if t.len() > 0 => {
                assert(!text::white(t[i]));
            },
            _ => {},
        }
    }
    assert forall|i: int| 0 <= i < e.len() implies e[i] != '\n' by {
        if i < locale.len() {
            assert(e[i] == locale[i]);
            assert(!text::white(locale[i]));
        } else if i > locale.len() {
            assert(e[i] == charset[i - locale.len() - 1]);
        }
    }
    assert(e.last() == charset[charset.len() - 1]);
}

/// The lines that are written for a locale: none is broken, and there is one.
proof fn lemma_enabled_unbroken(content: Text, locale: Text)
    requires
        plain_name(locale),
    ensures
        enabled_lines(text::lines_of(content), locale).len() > 0,
        forall|i: int|
            0 <= i < enabled_lines(text::lines_of(content), locale).len() ==> !(
            #[trigger] enabled_lines(text::lines_of(content), locale)[i]).contains('\n'),
{
    let lines = text::lines_of(content);
    let all = enabled_lines(lines, locale);
    let mapped = lines.map_values(|l: Text| enabled_line(l, locale));
    lemma_entry_is_a_line(locale);
    text::lemma_lines_unbroken(content);
    assert forall|i: int| 0 <= i < all.len() implies !(#[trigger] all[i]).contains('\n') by {
        if i < lines.len() {
            assert(all[i] == mapped[i]);
            assert(!lines[i].contains('\n'));
        }
    }
    if lines.len() == 0 {
        assert(!listed_in(lines, locale));
    }
}

proof fn lemma_joined_end(lines: Seq<Text>)
    requires
        lines.len() > 0,
        !lines.last().contains('\n'),
    ensures
        text::ends(text::joined(lines, "\n"@), "\n"@) <==> lines.len() > 1 && lines.last().len()
            == 0,
        lines.len() > 1 && lines.last().len() == 0 ==> text::joined(lines, "\n"@) == text::joined(
            lines.drop_last(),
            "\n"@,
        ) + "\n"@,
{
    reveal_strlit("\n");
    let whole = text::joined(lines, "\n"@);
    let last = lines.last();
    let n = whole.len() as int;
    if last.len() > 0 {
        assert(whole.last() == last.last());
        assert(last.contains(last[last.len() - 1]));
        if text::ends(whole, "\n"@) {
            assert(whole.subrange(n - 1, n)[0] == '\n');
        }
    } else if lines.len() > 1 {
        assert(whole =~= text::joined(lines.drop_last(), "\n"@) + "\n"@);
        assert(whole.subrange(n - 1, n) =~= "\n"@);
    } else {
        assert(whole.len() == 0);
    }
}

/// The written locale.gen, read line by line, is the list with the locale enabled, and
/// ends its last line: the entry is in it, whatever else speaks of the locale is gone,
/// every other line stays as it was and where it was, and the entry is added at the end
/// if and only if no line spoke of the locale. Left out are a line that is kept and ends
/// in a carriage return, and a blank line at the end: they cannot be read again.
pub proof fn locale_gen_is_written_line_by_line(content: Text, locale: Text)
    requires
        plain_name(locale),
        text::without_returns(enabled_lines(text::lines_of(content), locale)),
        enabled_lines(text::lines_of(content), locale).last().len() > 0,
    ensures
        ({
            let old = text::lines_of(content);
            let r = locale_gen_with(content, locale);
            let written = text::lines_of(r);
            &&& written == enabled_lines(old, locale)
            &&& text::ends(r, "\n"@)
            &&& written.contains(locale_entry(locale))
            &&& forall|i: int|
                0 <= i < written.len() && selects(line_body(#[trigger] written[i]), locale)
                    ==> written[i] == locale_entry(locale)
            &&& forall|i: int|
                0 <= i < old.len() && !selects(line_body(#[trigger] old[i]), locale) ==> written[i]
                    == old[i]
            &&& written.len() == old.len() + if listed_in(old, locale) {
                0int
            } else {
                1int
            }
            &&& !listed_in(old, locale) ==> written.last() == locale_entry(locale)
            &&& locale_gen_with(r, locale) == r
        }),
{
    let old = text::lines_of(content);
    let all = enabled_lines(old, locale);
    let mapped = old.map_values(|l: Text| enabled_line(l, locale));
    let whole = text::joined(all, "\n"@);
    let r = locale_gen_with(content, locale);
    lemma_enabled_unbroken(content, locale);
    assert(all.last() == all[all.len() - 1]);
    lemma_joined_end(all);
    assert(r == whole + "\n"@);
    text::lemma_lines_of_joined(all);
    reveal_strlit("\n");
    assert(r.subrange(r.len() - 1, r.len() as int) =~= "\n"@);
    enabling_twice_changes_nothing(old, locale);
    entry_selects_its_locale(locale);
    assert forall|i: int|
        0 <= i < all.len() && selects(line_body(#[trigger] all[i]), locale) implies all[i]
        == locale_entry(locale) by {
        if i < old.len() {
            assert(all[i] == mapped[i]);
        }
    }
    let k = choose|k: int| 0 <= k < all.len() && selects(line_body(#[trigger] all[k]), locale);
    assert(all[k] == locale_entry(locale));
    assert forall|i: int|
        0 <= i < old.len() && !selects(line_body(#[trigger] old[i]), locale) implies all[i]
        == old[i] by {
        assert(all[i] == mapped[i]);
    }
}

/// A second pass over the written locale.gen changes nothing. Left out are a line that is
/// kept and ends in a carriage return, and two blank lines at the end, of which the second
/// pass drops one.
pub proof fn second_pass_changes_nothing(content: Text, locale: Text)
    requires
        plain_name(locale),
        ({
            let all = enabled_lines(text::lines_of(content), locale);
            &&& text::without_returns(all)
            &&& !(all.len() > 1 && all.last().len() == 0 && all[all.len() - 2].len() == 0)
        }),
    ensures
        locale_gen_with(locale_gen_with(content, locale), locale) == locale_gen_with(
            content,
            locale,
        ),
{
    let old = text::lines_of(content);
    let all = enabled_lines(old, locale);
    lemma_enabled_unbroken(content, locale);
    assert(all.last() == all[all.len() - 1]);
    if all.last().len() > 0 {
        locale_gen_is_written_line_by_line(content, locale);
    } else {
        enabling_twice_changes_nothing(old, locale);
        entry_selects_its_locale(locale);
        lemma_entry_is_a_line(locale);
        let init = all.drop_last();
        let k = choose|k: int| 0 <= k < all.len() && selects(line_body(#[trigger] all[k]), locale);
        let twice = all.map_values(|l: Text| enabled_line(l, locale));
        assert(enabled_lines(all, locale)[k] == all[k]);
        assert(twice[k] == locale_entry(locale));
        assert(k != all.len() - 1);
        assert(init.len() > 0);
        assert(init.last() == all[all.len() - 2]);
        assert forall|i: int| 0 <= i < init.len() implies !(#[trigger] init[i]).contains('\n')
            && !(init[i].len() > 0 && init[i].last() == '\r') by {
            assert(init[i] == all[i]);
        }
        lemma_joined_end(all);
        lemma_joined_end(init);
        text::lemma_lines_of_joined(init);
        let r = locale_gen_with(content, locale);
        assert(r == text::joined(init, "\n"@) + "\n"@);
        assert(init[k] == all[k]);
        assert(listed_in(init, locale));
        assert forall|i: int| 0 <= i < init.len() implies enabled_line(#[trigger] init[i], locale)
            == init[i] by {
            assert(enabled_lines(all, locale)[i] == all[i]);
            assert(enabled_lines(all, locale)[i] == twice[i]);
        }
        assert(init.map_values(|l: Text| enabled_line(l, locale)) =~= init);
        assert(enabled_lines(init, locale) =~= init);
    }
}

// --------------------------------------------------------------------------- plans
/// Setting the time zone and the hardware clock.
pub open spec fn timezone_steps(timezone: Text, install_root: Text, dry_run: bool) -> Seq<Act> {
    if dry_run {
        seq![
            Act::Say(
                "  [dry-run] ln -sf /usr/share/zoneinfo/"@ + timezone + " "@ + install_root
                    + "/etc/localtime"@,
            ),
        ]
    } else {
        seq![
            Act::Remove(install_root + "/etc/localtime"@),
            Act::Link {
                target: "/usr/share/zoneinfo/"@ + timezone,
                path: install_root + "/etc/localtime"@,
            },
            Act::Chroot { root: install_root, command: "hwclock --systohc"@ },
        ]
    }
}

fn set_timezone(timezone: &str, install_root: &str, dry_run: bool) -> (r: Vec<Step>)
    ensures
        plan::acts(r@) == timezone_steps(timezone@, install_root@, dry_run),
{
    let mut steps: Vec<Step> = Vec::new();
    if dry_run {
        say(
            &mut steps,
            concat3(
                concat3("  [dry-run] ln -sf /usr/share/zoneinfo/", timezone, " ").as_str(),
                install_root,
                "/etc/localtime",
            ).as_str(),
        );
    } else {
        remove(&mut steps, concat(install_root, "/etc/localtime").as_str());
        link(
            &mut steps,
            concat("/usr/share/zoneinfo/", timezone).as_str(),
            concat(install_root, "/etc/localtime").as_str(),
        );
        chroot(&mut steps, install_root, "hwclock --systohc");
    }
    assert(plan::acts(steps@) =~= timezone_steps(timezone@, install_root@, dry_run));
    steps
}

/// Generating the locale while the target can still be written.
pub open spec fn locale_steps(
    locale: Text,
    locale_gen: Text,
    install_root: Text,
    dry_run: bool,
) -> Seq<Act> {
    if dry_run {
        seq![
            Act::Say(
                "  [dry-run] Would uncomment "@ + locale
                    + " in locale.gen, write locale.conf, run locale-gen"@,
            ),
        ]
    } else {
        seq![
            Act::MakeParent(install_root + "/etc/locale.gen"@),
            Act::Write {
                path: install_root + "/etc/locale.gen"@,
                content: locale_gen_with(locale_gen, locale),
                mode: None,
            },
            Act::Write {
                path: install_root + "/etc/locale.conf"@,
                content: "LANG="@ + locale + "\n"@,
                mode: None,
            },
            Act::Chroot { root: install_root, command: "/bin/locale-gen"@ },
        ]
    }
}

fn set_locale(locale: &str, locale_gen: &str, install_root: &str, dry_run: bool) -> (r: Vec<Step>)
    ensures
        plan::acts(r@) == locale_steps(locale@, locale_gen@, install_root@, dry_run),
{
    let mut steps: Vec<Step> = Vec::new();
    if dry_run {
        say(
            &mut steps,
            concat3(
                "  [dry-run] Would uncomment ",
                locale,
                " in locale.gen, write locale.conf, run locale-gen",
            ).as_str(),
        );
    } else {
        make_parent(&mut steps, concat(install_root, "/etc/locale.gen").as_str());
        write_file(
            &mut steps,
            concat(install_root, "/etc/locale.gen").as_str(),
            enable_locale_in_gen(locale_gen, locale).as_str(),
            None,
        );
        write_file(
            &mut steps,
            concat(install_root, "/etc/locale.conf").as_str(),
            concat3("LANG=", locale, "\n").as_str(),
            None,
        );
        chroot(&mut steps, install_root, "/bin/locale-gen");
    }
    assert(plan::acts(steps@) =~= locale_steps(locale@, locale_gen@, install_root@, dry_run));
    steps
}

/// Setting the keyboard layout.
pub open spec fn keymap_steps(keymap: Text, install_root: Text, dry_run: bool) -> Seq<Act> {
    if dry_run {
        seq![
            Act::Say(
                "  [dry-run] Would set keymap "@ + keymap + " in "@ + install_root
                    + "/etc/vconsole.conf"@,
            ),
        ]
    } else {
        seq![
            Act::Write {
                path: install_root + "/etc/vconsole.conf"@,
                content: "KEYMAP="@ + keymap + "\n"@,
                mode: None,
            },
        ]
    }
}

fn set_keymap(keymap: &str, install_root: &str, dry_run: bool) -> (r: Vec<Step>)
    ensures
        plan::acts(r@) == keymap_steps(keymap@, install_root@, dry_run),
{
    let mut steps: Vec<Step> = Vec::new();
    if dry_run {
        say(
            &mut steps,
            concat3(
                concat3("  [dry-run] Would set keymap ", keymap, " in ").as_str(),
                install_root,
                "/etc/vconsole.conf",
            ).as_str(),
        );
    } else {
        write_file(
            &mut steps,
            concat(install_root, "/etc/vconsole.conf").as_str(),
            concat3("KEYMAP=", keymap, "\n").as_str(),
            None,
        );
    }
    assert(plan::acts(steps@) =~= keymap_steps(keymap@, install_root@, dry_run));
    steps
}

/// Naming the host.
pub open spec fn hostname_steps(hostname: Text, install_root: Text, dry_run: bool) -> Seq<Act> {
    if dry_run {
        seq![Act::Say("  [dry-run] Would set hostname to "@ + hostname)]
    } else {
        seq![
            Act::Write {
                path: install_root + "/etc/hostname"@,
                content: hostname + "\n"@,
                mode: None,
            },
            Act::Write {
                path: install_root + "/etc/hosts"@,
                content: "127.0.0.1\tlocalhost\n::1\t\tlocalhost\n127.0.1.1\t"@ + hostname
                    + ".localdomain\t"@ + hostname + "\n"@,
                mode: None,
            },
        ]
    }
}

fn set_hostname(hostname: &str, install_root: &str, dry_run: bool) -> (r: Vec<Step>)
    ensures
        plan::acts(r@) == hostname_steps(hostname@, install_root@, dry_run),
{
    let mut steps: Vec<Step> = Vec::new();
    if dry_run {
        say(&mut steps, concat("  [dry-run] Would set hostname to ", hostname).as_str());
    } else {
        write_file(
            &mut steps,
            concat(install_root, "/etc/hostname").as_str(),
            concat(hostname, "\n").as_str(),
            None,
        );
        write_file(
            &mut steps,
            concat(install_root, "/etc/hosts").as_str(),
            concat3(
                concat3(
                    "127.0.0.1\tlocalhost\n::1\t\tlocalhost\n127.0.1.1\t",
                    hostname,
                    ".localdomain\t",
                ).as_str(),
                hostname,
                "\n",
            ).as_str(),
            None,
        );
    }
    assert(plan::acts(steps@) =~= hostname_steps(hostname@, install_root@, dry_run));
    steps
}

/// Time zone, locale, keyboard and name of the target.
pub open spec fn configure_steps(
    config: DeploymentConfig,
    locale_gen: Text,
    install_root: Text,
    dry_run: bool,
) -> Seq<Act> {
    timezone_steps(config.system.timezone@, install_root, dry_run)
        + locale_steps(config.system.locale@, locale_gen, install_root, dry_run)
        + keymap_steps(config.system.keymap@, install_root, dry_run)
        + hostname_steps(config.system.hostname@, install_root, dry_run)
}

/// Sets them all. `locale_gen` is the content of the target's locale.gen, empty
/// where it is missing.
pub fn configure_locale(
    config: &DeploymentConfig,
    locale_gen: &str,
    install_root: &str,
    dry_run: bool,
) -> (r: Vec<Step>)
    ensures
        plan::acts(r@) == configure_steps(*config, locale_gen@, install_root@, dry_run),
{
    let mut steps: Vec<Step> = Vec::new();
    extend(&mut steps, set_timezone(config.system.timezone.as_str(), install_root, dry_run));
    extend(&mut steps, set_locale(config.system.locale.as_str(), locale_gen, install_root, dry_run));
    extend(&mut steps, set_keymap(config.system.keymap.as_str(), install_root, dry_run));
    extend(&mut steps, set_hostname(config.system.hostname.as_str(), install_root, dry_run));
    assert(plan::acts(steps@) =~= configure_steps(*config, locale_gen@, install_root@, dry_run));
    steps
}

/// Loading the keyboard layout under dinit, which has no service for it.
pub open spec fn dinit_keymap_steps(install_root: Text, keymap: Text) -> Seq<Act> {
    seq![
        Act::MakeDir(install_root + "/usr/local/bin"@),
        Act::Write {
            path: install_root + "/usr/local/bin/loadkeys-boot"@,
            content: "#!/bin/sh\nloadkeys "@ + keymap + "\n"@,
            mode: Some(0o755),
        },
        Act::MakeDir(install_root + "/etc/dinit.d"@),
        Act::Write {
            path: install_root + "/etc/dinit.d/loadkeys"@,
            content: "type = scripted\ncommand = /usr/local/bin/loadkeys-boot\n"@,
            mode: None,
        },
        Act::MakeDir(install_root + "/etc/dinit.d/boot.d"@),
        Act::Link {
            target: "/etc/dinit.d/loadkeys"@,
            path: install_root + "/etc/dinit.d/boot.d/loadkeys"@,
        },
    ]
}

pub fn create_dinit_keymap_service(install_root: &str, keymap: &str) -> (r: Vec<Step>)
    ensures
        plan::acts(r@) == dinit_keymap_steps(install_root@, keymap@),
{
    let mut steps: Vec<Step> = Vec::new();
    make_dir(&mut steps, concat(install_root, "/usr/local/bin").as_str());
    write_file(
        &mut steps,
        concat(install_root, "/usr/local/bin/loadkeys-boot").as_str(),
        concat3("#!/bin/sh\nloadkeys ", keymap, "\n").as_str(),
        Some(0o755),
    );
    make_dir(&mut steps, concat(install_root, "/etc/dinit.d").as_str());
    write_file(
        &mut steps,
        concat(install_root, "/etc/dinit.d/loadkeys").as_str(),
        "type = scripted\ncommand = /usr/local/bin/loadkeys-boot\n",
        None,
    );
    make_dir(&mut steps, concat(install_root, "/etc/dinit.d/boot.d").as_str());
    link(
        &mut steps,
        "/etc/dinit.d/loadkeys",
        concat(install_root, "/etc/dinit.d/boot.d/loadkeys").as_str(),
    );
    assert(plan::acts(steps@) =~= dinit_keymap_steps(install_root@, keymap@));
    steps
}

// -------------------------------------------------------------------------- laws
proof fn lemma_paths(root: Text)
    ensures
        ({
            let a = root + "/etc/localtime"@;
            let b = root + "/etc/locale.gen"@;
            let c = root + "/etc/locale.conf"@;
            let d = root + "/etc/vconsole.conf"@;
            let e = root + "/etc/hostname"@;
            let f = root + "/etc/hosts"@;
            &&& a != b && a != c && a != d && a != e && a != f
            &&& b != c && b != d && b != e && b != f
            &&& c != d && c != e && c != f
            &&& d != e && d != f
            &&& e != f
        }),
{
    reveal_strlit("/etc/localtime");
    reveal_strlit("/etc/locale.gen");
    reveal_strlit("/etc/locale.conf");
    reveal_strlit("/etc/vconsole.conf");
    reveal_strlit("/etc/hostname");
    reveal_strlit("/etc/hosts");
    let n = root.len() as int;
    let a = root + "/etc/localtime"@;
    let b = root + "/etc/locale.gen"@;
    let c = root + "/etc/locale.conf"@;
    let d = root + "/etc/vconsole.conf"@;
    let e = root + "/etc/hostname"@;
    let f = root + "/etc/hosts"@;
    assert(a[n + 5] == 'l' && b[n + 5] == 'l' && c[n + 5] == 'l' && d[n + 5] == 'v' && e[n + 5]
        == 'h' && f[n + 5] == 'h');
    assert(a[n + 10] == 't' && b[n + 10] == 'e' && c[n + 10] == 'e');
    assert(b.len() == n + 15 && c.len() == n + 16 && e.len() == n + 13 && f.len() == n + 10);
}

/// The choices reach the files that the system reads them from: the language, the keyboard
/// and the name of the machine, by which it knows itself; its clock follows the time zone.
/// The languages are generated in the target once they are listed.
pub proof fn choices_reach_their_files(
    config: DeploymentConfig,
    locale_gen: Text,
    install_root: Text,
)
    ensures
        ({
            let steps = configure_steps(config, locale_gen, install_root, false);
            let s = config.system;
            &&& effects::leaves(
                steps,
                install_root + "/etc/locale.conf"@,
                "LANG="@ + s.locale@ + "\n"@,
            )
            &&& effects::leaves(
                steps,
                install_root + "/etc/locale.gen"@,
                locale_gen_with(locale_gen, s.locale@),
            )
            &&& effects::leaves(
                steps,
                install_root + "/etc/vconsole.conf"@,
                "KEYMAP="@ + s.keymap@ + "\n"@,
            )
            &&& effects::leaves(steps, install_root + "/etc/hostname"@, s.hostname@ + "\n"@)
            &&& exists|hosts: Text|
                {
                    &&& #[trigger] effects::leaves(steps, install_root + "/etc/hosts"@, hosts)
                    &&& text::begins(hosts, "127.0.0.1\tlocalhost\n::1\t\tlocalhost\n"@)
                    &&& text::ends(hosts, "\t"@ + s.hostname@ + "\n"@)
                }
            &&& exists|i: int|
                {
                    &&& 0 <= i < steps.len()
                    &&& #[trigger] steps[i] == (Act::Link {
                        target: "/usr/share/zoneinfo/"@ + s.timezone@,
                        path: install_root + "/etc/localtime"@,
                    })
                    &&& forall|j: int|
                        i < j < steps.len() ==> !effects::touches(
                            #[trigger] steps[j],
                            install_root + "/etc/localtime"@,
                        )
                }
            &&& exists|i: int, j: int|
                {
                    &&& 0 <= i < j < steps.len()
                    &&& effects::touches(
                        #[trigger] steps[i],
                        install_root + "/etc/locale.gen"@,
                    )
                    &&& #[trigger] steps[j] == (Act::Chroot {
                        root: install_root,
                        command: "/bin/locale-gen"@,
                    })
                }
        }),
{
    let s = config.system;
    let steps = configure_steps(config, locale_gen, install_root, false);
    lemma_paths(install_root);
    let host = "127.0.0.1\tlocalhost\n::1\t\tlocalhost\n127.0.1.1\t"@ + s.hostname@
        + ".localdomain\t"@ + s.hostname@ + "\n"@;
    let all = seq![
        Act::Remove(install_root + "/etc/localtime"@),
        Act::Link {
            target: "/usr/share/zoneinfo/"@ + s.timezone@,
            path: install_root + "/etc/localtime"@,
        },
        Act::Chroot { root: install_root, command: "hwclock --systohc"@ },
        Act::MakeParent(install_root + "/etc/locale.gen"@),
        Act::Write {
            path: install_root + "/etc/locale.gen"@,
            content: locale_gen_with(locale_gen, s.locale@),
            mode: None,
        },
        Act::Write {
            path: install_root + "/etc/locale.conf"@,
            content: "LANG="@ + s.locale@ + "\n"@,
            mode: None,
        },
        Act::Chroot { root: install_root, command: "/bin/locale-gen"@ },
        Act::Write {
            path: install_root + "/etc/vconsole.conf"@,
            content: "KEYMAP="@ + s.keymap@ + "\n"@,
            mode: None,
        },
        Act::Write {
            path: install_root + "/etc/hostname"@,
            content: s.hostname@ + "\n"@,
            mode: None,
        },
        Act::Write { path: install_root + "/etc/hosts"@, content: host, mode: None },
    ];
    assert(steps =~= all);
    lemma_hosts(s.hostname@);
    assert(effects::touches(steps[4], install_root + "/etc/locale.gen"@));
    assert(effects::touches(steps[5], install_root + "/etc/locale.conf"@));
    assert(effects::touches(steps[7], install_root + "/etc/vconsole.conf"@));
    assert(effects::touches(steps[8], install_root + "/etc/hostname"@));
    assert(effects::touches(steps[9], install_root + "/etc/hosts"@));
    assert(effects::leaves(steps, install_root + "/etc/hosts"@, host));
    assert(steps[6] == (Act::Chroot { root: install_root, command: "/bin/locale-gen"@ }));
    assert(steps[1] == (Act::Link {
        target: "/usr/share/zoneinfo/"@ + s.timezone@,
        path: install_root + "/etc/localtime"@,
    }));
}

proof fn lemma_hosts(name: Text)
    ensures
        ({
            let host = "127.0.0.1\tlocalhost\n::1\t\tlocalhost\n127.0.1.1\t"@ + name
                + ".localdomain\t"@ + name + "\n"@;
            &&& text::begins(host, "127.0.0.1\tlocalhost\n::1\t\tlocalhost\n"@)
            &&& text::ends(host, "\t"@ + name + "\n"@)
        }),
{
    reveal_strlit("127.0.0.1\tlocalhost\n::1\t\tlocalhost\n127.0.1.1\t");
    reveal_strlit("127.0.0.1\tlocalhost\n::1\t\tlocalhost\n");
    reveal_strlit(".localdomain\t");
    reveal_strlit("\t");
    reveal_strlit("\n");
    let host = "127.0.0.1\tlocalhost\n::1\t\tlocalhost\n127.0.1.1\t"@ + name + ".localdomain\t"@
        + name + "\n"@;
    let a = "127.0.0.1\tlocalhost\n::1\t\tlocalhost\n"@;
    let b = "\t"@ + name + "\n"@;
    assert(host.subrange(0, a.len() as int) =~= a);
    assert(host.subrange(host.len() - b.len(), host.len() as int) =~= b);
}

/// Under dinit the keyboard is set up by a service that starts with the target and runs a
/// script that can be executed and loads the chosen layout.
pub proof fn dinit_loads_the_keyboard(install_root: Text, keymap: Text, before: Set<Text>)
    ensures
        ({
            let steps = dinit_keymap_steps(install_root, keymap);
            &&& effects::starting(InitSystem::Dinit, install_root, steps, before)
                == before.insert("loadkeys"@)
            &&& effects::leaves_with(
                steps,
                install_root + "/usr/local/bin/loadkeys-boot"@,
                "#!/bin/sh\nloadkeys "@ + keymap + "\n"@,
                0o755,
            )
            &&& exists|content: Text|
                #[trigger] effects::leaves(
                    steps,
                    install_root + "/etc/dinit.d/loadkeys"@,
                    content,
                ) && text::ends(content, "\ncommand = /usr/local/bin/loadkeys-boot\n"@)
        }),
{
    let steps = dinit_keymap_steps(install_root, keymap);
    let init = InitSystem::Dinit;
    reveal_strlit("/usr/local/bin/loadkeys-boot");
    reveal_strlit("/etc/dinit.d/loadkeys");
    reveal_strlit("/etc/dinit.d/boot.d/loadkeys");
    reveal_strlit("/etc/dinit.d/boot.d/");
    reveal_strlit("/etc/dinit.d/");
    reveal_strlit("loadkeys");
    reveal_strlit("\ncommand = /usr/local/bin/loadkeys-boot\n");
    reveal_strlit("type = scripted\ncommand = /usr/local/bin/loadkeys-boot\n");
    let a = install_root + "/usr/local/bin/loadkeys-boot"@;
    let b = install_root + "/etc/dinit.d/loadkeys"@;
    let c = install_root + "/etc/dinit.d/boot.d/loadkeys"@;
    assert(a.len() == install_root.len() + 28 && b.len() == install_root.len() + 21 && c.len()
        == install_root.len() + 28);
    assert(a[install_root.len() as int + 1] == 'u' && c[install_root.len() as int + 1] == 'e');
    assert(effects::touches(steps[1], a));
    assert(effects::touches(steps[3], b));
    let content = "type = scripted\ncommand = /usr/local/bin/loadkeys-boot\n"@;
    let e = "\ncommand = /usr/local/bin/loadkeys-boot\n"@;
    assert(content.subrange(content.len() - e.len(), content.len() as int) =~= e);
    assert(effects::leaves(steps, b, content));
    assert(effects::leaves_with(steps, a, "#!/bin/sh\nloadkeys "@ + keymap + "\n"@, 0o755));
    let dir = install_root + "/etc/dinit.d/boot.d/"@;
    assert(c.subrange(0, dir.len() as int) =~= dir);
    assert(c.skip(dir.len() as int) =~= "loadkeys"@);
    assert("/etc/dinit.d/"@ + "loadkeys"@ =~= "/etc/dinit.d/loadkeys"@);
    let s5 = steps.drop_last();
    assert(effects::starting(init, install_root, s5, before) == before) by {
        reveal_with_fuel(effects::starting, 7);
        assert(s5.drop_last().drop_last().drop_last().drop_last().drop_last() =~= seq![]);
    }
}

} // verus!
