//! LUKS containers: making, opening and closing them, and adopting one that is
//! there already.
use vstd::prelude::*;

use crate::config::model::DeploymentConfig;
use crate::disk;
use crate::disk::partition_path;
use crate::effects;
use crate::error::{DeploytixError, Result};
use crate::plan;
use crate::plan::{cryptsetup, extend, run, say, Act, Cryptsetup, CryptsetupCall, Quote, Step};
use crate::text;
use crate::text::{
    chars_of, concat, concat3, lower, number, push_text, same, same_ignoring_case, slice_text,
    starts_with, trim, upper, Text,
};

verus! {

// ------------------------------------------------------------------------- names
/// The text in lower case, but for its first character.
pub open spec fn title_case(s: Text) -> Text {
    let low = text::lowered(s);
    if low.len() == 0 {
        seq![]
    } else {
        text::raised(seq![low[0]]) + low.drop_first()
    }
}

pub fn to_title_case(s: &str) -> (r: String)
    ensures
        r@ == title_case(s@),
{
    let low = chars_of(lower(s).as_str());
    if low.len() == 0 {
        let empty = String::new();
        assert(empty@ =~= title_case(s@));
        return empty;
    }
    let head = slice_text(&low, 0, 1);
    let tail = slice_text(&low, 1, low.len());
    proof {
        assert(head@ =~= seq![low@[0]]);
        assert(tail@ =~= low@.drop_first());
    }
    concat(upper(head.as_str()).as_str(), tail.as_str())
}

/// On ASCII text the two ways to capitalise agree: the container that is made for
/// a partition is the one that the boot hooks look for.
pub proof fn capitalised_alike(s: Text)
    requires
        text::ascii_text(s),
    ensures
        title_case(s) == text::titled(s),
{
    let low = text::lowered(s);
    assert(low == text::ascii_lowered(s));
    if s.len() > 0 {
        let head = seq![s[0]];
        assert(text::ascii_text(head)) by {
            assert(head[0] == s[0]);
        }
        let low_head = seq![low[0]];
        assert(low[0] == text::lower_char(s[0]));
        assert((s[0] as u32) < 128);
        assert(text::ascii_text(low_head)) by {
            assert(low_head[0] == low[0]);
        }
        assert(text::ascii_text(s.drop_first())) by {
            assert forall|i: int| 0 <= i < s.drop_first().len() implies (#[trigger] s.drop_first()[i]
                as u32) < 128 by {
                assert(s.drop_first()[i] == s[i + 1]);
            }
        }
        assert(text::ascii_raised(low_head)[0] == text::upper_char(text::lower_char(s[0])));
        assert(text::upper_char(text::lower_char(s[0])) == text::upper_char(s[0]));
        assert(text::raised(low_head) =~= text::raised(head));
        assert(low.drop_first() =~= text::lowered(s.drop_first()));
    }
    assert(title_case(s) =~= text::titled(s));
}

/// The text without `p` at its beginning, however often it stands there.
pub open spec fn without_prefixes(s: Text, p: Text) -> Text
    decreases s.len(),
{
    if p.len() > 0 && text::begins(s, p) {
        without_prefixes(s.skip(p.len() as int), p)
    } else {
        s
    }
}

/// The name of the volume in a mapper name.
pub open spec fn volume_of(mapper: Text) -> Text {
    without_prefixes(mapper, "Crypt-"@)
}

fn volume_name_of(mapper: &str) -> (r: String)
    ensures
        r@ == volume_of(mapper@),
{
    let mut s = mapper.to_owned();
    proof {
        reveal_strlit("Crypt-");
    }
    while starts_with(s.as_str(), "Crypt-")
        invariant
            "Crypt-"@.len() == 6,
            without_prefixes(s@, "Crypt-"@) == volume_of(mapper@),
        decreases s@.len(),
    {
        let v = chars_of(s.as_str());
        let t = slice_text(&v, 6, v.len());
        assert(t@ =~= s@.skip(6));
        s = t;
    }
    s
}

/// `desired-i`.
pub open spec fn variant(desired: Text, i: int) -> Text {
    desired + "-"@ + text::decimal(i as nat)
}

/// The first of `desired-i`, `desired-(i + 1)`, ... `desired-99` that is not active.
pub open spec fn free_variant(desired: Text, active: Seq<Text>, i: int) -> Option<Text>
    decreases 100 - i,
{
    if i > 99 {
        None
    } else if !active.contains(variant(desired, i)) {
        Some(variant(desired, i))
    } else {
        free_variant(desired, active, i + 1)
    }
}

/// The mapper name that is used for a desired one: itself where it is free, else
/// its first free variant; itself again where all are taken, so that the failure
/// is reported by cryptsetup.
pub open spec fn mapper_for(desired: Text, active: Seq<Text>) -> Text {
    if !active.contains(desired) {
        desired
    } else {
        match free_variant(desired, active, 1) {
            Some(v) => v,
            None => desired,
        }
    }
}

/// Whether the name is among the active mapper names.
pub fn is_mapper_active(name: &str, active: &Vec<String>) -> (r: bool)
    ensures
        r == active.deep_view().contains(name@),
{
    let mut i: usize = 0;
    while i < active.len()
        invariant
            i <= active@.len(),
            forall|j: int| 0 <= j < i ==> #[trigger] active.deep_view()[j] != name@,
        decreases active.len() - i,
    {
        assert(active.deep_view()[i as int] == active@[i as int]@);
        if same(active[i].as_str(), name) {
            assert(active.deep_view()[i as int] == name@);
            return true;
        }
        i += 1;
    }
    assert(active.deep_view().len() == active@.len());
    false
}

/// The mapper name to use, given those that are active.
pub fn resolve_mapper_name(desired: &str, active: &Vec<String>) -> (r: String)
    ensures
        r@ == mapper_for(desired@, active.deep_view()),
{
    if !is_mapper_active(desired, active) {
        return desired.to_owned();
    }
    let mut i: u64 = 1;
    while i <= 99
        invariant
            1 <= i <= 100,
            free_variant(desired@, active.deep_view(), 1) == free_variant(
                desired@,
                active.deep_view(),
                i as int,
            ),
            active.deep_view().contains(desired@),
        decreases 100 - i,
    {
        let candidate = concat3(desired, "-", number(i).as_str());
        if !is_mapper_active(candidate.as_str(), active) {
            return candidate;
        }
        i += 1;
    }
    desired.to_owned()
}

/// The name that is used is free, unless the desired one and its ninety-nine
/// variants are all taken.
pub proof fn used_name_is_free(desired: Text, active: Seq<Text>)
    requires
        !active.contains(desired) || exists|i: int|
            1 <= i <= 99 && !active.contains(#[trigger] variant(desired, i)),
    ensures
        !active.contains(mapper_for(desired, active)),
{
    if active.contains(desired) {
        let i = choose|i: int| 1 <= i <= 99 && !active.contains(#[trigger] variant(desired, i));
        lemma_free_variant(desired, active, 1, i);
    }
}

proof fn lemma_free_variant(desired: Text, active: Seq<Text>, i: int, k: int)
    requires
        1 <= i <= k <= 99,
        !active.contains(variant(desired, k)),
    ensures
        free_variant(desired, active, i) matches Some(v) && !active.contains(v),
    decreases 100 - i,
{
    if active.contains(variant(desired, i)) {
        lemma_free_variant(desired, active, i + 1, k);
    }
}

// -------------------------------------------------------------------- containers
/// An open LUKS container.
#[derive(Debug, Clone)]
pub struct LuksContainer {
    /// The device it lies on.
    pub device: String,
    /// The mapper name in use, which may be a variant of the usual one.
    pub mapper_name: String,
    pub mapped_path: String,
    /// The name of the volume, by which the files of the target call it.
    pub volume_name: String,
}

/// A container as the contracts speak of it.
pub struct Container {
    pub device: Text,
    pub mapper_name: Text,
    pub mapped_path: Text,
    pub volume_name: Text,
}

impl View for LuksContainer {
    type V = Container;

    open spec fn view(&self) -> Container {
        Container {
            device: self.device@,
            mapper_name: self.mapper_name@,
            mapped_path: self.mapped_path@,
            volume_name: self.volume_name@,
        }
    }
}

pub open spec fn container(device: Text, mapper: Text, volume: Text) -> Container {
    Container {
        device,
        mapper_name: mapper,
        mapped_path: "/dev/mapper/"@ + mapper,
        volume_name: volume,
    }
}

fn new_container(device: &str, mapper: &str, volume: &str) -> (r: LuksContainer)
    ensures
        r@ == container(device@, mapper@, volume@),
{
    LuksContainer {
        device: device.to_owned(),
        mapper_name: mapper.to_owned(),
        mapped_path: concat("/dev/mapper/", mapper),
        volume_name: volume.to_owned(),
    }
}

pub open spec fn format_args(device: Text, integrity: bool) -> Seq<Text> {
    seq![
        "luksFormat"@,
        "--type"@,
        "luks2"@,
        "--cipher"@,
        "aes-xts-plain64"@,
        "--key-size"@,
        "512"@,
        "--hash"@,
        "sha512"@,
        "--pbkdf"@,
        "argon2id"@,
        "--batch-mode"@,
    ] + (if integrity {
        seq!["--integrity"@, "hmac-sha256"@, "--sector-size"@, "4096"@]
    } else {
        seq![]
    }) + seq![device]
}

/// Making a LUKS2 container, with a checksum on each sector where asked for.
pub open spec fn format_call(device: Text, password: Text, integrity: bool) -> CryptsetupCall {
    CryptsetupCall {
        args: format_args(device, integrity),
        secret: Some(password),
        label: "cryptsetup luksFormat"@,
        complaint: "Failed to format LUKS container: "@,
        quote: Quote::Whole,
        settles: false,
    }
}

fn luks_format(device: &str, password: &str, integrity: bool) -> (r: Cryptsetup)
    ensures
        r@ == format_call(device@, password@, integrity),
{
    let mut args: Vec<String> = Vec::new();
    push_text(&mut args, "luksFormat");
    push_text(&mut args, "--type");
    push_text(&mut args, "luks2");
    push_text(&mut args, "--cipher");
    push_text(&mut args, "aes-xts-plain64");
    push_text(&mut args, "--key-size");
    push_text(&mut args, "512");
    push_text(&mut args, "--hash");
    push_text(&mut args, "sha512");
    push_text(&mut args, "--pbkdf");
    push_text(&mut args, "argon2id");
    push_text(&mut args, "--batch-mode");
    if integrity {
        push_text(&mut args, "--integrity");
        push_text(&mut args, "hmac-sha256");
        push_text(&mut args, "--sector-size");
        push_text(&mut args, "4096");
    }
    push_text(&mut args, device);
    assert(args.deep_view() =~= format_args(device@, integrity));
    Cryptsetup {
        args,
        secret: Some(password.to_owned()),
        label: "cryptsetup luksFormat".to_owned(),
        complaint: "Failed to format LUKS container: ".to_owned(),
        quote: Quote::Whole,
        settles: false,
    }
}

pub open spec fn format_v1_args(device: Text) -> Seq<Text> {
    seq![
        "luksFormat"@,
        "--type"@,
        "luks1"@,
        "--cipher"@,
        "aes-xts-plain64"@,
        "--key-size"@,
        "512"@,
        "--hash"@,
        "sha512"@,
        "--batch-mode"@,
        device,
    ]
}

/// Making a LUKS1 container, the kind that GRUB can open.
pub open spec fn format_v1_call(device: Text, password: Text) -> CryptsetupCall {
    CryptsetupCall {
        args: format_v1_args(device),
        secret: Some(password),
        label: "cryptsetup luksFormat (LUKS1)"@,
        complaint: "Failed to format LUKS1 container for /boot: "@,
        quote: Quote::Whole,
        settles: false,
    }
}

fn luks_format_v1(device: &str, password: &str) -> (r: Cryptsetup)
    ensures
        r@ == format_v1_call(device@, password@),
{
    let mut args: Vec<String> = Vec::new();
    push_text(&mut args, "luksFormat");
    push_text(&mut args, "--type");
    push_text(&mut args, "luks1");
    push_text(&mut args, "--cipher");
    push_text(&mut args, "aes-xts-plain64");
    push_text(&mut args, "--key-size");
    push_text(&mut args, "512");
    push_text(&mut args, "--hash");
    push_text(&mut args, "sha512");
    push_text(&mut args, "--batch-mode");
    push_text(&mut args, device);
    assert(args.deep_view() =~= format_v1_args(device@));
    Cryptsetup {
        args,
        secret: Some(password.to_owned()),
        label: "cryptsetup luksFormat (LUKS1)".to_owned(),
        complaint: "Failed to format LUKS1 container for /boot: ".to_owned(),
        quote: Quote::Whole,
        settles: false,
    }
}

/// Opening a container with its password.
pub open spec fn open_call(device: Text, mapper: Text, password: Text) -> CryptsetupCall {
    CryptsetupCall {
        args: seq!["open"@, device, mapper],
        secret: Some(password),
        label: "cryptsetup open"@,
        complaint: "Failed to open LUKS container: "@,
        quote: Quote::Whole,
        settles: true,
    }
}

fn luks_open(device: &str, mapper: &str, password: &str) -> (r: Cryptsetup)
    ensures
        r@ == open_call(device@, mapper@, password@),
{
    let mut args: Vec<String> = Vec::new();
    push_text(&mut args, "open");
    push_text(&mut args, device);
    push_text(&mut args, mapper);
    assert(args.deep_view() =~= seq!["open"@, device@, mapper@]);
    Cryptsetup {
        args,
        secret: Some(password.to_owned()),
        label: "cryptsetup open".to_owned(),
        complaint: "Failed to open LUKS container: ".to_owned(),
        quote: Quote::Whole,
        settles: true,
    }
}

/// How a dry run shows that a container is made.
pub open spec fn format_shown(device: Text, integrity: bool) -> Text {
    "  [dry-run] cryptsetup luksFormat --type luks2"@ + (if integrity {
        " --integrity hmac-sha256"@
    } else {
        ""@
    }) + " "@ + device
}

/// How a dry run shows that a container is opened.
pub open spec fn open_shown(device: Text, mapper: Text) -> Text {
    "  [dry-run] cryptsetup open "@ + device + " "@ + mapper
}

/// Making a LUKS2 container and opening it.
pub open spec fn create_steps(
    device: Text,
    mapper: Text,
    password: Text,
    integrity: bool,
    dry_run: bool,
) -> Seq<Act> {
    if dry_run {
        seq![Act::Say(format_shown(device, integrity)), Act::Say(open_shown(device, mapper))]
    } else {
        seq![
            Act::Cryptsetup(format_call(device, password, integrity)),
            Act::Cryptsetup(open_call(device, mapper, password)),
        ]
    }
}

fn create_and_open(
    device: &str,
    mapper: &str,
    password: &str,
    integrity: bool,
    dry_run: bool,
) -> (r:
    Vec<Step>)
    ensures
        plan::acts(r@) == create_steps(device@, mapper@, password@, integrity, dry_run),
{
    let mut steps: Vec<Step> = Vec::new();
    if dry_run {
        let flag = if integrity {
            " --integrity hmac-sha256"
        } else {
            ""
        };
        let shown = concat3("  [dry-run] cryptsetup luksFormat --type luks2", flag, " ");
        say(&mut steps, concat(shown.as_str(), device).as_str());
        let shown = concat3("  [dry-run] cryptsetup open ", device, " ");
        say(&mut steps, concat(shown.as_str(), mapper).as_str());
    } else {
        cryptsetup(&mut steps, luks_format(device, password, integrity));
        cryptsetup(&mut steps, luks_open(device, mapper, password));
    }
    assert(plan::acts(steps@) =~= create_steps(device@, mapper@, password@, integrity, dry_run));
    steps
}

/// Why no container can be made under a configuration, in the words of the error.
pub open spec fn says_no_password(e: DeploytixError) -> bool {
    e.says("Encryption password required"@)
}

/// The container of the root, and what makes and opens it.
pub open spec fn root_made(
    config: DeploymentConfig,
    device: Text,
    number: int,
    active: Seq<Text>,
    dry_run: bool,
    c: Container,
    steps: Seq<Act>,
) -> bool {
    let source = disk::partition_file(device, number);
    let mapper = mapper_for(config.disk.luks_mapper_name@, active);
    &&& config.disk.encryption
    &&& config.disk.encryption_password matches Some(password)
    &&& c == container(source, mapper, volume_of(config.disk.luks_mapper_name@))
    &&& steps == create_steps(source, mapper, password@, config.disk.integrity, dry_run)
}

/// Makes and opens the container of the root, and says how it is called.
pub fn setup_encryption(
    config: &DeploymentConfig,
    device: &str,
    luks_partition: u32,
    active: &Vec<String>,
    dry_run: bool,
) -> (r: Result<(LuksContainer, Vec<Step>)>)
    ensures
        match r {
            Ok((c, steps)) => root_made(
                *config,
                device@,
                luks_partition as int,
                active.deep_view(),
                dry_run,
                c@,
                plan::acts(steps@),
            ),
            Err(e) => if !config.disk.encryption {
                e.config_says("Encryption not enabled in configuration"@)
            } else {
                config.disk.encryption_password is None && says_no_password(e)
            },
        },
{
    if !config.disk.encryption {
        return Err(
            DeploytixError::ConfigError("Encryption not enabled in configuration".to_owned()),
        );
    }
    let password = match &config.disk.encryption_password {
        Some(p) => p,
        None => {
            return Err(DeploytixError::ValidationError("Encryption password required".to_owned()));
        },
    };
    let source = partition_path(device, luks_partition);
    let canonical = config.disk.luks_mapper_name.as_str();
    let mapper = resolve_mapper_name(canonical, active);
    let steps = create_and_open(
        source.as_str(),
        mapper.as_str(),
        password.as_str(),
        config.disk.integrity,
        dry_run,
    );
    let volume = volume_name_of(canonical);
    Ok((new_container(source.as_str(), mapper.as_str(), volume.as_str()), steps))
}

/// Making the container of /boot and opening it.
pub open spec fn boot_steps(device: Text, mapper: Text, password: Text, dry_run: bool) -> Seq<Act> {
    if dry_run {
        seq![
            Act::Say("  [dry-run] cryptsetup luksFormat --type luks1 "@ + device),
            Act::Say(open_shown(device, mapper)),
        ]
    } else {
        seq![
            Act::Cryptsetup(format_v1_call(device, password)),
            Act::Cryptsetup(open_call(device, mapper, password)),
        ]
    }
}

/// The container of /boot, and what makes and opens it.
pub open spec fn boot_made(
    config: DeploymentConfig,
    device: Text,
    number: int,
    active: Seq<Text>,
    dry_run: bool,
    c: Container,
    steps: Seq<Act>,
) -> bool {
    let source = disk::partition_file(device, number);
    let mapper = mapper_for(config.disk.luks_boot_mapper_name@, active);
    &&& config.disk.boot_encryption
    &&& config.disk.encryption_password matches Some(password)
    &&& c == container(source, mapper, volume_of(config.disk.luks_boot_mapper_name@))
    &&& steps == boot_steps(source, mapper, password@, dry_run)
}

/// Makes and opens the container of /boot, of the kind that GRUB can open.
pub fn setup_boot_encryption(
    config: &DeploymentConfig,
    device: &str,
    boot_partition: u32,
    active: &Vec<String>,
    dry_run: bool,
) -> (r: Result<(LuksContainer, Vec<Step>)>)
    ensures
        match r {
            Ok((c, steps)) => boot_made(
                *config,
                device@,
                boot_partition as int,
                active.deep_view(),
                dry_run,
                c@,
                plan::acts(steps@),
            ),
            Err(e) => if !config.disk.boot_encryption {
                e.config_says("Boot encryption not enabled in configuration"@)
            } else {
                config.disk.encryption_password is None && says_no_password(e)
            },
        },
{
    if !config.disk.boot_encryption {
        return Err(
            DeploytixError::ConfigError("Boot encryption not enabled in configuration".to_owned()),
        );
    }
    let password = match &config.disk.encryption_password {
        Some(p) => p,
        None => {
            return Err(DeploytixError::ValidationError("Encryption password required".to_owned()));
        },
    };
    let source = partition_path(device, boot_partition);
    let canonical = config.disk.luks_boot_mapper_name.as_str();
    let mapper = resolve_mapper_name(canonical, active);
    let mut steps: Vec<Step> = Vec::new();
    if dry_run {
        say(
            &mut steps,
            concat("  [dry-run] cryptsetup luksFormat --type luks1 ", source.as_str()).as_str(),
        );
        let shown = concat3("  [dry-run] cryptsetup open ", source.as_str(), " ");
        say(&mut steps, concat(shown.as_str(), mapper.as_str()).as_str());
    } else {
        cryptsetup(&mut steps, luks_format_v1(source.as_str(), password.as_str()));
        cryptsetup(&mut steps, luks_open(source.as_str(), mapper.as_str(), password.as_str()));
    }
    assert(plan::acts(steps@) =~= boot_steps(source@, mapper@, password@, dry_run));
    let volume = volume_name_of(canonical);
    Ok((new_container(source.as_str(), mapper.as_str(), volume.as_str()), steps))
}

/// A container, and what makes and opens it.
pub open spec fn single_made(
    device: Text,
    password: Text,
    canonical_mapper: Text,
    volume_name: Text,
    integrity: bool,
    active: Seq<Text>,
    dry_run: bool,
    c: Container,
    steps: Seq<Act>,
) -> bool {
    let mapper = mapper_for(canonical_mapper, active);
    &&& c == container(device, mapper, volume_name)
    &&& steps == create_steps(device, mapper, password, integrity, dry_run)
}

fn setup_single_luks_inner(
    device: &str,
    password: &str,
    canonical_mapper: &str,
    volume_name: &str,
    integrity: bool,
    active: &Vec<String>,
    dry_run: bool,
) -> (r: (LuksContainer, Vec<Step>))
    ensures
        single_made(
            device@,
            password@,
            canonical_mapper@,
            volume_name@,
            integrity,
            active.deep_view(),
            dry_run,
            r.0@,
            plan::acts(r.1@),
        ),
{
    let mapper = resolve_mapper_name(canonical_mapper, active);
    let steps = create_and_open(device, mapper.as_str(), password, integrity, dry_run);
    (new_container(device, mapper.as_str(), volume_name), steps)
}

/// Makes and opens one container, such as that of a thin pool.
pub fn setup_single_luks(
    device: &str,
    password: &str,
    canonical_mapper: &str,
    volume_name: &str,
    active: &Vec<String>,
    dry_run: bool,
) -> (r: (LuksContainer, Vec<Step>))
    ensures
        single_made(
            device@,
            password@,
            canonical_mapper@,
            volume_name@,
            false,
            active.deep_view(),
            dry_run,
            r.0@,
            plan::acts(r.1@),
        ),
{
    setup_single_luks_inner(device, password, canonical_mapper, volume_name, false, active, dry_run)
}

/// The same, with a checksum on each sector.
pub fn setup_single_luks_with_integrity(
    device: &str,
    password: &str,
    canonical_mapper: &str,
    volume_name: &str,
    active: &Vec<String>,
    dry_run: bool,
) -> (r: (LuksContainer, Vec<Step>))
    ensures
        single_made(
            device@,
            password@,
            canonical_mapper@,
            volume_name@,
            true,
            active.deep_view(),
            dry_run,
            r.0@,
            plan::acts(r.1@),
        ),
{
    setup_single_luks_inner(device, password, canonical_mapper, volume_name, true, active, dry_run)
}

// ------------------------------------------------------------------- credentials
/// What opens a container that is there already.
#[derive(Clone)]
pub enum Credential {
    /// The path of a keyfile on the installing host.
    Keyfile(String),
    Passphrase(String),
}

impl Credential {
    /// How the credential is named without disclosing a passphrase.
    pub open spec fn described(self) -> Text {
        match self {
            Credential::Keyfile(path) => "keyfile "@ + path@,
            Credential::Passphrase(_) => "passphrase"@,
        }
    }

    pub fn describe(&self) -> (r: String)
        ensures
            r@ == self.described(),
    {
        match self {
            Credential::Keyfile(path) => concat("keyfile ", path.as_str()),
            Credential::Passphrase(_) => "passphrase".to_owned(),
        }
    }

    /// The credential in a diagnostic; a passphrase is not shown.
    pub fn to_text(&self) -> (r: String)
        ensures
            r@ == match *self {
                Credential::Keyfile(path) => "Keyfile("@ + path@ + ")"@,
                Credential::Passphrase(_) => "Passphrase(<redacted>)"@,
            },
    {
        match self {
            Credential::Keyfile(path) => concat3("Keyfile(", path.as_str(), ")"),
            Credential::Passphrase(_) => "Passphrase(<redacted>)".to_owned(),
        }
    }

    /// The arguments that hand a keyfile over.
    pub open spec fn key_args(self) -> Seq<Text> {
        match self {
            Credential::Keyfile(path) => seq!["--key-file"@, path@],
            Credential::Passphrase(_) => seq![],
        }
    }

    pub fn key_file_args(&self) -> (r: Vec<String>)
        ensures
            r.deep_view() == self.key_args(),
    {
        let mut v: Vec<String> = Vec::new();
        if let Credential::Keyfile(path) = self {
            push_text(&mut v, "--key-file");
            push_text(&mut v, path.as_str());
        }
        assert(v.deep_view() =~= self.key_args());
        v
    }

    /// The line that hands a passphrase over.
    pub open spec fn secret(self) -> Option<Text> {
        match self {
            Credential::Keyfile(_) => None,
            Credential::Passphrase(p) => Some(p@),
        }
    }

    pub fn stdin_secret(&self) -> (r: Option<String>)
        ensures
            plan::seen(r) == self.secret(),
    {
        match self {
            Credential::Keyfile(_) => None,
            Credential::Passphrase(p) => Some(p.clone()),
        }
    }
}

/// A credential is handed over in one way: by its arguments or on standard input.
pub proof fn credential_travels_one_way(c: Credential)
    ensures
        c.secret() is Some <==> c.key_args().len() == 0,
{
}

/// Describing a passphrase tells nothing of it.
pub proof fn passphrases_stay_secret(p: String, q: String)
    ensures
        Credential::Passphrase(p).described() == Credential::Passphrase(q).described(),
{
}

/// A volume that is kept instead of made anew.
#[derive(Clone)]
pub struct AdoptSpec {
    pub volume_name: String,
    pub credential: Credential,
}

impl AdoptSpec {
    /// The volume is the one to keep, whatever the case of its letters.
    pub open spec fn names(self, volume: Text) -> bool {
        text::ascii_lowered(self.volume_name@) == text::ascii_lowered(volume)
    }

    pub fn matches(&self, volume_name: &str) -> (r: bool)
        ensures
            r == self.names(volume_name@),
    {
        same_ignoring_case(self.volume_name.as_str(), volume_name)
    }
}

/// A call that hands a credential over; its own arguments follow those of the
/// credential.
pub open spec fn credential_call(
    args: Seq<Text>,
    credential: Credential,
    label: Text,
    complaint: Text,
    settles: bool,
) -> CryptsetupCall {
    CryptsetupCall {
        args: credential.key_args() + args,
        secret: credential.secret(),
        label,
        complaint,
        quote: Quote::Trimmed,
        settles,
    }
}

fn run_cryptsetup(
    subcommand_args: Vec<String>,
    credential: &Credential,
    label: &str,
    complaint: String,
    settles: bool,
) -> (r: Cryptsetup)
    ensures
        r@ == credential_call(
            subcommand_args.deep_view(),
            *credential,
            label@,
            complaint@,
            settles,
        ),
{
    let mut args = credential.key_file_args();
    let mut more = subcommand_args;
    let ghost a = args.deep_view();
    let ghost b = more.deep_view();
    args.append(&mut more);
    assert(args.deep_view() =~= a + b);
    Cryptsetup {
        args,
        secret: credential.stdin_secret(),
        label: label.to_owned(),
        complaint,
        quote: Quote::Trimmed,
        settles,
    }
}

pub const TEST_LABEL: &'static str = "cryptsetup open --test-passphrase";

/// Trying a credential, which opens nothing.
pub open spec fn test_call(device: Text, credential: Credential) -> CryptsetupCall {
    credential_call(
        seq!["open"@, "--test-passphrase"@, device],
        credential,
        TEST_LABEL@,
        credential.described() + " does not unlock "@ + device + ": "@,
        false,
    )
}

/// Checks that a credential opens a container before anything is touched.
/// `keyfile_is_file` says whether its keyfile is there; without meaning for a
/// passphrase.
pub fn verify_luks_credential(
    device: &str,
    credential: &Credential,
    keyfile_is_file: bool,
    dry_run: bool,
) -> (r: Result<Vec<Step>>)
    ensures
        match r {
            Ok(steps) => if dry_run {
                plan::acts(steps@) == seq![
                    Act::Say(
                        "  [dry-run] cryptsetup open --test-passphrase "@ + device@ + " ("@
                            + credential.described() + ")"@,
                    ),
                ]
            } else {
                &&& *credential is Keyfile ==> keyfile_is_file
                &&& plan::acts(steps@) == seq![Act::Cryptsetup(test_call(device@, *credential))]
            },
            Err(e) => {
                &&& !dry_run
                &&& !keyfile_is_file
                &&& *credential matches Credential::Keyfile(path)
                &&& e.says("keyfile "@ + path@ + " does not exist or is not a regular file"@)
            },
        },
{
    let mut steps: Vec<Step> = Vec::new();
    let described = credential.describe();
    if dry_run {
        let shown = concat3("  [dry-run] cryptsetup open --test-passphrase ", device, " (");
        let shown = concat3(shown.as_str(), described.as_str(), ")");
        say(&mut steps, shown.as_str());
        assert(plan::acts(steps@) =~= seq![Act::Say(shown@)]);
        return Ok(steps);
    }
    if let Credential::Keyfile(path) = credential {
        if !keyfile_is_file {
            return Err(
                DeploytixError::ValidationError(
                    concat3(
                        "keyfile ",
                        path.as_str(),
                        " does not exist or is not a regular file",
                    ),
                ),
            );
        }
    }
    let mut args: Vec<String> = Vec::new();
    push_text(&mut args, "open");
    push_text(&mut args, "--test-passphrase");
    push_text(&mut args, device);
    assert(args.deep_view() =~= seq!["open"@, "--test-passphrase"@, device@]);
    let complaint = concat(
        concat3(described.as_str(), " does not unlock ", device).as_str(),
        ": ",
    );
    let call = run_cryptsetup(args, credential, TEST_LABEL, complaint, false);
    cryptsetup(&mut steps, call);
    assert(plan::acts(steps@) =~= seq![Act::Cryptsetup(test_call(device@, *credential))]);
    Ok(steps)
}

/// Opening a container that is there already.
pub open spec fn adopt_steps(
    device: Text,
    mapper: Text,
    credential: Credential,
    dry_run: bool,
) -> Seq<Act> {
    if dry_run {
        seq![
            Act::Say(open_shown(device, mapper) + " ("@ + credential.described() + ")"@),
        ]
    } else {
        seq![
            Act::Cryptsetup(
                credential_call(
                    seq!["open"@, device, mapper],
                    credential,
                    "cryptsetup open"@,
                    "Failed to open LUKS container: "@,
                    true,
                ),
            ),
        ]
    }
}

/// Opens a container that is there already; it is never made anew.
pub fn open_luks_with(
    device: &str,
    mapper_name: &str,
    credential: &Credential,
    dry_run: bool,
) -> (r:
    Vec<Step>)
    ensures
        plan::acts(r@) == adopt_steps(device@, mapper_name@, *credential, dry_run),
{
    let mut steps: Vec<Step> = Vec::new();
    if dry_run {
        let shown = concat3("  [dry-run] cryptsetup open ", device, " ");
        let shown = concat3(shown.as_str(), mapper_name, " (");
        let shown = concat3(shown.as_str(), credential.describe().as_str(), ")");
        say(&mut steps, shown.as_str());
    } else {
        let mut args: Vec<String> = Vec::new();
        push_text(&mut args, "open");
        push_text(&mut args, device);
        push_text(&mut args, mapper_name);
        assert(args.deep_view() =~= seq!["open"@, device@, mapper_name@]);
        let call = run_cryptsetup(
            args,
            credential,
            "cryptsetup open",
            "Failed to open LUKS container: ".to_owned(),
            true,
        );
        cryptsetup(&mut steps, call);
    }
    assert(plan::acts(steps@) =~= adopt_steps(device@, mapper_name@, *credential, dry_run));
    steps
}

/// Opens a container with its password.
pub fn open_luks(device: &str, mapper_name: &str, password: &str, dry_run: bool) -> (r: Vec<Step>)
    ensures
        plan::acts(r@) == if dry_run {
            seq![Act::Say(open_shown(device@, mapper_name@))]
        } else {
            seq![Act::Cryptsetup(open_call(device@, mapper_name@, password@))]
        },
{
    let mut steps: Vec<Step> = Vec::new();
    if dry_run {
        let shown = concat3("  [dry-run] cryptsetup open ", device, " ");
        let shown = concat(shown.as_str(), mapper_name);
        say(&mut steps, shown.as_str());
        assert(plan::acts(steps@) =~= seq![Act::Say(shown@)]);
    } else {
        cryptsetup(&mut steps, luks_open(device, mapper_name, password));
        assert(plan::acts(steps@) =~= seq![
            Act::Cryptsetup(open_call(device@, mapper_name@, password@)),
        ]);
    }
    steps
}

// ----------------------------------------------------------------- many volumes
/// A partition that holds a container: its number and its name.
#[derive(Debug, Clone)]
pub struct LuksPartition {
    pub number: u32,
    pub name: String,
}

/// The mapper names that are active once the first `n` containers are open.
pub open spec fn active_after(
    parts: Seq<LuksPartition>,
    active: Seq<Text>,
    dry_run: bool,
    n: int,
) -> Seq<Text>
    decreases n, 0int,
{
    if n <= 0 || dry_run {
        active
    } else {
        active_after(parts, active, dry_run, n - 1).push(
            volume_mapper(parts, active, dry_run, n - 1),
        )
    }
}

/// The mapper name of the `n`th container.
pub open spec fn volume_mapper(
    parts: Seq<LuksPartition>,
    active: Seq<Text>,
    dry_run: bool,
    n: int,
) -> Text
    decreases n, 1int,
{
    mapper_for(
        "Crypt-"@ + title_case(parts[n].name@),
        active_after(parts, active, dry_run, n),
    )
}

/// The `n`th container.
pub open spec fn volume_container(
    device: Text,
    parts: Seq<LuksPartition>,
    active: Seq<Text>,
    dry_run: bool,
    n: int,
) -> Container {
    container(
        disk::partition_file(device, parts[n].number as int),
        volume_mapper(parts, active, dry_run, n),
        title_case(parts[n].name@),
    )
}

/// What is done for the `n`th container: the volume to keep is opened, any other
/// made anew.
pub open spec fn volume_steps(
    device: Text,
    parts: Seq<LuksPartition>,
    active: Seq<Text>,
    adopt: Option<AdoptSpec>,
    password: Text,
    integrity: bool,
    dry_run: bool,
    n: int,
) -> Seq<Act> {
    let c = volume_container(device, parts, active, dry_run, n);
    match adopt {
        Some(a) if a.names(c.volume_name) => adopt_steps(
            c.device,
            c.mapper_name,
            a.credential,
            dry_run,
        ),
        _ => create_steps(c.device, c.mapper_name, password, integrity, dry_run),
    }
}

/// What is done for the first `n` containers.
pub open spec fn volumes_steps(
    device: Text,
    parts: Seq<LuksPartition>,
    active: Seq<Text>,
    adopt: Option<AdoptSpec>,
    password: Text,
    integrity: bool,
    dry_run: bool,
    n: int,
) -> Seq<Act>
    decreases n,
{
    if n <= 0 {
        seq![]
    } else {
        volumes_steps(device, parts, active, adopt, password, integrity, dry_run, n - 1)
            + volume_steps(device, parts, active, adopt, password, integrity, dry_run, n - 1)
    }
}

fn volume_to_keep<'a>(adopt: &'a Option<AdoptSpec>, volume: &str) -> (r: Option<&'a AdoptSpec>)
    ensures
        match *adopt {
            Some(a) if a.names(volume@) => r == Some(&a),
            _ => r is None,
        },
{
    match adopt {
        Some(a) => if a.matches(volume) {
            Some(a)
        } else {
            None
        },
        None => None,
    }
}

/// Makes and opens a container on each partition, and keeps the volume that is to
/// be kept.
pub fn setup_multi_volume_encryption(
    config: &DeploymentConfig,
    device: &str,
    luks_partitions: &Vec<LuksPartition>,
    adopt: &Option<AdoptSpec>,
    active: &Vec<String>,
    dry_run: bool,
) -> (r: Result<(Vec<LuksContainer>, Vec<Step>)>)
    ensures
        match r {
            Ok((containers, steps)) => {
                let parts = luks_partitions@;
                &&& config.disk.encryption
                &&& config.disk.encryption_password matches Some(password)
                &&& containers@.len() == parts.len()
                &&& forall|i: int|
                    0 <= i < parts.len() ==> (#[trigger] containers@[i])@ == volume_container(
                        device@,
                        parts,
                        active.deep_view(),
                        dry_run,
                        i,
                    )
                &&& plan::acts(steps@) == volumes_steps(
                    device@,
                    parts,
                    active.deep_view(),
                    *adopt,
                    password@,
                    config.disk.integrity,
                    dry_run,
                    parts.len() as int,
                )
            },
            Err(e) => if !config.disk.encryption {
                e.config_says("Encryption not enabled in configuration"@)
            } else {
                config.disk.encryption_password is None && says_no_password(e)
            },
        },
{
    if !config.disk.encryption {
        return Err(
            DeploytixError::ConfigError("Encryption not enabled in configuration".to_owned()),
        );
    }
    let password = match &config.disk.encryption_password {
        Some(p) => p,
        None => {
            return Err(DeploytixError::ValidationError("Encryption password required".to_owned()));
        },
    };
    let integrity = config.disk.integrity;
    let ghost parts = luks_partitions@;
    let ghost before = active.deep_view();
    let mut taken: Vec<String> = Vec::new();
    let mut k: usize = 0;
    while k < active.len()
        invariant
            k <= active@.len(),
            taken.deep_view() == active.deep_view().take(k as int),
        decreases active.len() - k,
    {
        push_text(&mut taken, active[k].as_str());
        k += 1;
        assert(taken.deep_view() =~= active.deep_view().take(k as int));
    }
    assert(active.deep_view().take(k as int) =~= before);
    let mut containers: Vec<LuksContainer> = Vec::new();
    let mut steps: Vec<Step> = Vec::new();
    assert(plan::acts(steps@) =~= seq![]);
    let mut i: usize = 0;
    while i < luks_partitions.len()
        invariant
            i <= parts.len(),
            parts == luks_partitions@,
            before == active.deep_view(),
            integrity == config.disk.integrity,
            taken.deep_view() == active_after(parts, before, dry_run, i as int),
            containers@.len() == i,
            forall|j: int|
                0 <= j < i ==> (#[trigger] containers@[j])@ == volume_container(
                    device@,
                    parts,
                    before,
                    dry_run,
                    j,
                ),
            plan::acts(steps@) == volumes_steps(
                device@,
                parts,
                before,
                *adopt,
                password@,
                integrity,
                dry_run,
                i as int,
            ),
        decreases luks_partitions.len() - i,
    {
        let source = partition_path(device, luks_partitions[i].number);
        let volume = to_title_case(luks_partitions[i].name.as_str());
        let mapper = resolve_mapper_name(concat("Crypt-", volume.as_str()).as_str(), &taken);
        let more = match volume_to_keep(adopt, volume.as_str()) {
            Some(a) => open_luks_with(source.as_str(), mapper.as_str(), &a.credential, dry_run),
            None => create_and_open(
                source.as_str(),
                mapper.as_str(),
                password.as_str(),
                integrity,
                dry_run,
            ),
        };
        extend(&mut steps, more);
        containers.push(new_container(source.as_str(), mapper.as_str(), volume.as_str()));
        assert(mapper@ == volume_mapper(parts, before, dry_run, i as int));
        if !dry_run {
            push_text(&mut taken, mapper.as_str());
        }
        i += 1;
        assert(taken.deep_view() == active_after(parts, before, dry_run, i as int));
    }
    Ok((containers, steps))
}

/// The volume to keep is never formatted: its container is only opened.
pub proof fn kept_volume_is_not_formatted(
    device: Text,
    parts: Seq<LuksPartition>,
    active: Seq<Text>,
    adopt: AdoptSpec,
    password: Text,
    integrity: bool,
    dry_run: bool,
    n: int,
)
    requires
        0 <= n < parts.len(),
        adopt.names(title_case(parts[n].name@)),
    ensures
        volume_steps(
            device,
            parts,
            active,
            Some(adopt),
            password,
            integrity,
            dry_run,
            n,
        ) == adopt_steps(
            disk::partition_file(device, parts[n].number as int),
            volume_mapper(parts, active, dry_run, n),
            adopt.credential,
            dry_run,
        ),
        adopt_steps(
            disk::partition_file(device, parts[n].number as int),
            volume_mapper(parts, active, dry_run, n),
            adopt.credential,
            dry_run,
        ).len() == 1,
{
}

// ----------------------------------------------------------------------- closing
pub open spec fn close_steps(mapper: Text, dry_run: bool) -> Seq<Act> {
    if dry_run {
        seq![Act::Say("  [dry-run] cryptsetup close "@ + mapper)]
    } else {
        seq![Act::Run { program: "cryptsetup"@, args: seq!["close"@, mapper] }]
    }
}

/// Closes a container.
pub fn close_luks(mapper_name: &str, dry_run: bool) -> (r: Vec<Step>)
    ensures
        plan::acts(r@) == close_steps(mapper_name@, dry_run),
{
    let mut steps: Vec<Step> = Vec::new();
    if dry_run {
        say(&mut steps, concat("  [dry-run] cryptsetup close ", mapper_name).as_str());
    } else {
        let mut args: Vec<String> = Vec::new();
        push_text(&mut args, "close");
        push_text(&mut args, mapper_name);
        assert(args.deep_view() =~= seq!["close"@, mapper_name@]);
        run(&mut steps, "cryptsetup", args);
    }
    assert(plan::acts(steps@) =~= close_steps(mapper_name@, dry_run));
    steps
}

/// Closing the containers from the `n`th on, the last one first.
pub open spec fn close_all_steps(
    containers: Seq<LuksContainer>,
    dry_run: bool,
    n: int,
) -> Seq<Act>
    decreases containers.len() - n,
{
    if n >= containers.len() {
        seq![]
    } else {
        close_all_steps(containers, dry_run, n + 1) + close_steps(
            containers[n].mapper_name@,
            dry_run,
        )
    }
}

/// Closes containers in the reverse of the order in which they were opened.
pub fn close_multi_luks(containers: &Vec<LuksContainer>, dry_run: bool) -> (r: Vec<Step>)
    ensures
        plan::acts(r@) == close_all_steps(containers@, dry_run, 0),
{
    let mut steps: Vec<Step> = Vec::new();
    assert(plan::acts(steps@) =~= seq![]);
    let mut i: usize = containers.len();
    while i > 0
        invariant
            i <= containers@.len(),
            plan::acts(steps@) == close_all_steps(containers@, dry_run, i as int),
        decreases i,
    {
        i -= 1;
        extend(&mut steps, close_luks(containers[i].mapper_name.as_str(), dry_run));
    }
    steps
}

/// The UUID of a container, from what `cryptsetup luksUUID` printed.
pub fn get_luks_uuid(device: &str, succeeded: bool, stdout: &str) -> (r: Result<String>)
    ensures
        match r {
            Ok(t) => succeeded && t@ == text::trimmed(stdout@),
            Err(e) => {
                &&& !succeeded
                &&& e matches DeploytixError::CommandFailed { command, stderr }
                &&& command@ == "cryptsetup luksUUID"@
                &&& stderr@ == "Failed to get LUKS UUID for "@ + device@
            },
        },
{
    if !succeeded {
        return Err(
            DeploytixError::CommandFailed {
                command: "cryptsetup luksUUID".to_owned(),
                stderr: concat("Failed to get LUKS UUID for ", device),
            },
        );
    }
    Ok(trim(stdout))
}

// -------------------------------------------------------------------------- laws
/// The steps succeed, and afterwards the container is new, its key opens it, and it is open
/// under its name; all other containers are as they were.
pub open spec fn opens_anew(
    v: effects::Vaults,
    steps: Seq<Act>,
    c: Container,
    key: effects::Key,
    version: Text,
    checked: bool,
) -> bool {
    &&& effects::vaults(v, steps) matches Some(w)
    &&& w.open == v.open.insert(c.mapper_name, c.device)
    &&& w.made == v.made.insert(
        c.device,
        effects::Vault { version, checked, keys: set![key] },
    )
    &&& c.mapped_path == "/dev/mapper/"@ + c.mapper_name
}

proof fn lemma_cryptsetup_words()
    ensures
        "open"@ != "luksFormat"@,
        "open"@ != "--key-file"@,
        "luksFormat"@ != "--key-file"@,
        "luksFormat"@ != "--type"@,
        "--type"@ != "--integrity"@,
        "luksAddKey"@ != "open"@,
        "luksAddKey"@ != "luksFormat"@,
        "luksAddKey"@ != "--key-file"@,
{
    reveal_strlit("open");
    reveal_strlit("luksFormat");
    reveal_strlit("--key-file");
    reveal_strlit("--type");
    reveal_strlit("--integrity");
    reveal_strlit("luksAddKey");
    assert("luksFormat"@[4] == 'F' && "luksAddKey"@[4] == 'A' && "--key-file"@[0] == '-');
    assert("open"@.len() == 4 && "--type"@.len() == 6 && "luksFormat"@.len() == 10);
}

proof fn lemma_format(v: effects::Vaults, call: CryptsetupCall, version: Text, checked: bool)
    requires
        call.args.len() >= 4,
        call.args[0] == "luksFormat"@,
        call.args[1] == "--type"@,
        call.args[2] == version,
        call.secret is Some,
        call.args.contains("--integrity"@) <==> checked,
    ensures
        effects::cryptsetup_after(v, call) == Some(
            effects::Vaults {
                made: v.made.insert(
                    call.args.last(),
                    effects::Vault {
                        version,
                        checked,
                        keys: set![effects::Key::Passphrase(call.secret->0)],
                    },
                ),
                ..v
            },
        ),
{
    lemma_cryptsetup_words();
    let args = call.args;
    let g = |i: int| args[i] == "--type"@;
    crate::index::lemma_first_is(args.len() as int, g, 1);
    assert(effects::option_of(args, "--type"@) == Some(version));
}

proof fn lemma_two_calls(v: effects::Vaults, a: CryptsetupCall, b: CryptsetupCall)
    ensures
        effects::vaults(v, seq![Act::Cryptsetup(a), Act::Cryptsetup(b)])
            == match effects::cryptsetup_after(v, a) {
            Some(w) => effects::cryptsetup_after(w, b),
            None => None,
        },
{
    let s = seq![Act::Cryptsetup(a), Act::Cryptsetup(b)];
    assert(s.drop_last() =~= seq![Act::Cryptsetup(a)]);
    assert(seq![Act::Cryptsetup(a)].drop_last() =~= seq![]);
    reveal_with_fuel(effects::vaults, 3);
}

proof fn lemma_created(
    v: effects::Vaults,
    device: Text,
    mapper: Text,
    password: Text,
    integrity: bool,
    volume: Text,
)
    requires
        !v.open.contains_key(mapper),
        !text::begins(device, "-"@),
    ensures
        opens_anew(
            v,
            create_steps(device, mapper, password, integrity, false),
            container(device, mapper, volume),
            effects::Key::Passphrase(password),
            "luks2"@,
            integrity,
        ),
{
    let f = format_call(device, password, integrity);
    let o = open_call(device, mapper, password);
    lemma_dashes(device);
    lemma_cryptsetup_words();
    let a = f.args;
    assert(a.last() == device);
    if integrity {
        assert(a[12] == "--integrity"@);
    } else {
        lemma_no_integrity(device);
    }
    lemma_format(v, f, "luks2"@, integrity);
    lemma_two_calls(v, f, o);
    assert(create_steps(device, mapper, password, integrity, false) =~= seq![
        Act::Cryptsetup(f),
        Act::Cryptsetup(o),
    ]);
}

proof fn lemma_dashes(device: Text)
    requires
        !text::begins(device, "-"@),
    ensures
        device != "--integrity"@,
        device != "--test-passphrase"@,
        device != "--key-file"@,
{
    reveal_strlit("-");
    reveal_strlit("--integrity");
    reveal_strlit("--test-passphrase");
    reveal_strlit("--key-file");
    assert("--integrity"@.subrange(0, 1) =~= "-"@);
    assert("--test-passphrase"@.subrange(0, 1) =~= "-"@);
    assert("--key-file"@.subrange(0, 1) =~= "-"@);
}

proof fn lemma_no_integrity(device: Text)
    requires
        device != "--integrity"@,
    ensures
        !format_args(device, false).contains("--integrity"@),
        !format_v1_args(device).contains("--integrity"@),
{
    reveal_strlit("--integrity");
    reveal_strlit("luksFormat");
    reveal_strlit("--type");
    reveal_strlit("luks2");
    reveal_strlit("luks1");
    reveal_strlit("--cipher");
    reveal_strlit("aes-xts-plain64");
    reveal_strlit("--key-size");
    reveal_strlit("512");
    reveal_strlit("--hash");
    reveal_strlit("sha512");
    reveal_strlit("--pbkdf");
    reveal_strlit("argon2id");
    reveal_strlit("--batch-mode");
    assert("--integrity"@.len() == 11);
    assert("--batch-mode"@.len() == 12);
}

/// The container of the root is made on the partition that was named and opened at once:
/// its password opens it, and it is open under the name that is handed back.
pub proof fn root_container_is_open(
    config: DeploymentConfig,
    device: Text,
    number: int,
    active: Seq<Text>,
    c: Container,
    steps: Seq<Act>,
    v: effects::Vaults,
)
    requires
        root_made(config, device, number, active, false, c, steps),
        !text::begins(device, "-"@),
        device.len() > 0,
        !v.open.contains_key(c.mapper_name),
    ensures
        config.disk.encryption_password matches Some(password) && opens_anew(
            v,
            steps,
            c,
            effects::Key::Passphrase(password@),
            "luks2"@,
            config.disk.integrity,
        ),
        c.device == disk::partition_file(device, number),
        !active.contains(config.disk.luks_mapper_name@) ==> c.mapper_name
            == config.disk.luks_mapper_name@,
{
    lemma_partition_has_no_dash(device, number);
    lemma_created(
        v,
        c.device,
        c.mapper_name,
        config.disk.encryption_password->0@,
        config.disk.integrity,
        c.volume_name,
    );
}

proof fn lemma_partition_has_no_dash(device: Text, number: int)
    requires
        !text::begins(device, "-"@),
        device.len() > 0,
    ensures
        !text::begins(disk::partition_file(device, number), "-"@),
{
    reveal_strlit("-");
    let f = disk::partition_file(device, number);
    if text::begins(f, "-"@) {
        assert(f.subrange(0, 1)[0] == '-');
        assert(f[0] == device[0]);
        assert(device.subrange(0, 1) =~= "-"@);
    }
}

/// The container of /boot is made in the version that GRUB can open and opened at once,
/// under the password of the disk.
pub proof fn boot_container_is_open(
    config: DeploymentConfig,
    device: Text,
    number: int,
    active: Seq<Text>,
    c: Container,
    steps: Seq<Act>,
    v: effects::Vaults,
)
    requires
        boot_made(config, device, number, active, false, c, steps),
        !text::begins(device, "-"@),
        device.len() > 0,
        !v.open.contains_key(c.mapper_name),
    ensures
        config.disk.encryption_password matches Some(password) && opens_anew(
            v,
            steps,
            c,
            effects::Key::Passphrase(password@),
            "luks1"@,
            false,
        ),
        c.device == disk::partition_file(device, number),
        !active.contains(config.disk.luks_boot_mapper_name@) ==> c.mapper_name
            == config.disk.luks_boot_mapper_name@,
{
    lemma_partition_has_no_dash(device, number);
    let password = config.disk.encryption_password->0@;
    let f = format_v1_call(c.device, password);
    let o = open_call(c.device, c.mapper_name, password);
    lemma_dashes(c.device);
    lemma_cryptsetup_words();
    lemma_no_integrity(c.device);
    lemma_format(v, f, "luks1"@, false);
    lemma_two_calls(v, f, o);
    assert(steps =~= seq![Act::Cryptsetup(f), Act::Cryptsetup(o)]);
}

/// One container, such as that of a thin pool, is made on its device and opened at once.
pub proof fn single_container_is_open(
    device: Text,
    password: Text,
    canonical_mapper: Text,
    volume_name: Text,
    integrity: bool,
    active: Seq<Text>,
    c: Container,
    steps: Seq<Act>,
    v: effects::Vaults,
)
    requires
        single_made(
            device,
            password,
            canonical_mapper,
            volume_name,
            integrity,
            active,
            false,
            c,
            steps,
        ),
        !text::begins(device, "-"@),
        !v.open.contains_key(c.mapper_name),
    ensures
        opens_anew(v, steps, c, effects::Key::Passphrase(password), "luks2"@, integrity),
        c.device == device,
        c.volume_name == volume_name,
        !active.contains(canonical_mapper) ==> c.mapper_name == canonical_mapper,
{
    lemma_created(v, device, c.mapper_name, password, integrity, volume_name);
}

/// What a credential hands over.
pub open spec fn key_in(credential: Credential) -> effects::Key {
    match credential {
        Credential::Keyfile(path) => effects::Key::File(path@),
        Credential::Passphrase(p) => effects::Key::Passphrase(p@),
    }
}

proof fn lemma_credential(args: Seq<Text>, credential: Credential, call: CryptsetupCall)
    requires
        args.len() >= 1,
        args[0] == "open"@,
        call.args == credential.key_args() + args,
        call.secret == credential.secret(),
    ensures
        effects::key_of(call) == Some(key_in(credential)),
        effects::request_of(call) == args,
{
    lemma_cryptsetup_words();
    match credential {
        Credential::Keyfile(path) => {
            assert(call.args[0] == "--key-file"@);
            assert(call.args[1] == path@);
            assert(call.args.skip(2) =~= args);
        },
        Credential::Passphrase(p) => {
            assert(call.args =~= args);
        },
    }
}

/// A container that is there already is opened by its credential and nothing of it
/// changes; where the credential does not fit, the step fails.
pub proof fn kept_container_is_opened(
    v: effects::Vaults,
    device: Text,
    mapper: Text,
    credential: Credential,
)
    requires
        !text::begins(device, "-"@),
        !v.open.contains_key(mapper),
    ensures
        effects::fits(v, device, Some(key_in(credential))) ==> effects::vaults(
            v,
            adopt_steps(device, mapper, credential, false),
        ) == Some(effects::Vaults { open: v.open.insert(mapper, device), ..v }),
        !effects::fits(v, device, Some(key_in(credential))) ==> effects::vaults(
            v,
            adopt_steps(device, mapper, credential, false),
        ) is None,
{
    lemma_dashes(device);
    lemma_cryptsetup_words();
    let call = credential_call(
        seq!["open"@, device, mapper],
        credential,
        "cryptsetup open"@,
        "Failed to open LUKS container: "@,
        true,
    );
    lemma_credential(seq!["open"@, device, mapper], credential, call);
    let s = adopt_steps(device, mapper, credential, false);
    assert(s.drop_last() =~= seq![]);
    reveal_with_fuel(effects::vaults, 2);
}

/// A credential is tried without effect: the trial succeeds if and only if it fits.
pub proof fn trial_tells_whether_it_fits(v: effects::Vaults, device: Text, credential: Credential)
    ensures
        effects::vaults(v, seq![Act::Cryptsetup(test_call(device, credential))])
            == if effects::fits(v, device, Some(key_in(credential))) {
            Some(v)
        } else {
            None
        },
{
    lemma_cryptsetup_words();
    let call = test_call(device, credential);
    lemma_credential(seq!["open"@, "--test-passphrase"@, device], credential, call);
    let s = seq![Act::Cryptsetup(call)];
    assert(s.drop_last() =~= seq![]);
    reveal_with_fuel(effects::vaults, 2);
}

/// What is known of the containers on some partitions once the steps for the first `n` are
/// done: each is open under its name on its own partition; one that was made anew opens
/// with the password, and the one that was kept is as it was.
pub open spec fn volumes_open(
    v: effects::Vaults,
    w: effects::Vaults,
    device: Text,
    parts: Seq<LuksPartition>,
    active: Seq<Text>,
    adopt: Option<AdoptSpec>,
    password: Text,
    integrity: bool,
    n: int,
) -> bool {
    &&& forall|i: int|
        0 <= i < n ==> {
            let c = #[trigger] volume_container(device, parts, active, false, i);
            &&& w.open.contains_pair(c.mapper_name, c.device)
            &&& c.device == disk::partition_file(device, parts[i].number as int)
            &&& c.mapped_path == "/dev/mapper/"@ + c.mapper_name
            &&& if adopt is Some && adopt->0.names(c.volume_name) {
                w.made[c.device] == v.made[c.device]
            } else {
                w.made.contains_pair(
                    c.device,
                    effects::Vault {
                        version: "luks2"@,
                        checked: integrity,
                        keys: set![effects::Key::Passphrase(password)],
                    },
                )
            }
        }
    &&& forall|name: Text|
        v.open.contains_key(name) ==> #[trigger] w.open.contains_key(name) && w.open[name]
            == v.open[name]
    &&& forall|name: Text|
        #[trigger] w.open.contains_key(name) ==> active_after(parts, active, false, n).contains(
            name,
        )
    &&& forall|d: Text|
        v.made.contains_key(d) && (forall|i: int|
            0 <= i < n ==> d != disk::partition_file(device, (#[trigger] parts[i]).number as int))
            ==> #[trigger] w.made.contains_pair(d, v.made[d])
}

/// After the steps for many volumes every one of them is open on its own partition. The
/// names have to be free, the partitions different, and the credential of the volume to
/// keep has to fit.
pub proof fn every_volume_is_open(
    v: effects::Vaults,
    device: Text,
    parts: Seq<LuksPartition>,
    active: Seq<Text>,
    adopt: Option<AdoptSpec>,
    password: Text,
    integrity: bool,
    n: int,
)
    requires
        0 <= n <= parts.len(),
        device.len() > 0,
        !text::begins(device, "-"@),
        forall|name: Text| #[trigger] v.open.contains_key(name) ==> active.contains(name),
        forall|i: int|
            0 <= i < parts.len() ==> !active_after(parts, active, false, i).contains(
                #[trigger] volume_mapper(parts, active, false, i),
            ),
        forall|i: int, j: int|
            0 <= i < j < parts.len() ==> disk::partition_file(
                device,
                (#[trigger] parts[i]).number as int,
            ) != disk::partition_file(device, (#[trigger] parts[j]).number as int),
        forall|i: int|
            0 <= i < parts.len() && adopt is Some && adopt->0.names(
                title_case((#[trigger] parts[i]).name@),
            ) ==> effects::fits(
                v,
                disk::partition_file(device, parts[i].number as int),
                Some(key_in(adopt->0.credential)),
            ),
    ensures
        effects::vaults(
            v,
            volumes_steps(device, parts, active, adopt, password, integrity, false, n),
        ) matches Some(w) && volumes_open(
            v,
            w,
            device,
            parts,
            active,
            adopt,
            password,
            integrity,
            n,
        ),
    decreases n,
{
    if n > 0 {
        every_volume_is_open(v, device, parts, active, adopt, password, integrity, n - 1);
        let some = volumes_steps(device, parts, active, adopt, password, integrity, false, n - 1);
        let more = volume_steps(device, parts, active, adopt, password, integrity, false, n - 1);
        let m = effects::vaults(v, some)->0;
        effects::lemma_vaults_sum(v, some, more);
        let c = volume_container(device, parts, active, false, n - 1);
        let number = parts[n - 1].number as int;
        lemma_partition_has_no_dash(device, number);
        let names = active_after(parts, active, false, n - 1);
        assert(c.mapper_name == volume_mapper(parts, active, false, n - 1));
        assert(!names.contains(c.mapper_name));
        assert(!m.open.contains_key(c.mapper_name));
        let after = active_after(parts, active, false, n);
        assert(after == names.push(c.mapper_name));
        assert(after[names.len() as int] == c.mapper_name);
        assert forall|name: Text| names.contains(name) implies #[trigger] after.contains(name) by {
            let k = choose|k: int| 0 <= k < names.len() && names[k] == name;
            assert(after[k] == name);
        }
        let kept = adopt is Some && adopt->0.names(c.volume_name);
        if kept {
            assert(effects::fits(v, c.device, Some(key_in(adopt->0.credential))));
            assert(m.made.contains_pair(c.device, v.made[c.device]));
            kept_container_is_opened(m, c.device, c.mapper_name, adopt->0.credential);
        } else {
            lemma_created(m, c.device, c.mapper_name, password, integrity, c.volume_name);
        }
        let w = effects::vaults(v, some + more)->0;
        assert(w.open == m.open.insert(c.mapper_name, c.device));
        assert forall|i: int| 0 <= i < n implies {
            let d = #[trigger] volume_container(device, parts, active, false, i);
            &&& w.open.contains_pair(d.mapper_name, d.device)
            &&& d.device == disk::partition_file(device, parts[i].number as int)
            &&& d.mapped_path == "/dev/mapper/"@ + d.mapper_name
            &&& if adopt is Some && adopt->0.names(d.volume_name) {
                w.made[d.device] == v.made[d.device]
            } else {
                w.made.contains_pair(
                    d.device,
                    effects::Vault {
                        version: "luks2"@,
                        checked: integrity,
                        keys: set![effects::Key::Passphrase(password)],
                    },
                )
            }
        } by {
            let d = volume_container(device, parts, active, false, i);
            if i < n - 1 {
                assert(d.device != c.device) by {
                    assert(parts[i].number == parts[i].number && parts[n - 1].number == parts[n
                        - 1].number);
                }
                assert(m.open.contains_pair(d.mapper_name, d.device));
                assert(d.mapper_name != c.mapper_name);
            }
        }
        assert forall|d: Text|
            v.made.contains_key(d) && (forall|i: int|
                0 <= i < n ==> d != disk::partition_file(
                    device,
                    (#[trigger] parts[i]).number as int,
                )) implies #[trigger] w.made.contains_pair(d, v.made[d]) by {
            assert(d != disk::partition_file(device, parts[n - 1].number as int));
            assert(m.made.contains_pair(d, v.made[d]));
        }
    }
}

/// Closing takes an open container away, and that one only.
pub proof fn closing_undoes_opening(v: effects::Vaults, mapper: Text)
    requires
        v.open.contains_key(mapper),
    ensures
        effects::vaults(v, close_steps(mapper, false)) == Some(
            effects::Vaults { open: v.open.remove(mapper), ..v },
        ),
{
    let s = close_steps(mapper, false);
    assert(s.drop_last() =~= seq![]);
    reveal_with_fuel(effects::vaults, 2);
}

/// All containers are closed, the one that was opened last first, and all others stay open.
pub proof fn all_are_closed(v: effects::Vaults, containers: Seq<LuksContainer>, n: int)
    requires
        0 <= n <= containers.len(),
        forall|i: int|
            n <= i < containers.len() ==> v.open.contains_key(
                (#[trigger] containers[i]).mapper_name@,
            ),
        forall|i: int, j: int|
            0 <= i < j < containers.len() ==> (#[trigger] containers[i]).mapper_name@ != (
            #[trigger] containers[j]).mapper_name@,
    ensures
        effects::vaults(v, close_all_steps(containers, false, n)) matches Some(w) && w.made
            == v.made && forall|name: Text|
            #![trigger w.open.contains_key(name)]
            w.open.contains_key(name) <==> v.open.contains_key(name) && forall|i: int|
                n <= i < containers.len() ==> (#[trigger] containers[i]).mapper_name@ != name,
        close_all_steps(containers, false, n).len() == containers.len() - n,
        forall|k: int|
            0 <= k < containers.len() - n ==> #[trigger] close_all_steps(containers, false, n)[k]
                == (Act::Run {
                program: "cryptsetup"@,
                args: seq!["close"@, containers[containers.len() - 1 - k].mapper_name@],
            }),
    decreases containers.len() - n,
{
    if n < containers.len() {
        all_are_closed(v, containers, n + 1);
        let some = close_all_steps(containers, false, n + 1);
        let name = containers[n].mapper_name@;
        let last = close_steps(name, false);
        let m = effects::vaults(v, some)->0;
        effects::lemma_vaults_sum(v, some, last);
        assert(v.open.contains_key(name));
        assert(m.open.contains_key(name));
        closing_undoes_opening(m, name);
    }
}

/// A volume is called like its mapper name without the mark of encrypted volumes.
pub proof fn mark_is_no_part_of_the_name(volume: Text)
    requires
        !text::begins(volume, "Crypt-"@),
    ensures
        volume_of("Crypt-"@ + volume) == volume,
        volume_of(volume) == volume,
{
    reveal_strlit("Crypt-");
    let t = "Crypt-"@ + volume;
    assert(t.subrange(0, 6) =~= "Crypt-"@);
    assert(t.skip(6) =~= volume);
    reveal_with_fuel(without_prefixes, 3);
}

/// A container is made with AES in XTS mode under a key of twice 256 bits, without a
/// question; the newer version slows guessing down with argon2id, and sectors are checked
/// with a keyed hash where that was asked for.
pub proof fn containers_are_strong(device: Text, password: Text, integrity: bool)
    ensures
        forall|call: CryptsetupCall|
            call == format_call(device, password, integrity) || call == format_v1_call(
                device,
                password,
            ) ==> {
                &&& effects::has_option(#[trigger] call.args, "--cipher"@, "aes-xts-plain64"@)
                &&& effects::has_option(call.args, "--key-size"@, "512"@)
                &&& effects::has_option(call.args, "--hash"@, "sha512"@)
                &&& call.args.contains("--batch-mode"@)
                &&& call.args.last() == device
                &&& call.secret == Some(password)
            },
        effects::has_option(
            format_call(device, password, integrity).args,
            "--pbkdf"@,
            "argon2id"@,
        ),
        integrity ==> effects::has_option(
            format_call(device, password, integrity).args,
            "--integrity"@,
            "hmac-sha256"@,
        ),
{
    let a = format_call(device, password, integrity).args;
    let b = format_v1_call(device, password).args;
    assert(a[3] == "--cipher"@ && a[5] == "--key-size"@ && a[7] == "--hash"@ && a[9] == "--pbkdf"@
        && a[11] == "--batch-mode"@);
    assert(b[3] == "--cipher"@ && b[5] == "--key-size"@ && b[7] == "--hash"@ && b[9]
        == "--batch-mode"@);
    if integrity {
        assert(a[12] == "--integrity"@);
    }
}

} // verus!
