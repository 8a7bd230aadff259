//! Keyfiles that open the volumes of the target while it boots.
use vstd::prelude::*;

use crate::configure::encryption::LuksContainer;
use crate::effects;
use crate::plan;
use crate::plan::{
    cryptsetup, extend, make_dir, make_parent, run, say, set_mode, Act, Cryptsetup, CryptsetupCall,
    Quote, Step,
};
use crate::text;
use crate::text::{concat, concat3, lower, push_text, Text};

verus! {

/// Where the keyfiles lie in the target.
pub const KEYFILE_DIR: &'static str = "/etc/cryptsetup-keys.d";

/// The size of a keyfile in bytes.
pub const KEYFILE_SIZE: &'static str = "512";

/// The keyfile of a volume.
pub open spec fn keyfile_of(volume: Text) -> Text {
    KEYFILE_DIR@ + "/crypt"@ + text::lowered(volume) + ".key"@
}

pub fn keyfile_path(volume_name: &str) -> (r: String)
    ensures
        r@ == keyfile_of(volume_name@),
{
    concat(concat3(KEYFILE_DIR, "/crypt", lower(volume_name).as_str()).as_str(), ".key")
}

/// Filling a keyfile with random bytes that none but root can read.
pub open spec fn generate_steps(path: Text, dry_run: bool) -> Seq<Act> {
    if dry_run {
        seq![
            Act::Say(
                "  [dry-run] dd if=/dev/random of="@ + path + " bs="@ + KEYFILE_SIZE@
                    + " count=1 iflag=fullblock"@,
            ),
            Act::Say("  [dry-run] chmod 000 "@ + path),
        ]
    } else {
        seq![
            Act::MakeParent(path),
            Act::Run {
                program: "dd"@,
                args: seq![
                    "if=/dev/random"@,
                    "of="@ + path,
                    "bs="@ + KEYFILE_SIZE@,
                    "count=1"@,
                    "iflag=fullblock"@,
                ],
            },
            Act::SetMode { path, mode: 0 },
        ]
    }
}

pub fn generate_keyfile(path: &str, dry_run: bool) -> (r: Vec<Step>)
    ensures
        plan::acts(r@) == generate_steps(path@, dry_run),
{
    let mut steps: Vec<Step> = Vec::new();
    if dry_run {
        let line = concat3("  [dry-run] dd if=/dev/random of=", path, " bs=");
        say(
            &mut steps,
            concat3(line.as_str(), KEYFILE_SIZE, " count=1 iflag=fullblock").as_str(),
        );
        say(&mut steps, concat("  [dry-run] chmod 000 ", path).as_str());
    } else {
        make_parent(&mut steps, path);
        let mut args: Vec<String> = Vec::new();
        push_text(&mut args, "if=/dev/random");
        push_text(&mut args, concat("of=", path).as_str());
        push_text(&mut args, concat("bs=", KEYFILE_SIZE).as_str());
        push_text(&mut args, "count=1");
        push_text(&mut args, "iflag=fullblock");
        assert(args.deep_view() =~= seq![
            "if=/dev/random"@,
            "of="@ + path@,
            "bs="@ + KEYFILE_SIZE@,
            "count=1"@,
            "iflag=fullblock"@,
        ]);
        run(&mut steps, "dd", args);
        set_mode(&mut steps, path, 0);
    }
    assert(plan::acts(steps@) =~= generate_steps(path@, dry_run));
    steps
}

/// Letting a keyfile open a container that a password opens.
pub open spec fn add_key_steps(
    device: Text,
    password: Text,
    keyfile: Text,
    dry_run: bool,
) -> Seq<Act> {
    if dry_run {
        seq![Act::Say("  [dry-run] cryptsetup luksAddKey "@ + device + " "@ + keyfile)]
    } else {
        seq![
            Act::Cryptsetup(
                CryptsetupCall {
                    args: seq!["luksAddKey"@, device, keyfile],
                    secret: Some(password),
                    label: "cryptsetup luksAddKey"@,
                    complaint: "Failed to add keyfile to "@ + device,
                    quote: Quote::Nothing,
                    settles: false,
                },
            ),
        ]
    }
}

pub fn add_keyfile_to_luks(device: &str, password: &str, keyfile: &str, dry_run: bool) -> (r: Vec<
    Step,
>)
    ensures
        plan::acts(r@) == add_key_steps(device@, password@, keyfile@, dry_run),
{
    let mut steps: Vec<Step> = Vec::new();
    if dry_run {
        let line = concat3("  [dry-run] cryptsetup luksAddKey ", device, " ");
        say(&mut steps, concat(line.as_str(), keyfile).as_str());
    } else {
        let mut args: Vec<String> = Vec::new();
        push_text(&mut args, "luksAddKey");
        push_text(&mut args, device);
        push_text(&mut args, keyfile);
        assert(args.deep_view() =~= seq!["luksAddKey"@, device@, keyfile@]);
        cryptsetup(
            &mut steps,
            Cryptsetup {
                args,
                secret: Some(password.to_owned()),
                label: "cryptsetup luksAddKey".to_owned(),
                complaint: concat("Failed to add keyfile to ", device),
                quote: Quote::Nothing,
                settles: false,
            },
        );
    }
    assert(plan::acts(steps@) =~= add_key_steps(device@, password@, keyfile@, dry_run));
    steps
}

/// The keyfile of a volume, and the container it opens.
#[derive(Debug, Clone)]
pub struct VolumeKeyfile {
    pub volume_name: String,
    /// The path inside the target.
    pub keyfile_path: String,
    pub device: String,
}

/// The keyfile belongs to the container.
pub open spec fn keyfile_for(k: VolumeKeyfile, c: LuksContainer) -> bool {
    &&& k.volume_name@ == c.volume_name@
    &&& k.keyfile_path@ == keyfile_of(c.volume_name@)
    &&& k.device@ == c.device@
}

/// What is done for one container.
pub open spec fn keyfile_steps(
    c: LuksContainer,
    password: Text,
    install_root: Text,
    dry_run: bool,
) -> Seq<Act> {
    let path = install_root + keyfile_of(c.volume_name@);
    generate_steps(path, dry_run) + add_key_steps(c.device@, password, path, dry_run)
}

/// What is done for the first `n` containers, after the directory is made.
pub open spec fn keyfiles_steps(
    containers: Seq<LuksContainer>,
    password: Text,
    install_root: Text,
    dry_run: bool,
    n: int,
) -> Seq<Act>
    decreases n,
{
    if n <= 0 {
        if dry_run {
            seq![]
        } else {
            seq![
                Act::MakeDir(install_root + KEYFILE_DIR@),
                Act::SetMode { path: install_root + KEYFILE_DIR@, mode: 0o700 },
            ]
        }
    } else {
        keyfiles_steps(containers, password, install_root, dry_run, n - 1) + keyfile_steps(
            containers[n - 1],
            password,
            install_root,
            dry_run,
        )
    }
}

/// Gives each container a keyfile.
pub fn setup_keyfiles_for_volumes(
    containers: &Vec<LuksContainer>,
    password: &str,
    install_root: &str,
    dry_run: bool,
) -> (r: (Vec<VolumeKeyfile>, Vec<Step>))
    ensures
        r.0@.len() == containers@.len(),
        forall|i: int|
            0 <= i < containers@.len() ==> keyfile_for(#[trigger] r.0@[i], containers@[i]),
        plan::acts(r.1@) == keyfiles_steps(
            containers@,
            password@,
            install_root@,
            dry_run,
            containers@.len() as int,
        ),
{
    let mut keyfiles: Vec<VolumeKeyfile> = Vec::new();
    let mut steps: Vec<Step> = Vec::new();
    if !dry_run {
        let dir = concat(install_root, KEYFILE_DIR);
        make_dir(&mut steps, dir.as_str());
        set_mode(&mut steps, dir.as_str(), 0o700);
    }
    assert(plan::acts(steps@) =~= keyfiles_steps(
        containers@,
        password@,
        install_root@,
        dry_run,
        0,
    ));
    let mut i: usize = 0;
    while i < containers.len()
        invariant
            i <= containers@.len(),
            keyfiles@.len() == i,
            forall|j: int| 0 <= j < i ==> keyfile_for(#[trigger] keyfiles@[j], containers@[j]),
            plan::acts(steps@) == keyfiles_steps(
                containers@,
                password@,
                install_root@,
                dry_run,
                i as int,
            ),
        decreases containers.len() - i,
    {
        let c = &containers[i];
        let inside = keyfile_path(c.volume_name.as_str());
        let path = concat(install_root, inside.as_str());
        let mut more = generate_keyfile(path.as_str(), dry_run);
        extend(
            &mut more,
            add_keyfile_to_luks(c.device.as_str(), password, path.as_str(), dry_run),
        );
        extend(&mut steps, more);
        keyfiles.push(
            VolumeKeyfile {
                volume_name: c.volume_name.clone(),
                keyfile_path: inside,
                device: c.device.clone(),
            },
        );
        i += 1;
    }
    (keyfiles, steps)
}

/// The keyfiles that the initramfs has to hold.
pub fn get_keyfile_paths_for_initramfs(keyfiles: &Vec<VolumeKeyfile>) -> (r: Vec<String>)
    ensures
        r.deep_view() == keyfiles@.map_values(|k: VolumeKeyfile| k.keyfile_path@),
{
    let ghost all = keyfiles@.map_values(|k: VolumeKeyfile| k.keyfile_path@);
    let mut v: Vec<String> = Vec::new();
    let mut i: usize = 0;
    while i < keyfiles.len()
        invariant
            i <= keyfiles@.len(),
            all == keyfiles@.map_values(|k: VolumeKeyfile| k.keyfile_path@),
            v.deep_view() == all.take(i as int),
        decreases keyfiles.len() - i,
    {
        push_text(&mut v, keyfiles[i].keyfile_path.as_str());
        i += 1;
        assert(v.deep_view() =~= all.take(i as int));
    }
    assert(all.take(i as int) =~= all);
    v
}

// -------------------------------------------------------------------------- laws
/// A keyfile is filled from the source of random bytes before it is let into the
/// container, and closed to everyone; afterwards it opens the container as the password
/// does.
pub proof fn keyfile_opens_the_container(
    v: effects::Vaults,
    c: LuksContainer,
    password: Text,
    install_root: Text,
)
    requires
        effects::fits(v, c.device@, Some(effects::Key::Passphrase(password))),
    ensures
        ({
            let path = install_root + "/etc/cryptsetup-keys.d/crypt"@ + text::lowered(
                c.volume_name@,
            ) + ".key"@;
            let steps = keyfile_steps(c, password, install_root, false);
            let old = v.made[c.device@];
            &&& effects::vaults(v, steps) == Some(
                effects::Vaults {
                    made: v.made.insert(
                        c.device@,
                        effects::Vault {
                            keys: old.keys.insert(effects::Key::File(path)),
                            ..old
                        },
                    ),
                    ..v
                },
            )
            &&& exists|i: int, j: int, k: int|
                #![trigger steps[i], steps[j], steps[k]]
                {
                    &&& 0 <= i < j < k < steps.len()
                    &&& steps[i] matches Act::Run { program, args }
                    &&& program == "dd"@
                    &&& args.contains("if=/dev/random"@)
                    &&& args.contains("of="@ + path)
                    &&& steps[j] == (Act::SetMode { path, mode: 0 })
                    &&& steps[k] is Cryptsetup
                }
        }),
{
    let path = install_root + "/etc/cryptsetup-keys.d/crypt"@ + text::lowered(c.volume_name@)
        + ".key"@;
    reveal_strlit("/etc/cryptsetup-keys.d/crypt");
    reveal_strlit("/etc/cryptsetup-keys.d");
    reveal_strlit("/crypt");
    assert(path =~= install_root + keyfile_of(c.volume_name@));
    let steps = keyfile_steps(c, password, install_root, false);
    let a = generate_steps(path, false);
    let b = add_key_steps(c.device@, password, path, false);
    assert(steps =~= a + b);
    reveal_strlit("dd");
    reveal_strlit("cryptsetup");
    assert("dd"@.len() == 2);
    assert forall|i: int| 0 <= i < a.len() implies effects::vaults_after(v, #[trigger] a[i])
        == Some(v) by {}
    effects::lemma_vaults_same(v, a);
    effects::lemma_vaults_sum(v, a, b);
    assert(b.drop_last() =~= seq![]);
    reveal_with_fuel(effects::vaults, 2);
    reveal_strlit("luksAddKey");
    reveal_strlit("luksFormat");
    reveal_strlit("open");
    reveal_strlit("--key-file");
    assert("luksAddKey"@[4] == 'A' && "luksFormat"@[4] == 'F' && "--key-file"@[0] == '-');
    let call = b[0]->Cryptsetup_0;
    assert(effects::request_of(call) == call.args);
    let args = seq![
        "if=/dev/random"@,
        "of="@ + path,
        "bs="@ + KEYFILE_SIZE@,
        "count=1"@,
        "iflag=fullblock"@,
    ];
    assert(args[0] == "if=/dev/random"@);
    assert(args[1] == "of="@ + path);
    assert(steps[1] == a[1]);
    assert(steps[2] == a[2]);
    assert(steps[3] == b[0]);
    assert(effects::vaults(v, b) == effects::cryptsetup_after(v, call));
    assert("open"@.len() == 4 && "luksAddKey"@.len() == 10);
    assert(call.args == seq!["luksAddKey"@, c.device@, path]);
    assert(effects::key_of(call) == Some(effects::Key::Passphrase(password)));
    assert(effects::vaults(v, steps) == effects::cryptsetup_after(v, call));
    let old = v.made[c.device@];
    assert(effects::vaults(v, steps) == Some(
        effects::Vaults {
            made: v.made.insert(
                c.device@,
                effects::Vault { keys: old.keys.insert(effects::Key::File(path)), ..old },
            ),
            ..v
        },
    ));
    assert(steps[1] == (Act::Run { program: "dd"@, args }));
    assert(args.contains("if=/dev/random"@) && args.contains("of="@ + path));
    assert(steps[2] == (Act::SetMode { path, mode: 0 }));
}

/// Every container gets a keyfile of its own that opens it, beside the password; which ones
/// are open does not change.
pub proof fn every_container_has_its_keyfile(
    v: effects::Vaults,
    containers: Seq<LuksContainer>,
    password: Text,
    install_root: Text,
    n: int,
)
    requires
        0 <= n <= containers.len(),
        forall|i: int|
            0 <= i < containers.len() ==> effects::fits(
                v,
                (#[trigger] containers[i]).device@,
                Some(effects::Key::Passphrase(password)),
            ),
    ensures
        effects::vaults(
            v,
            keyfiles_steps(containers, password, install_root, false, n),
        ) matches Some(w) && {
            &&& w.open == v.open
            &&& forall|i: int|
                0 <= i < n ==> effects::fits(
                    w,
                    (#[trigger] containers[i]).device@,
                    Some(
                        effects::Key::File(
                            install_root + "/etc/cryptsetup-keys.d/crypt"@ + text::lowered(
                                containers[i].volume_name@,
                            ) + ".key"@,
                        ),
                    ),
                )
            &&& forall|d: Text, k: effects::Key|
                effects::fits(v, d, Some(k)) ==> #[trigger] effects::fits(w, d, Some(k))
        },
        n == 0 ==> keyfiles_steps(containers, password, install_root, false, n).contains(
            Act::SetMode { path: install_root + "/etc/cryptsetup-keys.d"@, mode: 0o700 },
        ),
    decreases n,
{
    if n == 0 {
        let s = keyfiles_steps(containers, password, install_root, false, 0);
        assert(s[1] == (Act::SetMode { path: install_root + "/etc/cryptsetup-keys.d"@, mode: 0o700 }));
        assert forall|i: int| 0 <= i < s.len() implies effects::vaults_after(v, #[trigger] s[i])
            == Some(v) by {}
        effects::lemma_vaults_same(v, s);
    } else {
        every_container_has_its_keyfile(v, containers, password, install_root, n - 1);
        let some = keyfiles_steps(containers, password, install_root, false, n - 1);
        let m = effects::vaults(v, some)->0;
        let c = containers[n - 1];
        let more = keyfile_steps(c, password, install_root, false);
        effects::lemma_vaults_sum(v, some, more);
        assert(effects::fits(m, c.device@, Some(effects::Key::Passphrase(password))));
        keyfile_opens_the_container(m, c, password, install_root);
        let w = effects::vaults(v, some + more)->0;
        assert forall|d: Text, k: effects::Key|
            effects::fits(v, d, Some(k)) implies #[trigger] effects::fits(w, d, Some(k)) by {
            assert(effects::fits(m, d, Some(k)));
        }
    }
}

/// The directory of the keyfiles is there and closed to all but its owner before the first
/// keyfile is made.
pub proof fn directory_is_closed_first(
    containers: Seq<LuksContainer>,
    password: Text,
    install_root: Text,
    n: int,
)
    ensures
        ({
            let steps = keyfiles_steps(containers, password, install_root, false, n);
            let dir = install_root + "/etc/cryptsetup-keys.d"@;
            &&& steps.len() >= 2
            &&& steps[0] == Act::MakeDir(dir)
            &&& steps[1] == (Act::SetMode { path: dir, mode: 0o700 })
        }),
    decreases n,
{
    if n > 0 {
        directory_is_closed_first(containers, password, install_root, n - 1);
    }
}

} // verus!
