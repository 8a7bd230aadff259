//! SecureBoot: keys, signatures and the hook that keeps kernels signed.
use vstd::prelude::*;

use crate::text;
use crate::plan;
use crate::config::model::DeploymentConfig;
use crate::config::options::SecureBootMethod;
use crate::effects;
use crate::error::{invalid, DeploytixError, Result};
use crate::plan::{
    add_step, chroot_as, copy_file, extend, make_dir, say, set_mode, try_chroot, write_file, Act,
    Step,
};
use crate::text::{concat, concat3, contains, ends_with, push_text, Text};

verus! {

/// Where sbctl keeps its keys.
pub const SBCTL_KEYS_DIR: &'static str = "/usr/share/secureboot/keys";

/// The pacman hook where sbctl signs.
pub const SBCTL_HOOK: &'static str = r#"[Trigger]
Operation = Install
Operation = Upgrade
Type = Path
Target = usr/lib/modules/*/vmlinuz
Target = boot/vmlinuz-*

[Action]
Description = Signing kernel for SecureBoot...
When = PostTransaction
Exec = /usr/bin/sbctl sign-all
Depends = sbctl
"#;

/// The pacman hook where the script signs.
pub const SIGN_KERNEL_HOOK: &'static str = r#"[Trigger]
Operation = Install
Operation = Upgrade
Type = Path
Target = usr/lib/modules/*/vmlinuz
Target = boot/vmlinuz-*

[Action]
Description = Signing kernel for SecureBoot...
When = PostTransaction
Exec = /usr/local/bin/sign-kernel
"#;

/// The script that signs kernels and GRUB.
pub const SIGN_KERNEL_SCRIPT: &'static str = r#"#!/bin/bash
# Sign kernel for SecureBoot

KEY="/etc/secureboot/keys/db.key"
CERT="/etc/secureboot/keys/db.crt"

# Fall back to MOK if db keys don't exist
if [ ! -f "$KEY" ]; then
    KEY="/etc/secureboot/MOK/MOK.key"
    CERT="/etc/secureboot/MOK/MOK.crt"
fi

if [ ! -f "$KEY" ] || [ ! -f "$CERT" ]; then
    echo "Error: SecureBoot keys not found"
    exit 1
fi

# Sign all kernels
for kernel in /boot/vmlinuz-*; do
    if [ -f "$kernel" ]; then
        echo "Signing $kernel..."
        sbsign --key "$KEY" --cert "$CERT" --output "$kernel" "$kernel"
    fi
done

# Sign GRUB if present
if [ -f /boot/efi/EFI/BOOT/BOOTX64.EFI ]; then
    echo "Signing GRUB..."
    sbsign --key "$KEY" --cert "$CERT" \
        --output /boot/efi/EFI/BOOT/BOOTX64.EFI \
        /boot/efi/EFI/BOOT/BOOTX64.EFI
fi

echo "SecureBoot signing complete"
"#;

pub const MOK_COMMAND: &'static str =
    "openssl req -new -x509 -newkey rsa:2048 -keyout /etc/secureboot/MOK/MOK.key -out /etc/secureboot/MOK/MOK.crt -nodes -days 36500 -subj '/CN=Deploytix MOK/'";

pub const MOK_DER_COMMAND: &'static str =
    "openssl x509 -in /etc/secureboot/MOK/MOK.crt -out /etc/secureboot/MOK/MOK.der -outform DER";

/// The keys that a user of own keys provides.
pub open spec fn key_files() -> Seq<Text> {
    seq!["PK.key"@, "PK.crt"@, "KEK.key"@, "KEK.crt"@, "db.key"@, "db.crt"@]
}

pub fn expected_key_files() -> (r: Vec<String>)
    ensures
        r.deep_view() == key_files(),
{
    let mut v: Vec<String> = Vec::new();
    push_text(&mut v, "PK.key");
    push_text(&mut v, "PK.crt");
    push_text(&mut v, "KEK.key");
    push_text(&mut v, "KEK.crt");
    push_text(&mut v, "db.key");
    push_text(&mut v, "db.crt");
    assert(v.deep_view() =~= key_files());
    v
}

/// The steps that let sbctl make and enroll keys; the enrolment may fail where
/// the firmware is not in setup mode.
pub open spec fn sbctl_steps(install_root: Text, dry_run: bool) -> Seq<Act> {
    if dry_run {
        seq![
            Act::Say("  [dry-run] sbctl create-keys"@),
            Act::Say("  [dry-run] sbctl enroll-keys --microsoft"@),
        ]
    } else {
        seq![
            Act::ChrootAs {
                root: install_root,
                command: "sbctl create-keys"@,
                label: "sbctl create-keys"@,
                guard: None,
            },
            Act::TryChroot { root: install_root, command: "sbctl enroll-keys --microsoft"@ },
        ]
    }
}

fn setup_sbctl(install_root: &str, dry_run: bool) -> (r: Vec<Step>)
    ensures
        plan::acts(r@) == sbctl_steps(install_root@, dry_run),
{
    let mut plan: Vec<Step> = Vec::new();
    if dry_run {
        say(&mut plan, "  [dry-run] sbctl create-keys");
        say(&mut plan, "  [dry-run] sbctl enroll-keys --microsoft");
    } else {
        chroot_as(&mut plan, install_root, "sbctl create-keys", "sbctl create-keys");
        try_chroot(&mut plan, install_root, "sbctl enroll-keys --microsoft");
    }
    assert(plan::acts(plan@) =~= sbctl_steps(install_root@, dry_run));
    plan
}

/// Copying one key; a private key is closed to everyone else.
pub open spec fn copy_key(keys_path: Text, target_dir: Text, file: Text) -> Seq<Act> {
    seq![Act::Copy { from: keys_path + "/"@ + file, to: target_dir + "/"@ + file }] + if text::ends(
        file,
        ".key"@,
    ) {
        seq![Act::SetMode { path: target_dir + "/"@ + file, mode: 0o600 }]
    } else {
        seq![]
    }
}

/// Copying the keys one after the other.
pub open spec fn copy_keys(keys_path: Text, target_dir: Text, files: Seq<Text>) -> Seq<Act>
    decreases files.len(),
{
    if files.len() == 0 {
        seq![]
    } else {
        copy_keys(keys_path, target_dir, files.drop_last()) + copy_key(
            keys_path,
            target_dir,
            files.last(),
        )
    }
}

pub open spec fn manual_steps(keys_path: Text, install_root: Text, dry_run: bool) -> Seq<Act> {
    if dry_run {
        seq![
            Act::Say(
                "  [dry-run] Would copy keys from "@ + keys_path + " to "@ + install_root,
            ),
        ]
    } else {
        let dir = install_root + "/etc/secureboot/keys"@;
        seq![Act::MakeDir(dir)] + copy_keys(keys_path, dir, key_files())
    }
}

/// The first key that is not there, in a run that would copy them.
pub open spec fn missing_key(present: Seq<bool>, dry_run: bool) -> Option<Text> {
    let i = crate::index::first(6, |i: int| !present[i]);
    if dry_run || i == 6 {
        None
    } else {
        Some(key_files()[i])
    }
}

fn setup_manual_keys(
    keys_path: &str,
    install_root: &str,
    present: &Vec<bool>,
    dry_run: bool,
) -> (r: Result<Vec<Step>>)
    requires
        present@.len() == 6,
    ensures
        match r {
            Ok(p) => missing_key(present@, dry_run) is None && plan::acts(p@) == manual_steps(
                keys_path@,
                install_root@,
                dry_run,
            ),
            Err(e) => missing_key(present@, dry_run) matches Some(f) && e.says(
                "Missing SecureBoot key file: "@ + (keys_path@ + "/"@ + f),
            ),
        },
{
    let mut plan: Vec<Step> = Vec::new();
    if dry_run {
        let mut line = concat("  [dry-run] Would copy keys from ", keys_path);
        line.push_str(" to ");
        line.push_str(install_root);
        say(&mut plan, line.as_str());
        assert(plan::acts(plan@) =~= manual_steps(keys_path@, install_root@, dry_run));
        return Ok(plan);
    }
    let files = expected_key_files();
    assert(files.deep_view().len() == 6);
    let ghost d = key_files();
    let ghost g = |i: int| !present@[i];
    let mut i: usize = 0;
    while i < 6
        invariant
            i <= 6,
            present@.len() == 6,
            files.deep_view() == d,
            d == key_files(),
            files@.len() == 6,
            !dry_run,
            g == (|i: int| !present@[i]),
            forall|j: int| 0 <= j < i ==> !#[trigger] g(j),
        decreases 6 - i,
    {
        if !present[i] {
            proof {
                crate::index::lemma_first_is(6, g, i as int);
                assert(files@[i as int]@ == d[i as int]);
            }
            let path = concat3(keys_path, "/", files[i].as_str());
            return Err(
                DeploytixError::ValidationError(
                    concat("Missing SecureBoot key file: ", path.as_str()),
                ),
            );
        }
        i += 1;
    }
    proof {
        crate::index::lemma_first_is(6, g, 6);
    }
    let target_dir = concat(install_root, "/etc/secureboot/keys");
    make_dir(&mut plan, target_dir.as_str());
    let ghost head = plan::acts(plan@);
    assert(head =~= seq![Act::MakeDir(target_dir@)]);
    assert(d.take(0) =~= seq![]);
    assert(plan::acts(plan@) =~= head + copy_keys(keys_path@, target_dir@, d.take(0)));
    i = 0;
    while i < files.len()
        invariant
            i <= files@.len(),
            files.deep_view() == d,
            plan::acts(plan@) == head + copy_keys(keys_path@, target_dir@, d.take(i as int)),
        decreases files.len() - i,
    {
        let ghost before = plan::acts(plan@);
        let file = files[i].as_str();
        proof {
            assert(d.take(i + 1).drop_last() =~= d.take(i as int));
            assert(d.take(i + 1).last() == file@);
        }
        let dst = concat3(target_dir.as_str(), "/", file);
        copy_file(&mut plan, concat3(keys_path, "/", file).as_str(), dst.as_str());
        if ends_with(file, ".key") {
            set_mode(&mut plan, dst.as_str(), 0o600);
        }
        assert(plan::acts(plan@) =~= before + copy_key(keys_path@, target_dir@, file@));
        assert(plan::acts(plan@) =~= head + copy_keys(keys_path@, target_dir@, d.take(i + 1)));
        i += 1;
    }
    assert(d.take(i as int) =~= d);
    Ok(plan)
}

/// The steps that make a machine owner key.
pub open spec fn shim_steps(install_root: Text, dry_run: bool) -> Seq<Act> {
    if dry_run {
        seq![Act::Say("  [dry-run] Would install shim-signed and configure MOK"@)]
    } else {
        seq![
            Act::MakeDir(install_root + "/etc/secureboot/MOK"@),
            Act::ChrootAs {
                root: install_root,
                command: MOK_COMMAND@,
                label: "openssl (MOK generation)"@,
                guard: None,
            },
            Act::ChrootAs {
                root: install_root,
                command: MOK_DER_COMMAND@,
                label: "openssl (DER conversion)"@,
                guard: None,
            },
            Act::SetMode { path: install_root + "/etc/secureboot/MOK"@ + "/MOK.key"@, mode: 0o600 },
        ]
    }
}

fn setup_shim(install_root: &str, dry_run: bool) -> (r: Vec<Step>)
    ensures
        plan::acts(r@) == shim_steps(install_root@, dry_run),
{
    let mut plan: Vec<Step> = Vec::new();
    if dry_run {
        say(&mut plan, "  [dry-run] Would install shim-signed and configure MOK");
    } else {
        let dir = concat(install_root, "/etc/secureboot/MOK");
        make_dir(&mut plan, dir.as_str());
        chroot_as(&mut plan, install_root, MOK_COMMAND, "openssl (MOK generation)");
        chroot_as(&mut plan, install_root, MOK_DER_COMMAND, "openssl (DER conversion)");
        set_mode(&mut plan, concat(dir.as_str(), "/MOK.key").as_str(), 0o600);
    }
    assert(plan::acts(plan@) =~= shim_steps(install_root@, dry_run));
    plan
}

/// The steps that write the pacman hook; where the script signs, it comes first.
pub open spec fn signing_hook_steps(
    method: SecureBootMethod,
    install_root: Text,
    dry_run: bool,
) -> Seq<Act> {
    let dir = install_root + "/etc/pacman.d/hooks"@;
    if dry_run {
        seq![Act::Say("  [dry-run] Would create /etc/pacman.d/hooks/99-secureboot.hook"@)]
    } else if method == SecureBootMethod::Sbctl {
        seq![
            Act::MakeDir(dir),
            Act::Write { path: dir + "/99-secureboot.hook"@, content: SBCTL_HOOK@, mode: None },
        ]
    } else {
        seq![
            Act::MakeDir(dir),
            Act::MakeDir(install_root + "/usr/local/bin"@),
            Act::Write {
                path: install_root + "/usr/local/bin/sign-kernel"@,
                content: SIGN_KERNEL_SCRIPT@,
                mode: Some(0o755),
            },
            Act::Write {
                path: dir + "/99-secureboot.hook"@,
                content: SIGN_KERNEL_HOOK@,
                mode: None,
            },
        ]
    }
}

fn create_signing_hook(config: &DeploymentConfig, install_root: &str, dry_run: bool) -> (r: Vec<
    Step,
>)
    ensures
        plan::acts(r@) == signing_hook_steps(config.system.secureboot_method, install_root@, dry_run),
{
    let mut plan: Vec<Step> = Vec::new();
    if dry_run {
        say(&mut plan, "  [dry-run] Would create /etc/pacman.d/hooks/99-secureboot.hook");
    } else {
        let dir = concat(install_root, "/etc/pacman.d/hooks");
        make_dir(&mut plan, dir.as_str());
        let path = concat(dir.as_str(), "/99-secureboot.hook");
        if config.system.secureboot_method == SecureBootMethod::Sbctl {
            write_file(&mut plan, path.as_str(), SBCTL_HOOK, None);
        } else {
            make_dir(&mut plan, concat(install_root, "/usr/local/bin").as_str());
            write_file(
                &mut plan,
                concat(install_root, "/usr/local/bin/sign-kernel").as_str(),
                SIGN_KERNEL_SCRIPT,
                Some(0o755),
            );
            write_file(&mut plan, path.as_str(), SIGN_KERNEL_HOOK, None);
        }
    }
    assert(plan::acts(plan@) =~= signing_hook_steps(
        config.system.secureboot_method,
        install_root@,
        dry_run,
    ));
    plan
}

/// What keeps SecureBoot from being set up.
pub open spec fn secureboot_problem(
    config: DeploymentConfig,
    keys_present: Seq<bool>,
    dry_run: bool,
) -> Option<Text> {
    if !config.system.secureboot || config.system.secureboot_method != SecureBootMethod::ManualKeys {
        None
    } else {
        match config.system.secureboot_keys_path {
            None => Some("SecureBoot keys path required for ManualKeys method"@),
            Some(path) => match missing_key(keys_present, dry_run) {
                Some(f) => Some("Missing SecureBoot key file: "@ + (path@ + "/"@ + f)),
                None => None,
            },
        }
    }
}

/// The steps that set SecureBoot up: the keys of the method, then the hook.
pub open spec fn secureboot_steps(
    config: DeploymentConfig,
    install_root: Text,
    dry_run: bool,
) -> Seq<Act> {
    if !config.system.secureboot {
        seq![]
    } else {
        (match config.system.secureboot_method {
            SecureBootMethod::Sbctl => sbctl_steps(install_root, dry_run),
            SecureBootMethod::ManualKeys => manual_steps(
                config.system.secureboot_keys_path->0@,
                install_root,
                dry_run,
            ),
            SecureBootMethod::Shim => shim_steps(install_root, dry_run),
        }) + signing_hook_steps(config.system.secureboot_method, install_root, dry_run)
    }
}

/// Sets SecureBoot up; `keys_present` tells which of the expected keys are there.
pub fn setup_secureboot(
    config: &DeploymentConfig,
    install_root: &str,
    keys_present: &Vec<bool>,
    dry_run: bool,
) -> (r: Result<Vec<Step>>)
    requires
        keys_present@.len() == 6,
    ensures
        match r {
            Ok(p) => secureboot_problem(*config, keys_present@, dry_run) is None && plan::acts(p@)
                == secureboot_steps(*config, install_root@, dry_run),
            Err(e) => secureboot_problem(*config, keys_present@, dry_run) matches Some(t)
                && e.says(t),
        },
{
    if !config.system.secureboot {
        let none: Vec<Step> = Vec::new();
        assert(plan::acts(none@) =~= seq![]);
        return Ok(none);
    }
    let mut plan = match config.system.secureboot_method {
        SecureBootMethod::Sbctl => setup_sbctl(install_root, dry_run),
        SecureBootMethod::ManualKeys => match &config.system.secureboot_keys_path {
            None => {
                return Err(invalid("SecureBoot keys path required for ManualKeys method"));
            },
            Some(path) => match setup_manual_keys(
                path.as_str(),
                install_root,
                keys_present,
                dry_run,
            ) {
                Ok(p) => p,
                Err(e) => {
                    return Err(e);
                },
            },
        },
        SecureBootMethod::Shim => setup_shim(install_root, dry_run),
    };
    extend(&mut plan, create_signing_hook(config, install_root, dry_run));
    Ok(plan)
}

/// The key and the certificate that sign.
pub open spec fn signing_keys(method: SecureBootMethod, install_root: Text) -> (Text, Text) {
    match method {
        SecureBootMethod::Sbctl => (
            install_root + SBCTL_KEYS_DIR@ + "/db/db.key"@,
            install_root + SBCTL_KEYS_DIR@ + "/db/db.pem"@,
        ),
        SecureBootMethod::ManualKeys => (
            install_root + "/etc/secureboot/keys/db.key"@,
            install_root + "/etc/secureboot/keys/db.crt"@,
        ),
        SecureBootMethod::Shim => (
            install_root + "/etc/secureboot/MOK/MOK.key"@,
            install_root + "/etc/secureboot/MOK/MOK.crt"@,
        ),
    }
}

pub fn get_signing_key_paths(config: &DeploymentConfig, install_root: &str) -> (r: (String, String))
    ensures
        (r.0@, r.1@) == signing_keys(config.system.secureboot_method, install_root@),
{
    match config.system.secureboot_method {
        SecureBootMethod::Sbctl => (
            concat3(install_root, SBCTL_KEYS_DIR, "/db/db.key"),
            concat3(install_root, SBCTL_KEYS_DIR, "/db/db.pem"),
        ),
        SecureBootMethod::ManualKeys => (
            concat(install_root, "/etc/secureboot/keys/db.key"),
            concat(install_root, "/etc/secureboot/keys/db.crt"),
        ),
        SecureBootMethod::Shim => (
            concat(install_root, "/etc/secureboot/MOK/MOK.key"),
            concat(install_root, "/etc/secureboot/MOK/MOK.crt"),
        ),
    }
}

/// The arguments with which sbsign signs a file in place.
pub open spec fn sbsign_args(keys: (Text, Text), file: Text) -> Seq<Text> {
    seq!["--key"@, keys.0, "--cert"@, keys.1, "--output"@, file, file]
}

/// Signing one EFI binary, where `guard` is there.
pub open spec fn sign_steps(
    config: DeploymentConfig,
    binary_path: Text,
    install_root: Text,
    guard: Option<Text>,
    dry_run: bool,
) -> Seq<Act> {
    let line = "  [dry-run] Would sign "@ + binary_path;
    if !config.system.secureboot {
        seq![]
    } else if dry_run {
        match guard {
            Some(g) => seq![Act::SayIf { guard: g, line }],
            None => seq![Act::Say(line)],
        }
    } else if config.system.secureboot_method == SecureBootMethod::Sbctl {
        seq![
            Act::ChrootAs {
                root: install_root,
                command: "sbctl sign -s "@ + binary_path,
                label: "sbctl sign "@ + binary_path,
                guard,
            },
        ]
    } else {
        seq![
            Act::RunAs {
                program: "sbsign"@,
                args: sbsign_args(
                    signing_keys(config.system.secureboot_method, install_root),
                    install_root + binary_path,
                ),
                label: "sbsign "@ + binary_path,
                guard,
            },
        ]
    }
}

fn sign_guarded(
    config: &DeploymentConfig,
    binary_path: &str,
    install_root: &str,
    guard: Option<String>,
    dry_run: bool,
) -> (r: Vec<Step>)
    ensures
        plan::acts(r@) == sign_steps(
            *config,
            binary_path@,
            install_root@,
            crate::plan::seen(guard),
            dry_run,
        ),
{
    let ghost g = crate::plan::seen(guard);
    let mut plan: Vec<Step> = Vec::new();
    if !config.system.secureboot {
        assert(plan::acts(plan@) =~= seq![]);
        return plan;
    }
    if dry_run {
        let line = concat("  [dry-run] Would sign ", binary_path);
        match guard {
            Some(path) => add_step(&mut plan, Step::SayIf { guard: path, line }),
            None => add_step(&mut plan, Step::Say(line)),
        }
    } else if config.system.secureboot_method == SecureBootMethod::Sbctl {
        add_step(
            &mut plan,
            Step::ChrootAs {
                root: install_root.to_owned(),
                command: concat("sbctl sign -s ", binary_path),
                label: concat("sbctl sign ", binary_path),
                guard,
            },
        );
    } else {
        let (key, cert) = get_signing_key_paths(config, install_root);
        let full_path = concat(install_root, binary_path);
        let mut args: Vec<String> = Vec::new();
        push_text(&mut args, "--key");
        push_text(&mut args, key.as_str());
        push_text(&mut args, "--cert");
        push_text(&mut args, cert.as_str());
        push_text(&mut args, "--output");
        push_text(&mut args, full_path.as_str());
        push_text(&mut args, full_path.as_str());
        assert(args.deep_view() =~= sbsign_args((key@, cert@), full_path@));
        add_step(
            &mut plan,
            Step::RunAs {
                program: "sbsign".to_owned(),
                args,
                label: concat("sbsign ", binary_path),
                guard,
            },
        );
    }
    assert(plan::acts(plan@) =~= sign_steps(*config, binary_path@, install_root@, g, dry_run));
    plan
}

/// Signs an EFI binary.
pub fn sign_efi_binary(
    config: &DeploymentConfig,
    binary_path: &str,
    install_root: &str,
    dry_run: bool,
) -> (r: Vec<Step>)
    ensures
        plan::acts(r@) == sign_steps(*config, binary_path@, install_root@, None, dry_run),
{
    sign_guarded(config, binary_path, install_root, None, dry_run)
}

/// Signing GRUB and the kernel, each where it is there; sbctl then signs what
/// was missed, and may fail.
pub open spec fn sign_boot_steps(
    config: DeploymentConfig,
    install_root: Text,
    dry_run: bool,
) -> Seq<Act> {
    if !config.system.secureboot {
        seq![]
    } else {
        sign_steps(
            config,
            "/boot/efi/EFI/BOOT/BOOTX64.EFI"@,
            install_root,
            Some(install_root + "/boot/efi/EFI/BOOT/BOOTX64.EFI"@),
            dry_run,
        ) + sign_steps(
            config,
            "/boot/vmlinuz-linux-zen"@,
            install_root,
            Some(install_root + "/boot/vmlinuz-linux-zen"@),
            dry_run,
        ) + if config.system.secureboot_method == SecureBootMethod::Sbctl {
            seq![Act::TryChroot { root: install_root, command: "sbctl sign-all"@ }]
        } else {
            seq![]
        }
    }
}

pub fn sign_boot_files(config: &DeploymentConfig, install_root: &str, dry_run: bool) -> (r: Vec<
    Step,
>)
    ensures
        plan::acts(r@) == sign_boot_steps(*config, install_root@, dry_run),
{
    let mut plan: Vec<Step> = Vec::new();
    if !config.system.secureboot {
        assert(plan::acts(plan@) =~= seq![]);
        return plan;
    }
    let grub = "/boot/efi/EFI/BOOT/BOOTX64.EFI";
    let kernel = "/boot/vmlinuz-linux-zen";
    let ghost empty = plan::acts(plan@);
    extend(
        &mut plan,
        sign_guarded(config, grub, install_root, Some(concat(install_root, grub)), dry_run),
    );
    extend(
        &mut plan,
        sign_guarded(config, kernel, install_root, Some(concat(install_root, kernel)), dry_run),
    );
    if config.system.secureboot_method == SecureBootMethod::Sbctl {
        try_chroot(&mut plan, install_root, "sbctl sign-all");
    }
    assert(plan::acts(plan@) =~= sign_boot_steps(*config, install_root@, dry_run));
    plan
}

/// What the user is told about enrolling the keys.
pub open spec fn enrollment_lines(config: DeploymentConfig) -> Seq<Text> {
    if !config.system.secureboot {
        seq![]
    } else {
        seq![
            "\n\u{1f4cb} SecureBoot Enrollment Instructions:"@,
            "======================================"@,
        ] + (match config.system.secureboot_method {
            SecureBootMethod::Sbctl => seq![
                "1. Reboot into UEFI firmware settings"@,
                "2. Enable 'Setup Mode' or clear existing keys"@,
                "3. Boot into the new system"@,
                "4. Run: sbctl enroll-keys --microsoft"@,
                "5. Reboot and enable SecureBoot in UEFI settings"@,
            ],
            SecureBootMethod::ManualKeys => seq![
                "1. Copy your EFI signature list files to EFI partition"@,
                "2. Reboot into UEFI firmware settings"@,
                "3. Navigate to Key Management"@,
                "4. Enroll your PK, KEK, and db keys"@,
                "5. Enable SecureBoot"@,
            ],
            SecureBootMethod::Shim => seq![
                "1. Boot into the new system"@,
                "2. Run: mokutil --import /etc/secureboot/MOK/MOK.der"@,
                "3. Enter a one-time password when prompted"@,
                "4. Reboot - MokManager will appear"@,
                "5. Select 'Enroll MOK' and enter the password"@,
                "6. SecureBoot should now work with signed kernels"@,
            ],
        }) + seq![""@]
    }
}

pub fn print_enrollment_instructions(config: &DeploymentConfig) -> (r: Vec<String>)
    ensures
        r.deep_view() == enrollment_lines(*config),
{
    let mut v: Vec<String> = Vec::new();
    if config.system.secureboot {
        push_text(&mut v, "\n\u{1f4cb} SecureBoot Enrollment Instructions:");
        push_text(&mut v, "======================================");
        match config.system.secureboot_method {
            SecureBootMethod::Sbctl => {
                push_text(&mut v, "1. Reboot into UEFI firmware settings");
                push_text(&mut v, "2. Enable 'Setup Mode' or clear existing keys");
                push_text(&mut v, "3. Boot into the new system");
                push_text(&mut v, "4. Run: sbctl enroll-keys --microsoft");
                push_text(&mut v, "5. Reboot and enable SecureBoot in UEFI settings");
            },
            SecureBootMethod::ManualKeys => {
                push_text(&mut v, "1. Copy your EFI signature list files to EFI partition");
                push_text(&mut v, "2. Reboot into UEFI firmware settings");
                push_text(&mut v, "3. Navigate to Key Management");
                push_text(&mut v, "4. Enroll your PK, KEK, and db keys");
                push_text(&mut v, "5. Enable SecureBoot");
            },
            SecureBootMethod::Shim => {
                push_text(&mut v, "1. Boot into the new system");
                push_text(&mut v, "2. Run: mokutil --import /etc/secureboot/MOK/MOK.der");
                push_text(&mut v, "3. Enter a one-time password when prompted");
                push_text(&mut v, "4. Reboot - MokManager will appear");
                push_text(&mut v, "5. Select 'Enroll MOK' and enter the password");
                push_text(&mut v, "6. SecureBoot should now work with signed kernels");
            },
        }
        push_text(&mut v, "");
    }
    assert(v.deep_view() =~= enrollment_lines(*config));
    v
}

/// Whether SecureBoot is on, by what `sbctl status` prints.
pub fn verify_secureboot_status(status: &str) -> (r: bool)
    ensures
        r == text::holds(status@, "Secure Boot: enabled"@),
{
    contains(status, "Secure Boot: enabled")
}

// -------------------------------------------------------------------------- laws
/// The step signs a boot file of the target, in place.
pub open spec fn signs(a: Act, install_root: Text, file: Text) -> bool {
    match a {
        Act::ChrootAs { root, command, .. } => root == install_root && command
            == "sbctl sign -s "@ + file,
        Act::RunAs { program, args, .. } => program == "sbsign"@ && effects::has_option(
            args,
            "--output"@,
            install_root + file,
        ) && args.last() == install_root + file && args.len() == 7,
        _ => false,
    }
}

/// The step is taken only where the file is there.
pub open spec fn waits_for(a: Act, file: Text) -> bool {
    match a {
        Act::ChrootAs { guard, .. } => guard == Some(file),
        Act::RunAs { guard, .. } => guard == Some(file),
        _ => false,
    }
}

/// What the firmware starts and what that starts are both signed, where they are there:
/// the loader on the EFI partition and the kernel. Without SecureBoot nothing is signed.
pub proof fn boot_chain_is_signed(config: DeploymentConfig, install_root: Text)
    ensures
        ({
            let steps = sign_boot_steps(config, install_root, false);
            let loader = "/boot/efi"@ + "/EFI/BOOT/BOOTX64.EFI"@;
            let kernel = "/boot/"@ + "vmlinuz-linux-zen"@;
            &&& !config.system.secureboot ==> steps.len() == 0
            &&& config.system.secureboot ==> {
                &&& exists|i: int|
                    0 <= i < steps.len() && signs(#[trigger] steps[i], install_root, loader)
                        && waits_for(steps[i], install_root + loader)
                &&& exists|i: int|
                    0 <= i < steps.len() && signs(#[trigger] steps[i], install_root, kernel)
                        && waits_for(steps[i], install_root + kernel)
            }
        }),
{
    reveal_strlit("/boot/efi");
    reveal_strlit("/EFI/BOOT/BOOTX64.EFI");
    reveal_strlit("/boot/efi/EFI/BOOT/BOOTX64.EFI");
    reveal_strlit("/boot/");
    reveal_strlit("vmlinuz-linux-zen");
    reveal_strlit("/boot/vmlinuz-linux-zen");
    let loader = "/boot/efi/EFI/BOOT/BOOTX64.EFI"@;
    let kernel = "/boot/vmlinuz-linux-zen"@;
    assert("/boot/efi"@ + "/EFI/BOOT/BOOTX64.EFI"@ =~= loader);
    assert("/boot/"@ + "vmlinuz-linux-zen"@ =~= kernel);
    if config.system.secureboot {
        let steps = sign_boot_steps(config, install_root, false);
        let keys = signing_keys(config.system.secureboot_method, install_root);
        let a = sbsign_args(keys, install_root + loader);
        let b = sbsign_args(keys, install_root + kernel);
        assert(a[4] == "--output"@ && a[5] == install_root + loader);
        assert(b[4] == "--output"@ && b[5] == install_root + kernel);
        assert(signs(steps[0], install_root, loader));
        assert(signs(steps[1], install_root, kernel));
    }
}

/// The key that signs is the one that was brought, under which its own certificate goes
/// along, and none but its owner can read it.
pub proof fn own_keys_sign(config: DeploymentConfig, file: Text, install_root: Text)
    requires
        config.system.secureboot,
        config.system.secureboot_method == SecureBootMethod::ManualKeys,
        config.system.secureboot_keys_path is Some,
    ensures
        ({
            let setup = secureboot_steps(config, install_root, false);
            let signing = sign_steps(config, file, install_root, None, false);
            let from = config.system.secureboot_keys_path->0@;
            &&& signing.len() == 1
            &&& signs(signing[0], install_root, file)
            &&& exists|key: Text, cert: Text|
                {
                    &&& #[trigger] effects::has_option(signing[0]->RunAs_args, "--key"@, key)
                    &&& #[trigger] effects::has_option(signing[0]->RunAs_args, "--cert"@, cert)
                    &&& setup.contains(Act::Copy { from: from + "/db.key"@, to: key })
                    &&& setup.contains(Act::Copy { from: from + "/db.crt"@, to: cert })
                    &&& setup.contains(Act::SetMode { path: key, mode: 0o600 })
                }
        }),
{
    let setup = secureboot_steps(config, install_root, false);
    let signing = sign_steps(config, file, install_root, None, false);
    let from = config.system.secureboot_keys_path->0@;
    let dir = install_root + "/etc/secureboot/keys"@;
    let key = install_root + "/etc/secureboot/keys/db.key"@;
    let cert = install_root + "/etc/secureboot/keys/db.crt"@;
    let args = sbsign_args((key, cert), install_root + file);
    assert(signing[0]->RunAs_args == args);
    assert(args[0] == "--key"@ && args[1] == key && args[2] == "--cert"@ && args[3] == cert
        && args[4] == "--output"@ && args[5] == install_root + file);
    assert(effects::has_option(args, "--key"@, key));
    assert(effects::has_option(args, "--cert"@, cert));
    reveal_strlit("/");
    reveal_strlit("db.key");
    reveal_strlit("db.crt");
    reveal_strlit("/db.key");
    reveal_strlit("/db.crt");
    reveal_strlit("/etc/secureboot/keys");
    reveal_strlit("/etc/secureboot/keys/db.key");
    reveal_strlit("/etc/secureboot/keys/db.crt");
    assert(from + "/"@ + "db.key"@ =~= from + "/db.key"@);
    assert(from + "/"@ + "db.crt"@ =~= from + "/db.crt"@);
    assert(dir + "/"@ + "db.key"@ =~= key);
    assert(dir + "/"@ + "db.crt"@ =~= cert);
    lemma_copied(from, dir, key_files(), 4);
    lemma_copied(from, dir, key_files(), 5);
    let manual = manual_steps(from, install_root, false);
    let hook = signing_hook_steps(config.system.secureboot_method, install_root, false);
    let copies = copy_keys(from, dir, key_files());
    reveal_strlit(".key");
    assert("db.key"@.subrange(2, 6) =~= ".key"@);
    assert(text::ends("db.key"@, ".key"@));
    lemma_in_setup(copies, hook, dir, Act::Copy { from: from + "/db.key"@, to: key });
    lemma_in_setup(copies, hook, dir, Act::Copy { from: from + "/db.crt"@, to: cert });
    lemma_in_setup(copies, hook, dir, Act::SetMode { path: key, mode: 0o600 });
    assert(setup =~= (seq![Act::MakeDir(dir)] + copies) + hook);
}

proof fn lemma_in_setup(copies: Seq<Act>, hook: Seq<Act>, dir: Text, a: Act)
    requires
        copies.contains(a),
    ensures
        ((seq![Act::MakeDir(dir)] + copies) + hook).contains(a),
{
    let i = choose|i: int| 0 <= i < copies.len() && copies[i] == a;
    assert(((seq![Act::MakeDir(dir)] + copies) + hook)[i + 1] == a);
}

proof fn lemma_copied(from: Text, dir: Text, files: Seq<Text>, k: int)
    requires
        0 <= k < files.len(),
    ensures
        copy_keys(from, dir, files).contains(
            Act::Copy { from: from + "/"@ + files[k], to: dir + "/"@ + files[k] },
        ),
        text::ends(files[k], ".key"@) ==> copy_keys(from, dir, files).contains(
            Act::SetMode { path: dir + "/"@ + files[k], mode: 0o600 },
        ),
    decreases files.len(),
{
    let init = files.drop_last();
    let some = copy_keys(from, dir, init);
    let all = copy_keys(from, dir, files);
    let copy = Act::Copy { from: from + "/"@ + files[k], to: dir + "/"@ + files[k] };
    let close = Act::SetMode { path: dir + "/"@ + files[k], mode: 0o600u32 };
    if k < init.len() {
        lemma_copied(from, dir, init, k);
        let i = choose|i: int| 0 <= i < some.len() && some[i] == copy;
        assert(all[i] == copy);
        if text::ends(files[k], ".key"@) {
            let j = choose|j: int| 0 <= j < some.len() && some[j] == close;
            assert(all[j] == close);
        }
    } else {
        assert(all[some.len() as int] == copy);
        if text::ends(files[k], ".key"@) {
            assert(all[some.len() as int + 1] == close);
        }
    }
}

/// Own keys are complete or refused: setting up goes on exactly where every one of the six
/// is there, and a key that is missing is named.
pub proof fn every_own_key_is_needed(
    config: DeploymentConfig,
    keys_present: Seq<bool>,
    k: int,
)
    requires
        config.system.secureboot,
        config.system.secureboot_method == SecureBootMethod::ManualKeys,
        config.system.secureboot_keys_path is Some,
        keys_present.len() == 6,
        0 <= k < 6,
    ensures
        (forall|i: int| 0 <= i < 6 ==> #[trigger] keys_present[i]) <==> secureboot_problem(
            config,
            keys_present,
            false,
        ) is None,
        !keys_present[k] && (forall|i: int| 0 <= i < k ==> #[trigger] keys_present[i])
            ==> secureboot_problem(config, keys_present, false) == Some(
            "Missing SecureBoot key file: "@ + (config.system.secureboot_keys_path->0@ + "/"@
                + key_files()[k]),
        ),
{
    let g = |i: int| !keys_present[i];
    crate::index::lemma_first(6, g);
    if !keys_present[k] && (forall|i: int| 0 <= i < k ==> #[trigger] keys_present[i]) {
        assert forall|j: int| 0 <= j < k implies !#[trigger] g(j) by {
            assert(keys_present[j]);
        }
        crate::index::lemma_first_is(6, g, k);
    }
    let f = crate::index::first(6, g);
    if forall|i: int| 0 <= i < 6 ==> #[trigger] keys_present[i] {
        assert forall|j: int| 0 <= j < 6 implies !#[trigger] g(j) by {
            assert(keys_present[j]);
        }
        crate::index::lemma_first_is(6, g, 6);
    }
    if f == 6 {
        assert forall|i: int| 0 <= i < 6 implies #[trigger] keys_present[i] by {
            assert(!g(i));
        }
    }
}

/// The machine owner key that signs is the one that was made, and none but its owner can
/// read it.
pub proof fn machine_owner_key_signs(config: DeploymentConfig, file: Text, install_root: Text)
    requires
        config.system.secureboot,
        config.system.secureboot_method == SecureBootMethod::Shim,
    ensures
        ({
            let setup = secureboot_steps(config, install_root, false);
            let signing = sign_steps(config, file, install_root, None, false);
            &&& signing.len() == 1
            &&& signs(signing[0], install_root, file)
            &&& exists|key: Text, cert: Text, i: int|
                {
                    &&& #[trigger] effects::has_option(
                        signing[0]->RunAs_args,
                        "--key"@,
                        install_root + key,
                    )
                    &&& #[trigger] effects::has_option(
                        signing[0]->RunAs_args,
                        "--cert"@,
                        install_root + cert,
                    )
                    &&& 0 <= i < setup.len()
                    &&& #[trigger] setup[i] matches Act::ChrootAs { root, command, guard, .. }
                        && root == install_root && guard is None && text::begins(
                        command,
                        "openssl req -new -x509 "@,
                    ) && text::holds(command, " -keyout "@ + key + " -out "@ + cert + " "@)
                    &&& setup.contains(Act::SetMode { path: install_root + key, mode: 0o600 })
                }
        }),
{
    let setup = secureboot_steps(config, install_root, false);
    let signing = sign_steps(config, file, install_root, None, false);
    let key = "/etc/secureboot/MOK/MOK.key"@;
    let cert = "/etc/secureboot/MOK/MOK.crt"@;
    let args = sbsign_args((install_root + key, install_root + cert), install_root + file);
    assert(signing[0]->RunAs_args == args);
    assert(args[0] == "--key"@ && args[1] == install_root + key && args[2] == "--cert"@ && args[3]
        == install_root + cert && args[4] == "--output"@ && args[5] == install_root + file);
    assert(effects::has_option(args, "--key"@, install_root + key));
    assert(effects::has_option(args, "--cert"@, install_root + cert));
    lemma_owner_command();
    reveal_strlit("/etc/secureboot/MOK");
    reveal_strlit("/MOK.key");
    reveal_strlit("/etc/secureboot/MOK/MOK.key");
    assert(install_root + "/etc/secureboot/MOK"@ + "/MOK.key"@ =~= install_root + key);
    assert(setup[1] is ChrootAs);
    assert(setup[3] == (Act::SetMode { path: install_root + key, mode: 0o600 }));
}

proof fn lemma_owner_command()
    ensures
        text::begins(MOK_COMMAND@, "openssl req -new -x509 "@),
        text::holds(
            MOK_COMMAND@,
            " -keyout "@ + "/etc/secureboot/MOK/MOK.key"@ + " -out "@
                + "/etc/secureboot/MOK/MOK.crt"@ + " "@,
        ),
{
    reveal_strlit(
        "openssl req -new -x509 -newkey rsa:2048 -keyout /etc/secureboot/MOK/MOK.key -out /etc/secureboot/MOK/MOK.crt -nodes -days 36500 -subj '/CN=Deploytix MOK/'",
    );
    reveal_strlit("openssl req -new -x509 ");
    reveal_strlit(" -keyout ");
    reveal_strlit("/etc/secureboot/MOK/MOK.key");
    reveal_strlit(" -out ");
    reveal_strlit("/etc/secureboot/MOK/MOK.crt");
    reveal_strlit(" ");
    let part = " -keyout "@ + "/etc/secureboot/MOK/MOK.key"@ + " -out "@
        + "/etc/secureboot/MOK/MOK.crt"@ + " "@;
    assert(MOK_COMMAND@.subrange(0, 23) =~= "openssl req -new -x509 "@);
    assert(MOK_COMMAND@.subrange(39, 39 + part.len() as int) =~= part);
    assert(text::at(MOK_COMMAND@, 39, part));
}

/// After an update of the kernel the hook that is left runs what signs: the script, which
/// can be executed, or sbctl.
pub proof fn updates_are_signed(method: SecureBootMethod, install_root: Text)
    ensures
        ({
            let steps = signing_hook_steps(method, install_root, false);
            let hook = install_root + "/etc/pacman.d/hooks/99-secureboot.hook"@;
            let script = "/usr/local/bin/sign-kernel"@;
            exists|content: Text|
                {
                    &&& #[trigger] effects::leaves(steps, hook, content)
                    &&& text::holds(content, "\nTarget = boot/vmlinuz-*\n"@)
                    &&& method == SecureBootMethod::Sbctl ==> text::holds(
                        content,
                        "\nExec = /usr/bin/sbctl sign-all\n"@,
                    )
                    &&& method != SecureBootMethod::Sbctl ==> text::ends(
                        content,
                        "\nExec = "@ + script + "\n"@,
                    ) && exists|program: Text|
                        #[trigger] effects::leaves_with(
                            steps,
                            install_root + script,
                            program,
                            0o755,
                        ) && text::begins(program, "#!/bin/bash\n"@) && text::holds(
                            program,
                            "sbsign --key \"$KEY\" --cert \"$CERT\" --output \"$kernel\" \"$kernel\"\n"@,
                        )
                }
        }),
{
    let steps = signing_hook_steps(method, install_root, false);
    let hook = install_root + "/etc/pacman.d/hooks/99-secureboot.hook"@;
    let script = install_root + "/usr/local/bin/sign-kernel"@;
    reveal_strlit("/etc/pacman.d/hooks");
    reveal_strlit("/99-secureboot.hook");
    reveal_strlit("/etc/pacman.d/hooks/99-secureboot.hook");
    reveal_strlit("/usr/local/bin/sign-kernel");
    assert(install_root + "/etc/pacman.d/hooks"@ + "/99-secureboot.hook"@ =~= hook);
    assert(hook.len() == install_root.len() + 38 && script.len() == install_root.len() + 26);
    if method == SecureBootMethod::Sbctl {
        lemma_sbctl_hook();
        assert(effects::touches(steps[1], hook));
        assert(effects::leaves(steps, hook, SBCTL_HOOK@));
    } else {
        lemma_script_hook();
        assert(effects::touches(steps[3], hook));
        assert(effects::touches(steps[2], script));
        assert(effects::leaves(steps, hook, SIGN_KERNEL_HOOK@));
        assert(effects::leaves_with(steps, script, SIGN_KERNEL_SCRIPT@, 0o755));
    }
}

proof fn lemma_sbctl_hook()
    ensures
        text::holds(SBCTL_HOOK@, "\nTarget = boot/vmlinuz-*\n"@),
        text::holds(SBCTL_HOOK@, "\nExec = /usr/bin/sbctl sign-all\n"@),
{
    reveal_strlit(r#"[Trigger]
Operation = Install
Operation = Upgrade
Type = Path
Target = usr/lib/modules/*/vmlinuz
Target = boot/vmlinuz-*

[Action]
Description = Signing kernel for SecureBoot...
When = PostTransaction
Exec = /usr/bin/sbctl sign-all
Depends = sbctl
"#);
    reveal_strlit("\nTarget = boot/vmlinuz-*\n");
    assert(SBCTL_HOOK@.subrange(96, 121) =~= "\nTarget = boot/vmlinuz-*\n"@);
    assert(text::at(SBCTL_HOOK@, 96, "\nTarget = boot/vmlinuz-*\n"@));
    reveal_strlit("\nExec = /usr/bin/sbctl sign-all\n");
    assert(SBCTL_HOOK@.subrange(200, 232) =~= "\nExec = /usr/bin/sbctl sign-all\n"@);
    assert(text::at(SBCTL_HOOK@, 200, "\nExec = /usr/bin/sbctl sign-all\n"@));
}

proof fn lemma_script_hook_text()
    ensures
        text::holds(SIGN_KERNEL_HOOK@, "\nTarget = boot/vmlinuz-*\n"@),
        text::ends(SIGN_KERNEL_HOOK@, "\nExec = /usr/local/bin/sign-kernel\n"@),
{
    reveal_strlit(r#"[Trigger]
Operation = Install
Operation = Upgrade
Type = Path
Target = usr/lib/modules/*/vmlinuz
Target = boot/vmlinuz-*

[Action]
Description = Signing kernel for SecureBoot...
When = PostTransaction
Exec = /usr/local/bin/sign-kernel
"#);
    reveal_strlit("\nTarget = boot/vmlinuz-*\n");
    assert(SIGN_KERNEL_HOOK@.subrange(96, 121) =~= "\nTarget = boot/vmlinuz-*\n"@);
    assert(text::at(SIGN_KERNEL_HOOK@, 96, "\nTarget = boot/vmlinuz-*\n"@));
    reveal_strlit("\nExec = /usr/local/bin/sign-kernel\n");
    assert(SIGN_KERNEL_HOOK@.subrange(200, 235) =~= "\nExec = /usr/local/bin/sign-kernel\n"@);
}

proof fn lemma_script_text()
    ensures
        text::begins(SIGN_KERNEL_SCRIPT@, "#!/bin/bash\n"@),
        text::holds(SIGN_KERNEL_SCRIPT@, "sbsign --key \"$KEY\" --cert \"$CERT\" --output \"$kernel\" \"$kernel\"\n"@),
{
    reveal_strlit(r#"#!/bin/bash
# Sign kernel for SecureBoot

KEY="/etc/secureboot/keys/db.key"
CERT="/etc/secureboot/keys/db.crt"

# Fall back to MOK if db keys don't exist
if [ ! -f "$KEY" ]; then
    KEY="/etc/secureboot/MOK/MOK.key"
    CERT="/etc/secureboot/MOK/MOK.crt"
fi

if [ ! -f "$KEY" ] || [ ! -f "$CERT" ]; then
    echo "Error: SecureBoot keys not found"
    exit 1
fi

# Sign all kernels
for kernel in /boot/vmlinuz-*; do
    if [ -f "$kernel" ]; then
        echo "Signing $kernel..."
        sbsign --key "$KEY" --cert "$CERT" --output "$kernel" "$kernel"
    fi
done

# Sign GRUB if present
if [ -f /boot/efi/EFI/BOOT/BOOTX64.EFI ]; then
    echo "Signing GRUB..."
    sbsign --key "$KEY" --cert "$CERT" \
        --output /boot/efi/EFI/BOOT/BOOTX64.EFI \
        /boot/efi/EFI/BOOT/BOOTX64.EFI
fi

echo "SecureBoot signing complete"
"#);
    reveal_strlit("#!/bin/bash\n");
    assert(SIGN_KERNEL_SCRIPT@.subrange(0, 12) =~= "#!/bin/bash\n"@);
    reveal_strlit("sbsign --key \"$KEY\" --cert \"$CERT\" --output \"$kernel\" \"$kernel\"\n");
    assert(SIGN_KERNEL_SCRIPT@.subrange(489, 553) =~= "sbsign --key \"$KEY\" --cert \"$CERT\" --output \"$kernel\" \"$kernel\"\n"@);
    assert(text::at(SIGN_KERNEL_SCRIPT@, 489, "sbsign --key \"$KEY\" --cert \"$CERT\" --output \"$kernel\" \"$kernel\"\n"@));
}

proof fn lemma_script_hook()
    ensures
        text::holds(SIGN_KERNEL_HOOK@, "\nTarget = boot/vmlinuz-*\n"@),
        text::ends(SIGN_KERNEL_HOOK@, "\nExec = "@ + "/usr/local/bin/sign-kernel"@ + "\n"@),
        text::begins(SIGN_KERNEL_SCRIPT@, "#!/bin/bash\n"@),
        text::holds(
            SIGN_KERNEL_SCRIPT@,
            "sbsign --key \"$KEY\" --cert \"$CERT\" --output \"$kernel\" \"$kernel\"\n"@,
        ),
{
    lemma_script_hook_text();
    lemma_script_text();
    reveal_strlit("\nExec = ");
    reveal_strlit("/usr/local/bin/sign-kernel");
    reveal_strlit("\n");
    reveal_strlit("\nExec = /usr/local/bin/sign-kernel\n");
    assert("\nExec = "@ + "/usr/local/bin/sign-kernel"@ + "\n"@
        =~= "\nExec = /usr/local/bin/sign-kernel\n"@);
}

} // verus!
