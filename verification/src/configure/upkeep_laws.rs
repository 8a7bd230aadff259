//! What keeps the target in order once it runs: GRUB after an update, the repositories, the
//! user's encrypted home and the script that mounts the volumes.
use vstd::prelude::*;

use crate::config::model::DeploymentConfig;
use crate::config::options::SecureBootMethod;
use crate::configure::boot_texts;
use crate::configure::bootloader;
use crate::configure::gocryptfs;
use crate::configure::grub_btrfs;
use crate::configure::hook_texts;
use crate::configure::hooks;
use crate::configure::pacman;
use crate::configure::recovery;
use crate::disk::{PartitionDef, StorageNames};
use crate::effects;
use crate::plan::Act;
use crate::text;
use crate::text::Text;

verus! {

// -------------------------------------------------------------------------- the loader
proof fn lemma_update_hook()
    ensures
        text::holds(boot_texts::REINSTALL_HOOK@, "\nTarget = usr/lib/modules/*/vmlinuz\nTarget = usr/lib/grub/*\n"@),
        text::ends(boot_texts::REINSTALL_HOOK@, "\nWhen = PostTransaction\nExec = /usr/local/bin/reinstall-grub\n"@),
{
    reveal_strlit(r#"[Trigger]
Operation = Install
Operation = Upgrade
Operation = Remove
Type = Path
Target = usr/lib/modules/*/vmlinuz
Target = usr/lib/grub/*

[Action]
Description = Reinstalling GRUB for encrypted boot...
When = PostTransaction
Exec = /usr/local/bin/reinstall-grub
"#);
    reveal_strlit("\nTarget = usr/lib/modules/*/vmlinuz\nTarget = usr/lib/grub/*\n");
    assert(boot_texts::REINSTALL_HOOK@.subrange(80, 140) =~= "\nTarget = usr/lib/modules/*/vmlinuz\nTarget = usr/lib/grub/*\n"@);
    assert(text::at(boot_texts::REINSTALL_HOOK@, 80, "\nTarget = usr/lib/modules/*/vmlinuz\nTarget = usr/lib/grub/*\n"@));
    reveal_strlit("\nWhen = PostTransaction\nExec = /usr/local/bin/reinstall-grub\n");
    assert(boot_texts::REINSTALL_HOOK@.subrange(203, 264) =~= "\nWhen = PostTransaction\nExec = /usr/local/bin/reinstall-grub\n"@);
}

proof fn lemma_standard()
    ensures
        text::begins(boot_texts::REINSTALL_STANDARD_1@, "#!/bin/bash\n"@),
        text::holds(boot_texts::REINSTALL_STANDARD_1@, "\ngrub-mkconfig -o /boot/grub/grub.cfg\n"@),
        text::ends(boot_texts::REINSTALL_STANDARD_1@, "\ngrub-install --target=x86_64-efi --boot-directory=/boot --efi-directory=/boot/efi --removable "@),
{
    reveal_strlit(r#"#!/bin/bash
# Reinstall GRUB after kernel or GRUB package update
# Generated by Deploytix
#
# Configuration: encrypted boot (standard grub-install)

set -e

echo "Regenerating GRUB config..."
grub-mkconfig -o /boot/grub/grub.cfg

echo "Reinstalling GRUB to EFI..."
grub-install --target=x86_64-efi --boot-directory=/boot --efi-directory=/boot/efi --removable "#);
    reveal_strlit("#!/bin/bash\n");
    assert(boot_texts::REINSTALL_STANDARD_1@.subrange(0, 12) =~= "#!/bin/bash\n"@);
    reveal_strlit("\ngrub-mkconfig -o /boot/grub/grub.cfg\n");
    assert(boot_texts::REINSTALL_STANDARD_1@.subrange(191, 229) =~= "\ngrub-mkconfig -o /boot/grub/grub.cfg\n"@);
    assert(text::at(boot_texts::REINSTALL_STANDARD_1@, 191, "\ngrub-mkconfig -o /boot/grub/grub.cfg\n"@));
    reveal_strlit("\ngrub-install --target=x86_64-efi --boot-directory=/boot --efi-directory=/boot/efi --removable ");
    assert(boot_texts::REINSTALL_STANDARD_1@.subrange(264, 359) =~= "\ngrub-install --target=x86_64-efi --boot-directory=/boot --efi-directory=/boot/efi --removable "@);
}

proof fn lemma_standalone()
    ensures
        text::begins(boot_texts::REINSTALL_STANDALONE_1@, "#!/bin/bash\n"@),
        text::holds(boot_texts::REINSTALL_STANDALONE_2@, "\ngrub-mkconfig -o /boot/grub/grub.cfg\n"@),
        text::holds(boot_texts::REINSTALL_STANDALONE_2@, "\ngrub-mkstandalone "@),
        text::holds(boot_texts::REINSTALL_STANDALONE_2@, "--output=/boot/efi/EFI/BOOT/BOOTX64.EFI "@),
{
    reveal_strlit(r#"#!/bin/bash
# Reinstall GRUB after kernel or GRUB package update
# Generated by Deploytix
#
# Configuration: encrypted boot + standalone GRUB (SecureBoot)
# The grub.cfg is embedded inside the EFI binary; a plain grub-mkconfig
# is NOT sufficient — the standalone binary must be rebuilt.

set -e

MODULES=""#);
    reveal_strlit("#!/bin/bash\n");
    assert(boot_texts::REINSTALL_STANDALONE_1@.subrange(0, 12) =~= "#!/bin/bash\n"@);
    reveal_strlit(r#""

echo "Regenerating GRUB config..."
grub-mkconfig -o /boot/grub/grub.cfg

echo "Rebuilding standalone GRUB EFI binary..."
grub-mkstandalone \
    --format=x86_64-efi \
    --output=/boot/efi/EFI/BOOT/BOOTX64.EFI \
    --disable-shim-lock \
    --modules="$MODULES" \
    "boot/grub/grub.cfg=/boot/grub/grub.cfg"
"#);
    reveal_strlit("\ngrub-mkconfig -o /boot/grub/grub.cfg\n");
    assert(boot_texts::REINSTALL_STANDALONE_2@.subrange(37, 75) =~= "\ngrub-mkconfig -o /boot/grub/grub.cfg\n"@);
    assert(text::at(boot_texts::REINSTALL_STANDALONE_2@, 37, "\ngrub-mkconfig -o /boot/grub/grub.cfg\n"@));
    reveal_strlit("\ngrub-mkstandalone ");
    assert(boot_texts::REINSTALL_STANDALONE_2@.subrange(123, 142) =~= "\ngrub-mkstandalone "@);
    assert(text::at(boot_texts::REINSTALL_STANDALONE_2@, 123, "\ngrub-mkstandalone "@));
    reveal_strlit("--output=/boot/efi/EFI/BOOT/BOOTX64.EFI ");
    assert(boot_texts::REINSTALL_STANDALONE_2@.subrange(174, 214) =~= "--output=/boot/efi/EFI/BOOT/BOOTX64.EFI "@);
    assert(text::at(boot_texts::REINSTALL_STANDALONE_2@, 174, "--output=/boot/efi/EFI/BOOT/BOOTX64.EFI "@));
}

proof fn lemma_signed_again()
    ensures
        text::holds(boot_texts::RESIGN_SBCTL@, "\n    sbctl sign-all\n"@),
        text::holds(boot_texts::RESIGN_SCRIPT@, "\n    /usr/local/bin/sign-kernel\n"@),
{
    reveal_strlit(r#"
if command -v sbctl &>/dev/null; then
    echo "Re-signing SecureBoot files..."
    sbctl sign-all
fi
"#);
    reveal_strlit("\n    sbctl sign-all\n");
    assert(boot_texts::RESIGN_SBCTL@.subrange(80, 100) =~= "\n    sbctl sign-all\n"@);
    assert(text::at(boot_texts::RESIGN_SBCTL@, 80, "\n    sbctl sign-all\n"@));
    reveal_strlit(r#"
if [ -x /usr/local/bin/sign-kernel ]; then
    echo "Re-signing SecureBoot files..."
    /usr/local/bin/sign-kernel
fi
"#);
    reveal_strlit("\n    /usr/local/bin/sign-kernel\n");
    assert(boot_texts::RESIGN_SCRIPT@.subrange(85, 117) =~= "\n    /usr/local/bin/sign-kernel\n"@);
    assert(text::at(boot_texts::RESIGN_SCRIPT@, 85, "\n    /usr/local/bin/sign-kernel\n"@));
}

/// After an update of the kernel or of GRUB a hook runs a script that is there and can be
/// executed; the script makes the menu anew and puts GRUB, by the very command that put it
/// there at first, back on the same disk, or builds the standalone GRUB anew; under SecureBoot
/// it signs again with what signed before.
pub proof fn loader_survives_updates(config: DeploymentConfig, device: Text, root: Text)
    ensures
        ({
            let steps = bootloader::reinstall_steps(config, device, root, false);
            let hook = root + "/etc/pacman.d/hooks/95-grub-reinstall.hook"@;
            let program = "/usr/local/bin/reinstall-grub"@;
            let s = config.system;
            let standalone = s.secureboot && s.secureboot_method == SecureBootMethod::Sbctl
                && config.disk.encryption;
            &&& exists|content: Text|
                #[trigger] effects::leaves(steps, hook, content) && text::holds(
                    content,
                    "\nTarget = usr/lib/modules/*/vmlinuz\nTarget = usr/lib/grub/*\n"@,
                ) && text::holds(content, "\nWhen = PostTransaction\nExec = "@ + program + "\n"@)
            &&& exists|script: Text|
                {
                    &&& #[trigger] effects::leaves_with(steps, root + program, script, 0o755)
                    &&& text::begins(script, "#!/bin/bash\n"@)
                    &&& text::holds(script, "\ngrub-mkconfig -o /boot/grub/grub.cfg\n"@)
                    &&& standalone ==> text::holds(script, "\ngrub-mkstandalone "@) && text::holds(
                        script,
                        "--output=/boot/efi/EFI/BOOT/BOOTX64.EFI "@,
                    )
                    &&& !standalone ==> text::holds(
                        script,
                        "\n"@ + boot_texts::grub_install_text(device) + "\n"@,
                    )
                    &&& s.secureboot && s.secureboot_method == SecureBootMethod::Sbctl
                        ==> text::holds(script, "\n    sbctl sign-all\n"@)
                    &&& s.secureboot && s.secureboot_method != SecureBootMethod::Sbctl
                        ==> text::holds(script, "\n    /usr/local/bin/sign-kernel\n"@)
                }
        }),
{
    let steps = bootloader::reinstall_steps(config, device, root, false);
    let hook = root + "/etc/pacman.d/hooks/95-grub-reinstall.hook"@;
    let program = root + "/usr/local/bin/reinstall-grub"@;
    reveal_strlit("/etc/pacman.d/hooks/95-grub-reinstall.hook");
    reveal_strlit("/etc/pacman.d/hooks");
    reveal_strlit("/95-grub-reinstall.hook");
    reveal_strlit("/usr/local/bin/reinstall-grub");
    assert(root + "/etc/pacman.d/hooks"@ + "/95-grub-reinstall.hook"@ =~= hook);
    assert(hook.len() == root.len() + 42 && program.len() == root.len() + 29);
    assert(effects::touches(steps[3], hook));
    assert(effects::touches(steps[2], program));
    let content = boot_texts::reinstall_hook_text(bootloader::hook_depends(config));
    let script = bootloader::reinstall_script(config, device);
    assert(effects::leaves(steps, hook, content));
    assert(effects::leaves_with(steps, program, script, 0o755));
    lemma_hook_runs(bootloader::hook_depends(config));
    let block = bootloader::resign_block(config);
    lemma_signed_again();
    if bootloader::standalone_grub(config) {
        lemma_standalone_script(boot_texts::GRUB_STANDALONE_MODULES@, block);
    } else {
        lemma_standard_script(device, block);
    }
}

proof fn lemma_hook_runs(depends: Text)
    ensures
        ({
            let content = boot_texts::reinstall_hook_text(depends);
            &&& text::holds(
                content,
                "\nTarget = usr/lib/modules/*/vmlinuz\nTarget = usr/lib/grub/*\n"@,
            )
            &&& text::holds(
                content,
                "\nWhen = PostTransaction\nExec = "@ + "/usr/local/bin/reinstall-grub"@ + "\n"@,
            )
        }),
{
    lemma_update_hook();
    let a = boot_texts::REINSTALL_HOOK@;
    let p = "\nTarget = usr/lib/modules/*/vmlinuz\nTarget = usr/lib/grub/*\n"@;
    let q = "\nWhen = PostTransaction\nExec = /usr/local/bin/reinstall-grub\n"@;
    reveal_strlit("\nWhen = PostTransaction\nExec = /usr/local/bin/reinstall-grub\n");
    reveal_strlit("\nWhen = PostTransaction\nExec = ");
    reveal_strlit("/usr/local/bin/reinstall-grub");
    reveal_strlit("\n");
    assert("\nWhen = PostTransaction\nExec = "@ + "/usr/local/bin/reinstall-grub"@ + "\n"@ =~= q);
    assert(text::holds(a, q)) by {
        assert(text::at(a, a.len() - q.len(), q));
    }
    text::lemma_sum_holds(a, depends, p);
    text::lemma_sum_holds(a, depends, q);
    text::lemma_sum_holds(a + depends, "\n"@, p);
    text::lemma_sum_holds(a + depends, "\n"@, q);
}

proof fn lemma_begins_sum(a: Text, b: Text, p: Text)
    requires
        text::begins(a, p),
    ensures
        text::begins(a + b, p),
{
    assert((a + b).subrange(0, p.len() as int) =~= a.subrange(0, p.len() as int));
}

proof fn lemma_standalone_script(modules: Text, block: Text)
    ensures
        ({
            let script = boot_texts::reinstall_standalone_text(modules, block);
            &&& text::begins(script, "#!/bin/bash\n"@)
            &&& text::holds(script, "\ngrub-mkconfig -o /boot/grub/grub.cfg\n"@)
            &&& text::holds(script, "\ngrub-mkstandalone "@)
            &&& text::holds(script, "--output=/boot/efi/EFI/BOOT/BOOTX64.EFI "@)
            &&& forall|p: Text| text::holds(block, p) ==> #[trigger] text::holds(script, p)
        }),
{
    lemma_standalone();
    let a = boot_texts::REINSTALL_STANDALONE_1@;
    let b = boot_texts::REINSTALL_STANDALONE_2@;
    let c = boot_texts::REINSTALL_STANDALONE_3@;
    let script = boot_texts::reinstall_standalone_text(modules, block);
    lemma_begins_sum(a, modules, "#!/bin/bash\n"@);
    lemma_begins_sum(a + modules, b, "#!/bin/bash\n"@);
    lemma_begins_sum(a + modules + b, block, "#!/bin/bash\n"@);
    lemma_begins_sum(a + modules + b + block, c, "#!/bin/bash\n"@);
    assert forall|p: Text| text::holds(b, p) || text::holds(block, p) implies #[trigger] text::holds(
        script,
        p,
    ) by {
        if text::holds(b, p) {
            text::lemma_sum_holds(a + modules, b, p);
        }
        text::lemma_sum_holds(a + modules + b, block, p);
        text::lemma_sum_holds(a + modules + b + block, c, p);
    }
}

proof fn lemma_standard_script(device: Text, block: Text)
    ensures
        ({
            let script = boot_texts::reinstall_standard_text(device, block);
            &&& text::begins(script, "#!/bin/bash\n"@)
            &&& text::holds(script, "\ngrub-mkconfig -o /boot/grub/grub.cfg\n"@)
            &&& text::holds(script, "\n"@ + boot_texts::grub_install_text(device) + "\n"@)
            &&& forall|p: Text| text::holds(block, p) ==> #[trigger] text::holds(script, p)
        }),
{
    lemma_standard();
    let a = boot_texts::REINSTALL_STANDARD_1@;
    let c = boot_texts::REINSTALL_STANDARD_2@;
    let n = "\n"@;
    let script = boot_texts::reinstall_standard_text(device, block);
    lemma_begins_sum(a, device, "#!/bin/bash\n"@);
    lemma_begins_sum(a + device, n, "#!/bin/bash\n"@);
    lemma_begins_sum(a + device + n, block, "#!/bin/bash\n"@);
    lemma_begins_sum(a + device + n + block, c, "#!/bin/bash\n"@);
    let menu = "\ngrub-mkconfig -o /boot/grub/grub.cfg\n"@;
    text::lemma_sum_holds(a, device, menu);
    text::lemma_sum_holds(a + device, n, menu);
    text::lemma_sum_holds(a + device + n, block, menu);
    text::lemma_sum_holds(a + device + n + block, c, menu);
    let put = n + boot_texts::grub_install_text(device) + n;
    let call = "\ngrub-install --target=x86_64-efi --boot-directory=/boot --efi-directory=/boot/efi --removable "@;
    assert(call =~= n + boot_texts::GRUB_INSTALL@) by {
        reveal_strlit("\ngrub-install --target=x86_64-efi --boot-directory=/boot --efi-directory=/boot/efi --removable ");
        reveal_strlit("grub-install --target=x86_64-efi --boot-directory=/boot --efi-directory=/boot/efi --removable ");
        reveal_strlit("\n");
    }
    let before = a.subrange(0, a.len() - call.len());
    let none = Seq::<char>::empty();
    assert(a =~= before + call) by {
        assert(a.subrange(a.len() - call.len(), a.len() as int) == call);
    }
    assert(a + device + n =~= before + put + none);
    effects::lemma_part(before, put, none);
    text::lemma_sum_holds(a + device + n, block, put);
    text::lemma_sum_holds(a + device + n + block, c, put);
    assert forall|p: Text| text::holds(block, p) implies #[trigger] text::holds(script, p) by {
        text::lemma_sum_holds(a + device + n, block, p);
        text::lemma_sum_holds(a + device + n + block, c, p);
    }
}

// ------------------------------------------------------------------------ repositories
/// Where pacman does not know of them yet, Arch's repositories are entered behind what its
/// configuration holds, both with the mirrors that the target has or else with a server, and
/// only with signatures; where it knows, its configuration is left alone. The keys are
/// trusted either way.
pub proof fn repositories_are_entered(conf: Text, mirrorlist_exists: bool, root: Text)
    ensures
        ({
            let steps = pacman::configure_arch_repos_steps(conf, mirrorlist_exists, root, false);
            let path = root + "/etc/pacman.conf"@;
            let mirror = if mirrorlist_exists {
                "Include = /etc/pacman.d/mirrorlist-arch"@
            } else {
                "Server = https://geo.mirror.pkgbuild.com/$repo/os/$arch"@
            };
            &&& recovery::names_extra(conf) ==> effects::untouched(steps, path)
            &&& !recovery::names_extra(conf) ==> exists|content: Text|
                {
                    &&& #[trigger] effects::leaves(steps, path, content)
                    &&& text::begins(content, text::trimmed_end(conf))
                    &&& text::holds(
                        content,
                        "\n[extra]\nSigLevel = PackageRequired\n"@ + mirror + "\n"@,
                    )
                    &&& text::ends(
                        content,
                        "\n[multilib]\nSigLevel = PackageRequired\n"@ + mirror + "\n"@,
                    )
                }
            &&& steps.last() == (Act::TryChroot {
                root,
                command: "pacman-key --populate archlinux"@,
            })
        }),
{
    let steps = pacman::configure_arch_repos_steps(conf, mirrorlist_exists, root, false);
    let path = root + "/etc/pacman.conf"@;
    let mirror = pacman::mirror_line(mirrorlist_exists);
    reveal_strlit("Include = ");
    reveal_strlit("/etc/pacman.d/mirrorlist-arch");
    reveal_strlit("Include = /etc/pacman.d/mirrorlist-arch");
    assert("Include = "@ + "/etc/pacman.d/mirrorlist-arch"@
        =~= "Include = /etc/pacman.d/mirrorlist-arch"@);
    if !recovery::names_extra(conf) {
        let kept = text::trimmed_end(conf);
        let content = kept + pacman::repos_section_text(mirror);
        assert(effects::touches(steps[0], path));
        assert(effects::leaves(steps, path, content));
        assert(content.subrange(0, kept.len() as int) =~= kept);
        lemma_entered(kept, mirror);
    }
}

proof fn lemma_entered(kept: Text, mirror: Text)
    ensures
        ({
            let content = kept + pacman::repos_section_text(mirror);
            &&& text::holds(
                content,
                "\n[extra]\nSigLevel = PackageRequired\n"@ + mirror + "\n"@,
            )
            &&& text::ends(
                content,
                "\n[multilib]\nSigLevel = PackageRequired\n"@ + mirror + "\n"@,
            )
        }),
{
    reveal_strlit(r#"

# Arch Linux repositories (added by deploytix installer)
[extra]
SigLevel = PackageRequired
"#);
    reveal_strlit(r#"

[multilib]
SigLevel = PackageRequired
"#);
    reveal_strlit("\n[extra]\nSigLevel = PackageRequired\n");
    reveal_strlit("\n[multilib]\nSigLevel = PackageRequired\n");
    reveal_strlit("\n\n# Arch Linux repositories (added by deploytix installer)");
    reveal_strlit("\n");
    let content = kept + pacman::repos_section_text(mirror);
    let one = "\n[extra]\nSigLevel = PackageRequired\n"@ + mirror + "\n"@;
    let two = "\n[multilib]\nSigLevel = PackageRequired\n"@ + mirror + "\n"@;
    let a = kept + "\n\n# Arch Linux repositories (added by deploytix installer)"@;
    let none = Seq::<char>::empty();
    assert(content =~= a + one + two);
    effects::lemma_part(a, one, two);
    assert(content =~= (a + one) + two + none);
    effects::lemma_part(a + one, two, none);
}

/// The command that is tried with the relaxed configuration is the command that was refused,
/// with nothing but that configuration put in.
pub proof fn relaxed_command_is_the_command(rest: Text)
    ensures
        text::begins(
            recovery::with_config_flag("pacman "@ + rest),
            "pacman --config "@ + recovery::SIG_BYPASS_CONF@ + " "@,
        ),
        text::ends(recovery::with_config_flag("pacman "@ + rest), " "@ + rest),
        recovery::with_config_flag("pacman "@ + rest).len() == rest.len() + recovery::SIG_BYPASS_CONF@.len()
            + 17,
{
    let command = "pacman "@ + rest;
    reveal_strlit("pacman ");
    reveal_strlit("pacman --config ");
    reveal_strlit(" ");
    assert(command.subrange(0, 7) =~= "pacman "@);
    assert(command.skip(7) =~= rest);
    let whole = recovery::with_config_flag(command);
    let first = "pacman --config "@ + recovery::SIG_BYPASS_CONF@ + " "@;
    assert(whole =~= first + rest);
    assert(whole.subrange(0, first.len() as int) =~= first);
    let last = " "@ + rest;
    assert(whole.subrange(whole.len() - last.len(), whole.len() as int) =~= last);
}

// -------------------------------------------------------------------------------- home
/// The directory that is encrypted is the one that is mounted over the home at every login,
/// with the user's own password; it is the user's and closed to everybody else, and the home
/// is filled through it.
pub proof fn home_opens_with_the_password(user: Text, password: Text, root: Text)
    requires
        effects::one_word(user),
    ensures
        ({
            let steps = gocryptfs::cipher_steps(user, password, root);
            let filling = gocryptfs::skel_steps(user, password, root);
            let home = "/home/"@ + user;
            let cipher = home + ".cipher"@;
            let secret = " -extpass \"echo '"@ + password + "'\" "@;
            &&& steps.len() == 4
            &&& steps[0] == Act::MakeDir(root + cipher)
            &&& steps[1] matches Act::Chroot { root: r, command } && r == root && text::begins(
                command,
                "gocryptfs -init "@,
            ) && text::ends(command, secret + cipher)
            &&& steps[2] matches Act::Chroot { root: r, command } && r == root && text::words_of(
                command,
            ) == seq!["chown"@, "-R"@, user + ":"@ + user, cipher]
            &&& steps[3] matches Act::Chroot { root: r, command } && r == root && text::words_of(
                command,
            ) == seq!["chmod"@, "700"@, cipher]
            &&& filling.len() == 1
            &&& filling[0] matches Act::Chroot { root: r, command } && r == root && text::begins(
                command,
                "gocryptfs"@ + secret + cipher + " "@ + home + " && cp -a /etc/skel/. "@ + home
                    + "/ && "@,
            ) && text::ends(command, " && fusermount -u "@ + home)
            &&& text::begins(gocryptfs::volume_entry_text(user), "<volume user=\""@ + user + "\" "@)
            &&& text::holds(
                gocryptfs::volume_entry_text(user),
                "path=\"/usr/bin/gocryptfs#/home/%(USER).cipher\" mountpoint=\"/home/%(USER)\""@,
            )
        }),
{
    let home = "/home/"@ + user;
    let cipher = home + ".cipher"@;
    let secret = " -extpass \"echo '"@ + password + "'\" "@;
    let steps = gocryptfs::cipher_steps(user, password, root);
    let filling = gocryptfs::skel_steps(user, password, root);
    assert(root + "/home/"@ + user + ".cipher"@ =~= root + cipher);
    let init = steps[1]->Chroot_command;
    assert(text::begins(init, "gocryptfs -init "@) && text::ends(init, secret + cipher)) by {
        reveal_strlit("gocryptfs -init ");
        reveal_strlit("gocryptfs -init -q -extpass \"echo '");
        reveal_strlit(" -extpass \"echo '");
        reveal_strlit("'\" ");
        reveal_strlit("'\" /home/");
        reveal_strlit("/home/");
        assert(init.subrange(0, 16) =~= "gocryptfs -init "@);
        let last = secret + cipher;
        assert(init.subrange(init.len() - last.len(), init.len() as int) =~= last);
    }
    lemma_owned(user);
    let fill = filling[0]->Chroot_command;
    assert(text::begins(
        fill,
        "gocryptfs"@ + secret + cipher + " "@ + home + " && cp -a /etc/skel/. "@ + home + "/ && "@,
    ) && text::ends(fill, " && fusermount -u "@ + home)) by {
        reveal_strlit("gocryptfs");
        reveal_strlit("gocryptfs -extpass \"echo '");
        reveal_strlit(" -extpass \"echo '");
        reveal_strlit("'\" ");
        reveal_strlit("'\" /home/");
        reveal_strlit("/home/");
        reveal_strlit(".cipher");
        reveal_strlit(".cipher /home/");
        reveal_strlit(" ");
        reveal_strlit(" && cp -a /etc/skel/. /home/");
        reveal_strlit(" && cp -a /etc/skel/. ");
        reveal_strlit("/ && ");
        reveal_strlit("/ && chown -R ");
        reveal_strlit(" && fusermount -u /home/");
        reveal_strlit(" && fusermount -u ");
        let first = "gocryptfs"@ + secret + cipher + " "@ + home + " && cp -a /etc/skel/. "@ + home
            + "/ && "@;
        assert(fill.subrange(0, first.len() as int) =~= first);
        let last = " && fusermount -u "@ + home;
        assert(fill.subrange(fill.len() - last.len(), fill.len() as int) =~= last);
    }
    lemma_entry(user);
}

proof fn lemma_entry(user: Text)
    ensures
        text::begins(gocryptfs::volume_entry_text(user), "<volume user=\""@ + user + "\" "@),
        text::holds(
            gocryptfs::volume_entry_text(user),
            "path=\"/usr/bin/gocryptfs#/home/%(USER).cipher\" mountpoint=\"/home/%(USER)\""@,
        ),
{
    reveal_strlit("\" fstype=\"fuse\" options=\"nodev,nosuid,quiet,allow_other\" path=\"/usr/bin/gocryptfs#/home/%(USER).cipher\" mountpoint=\"/home/%(USER)\" />");
    reveal_strlit("<volume user=\"");
    reveal_strlit("\" ");
    reveal_strlit("path=\"/usr/bin/gocryptfs#/home/%(USER).cipher\" mountpoint=\"/home/%(USER)\"");
    let entry = gocryptfs::volume_entry_text(user);
    let first = "<volume user=\""@ + user + "\" "@;
    assert(entry.subrange(0, first.len() as int) =~= first);
    let v = gocryptfs::VOLUME_ENTRY@;
    let p = "path=\"/usr/bin/gocryptfs#/home/%(USER).cipher\" mountpoint=\"/home/%(USER)\""@;
    assert(v.subrange(57, 130) =~= p);
    assert(text::at(v, 57, p));
    text::lemma_sum_holds("<volume user=\""@ + user, v, p);
}

proof fn lemma_owned(user: Text)
    requires
        effects::one_word(user),
    ensures
        text::words_of("chown -R "@ + user + ":"@ + user + " /home/"@ + user + ".cipher"@) == seq![
            "chown"@,
            "-R"@,
            user + ":"@ + user,
            "/home/"@ + user + ".cipher"@,
        ],
        text::words_of("chmod 700 /home/"@ + user + ".cipher"@) == seq![
            "chmod"@,
            "700"@,
            "/home/"@ + user + ".cipher"@,
        ],
{
    let cipher = "/home/"@ + user + ".cipher"@;
    let whom = user + ":"@ + user;
    let a = seq!["chown"@, "-R"@, whom, cipher];
    let b = seq!["chmod"@, "700"@, cipher];
    reveal_strlit("chown");
    reveal_strlit("-R");
    reveal_strlit(":");
    reveal_strlit("/home/");
    reveal_strlit(".cipher");
    reveal_strlit("chmod");
    reveal_strlit("700");
    reveal_strlit(" ");
    reveal_strlit("chown -R ");
    reveal_strlit(" /home/");
    reveal_strlit("chmod 700 /home/");
    assert(effects::one_word(cipher)) by {
        assert forall|i: int| 0 <= i < cipher.len() implies !text::white(#[trigger] cipher[i]) by {
            if 6 <= i < 6 + user.len() {
                assert(cipher[i] == user[i - 6]);
            }
        }
    }
    assert(effects::one_word(whom)) by {
        assert forall|i: int| 0 <= i < whom.len() implies !text::white(#[trigger] whom[i]) by {
            if i < user.len() {
                assert(whom[i] == user[i]);
            } else if i > user.len() {
                assert(whom[i] == user[i - user.len() - 1]);
            }
        }
    }
    assert(effects::single_words(a));
    assert(effects::single_words(b));
    effects::lemma_words_joined(a);
    effects::lemma_words_joined(b);
    reveal_with_fuel(text::joined, 5);
    assert(a.drop_last().drop_last().drop_last() =~= seq!["chown"@]);
    assert(b.drop_last().drop_last() =~= seq!["chmod"@]);
    assert(text::joined(a, " "@) =~= "chown -R "@ + user + ":"@ + user + " /home/"@ + user
        + ".cipher"@);
    assert(text::joined(b, " "@) =~= "chmod 700 /home/"@ + user + ".cipher"@);
}

// ----------------------------------------------------------------------------- volumes
/// The script mounts the container at the place, below the new root.
pub open spec fn mounts_at(script: Text, container: Text, place: Text) -> bool {
    text::holds(
        script,
        "if ! mount_volume \"/dev/mapper/"@ + container + "\" \"$new_root"@ + place + "\" \""@,
    )
}

/// The script mounts the container at the place, from the subvolume.
pub open spec fn mounts_from(script: Text, container: Text, place: Text, subvolume: Text) -> bool {
    &&& mounts_at(script, container, place)
    &&& text::holds(script, "\" \"subvol="@ + subvolume + ","@)
}

proof fn lemma_call(head: Text, call: Text, container: Text, place: Text)
    requires
        text::ends(call, "if ! mount_volume \"/dev/mapper/"@),
    ensures
        mounts_at(
            head + call + container + "\" \"$new_root"@ + place + "\" \""@,
            container,
            place,
        ),
{
    let p = "if ! mount_volume \"/dev/mapper/"@;
    let before = call.subrange(0, call.len() - p.len());
    assert(call =~= before + p) by {
        assert(call.subrange(call.len() - p.len(), call.len() as int) == p);
    }
    let part = p + container + "\" \"$new_root"@ + place + "\" \""@;
    let none = Seq::<char>::empty();
    assert(head + call + container + "\" \"$new_root"@ + place + "\" \""@ =~= (head + before) + part
        + none);
    effects::lemma_part(head + before, part, none);
}

proof fn lemma_calls()
    ensures
        text::ends(hook_texts::VOLUME_PLAIN_2@, "if ! mount_volume \"/dev/mapper/"@),
        text::ends(hook_texts::VOLUME_SUBVOLUME_2@, "if ! mount_volume \"/dev/mapper/"@),
{
    reveal_strlit(r#" ==="
    if ! mount_volume "/dev/mapper/"#);
    reveal_strlit("if ! mount_volume \"/dev/mapper/");
    assert(hook_texts::VOLUME_PLAIN_2@.subrange(10, 41) =~= "if ! mount_volume \"/dev/mapper/"@);
    reveal_strlit(r#" ==="
    if ! mount_volume "/dev/mapper/"#);
    reveal_strlit("if ! mount_volume \"/dev/mapper/");
    assert(hook_texts::VOLUME_SUBVOLUME_2@.subrange(10, 41) =~= "if ! mount_volume \"/dev/mapper/"@);
}

proof fn lemma_plain_volume(
    mp: Text,
    mapper: Text,
    name: Text,
    severity: Text,
    fail_action: Text,
)
    ensures
        mounts_at(
            hook_texts::volume_plain_text(mp, mapper, name, severity, fail_action),
            mapper,
            mp,
        ),
{
    lemma_calls();
    let head = "\n    # Mount "@ + mp + hook_texts::VOLUME_PLAIN_1@ + mp;
    lemma_call(head, hook_texts::VOLUME_PLAIN_2@, mapper, mp);
    let p = "if ! mount_volume \"/dev/mapper/"@ + mapper + "\" \"$new_root"@ + mp + "\" \""@;
    let s = head + hook_texts::VOLUME_PLAIN_2@ + mapper + "\" \"$new_root"@ + mp + "\" \""@;
    text::lemma_sum_holds(s, name, p);
    let s = s + name;
    text::lemma_sum_holds(s, hook_texts::VOLUME_PLAIN_3@, p);
    let s = s + hook_texts::VOLUME_PLAIN_3@;
    text::lemma_sum_holds(s, severity, p);
    let s = s + severity;
    text::lemma_sum_holds(s, ": Failed to mount "@, p);
    let s = s + ": Failed to mount "@;
    text::lemma_sum_holds(s, mp, p);
    let s = s + mp;
    text::lemma_sum_holds(s, "\" >&2\n"@, p);
    let s = s + "\" >&2\n"@;
    text::lemma_sum_holds(s, fail_action, p);
    let s = s + fail_action;
    text::lemma_sum_holds(s, "\n    fi\n"@, p);
}

proof fn lemma_subvolume(
    mp: Text,
    mapper: Text,
    sv_name: Text,
    sv_opts: Text,
    name: Text,
    severity: Text,
    fail_action: Text,
)
    ensures
        mounts_from(
            hook_texts::volume_subvolume_text(
                mp,
                mapper,
                sv_name,
                sv_opts,
                name,
                severity,
                fail_action,
            ),
            mapper,
            mp,
            sv_name,
        ),
{
    lemma_calls();
    let head = "\n    # Mount "@ + mp + " (subvol="@ + sv_name + hook_texts::VOLUME_SUBVOLUME_1@ + mp;
    lemma_call(head, hook_texts::VOLUME_SUBVOLUME_2@, mapper, mp);
    let p = "if ! mount_volume \"/dev/mapper/"@ + mapper + "\" \"$new_root"@ + mp + "\" \""@;
    let q = "\" \"subvol="@ + sv_name + ","@;
    let s = head + hook_texts::VOLUME_SUBVOLUME_2@ + mapper + "\" \"$new_root"@ + mp + "\" \""@;
    text::lemma_sum_holds(s, name, p);
    let s = s + name;
    text::lemma_sum_holds(s, q, p);
    lemma_last_part(s, "\" \"subvol="@, sv_name, ","@);
    let s = s + "\" \"subvol="@ + sv_name + ","@;
    lemma_rest(s, sv_opts, severity, mp, fail_action, p);
    lemma_rest(s, sv_opts, severity, mp, fail_action, q);
}

proof fn lemma_last_part(s: Text, a: Text, b: Text, c: Text)
    ensures
        s + (a + b + c) == s + a + b + c,
        text::holds(s + a + b + c, a + b + c),
{
    assert(s + (a + b + c) =~= s + a + b + c);
    text::lemma_whole_holds(a + b + c);
    text::lemma_sum_holds(s, a + b + c, a + b + c);
}

proof fn lemma_rest(
    s: Text,
    sv_opts: Text,
    severity: Text,
    mp: Text,
    fail_action: Text,
    p: Text,
)
    requires
        text::holds(s, p),
    ensures
        text::holds(
            s + sv_opts + hook_texts::VOLUME_SUBVOLUME_3@ + severity + ": Failed to mount "@ + mp
                + "\" >&2\n"@ + fail_action + "\n    fi\n"@,
            p,
        ),
{
    text::lemma_sum_holds(s, sv_opts, p);
    let s = s + sv_opts;
    text::lemma_sum_holds(s, hook_texts::VOLUME_SUBVOLUME_3@, p);
    let s = s + hook_texts::VOLUME_SUBVOLUME_3@;
    text::lemma_sum_holds(s, severity, p);
    let s = s + severity;
    text::lemma_sum_holds(s, ": Failed to mount "@, p);
    let s = s + ": Failed to mount "@;
    text::lemma_sum_holds(s, mp, p);
    let s = s + mp;
    text::lemma_sum_holds(s, "\" >&2\n"@, p);
    let s = s + "\" >&2\n"@;
    text::lemma_sum_holds(s, fail_action, p);
    let s = s + fail_action;
    text::lemma_sum_holds(s, "\n    fi\n"@, p);
}

/// The part of the script that belongs to a volume mounts that volume's own container at the
/// volume's own place, from the subvolume that bears the name of the place where there are
/// subvolumes; /usr of an immutable root alone is left to the root's part.
pub proof fn volumes_are_mounted_at_their_places(p: PartitionDef, immutable: bool)
    requires
        !p.is_root(),
        p.mount_point is Some,
        text::titled(p.name@) != "Root"@,
    ensures
        mounts_at(hooks::volume_mount(p, false, immutable), hooks::mapper_of(p), p.mount_point->0@),
        ({
            let name = text::lowered(text::titled(p.name@));
            let place = "/"@ + name;
            let part = hooks::volume_mount(p, true, immutable);
            if immutable && place == "/usr"@ {
                part.len() == 0
            } else {
                mounts_from(part, hooks::mapper_of(p), place, "@"@ + name)
            }
        }),
{
    let m = p.mount_point->0@;
    lemma_plain_volume(
        m,
        hooks::mapper_of(p),
        text::lowered(p.name@),
        hooks::severity_of(m),
        hooks::failure_of(m),
    );
    let list = crate::disk::subvolumes_of(text::titled(p.name@));
    let sv = list[0];
    let mapper = hooks::mapper_of(p);
    assert(list.drop_last() =~= seq![]);
    assert(list.last() == sv);
    let none = hooks::subvolume_mounts(mapper, list.drop_last(), immutable);
    let one = hooks::subvolume_mount(mapper, sv, immutable);
    assert(none =~= seq![]);
    assert(hooks::subvolume_mounts(mapper, list, immutable) =~= one);
    reveal_strlit("");
    lemma_subvolume(
        sv.mount_point,
        mapper,
        sv.name,
        sv.mount_options,
        hooks::without_at(sv.name),
        hooks::severity_of(sv.mount_point),
        hooks::failure_of(sv.mount_point),
    );
}

proof fn lemma_boot_call()
    ensures
        text::ends(hook_texts::BOOT_ENCRYPTED@, "mount_volume \"/dev/mapper/"@),
        text::holds(hook_texts::BOOT_PLAIN_1@, "blkid -t LABEL=BOOT "@),
        text::ends(hook_texts::BOOT_PLAIN_1@, "mount_volume \"$boot_partition\" \"$new_root/boot\" \"boot\""@),
{
    reveal_strlit(r#"    # Mount encrypted /boot from LUKS1 container
    mount_volume "/dev/mapper/"#);
    reveal_strlit("mount_volume \"/dev/mapper/");
    assert(hook_texts::BOOT_ENCRYPTED@.subrange(53, 79) =~= "mount_volume \"/dev/mapper/"@);
    reveal_strlit(r#"    # Mount unencrypted /boot partition
    boot_partition=""
    for dev in $(blkid -t LABEL=BOOT -o device 2>/dev/null); do
        boot_partition="$dev"
        break
    done

    if [ -n "$boot_partition" ] && [ -b "$boot_partition" ]; then
        mount_volume "$boot_partition" "$new_root/boot" "boot""#);
    reveal_strlit("blkid -t LABEL=BOOT ");
    assert(hook_texts::BOOT_PLAIN_1@.subrange(79, 99) =~= "blkid -t LABEL=BOOT "@);
    assert(text::at(hook_texts::BOOT_PLAIN_1@, 79, "blkid -t LABEL=BOOT "@));
    reveal_strlit("mount_volume \"$boot_partition\" \"$new_root/boot\" \"boot\"");
    assert(hook_texts::BOOT_PLAIN_1@.subrange(254, 308) =~= "mount_volume \"$boot_partition\" \"$new_root/boot\" \"boot\""@);
}

proof fn lemma_root_call()
    ensures
        text::ends(hook_texts::ROOT_SUBVOLUME_1@, "mount_volume \"/dev/mapper/Crypt-Root\" \"$new_root\" \"root\" \"subvol=${root_subvol},"@),
        text::begins(hook_texts::ROOT_SUBVOLUME_2@, "\"; then\n"@),
        text::holds(hook_texts::ROOT_PLAIN@, "mount_volume \"/dev/mapper/Crypt-Root\" \"$new_root\" \"root\"; then\n"@),
{
    reveal_strlit(r#"    # Resolve root subvol from cmdline (snapshot booting support)
    local root_subvol
    root_subvol=$(resolve_root_subvol)
    echo "[mountcrypt] Root subvol resolved from cmdline: $root_subvol"

    # Mount root first (required)
    echo "[mountcrypt] === Mounting root (subvol=$root_subvol) ==="
    if ! mount_volume "/dev/mapper/Crypt-Root" "$new_root" "root" "subvol=${root_subvol},"#);
    reveal_strlit("mount_volume \"/dev/mapper/Crypt-Root\" \"$new_root\" \"root\" \"subvol=${root_subvol},");
    assert(hook_texts::ROOT_SUBVOLUME_1@.subrange(311, 391) =~= "mount_volume \"/dev/mapper/Crypt-Root\" \"$new_root\" \"root\" \"subvol=${root_subvol},"@);
    reveal_strlit(r#""; then
        echo "[mountcrypt] FATAL: Cannot mount root filesystem (subvol=$root_subvol)" >&2
        if [ "$root_subvol" != ""#);
    reveal_strlit("\"; then\n");
    assert(hook_texts::ROOT_SUBVOLUME_2@.subrange(0, 8) =~= "\"; then\n"@);
    reveal_strlit(r#"    # Mount root first (required)
    echo "[mountcrypt] === Mounting root ==="
    if ! mount_volume "/dev/mapper/Crypt-Root" "$new_root" "root"; then
        echo "[mountcrypt] FATAL: Cannot mount root filesystem" >&2
        return 1
    fi
"#);
    reveal_strlit("mount_volume \"/dev/mapper/Crypt-Root\" \"$new_root\" \"root\"; then\n");
    assert(hook_texts::ROOT_PLAIN@.subrange(89, 152) =~= "mount_volume \"/dev/mapper/Crypt-Root\" \"$new_root\" \"root\"; then\n"@);
    assert(text::at(hook_texts::ROOT_PLAIN@, 89, "mount_volume \"/dev/mapper/Crypt-Root\" \"$new_root\" \"root\"; then\n"@));
}

/// /boot is mounted from its own container where it is encrypted, and from the partition with
/// its label where it is not.
pub proof fn boot_is_mounted_from_where_it_lies(config: DeploymentConfig)
    ensures
        ({
            let part = hooks::boot_mount(config);
            if config.disk.boot_encryption {
                text::holds(
                    part,
                    "mount_volume \"/dev/mapper/"@ + config.disk.luks_boot_mapper_name@
                        + "\" \"$new_root/boot\" \"boot\""@,
                )
            } else {
                text::holds(part, "blkid -t LABEL=BOOT "@) && text::holds(
                    part,
                    "mount_volume \"$boot_partition\" \"$new_root/boot\" \"boot\""@,
                )
            }
        }),
{
    lemma_boot_call();
    let options = hooks::boot_options(config);
    if config.disk.boot_encryption {
        let call = hook_texts::BOOT_ENCRYPTED@;
        let p = "mount_volume \"/dev/mapper/"@;
        let mapper = config.disk.luks_boot_mapper_name@;
        let place = "\" \"$new_root/boot\" \"boot\""@;
        let part = p + mapper + place;
        let before = call.subrange(0, call.len() - p.len());
        assert(call =~= before + p) by {
            assert(call.subrange(call.len() - p.len(), call.len() as int) == p);
        }
        assert(call + mapper + place =~= before + part);
        text::lemma_whole_holds(part);
        text::lemma_sum_holds(before, part, part);
        text::lemma_sum_holds(call + mapper + place, options, part);
        text::lemma_sum_holds(call + mapper + place + options, " || true"@, part);
    } else {
        let a = hook_texts::BOOT_PLAIN_1@;
        let p = "mount_volume \"$boot_partition\" \"$new_root/boot\" \"boot\""@;
        let q = "blkid -t LABEL=BOOT "@;
        assert(text::at(a, a.len() - p.len(), p));
        text::lemma_sum_holds(a, options, p);
        text::lemma_sum_holds(a + options, hook_texts::BOOT_PLAIN_2@, p);
        text::lemma_sum_holds(a, options, q);
        text::lemma_sum_holds(a + options, hook_texts::BOOT_PLAIN_2@, q);
    }
}

/// Where the layout has a root, its container is mounted as the new root; with subvolumes,
/// from the one that the command line names, and for reading alone exactly where the root is
/// immutable.
pub proof fn root_is_mounted_as_asked(
    config: DeploymentConfig,
    v: Seq<PartitionDef>,
    subvolumes: bool,
)
    ensures
        ({
            let part = hooks::root_mount(config, v, subvolumes);
            &&& !hooks::has_root(v) ==> part.len() == 0
            &&& hooks::has_root(v) && !subvolumes ==> text::holds(
                part,
                "mount_volume \"/dev/mapper/Crypt-Root\" \"$new_root\" \"root\"; then\n"@,
            )
            &&& hooks::has_root(v) && subvolumes ==> text::holds(
                part,
                "mount_volume \"/dev/mapper/Crypt-Root\" \"$new_root\" \"root\" \"subvol=${root_subvol},"@
                    + "defaults,noatime,compress=zstd"@ + (if config.packages.immutable_root {
                    ",ro"@
                } else {
                    ""@
                }) + "\"; then\n"@,
            )
        }),
{
    lemma_root_call();
    reveal_strlit("");
    if hooks::has_root(v) && subvolumes {
        let a = hook_texts::ROOT_SUBVOLUME_1@;
        let b = hook_texts::ROOT_SUBVOLUME_2@;
        let c = hook_texts::ROOT_SUBVOLUME_3@;
        let sv = crate::disk::subvolumes_of("Root"@)[0];
        let ro = if config.packages.immutable_root {
            ",ro"@
        } else {
            ""@
        };
        let p = "mount_volume \"/dev/mapper/Crypt-Root\" \"$new_root\" \"root\" \"subvol=${root_subvol},"@;
        let q = "\"; then\n"@;
        let part = p + sv.mount_options + ro + q;
        lemma_joint(a, sv.mount_options, ro, b, p, q);
        let s = a + sv.mount_options + ro + b;
        text::lemma_sum_holds(s, sv.name, part);
        text::lemma_sum_holds(s + sv.name, c, part);
        let first = s + sv.name + c;
        if config.packages.install_grub_btrfs {
            let more = hook_texts::overlay_text(
                hook_texts::overlay_guard_text(sv.name, crate::disk::SETS_DIR@),
                hooks::etc_mount(config, v),
            );
            text::lemma_sum_holds(first, more, part);
        } else {
            text::lemma_sum_holds(first, ""@, part);
        }
    }
}

proof fn lemma_joint(a: Text, options: Text, ro: Text, b: Text, p: Text, q: Text)
    requires
        text::ends(a, p),
        text::begins(b, q),
    ensures
        text::holds(a + options + ro + b, p + options + ro + q),
{
    let before = a.subrange(0, a.len() - p.len());
    let after = b.skip(q.len() as int);
    let part = p + options + ro + q;
    assert(a =~= before + p) by {
        assert(a.subrange(a.len() - p.len(), a.len() as int) == p);
    }
    assert(b =~= q + after) by {
        assert(b.subrange(0, q.len() as int) == q);
    }
    assert(a + options + ro + b =~= before + part + after);
    effects::lemma_part(before, part, after);
}

proof fn lemma_slot_texts()
    ensures
        text::ends(hook_texts::VERITY_AB_4@, "A|a) root_lv=\""@),
        text::begins(hook_texts::VERITY_AB_5@, "\" ;;\n"@),
        text::ends(hook_texts::VERITY_AB_5@, "B|b) root_lv=\""@),
        text::begins(hook_texts::VERITY_AB_6@, "\" ;;\n"@),
{
    reveal_strlit(r#""

    if mountpoint -q "$new_root" 2>/dev/null; then
        echo "[verity-ab] $new_root already mounted; skipping"
        return 0
    fi

    local slot roothash root_lv hash_lv
    slot=$(cmdline_value deploytix.slot)
    roothash=$(cmdline_value deploytix.roothash)
    [ -n "$slot" ] || slot=A

    case "$slot" in
        A|a) root_lv=""#);
    reveal_strlit("A|a) root_lv=\"");
    assert(hook_texts::VERITY_AB_4@.subrange(330, 344) =~= "A|a) root_lv=\""@);
    reveal_strlit(r#"" ;;
        B|b) root_lv=""#);
    reveal_strlit("\" ;;\n");
    assert(hook_texts::VERITY_AB_5@.subrange(0, 5) =~= "\" ;;\n"@);
    reveal_strlit("B|b) root_lv=\"");
    assert(hook_texts::VERITY_AB_5@.subrange(13, 27) =~= "B|b) root_lv=\""@);
    reveal_strlit(r#"" ;;
        *)   echo "[verity-ab] Unknown slot '$slot'; defaulting to A" >&2
             root_lv=""#);
    reveal_strlit("\" ;;\n");
    assert(hook_texts::VERITY_AB_6@.subrange(0, 5) =~= "\" ;;\n"@);
}

proof fn lemma_verity_texts()
    ensures
        text::ends(hook_texts::VERITY_AB_7@, "veritysetup open \"$data_dev\" "@),
        text::begins(hook_texts::VERITY_AB_8@, " \"$hash_dev\" \"$roothash\"; then\n"@),
        text::ends(hook_texts::VERITY_AB_8@, "mount -o ro \"/dev/mapper/"@),
        text::begins(hook_texts::VERITY_AB_9@, "\" \"$new_root\"; then\n"@),
{
    reveal_strlit(r#"" ;;
    esac
    echo "[verity-ab] Active slot: $slot (root=$root_lv hash=$hash_lv)"

    if [ -z "$roothash" ]; then
        echo "[verity-ab] FATAL: no deploytix.roothash= on cmdline" >&2
        return 1
    fi

    local data_dev="/dev/$vg/$root_lv"
    local hash_dev="/dev/$vg/$hash_lv"

    echo "[verity-ab] Waiting for $data_dev and $hash_dev ..."
    if ! wait_for_block_device "$data_dev" || ! wait_for_block_device "$hash_dev"; then
        echo "[verity-ab] FATAL: slot devices not found (VG not activated?)" >&2
        return 1
    fi

    echo "[verity-ab] Opening dm-verity ($data_dev, roothash=$roothash)"
    if ! veritysetup open "$data_dev" "#);
    reveal_strlit("veritysetup open \"$data_dev\" ");
    assert(hook_texts::VERITY_AB_7@.subrange(634, 663) =~= "veritysetup open \"$data_dev\" "@);
    reveal_strlit(r#" "$hash_dev" "$roothash"; then
        echo "[verity-ab] FATAL: dm-verity open failed (image tampered or wrong hash)" >&2
        return 1
    fi

    echo "[verity-ab] === Mounting root (read-only) ==="
    mkdir -p "$new_root"
    if ! mount -o ro "/dev/mapper/"#);
    reveal_strlit(" \"$hash_dev\" \"$roothash\"; then\n");
    assert(hook_texts::VERITY_AB_8@.subrange(0, 31) =~= " \"$hash_dev\" \"$roothash\"; then\n"@);
    reveal_strlit("mount -o ro \"/dev/mapper/");
    assert(hook_texts::VERITY_AB_8@.subrange(238, 263) =~= "mount -o ro \"/dev/mapper/"@);
    reveal_strlit(r#"" "$new_root"; then
        echo "[verity-ab] FATAL: cannot mount verified root" >&2
        return 1
    fi

    # Writable /etc overlay: lower = read-only image /etc, upper/work persist on
    # the etc_overlay LV so config edits survive reboots and slot flips.
    echo "[verity-ab] === Layering writable /etc overlay ==="
    if wait_for_block_device "/dev/$vg/"#);
    reveal_strlit("\" \"$new_root\"; then\n");
    assert(hook_texts::VERITY_AB_9@.subrange(0, 20) =~= "\" \"$new_root\"; then\n"@);
}

proof fn lemma_ends_sum(a: Text, b: Text, p: Text)
    requires
        text::ends(b, p),
    ensures
        text::ends(a + b, p),
{
    let s = a + b;
    assert(s.subrange(s.len() - p.len(), s.len() as int) =~= b.subrange(
        b.len() - p.len(),
        b.len() as int,
    ));
}

proof fn lemma_between(a: Text, x: Text, b: Text, p: Text, q: Text)
    requires
        text::ends(a, p),
        text::begins(b, q),
    ensures
        text::holds(a + x + b, p + x + q),
{
    let before = a.subrange(0, a.len() - p.len());
    let after = b.skip(q.len() as int);
    assert(a =~= before + p) by {
        assert(a.subrange(a.len() - p.len(), a.len() as int) == p);
    }
    assert(b =~= q + after) by {
        assert(b.subrange(0, q.len() as int) == q);
    }
    assert(a + x + b =~= before + (p + x + q) + after);
    effects::lemma_part(before, p + x + q, after);
}

proof fn lemma_slot(a: Text, x: Text, m: Text, y: Text, b: Text, p: Text, q: Text)
    requires
        text::ends(a, p),
        text::begins(b, q),
    ensures
        text::holds(a + x + m + y + b, p + x + m + y + q),
{
    lemma_between(a, x + m + y, b, p, q);
    assert(a + (x + m + y) + b =~= a + x + m + y + b);
    assert(p + (x + m + y) + q =~= p + x + m + y + q);
}

proof fn lemma_verity_slot_a(
    vg: Text,
    verity_name: Text,
    root_a: Text,
    root_b: Text,
    hash_a: Text,
    hash_b: Text,
    etc_overlay: Text,
)
    ensures
        text::holds(
            hook_texts::verity_ab_script_text(
                vg,
                verity_name,
                root_a,
                root_b,
                hash_a,
                hash_b,
                etc_overlay,
            ),
            "A|a) root_lv=\""@ + root_a + "\"; hash_lv=\""@ + hash_a + "\" ;;\n"@,
        ),
{
    lemma_slot_texts();
    let before = hook_texts::VERITY_AB_1@ + vg + "\n# Slots: "@ + root_a + "/"@ + hash_a + " (A), "@ + root_b + "/"@ + hash_b + hook_texts::VERITY_AB_2@ + etc_overlay + hook_texts::VERITY_AB_3@ + vg;
    lemma_ends_sum(before, hook_texts::VERITY_AB_4@, "A|a) root_lv=\""@);
    let a = before + hook_texts::VERITY_AB_4@;
    lemma_slot(a, root_a, "\"; hash_lv=\""@, hash_a, hook_texts::VERITY_AB_5@, "A|a) root_lv=\""@, "\" ;;\n"@);
    let part = "A|a) root_lv=\""@ + root_a + "\"; hash_lv=\""@ + hash_a + "\" ;;\n"@;
    let s = a + root_a + "\"; hash_lv=\""@ + hash_a + hook_texts::VERITY_AB_5@;
    text::lemma_sum_holds(s, root_b, part);
    let s = s + root_b;
    text::lemma_sum_holds(s, "\"; hash_lv=\""@, part);
    let s = s + "\"; hash_lv=\""@;
    text::lemma_sum_holds(s, hash_b, part);
    let s = s + hash_b;
    text::lemma_sum_holds(s, hook_texts::VERITY_AB_6@, part);
    let s = s + hook_texts::VERITY_AB_6@;
    text::lemma_sum_holds(s, root_a, part);
    let s = s + root_a;
    text::lemma_sum_holds(s, "\"; hash_lv=\""@, part);
    let s = s + "\"; hash_lv=\""@;
    text::lemma_sum_holds(s, hash_a, part);
    let s = s + hash_a;
    text::lemma_sum_holds(s, hook_texts::VERITY_AB_7@, part);
    let s = s + hook_texts::VERITY_AB_7@;
    text::lemma_sum_holds(s, verity_name, part);
    let s = s + verity_name;
    text::lemma_sum_holds(s, hook_texts::VERITY_AB_8@, part);
    let s = s + hook_texts::VERITY_AB_8@;
    text::lemma_sum_holds(s, verity_name, part);
    let s = s + verity_name;
    text::lemma_sum_holds(s, hook_texts::VERITY_AB_9@, part);
    let s = s + hook_texts::VERITY_AB_9@;
    text::lemma_sum_holds(s, etc_overlay, part);
    let s = s + etc_overlay;
    text::lemma_sum_holds(s, hook_texts::VERITY_AB_10@, part);
    let s = s + hook_texts::VERITY_AB_10@;
    text::lemma_sum_holds(s, etc_overlay, part);
    let s = s + etc_overlay;
    text::lemma_sum_holds(s, hook_texts::VERITY_AB_11@, part);
    let s = s + hook_texts::VERITY_AB_11@;
}

proof fn lemma_verity_slot_b(
    vg: Text,
    verity_name: Text,
    root_a: Text,
    root_b: Text,
    hash_a: Text,
    hash_b: Text,
    etc_overlay: Text,
)
    ensures
        text::holds(
            hook_texts::verity_ab_script_text(
                vg,
                verity_name,
                root_a,
                root_b,
                hash_a,
                hash_b,
                etc_overlay,
            ),
            "B|b) root_lv=\""@ + root_b + "\"; hash_lv=\""@ + hash_b + "\" ;;\n"@,
        ),
{
    lemma_slot_texts();
    let before = hook_texts::VERITY_AB_1@ + vg + "\n# Slots: "@ + root_a + "/"@ + hash_a + " (A), "@ + root_b + "/"@ + hash_b + hook_texts::VERITY_AB_2@ + etc_overlay + hook_texts::VERITY_AB_3@ + vg + hook_texts::VERITY_AB_4@ + root_a + "\"; hash_lv=\""@ + hash_a;
    lemma_ends_sum(before, hook_texts::VERITY_AB_5@, "B|b) root_lv=\""@);
    let a = before + hook_texts::VERITY_AB_5@;
    lemma_slot(a, root_b, "\"; hash_lv=\""@, hash_b, hook_texts::VERITY_AB_6@, "B|b) root_lv=\""@, "\" ;;\n"@);
    let part = "B|b) root_lv=\""@ + root_b + "\"; hash_lv=\""@ + hash_b + "\" ;;\n"@;
    let s = a + root_b + "\"; hash_lv=\""@ + hash_b + hook_texts::VERITY_AB_6@;
    text::lemma_sum_holds(s, root_a, part);
    let s = s + root_a;
    text::lemma_sum_holds(s, "\"; hash_lv=\""@, part);
    let s = s + "\"; hash_lv=\""@;
    text::lemma_sum_holds(s, hash_a, part);
    let s = s + hash_a;
    text::lemma_sum_holds(s, hook_texts::VERITY_AB_7@, part);
    let s = s + hook_texts::VERITY_AB_7@;
    text::lemma_sum_holds(s, verity_name, part);
    let s = s + verity_name;
    text::lemma_sum_holds(s, hook_texts::VERITY_AB_8@, part);
    let s = s + hook_texts::VERITY_AB_8@;
    text::lemma_sum_holds(s, verity_name, part);
    let s = s + verity_name;
    text::lemma_sum_holds(s, hook_texts::VERITY_AB_9@, part);
    let s = s + hook_texts::VERITY_AB_9@;
    text::lemma_sum_holds(s, etc_overlay, part);
    let s = s + etc_overlay;
    text::lemma_sum_holds(s, hook_texts::VERITY_AB_10@, part);
    let s = s + hook_texts::VERITY_AB_10@;
    text::lemma_sum_holds(s, etc_overlay, part);
    let s = s + etc_overlay;
    text::lemma_sum_holds(s, hook_texts::VERITY_AB_11@, part);
    let s = s + hook_texts::VERITY_AB_11@;
}

proof fn lemma_verity_opened(
    vg: Text,
    verity_name: Text,
    root_a: Text,
    root_b: Text,
    hash_a: Text,
    hash_b: Text,
    etc_overlay: Text,
)
    ensures
        text::holds(
            hook_texts::verity_ab_script_text(
                vg,
                verity_name,
                root_a,
                root_b,
                hash_a,
                hash_b,
                etc_overlay,
            ),
            "veritysetup open \"$data_dev\" "@ + verity_name + " \"$hash_dev\" \"$roothash\"; then\n"@,
        ),
{
    lemma_verity_texts();
    let before = hook_texts::VERITY_AB_1@ + vg + "\n# Slots: "@ + root_a + "/"@ + hash_a + " (A), "@ + root_b + "/"@ + hash_b + hook_texts::VERITY_AB_2@ + etc_overlay + hook_texts::VERITY_AB_3@ + vg + hook_texts::VERITY_AB_4@ + root_a + "\"; hash_lv=\""@ + hash_a + hook_texts::VERITY_AB_5@ + root_b + "\"; hash_lv=\""@ + hash_b + hook_texts::VERITY_AB_6@ + root_a + "\"; hash_lv=\""@ + hash_a;
    lemma_ends_sum(before, hook_texts::VERITY_AB_7@, "veritysetup open \"$data_dev\" "@);
    let a = before + hook_texts::VERITY_AB_7@;
    lemma_between(a, verity_name, hook_texts::VERITY_AB_8@, "veritysetup open \"$data_dev\" "@, " \"$hash_dev\" \"$roothash\"; then\n"@);
    let part = "veritysetup open \"$data_dev\" "@ + verity_name + " \"$hash_dev\" \"$roothash\"; then\n"@;
    let s = a + verity_name + hook_texts::VERITY_AB_8@;
    text::lemma_sum_holds(s, verity_name, part);
    let s = s + verity_name;
    text::lemma_sum_holds(s, hook_texts::VERITY_AB_9@, part);
    let s = s + hook_texts::VERITY_AB_9@;
    text::lemma_sum_holds(s, etc_overlay, part);
    let s = s + etc_overlay;
    text::lemma_sum_holds(s, hook_texts::VERITY_AB_10@, part);
    let s = s + hook_texts::VERITY_AB_10@;
    text::lemma_sum_holds(s, etc_overlay, part);
    let s = s + etc_overlay;
    text::lemma_sum_holds(s, hook_texts::VERITY_AB_11@, part);
    let s = s + hook_texts::VERITY_AB_11@;
}

proof fn lemma_verity_mounted(
    vg: Text,
    verity_name: Text,
    root_a: Text,
    root_b: Text,
    hash_a: Text,
    hash_b: Text,
    etc_overlay: Text,
)
    ensures
        text::holds(
            hook_texts::verity_ab_script_text(
                vg,
                verity_name,
                root_a,
                root_b,
                hash_a,
                hash_b,
                etc_overlay,
            ),
            "mount -o ro \"/dev/mapper/"@ + verity_name + "\" \"$new_root\"; then\n"@,
        ),
{
    lemma_verity_texts();
    let before = hook_texts::VERITY_AB_1@ + vg + "\n# Slots: "@ + root_a + "/"@ + hash_a + " (A), "@ + root_b + "/"@ + hash_b + hook_texts::VERITY_AB_2@ + etc_overlay + hook_texts::VERITY_AB_3@ + vg + hook_texts::VERITY_AB_4@ + root_a + "\"; hash_lv=\""@ + hash_a + hook_texts::VERITY_AB_5@ + root_b + "\"; hash_lv=\""@ + hash_b + hook_texts::VERITY_AB_6@ + root_a + "\"; hash_lv=\""@ + hash_a + hook_texts::VERITY_AB_7@ + verity_name;
    lemma_ends_sum(before, hook_texts::VERITY_AB_8@, "mount -o ro \"/dev/mapper/"@);
    let a = before + hook_texts::VERITY_AB_8@;
    lemma_between(a, verity_name, hook_texts::VERITY_AB_9@, "mount -o ro \"/dev/mapper/"@, "\" \"$new_root\"; then\n"@);
    let part = "mount -o ro \"/dev/mapper/"@ + verity_name + "\" \"$new_root\"; then\n"@;
    let s = a + verity_name + hook_texts::VERITY_AB_9@;
    text::lemma_sum_holds(s, etc_overlay, part);
    let s = s + etc_overlay;
    text::lemma_sum_holds(s, hook_texts::VERITY_AB_10@, part);
    let s = s + hook_texts::VERITY_AB_10@;
    text::lemma_sum_holds(s, etc_overlay, part);
    let s = s + etc_overlay;
    text::lemma_sum_holds(s, hook_texts::VERITY_AB_11@, part);
    let s = s + hook_texts::VERITY_AB_11@;
}

/// The slot that is booted is checked against its own hashes: each root goes with the hashes
/// of the same slot; what is opened with the hash of the command line is what is mounted, for
/// reading alone.
pub proof fn slots_are_checked_against_their_own_hashes(
    config: DeploymentConfig,
    names: StorageNames,
)
    ensures
        ({
            let script = hooks::verity_ab(config, names).script;
            let opened = names.verity_mapper@;
            &&& text::holds(
                script,
                "A|a) root_lv=\""@ + names.root_a@ + "\"; hash_lv=\""@ + names.hash_a@ + "\" ;;\n"@,
            )
            &&& text::holds(
                script,
                "B|b) root_lv=\""@ + names.root_b@ + "\"; hash_lv=\""@ + names.hash_b@ + "\" ;;\n"@,
            )
            &&& text::holds(
                script,
                "veritysetup open \"$data_dev\" "@ + opened + " \"$hash_dev\" \"$roothash\"; then\n"@,
            )
            &&& text::holds(
                script,
                "mount -o ro \"/dev/mapper/"@ + opened + "\" \"$new_root\"; then\n"@,
            )
        }),
{
    lemma_verity_slot_a(config.disk.lvm_vg_name@, names.verity_mapper@, names.root_a@, names.root_b@, names.hash_a@, names.hash_b@, names.etc_overlay@);
    lemma_verity_slot_b(config.disk.lvm_vg_name@, names.verity_mapper@, names.root_a@, names.root_b@, names.hash_a@, names.hash_b@, names.etc_overlay@);
    lemma_verity_opened(config.disk.lvm_vg_name@, names.verity_mapper@, names.root_a@, names.root_b@, names.hash_a@, names.hash_b@, names.etc_overlay@);
    lemma_verity_mounted(config.disk.lvm_vg_name@, names.verity_mapper@, names.root_a@, names.root_b@, names.hash_a@, names.hash_b@, names.etc_overlay@);
}

// --------------------------------------------------------------------- snapshot menu
proof fn lemma_patch_start()
    ensures
        text::begins(boot_texts::PATCH_1@, "#!/bin/bash\n"@),
        text::ends(boot_texts::PATCH_1@, "\nCRYPTODISK=\""@),
{
    reveal_strlit(r##"#!/bin/bash
# Patch grub-btrfs for Deploytix encrypted layouts.
# Generated by Deploytix
#
# 1. /etc/grub.d/41_snapshots-btrfs: `grub-probe --target=fs_uuid` cannot read
#    through dm-crypt/dm-integrity mapper stacks (e.g. `<name>_dif`) and exits
#    non-zero — under the script's `set -e` that aborts grub-mkconfig entirely.
#    A `grub-probe || blkid` fallback restores UUID resolution: blkid reads the
#    filesystem superblock through the mapper device and has no opinion about
#    the device-mapper hierarchy above it.
# 2. /etc/default/grub-btrfs/config: GRUB_BTRFS_ENABLE_CRYPTODISK must match
#    whether /boot itself is encrypted, so the cryptodisk branch only runs
#    where GRUB actually has to unlock something.
# 3. On the cryptodisk branch the generator picks the container to unlock by
#    grepping the kernel cmdline for `cryptdevice=`, a token the stock
#    `encrypt` hook consumes but Deploytix's custom hooks never emit. That
#    grep is `|| true`-guarded upstream, so grub-mkconfig still succeeds --
#    but the generator then emits `cryptomount -a`, and GRUB prompts for
#    every LUKS container it can see before a snapshot entry boots. Pinning
#    crypt_source to the boot container's UUID restores `cryptomount -u`.
#
# Idempotent: markers record applied state. Re-run automatically whenever the
# grub-btrfs package writes 41_snapshots-btrfs (91-patch-grub-btrfs.hook).
# No-op when grub-btrfs is not installed.

set -euo pipefail

TARGET="/etc/grub.d/41_snapshots-btrfs"
MARKER="# DEPLOYTIX-INTEGRITY-PATCH-V1"
CONFIG="/etc/default/grub-btrfs/config"
CONFIG_MARKER="# DEPLOYTIX-CRYPTODISK-V1"
SOURCE_MARKER="# DEPLOYTIX-CRYPTSOURCE-V1"
CRYPTODISK=""##);
    reveal_strlit("#!/bin/bash\n");
    assert(boot_texts::PATCH_1@.subrange(0, 12) =~= "#!/bin/bash\n"@);
    reveal_strlit("\nCRYPTODISK=\"");
    assert(boot_texts::PATCH_1@.subrange(1675, 1688) =~= "\nCRYPTODISK=\""@);
}

proof fn lemma_patch_hook()
    ensures
        text::holds(boot_texts::PATCH_HOOK@, "\nExec = /usr/local/bin/patch-grub-btrfs-integrity\n"@),
{
    reveal_strlit(r#"[Trigger]
Operation = Install
Operation = Upgrade
Type = Path
Target = etc/grub.d/41_snapshots-btrfs

[Action]
Description = Adapting grub-btrfs to Deploytix encrypted layout...
When = PostTransaction
Exec = /usr/local/bin/patch-grub-btrfs-integrity
Depends = grub-btrfs
"#);
    reveal_strlit("\nExec = /usr/local/bin/patch-grub-btrfs-integrity\n");
    assert(boot_texts::PATCH_HOOK@.subrange(200, 250) =~= "\nExec = /usr/local/bin/patch-grub-btrfs-integrity\n"@);
    assert(text::at(boot_texts::PATCH_HOOK@, 200, "\nExec = /usr/local/bin/patch-grub-btrfs-integrity\n"@));
}

proof fn lemma_menu_conf()
    ensures
        text::ends(grub_btrfs::CONFIG_1@, "\nGRUB_BTRFS_ENABLE_CRYPTODISK=\""@),
        text::begins(grub_btrfs::CONFIG_2@, "\" "@),
        text::ends(grub_btrfs::CONFIG_2@, "\nGRUB_BTRFS_MKCONFIG="@),
{
    reveal_strlit(r#"#!/usr/bin/env bash
# Generated by Deploytix — grub-btrfs configuration.
# Replaces the package default; pacman preserves later upstream changes as
# /etc/default/grub-btrfs/config.pacnew.

GRUB_BTRFS_MKCONFIG_LIB=/usr/share/grub/grub-mkconfig_lib

# GRUB only needs cryptomount preludes in snapshot entries when /boot itself
# is a LUKS container; matched to the layout's boot_encryption at install.
GRUB_BTRFS_ENABLE_CRYPTODISK=""#);
    reveal_strlit("\nGRUB_BTRFS_ENABLE_CRYPTODISK=\"");
    assert(grub_btrfs::CONFIG_1@.subrange(400, 431) =~= "\nGRUB_BTRFS_ENABLE_CRYPTODISK=\""@);
    reveal_strlit(r#"" # DEPLOYTIX-CRYPTODISK-V1

# Cap the number of snapshot menu entries. Regenerations on standalone-GRUB
# systems rebuild and re-sign the EFI binary (seconds per run), so keep the
# per-event work bounded.
GRUB_BTRFS_LIMIT="10"

# Command grub-btrfsd runs when snapshots change. Standalone-GRUB systems use
# the reinstall-grub pipeline (grub-mkconfig -> grub-mkstandalone -> sbctl
# sign-all) so new entries reach the signed, embedded config.
GRUB_BTRFS_MKCONFIG="#);
    reveal_strlit("\" ");
    assert(grub_btrfs::CONFIG_2@.subrange(0, 2) =~= "\" "@);
    reveal_strlit("\nGRUB_BTRFS_MKCONFIG=");
    assert(grub_btrfs::CONFIG_2@.subrange(444, 465) =~= "\nGRUB_BTRFS_MKCONFIG="@);
}

/// The script that adapts the menu of snapshots is there, can be executed and is run by its
/// hook; it has GRUB unlock something exactly where /boot is encrypted, and then the container
/// that holds it.
pub proof fn snapshot_menu_is_adapted(config: DeploymentConfig, uuid: Option<Text>, root: Text)
    ensures
        ({
            let steps = bootloader::compat_steps(config, uuid, root, false);
            let program = "/usr/local/bin/patch-grub-btrfs-integrity"@;
            let encrypted = config.disk.boot_encryption;
            &&& exists|script: Text|
                {
                    &&& #[trigger] effects::leaves_with(steps, root + program, script, 0o755)
                    &&& text::begins(script, "#!/bin/bash\n"@)
                    &&& text::holds(
                        script,
                        "\nCRYPTODISK=\""@ + (if encrypted {
                            "true"@
                        } else {
                            "false"@
                        }) + "\"\nBOOT_LUKS_UUID=\""@ + (if encrypted && uuid is Some {
                            uuid->0
                        } else {
                            ""@
                        }) + "\"\n"@,
                    )
                }
            &&& exists|hook: Text|
                #[trigger] effects::leaves(
                    steps,
                    root + "/etc/pacman.d/hooks/91-patch-grub-btrfs.hook"@,
                    hook,
                ) && text::holds(hook, "\nExec = /usr/local/bin/patch-grub-btrfs-integrity\n"@)
        }),
{
    let steps = bootloader::compat_steps(config, uuid, root, false);
    let program = root + "/usr/local/bin/patch-grub-btrfs-integrity"@;
    let hook = root + "/etc/pacman.d/hooks/91-patch-grub-btrfs.hook"@;
    reveal_strlit("/usr/local/bin/patch-grub-btrfs-integrity");
    reveal_strlit("/etc/pacman.d/hooks/91-patch-grub-btrfs.hook");
    assert(program.len() == root.len() + 41 && hook.len() == root.len() + 44);
    let script = bootloader::patch_text(config, uuid);
    assert(effects::touches(steps[1], program));
    assert(effects::touches(steps[3], hook));
    assert(effects::leaves_with(steps, program, script, 0o755));
    assert(effects::leaves(steps, hook, boot_texts::PATCH_HOOK@));
    lemma_patch_hook();
    let encrypted = config.disk.boot_encryption;
    let flag = if encrypted {
        "true"@
    } else {
        "false"@
    };
    let pinned = if encrypted && uuid is Some {
        uuid->0
    } else {
        ""@
    };
    lemma_patch(flag, pinned);
}

proof fn lemma_patch(flag: Text, pinned: Text)
    ensures
        text::begins(boot_texts::patch_script_text(flag, pinned), "#!/bin/bash\n"@),
        text::holds(
            boot_texts::patch_script_text(flag, pinned),
            "\nCRYPTODISK=\""@ + flag + "\"\nBOOT_LUKS_UUID=\""@ + pinned + "\"\n"@,
        ),
{
    lemma_patch_start();
    let a = boot_texts::PATCH_1@;
    let b = boot_texts::PATCH_2@;
    let c = boot_texts::PATCH_3@;
    assert(b =~= "\"\nBOOT_LUKS_UUID=\""@) by {
        reveal_strlit(r#""
BOOT_LUKS_UUID=""#);
        reveal_strlit("\"\nBOOT_LUKS_UUID=\"");
    }
    lemma_patch_end();
    lemma_slot(a, flag, b, pinned, c, "\nCRYPTODISK=\""@, "\"\n"@);
    lemma_begins_sum(a, flag, "#!/bin/bash\n"@);
    lemma_begins_sum(a + flag, b, "#!/bin/bash\n"@);
    lemma_begins_sum(a + flag + b, pinned, "#!/bin/bash\n"@);
    lemma_begins_sum(a + flag + b + pinned, c, "#!/bin/bash\n"@);
}

proof fn lemma_patch_end()
    ensures
        text::begins(boot_texts::PATCH_3@, "\"\n"@),
{
    reveal_strlit(r#""

patch_snapshots_script() {
    if [ ! -f "$TARGET" ]; then
        echo "grub-btrfs script not found at $TARGET; nothing to patch." >&2
        return 0
    fi

    if grep -qF "$MARKER" "$TARGET"; then
        echo "Integrity patch already applied to $TARGET."
        return 0
    fi

    # root_uuid: grub-probe -> blkid -> empty
    sed -i 's@^root_uuid=\$(\${grub_probe} --device \${root_device} --target="fs_uuid" 2>/dev/null).*$@root_uuid=$(${grub_probe} --device ${root_device} --target="fs_uuid" 2>/dev/null || blkid -s UUID -o value "${root_device}" 2>/dev/null || true) # patched: integrity fallback@' "$TARGET"

    # boot_uuid: same chain
    sed -i 's@^boot_uuid=\$(\${grub_probe} --device \${boot_device} --target="fs_uuid" 2>/dev/null).*$@boot_uuid=$(${grub_probe} --device ${boot_device} --target="fs_uuid" 2>/dev/null || blkid -s UUID -o value "${boot_device}" 2>/dev/null || true) # patched: integrity fallback@' "$TARGET"

    # boot_hs: hints_string has no good fallback; just absorb failure
    sed -i 's@^boot_hs=\$(\${grub_probe} --device \${boot_device} --target="hints_string" 2>/dev/null).*$@boot_hs=$(${grub_probe} --device ${boot_device} --target="hints_string" 2>/dev/null || true) # patched: integrity fallback@' "$TARGET"

    # boot_fs: fall back to blkid TYPE
    sed -i 's@^boot_fs=\$(\${grub_probe} --device \${boot_device} --target="fs" 2>/dev/null).*$@boot_fs=$(${grub_probe} --device ${boot_device} --target="fs" 2>/dev/null || blkid -s TYPE -o value "${boot_device}" 2>/dev/null || true) # patched: integrity fallback@' "$TARGET"

    # Insert marker right after the shebang so future invocations skip
    sed -i "1a $MARKER" "$TARGET"

    # Sanity check: all four patches landed
    if ! grep -q "patched: integrity fallback" "$TARGET" \
       || [ "$(grep -c 'patched: integrity fallback' "$TARGET")" -lt 4 ]; then
        echo "ERROR: integrity patch did not apply cleanly to $TARGET" >&2
        exit 1
    fi

    echo "Patched $TARGET for LUKS2/integrity (grub-probe -> blkid fallback)."
}

# Applied once; the marker preserves any later manual edits by the user.
ensure_cryptodisk_flag() {
    if [ ! -f "$CONFIG" ]; then
        return 0
    fi

    if grep -qF "$CONFIG_MARKER" "$CONFIG"; then
        echo "GRUB_BTRFS_ENABLE_CRYPTODISK already managed in $CONFIG."
        return 0
    fi

    if grep -Eq '^#?[[:space:]]*GRUB_BTRFS_ENABLE_CRYPTODISK=' "$CONFIG"; then
        sed -i -E "s|^#?[[:space:]]*GRUB_BTRFS_ENABLE_CRYPTODISK=.*|GRUB_BTRFS_ENABLE_CRYPTODISK=\"$CRYPTODISK\" $CONFIG_MARKER|" "$CONFIG"
    else
        printf '\nGRUB_BTRFS_ENABLE_CRYPTODISK="%s" %s\n' "$CRYPTODISK" "$CONFIG_MARKER" >>"$CONFIG"
    fi

    echo "Set GRUB_BTRFS_ENABLE_CRYPTODISK=\"$CRYPTODISK\" in $CONFIG."
}

# Pin the LUKS container GRUB unlocks for snapshot entries. Appends a default
# to the existing extraction rather than rewriting it, so an upstream rewrite
# of that line degrades to `cryptomount -a` instead of corrupting the script.
ensure_crypt_source_fallback() {
    [ -n "$BOOT_LUKS_UUID" ] || return 0
    [ -f "$TARGET" ] || return 0

    if grep -qF "$SOURCE_MARKER" "$TARGET"; then
        echo "crypt_source fallback already applied to $TARGET."
        return 0
    fi

    if ! grep -q "cryptdevice=" "$TARGET"; then
        echo "No cryptdevice extraction in $TARGET; skipping crypt_source fallback." >&2
        return 0
    fi

    sed -i "/grep -o -P .cryptdevice=/a crypt_source=\"\${crypt_source:-UUID=$BOOT_LUKS_UUID}\" $SOURCE_MARKER" "$TARGET"

    if ! grep -qF "$SOURCE_MARKER" "$TARGET"; then
        echo "ERROR: crypt_source fallback did not apply to $TARGET" >&2
        exit 1
    fi

    echo "Pinned snapshot cryptomount to UUID=$BOOT_LUKS_UUID in $TARGET."
}

patch_snapshots_script
ensure_cryptodisk_flag
ensure_crypt_source_fallback
"#);
    reveal_strlit("\"\n");
    assert(boot_texts::PATCH_3@.subrange(0, 2) =~= "\"\n"@);
}

/// grub-btrfs unlocks exactly where /boot is encrypted, and when the snapshots change it makes
/// the menu anew by what the boot goes through: the whole of a standalone GRUB, else the menu
/// alone.
pub proof fn snapshot_menu_is_configured(config: DeploymentConfig, root: Text)
    ensures
        ({
            let steps = grub_btrfs::config_steps(config, root, false);
            let s = config.system;
            let standalone = s.secureboot && s.secureboot_method == SecureBootMethod::Sbctl
                && config.disk.encryption;
            exists|content: Text|
                {
                    &&& #[trigger] effects::leaves_with(
                        steps,
                        root + "/etc/default/grub-btrfs/config"@,
                        content,
                        0o644,
                    )
                    &&& text::holds(
                        content,
                        "\nGRUB_BTRFS_ENABLE_CRYPTODISK=\""@ + (if config.disk.boot_encryption {
                            "true"@
                        } else {
                            "false"@
                        }) + "\" "@,
                    )
                    &&& text::holds(
                        content,
                        "\nGRUB_BTRFS_MKCONFIG="@ + (if standalone {
                            "/usr/local/bin/reinstall-grub"@
                        } else {
                            "/usr/bin/grub-mkconfig"@
                        }) + "\n"@,
                    )
                }
        }),
{
    let steps = grub_btrfs::config_steps(config, root, false);
    let path = root + "/etc/default/grub-btrfs/config"@;
    let other = root + "/"@ + grub_btrfs::ESP_LOCATOR_REL@;
    reveal_strlit("/etc/default/grub-btrfs/config");
    reveal_strlit("/");
    reveal_strlit("etc/grub.d/40_deploytix-esp");
    assert(path.len() == root.len() + 30 && other.len() == root.len() + 28);
    let content = grub_btrfs::config_text(config);
    assert(effects::touches(steps[1], path));
    assert(effects::leaves_with(steps, path, content, 0o644));
    lemma_menu_conf();
    let flag = grub_btrfs::cryptodisk_of(config);
    let make = grub_btrfs::mkconfig_of(config);
    let block = if bootloader::standalone_grub(config) {
        grub_btrfs::standalone_block_text(
            grub_btrfs::ESP_GRUB_VAR@,
            grub_btrfs::ESP_LOCATOR_REL@,
            grub_btrfs::ESP_GBTRFS_DIR@,
        )
    } else {
        ""@
    };
    lemma_conf(flag, make, block);
}

proof fn lemma_conf(flag: Text, make: Text, block: Text)
    ensures
        ({
            let content = grub_btrfs::daemon_config_text(flag, make, block);
            &&& text::holds(
                content,
                "\nGRUB_BTRFS_ENABLE_CRYPTODISK=\""@ + flag + "\" "@,
            )
            &&& text::holds(content, "\nGRUB_BTRFS_MKCONFIG="@ + make + "\n"@)
        }),
{
    lemma_menu_conf();
    let a = grub_btrfs::CONFIG_1@;
    let b = grub_btrfs::CONFIG_2@;
    let n = "\n"@;
    let p = "\nGRUB_BTRFS_ENABLE_CRYPTODISK=\""@ + flag + "\" "@;
    let q = "\nGRUB_BTRFS_MKCONFIG="@ + make + n;
    lemma_between(a, flag, b, "\nGRUB_BTRFS_ENABLE_CRYPTODISK=\""@, "\" "@);
    text::lemma_sum_holds(a + flag + b, make, p);
    text::lemma_sum_holds(a + flag + b + make, n, p);
    text::lemma_sum_holds(a + flag + b + make + n, block, p);
    lemma_ends_sum(a + flag, b, "\nGRUB_BTRFS_MKCONFIG="@);
    assert(n.subrange(0, n.len() as int) =~= n);
    lemma_between(a + flag + b, make, n, "\nGRUB_BTRFS_MKCONFIG="@, n);
    text::lemma_sum_holds(a + flag + b + make + n, block, q);
}

} // verus!
