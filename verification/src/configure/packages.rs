//! Optional packages: drivers, Wine, games, the AUR and services around them.
use vstd::prelude::*;

use crate::config::model::DeploymentConfig;
use crate::config::options::{GpuDriverVendor, InitSystem, NetworkBackend};
use crate::configure::package_texts;
use crate::plan;
use crate::plan::{
    add_repo, chroot, extend, make_dir, pacman, preflight, say, write_file, write_if, Act, Step,
};
use crate::text;
use crate::text::{concat, concat3, join, push_text, show_list, sort_unique, Text};

verus! {

// --------------------------------------------------------------------------- GPUs
/// The drivers of NVIDIA. The prebuilt module fits the stock kernel only; for another it
/// is built on the target.
pub open spec fn nvidia_packages_list(own_kernel: bool) -> Seq<Text> {
    seq![
        if own_kernel {
            "nvidia-dkms"@
        } else {
            "nvidia"@
        },
        "nvidia-utils"@,
        "linux-firmware-nvidia"@,
    ]
}

fn nvidia_packages(own_kernel: bool) -> (r: Vec<String>)
    ensures
        r.deep_view() == nvidia_packages_list(own_kernel),
{
    let mut v: Vec<String> = Vec::new();
    push_text(
        &mut v,
        if own_kernel {
            "nvidia-dkms"
        } else {
            "nvidia"
        },
    );
    push_text(&mut v, "nvidia-utils");
    push_text(&mut v, "linux-firmware-nvidia");
    assert(v.deep_view() =~= nvidia_packages_list(own_kernel));
    v
}

/// The drivers of AMD.
pub open spec fn amd_packages_list() -> Seq<Text> {
    seq![
        "linux-firmware-amdgpu"@,
        "mesa"@,
        "vulkan-headers"@,
        "vulkan-icd-loader"@,
        "vulkan-mesa-implicit-layers"@,
        "vulkan-mesa-layers"@,
        "vulkan-radeon"@,
        "vulkan-tools"@,
        "vulkan-validation-layers"@,
        "vulkan-utility-libraries"@,
        "xf86-video-amdgpu"@,
    ]
}

fn amd_packages() -> (r: Vec<String>)
    ensures
        r.deep_view() == amd_packages_list(),
{
    let mut v: Vec<String> = Vec::new();
    push_text(&mut v, "linux-firmware-amdgpu");
    push_text(&mut v, "mesa");
    push_text(&mut v, "vulkan-headers");
    push_text(&mut v, "vulkan-icd-loader");
    push_text(&mut v, "vulkan-mesa-implicit-layers");
    push_text(&mut v, "vulkan-mesa-layers");
    push_text(&mut v, "vulkan-radeon");
    push_text(&mut v, "vulkan-tools");
    push_text(&mut v, "vulkan-validation-layers");
    push_text(&mut v, "vulkan-utility-libraries");
    push_text(&mut v, "xf86-video-amdgpu");
    assert(v.deep_view() =~= amd_packages_list());
    v
}

/// The drivers of Intel.
pub open spec fn intel_packages_list() -> Seq<Text> {
    seq![
        "linux-firmware-intel"@,
        "vulkan-intel"@,
        "mesa"@,
        "intel-media-driver"@,
        "xf86-video-intel"@,
    ]
}

fn intel_packages() -> (r: Vec<String>)
    ensures
        r.deep_view() == intel_packages_list(),
{
    let mut v: Vec<String> = Vec::new();
    push_text(&mut v, "linux-firmware-intel");
    push_text(&mut v, "vulkan-intel");
    push_text(&mut v, "mesa");
    push_text(&mut v, "intel-media-driver");
    push_text(&mut v, "xf86-video-intel");
    assert(v.deep_view() =~= intel_packages_list());
    v
}

/// What a vendor's hardware needs, under the stock kernel or under another.
pub open spec fn vendor_packages(vendor: GpuDriverVendor, own_kernel: bool) -> Seq<Text> {
    match vendor {
        GpuDriverVendor::Nvidia => nvidia_packages_list(own_kernel),
        GpuDriverVendor::Amd => amd_packages_list(),
        GpuDriverVendor::Intel => intel_packages_list(),
    }
}

/// What all the vendors' hardware needs, one vendor after the other.
pub open spec fn all_vendor_packages(
    vendors: Seq<GpuDriverVendor>,
    own_kernel: bool,
) -> Seq<Text>
    decreases vendors.len(),
{
    if vendors.len() == 0 {
        seq![]
    } else {
        all_vendor_packages(vendors.drop_last(), own_kernel) + vendor_packages(
            vendors.last(),
            own_kernel,
        )
    }
}

/// The driver packages: each once, in order.
pub open spec fn gpu_packages(vendors: Seq<GpuDriverVendor>, own_kernel: bool) -> Seq<Text> {
    text::arranged(all_vendor_packages(vendors, own_kernel))
}

fn append_texts(v: &mut Vec<String>, mut more: Vec<String>)
    ensures
        final(v).deep_view() == old(v).deep_view() + more.deep_view(),
{
    let ghost a = v.deep_view();
    let ghost b = more.deep_view();
    v.append(&mut more);
    assert(v.deep_view() =~= a + b);
}

fn gpu_driver_packages(vendors: &Vec<GpuDriverVendor>, own_kernel: bool) -> (r: Vec<String>)
    ensures
        r.deep_view() == gpu_packages(vendors@, own_kernel),
        vendors@.len() > 0 ==> r@.len() > 0,
{
    let mut all: Vec<String> = Vec::new();
    let mut i: usize = 0;
    assert(vendors@.take(0) =~= seq![]);
    while i < vendors.len()
        invariant
            i <= vendors@.len(),
            all.deep_view() == all_vendor_packages(vendors@.take(i as int), own_kernel),
            i > 0 ==> all.deep_view().len() > 0,
        decreases vendors.len() - i,
    {
        let more = match vendors[i] {
            GpuDriverVendor::Nvidia => nvidia_packages(own_kernel),
            GpuDriverVendor::Amd => amd_packages(),
            GpuDriverVendor::Intel => intel_packages(),
        };
        append_texts(&mut all, more);
        proof {
            assert(vendors@.take(i + 1).drop_last() =~= vendors@.take(i as int));
            assert(vendors@.take(i + 1).last() == vendors@[i as int]);
        }
        i += 1;
    }
    assert(vendors@.take(i as int) =~= vendors@);
    let r = sort_unique(&all);
    proof {
        if vendors@.len() > 0 {
            let t = all.deep_view()[0];
            assert(all.deep_view().contains(t));
            assert(r.deep_view().contains(t));
            assert(r.deep_view().len() == r@.len());
        }
    }
    r
}

/// The command that installs packages.
pub open spec fn install_command(packages: Seq<Text>) -> Text {
    "pacman -S --noconfirm --needed "@ + text::joined(packages, " "@)
}

/// Installing packages from the repositories.
pub open spec fn package_steps(install_root: Text, packages: Seq<Text>) -> Seq<Act> {
    seq![
        Act::Preflight { root: install_root, packages },
        Act::Pacman { root: install_root, command: install_command(packages) },
    ]
}

fn install_from_repositories(install_root: &str, packages: Vec<String>) -> (r: Vec<Step>)
    ensures
        plan::acts(r@) == package_steps(install_root@, packages.deep_view()),
{
    let mut steps: Vec<Step> = Vec::new();
    let command = concat("pacman -S --noconfirm --needed ", join(&packages, " ").as_str());
    let ghost names = packages.deep_view();
    preflight(&mut steps, install_root, packages);
    pacman(&mut steps, install_root, command.as_str());
    assert(plan::acts(steps@) =~= package_steps(install_root@, names));
    steps
}

/// Installing the drivers of the chosen vendors.
pub open spec fn install_gpu_drivers_steps(
    config: DeploymentConfig,
    install_root: Text,
    dry_run: bool,
) -> Seq<Act> {
    let packages = gpu_packages(
        config.packages.gpu_drivers@,
        config.packages.install_tkg_kernel,
    );
    if config.packages.gpu_drivers@.len() == 0 {
        seq![]
    } else if dry_run {
        seq![Act::Say("  [dry-run] Would install GPU driver packages: "@ + text::listed(packages))]
    } else {
        package_steps(install_root, packages)
    }
}

pub fn install_gpu_drivers(config: &DeploymentConfig, install_root: &str, dry_run: bool) -> (r: Vec<
    Step,
>)
    ensures
        plan::acts(r@) == install_gpu_drivers_steps(*config, install_root@, dry_run),
{
    let mut steps: Vec<Step> = Vec::new();
    if config.packages.gpu_drivers.len() > 0 {
        let packages = gpu_driver_packages(
            &config.packages.gpu_drivers,
            config.packages.install_tkg_kernel,
        );
        if dry_run {
            say(
                &mut steps,
                concat(
                    "  [dry-run] Would install GPU driver packages: ",
                    show_list(&packages).as_str(),
                ).as_str(),
            );
        } else {
            steps = install_from_repositories(install_root, packages);
        }
    }
    assert(plan::acts(steps@) =~= install_gpu_drivers_steps(*config, install_root@, dry_run));
    steps
}

// --------------------------------------------------------------------------- Wine
/// Wine; its last two packages come from Arch.
pub open spec fn wine_packages_list() -> Seq<Text> {
    seq!["wine"@, "vkd3d"@, "winetricks"@, "wine-mono"@, "wine-gecko"@]
}

fn wine_packages() -> (r: Vec<String>)
    ensures
        r.deep_view() == wine_packages_list(),
{
    let mut v: Vec<String> = Vec::new();
    push_text(&mut v, "wine");
    push_text(&mut v, "vkd3d");
    push_text(&mut v, "winetricks");
    push_text(&mut v, "wine-mono");
    push_text(&mut v, "wine-gecko");
    assert(v.deep_view() =~= wine_packages_list());
    v
}

/// Making the packages of Arch's [extra] repository available in the target.
pub open spec fn arch_repo_steps(install_root: Text) -> Seq<Act> {
    package_steps(install_root, seq!["artix-archlinux-support"@]) + seq![
        Act::Chroot { root: install_root, command: "pacman-key --populate archlinux"@ },
        Act::AddRepo { root: install_root },
        Act::Chroot { root: install_root, command: "pacman -Sy --noconfirm"@ },
    ]
}

fn ensure_arch_repos_in_chroot(install_root: &str) -> (r: Vec<Step>)
    ensures
        plan::acts(r@) == arch_repo_steps(install_root@),
{
    let mut support: Vec<String> = Vec::new();
    push_text(&mut support, "artix-archlinux-support");
    assert(support.deep_view() =~= seq!["artix-archlinux-support"@]);
    let mut steps = install_from_repositories(install_root, support);
    chroot(&mut steps, install_root, "pacman-key --populate archlinux");
    add_repo(&mut steps, install_root);
    chroot(&mut steps, install_root, "pacman -Sy --noconfirm");
    assert(plan::acts(steps@) =~= arch_repo_steps(install_root@));
    steps
}

/// Installing Wine.
pub open spec fn install_wine_packages_steps(
    config: DeploymentConfig,
    install_root: Text,
    dry_run: bool,
) -> Seq<Act> {
    if !config.packages.install_wine {
        seq![]
    } else if dry_run {
        seq![
            Act::Say("  [dry-run] Would install Wine packages: "@ + text::listed(
                wine_packages_list(),
            )),
        ]
    } else {
        arch_repo_steps(install_root) + package_steps(install_root, wine_packages_list())
    }
}

pub fn install_wine_packages(config: &DeploymentConfig, install_root: &str, dry_run: bool) -> (r:
    Vec<Step>)
    ensures
        plan::acts(r@) == install_wine_packages_steps(*config, install_root@, dry_run),
{
    let mut steps: Vec<Step> = Vec::new();
    if config.packages.install_wine {
        let packages = wine_packages();
        if dry_run {
            say(
                &mut steps,
                concat(
                    "  [dry-run] Would install Wine packages: ",
                    show_list(&packages).as_str(),
                ).as_str(),
            );
        } else {
            steps = ensure_arch_repos_in_chroot(install_root);
            extend(&mut steps, install_from_repositories(install_root, packages));
        }
    }
    assert(plan::acts(steps@) =~= install_wine_packages_steps(*config, install_root@, dry_run));
    steps
}

// -------------------------------------------------------------------------- games
/// The 32-bit Vulkan driver of a vendor.
pub open spec fn lib32_package(vendor: GpuDriverVendor) -> Text {
    match vendor {
        GpuDriverVendor::Nvidia => "lib32-nvidia-utils"@,
        GpuDriverVendor::Amd => "lib32-vulkan-radeon"@,
        GpuDriverVendor::Intel => "lib32-vulkan-intel"@,
    }
}

/// The 32-bit Vulkan drivers of the vendors: each once, in order.
pub open spec fn lib32_list(vendors: Seq<GpuDriverVendor>) -> Seq<Text> {
    text::arranged(vendors.map_values(|v: GpuDriverVendor| lib32_package(v)))
}

pub fn lib32_vulkan_packages(config: &DeploymentConfig) -> (r: Vec<String>)
    ensures
        r.deep_view() == lib32_list(config.packages.gpu_drivers@),
{
    let vendors = &config.packages.gpu_drivers;
    let ghost names = vendors@.map_values(|v: GpuDriverVendor| lib32_package(v));
    let mut all: Vec<String> = Vec::new();
    let mut i: usize = 0;
    while i < vendors.len()
        invariant
            i <= vendors@.len(),
            names == vendors@.map_values(|v: GpuDriverVendor| lib32_package(v)),
            all.deep_view() == names.take(i as int),
        decreases vendors.len() - i,
    {
        push_text(
            &mut all,
            match vendors[i] {
                GpuDriverVendor::Nvidia => "lib32-nvidia-utils",
                GpuDriverVendor::Amd => "lib32-vulkan-radeon",
                GpuDriverVendor::Intel => "lib32-vulkan-intel",
            },
        );
        i += 1;
        assert(all.deep_view() =~= names.take(i as int));
    }
    assert(names.take(i as int) =~= names);
    sort_unique(&all)
}

pub const ENABLE_LIB32: &'static str =
    "sed -i '/^#\\[lib32\\]/,/^#Include/ s/^#//' /etc/pacman.conf";

/// What games need; gamescope is there from the beginning.
pub open spec fn gaming_packages_list() -> Seq<Text> {
    seq!["steam"@]
}

fn gaming_packages() -> (r: Vec<String>)
    ensures
        r.deep_view() == gaming_packages_list(),
{
    let mut v: Vec<String> = Vec::new();
    push_text(&mut v, "steam");
    assert(v.deep_view() =~= gaming_packages_list());
    v
}

/// Installing Steam, with the 32-bit drivers that it needs.
pub open spec fn install_gaming_packages_steps(
    config: DeploymentConfig,
    install_root: Text,
    dry_run: bool,
) -> Seq<Act> {
    let drivers = lib32_list(config.packages.gpu_drivers@);
    if !config.packages.install_gaming {
        seq![]
    } else if dry_run {
        seq![
            Act::Say("  [dry-run] Would enable [lib32] repository"@),
            Act::Say("  [dry-run] Would install lib32 Vulkan drivers: "@ + text::listed(drivers)),
            Act::Say(
                "  [dry-run] Would install gaming packages: "@ + text::listed(
                    gaming_packages_list(),
                ),
            ),
        ]
    } else {
        seq![
            Act::Chroot { root: install_root, command: ENABLE_LIB32@ },
            Act::Chroot { root: install_root, command: "pacman -Sy --noconfirm"@ },
        ] + (if drivers.len() > 0 {
            package_steps(install_root, drivers)
        } else {
            seq![]
        }) + package_steps(install_root, gaming_packages_list())
    }
}

pub fn install_gaming_packages(config: &DeploymentConfig, install_root: &str, dry_run: bool) -> (r:
    Vec<Step>)
    ensures
        plan::acts(r@) == install_gaming_packages_steps(*config, install_root@, dry_run),
{
    let mut steps: Vec<Step> = Vec::new();
    if config.packages.install_gaming {
        let drivers = lib32_vulkan_packages(config);
        let packages = gaming_packages();
        assert(drivers.deep_view().len() == drivers@.len());
        if dry_run {
            say(&mut steps, "  [dry-run] Would enable [lib32] repository");
            say(
                &mut steps,
                concat(
                    "  [dry-run] Would install lib32 Vulkan drivers: ",
                    show_list(&drivers).as_str(),
                ).as_str(),
            );
            say(
                &mut steps,
                concat(
                    "  [dry-run] Would install gaming packages: ",
                    show_list(&packages).as_str(),
                ).as_str(),
            );
        } else {
            chroot(&mut steps, install_root, ENABLE_LIB32);
            chroot(&mut steps, install_root, "pacman -Sy --noconfirm");
            if drivers.len() > 0 {
                extend(&mut steps, install_from_repositories(install_root, drivers));
            }
            extend(&mut steps, install_from_repositories(install_root, packages));
        }
    }
    assert(plan::acts(steps@) =~= install_gaming_packages_steps(*config, install_root@, dry_run));
    steps
}

// ---------------------------------------------------------------------------- AUR
/// What building yay needs.
pub open spec fn yay_build_packages_list() -> Seq<Text> {
    seq!["go"@, "git"@, "base-devel"@]
}

fn yay_build_packages() -> (r: Vec<String>)
    ensures
        r.deep_view() == yay_build_packages_list(),
{
    let mut v: Vec<String> = Vec::new();
    push_text(&mut v, "go");
    push_text(&mut v, "git");
    push_text(&mut v, "base-devel");
    assert(v.deep_view() =~= yay_build_packages_list());
    v
}

/// Building yay as the user.
pub open spec fn install_yay_steps(
    config: DeploymentConfig,
    install_root: Text,
    dry_run: bool,
) -> Seq<Act> {
    if !config.packages.install_yay {
        seq![]
    } else if dry_run {
        seq![
            Act::Say(
                "  [dry-run] Would install go and build yay from source as "@ + config.user.name@,
            ),
        ]
    } else {
        package_steps(install_root, yay_build_packages_list()) + seq![
            Act::Chroot {
                root: install_root,
                command: package_texts::yay_build_text(config.user.name@),
            },
        ]
    }
}

pub fn install_yay(config: &DeploymentConfig, install_root: &str, dry_run: bool) -> (r: Vec<Step>)
    ensures
        plan::acts(r@) == install_yay_steps(*config, install_root@, dry_run),
{
    let mut steps: Vec<Step> = Vec::new();
    let user = config.user.name.as_str();
    if config.packages.install_yay {
        if dry_run {
            say(
                &mut steps,
                concat("  [dry-run] Would install go and build yay from source as ", user).as_str(),
            );
        } else {
            steps = install_from_repositories(install_root, yay_build_packages());
            chroot(&mut steps, install_root, package_texts::yay_build(user).as_str());
        }
    }
    assert(plan::acts(steps@) =~= install_yay_steps(*config, install_root@, dry_run));
    steps
}

/// Installing packages from the AUR as the user.
pub open spec fn yay_command(user: Text, packages: Text) -> Text {
    "sudo -u "@ + user + " yay -S --noconfirm --needed "@ + packages
}

fn with_yay(user: &str, packages: &str) -> (r: String)
    ensures
        r@ == yay_command(user@, packages@),
{
    concat(concat3("sudo -u ", user, " yay -S --noconfirm --needed ").as_str(), packages)
}

/// Installing the browser, an AUR package, where it was chosen and there is yay.
pub open spec fn install_aur_packages_steps(
    config: DeploymentConfig,
    install_root: Text,
    dry_run: bool,
) -> Seq<Act> {
    if config.packages.install_yay && config.packages.install_zen_browser {
        if dry_run {
            seq![
                Act::Say(
                    "  [dry-run] Would install AUR packages via yay as "@ + config.user.name@
                        + ": [\"zen-browser-bin\"]"@,
                ),
            ]
        } else {
            seq![
                Act::Chroot {
                    root: install_root,
                    command: yay_command(config.user.name@, "zen-browser-bin"@),
                },
            ]
        }
    } else {
        seq![]
    }
}

pub fn install_aur_packages(
    config: &DeploymentConfig,
    install_root: &str,
    dry_run: bool,
) -> (r: Vec<Step>)
    ensures
        plan::acts(r@) == install_aur_packages_steps(*config, install_root@, dry_run),
{
    let mut steps: Vec<Step> = Vec::new();
    if config.packages.install_yay && config.packages.install_zen_browser {
        if dry_run {
            say(
                &mut steps,
                concat3(
                    "  [dry-run] Would install AUR packages via yay as ",
                    config.user.name.as_str(),
                    ": [\"zen-browser-bin\"]",
                ).as_str(),
            );
        } else {
            chroot(
                &mut steps,
                install_root,
                with_yay(config.user.name.as_str(), "zen-browser-bin").as_str(),
            );
        }
    }
    assert(plan::acts(steps@) =~= install_aur_packages_steps(*config, install_root@, dry_run));
    steps
}

/// Installing the tools for btrfs snapshots.
pub open spec fn install_btrfs_tools_steps(
    config: DeploymentConfig,
    install_root: Text,
    dry_run: bool,
) -> Seq<Act> {
    if config.packages.install_btrfs_tools {
        if dry_run {
            seq![
                Act::Say(
                    "  [dry-run] Would install btrfs tools via yay as "@ + config.user.name@
                        + ": [\"snapper\", \"btrfs-assistant\"]"@,
                ),
            ]
        } else {
            seq![
                Act::Chroot {
                    root: install_root,
                    command: yay_command(config.user.name@, "snapper btrfs-assistant"@),
                },
            ]
        }
    } else {
        seq![]
    }
}

pub fn install_btrfs_tools(
    config: &DeploymentConfig,
    install_root: &str,
    dry_run: bool,
) -> (r: Vec<Step>)
    ensures
        plan::acts(r@) == install_btrfs_tools_steps(*config, install_root@, dry_run),
{
    let mut steps: Vec<Step> = Vec::new();
    if config.packages.install_btrfs_tools {
        if dry_run {
            say(
                &mut steps,
                concat3(
                    "  [dry-run] Would install btrfs tools via yay as ",
                    config.user.name.as_str(),
                    ": [\"snapper\", \"btrfs-assistant\"]",
                ).as_str(),
            );
        } else {
            chroot(
                &mut steps,
                install_root,
                with_yay(config.user.name.as_str(), "snapper btrfs-assistant").as_str(),
            );
        }
    }
    assert(plan::acts(steps@) =~= install_btrfs_tools_steps(*config, install_root@, dry_run));
    steps
}

// ---------------------------------------------------------------------- autostart
/// What starts with the user's session: the audio services, and the applet of
/// NetworkManager where that manages the network.
pub open spec fn install_autostart_entries_steps(
    config: DeploymentConfig,
    audio_script: Text,
    install_root: Text,
    dry_run: bool,
) -> Seq<Act> {
    if dry_run {
        seq![
            Act::Say(
                "  [dry-run] Would install audio-startup to /home/"@ + config.user.name@
                    + "/.local/bin/"@,
            ),
            Act::Say(
                "  [dry-run] Would install autostart .desktop entries to /home/"@
                    + config.user.name@ + "/.config/autostart/"@,
            ),
        ]
    } else {
        seq![
            Act::MakeDir(install_root + "/home/"@ + config.user.name@ + "/.local/bin"@),
            Act::MakeDir(install_root + "/home/"@ + config.user.name@ + "/.config/autostart"@),
            Act::Write {
                path: install_root + "/home/"@ + config.user.name@ + "/.local/bin/audio-startup"@,
                content: audio_script,
                mode: Some(0o755),
            },
            Act::Write {
                path: install_root + "/home/"@ + config.user.name@
                    + "/.config/autostart/audio-startup.desktop"@,
                content: package_texts::audio_desktop_text(config.user.name@),
                mode: Some(0o644),
            },
        ] + (if config.network.backend == NetworkBackend::NetworkManager {
            seq![
                Act::Write {
                    path: install_root + "/home/"@ + config.user.name@
                        + "/.config/autostart/nm-applet.desktop"@,
                    content: package_texts::NM_DESKTOP@,
                    mode: Some(0o644),
                },
            ]
        } else {
            seq![]
        }) + seq![
            Act::Chroot {
                root: install_root,
                command: "chown -R "@ + config.user.name@ + ":"@ + config.user.name@ + " /home/"@
                    + config.user.name@ + "/.local /home/"@ + config.user.name@ + "/.config"@,
            },
        ]
    }
}

/// `audio_script` starts the audio services.
pub fn install_autostart_entries(
    config: &DeploymentConfig,
    audio_script: &str,
    install_root: &str,
    dry_run: bool,
) -> (r: Vec<Step>)
    ensures
        plan::acts(r@) == install_autostart_entries_steps(
            *config,
            audio_script@,
            install_root@,
            dry_run,
        ),
{
    let mut steps: Vec<Step> = Vec::new();
    if dry_run {
        say(
            &mut steps,
            concat3(
                "  [dry-run] Would install audio-startup to /home/",
                config.user.name.as_str(),
                "/.local/bin/",
            ).as_str(),
        );
        say(
            &mut steps,
            concat3(
                "  [dry-run] Would install autostart .desktop entries to /home/",
                config.user.name.as_str(),
                "/.config/autostart/",
            ).as_str(),
        );
    } else {
        make_dir(
            &mut steps,
            concat(
                concat3(install_root, "/home/", config.user.name.as_str()).as_str(),
                "/.local/bin",
            ).as_str(),
        );
        make_dir(
            &mut steps,
            concat(
                concat3(install_root, "/home/", config.user.name.as_str()).as_str(),
                "/.config/autostart",
            ).as_str(),
        );
        write_file(
            &mut steps,
            concat(
                concat3(install_root, "/home/", config.user.name.as_str()).as_str(),
                "/.local/bin/audio-startup",
            ).as_str(),
            audio_script,
            Some(0o755),
        );
        write_file(
            &mut steps,
            concat(
                concat3(install_root, "/home/", config.user.name.as_str()).as_str(),
                "/.config/autostart/audio-startup.desktop",
            ).as_str(),
            package_texts::audio_desktop(config.user.name.as_str()).as_str(),
            Some(0o644),
        );
        if config.network.backend == NetworkBackend::NetworkManager {
            write_file(
                &mut steps,
                concat(
                    concat3(install_root, "/home/", config.user.name.as_str()).as_str(),
                    "/.config/autostart/nm-applet.desktop",
                ).as_str(),
                package_texts::NM_DESKTOP,
                Some(0o644),
            );
        }
        chroot(
            &mut steps,
            install_root,
            concat3(
                concat3(
                    concat3(
                        concat3("chown -R ", config.user.name.as_str(), ":").as_str(),
                        config.user.name.as_str(),
                        " /home/",
                    ).as_str(),
                    config.user.name.as_str(),
                    "/.local /home/",
                ).as_str(),
                config.user.name.as_str(),
                "/.config",
            ).as_str(),
        );
    }
    assert(plan::acts(steps@) =~= install_autostart_entries_steps(
        *config,
        audio_script@,
        install_root@,
        dry_run,
    ));
    steps
}

// ------------------------------------------------------------- kernel parameters
/// Tuning the kernel for games.
pub open spec fn install_sysctl_gaming_steps(
    config: DeploymentConfig,
    install_root: Text,
    dry_run: bool,
) -> Seq<Act> {
    if config.packages.sysctl_gaming_tweaks {
        if dry_run {
            seq![
                Act::Say("  [dry-run] Would write /etc/sysctl.d/99-gaming.conf"@),
                Act::Say("    vm.max_map_count = 2147483642"@),
                Act::Say("    vm.swappiness    = 10"@),
            ]
        } else {
            seq![
                Act::MakeDir(install_root + "/etc/sysctl.d"@),
                Act::Write {
                    path: install_root + "/etc/sysctl.d/99-gaming.conf"@,
                    content: package_texts::GAMING_SYSCTL_CONF@,
                    mode: Some(0o644),
                },
            ]
        }
    } else {
        seq![]
    }
}

pub fn install_sysctl_gaming(
    config: &DeploymentConfig,
    install_root: &str,
    dry_run: bool,
) -> (r: Vec<Step>)
    ensures
        plan::acts(r@) == install_sysctl_gaming_steps(*config, install_root@, dry_run),
{
    let mut steps: Vec<Step> = Vec::new();
    if config.packages.sysctl_gaming_tweaks {
        if dry_run {
            say(&mut steps, "  [dry-run] Would write /etc/sysctl.d/99-gaming.conf");
            say(&mut steps, "    vm.max_map_count = 2147483642");
            say(&mut steps, "    vm.swappiness    = 10");
        } else {
            make_dir(&mut steps, concat(install_root, "/etc/sysctl.d").as_str());
            write_file(
                &mut steps,
                concat(install_root, "/etc/sysctl.d/99-gaming.conf").as_str(),
                package_texts::GAMING_SYSCTL_CONF,
                Some(0o644),
            );
        }
    }
    assert(plan::acts(steps@) =~= install_sysctl_gaming_steps(*config, install_root@, dry_run));
    steps
}

/// Tuning the kernel for the network.
pub open spec fn install_sysctl_network_performance_steps(
    config: DeploymentConfig,
    install_root: Text,
    dry_run: bool,
) -> Seq<Act> {
    if config.packages.sysctl_network_performance {
        if dry_run {
            seq![
                Act::Say("  [dry-run] Would write /etc/sysctl.d/99-network-performance.conf"@),
                Act::Say("    net.ipv4.tcp_congestion_control = bbr"@),
                Act::Say("    net.core.default_qdisc          = fq"@),
                Act::Say("    net.core.rmem_max               = 16777216"@),
            ]
        } else {
            seq![
                Act::MakeDir(install_root + "/etc/sysctl.d"@),
                Act::Write {
                    path: install_root + "/etc/sysctl.d/99-network-performance.conf"@,
                    content: package_texts::NETWORK_PERFORMANCE_SYSCTL_CONF@,
                    mode: Some(0o644),
                },
            ]
        }
    } else {
        seq![]
    }
}

pub fn install_sysctl_network_performance(
    config: &DeploymentConfig,
    install_root: &str,
    dry_run: bool,
) -> (r: Vec<Step>)
    ensures
        plan::acts(r@) == install_sysctl_network_performance_steps(*config, install_root@, dry_run),
{
    let mut steps: Vec<Step> = Vec::new();
    if config.packages.sysctl_network_performance {
        if dry_run {
            say(&mut steps, "  [dry-run] Would write /etc/sysctl.d/99-network-performance.conf");
            say(&mut steps, "    net.ipv4.tcp_congestion_control = bbr");
            say(&mut steps, "    net.core.default_qdisc          = fq");
            say(&mut steps, "    net.core.rmem_max               = 16777216");
        } else {
            make_dir(&mut steps, concat(install_root, "/etc/sysctl.d").as_str());
            write_file(
                &mut steps,
                concat(install_root, "/etc/sysctl.d/99-network-performance.conf").as_str(),
                package_texts::NETWORK_PERFORMANCE_SYSCTL_CONF,
                Some(0o644),
            );
        }
    }
    assert(plan::acts(steps@) =~= install_sysctl_network_performance_steps(
        *config,
        install_root@,
        dry_run,
    ));
    steps
}

// ----------------------------------------------------------------------- services
/// Handheld Daemon under each init system. It runs as root and reads the
/// settings of the user.
pub open spec fn write_hhd_service_steps(
    init: InitSystem,
    install_root: Text,
    user: Text,
) -> Seq<Act> {
    match init {
        InitSystem::Runit => seq![
            Act::MakeDir(install_root + "/etc/runit/sv/hhd"@),
            Act::Write {
                path: install_root + "/etc/runit/sv/hhd/run"@,
                content: package_texts::hhd_runit_text(user),
                mode: Some(0o755),
            },
            Act::MakeDir(install_root + "/etc/runit/sv/hhd/log"@),
            Act::Write {
                path: install_root + "/etc/runit/sv/hhd/log/run"@,
                content: package_texts::HHD_LOG@,
                mode: Some(0o755),
            },
        ],
        InitSystem::OpenRC => seq![
            Act::MakeDir(install_root + "/etc/init.d"@),
            Act::Write {
                path: install_root + "/etc/init.d/hhd"@,
                content: package_texts::hhd_openrc_text(user),
                mode: Some(0o755),
            },
        ],
        InitSystem::S6 => seq![
            Act::MakeDir(install_root + "/etc/s6/sv/hhd"@),
            Act::Write {
                path: install_root + "/etc/s6/sv/hhd/type"@,
                content: "longrun\n"@,
                mode: None,
            },
            Act::Write {
                path: install_root + "/etc/s6/sv/hhd/run"@,
                content: package_texts::hhd_s6_text(user),
                mode: Some(0o755),
            },
        ],
        InitSystem::Dinit => seq![
            Act::MakeDir(install_root + "/etc/dinit.d"@),
            Act::Write {
                path: install_root + "/etc/dinit.d/hhd"@,
                content: package_texts::hhd_dinit_text(user),
                mode: Some(0o644),
            },
        ],
    }
}

fn write_hhd_service(init: InitSystem, install_root: &str, user: &str) -> (r: Vec<Step>)
    ensures
        plan::acts(r@) == write_hhd_service_steps(init, install_root@, user@),
{
    let mut steps: Vec<Step> = Vec::new();
    match init {
        InitSystem::Runit => {
            make_dir(&mut steps, concat(install_root, "/etc/runit/sv/hhd").as_str());
            write_file(
                &mut steps,
                concat(install_root, "/etc/runit/sv/hhd/run").as_str(),
                package_texts::hhd_runit(user).as_str(),
                Some(0o755),
            );
            make_dir(&mut steps, concat(install_root, "/etc/runit/sv/hhd/log").as_str());
            write_file(
                &mut steps,
                concat(install_root, "/etc/runit/sv/hhd/log/run").as_str(),
                package_texts::HHD_LOG,
                Some(0o755),
            );
        },
        InitSystem::OpenRC => {
            make_dir(&mut steps, concat(install_root, "/etc/init.d").as_str());
            write_file(
                &mut steps,
                concat(install_root, "/etc/init.d/hhd").as_str(),
                package_texts::hhd_openrc(user).as_str(),
                Some(0o755),
            );
        },
        InitSystem::S6 => {
            make_dir(&mut steps, concat(install_root, "/etc/s6/sv/hhd").as_str());
            write_file(
                &mut steps,
                concat(install_root, "/etc/s6/sv/hhd/type").as_str(),
                "longrun\n",
                None,
            );
            write_file(
                &mut steps,
                concat(install_root, "/etc/s6/sv/hhd/run").as_str(),
                package_texts::hhd_s6(user).as_str(),
                Some(0o755),
            );
        },
        InitSystem::Dinit => {
            make_dir(&mut steps, concat(install_root, "/etc/dinit.d").as_str());
            write_file(
                &mut steps,
                concat(install_root, "/etc/dinit.d/hhd").as_str(),
                package_texts::hhd_dinit(user).as_str(),
                Some(0o644),
            );
        },
    }
    assert(plan::acts(steps@) =~= write_hhd_service_steps(init, install_root@, user@));
    steps
}

/// Decky Loader under each init system. It runs as the user over its data
/// directory.
pub open spec fn write_decky_service_steps(
    init: InitSystem,
    install_root: Text,
    user: Text,
    data: Text,
) -> Seq<Act> {
    let wd = data + "/services"@;
    let pl = data + "/services/PluginLoader"@;
    match init {
        InitSystem::Runit => seq![
            Act::MakeDir(install_root + "/etc/runit/sv/plugin_loader"@),
            Act::Write {
                path: install_root + "/etc/runit/sv/plugin_loader/run"@,
                content: package_texts::decky_runit_text(data, user, wd, pl),
                mode: Some(0o755),
            },
            Act::MakeDir(install_root + "/etc/runit/sv/plugin_loader/log"@),
            Act::Write {
                path: install_root + "/etc/runit/sv/plugin_loader/log/run"@,
                content: package_texts::DECKY_LOG@,
                mode: Some(0o755),
            },
        ],
        InitSystem::OpenRC => seq![
            Act::MakeDir(install_root + "/etc/init.d"@),
            Act::Write {
                path: install_root + "/etc/init.d/plugin_loader"@,
                content: package_texts::decky_openrc_text(data, user, wd, pl),
                mode: Some(0o755),
            },
        ],
        InitSystem::S6 => seq![
            Act::MakeDir(install_root + "/etc/s6/sv/plugin_loader"@),
            Act::Write {
                path: install_root + "/etc/s6/sv/plugin_loader/type"@,
                content: "longrun\n"@,
                mode: None,
            },
            Act::Write {
                path: install_root + "/etc/s6/sv/plugin_loader/run"@,
                content: package_texts::decky_s6_text(data, user, wd, pl),
                mode: Some(0o755),
            },
        ],
        InitSystem::Dinit => seq![
            Act::MakeDir(install_root + "/etc/dinit.d"@),
            Act::Write {
                path: install_root + "/etc/dinit.d/plugin_loader.env"@,
                content: package_texts::decky_env_text(data, user),
                mode: Some(0o644),
            },
            Act::Write {
                path: install_root + "/etc/dinit.d/plugin_loader"@,
                content: package_texts::decky_dinit_text(user, wd, pl),
                mode: Some(0o644),
            },
        ],
    }
}

fn write_decky_service(
    init: InitSystem,
    install_root: &str,
    user: &str,
    data: &str,
) -> (r: Vec<Step>)
    ensures
        plan::acts(r@) == write_decky_service_steps(init, install_root@, user@, data@),
{
    let mut steps: Vec<Step> = Vec::new();
    let wd = concat(data, "/services");
    let pl = concat(data, "/services/PluginLoader");
    match init {
        InitSystem::Runit => {
            make_dir(&mut steps, concat(install_root, "/etc/runit/sv/plugin_loader").as_str());
            write_file(
                &mut steps,
                concat(install_root, "/etc/runit/sv/plugin_loader/run").as_str(),
                package_texts::decky_runit(data, user, wd.as_str(), pl.as_str()).as_str(),
                Some(0o755),
            );
            make_dir(&mut steps, concat(install_root, "/etc/runit/sv/plugin_loader/log").as_str());
            write_file(
                &mut steps,
                concat(install_root, "/etc/runit/sv/plugin_loader/log/run").as_str(),
                package_texts::DECKY_LOG,
                Some(0o755),
            );
        },
        InitSystem::OpenRC => {
            make_dir(&mut steps, concat(install_root, "/etc/init.d").as_str());
            write_file(
                &mut steps,
                concat(install_root, "/etc/init.d/plugin_loader").as_str(),
                package_texts::decky_openrc(data, user, wd.as_str(), pl.as_str()).as_str(),
                Some(0o755),
            );
        },
        InitSystem::S6 => {
            make_dir(&mut steps, concat(install_root, "/etc/s6/sv/plugin_loader").as_str());
            write_file(
                &mut steps,
                concat(install_root, "/etc/s6/sv/plugin_loader/type").as_str(),
                "longrun\n",
                None,
            );
            write_file(
                &mut steps,
                concat(install_root, "/etc/s6/sv/plugin_loader/run").as_str(),
                package_texts::decky_s6(data, user, wd.as_str(), pl.as_str()).as_str(),
                Some(0o755),
            );
        },
        InitSystem::Dinit => {
            make_dir(&mut steps, concat(install_root, "/etc/dinit.d").as_str());
            write_file(
                &mut steps,
                concat(install_root, "/etc/dinit.d/plugin_loader.env").as_str(),
                package_texts::decky_env(data, user).as_str(),
                Some(0o644),
            );
            write_file(
                &mut steps,
                concat(install_root, "/etc/dinit.d/plugin_loader").as_str(),
                package_texts::decky_dinit(user, wd.as_str(), pl.as_str()).as_str(),
                Some(0o644),
            );
        },
    }
    assert(plan::acts(steps@) =~= write_decky_service_steps(init, install_root@, user@, data@));
    steps
}

/// The motion server under each init system. It runs as the user.
pub open spec fn write_evdevhook2_service_steps(
    init: InitSystem,
    install_root: Text,
    user: Text,
) -> Seq<Act> {
    match init {
        InitSystem::Runit => seq![
            Act::MakeDir(install_root + "/etc/runit/sv/evdevhook2"@),
            Act::Write {
                path: install_root + "/etc/runit/sv/evdevhook2/run"@,
                content: package_texts::evdevhook2_runit_text(user),
                mode: Some(0o755),
            },
            Act::MakeDir(install_root + "/etc/runit/sv/evdevhook2/log"@),
            Act::Write {
                path: install_root + "/etc/runit/sv/evdevhook2/log/run"@,
                content: package_texts::EVDEVHOOK2_LOG@,
                mode: Some(0o755),
            },
        ],
        InitSystem::OpenRC => seq![
            Act::MakeDir(install_root + "/etc/init.d"@),
            Act::Write {
                path: install_root + "/etc/init.d/evdevhook2"@,
                content: package_texts::evdevhook2_openrc_text(user),
                mode: Some(0o755),
            },
        ],
        InitSystem::S6 => seq![
            Act::MakeDir(install_root + "/etc/s6/sv/evdevhook2"@),
            Act::Write {
                path: install_root + "/etc/s6/sv/evdevhook2/type"@,
                content: "longrun\n"@,
                mode: None,
            },
            Act::Write {
                path: install_root + "/etc/s6/sv/evdevhook2/run"@,
                content: package_texts::evdevhook2_s6_text(user),
                mode: Some(0o755),
            },
        ],
        InitSystem::Dinit => seq![
            Act::MakeDir(install_root + "/etc/dinit.d"@),
            Act::Write {
                path: install_root + "/etc/dinit.d/evdevhook2"@,
                content: package_texts::evdevhook2_dinit_text(user),
                mode: Some(0o644),
            },
        ],
    }
}

fn write_evdevhook2_service(init: InitSystem, install_root: &str, user: &str) -> (r: Vec<Step>)
    ensures
        plan::acts(r@) == write_evdevhook2_service_steps(init, install_root@, user@),
{
    let mut steps: Vec<Step> = Vec::new();
    match init {
        InitSystem::Runit => {
            make_dir(&mut steps, concat(install_root, "/etc/runit/sv/evdevhook2").as_str());
            write_file(
                &mut steps,
                concat(install_root, "/etc/runit/sv/evdevhook2/run").as_str(),
                package_texts::evdevhook2_runit(user).as_str(),
                Some(0o755),
            );
            make_dir(&mut steps, concat(install_root, "/etc/runit/sv/evdevhook2/log").as_str());
            write_file(
                &mut steps,
                concat(install_root, "/etc/runit/sv/evdevhook2/log/run").as_str(),
                package_texts::EVDEVHOOK2_LOG,
                Some(0o755),
            );
        },
        InitSystem::OpenRC => {
            make_dir(&mut steps, concat(install_root, "/etc/init.d").as_str());
            write_file(
                &mut steps,
                concat(install_root, "/etc/init.d/evdevhook2").as_str(),
                package_texts::evdevhook2_openrc(user).as_str(),
                Some(0o755),
            );
        },
        InitSystem::S6 => {
            make_dir(&mut steps, concat(install_root, "/etc/s6/sv/evdevhook2").as_str());
            write_file(
                &mut steps,
                concat(install_root, "/etc/s6/sv/evdevhook2/type").as_str(),
                "longrun\n",
                None,
            );
            write_file(
                &mut steps,
                concat(install_root, "/etc/s6/sv/evdevhook2/run").as_str(),
                package_texts::evdevhook2_s6(user).as_str(),
                Some(0o755),
            );
        },
        InitSystem::Dinit => {
            make_dir(&mut steps, concat(install_root, "/etc/dinit.d").as_str());
            write_file(
                &mut steps,
                concat(install_root, "/etc/dinit.d/evdevhook2").as_str(),
                package_texts::evdevhook2_dinit(user).as_str(),
                Some(0o644),
            );
        },
    }
    assert(plan::acts(steps@) =~= write_evdevhook2_service_steps(init, install_root@, user@));
    steps
}

/// Installing Handheld Daemon.
pub open spec fn install_hhd_steps(
    config: DeploymentConfig,
    install_root: Text,
    dry_run: bool,
) -> Seq<Act> {
    if config.packages.install_hhd {
        if dry_run {
            seq![
                Act::Say(
                    "  [dry-run] Would install AUR packages via yay as "@ + config.user.name@
                        + ": hhd-git"@,
                ),
                Act::Say("  [dry-run] Would write /etc/modules-load.d/hhd.conf (uhid)"@),
                Act::Say(
                    "  [dry-run] Would write HHD service file for init: "@
                        + config.system.init.shown(),
                ),
            ]
        } else {
            seq![
                Act::Chroot {
                    root: install_root,
                    command: yay_command(config.user.name@, "hhd-git"@),
                },
                Act::MakeDir(install_root + "/etc/modules-load.d"@),
                Act::Write {
                    path: install_root + "/etc/modules-load.d/hhd.conf"@,
                    content: package_texts::HHD_MODULES@,
                    mode: Some(0o644),
                },
            ] + write_hhd_service_steps(config.system.init, install_root, config.user.name@)
        }
    } else {
        seq![]
    }
}

pub fn install_hhd(config: &DeploymentConfig, install_root: &str, dry_run: bool) -> (r: Vec<Step>)
    ensures
        plan::acts(r@) == install_hhd_steps(*config, install_root@, dry_run),
{
    let mut steps: Vec<Step> = Vec::new();
    if config.packages.install_hhd {
        if dry_run {
            say(
                &mut steps,
                concat3(
                    "  [dry-run] Would install AUR packages via yay as ",
                    config.user.name.as_str(),
                    ": hhd-git",
                ).as_str(),
            );
            say(&mut steps, "  [dry-run] Would write /etc/modules-load.d/hhd.conf (uhid)");
            say(
                &mut steps,
                concat(
                    "  [dry-run] Would write HHD service file for init: ",
                    config.system.init.to_text().as_str(),
                ).as_str(),
            );
        } else {
            chroot(
                &mut steps,
                install_root,
                with_yay(config.user.name.as_str(), "hhd-git").as_str(),
            );
            make_dir(&mut steps, concat(install_root, "/etc/modules-load.d").as_str());
            write_file(
                &mut steps,
                concat(install_root, "/etc/modules-load.d/hhd.conf").as_str(),
                package_texts::HHD_MODULES,
                Some(0o644),
            );
            extend(
                &mut steps,
                write_hhd_service(config.system.init, install_root, config.user.name.as_str()),
            );
        }
    }
    assert(plan::acts(steps@) =~= install_hhd_steps(*config, install_root@, dry_run));
    steps
}

/// Installing Decky Loader. Steam gives its frontend access, also where it is a
/// Flatpak.
pub open spec fn install_decky_loader_steps(
    config: DeploymentConfig,
    install_root: Text,
    dry_run: bool,
) -> Seq<Act> {
    let data = "/home/"@ + config.user.name@ + "/.local/var/opt/decky-loader"@;
    if config.packages.install_decky_loader {
        if dry_run {
            seq![
                Act::Say(
                    "  [dry-run] Would install decky-loader-bin via yay as "@ + config.user.name@,
                ),
                Act::Say(
                    "  [dry-run] Would bootstrap "@ + data + " via /usr/bin/decky-loader-helper"@,
                ),
                Act::Say(
                    "  [dry-run] Would write Decky Loader service file for init: "@
                        + config.system.init.shown(),
                ),
            ]
        } else {
            seq![
                Act::Chroot {
                    root: install_root,
                    command: yay_command(config.user.name@, "decky-loader-bin"@),
                },
                Act::MakeDir(install_root + "/home/"@ + config.user.name@ + "/.steam/steam"@),
                Act::Write {
                    path: install_root + "/home/"@ + config.user.name@
                        + "/.steam/steam/.cef-enable-remote-debugging"@,
                    content: ""@,
                    mode: None,
                },
                Act::WriteIf {
                    guard: install_root + "/home/"@ + config.user.name@
                        + "/.var/app/com.valvesoftware.Steam/data/Steam"@,
                    path: install_root + "/home/"@ + config.user.name@
                        + "/.var/app/com.valvesoftware.Steam/data/Steam/.cef-enable-remote-debugging"@,
                    content: ""@,
                },
                Act::Chroot {
                    root: install_root,
                    command: package_texts::decky_helper_text(config.user.name@),
                },
            ] + write_decky_service_steps(config.system.init, install_root, config.user.name@, data)
                + seq![
                    Act::Chroot {
                        root: install_root,
                        command: "chown -R "@ + config.user.name@ + ":"@ + config.user.name@
                            + " /home/"@ + config.user.name@ + "/.local /home/"@ + config.user.name@
                            + "/.steam"@,
                    },
                ]
        }
    } else {
        seq![]
    }
}

pub fn install_decky_loader(
    config: &DeploymentConfig,
    install_root: &str,
    dry_run: bool,
) -> (r: Vec<Step>)
    ensures
        plan::acts(r@) == install_decky_loader_steps(*config, install_root@, dry_run),
{
    let mut steps: Vec<Step> = Vec::new();
    let data = concat3("/home/", config.user.name.as_str(), "/.local/var/opt/decky-loader");
    if config.packages.install_decky_loader {
        if dry_run {
            say(
                &mut steps,
                concat(
                    "  [dry-run] Would install decky-loader-bin via yay as ",
                    config.user.name.as_str(),
                ).as_str(),
            );
            say(
                &mut steps,
                concat3(
                    "  [dry-run] Would bootstrap ",
                    data.as_str(),
                    " via /usr/bin/decky-loader-helper",
                ).as_str(),
            );
            say(
                &mut steps,
                concat(
                    "  [dry-run] Would write Decky Loader service file for init: ",
                    config.system.init.to_text().as_str(),
                ).as_str(),
            );
        } else {
            chroot(
                &mut steps,
                install_root,
                with_yay(config.user.name.as_str(), "decky-loader-bin").as_str(),
            );
            make_dir(
                &mut steps,
                concat(
                    concat3(install_root, "/home/", config.user.name.as_str()).as_str(),
                    "/.steam/steam",
                ).as_str(),
            );
            write_file(
                &mut steps,
                concat(
                    concat3(install_root, "/home/", config.user.name.as_str()).as_str(),
                    "/.steam/steam/.cef-enable-remote-debugging",
                ).as_str(),
                "",
                None,
            );
            write_if(
                &mut steps,
                concat(
                    concat3(install_root, "/home/", config.user.name.as_str()).as_str(),
                    "/.var/app/com.valvesoftware.Steam/data/Steam",
                ).as_str(),
                concat(
                    concat3(install_root, "/home/", config.user.name.as_str()).as_str(),
                    "/.var/app/com.valvesoftware.Steam/data/Steam/.cef-enable-remote-debugging",
                ).as_str(),
                "",
            );
            chroot(
                &mut steps,
                install_root,
                package_texts::decky_helper(config.user.name.as_str()).as_str(),
            );
            extend(
                &mut steps,
                write_decky_service(
                    config.system.init,
                    install_root,
                    config.user.name.as_str(),
                    data.as_str(),
                ),
            );
            chroot(
                &mut steps,
                install_root,
                concat3(
                    concat3(
                        concat3(
                            concat3("chown -R ", config.user.name.as_str(), ":").as_str(),
                            config.user.name.as_str(),
                            " /home/",
                        ).as_str(),
                        config.user.name.as_str(),
                        "/.local /home/",
                    ).as_str(),
                    config.user.name.as_str(),
                    "/.steam",
                ).as_str(),
            );
        }
    }
    assert(plan::acts(steps@) =~= install_decky_loader_steps(*config, install_root@, dry_run));
    steps
}

/// Installing the motion server, with access to the sensors for the user.
pub open spec fn install_evdevhook2_steps(
    config: DeploymentConfig,
    install_root: Text,
    dry_run: bool,
) -> Seq<Act> {
    if config.packages.install_evdevhook2 {
        if dry_run {
            seq![
                Act::Say(
                    "  [dry-run] Would install AUR packages via yay as "@ + config.user.name@
                        + ": evdevhook2-git"@,
                ),
                Act::Say("  [dry-run] Would write /etc/udev/rules.d/60-evdevhook2.rules"@),
                Act::Say(
                    "  [dry-run] Would add user '"@ + config.user.name@ + "' to the 'input' group"@,
                ),
                Act::Say(
                    "  [dry-run] Would write evdevhook2 service file for init: "@
                        + config.system.init.shown(),
                ),
            ]
        } else {
            seq![
                Act::Chroot {
                    root: install_root,
                    command: yay_command(config.user.name@, "evdevhook2-git"@),
                },
                Act::MakeDir(install_root + "/etc/udev/rules.d"@),
                Act::Write {
                    path: install_root + "/etc/udev/rules.d/60-evdevhook2.rules"@,
                    content: package_texts::EVDEVHOOK2_UDEV_RULES@,
                    mode: Some(0o644),
                },
                Act::Chroot {
                    root: install_root,
                    command: "gpasswd -a "@ + config.user.name@ + " input"@,
                },
            ] + write_evdevhook2_service_steps(config.system.init, install_root, config.user.name@)
        }
    } else {
        seq![]
    }
}

pub fn install_evdevhook2(
    config: &DeploymentConfig,
    install_root: &str,
    dry_run: bool,
) -> (r: Vec<Step>)
    ensures
        plan::acts(r@) == install_evdevhook2_steps(*config, install_root@, dry_run),
{
    let mut steps: Vec<Step> = Vec::new();
    if config.packages.install_evdevhook2 {
        if dry_run {
            say(
                &mut steps,
                concat3(
                    "  [dry-run] Would install AUR packages via yay as ",
                    config.user.name.as_str(),
                    ": evdevhook2-git",
                ).as_str(),
            );
            say(&mut steps, "  [dry-run] Would write /etc/udev/rules.d/60-evdevhook2.rules");
            say(
                &mut steps,
                concat3(
                    "  [dry-run] Would add user '",
                    config.user.name.as_str(),
                    "' to the 'input' group",
                ).as_str(),
            );
            say(
                &mut steps,
                concat(
                    "  [dry-run] Would write evdevhook2 service file for init: ",
                    config.system.init.to_text().as_str(),
                ).as_str(),
            );
        } else {
            chroot(
                &mut steps,
                install_root,
                with_yay(config.user.name.as_str(), "evdevhook2-git").as_str(),
            );
            make_dir(&mut steps, concat(install_root, "/etc/udev/rules.d").as_str());
            write_file(
                &mut steps,
                concat(install_root, "/etc/udev/rules.d/60-evdevhook2.rules").as_str(),
                package_texts::EVDEVHOOK2_UDEV_RULES,
                Some(0o644),
            );
            chroot(
                &mut steps,
                install_root,
                concat3("gpasswd -a ", config.user.name.as_str(), " input").as_str(),
            );
            extend(
                &mut steps,
                write_evdevhook2_service(
                    config.system.init,
                    install_root,
                    config.user.name.as_str(),
                ),
            );
        }
    }
    assert(plan::acts(steps@) =~= install_evdevhook2_steps(*config, install_root@, dry_run));
    steps
}

} // verus!
