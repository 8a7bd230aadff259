use deploytix::config::model::DeploymentConfig;
use deploytix::config::options::{GpuDriverVendor, InitSystem};
use deploytix::configure::packages::{
    install_aur_packages, install_autostart_entries, install_evdevhook2, install_gpu_drivers, install_hhd,
    install_sysctl_gaming, install_yay, lib32_vulkan_packages,
};
use deploytix::configure::pacman::configure_arch_repos;
use deploytix::plan::Step;

fn only_prints(steps: &[Step]) -> bool {
    steps.iter().all(|s| matches!(s, Step::Say(_) | Step::SayIf { .. }))
}

#[test]
fn nothing_is_installed_that_was_not_chosen() {
    let mut c = DeploymentConfig::sample();
    c.packages.gpu_drivers = vec![];
    c.packages.install_yay = false;
    c.packages.install_hhd = false;
    c.packages.sysctl_gaming_tweaks = false;
    assert!(install_gpu_drivers(&c, "/mnt", false).is_empty());
    assert!(install_yay(&c, "/mnt", false).is_empty());
    assert!(install_hhd(&c, "/mnt", false).is_empty());
    assert!(install_sysctl_gaming(&c, "/mnt", false).is_empty());
}

#[test]
fn the_browser_is_installed_where_it_was_chosen() {
    let mut c = DeploymentConfig::sample();
    c.user.name = "deck".to_string();
    for (yay, zen) in [(false, false), (false, true), (true, false)] {
        c.packages.install_yay = yay;
        c.packages.install_zen_browser = zen;
        assert!(install_aur_packages(&c, "/mnt", false).is_empty());
        assert!(install_aur_packages(&c, "/mnt", true).is_empty());
    }
    c.packages.install_yay = true;
    c.packages.install_zen_browser = true;
    let steps = install_aur_packages(&c, "/mnt", false);
    assert_eq!(steps.len(), 1);
    assert!(matches!(&steps[0], Step::Chroot { root, command } if root == "/mnt"
        && command == "sudo -u deck yay -S --noconfirm --needed zen-browser-bin"));
    assert!(only_prints(&install_aur_packages(&c, "/mnt", true)));
}

#[test]
fn each_vendor_brings_its_libraries() {
    let mut c = DeploymentConfig::sample();
    c.packages.gpu_drivers = vec![GpuDriverVendor::Amd];
    assert!(lib32_vulkan_packages(&c).iter().any(|p| p.contains("radeon")));
    assert!(!install_gpu_drivers(&c, "/mnt", false).is_empty());
}

#[test]
fn another_kernel_builds_its_own_nvidia_module() {
    let mut c = DeploymentConfig::sample();
    c.packages.gpu_drivers = vec![GpuDriverVendor::Nvidia];
    let installed = |c: &DeploymentConfig| {
        install_gpu_drivers(c, "/mnt", false)
            .iter()
            .find_map(|s| match s {
                Step::Pacman { command, .. } => Some(command.clone()),
                _ => None,
            })
            .expect("an installation")
    };
    c.packages.install_tkg_kernel = false;
    let stock = installed(&c);
    assert!(stock.split(' ').any(|w| w == "nvidia"));
    assert!(!stock.contains("nvidia-dkms"));
    c.packages.install_tkg_kernel = true;
    let own = installed(&c);
    assert!(own.split(' ').any(|w| w == "nvidia-dkms"));
    assert!(!own.split(' ').any(|w| w == "nvidia"));
}

#[test]
fn a_dry_run_of_packages_only_prints() {
    let mut c = DeploymentConfig::sample();
    c.packages.gpu_drivers = vec![GpuDriverVendor::Nvidia];
    c.packages.install_hhd = true;
    c.packages.install_evdevhook2 = true;
    c.packages.sysctl_gaming_tweaks = true;
    for init in [InitSystem::Runit, InitSystem::OpenRC, InitSystem::S6, InitSystem::Dinit] {
        c.system.init = init;
        assert!(only_prints(&install_gpu_drivers(&c, "/mnt", true)));
        assert!(only_prints(&install_hhd(&c, "/mnt", true)));
        assert!(only_prints(&install_evdevhook2(&c, "/mnt", true)));
        assert!(only_prints(&install_sysctl_gaming(&c, "/mnt", true)));
        assert!(only_prints(&install_autostart_entries(&c, "#!/bin/sh\n", "/mnt", true)));
    }
}

#[test]
fn the_repositories_of_arch_are_added_once() {
    let conf = "[options]\n[system]\nInclude = /etc/pacman.d/mirrorlist\n";
    let steps = configure_arch_repos(conf, true, "/mnt", false);
    let new = steps
        .iter()
        .find_map(|s| match s {
            Step::Write { path, content, .. } if path == "/mnt/etc/pacman.conf" => Some(content),
            _ => None,
        })
        .expect("a new file");
    assert!(new.contains("[extra]"));
    let again = configure_arch_repos(new, true, "/mnt", false);
    assert!(!again.iter().any(|s| matches!(s,
        Step::Write { path, .. } if path == "/mnt/etc/pacman.conf")));
}
