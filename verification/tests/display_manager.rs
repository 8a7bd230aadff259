use deploytix::config::model::DeploymentConfig;
use deploytix::config::options::{DesktopEnvironment, DisplayManager};
use deploytix::configure::display_manager::configure_display_manager;
use deploytix::plan::Step;

fn config(dm: DisplayManager) -> DeploymentConfig {
    let mut cfg = DeploymentConfig::sample();
    cfg.desktop.display_manager = dm;
    cfg
}

fn written(steps: &[Step], wanted: &str) -> Option<String> {
    steps.iter().find_map(|s| match s {
        Step::Write { path, content, .. } if path == wanted => Some(content.clone()),
        _ => None,
    })
}

#[test]
fn greetd_writes_autologin_config() {
    let steps = configure_display_manager(&config(DisplayManager::Greetd), "/mnt", false);
    let conf = written(&steps, "/mnt/etc/greetd/config.toml").expect("a configuration");
    assert!(conf.contains("user = \"user\""));
    assert!(conf.contains("startplasma-wayland"));
}

#[test]
fn sddm_writes_conf_with_breeze_theme_for_kde() {
    let steps = configure_display_manager(&config(DisplayManager::Sddm), "/mnt", false);
    assert!(written(&steps, "/mnt/etc/greetd/config.toml").is_none());
    let conf = written(&steps, "/mnt/etc/sddm.conf.d/deploytix.conf").expect("a configuration");
    assert!(conf.contains("Current=breeze"));
    assert!(conf.contains("MinimumUid=1000"));
}

#[test]
fn sddm_omits_breeze_theme_for_non_kde() {
    let mut cfg = config(DisplayManager::Sddm);
    cfg.desktop.environment = DesktopEnvironment::Xfce;
    let steps = configure_display_manager(&cfg, "/mnt", false);
    let conf = written(&steps, "/mnt/etc/sddm.conf.d/deploytix.conf").expect("a configuration");
    assert!(!conf.contains("breeze"));
}

#[test]
fn gdm_lightdm_and_none_write_no_config() {
    for dm in [
        DisplayManager::Gdm,
        DisplayManager::Lightdm,
        DisplayManager::Tty,
    ] {
        let steps = configure_display_manager(&config(dm), "/mnt", false);
        assert!(!steps.iter().any(|s| matches!(
            s,
            Step::Write { .. } | Step::MakeDir(_) | Step::Link { .. }
        )));
    }
}
