use deploytix::config::model::DeploymentConfig;
use deploytix::config::options::{Filesystem, InitSystem, NetworkBackend};
use deploytix::config::wizard::{DiskChoice, Question, Reply, Stage, Wizard};

/// Answers every question with its default, the needed texts aside.
fn defaults(q: &Question, w: &Wizard) -> Reply {
    match q {
        Question::Select { default, .. } => Reply::Choice(*default),
        Question::MultiSelect { .. } => Reply::Choices(vec![]),
        Question::Confirm { default, .. } => match w.stage {
            Stage::More => Reply::Yes(false),
            _ => Reply::Yes(*default),
        },
        Question::Input { default, .. } => match w.stage {
            Stage::MountPoint => Reply::Entry("/".to_string()),
            Stage::Username => Reply::Entry("deck".to_string()),
            _ => Reply::Entry(default.clone().unwrap_or_default()),
        },
        Question::Password { .. } => Reply::Entry("secret".to_string()),
        Question::Nothing => panic!("nothing is asked"),
    }
}

fn finish(mut w: Wizard, reply: fn(&Question, &Wizard) -> Reply) -> Wizard {
    let mut asked = 0;
    while w.stage != Stage::Done {
        let q = w.question();
        let r = reply(&q, &w);
        w = w.answer(r);
        asked += 1;
        assert!(asked < 200, "the wizard does not end");
    }
    w
}

fn start(device: Option<&str>) -> Wizard {
    let disks = vec![DiskChoice {
        path: "/dev/sda".into(),
        size: "1.0 TiB".into(),
        model: Some("Disk".into()),
    }];
    match Wizard::start(device.map(|d| d.to_string()), disks, None) {
        Ok((w, _)) => w,
        Err(e) => panic!("{}", e.to_text()),
    }
}

#[test]
fn a_wizard_without_a_disk_does_not_start() {
    let e = match Wizard::start(None, vec![], None) {
        Err(e) => e.to_text(),
        Ok(_) => panic!("a wizard without a disk"),
    };
    assert_eq!(e, "No suitable disks found");
}

#[test]
fn a_named_device_is_not_asked_for() {
    assert_eq!(start(Some("/dev/sdb")).stage, Stage::MountPoint);
    assert_eq!(start(None).stage, Stage::Disk);
}

#[test]
fn defaults_lead_to_a_configuration() {
    let w = finish(start(None), defaults);
    let c = DeploymentConfig::from_wizard(w).expect("a configuration");
    assert_eq!(c.disk.device, "/dev/sda");
    assert_eq!(c.user.name, "deck");
    assert_eq!(c.disk.partitions.len(), 1);
    assert_eq!(c.disk.partitions[0].mount_point, "/");
    assert_eq!(c.system.hostname, "artix");
}

#[test]
fn an_unfinished_wizard_has_no_configuration() {
    assert!(DeploymentConfig::from_wizard(start(None)).is_none());
}

#[test]
fn the_first_options_come_first() {
    let w = finish(start(Some("/dev/sdb")), defaults);
    assert_eq!(w.config.disk.device, "/dev/sdb");
    assert_eq!(w.config.disk.filesystem, Filesystem::Btrfs);
    assert_eq!(w.config.system.init, InitSystem::Runit);
    assert_eq!(w.config.network.backend, NetworkBackend::Iwd);
}

#[test]
fn a_missing_root_is_added() {
    let w = finish(start(Some("/dev/sdb")), |q, w| match w.stage {
        Stage::MountPoint => Reply::Entry("/home".to_string()),
        Stage::Size => Reply::Entry("4096".to_string()),
        _ => defaults(q, w),
    });
    let points: Vec<&str> =
        w.config.disk.partitions.iter().map(|p| p.mount_point.as_str()).collect();
    assert_eq!(points, vec!["/", "/home"]);
}

#[test]
fn answers_keep_what_the_configuration_rests_on() {
    for encrypt in [false, true] {
        for filesystem in 0..5 {
            let mut w = start(Some("/dev/sdb"));
            while w.stage != Stage::Done {
                let r = match w.stage {
                    Stage::Encryption => Reply::Yes(encrypt),
                    Stage::DataFilesystem => Reply::Choice(filesystem),
                    _ => defaults(&w.question(), &w),
                };
                w = w.answer(r);
            }
            let d = &w.config.disk;
            assert_eq!(d.device, "/dev/sdb");
            assert_eq!(d.encryption_password.is_some(), encrypt);
            let boot = if d.filesystem == Filesystem::Btrfs {
                Filesystem::Btrfs
            } else {
                Filesystem::Ext4
            };
            assert_eq!(d.boot_filesystem, boot);
        }
    }
}
