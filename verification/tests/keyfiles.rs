use deploytix::configure::encryption::LuksContainer;
use deploytix::configure::keyfiles::{
    get_keyfile_paths_for_initramfs, keyfile_path, setup_keyfiles_for_volumes,
};
use deploytix::plan::Step;

#[test]
fn test_keyfile_path() {
    assert_eq!(keyfile_path("Root"), "/etc/cryptsetup-keys.d/cryptroot.key");
    assert_eq!(keyfile_path("Usr"), "/etc/cryptsetup-keys.d/cryptusr.key");
}

#[test]
fn each_container_gets_a_keyfile() {
    let containers = vec![LuksContainer {
        device: "/dev/sda4".into(),
        mapper_name: "Crypt-Root".into(),
        mapped_path: "/dev/mapper/Crypt-Root".into(),
        volume_name: "Root".into(),
    }];
    let (keyfiles, steps) = setup_keyfiles_for_volumes(&containers, "hunter2", "/mnt", false);
    assert_eq!(
        get_keyfile_paths_for_initramfs(&keyfiles),
        vec!["/etc/cryptsetup-keys.d/cryptroot.key"]
    );
    assert!(steps
        .iter()
        .any(|s| matches!(s, Step::MakeDir(p) if p == "/mnt/etc/cryptsetup-keys.d")));
    assert!(steps.iter().any(|s| matches!(s,
        Step::Cryptsetup(c) if c.args.iter().any(|a| a == "luksAddKey"))));
}
