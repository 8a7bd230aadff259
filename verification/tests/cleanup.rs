use deploytix::cleanup::guards::{
    deepest_first, release, release_mount_tree, Resource, ResourceStack,
};
use deploytix::cleanup::{
    device_items, is_orphaned_cryptsetup, is_under, mapper_candidates, swap_devices, wipe_warning,
    Choice, Cleaner, Device, Stage, Target, Volume,
};
use deploytix::error::DeploytixError;
use deploytix::plan::Step;

fn strings(v: &[&str]) -> Vec<String> {
    v.iter().map(|s| s.to_string()).collect()
}

fn commands(steps: &[Step]) -> Vec<String> {
    steps
        .iter()
        .map(|s| match s {
            Step::TryRun { program, args } | Step::Run { program, args } => {
                format!("{} {}", program, args.join(" "))
            }
            Step::Unmount(p) => format!("umount {p}"),
            Step::Say(l) => l.clone(),
            Step::Partition { device, script, otherwise } => {
                format!("sfdisk {device} <{script}> fdisk <{otherwise}>")
            }
            _ => panic!("another step"),
        })
        .collect()
}

#[test]
fn registering_the_same_resource_twice_tracks_it_once() {
    let mut stack = ResourceStack::new(true);
    stack.register(Resource::Luks("Crypt-Root".into()));
    stack.register(Resource::Luks("Crypt-Root".into()));
    stack.register(Resource::Luks("Crypt-Home".into()));
    assert_eq!(stack.opened().len(), 2);
    stack.disarm();
}

#[test]
fn disarming_clears_what_drop_would_release() {
    let mut stack = ResourceStack::new(true);
    stack.register(Resource::VolumeGroup("deploytix".into()));
    stack.disarm();
    assert!(stack.opened().is_empty());
    assert!(stack.abandon().is_empty());
}

#[test]
fn what_was_opened_last_is_released_first() {
    let mut stack = ResourceStack::new(false);
    stack.register(Resource::Luks("Crypt-LVM".into()));
    stack.register(Resource::VolumeGroup("deploytix".into()));
    stack.register(Resource::MountTree("/install".into()));
    let released = stack.abandon();
    assert_eq!(
        released,
        vec![
            Resource::MountTree("/install".into()),
            Resource::VolumeGroup("deploytix".into()),
            Resource::Luks("Crypt-LVM".into()),
        ]
    );
    assert!(stack.opened().is_empty());
    assert!(stack.release_all().is_empty());
}

const MOUNTS: &str = "\
/dev/sda2 / ext4 rw 0 0
/dev/mapper/Crypt-Root /install btrfs rw 0 0
/dev/mapper/Crypt-Usr /install/usr btrfs rw 0 0
/dev/sda1 /install/boot/efi vfat rw 0 0
/dev/sdb1 /installer ext4 rw 0 0
broken
";

#[test]
fn a_mount_tree_is_released_from_its_leaves() {
    assert_eq!(
        release_mount_tree(MOUNTS, "/install"),
        strings(&["/install/boot/efi", "/install/usr", "/install"])
    );
    let steps = release(&Resource::MountTree("/install/".into()), MOUNTS);
    assert_eq!(
        commands(&steps),
        strings(&["umount /install/boot/efi", "umount /install/usr", "umount /install"])
    );
}

#[test]
fn a_tree_that_begins_alike_stays_mounted() {
    let mounts = "/dev/sda1 /install ext4 rw 0 0\n/dev/sda2 /install/home ext4 rw 0 0\n\
                  /dev/sdb1 /install-old ext4 rw 0 0\n";
    let steps = release(&Resource::MountTree("/install".into()), mounts);
    assert_eq!(commands(&steps), strings(&["umount /install/home", "umount /install"]));
    assert_eq!(
        release_mount_tree(mounts, "/"),
        strings(&["/install/home", "/install", "/install-old"])
    );
}

#[test]
fn containers_and_groups_have_their_commands() {
    assert_eq!(
        commands(&release(&Resource::Luks("Crypt-Root".into()), "")),
        strings(&["cryptsetup close Crypt-Root"])
    );
    assert_eq!(
        commands(&release(&Resource::VolumeGroup("vg".into()), "")),
        strings(&["vgchange -an vg"])
    );
}

#[test]
fn equally_deep_points_stay_in_their_order() {
    assert_eq!(
        deepest_first(&strings(&["/a", "/b/c", "/d", "/e/f"])),
        strings(&["/b/c", "/e/f", "/a", "/d"])
    );
}

#[test]
fn a_path_is_under_a_root_by_its_components() {
    assert!(is_under("/install", "/install"));
    assert!(is_under("/install/usr", "/install"));
    assert!(!is_under("/installer", "/install"));
}

#[test]
fn the_target_is_named_asked_for_or_absent() {
    let c = Cleaner::new(false);
    assert_eq!(c.target_device(Some("/dev/sda"), false), Target::Named("/dev/sda".into()));
    assert_eq!(c.target_device(None, true), Target::Ask);
    assert_eq!(c.target_device(None, false), Target::Nothing);
}

#[test]
fn a_cleanup_without_a_disk_tears_nothing_down() {
    let c = Cleaner::new(false);
    assert!(c.cleanup(&None, &vec![], false).is_empty());
    assert_eq!(
        c.cleanup(&Some("/dev/sdb".into()), &vec![], true),
        vec![Stage::Wipe("/dev/sdb".into())]
    );
    assert_eq!(
        c.cleanup(&Some("/dev/sdb".into()), &strings(&["sdb"]), true),
        vec![Stage::Unmount, Stage::Close, Stage::Wipe("/dev/sdb".into())]
    );
    assert_eq!(
        c.cleanup(&Some("/dev/sdb".into()), &strings(&["sdb"]), false),
        vec![Stage::Unmount, Stage::Close]
    );
}

#[test]
fn the_scope_is_a_sorted_set() {
    let c = Cleaner::new(false);
    assert_eq!(
        c.scope(&strings(&["sdc", "sdb"]), &strings(&["sdb", "nvme0n1"])),
        strings(&["nvme0n1", "sdb", "sdc"])
    );
}

#[test]
fn only_the_swap_of_the_installation_is_disabled() {
    let swaps = "Filename Type Size Used Priority\n/dev/dm-3 partition 1 0 -2\n/dev/sda3 partition 1 0 -3\n/install/swapfile file 1 0 -4\n\n";
    assert_eq!(
        swap_devices(swaps),
        strings(&["/dev/dm-3", "/dev/sda3", "/install/swapfile"])
    );
    let facts = vec![
        Device { path: "/dev/dm-3".into(), disks: strings(&["sdb"]) },
        Device { path: "/dev/sda3".into(), disks: strings(&["sda"]) },
        Device { path: "/install/swapfile".into(), disks: vec![] },
    ];
    let steps = Cleaner::new(false).unmount_all(&facts, &strings(&["sdb"]), MOUNTS);
    assert_eq!(
        commands(&steps),
        strings(&[
            "swapoff /dev/dm-3",
            "swapoff /install/swapfile",
            "umount /install/boot/efi",
            "umount /install/usr",
            "umount /install",
        ])
    );
}

#[test]
fn mappings_of_the_running_system_are_left_alone() {
    let nodes = strings(&["Crypt-LVM", "Crypt-LVM_dif", "control", "temporary-cryptsetup-12"]);
    assert_eq!(
        mapper_candidates(&nodes),
        strings(&["temporary-cryptsetup-12", "Crypt-LVM_dif", "Crypt-LVM"])
    );
    let volumes = vec![
        Volume { name: "Crypt-Root".into(), disks: strings(&["sda"]), outside: strings(&["/"]) },
        Volume { name: "Crypt-Usr".into(), disks: strings(&["sdb"]), outside: strings(&["/mnt"]) },
        Volume { name: "Crypt-Var".into(), disks: strings(&["sdb", "sda"]), outside: vec![] },
        Volume { name: "Crypt-Home".into(), disks: strings(&["sdb"]), outside: vec![] },
        Volume { name: "Crypt-Boot".into(), disks: vec![], outside: vec![] },
    ];
    let steps = Cleaner::new(false).close_encrypted_volumes(&volumes, &strings(&["sdb"]));
    assert_eq!(commands(&steps), strings(&["cryptsetup close Crypt-Home"]));
}

#[test]
fn an_orphaned_cryptsetup_is_told_by_its_parent() {
    let stat = "4242 (cryptsetup (x)) S 1 4242 4242 0";
    assert!(is_orphaned_cryptsetup("cryptsetup\0luksFormat\0", stat));
    assert!(is_orphaned_cryptsetup("cryptsetup luksFormat", stat));
    assert!(!is_orphaned_cryptsetup("cryptsetup-reencrypt", stat));
    assert!(!is_orphaned_cryptsetup("cryptsetup\0", "4242 (cryptsetup) S 12 1 1"));
    assert!(!is_orphaned_cryptsetup("cryptsetup\0", "4242 cryptsetup S 1"));
    assert!(!is_orphaned_cryptsetup("cryptsetup\0", "4242 (cryptsetup) S"));
}

#[test]
fn disks_are_offered_with_size_and_model() {
    let choices = vec![
        Choice { path: "/dev/sda".into(), size: "1.0 TiB".into(), model: Some("Disk X".into()) },
        Choice { path: "/dev/sdb".into(), size: "8.0 GiB".into(), model: None },
    ];
    assert_eq!(
        device_items(&choices).unwrap(),
        strings(&["/dev/sda - 1.0 TiB Disk X", "/dev/sdb - 8.0 GiB "])
    );
    let e = device_items(&vec![]).unwrap_err();
    assert_eq!(e.to_text(), "No block devices found");
}

#[test]
fn a_disk_is_wiped_once_the_user_agrees() {
    assert_eq!(
        wipe_warning("/dev/sdb"),
        "This will WIPE the partition table on /dev/sdb. This cannot be undone!"
    );
    let refused = Cleaner::new(false).wipe_device("/dev/sdb", false);
    assert!(matches!(refused, Err(DeploytixError::UserCancelled)));
    let steps = Cleaner::new(false).wipe_device("/dev/sdb", true).ok().unwrap();
    assert_eq!(
        commands(&steps),
        strings(&["wipefs -a /dev/sdb", "sfdisk /dev/sdb <label: gpt\n> fdisk <g\nw\n>"])
    );
    let dry = Cleaner::new(true).wipe_device("/dev/sdb", true).ok().unwrap();
    assert_eq!(
        commands(&dry),
        strings(&["  [dry-run] Would wipe partition table on /dev/sdb"])
    );
}
