use mitos_installer::basic_mount;
use mitos_installer::command::{CommandFailure, ExternalCommand};
use mitos_installer::mount::{runs_mount, MountFailure, MountGuard, MountPoint};

fn umount_targets(cmds: &[ExternalCommand]) -> Vec<String> {
    cmds.iter()
        .map(|c| {
            assert_eq!(c.program, "umount");
            assert_eq!(c.args[0], "-R");
            c.args[1].clone()
        })
        .collect()
}

#[test]
fn teardown_is_the_reverse_of_mounting() {
    let mut guard = MountGuard::new("/mnt/mitos");
    let root = guard.mount_root("/dev/sda2", true);
    assert_eq!(
        root.command.args,
        vec!["-o", "subvol=@,compress=zstd:1,noatime,discard=async", "/dev/sda2", "/mnt/mitos"]
    );
    guard.settle_mount(root, true, Some(true)).unwrap();
    let home = guard.mount_btrfs_subvolume("/dev/sda2", "@home", "home");
    assert_eq!(home.directory, "/mnt/mitos/home");
    assert_eq!(home.command.args[1], "subvol=@home,compress=zstd:1,noatime,discard=async");
    guard.settle_mount(home, true, Some(true)).unwrap();
    let efi = guard.mount_efi("/dev/sda1");
    assert_eq!(efi.command.args, vec!["/dev/sda1", "/mnt/mitos/boot/efi"]);
    guard.settle_mount(efi, true, Some(true)).unwrap();
    for bind in guard.mount_pseudo_filesystems() {
        guard.settle_mount(bind, true, Some(true)).unwrap();
    }
    assert_eq!(guard.mount_count(), 9);

    let cmds = guard.unmount_all();
    assert_eq!(
        umount_targets(&cmds),
        vec![
            "/mnt/mitos/dev/shm",
            "/mnt/mitos/dev/pts",
            "/mnt/mitos/run",
            "/mnt/mitos/sys",
            "/mnt/mitos/proc",
            "/mnt/mitos/dev",
            "/mnt/mitos/boot/efi",
            "/mnt/mitos/home",
            "/mnt/mitos",
        ]
    );
    assert_eq!(guard.mount_count(), 0);
    assert!(guard.unmount_all().is_empty());
}

#[test]
fn ext4_root_mount_has_no_options() {
    let guard = MountGuard::new("/mnt/mitos");
    let root = guard.mount_root("/dev/nvme0n1p2", false);
    assert_eq!(root.command.program, "mount");
    assert_eq!(root.command.args, vec!["/dev/nvme0n1p2", "/mnt/mitos"]);
    assert!(matches!(root.record, MountPoint::Root(ref p) if p == "/mnt/mitos"));
    assert_eq!(root.record.path(), "/mnt/mitos");
}

#[test]
fn pseudo_filesystem_binds() {
    let guard = MountGuard::new("/mnt/mitos");
    let binds = guard.mount_pseudo_filesystems();
    let sources: Vec<&str> = binds.iter().map(|b| b.command.args[1].as_str()).collect();
    assert_eq!(sources, vec!["/dev", "/proc", "/sys", "/run", "/dev/pts", "/dev/shm"]);
    let required: Vec<bool> = binds.iter().map(|b| b.mount_required).collect();
    assert_eq!(required, vec![true, true, true, true, false, false]);
    assert!(binds.iter().all(|b| !b.directory_required && b.command.args[0] == "--bind"));
}

#[test]
fn basic_guard_unmounts_efi_then_root() {
    let mut guard = basic_mount::MountGuard::new("/mnt/mitos");
    let plan = guard.mount_target("/dev/sda2", "/dev/sda1");
    assert_eq!(plan.root_command.args, vec!["/dev/sda2", "/mnt/mitos"]);
    assert_eq!(plan.efi_command.args, vec!["/dev/sda1", "/mnt/mitos/boot/efi"]);
    guard.settle_root(true, Some(true)).unwrap();
    guard.settle_efi(true, Some(true)).unwrap();
    let cmds = guard.unmount_all();
    assert_eq!(umount_targets(&cmds), vec!["/mnt/mitos/boot/efi", "/mnt/mitos"]);
    assert!(!guard.root_mounted && !guard.efi_mounted);
    assert!(guard.unmount_all().is_empty());
}

#[test]
fn failed_mounts_are_not_recorded() {
    let mut guard = MountGuard::new("/mnt/mitos");
    let root = guard.mount_root("/dev/sda2", false);
    assert!(!runs_mount(&root, false));
    assert_eq!(guard.settle_mount(root, false, None), Err(MountFailure::Directory));
    let root = guard.mount_root("/dev/sda2", false);
    assert_eq!(
        guard.settle_mount(root, true, None),
        Err(MountFailure::Command(CommandFailure::NotStarted))
    );
    let root = guard.mount_root("/dev/sda2", false);
    assert_eq!(
        guard.settle_mount(root, true, Some(false)),
        Err(MountFailure::Command(CommandFailure::Unsuccessful))
    );
    assert_eq!(guard.mount_count(), 0);
    assert!(guard.unmount_all().is_empty());
}

#[test]
fn binds_stop_at_a_failed_required_bind() {
    let mut guard = MountGuard::new("/mnt/mitos");
    let mut binds = guard.mount_pseudo_filesystems().into_iter();
    let dev = binds.next().unwrap();
    assert!(runs_mount(&dev, false));
    assert_eq!(guard.settle_mount(dev, false, Some(true)), Ok(()));
    let proc_bind = binds.next().unwrap();
    assert_eq!(
        guard.settle_mount(proc_bind, true, Some(false)),
        Err(MountFailure::Command(CommandFailure::Unsuccessful))
    );
    assert_eq!(guard.mount_count(), 1);
    assert_eq!(umount_targets(&guard.unmount_all()), vec!["/mnt/mitos/dev"]);
}

#[test]
fn best_effort_binds_are_recorded_whatever_happens() {
    let mut guard = MountGuard::new("/mnt/mitos");
    let binds: Vec<_> = guard.mount_pseudo_filesystems().into_iter().skip(4).collect();
    let mut it = binds.into_iter();
    assert_eq!(guard.settle_mount(it.next().unwrap(), false, None), Ok(()));
    assert_eq!(guard.settle_mount(it.next().unwrap(), true, Some(false)), Ok(()));
    assert_eq!(
        umount_targets(&guard.unmount_all()),
        vec!["/mnt/mitos/dev/shm", "/mnt/mitos/dev/pts"]
    );
}

#[test]
fn basic_guard_flags_after_partial_failure() {
    let mut guard = basic_mount::MountGuard::new("/mnt/mitos");
    assert_eq!(guard.settle_root(true, Some(false)), Err(MountFailure::Command(CommandFailure::Unsuccessful)));
    assert!(!guard.root_mounted && !guard.efi_mounted);
    assert_eq!(guard.settle_root(true, Some(true)), Ok(()));
    assert_eq!(guard.settle_efi(false, None), Err(MountFailure::Directory));
    assert!(guard.root_mounted && !guard.efi_mounted);
    assert_eq!(umount_targets(&guard.unmount_all()), vec!["/mnt/mitos"]);
}

#[test]
fn mount_requests_name_their_source() {
    let guard = MountGuard::new("/mnt/mitos");
    assert_eq!(guard.mount_root("/dev/sda2", false).source, "/dev/sda2");
    assert_eq!(guard.mount_btrfs_subvolume("/dev/sda2", "@var", "var").source, "/dev/sda2");
    assert_eq!(guard.mount_efi("/dev/sda1").source, "/dev/sda1");
    let sources: Vec<String> = guard.mount_pseudo_filesystems().into_iter().map(|b| b.source).collect();
    assert_eq!(sources, vec!["/dev", "/proc", "/sys", "/run", "/dev/pts", "/dev/shm"]);
}
