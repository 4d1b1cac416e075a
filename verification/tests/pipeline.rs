use mitos_installer::config::FilesystemType;
use mitos_installer::installer::{
    advance, ignores_failures, InstallAction, InstallerPipeline, RunState, TargetDisk,
};
use mitos_installer::mount::MountGuard;
use mitos_installer::partition::partition_target_disk;

fn pipeline_for(disk: &str, fs: FilesystemType) -> InstallerPipeline {
    let mut p = InstallerPipeline::new();
    p.ctx.target = Some(TargetDisk {
        device_path: disk.to_string(),
        efi_partition: String::new(),
        root_partition: String::new(),
        mount_point: "/mnt/mitos".to_string(),
    });
    p.ctx.fs_type = fs;
    p.ctx.sys_config.hostname = "box".to_string();
    p.ctx.sys_config.username = "ada".to_string();
    p.ctx.sys_config.password_hash = "$6$hash".to_string();
    p.ctx.sys_config.timezone = "Africa/Accra".to_string();
    p.ctx.sys_config.locale = "en_US.UTF-8".to_string();
    p
}

#[test]
fn new_pipeline_defaults() {
    let p = InstallerPipeline::new();
    assert!(p.ctx.target.is_none());
    assert!(!p.ctx.is_uefi);
    assert_eq!(p.ctx.fs_type, FilesystemType::Ext4);
    assert_eq!(p.ctx.sys_config.hostname, "");
}

#[test]
fn plan_needs_a_target() {
    let p = InstallerPipeline::new();
    assert_eq!(p.plan().unwrap_err(), "Target disk not configured in context.");
}

#[test]
fn ext4_plan_in_order() {
    let p = pipeline_for("/dev/sda", FilesystemType::Ext4);
    let plan = p.plan().unwrap();
    assert_eq!(plan.len(), 20);
    assert!(matches!(plan[0], InstallAction::VerifyHost));
    assert!(matches!(&plan[1], InstallAction::PartitionDisk(d) if d == "/dev/sda"));
    assert!(matches!(&plan[2], InstallAction::FormatEfi(d) if d == "/dev/sda1"));
    assert!(matches!(&plan[3], InstallAction::FormatRoot(d) if d == "/dev/sda2"));
    assert!(matches!(&plan[4], InstallAction::MountRoot(d, false) if d == "/dev/sda2"));
    assert!(matches!(&plan[5], InstallAction::MountEfi(d) if d == "/dev/sda1"));
    assert!(matches!(plan[7], InstallAction::BindPseudoFilesystems));
    assert!(matches!(&plan[9], InstallAction::RunInTarget(c) if c == "dracut --force"));
    assert!(matches!(&plan[13], InstallAction::ConfigureSystem(r, e, h, FilesystemType::Ext4)
        if r == "/dev/sda2" && e == "/dev/sda1" && h == "box"));
    assert!(matches!(&plan[16], InstallAction::ConfigureUsers(u, a, b) if u == "ada" && a == "$6$hash" && b == "$6$hash"));
    assert!(matches!(&plan[19], InstallAction::WriteSetupFlag(f) if f == "/mnt/mitos/etc/.mitos-needs-setup"));
    assert!(!plan.iter().any(|a| matches!(a, InstallAction::MountSubvolume(..))));
}

#[test]
fn btrfs_plan_mounts_subvolumes() {
    let p = pipeline_for("/dev/nvme0n1", FilesystemType::Btrfs);
    let plan = p.plan().unwrap();
    assert_eq!(plan.len(), 23);
    assert!(matches!(&plan[3], InstallAction::CreateBtrfsLayout(d) if d == "/dev/nvme0n1p2"));
    assert!(matches!(&plan[4], InstallAction::MountRoot(_, true)));
    let subvols: Vec<(String, String)> = plan
        .iter()
        .filter_map(|a| match a {
            InstallAction::MountSubvolume(_, s, d) => Some((s.clone(), d.clone())),
            _ => None,
        })
        .collect();
    assert_eq!(
        subvols,
        vec![
            ("@home".to_string(), "home".to_string()),
            ("@var".to_string(), "var".to_string()),
            ("@log".to_string(), "var/log".to_string()),
        ]
    );
}

#[test]
fn pseudo_filesystems_come_before_commands_in_the_target() {
    for fs in [FilesystemType::Ext4, FilesystemType::Btrfs] {
        let plan = pipeline_for("/dev/sda", fs).plan().unwrap();
        let bind = plan.iter().position(|a| matches!(a, InstallAction::BindPseudoFilesystems)).unwrap();
        for (i, a) in plan.iter().enumerate() {
            let inside = matches!(
                a,
                InstallAction::RunInTarget(_)
                    | InstallAction::ConfigureLocale(..)
                    | InstallAction::ConfigureNetwork
                    | InstallAction::ConfigureUsers(..)
                    | InstallAction::ApplySecurityPolicies
                    | InstallAction::EnableHardwareServices
            );
            if inside {
                assert!(i > bind);
            }
        }
    }
}

#[test]
fn completing_steps_updates_the_context() {
    let mut p = pipeline_for("/dev/nvme0n1", FilesystemType::Ext4);
    let plan = p.plan().unwrap();
    p.complete(&plan[0]);
    assert!(p.ctx.is_uefi);
    p.complete(&plan[1]);
    let t = p.ctx.target.as_ref().unwrap();
    assert_eq!(t.efi_partition, "/dev/nvme0n1p1");
    assert_eq!(t.root_partition, "/dev/nvme0n1p2");
    let layout = partition_target_disk("/dev/nvme0n1");
    assert_eq!(layout.root_partition, t.root_partition);
}

#[test]
fn a_failed_step_aborts_the_run() {
    assert_eq!(advance(3, 0, true), RunState::Running(1));
    assert_eq!(advance(3, 2, true), RunState::Finished);
    assert_eq!(advance(3, 1, false), RunState::Aborted);
}

#[test]
fn init_and_bootloader_steps() {
    let plan = pipeline_for("/dev/sda", FilesystemType::Ext4).plan().unwrap();
    assert!(matches!(&plan[10], InstallAction::ConfigureInit(i) if i == "/usr/bin/mitos-init"));
    assert!(matches!(&plan[11], InstallAction::InstallBootloader(e, r, k, i)
        if e == "/mnt/mitos/boot/efi" && r == "/dev/sda2" && k == "bzImage" && i == "initramfs.img"));
    assert!(matches!(&plan[12], InstallAction::AddWindowsEntry(e, c)
        if e == "/mnt/mitos/boot/efi" && c == "/mnt/mitos/boot/efi/EFI/mitos/limine.conf"));
}

fn guard_with_two_mounts() -> MountGuard {
    let mut guard = MountGuard::new("/mnt/mitos");
    let root = guard.mount_root("/dev/sda2", false);
    guard.settle_mount(root, true, Some(true)).unwrap();
    let efi = guard.mount_efi("/dev/sda1");
    guard.settle_mount(efi, true, Some(true)).unwrap();
    guard
}

fn teardown_paths(cmds: &[mitos_installer::command::ExternalCommand]) -> Vec<String> {
    cmds.iter().map(|c| c.args[1].clone()).collect()
}

#[test]
fn a_run_that_goes_on_keeps_its_mounts() {
    let mut p = pipeline_for("/dev/sda", FilesystemType::Ext4);
    let plan = p.plan().unwrap();
    let mut guard = guard_with_two_mounts();
    let c = p.conclude_step(&plan, 5, true, &mut guard);
    assert_eq!(c.state, RunState::Running(6));
    assert!(c.teardown.is_empty());
    assert_eq!(guard.mount_count(), 2);
}

#[test]
fn an_aborted_run_tears_down_in_reverse() {
    let mut p = pipeline_for("/dev/sda", FilesystemType::Ext4);
    let plan = p.plan().unwrap();
    let mut guard = guard_with_two_mounts();
    let c = p.conclude_step(&plan, 6, false, &mut guard);
    assert_eq!(c.state, RunState::Aborted);
    assert_eq!(teardown_paths(&c.teardown), vec!["/mnt/mitos/boot/efi", "/mnt/mitos"]);
    assert_eq!(guard.mount_count(), 0);
}

#[test]
fn a_finished_run_tears_down_in_reverse() {
    let mut p = pipeline_for("/dev/sda", FilesystemType::Ext4);
    let plan = p.plan().unwrap();
    let mut guard = guard_with_two_mounts();
    let c = p.conclude_step(&plan, plan.len() - 1, true, &mut guard);
    assert_eq!(c.state, RunState::Finished);
    assert_eq!(teardown_paths(&c.teardown), vec!["/mnt/mitos/boot/efi", "/mnt/mitos"]);
    assert_eq!(guard.mount_count(), 0);
}

#[test]
fn optional_hardware_failures_do_not_abort() {
    let mut p = pipeline_for("/dev/sda", FilesystemType::Ext4);
    let plan = p.plan().unwrap();
    let hw = plan.iter().position(|a| matches!(a, InstallAction::EnableHardwareServices)).unwrap();
    assert!(ignores_failures(&plan[hw]));
    assert!(!ignores_failures(&plan[hw - 1]));
    let mut guard = guard_with_two_mounts();
    let c = p.conclude_step(&plan, hw, false, &mut guard);
    assert_eq!(c.state, RunState::Running(hw + 1));
    assert_eq!(guard.mount_count(), 2);
}

#[test]
fn only_successful_steps_change_the_context() {
    let mut p = pipeline_for("/dev/nvme0n1", FilesystemType::Ext4);
    let plan = p.plan().unwrap();
    let mut guard = MountGuard::new("/mnt/mitos");
    p.conclude_step(&plan, 0, false, &mut guard);
    assert!(!p.ctx.is_uefi);
    let mut p = pipeline_for("/dev/nvme0n1", FilesystemType::Ext4);
    p.conclude_step(&plan, 0, true, &mut guard);
    assert!(p.ctx.is_uefi);
    p.conclude_step(&plan, 1, false, &mut guard);
    assert_eq!(p.ctx.target.as_ref().unwrap().root_partition, "");
    p.conclude_step(&plan, 1, true, &mut guard);
    assert_eq!(p.ctx.target.as_ref().unwrap().root_partition, "/dev/nvme0n1p2");
}
