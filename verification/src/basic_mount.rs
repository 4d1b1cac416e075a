//! A two-mount guard for a target root: the root partition on the target directory and the
//! EFI partition on `boot/efi` inside it.

use vstd::prelude::*;

use crate::command::{command_result, plain_command, CommandView, ExternalCommand};
use crate::mount::{mount_result_spec, MountFailure};
use crate::text::{join_path, join_path_spec};

verus! {

broadcast use vstd::string::group_string_axioms;

/// Which of the two partitions are mounted under `target_dir`.
#[derive(Debug)]
pub struct MountGuard {
    pub target_dir: String,
    pub efi_mounted: bool,
    pub root_mounted: bool,
}

/// The steps that mount a target: create the target directory, mount the root partition on it,
/// create `boot/efi` inside it, mount the EFI partition there.
pub struct TargetMounts {
    pub root_dir: String,
    pub root_command: ExternalCommand,
    pub efi_dir: String,
    pub efi_command: ExternalCommand,
}

/// `umount -R <path>`.
pub open spec fn recursive_umount(path: Seq<char>) -> CommandView {
    plain_command("umount"@, seq!["-R"@, path])
}

impl MountGuard {
    /// A guard for `target_dir` with nothing mounted.
    pub fn new(target_dir: &str) -> (g: MountGuard)
        ensures
            g.target_dir@ == target_dir@,
            !g.efi_mounted,
            !g.root_mounted,
    {
        MountGuard { target_dir: target_dir.to_string(), efi_mounted: false, root_mounted: false }
    }

    /// The mounts of the root partition at the target and the EFI partition at `boot/efi`.
    pub fn mount_target(&self, root_part: &str, efi_part: &str) -> (m: TargetMounts)
        ensures
            m.root_dir@ == self.target_dir@,
            m.root_command@ == plain_command("mount"@, seq![root_part@, self.target_dir@]),
            m.efi_dir@ == join_path_spec(self.target_dir@, "boot/efi"@),
            m.efi_command@ == plain_command(
                "mount"@,
                seq![efi_part@, join_path_spec(self.target_dir@, "boot/efi"@)],
            ),
    {
        let efi_dir = join_path(self.target_dir.as_str(), "boot/efi");
        let root_args = vec![root_part.to_string(), self.target_dir.clone()];
        assert(root_args.deep_view() =~= seq![root_part@, self.target_dir@]);
        let efi_args = vec![efi_part.to_string(), efi_dir.clone()];
        assert(efi_args.deep_view() =~= seq![efi_part@, efi_dir@]);
        TargetMounts {
            root_dir: self.target_dir.clone(),
            root_command: ExternalCommand::new("mount", root_args),
            efi_dir,
            efi_command: ExternalCommand::new("mount", efi_args),
        }
    }

    /// Settles the root mount of `mount_target`, given whether the target directory was created
    /// and how `mount` ended (`None`: it could not be started, or was not run): both are
    /// required. On success the root is marked mounted; on failure nothing changes.
    pub fn settle_root(&mut self, directory_created: bool, exit: Option<bool>) -> (r: Result<(), MountFailure>)
        ensures
            r == mount_result_spec(true, true, directory_created, exit),
            final(self).target_dir == old(self).target_dir,
            final(self).efi_mounted == old(self).efi_mounted,
            final(self).root_mounted == (old(self).root_mounted || r is Ok),
    {
        let r = settle_required(directory_created, exit);
        if r.is_ok() {
            self.root_mounted = true;
        }
        r
    }

    /// Settles the EFI mount of `mount_target` in the same way; on success the EFI partition is
    /// marked mounted.
    pub fn settle_efi(&mut self, directory_created: bool, exit: Option<bool>) -> (r: Result<(), MountFailure>)
        ensures
            r == mount_result_spec(true, true, directory_created, exit),
            final(self).target_dir == old(self).target_dir,
            final(self).root_mounted == old(self).root_mounted,
            final(self).efi_mounted == (old(self).efi_mounted || r is Ok),
    {
        let r = settle_required(directory_created, exit);
        if r.is_ok() {
            self.efi_mounted = true;
        }
        r
    }

    /// Forgets both mounts and returns the commands that undo them: the EFI partition first,
    /// then the root, each only if it is mounted.
    pub fn unmount_all(&mut self) -> (cmds: Vec<ExternalCommand>)
        ensures
            final(self).target_dir == old(self).target_dir,
            !final(self).efi_mounted,
            !final(self).root_mounted,
            cmds.deep_view() == (if old(self).efi_mounted {
                seq![recursive_umount(join_path_spec(old(self).target_dir@, "boot/efi"@))]
            } else {
                seq![]
            }) + (if old(self).root_mounted {
                seq![recursive_umount(old(self).target_dir@)]
            } else {
                seq![]
            }),
    {
        let mut cmds: Vec<ExternalCommand> = Vec::new();
        if self.efi_mounted {
            let efi_dir = join_path(self.target_dir.as_str(), "boot/efi");
            let args = vec!["-R".to_string(), efi_dir];
            assert(args.deep_view() =~= seq!["-R"@, join_path_spec(self.target_dir@, "boot/efi"@)]);
            cmds.push(ExternalCommand::new("umount", args));
            self.efi_mounted = false;
        }
        if self.root_mounted {
            let args = vec!["-R".to_string(), self.target_dir.clone()];
            assert(args.deep_view() =~= seq!["-R"@, self.target_dir@]);
            cmds.push(ExternalCommand::new("umount", args));
            self.root_mounted = false;
        }
        assert(cmds.deep_view() =~= (if old(self).efi_mounted {
            seq![recursive_umount(join_path_spec(old(self).target_dir@, "boot/efi"@))]
        } else {
            seq![]
        }) + (if old(self).root_mounted {
            seq![recursive_umount(old(self).target_dir@)]
        } else {
            seq![]
        }));
        cmds
    }
}

fn settle_required(directory_created: bool, exit: Option<bool>) -> (r: Result<(), MountFailure>)
    ensures
        r == mount_result_spec(true, true, directory_created, exit),
{
    if !directory_created {
        return Err(MountFailure::Directory);
    }
    match command_result(true, true, exit) {
        Ok(()) => Ok(()),
        Err(f) => Err(MountFailure::Command(f)),
    }
}

} // verus!
