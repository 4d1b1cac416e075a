//! Tracking of the filesystems mounted under the target root, so that they are torn down in
//! the exact reverse of the order in which they were mounted.

use vstd::prelude::*;
use vstd::string::StringExecFns;

use crate::command::{
    command_result, command_result_spec, plain_command, CommandFailure, CommandView, ExternalCommand,
};
use crate::text::{join_path, join_path_spec};

verus! {

broadcast use vstd::string::group_string_axioms;

/// Where the target system is assembled unless told otherwise.
pub const DEFAULT_TARGET_MOUNT: &'static str = "/mnt/mitos";

/// A mount made under the target root, by kind.
#[derive(Debug)]
pub enum MountPoint {
    Root(String),
    Subvolume(String),
    Efi(String),
    Bind(String),
}

/// The mathematical value of a [`MountPoint`].
pub enum MountPointView {
    Root(Seq<char>),
    Subvolume(Seq<char>),
    Efi(Seq<char>),
    Bind(Seq<char>),
}

impl MountPointView {
    /// The directory the mount is on.
    pub open spec fn path(self) -> Seq<char> {
        match self {
            MountPointView::Root(p) => p,
            MountPointView::Subvolume(p) => p,
            MountPointView::Efi(p) => p,
            MountPointView::Bind(p) => p,
        }
    }
}

impl View for MountPoint {
    type V = MountPointView;

    open spec fn view(&self) -> MountPointView {
        match self {
            MountPoint::Root(p) => MountPointView::Root(p@),
            MountPoint::Subvolume(p) => MountPointView::Subvolume(p@),
            MountPoint::Efi(p) => MountPointView::Efi(p@),
            MountPoint::Bind(p) => MountPointView::Bind(p@),
        }
    }
}

impl MountPoint {
    /// The directory the mount is on.
    pub fn path(&self) -> (p: &str)
        ensures
            p@ == self@.path(),
    {
        match self {
            MountPoint::Root(p) => p.as_str(),
            MountPoint::Subvolume(p) => p.as_str(),
            MountPoint::Efi(p) => p.as_str(),
            MountPoint::Bind(p) => p.as_str(),
        }
    }
}

/// One mount to perform: create `directory` (with its parents), run `command`, which mounts
/// `source` there, and settle the outcome with [`MountGuard::settle_mount`].
pub struct MountRequest {
    pub directory: String,
    /// Whether a failure to create the directory aborts the mount.
    pub directory_required: bool,
    /// What is mounted: a partition, or the directory bound.
    pub source: String,
    pub command: ExternalCommand,
    /// Whether a mount that cannot be started or exits unsuccessfully aborts; when not, the
    /// mount is recorded all the same.
    pub mount_required: bool,
    pub record: MountPoint,
}

/// Why a mount failed.
#[derive(PartialEq, Eq, Structural, Clone, Copy, Debug)]
pub enum MountFailure {
    /// Its directory could not be created.
    Directory,
    /// The mount program could not be started, or exited unsuccessfully.
    Command(CommandFailure),
}

/// Whether the mount program runs once the directory was (or was not) created: not when a
/// required directory is missing.
pub open spec fn runs_mount_spec(directory_required: bool, directory_created: bool) -> bool {
    directory_created || !directory_required
}

/// The result of a mount: a missing required directory fails it before the mount runs; then a
/// required mount fails when the program cannot be started or exits unsuccessfully, and any other
/// mount succeeds whatever happened.
pub open spec fn mount_result_spec(
    directory_required: bool,
    mount_required: bool,
    directory_created: bool,
    exit: Option<bool>,
) -> Result<(), MountFailure> {
    if !runs_mount_spec(directory_required, directory_created) {
        Err(MountFailure::Directory)
    } else {
        match command_result_spec(mount_required, mount_required, exit) {
            Ok(()) => Ok(()),
            Err(f) => Err(MountFailure::Command(f)),
        }
    }
}

/// Whether to run the mount program of `req` after trying to create its directory.
pub fn runs_mount(req: &MountRequest, directory_created: bool) -> (b: bool)
    ensures
        b == runs_mount_spec(req.directory_required, directory_created),
{
    directory_created || !req.directory_required
}

/// The mount options of a Btrfs subvolume: `subvol=<name>` and the shared performance flags.
pub open spec fn subvolume_options(subvol_name: Seq<char>) -> Seq<char> {
    "subvol="@ + subvol_name + ",compress=zstd:1,noatime,discard=async"@
}

/// `umount -R <path>`.
pub open spec fn umount_spec(path: Seq<char>) -> CommandView {
    plain_command("umount"@, seq!["-R"@, path])
}

/// The teardown commands for `mounts`: one `umount -R` per mount, last mounted first.
pub open spec fn teardown_spec(mounts: Seq<MountPointView>) -> Seq<CommandView> {
    Seq::new(mounts.len(), |i: int| umount_spec(mounts[mounts.len() - 1 - i].path()))
}

/// The pseudo-filesystems bound into the target before any command runs inside it, as
/// (source, directory under the target, whether failure aborts).
pub open spec fn pseudo_binds() -> Seq<(Seq<char>, Seq<char>, bool)> {
    seq![
        ("/dev"@, "dev"@, true),
        ("/proc"@, "proc"@, true),
        ("/sys"@, "sys"@, true),
        ("/run"@, "run"@, true),
        ("/dev/pts"@, "dev/pts"@, false),
        ("/dev/shm"@, "dev/shm"@, false),
    ]
}

/// The bind-mount request for one pseudo-filesystem.
pub open spec fn bind_request_spec(
    target_dir: Seq<char>,
    source: Seq<char>,
    rel: Seq<char>,
    required: bool,
    r: MountRequest,
) -> bool {
    let path = join_path_spec(target_dir, rel);
    &&& r.directory@ == path
    &&& !r.directory_required
    &&& r.source@ == source
    &&& r.command@ == plain_command("mount"@, seq!["--bind"@, source, path])
    &&& r.mount_required == required
    &&& r.record@ == MountPointView::Bind(path)
}

/// Records the mounts made under a target root, in the order they were made.
#[derive(Debug)]
pub struct MountGuard {
    pub target_dir: String,
    mounts: Vec<MountPoint>,
}

impl MountGuard {
    /// The target directory.
    pub closed spec fn target(&self) -> Seq<char> {
        self.target_dir@
    }

    /// The mounts recorded so far, oldest first.
    pub closed spec fn mounts(&self) -> Seq<MountPointView> {
        self.mounts@.map_values(|m: MountPoint| m@)
    }

    /// A guard for `target_dir` with nothing mounted.
    pub fn new(target_dir: &str) -> (g: MountGuard)
        ensures
            g.target() == target_dir@,
            g.mounts() == Seq::<MountPointView>::empty(),
    {
        let g = MountGuard { target_dir: target_dir.to_string(), mounts: Vec::new() };
        assert(g.mounts() =~= Seq::<MountPointView>::empty());
        g
    }

    /// The number of mounts recorded.
    pub fn mount_count(&self) -> (n: usize)
        ensures
            n == self.mounts().len(),
    {
        self.mounts.len()
    }

    /// Mounts the root partition on the target directory, with the Btrfs root subvolume and
    /// performance flags when `is_btrfs`.
    pub fn mount_root(&self, root_part: &str, is_btrfs: bool) -> (r: MountRequest)
        ensures
            r.directory@ == self.target(),
            r.directory_required,
            r.source@ == root_part@,
            r.command@ == plain_command(
                "mount"@,
                if is_btrfs {
                    seq!["-o"@, "subvol=@,compress=zstd:1,noatime,discard=async"@, root_part@, self.target()]
                } else {
                    seq![root_part@, self.target()]
                },
            ),
            r.mount_required,
            r.record@ == MountPointView::Root(self.target()),
    {
        let mut args: Vec<String> = Vec::new();
        if is_btrfs {
            args.push("-o".to_string());
            args.push("subvol=@,compress=zstd:1,noatime,discard=async".to_string());
        }
        args.push(root_part.to_string());
        args.push(self.target_dir.clone());
        if is_btrfs {
            assert(args.deep_view() =~= seq!["-o"@, "subvol=@,compress=zstd:1,noatime,discard=async"@, root_part@, self.target_dir@]);
        } else {
            assert(args.deep_view() =~= seq![root_part@, self.target_dir@]);
        }
        MountRequest {
            directory: self.target_dir.clone(),
            directory_required: true,
            source: root_part.to_string(),
            command: ExternalCommand::new("mount", args),
            mount_required: true,
            record: MountPoint::Root(self.target_dir.clone()),
        }
    }

    /// Mounts a Btrfs subvolume of the root partition on a directory under the target.
    pub fn mount_btrfs_subvolume(&self, root_part: &str, subvol_name: &str, target_subdir: &str) -> (r:
        MountRequest)
        ensures
            r.directory@ == join_path_spec(self.target(), target_subdir@),
            r.directory_required,
            r.source@ == root_part@,
            r.command@ == plain_command(
                "mount"@,
                seq!["-o"@, subvolume_options(subvol_name@), root_part@, join_path_spec(self.target(), target_subdir@)],
            ),
            r.mount_required,
            r.record@ == MountPointView::Subvolume(join_path_spec(self.target(), target_subdir@)),
    {
        let target_path = join_path(self.target_dir.as_str(), target_subdir);
        let mut opts = "subvol=".to_string();
        opts.append(subvol_name);
        opts.append(",compress=zstd:1,noatime,discard=async");
        let args = vec!["-o".to_string(), opts, root_part.to_string(), target_path.clone()];
        assert(args.deep_view() =~= seq!["-o"@, subvolume_options(subvol_name@), root_part@, target_path@]);
        MountRequest {
            directory: target_path.clone(),
            directory_required: true,
            source: root_part.to_string(),
            command: ExternalCommand::new("mount", args),
            mount_required: true,
            record: MountPoint::Subvolume(target_path),
        }
    }

    /// Mounts the EFI partition on `boot/efi` under the target.
    pub fn mount_efi(&self, efi_part: &str) -> (r: MountRequest)
        ensures
            r.directory@ == join_path_spec(self.target(), "boot/efi"@),
            r.directory_required,
            r.source@ == efi_part@,
            r.command@ == plain_command(
                "mount"@,
                seq![efi_part@, join_path_spec(self.target(), "boot/efi"@)],
            ),
            r.mount_required,
            r.record@ == MountPointView::Efi(join_path_spec(self.target(), "boot/efi"@)),
    {
        let efi_dir = join_path(self.target_dir.as_str(), "boot/efi");
        let args = vec![efi_part.to_string(), efi_dir.clone()];
        assert(args.deep_view() =~= seq![efi_part@, efi_dir@]);
        MountRequest {
            directory: efi_dir.clone(),
            directory_required: true,
            source: efi_part.to_string(),
            command: ExternalCommand::new("mount", args),
            mount_required: true,
            record: MountPoint::Efi(efi_dir),
        }
    }

    /// Bind mounts of /dev, /proc, /sys and /run (each must succeed), then /dev/pts and /dev/shm
    /// (best effort), which commands run inside the target need.
    pub fn mount_pseudo_filesystems(&self) -> (rs: Vec<MountRequest>)
        ensures
            rs@.len() == pseudo_binds().len(),
            forall|i: int|
                0 <= i < rs@.len() ==> bind_request_spec(
                    self.target(),
                    pseudo_binds()[i].0,
                    pseudo_binds()[i].1,
                    pseudo_binds()[i].2,
                    #[trigger] rs@[i],
                ),
    {
        let mut rs: Vec<MountRequest> = Vec::new();
        rs.push(self.bind_request("/dev", "dev", true));
        rs.push(self.bind_request("/proc", "proc", true));
        rs.push(self.bind_request("/sys", "sys", true));
        rs.push(self.bind_request("/run", "run", true));
        rs.push(self.bind_request("/dev/pts", "dev/pts", false));
        rs.push(self.bind_request("/dev/shm", "dev/shm", false));
        rs
    }

    fn bind_request(&self, source: &str, rel: &str, required: bool) -> (r: MountRequest)
        ensures
            bind_request_spec(self.target(), source@, rel@, required, r),
    {
        let path = join_path(self.target_dir.as_str(), rel);
        let args = vec!["--bind".to_string(), source.to_string(), path.clone()];
        assert(args.deep_view() =~= seq!["--bind"@, source@, path@]);
        MountRequest {
            directory: path.clone(),
            directory_required: false,
            source: source.to_string(),
            command: ExternalCommand::new("mount", args),
            mount_required: required,
            record: MountPoint::Bind(path),
        }
    }

    /// Settles a mount of this guard's: whether it failed, given whether its directory was
    /// created and how its program ended (`None`: it could not be started, or was not run), and
    /// records it when it did not fail. A failed mount is not recorded, so that the teardown
    /// undoes exactly the mounts that were made.
    pub fn settle_mount(&mut self, req: MountRequest, directory_created: bool, exit: Option<bool>) -> (r:
        Result<(), MountFailure>)
        ensures
            final(self).target() == old(self).target(),
            r == mount_result_spec(req.directory_required, req.mount_required, directory_created, exit),
            r is Ok ==> final(self).mounts() == old(self).mounts().push(req.record@),
            r is Err ==> final(self).mounts() == old(self).mounts(),
    {
        if !runs_mount(&req, directory_created) {
            return Err(MountFailure::Directory);
        }
        match command_result(req.mount_required, req.mount_required, exit) {
            Ok(()) => {
                self.record(req.record);
                Ok(())
            },
            Err(f) => Err(MountFailure::Command(f)),
        }
    }

    /// Records a mount that has been made.
    fn record(&mut self, mount: MountPoint)
        ensures
            final(self).target() == old(self).target(),
            final(self).mounts() == old(self).mounts().push(mount@),
    {
        let ghost old_mounts = self.mounts();
        self.mounts.push(mount);
        assert(self.mounts() =~= old_mounts.push(mount@));
    }

    /// Forgets every recorded mount and returns the commands that undo them, the most recent
    /// mount first: the exact reverse of the order in which they were made.
    pub fn unmount_all(&mut self) -> (cmds: Vec<ExternalCommand>)
        ensures
            final(self).target() == old(self).target(),
            final(self).mounts() == Seq::<MountPointView>::empty(),
            cmds.deep_view() == teardown_spec(old(self).mounts()),
    {
        let ghost all = self.mounts();
        let mut cmds: Vec<ExternalCommand> = Vec::new();
        while self.mounts.len() > 0
            invariant
                all.len() == cmds@.len() + self.mounts@.len(),
                self.target() == old(self).target(),
                self.mounts() == all.take(self.mounts@.len() as int),
                forall|i: int|
                    0 <= i < cmds@.len() ==> #[trigger] cmds@[i]@ == umount_spec(
                        all[all.len() - 1 - i].path(),
                    ),
            decreases self.mounts@.len(),
        {
            let ghost before = self.mounts();
            let ghost v = self.mounts@;
            let m = self.mounts.pop().unwrap();
            assert(m == v[v.len() - 1]);
            assert(before[v.len() - 1] == v[v.len() - 1]@);
            assert(m@ == all[all.len() - 1 - cmds@.len()]);
            assert(self.mounts() =~= all.take(self.mounts@.len() as int));
            let args = vec!["-R".to_string(), m.path().to_string()];
            assert(args.deep_view() =~= seq!["-R"@, m@.path()]);
            cmds.push(ExternalCommand::new("umount", args));
        }
        assert(self.mounts() =~= Seq::<MountPointView>::empty());
        assert(cmds.deep_view() =~= teardown_spec(all));
        cmds
    }
}

/// A best-effort bind (/dev/pts, /dev/shm) never fails its step, whatever happens to it, so it is
/// always recorded; a required bind (/dev, /proc, /sys, /run) succeeds exactly when its mount
/// program ran and exited successfully, and a missing directory never stops a bind.
pub proof fn best_effort_binds_never_fail(i: int, directory_created: bool, exit: Option<bool>)
    requires
        0 <= i < pseudo_binds().len(),
    ensures
        !pseudo_binds()[i].2 ==> mount_result_spec(false, pseudo_binds()[i].2, directory_created, exit)
            is Ok,
        pseudo_binds()[i].2 ==> (mount_result_spec(false, pseudo_binds()[i].2, directory_created, exit)
            is Ok <==> exit == Some(true)),
{
}

} // verus!
