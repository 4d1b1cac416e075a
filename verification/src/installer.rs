//! The installation pipeline: the context the setup wizard fills in, the ordered steps that turn
//! it into an installed system, and how a run moves from one step to the next.

use vstd::prelude::*;

use crate::bootloader::mitos_dir_spec;
use crate::config::FilesystemType;
use crate::filesystem::btrfs_subvolumes;
use crate::command::ExternalCommand;
use crate::kernel::KernelArtifacts;
use crate::mount::{teardown_spec, MountGuard, MountPointView};
use crate::partition::{layout_efi, layout_root, partition_target_disk};
use crate::rootfs::{RootfsSource, RootfsSourceView};
use crate::text::{join_path, join_path_spec};

verus! {

broadcast use vstd::string::group_string_axioms;

/// The user's choices for the installed system.
#[derive(Debug, Clone)]
pub struct SystemConfig {
    pub hostname: String,
    pub username: String,
    pub password_hash: String,
    pub timezone: String,
    pub locale: String,
}

impl Default for SystemConfig {
    fn default() -> (c: SystemConfig)
        ensures
            c.hostname@ == Seq::<char>::empty(),
            c.username@ == Seq::<char>::empty(),
            c.password_hash@ == Seq::<char>::empty(),
            c.timezone@ == Seq::<char>::empty(),
            c.locale@ == Seq::<char>::empty(),
    {
        SystemConfig {
            hostname: String::new(),
            username: String::new(),
            password_hash: String::new(),
            timezone: String::new(),
            locale: String::new(),
        }
    }
}

/// The disk to install on and where its partitions go.
#[derive(Debug, Clone)]
pub struct TargetDisk {
    /// For example `/dev/nvme0n1`.
    pub device_path: String,
    pub efi_partition: String,
    pub root_partition: String,
    /// For example `/mnt/mitos`.
    pub mount_point: String,
}

/// Everything the pipeline needs to know about the installation.
#[derive(Debug)]
pub struct InstallationContext {
    pub target: Option<TargetDisk>,
    pub sys_config: SystemConfig,
    pub is_uefi: bool,
    /// The chosen root filesystem.
    pub fs_type: FilesystemType,
}

/// The installer: its context, which the setup wizard edits before execution.
pub struct InstallerPipeline {
    pub ctx: InstallationContext,
}

/// One step of an installation. Every step acts on the target's mount point.
#[derive(Debug)]
pub enum InstallAction {
    /// Detect the platform, check the RAM and the prerequisites (root, UEFI).
    VerifyHost,
    /// Wipe and lay out the disk.
    PartitionDisk(String),
    /// Format the EFI system partition as FAT32.
    FormatEfi(String),
    /// Format the root partition as ext4.
    FormatRoot(String),
    /// Format the root partition as Btrfs and create its subvolumes.
    CreateBtrfsLayout(String),
    /// Mount the root partition (partition, is Btrfs).
    MountRoot(String, bool),
    /// Mount a Btrfs subvolume (partition, subvolume, directory under the target).
    MountSubvolume(String, String, String),
    /// Mount the EFI partition on boot/efi.
    MountEfi(String),
    /// Unpack the root filesystem.
    DeployRootfs(RootfsSource),
    /// Bind /dev, /proc, /sys, /run, /dev/pts and /dev/shm into the target.
    BindPseudoFilesystems,
    /// Copy the kernel into the target's /boot.
    InstallKernel(KernelArtifacts),
    /// Run a shell command line inside the target.
    RunInTarget(String),
    /// Point /sbin/init at the init binary.
    ConfigureInit(String),
    /// Install Limine (EFI mount, root partition, kernel file name, initramfs file name).
    InstallBootloader(String, String, String, String),
    /// Add Windows to the Limine menu if it is on the EFI partition (EFI mount, limine.conf).
    AddWindowsEntry(String, String),
    /// Write fstab, hostname, hosts and machine-id (root, EFI, hostname, filesystem).
    ConfigureSystem(String, String, String, FilesystemType),
    /// Set the locale and time zone (locale, time zone).
    ConfigureLocale(String, String),
    /// Set up wired DHCP networking and name resolution.
    ConfigureNetwork,
    /// Set the root password and create the admin user (user, user password, root password).
    ConfigureUsers(String, String, String),
    /// Restrict permissions on sensitive files.
    ApplySecurityPolicies,
    /// Profile the hardware and enable the services it calls for; failures there are ignored.
    EnableHardwareServices,
    /// Write the first-boot setup flag at the given path.
    WriteSetupFlag(String),
}

/// The mathematical value of an [`InstallAction`].
pub enum ActionView {
    VerifyHost,
    PartitionDisk(Seq<char>),
    FormatEfi(Seq<char>),
    FormatRoot(Seq<char>),
    CreateBtrfsLayout(Seq<char>),
    MountRoot(Seq<char>, bool),
    MountSubvolume(Seq<char>, Seq<char>, Seq<char>),
    MountEfi(Seq<char>),
    DeployRootfs(RootfsSourceView),
    BindPseudoFilesystems,
    InstallKernel(Seq<char>, Option<Seq<char>>),
    RunInTarget(Seq<char>),
    ConfigureInit(Seq<char>),
    InstallBootloader(Seq<char>, Seq<char>, Seq<char>, Seq<char>),
    AddWindowsEntry(Seq<char>, Seq<char>),
    ConfigureSystem(Seq<char>, Seq<char>, Seq<char>, FilesystemType),
    ConfigureLocale(Seq<char>, Seq<char>),
    ConfigureNetwork,
    ConfigureUsers(Seq<char>, Seq<char>, Seq<char>),
    ApplySecurityPolicies,
    EnableHardwareServices,
    WriteSetupFlag(Seq<char>),
}

impl DeepView for InstallAction {
    type V = ActionView;

    open spec fn deep_view(&self) -> ActionView {
        match self {
            InstallAction::VerifyHost => ActionView::VerifyHost,
            InstallAction::PartitionDisk(d) => ActionView::PartitionDisk(d@),
            InstallAction::FormatEfi(p) => ActionView::FormatEfi(p@),
            InstallAction::FormatRoot(p) => ActionView::FormatRoot(p@),
            InstallAction::CreateBtrfsLayout(p) => ActionView::CreateBtrfsLayout(p@),
            InstallAction::MountRoot(p, b) => ActionView::MountRoot(p@, *b),
            InstallAction::MountSubvolume(p, s, d) => ActionView::MountSubvolume(p@, s@, d@),
            InstallAction::MountEfi(p) => ActionView::MountEfi(p@),
            InstallAction::DeployRootfs(s) => ActionView::DeployRootfs(s@),
            InstallAction::BindPseudoFilesystems => ActionView::BindPseudoFilesystems,
            InstallAction::InstallKernel(k) => ActionView::InstallKernel(
                k.kernel_path@,
                k.initramfs_path.deep_view(),
            ),
            InstallAction::RunInTarget(c) => ActionView::RunInTarget(c@),
            InstallAction::ConfigureInit(i) => ActionView::ConfigureInit(i@),
            InstallAction::InstallBootloader(e, r, k, i) => ActionView::InstallBootloader(
                e@,
                r@,
                k@,
                i@,
            ),
            InstallAction::AddWindowsEntry(e, c) => ActionView::AddWindowsEntry(e@, c@),
            InstallAction::ConfigureSystem(r, e, h, f) => ActionView::ConfigureSystem(
                r@,
                e@,
                h@,
                *f,
            ),
            InstallAction::ConfigureLocale(l, t) => ActionView::ConfigureLocale(l@, t@),
            InstallAction::ConfigureNetwork => ActionView::ConfigureNetwork,
            InstallAction::ConfigureUsers(u, p, r) => ActionView::ConfigureUsers(u@, p@, r@),
            InstallAction::ApplySecurityPolicies => ActionView::ApplySecurityPolicies,
            InstallAction::EnableHardwareServices => ActionView::EnableHardwareServices,
            InstallAction::WriteSetupFlag(p) => ActionView::WriteSetupFlag(p@),
        }
    }
}

/// The root filesystem archive on the live medium.
pub open spec fn rootfs_archive() -> Seq<char> {
    "/run/mitos-live/rootfs.tar"@
}

/// The kernel image on the live medium.
pub open spec fn live_kernel_image() -> Seq<char> {
    "/run/mitos-live/bzImage"@
}

/// The init binary that /sbin/init points at: `mitos-init`, which starts `mitos-services` as
/// PID 1 of the installed system.
pub open spec fn init_binary() -> Seq<char> {
    "/usr/bin/mitos-init"@
}

/// The initramfs file name that the boot menu loads.
pub open spec fn initramfs_file_name() -> Seq<char> {
    "initramfs.img"@
}

/// The steps up to and including the root mount.
pub open spec fn plan_prefix(disk: Seq<char>, fs_type: FilesystemType) -> Seq<ActionView> {
    let btrfs = fs_type == FilesystemType::Btrfs;
    let root = layout_root(disk);
    seq![ActionView::VerifyHost, ActionView::PartitionDisk(disk), ActionView::FormatEfi(layout_efi(disk))]
        + (if btrfs {
        seq![ActionView::CreateBtrfsLayout(root)]
    } else {
        seq![ActionView::FormatRoot(root)]
    }) + seq![ActionView::MountRoot(root, btrfs)] + (if btrfs {
        seq![
            ActionView::MountSubvolume(root, "@home"@, "home"@),
            ActionView::MountSubvolume(root, "@var"@, "var"@),
            ActionView::MountSubvolume(root, "@log"@, "var/log"@),
        ]
    } else {
        seq![]
    })
}

/// The steps after the root (and subvolume) mounts.
pub open spec fn plan_suffix(
    disk: Seq<char>,
    mount_point: Seq<char>,
    fs_type: FilesystemType,
    config: SystemConfig,
) -> Seq<ActionView> {
    let efi = layout_efi(disk);
    let root = layout_root(disk);
    let efi_mount = join_path_spec(mount_point, "boot/efi"@);
    seq![
        ActionView::MountEfi(efi),
        ActionView::DeployRootfs(RootfsSourceView::Archive(rootfs_archive())),
        ActionView::BindPseudoFilesystems,
        ActionView::InstallKernel(live_kernel_image(), None),
        ActionView::RunInTarget("dracut --force"@),
        ActionView::ConfigureInit(init_binary()),
        ActionView::InstallBootloader(efi_mount, root, "bzImage"@, initramfs_file_name()),
        ActionView::AddWindowsEntry(efi_mount, join_path_spec(mitos_dir_spec(efi_mount), "limine.conf"@)),
        ActionView::ConfigureSystem(root, efi, config.hostname@, fs_type),
        ActionView::ConfigureLocale(config.locale@, config.timezone@),
        ActionView::ConfigureNetwork,
        ActionView::ConfigureUsers(config.username@, config.password_hash@, config.password_hash@),
        ActionView::ApplySecurityPolicies,
        ActionView::EnableHardwareServices,
        ActionView::WriteSetupFlag(join_path_spec(mount_point, "etc/.mitos-needs-setup"@)),
    ]
}

/// Every step of installing on `target` with the given filesystem and configuration, in order.
pub open spec fn install_plan_spec(target: TargetDisk, fs_type: FilesystemType, config: SystemConfig) -> Seq<
    ActionView,
> {
    plan_prefix(target.device_path@, fs_type) + plan_suffix(
        target.device_path@,
        target.mount_point@,
        fs_type,
        config,
    )
}

/// The error when no target disk was chosen.
pub open spec fn no_target_error() -> Seq<char> {
    "Target disk not configured in context."@
}

/// Where a run of the plan stands.
#[derive(PartialEq, Eq, Structural, Clone, Copy, Debug)]
pub enum RunState {
    /// The step at this index is next.
    Running(usize),
    /// Every step succeeded.
    Finished,
    /// A step failed; nothing after it runs.
    Aborted,
}

/// The next state of a run after the step at `index` (of `plan_len`) ended with `succeeded`.
pub open spec fn advance_spec(plan_len: nat, index: nat, succeeded: bool) -> RunState {
    if !succeeded {
        RunState::Aborted
    } else if index + 1 >= plan_len {
        RunState::Finished
    } else {
        RunState::Running((index + 1) as usize)
    }
}

/// Moves a run on once the step at `index` has ended: on to the next step, done after the last
/// one, or stopped at the first failure.
pub fn advance(plan_len: usize, index: usize, succeeded: bool) -> (s: RunState)
    requires
        index < plan_len,
    ensures
        s == advance_spec(plan_len as nat, index as nat, succeeded),
{
    if !succeeded {
        RunState::Aborted
    } else if index + 1 >= plan_len {
        RunState::Finished
    } else {
        RunState::Running(index + 1)
    }
}

/// Steps whose failures are ignored: the hardware services are optional, so a failure to enable
/// one never fails the installation.
pub open spec fn failures_ignored(a: ActionView) -> bool {
    a is EnableHardwareServices
}

/// Whether failures inside `action` are ignored: its remaining commands still run, and the run
/// goes on.
pub fn ignores_failures(action: &InstallAction) -> (b: bool)
    ensures
        b == failures_ignored(action.deep_view()),
        b <==> action is EnableHardwareServices,
{
    match action {
        InstallAction::EnableHardwareServices => true,
        _ => false,
    }
}

/// The next state of a run of `plan` after the step at `index` ended with `succeeded`, a
/// failure of a step whose failures are ignored counting as success.
pub open spec fn run_advance_spec(plan: Seq<ActionView>, index: nat, succeeded: bool) -> RunState {
    advance_spec(plan.len(), index, succeeded || failures_ignored(plan[index as int]))
}

/// What follows a step of a run: the next state, and the commands that unmount everything the
/// run mounted, which are given once the run has ended.
pub struct StepConclusion {
    pub state: RunState,
    pub teardown: Vec<ExternalCommand>,
}

/// A failure inside a step whose failures are ignored (enabling the optional hardware
/// services) never aborts a run of the installation plan.
pub proof fn optional_failures_never_abort(
    target: TargetDisk,
    fs_type: FilesystemType,
    config: SystemConfig,
    index: nat,
)
    requires
        index < install_plan_spec(target, fs_type, config).len(),
        failures_ignored(install_plan_spec(target, fs_type, config)[index as int]),
    ensures
        run_advance_spec(install_plan_spec(target, fs_type, config), index, false) != RunState::Aborted,
{
}

/// Only the optional hardware services may fail without failing the installation: a failure of
/// any other step of the plan (partitioning, formatting, mounting, the root filesystem, the
/// kernel, the bootloader, the system configuration, the users, the security policies, ...)
/// aborts the run, and the hardware services' failure never does.
pub proof fn only_hardware_failures_are_ignored(
    target: TargetDisk,
    fs_type: FilesystemType,
    config: SystemConfig,
    index: nat,
)
    requires
        index < install_plan_spec(target, fs_type, config).len(),
    ensures
        !(install_plan_spec(target, fs_type, config)[index as int] is EnableHardwareServices) ==> run_advance_spec(
            install_plan_spec(target, fs_type, config),
            index,
            false,
        ) == RunState::Aborted,
        install_plan_spec(target, fs_type, config)[index as int] is EnableHardwareServices ==> run_advance_spec(
            install_plan_spec(target, fs_type, config),
            index,
            false,
        ) != RunState::Aborted,
        forall|a: ActionView| #[trigger] failures_ignored(a) <==> a is EnableHardwareServices,
{
}

/// What completing `action` changes in the context: host verification establishes UEFI boot,
/// and partitioning fixes the target's partition paths; nothing else changes.
pub open spec fn complete_spec(
    before: InstallationContext,
    action: ActionView,
    after: InstallationContext,
) -> bool {
    &&& after.sys_config == before.sys_config
    &&& after.fs_type == before.fs_type
    &&& after.is_uefi == (before.is_uefi || action is VerifyHost)
    &&& match (action, before.target) {
        (ActionView::PartitionDisk(d), Some(t)) => after.target matches Some(n) && n.device_path
            == t.device_path && n.mount_point == t.mount_point && n.efi_partition@ == layout_efi(d)
            && n.root_partition@ == layout_root(d),
        _ => after.target == before.target,
    }
}

impl InstallerPipeline {
    /// A pipeline with no target, an empty configuration, and ext4 as the root filesystem.
    pub fn new() -> (p: InstallerPipeline)
        ensures
            p.ctx.target is None,
            p.ctx.sys_config.hostname@ == Seq::<char>::empty(),
            p.ctx.sys_config.username@ == Seq::<char>::empty(),
            p.ctx.sys_config.password_hash@ == Seq::<char>::empty(),
            p.ctx.sys_config.timezone@ == Seq::<char>::empty(),
            p.ctx.sys_config.locale@ == Seq::<char>::empty(),
            !p.ctx.is_uefi,
            p.ctx.fs_type == FilesystemType::Ext4,
    {
        InstallerPipeline {
            ctx: InstallationContext {
                target: None,
                sys_config: SystemConfig::default(),
                is_uefi: false,
                fs_type: FilesystemType::Ext4,
            },
        }
    }

    /// The steps of the installation, or the error when no target disk is configured.
    pub fn plan(&self) -> (r: Result<Vec<InstallAction>, String>)
        ensures
            match self.ctx.target {
                None => r matches Err(e) && e@ == no_target_error(),
                Some(t) => r matches Ok(v) && v.deep_view() == install_plan_spec(
                    t,
                    self.ctx.fs_type,
                    self.ctx.sys_config,
                ),
            },
    {
        match &self.ctx.target {
            None => Err("Target disk not configured in context.".to_string()),
            Some(t) => {
                let fs = self.ctx.fs_type;
                let btrfs = fs == FilesystemType::Btrfs;
                let layout = partition_target_disk(t.device_path.as_str());
                let efi = layout.efi_partition;
                let root = layout.root_partition;
                let mut v: Vec<InstallAction> = Vec::new();
                v.push(InstallAction::VerifyHost);
                v.push(InstallAction::PartitionDisk(t.device_path.clone()));
                v.push(InstallAction::FormatEfi(efi.clone()));
                if btrfs {
                    v.push(InstallAction::CreateBtrfsLayout(root.clone()));
                } else {
                    v.push(InstallAction::FormatRoot(root.clone()));
                }
                v.push(InstallAction::MountRoot(root.clone(), btrfs));
                if btrfs {
                    v.push(
                        InstallAction::MountSubvolume(
                            root.clone(),
                            "@home".to_string(),
                            "home".to_string(),
                        ),
                    );
                    v.push(
                        InstallAction::MountSubvolume(root.clone(), "@var".to_string(), "var".to_string()),
                    );
                    v.push(
                        InstallAction::MountSubvolume(
                            root.clone(),
                            "@log".to_string(),
                            "var/log".to_string(),
                        ),
                    );
                }
                let ghost prefix = v.deep_view();
                assert(prefix =~= plan_prefix(t.device_path@, fs));
                let efi_mount = join_path(t.mount_point.as_str(), "boot/efi");
                let efi_dir = join_path(efi_mount.as_str(), "EFI");
                let mitos_dir = join_path(efi_dir.as_str(), "mitos");
                let limine_conf = join_path(mitos_dir.as_str(), "limine.conf");
                let flag = join_path(t.mount_point.as_str(), "etc/.mitos-needs-setup");
                let cfg = &self.ctx.sys_config;
                v.push(InstallAction::MountEfi(efi.clone()));
                v.push(
                    InstallAction::DeployRootfs(
                        RootfsSource::Archive("/run/mitos-live/rootfs.tar".to_string()),
                    ),
                );
                v.push(InstallAction::BindPseudoFilesystems);
                v.push(
                    InstallAction::InstallKernel(
                        KernelArtifacts {
                            kernel_path: "/run/mitos-live/bzImage".to_string(),
                            initramfs_path: None,
                        },
                    ),
                );
                v.push(InstallAction::RunInTarget("dracut --force".to_string()));
                v.push(InstallAction::ConfigureInit("/usr/bin/mitos-init".to_string()));
                v.push(
                    InstallAction::InstallBootloader(
                        efi_mount.clone(),
                        root.clone(),
                        "bzImage".to_string(),
                        "initramfs.img".to_string(),
                    ),
                );
                v.push(InstallAction::AddWindowsEntry(efi_mount, limine_conf));
                v.push(InstallAction::ConfigureSystem(root, efi, cfg.hostname.clone(), fs));
                v.push(InstallAction::ConfigureLocale(cfg.locale.clone(), cfg.timezone.clone()));
                v.push(InstallAction::ConfigureNetwork);
                v.push(
                    InstallAction::ConfigureUsers(
                        cfg.username.clone(),
                        cfg.password_hash.clone(),
                        cfg.password_hash.clone(),
                    ),
                );
                v.push(InstallAction::ApplySecurityPolicies);
                v.push(InstallAction::EnableHardwareServices);
                v.push(InstallAction::WriteSetupFlag(flag));
                assert(v.deep_view() =~= install_plan_spec(*t, fs, self.ctx.sys_config));
                Ok(v)
            },
        }
    }

    /// Concludes the step at `index` of `plan`, which ended with `succeeded`: a successful step
    /// is recorded in the context (a failed one changes nothing), and the run moves on, or ends
    /// (after the last step, or at a failure that is not ignored). When it ends, whether it
    /// finished or aborted, the guard gives up every mount it recorded and the conclusion holds
    /// their unmount commands, the most recent first.
    pub fn conclude_step(
        &mut self,
        plan: &Vec<InstallAction>,
        index: usize,
        succeeded: bool,
        guard: &mut MountGuard,
    ) -> (c: StepConclusion)
        requires
            index < plan@.len(),
        ensures
            succeeded ==> complete_spec(old(self).ctx, plan.deep_view()[index as int], final(self).ctx),
            !succeeded ==> final(self).ctx == old(self).ctx,
            c.state == run_advance_spec(plan.deep_view(), index as nat, succeeded),
            final(guard).target() == old(guard).target(),
            c.state is Running ==> final(guard).mounts() == old(guard).mounts() && c.teardown@.len() == 0,
            !(c.state is Running) ==> final(guard).mounts() == Seq::<MountPointView>::empty()
                && c.teardown.deep_view() == teardown_spec(old(guard).mounts()),
    {
        assert(plan.deep_view()[index as int] == plan@[index as int].deep_view());
        if succeeded {
            self.complete(&plan[index]);
        }
        let ignored = ignores_failures(&plan[index]);
        let state = advance(plan.len(), index, succeeded || ignored);
        match state {
            RunState::Running(_) => StepConclusion { state, teardown: Vec::new() },
            _ => {
                let teardown = guard.unmount_all();
                StepConclusion { state, teardown }
            },
        }
    }

    /// Records what a completed step changed in the context: host verification establishes UEFI
    /// boot, and partitioning fixes the target's partition paths.
    pub fn complete(&mut self, action: &InstallAction)
        ensures
            complete_spec(old(self).ctx, action.deep_view(), final(self).ctx),
    {
        match action {
            InstallAction::VerifyHost => {
                self.ctx.is_uefi = true;
            },
            InstallAction::PartitionDisk(d) => {
                let layout = partition_target_disk(d.as_str());
                match &mut self.ctx.target {
                    Some(t) => {
                        t.efi_partition = layout.efi_partition;
                        t.root_partition = layout.root_partition;
                    },
                    None => {},
                }
            },
            _ => {},
        }
    }
}

/// The phase of the installation a step belongs to: host checks, partitioning, formatting,
/// mounting, unpacking the root filesystem, binding pseudo-filesystems, then all work on the
/// populated target.
pub open spec fn phase(a: ActionView) -> int {
    match a {
        ActionView::VerifyHost => 0,
        ActionView::PartitionDisk(_) => 1,
        ActionView::FormatEfi(_) => 2,
        ActionView::FormatRoot(_) => 2,
        ActionView::CreateBtrfsLayout(_) => 2,
        ActionView::MountRoot(_, _) => 3,
        ActionView::MountSubvolume(_, _, _) => 3,
        ActionView::MountEfi(_) => 3,
        ActionView::DeployRootfs(_) => 4,
        ActionView::BindPseudoFilesystems => 5,
        _ => 6,
    }
}

/// Steps that run programs inside the target root.
pub open spec fn runs_inside_target(a: ActionView) -> bool {
    match a {
        ActionView::RunInTarget(_) => true,
        ActionView::ConfigureLocale(_, _) => true,
        ActionView::ConfigureNetwork => true,
        ActionView::ConfigureUsers(_, _, _) => true,
        ActionView::ApplySecurityPolicies => true,
        ActionView::EnableHardwareServices => true,
        _ => false,
    }
}

spec fn expected_phase(i: int, n: int) -> int {
    if i == 0 {
        0
    } else if i == 1 {
        1
    } else if i <= 3 {
        2
    } else if i <= n - 15 {
        3
    } else if i == n - 14 {
        4
    } else if i == n - 13 {
        5
    } else {
        6
    }
}

proof fn plan_phases(target: TargetDisk, fs_type: FilesystemType, config: SystemConfig)
    ensures
        ({
            let plan = install_plan_spec(target, fs_type, config);
            let n = if fs_type == FilesystemType::Btrfs { 23int } else { 20int };
            &&& plan.len() == n
            &&& forall|i: int| 0 <= i < n ==> phase(#[trigger] plan[i]) == expected_phase(i, n)
            &&& plan[n - 13] == ActionView::BindPseudoFilesystems
            &&& forall|i: int| 0 <= i < n - 13 ==> !runs_inside_target(#[trigger] plan[i])
        }),
{
    let plan = install_plan_spec(target, fs_type, config);
    let pre = plan_prefix(target.device_path@, fs_type);
    let suf = plan_suffix(target.device_path@, target.mount_point@, fs_type, config);
    assert(plan == pre + suf);
    let n = if fs_type == FilesystemType::Btrfs { 23int } else { 20int };
    assert(suf.len() == 15);
    assert(pre.len() == n - 15);
    assert forall|i: int| 0 <= i < n implies phase(#[trigger] plan[i]) == expected_phase(i, n) && (i < n - 13 ==> !runs_inside_target(plan[i])) by {
        if i < n - 15 {
            assert(plan[i] == pre[i]);
        } else {
            assert(plan[i] == suf[i - (n - 15)]);
        }
    }
    assert(plan[n - 13] == suf[2]);
}

/// The steps of an installation never go back to an earlier phase: the host is verified before
/// the disk is partitioned, partitions are formatted before anything is mounted, everything is
/// mounted before the root filesystem is unpacked, and the pseudo-filesystems are bound before
/// any program runs inside the target.
pub proof fn plan_phases_are_ordered(target: TargetDisk, fs_type: FilesystemType, config: SystemConfig)
    ensures
        ({
            let plan = install_plan_spec(target, fs_type, config);
            forall|i: int, j: int|
                0 <= i <= j < plan.len() ==> phase(#[trigger] plan[i]) <= phase(#[trigger] plan[j])
        }),
{
    plan_phases(target, fs_type, config);
}

/// Pseudo-filesystems are bound into the target before any step that runs a program inside it.
pub proof fn pseudo_filesystems_bound_before_target_commands(
    target: TargetDisk,
    fs_type: FilesystemType,
    config: SystemConfig,
)
    ensures
        ({
            let plan = install_plan_spec(target, fs_type, config);
            exists|k: int|
                0 <= k < plan.len() && plan[k] == ActionView::BindPseudoFilesystems && forall|i: int|
                    0 <= i < plan.len() && runs_inside_target(#[trigger] plan[i]) ==> k < i
        }),
{
    plan_phases(target, fs_type, config);
    let plan = install_plan_spec(target, fs_type, config);
    let n = plan.len() as int;
    assert(plan[n - 13] == ActionView::BindPseudoFilesystems);
    assert forall|i: int| 0 <= i < plan.len() && runs_inside_target(#[trigger] plan[i]) implies n
        - 16 < i by {
        if i <= n - 13 {
            if i < n - 13 {
            } else {
                assert(!runs_inside_target(ActionView::BindPseudoFilesystems));
            }
        }
    }
}

/// A Btrfs installation mounts the @home, @var and @log subvolumes right after the root, and an
/// ext4 installation mounts no subvolume.
pub proof fn subvolumes_follow_filesystem(target: TargetDisk, fs_type: FilesystemType, config: SystemConfig)
    ensures
        ({
            let plan = install_plan_spec(target, fs_type, config);
            let root = layout_root(target.device_path@);
            &&& fs_type == FilesystemType::Btrfs ==> {
                &&& plan[3] == ActionView::CreateBtrfsLayout(root)
                &&& plan[4] == ActionView::MountRoot(root, true)
                &&& plan[5] == ActionView::MountSubvolume(root, "@home"@, "home"@)
                &&& plan[6] == ActionView::MountSubvolume(root, "@var"@, "var"@)
                &&& plan[7] == ActionView::MountSubvolume(root, "@log"@, "var/log"@)
            }
            &&& fs_type == FilesystemType::Ext4 ==> {
                &&& plan[3] == ActionView::FormatRoot(root)
                &&& plan[4] == ActionView::MountRoot(root, false)
                &&& forall|i: int| 0 <= i < plan.len() ==> !(#[trigger] plan[i] is MountSubvolume)
            }
        }),
{
    plan_phases(target, fs_type, config);
    let plan = install_plan_spec(target, fs_type, config);
    let pre = plan_prefix(target.device_path@, fs_type);
    let suf = plan_suffix(target.device_path@, target.mount_point@, fs_type, config);
    assert(plan == pre + suf);
    if fs_type == FilesystemType::Ext4 {
        assert forall|i: int| 0 <= i < plan.len() implies !(#[trigger] plan[i] is MountSubvolume) by {
            if i < 5 {
                assert(plan[i] == pre[i]);
            } else {
                assert(plan[i] == suf[i - 5]);
            }
        }
    }
    assert(plan[3] == pre[3]);
    assert(plan[4] == pre[4]);
}

/// Every subvolume an installation mounts is one that the Btrfs layout creates.
pub proof fn mounted_subvolumes_are_created(target: TargetDisk, fs_type: FilesystemType, config: SystemConfig)
    ensures
        ({
            let plan = install_plan_spec(target, fs_type, config);
            forall|i: int|
                0 <= i < plan.len() ==> (#[trigger] plan[i] matches ActionView::MountSubvolume(_, s, _)
                    ==> btrfs_subvolumes().contains(s))
        }),
{
    let plan = install_plan_spec(target, fs_type, config);
    let pre = plan_prefix(target.device_path@, fs_type);
    let suf = plan_suffix(target.device_path@, target.mount_point@, fs_type, config);
    assert(plan == pre + suf);
    assert(btrfs_subvolumes()[1] == "@home"@);
    assert(btrfs_subvolumes()[2] == "@var"@);
    assert(btrfs_subvolumes()[4] == "@log"@);
    assert forall|i: int|
        0 <= i < plan.len() implies (#[trigger] plan[i] matches ActionView::MountSubvolume(_, s, _)
        ==> btrfs_subvolumes().contains(s)) by {
        if i < pre.len() {
            assert(plan[i] == pre[i]);
        } else {
            assert(plan[i] == suf[i - pre.len()]);
        }
    }
}

/// The Windows chainload entry is appended to the limine.conf that installing Limine writes
/// (the `config_path` of `limine_layout` for the same EFI mount), right after Limine is
/// installed.
pub proof fn windows_entry_goes_into_written_config(
    target: TargetDisk,
    fs_type: FilesystemType,
    config: SystemConfig,
)
    ensures
        ({
            let plan = install_plan_spec(target, fs_type, config);
            forall|i: int|
                0 <= i < plan.len() ==> (#[trigger] plan[i] matches ActionView::AddWindowsEntry(e, c)
                    ==> c == join_path_spec(mitos_dir_spec(e), "limine.conf"@) && i > 0 && (
                plan[i - 1] matches ActionView::InstallBootloader(b, _, _, _) && b == e))
        }),
{
    let plan = install_plan_spec(target, fs_type, config);
    let pre = plan_prefix(target.device_path@, fs_type);
    let suf = plan_suffix(target.device_path@, target.mount_point@, fs_type, config);
    assert(plan == pre + suf);
    assert forall|i: int|
        0 <= i < plan.len() implies (#[trigger] plan[i] matches ActionView::AddWindowsEntry(e, c)
        ==> c == join_path_spec(mitos_dir_spec(e), "limine.conf"@) && i > 0 && (
    plan[i - 1] matches ActionView::InstallBootloader(b, _, _, _) && b == e)) by {
        if i < pre.len() {
            assert(plan[i] == pre[i]);
        } else {
            assert(plan[i] == suf[i - pre.len()]);
            if i - pre.len() == 7 {
                assert(plan[i - 1] == suf[6]);
            }
        }
    }
}

} // verus!
