//! The GPT layout that the installer writes, and the partition paths it produces.

use vstd::prelude::*;
use vstd::string::StringExecFns;

use crate::command::{plain_command, CommandView, ExternalCommand};
use crate::text::{contains, contains_spec, decimal, decimal_spec};

verus! {

broadcast use vstd::string::group_string_axioms;

/// The two partitions of an installed disk.
#[derive(Debug)]
pub struct PartitionLayout {
    pub efi_partition: String,
    pub root_partition: String,
}

/// Device names whose partitions take a `p` before their number (nvme0n1p1, mmcblk0p1, loop0p1).
pub open spec fn uses_p_separator(disk: Seq<char>) -> bool {
    contains_spec(disk, "nvme"@) || contains_spec(disk, "mmc"@) || contains_spec(disk, "loop"@)
}

/// The path of partition `part_num` of `disk`: `sda` gives `sda1`, `nvme0n1` gives `nvme0n1p1`.
pub open spec fn partition_path_spec(disk: Seq<char>, part_num: nat) -> Seq<char> {
    if uses_p_separator(disk) {
        disk + "p"@ + decimal_spec(part_num)
    } else {
        disk + decimal_spec(part_num)
    }
}

/// Partition naming: the partition number is appended to the disk's name directly (`sda1`,
/// `vda2`, `hdb1`), and after a `p` only when the name contains `nvme`, `mmc` or `loop`
/// (`nvme0n1p1`, `mmcblk0p2`, `loop0p1`).
pub proof fn partition_names_follow_the_kernel(disk: Seq<char>, part_num: nat)
    ensures
        !contains_spec(disk, "nvme"@) && !contains_spec(disk, "mmc"@) && !contains_spec(disk, "loop"@)
            ==> partition_path_spec(disk, part_num) == disk + decimal_spec(part_num),
        contains_spec(disk, "nvme"@) || contains_spec(disk, "mmc"@) || contains_spec(disk, "loop"@)
            ==> partition_path_spec(disk, part_num) == disk + "p"@ + decimal_spec(part_num),
        !contains_spec(disk, "nvme"@) && !contains_spec(disk, "mmc"@) && !contains_spec(disk, "loop"@)
            ==> layout_efi(disk) == disk + seq!['1'] && layout_root(disk) == disk + seq!['2'],
        contains_spec(disk, "nvme"@) || contains_spec(disk, "mmc"@) || contains_spec(disk, "loop"@)
            ==> layout_efi(disk) == disk + seq!['p', '1'] && layout_root(disk) == disk + seq!['p', '2'],
{
    assert(decimal_spec(1) == seq!['1']);
    assert(decimal_spec(2) == seq!['2']);
    assert("p"@ + seq!['1'] =~= seq!['p', '1']) by {
        reveal_strlit("p");
    }
    assert("p"@ + seq!['2'] =~= seq!['p', '2']) by {
        reveal_strlit("p");
    }
    assert(disk + "p"@ + seq!['1'] =~= disk + seq!['p', '1']);
    assert(disk + "p"@ + seq!['2'] =~= disk + seq!['p', '2']);
}

/// The path of a partition of `disk`, following the kernel's block naming.
pub fn get_partition_path(disk: &str, part_num: u8) -> (p: String)
    ensures
        p@ == partition_path_spec(disk@, part_num as nat),
{
    let mut p = disk.to_string();
    if contains(disk, "nvme") || contains(disk, "mmc") || contains(disk, "loop") {
        p.append("p");
    }
    let n = decimal(part_num as u64);
    p.append(n.as_str());
    p
}

/// The layout of `disk` once it is partitioned: partition 1 is the EFI system partition and
/// partition 2 the root.
pub open spec fn layout_efi(disk: Seq<char>) -> Seq<char> {
    partition_path_spec(disk, 1)
}

pub open spec fn layout_root(disk: Seq<char>) -> Seq<char> {
    partition_path_spec(disk, 2)
}

/// The partition layout that partitioning `disk_path` yields.
pub fn partition_target_disk(disk_path: &str) -> (layout: PartitionLayout)
    ensures
        layout.efi_partition@ == layout_efi(disk_path@),
        layout.root_partition@ == layout_root(disk_path@),
{
    PartitionLayout {
        efi_partition: get_partition_path(disk_path, 1),
        root_partition: get_partition_path(disk_path, 2),
    }
}

/// `wipefs -a <disk>`: removes filesystem signatures.
pub fn wipefs_command(disk_path: &str) -> (c: ExternalCommand)
    ensures
        c@ == plain_command("wipefs"@, seq!["-a"@, disk_path@]),
{
    let args = vec!["-a".to_string(), disk_path.to_string()];
    assert(args.deep_view() =~= seq!["-a"@, disk_path@]);
    ExternalCommand::new("wipefs", args)
}

/// `sgdisk --zap-all <disk>`: destroys the GPT and MBR tables.
pub fn zap_all_command(disk_path: &str) -> (c: ExternalCommand)
    ensures
        c@ == plain_command("sgdisk"@, seq!["--zap-all"@, disk_path@]),
{
    let args = vec!["--zap-all".to_string(), disk_path.to_string()];
    assert(args.deep_view() =~= seq!["--zap-all"@, disk_path@]);
    ExternalCommand::new("sgdisk", args)
}

/// The `sgdisk` arguments that write the layout: a 512 MiB EFI system partition (ef00) named
/// MITOS_EFI, then a Linux partition (8300) named MITOS_ROOT over the rest of the disk.
pub open spec fn gpt_layout_args(disk_path: Seq<char>) -> Seq<Seq<char>> {
    seq![
        "--clear"@,
        "--new=1:0:+512M"@,
        "--typecode=1:ef00"@,
        "--change-name=1:MITOS_EFI"@,
        "--new=2:0:0"@,
        "--typecode=2:8300"@,
        "--change-name=2:MITOS_ROOT"@,
        disk_path,
    ]
}

/// `sgdisk` invocation that creates the GPT layout.
pub fn gpt_layout_command(disk_path: &str) -> (c: ExternalCommand)
    ensures
        c@ == plain_command("sgdisk"@, gpt_layout_args(disk_path@)),
{
    let args = vec![
        "--clear".to_string(),
        "--new=1:0:+512M".to_string(),
        "--typecode=1:ef00".to_string(),
        "--change-name=1:MITOS_EFI".to_string(),
        "--new=2:0:0".to_string(),
        "--typecode=2:8300".to_string(),
        "--change-name=2:MITOS_ROOT".to_string(),
        disk_path.to_string(),
    ];
    assert(args.deep_view() =~= gpt_layout_args(disk_path@));
    ExternalCommand::new("sgdisk", args)
}

/// `partprobe <disk>`: makes the kernel re-read the partition table.
pub fn partprobe_command(disk_path: &str) -> (c: ExternalCommand)
    ensures
        c@ == plain_command("partprobe"@, seq![disk_path@]),
{
    let args = vec![disk_path.to_string()];
    assert(args.deep_view() =~= seq![disk_path@]);
    ExternalCommand::new("partprobe", args)
}

/// The commands that prepare a disk for the new layout.
#[derive(PartialEq, Eq, Structural, Clone, Copy, Debug)]
pub enum DiskPrepKind {
    /// `wipefs`: remove filesystem signatures.
    WipeSignatures,
    /// `sgdisk --zap-all`: destroy the partition tables.
    ZapTables,
    /// `sgdisk`: write the GPT layout.
    WriteLayout,
    /// `partprobe`: make the kernel re-read the table.
    RereadTable,
}

/// One command of preparing a disk, and which of its outcomes fail the partitioning: not
/// starting when `start_required`, an unsuccessful exit when `success_required`.
pub struct DiskPrepStep {
    pub kind: DiskPrepKind,
    pub command: ExternalCommand,
    pub start_required: bool,
    pub success_required: bool,
}

/// The mathematical value of a [`DiskPrepStep`].
pub struct DiskPrepStepView {
    pub kind: DiskPrepKind,
    pub command: CommandView,
    pub start_required: bool,
    pub success_required: bool,
}

impl DeepView for DiskPrepStep {
    type V = DiskPrepStepView;

    open spec fn deep_view(&self) -> DiskPrepStepView {
        DiskPrepStepView {
            kind: self.kind,
            command: self.command@,
            start_required: self.start_required,
            success_required: self.success_required,
        }
    }
}

/// Partitioning a disk, in order: wipe the signatures (only a failure to start counts), zap the
/// tables and write the layout (both must start and succeed), then have the kernel re-read the
/// table (best effort). The first failure that counts ends the partitioning.
pub open spec fn disk_preparation_spec(disk_path: Seq<char>) -> Seq<DiskPrepStepView> {
    seq![
        DiskPrepStepView {
            kind: DiskPrepKind::WipeSignatures,
            command: plain_command("wipefs"@, seq!["-a"@, disk_path]),
            start_required: true,
            success_required: false,
        },
        DiskPrepStepView {
            kind: DiskPrepKind::ZapTables,
            command: plain_command("sgdisk"@, seq!["--zap-all"@, disk_path]),
            start_required: true,
            success_required: true,
        },
        DiskPrepStepView {
            kind: DiskPrepKind::WriteLayout,
            command: plain_command("sgdisk"@, gpt_layout_args(disk_path)),
            start_required: true,
            success_required: true,
        },
        DiskPrepStepView {
            kind: DiskPrepKind::RereadTable,
            command: plain_command("partprobe"@, seq![disk_path]),
            start_required: false,
            success_required: false,
        },
    ]
}

/// The commands that prepare `disk_path` for the layout of [`partition_target_disk`].
pub fn disk_preparation(disk_path: &str) -> (steps: Vec<DiskPrepStep>)
    ensures
        steps.deep_view() == disk_preparation_spec(disk_path@),
{
    let steps = vec![
        DiskPrepStep {
            kind: DiskPrepKind::WipeSignatures,
            command: wipefs_command(disk_path),
            start_required: true,
            success_required: false,
        },
        DiskPrepStep {
            kind: DiskPrepKind::ZapTables,
            command: zap_all_command(disk_path),
            start_required: true,
            success_required: true,
        },
        DiskPrepStep {
            kind: DiskPrepKind::WriteLayout,
            command: gpt_layout_command(disk_path),
            start_required: true,
            success_required: true,
        },
        DiskPrepStep {
            kind: DiskPrepKind::RereadTable,
            command: partprobe_command(disk_path),
            start_required: false,
            success_required: false,
        },
    ];
    assert(steps.deep_view() =~= disk_preparation_spec(disk_path@));
    steps
}

} // verus!
