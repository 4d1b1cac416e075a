//! Formatting the partitions, and the Btrfs subvolume layout.

use vstd::prelude::*;

use crate::command::{plain_command, CommandView, ExternalCommand};
use crate::text::{join_path, join_path_spec};

verus! {

broadcast use vstd::string::group_string_axioms;

/// `mkfs.vfat -F 32 -n BOOT <partition>`: FAT32 labelled BOOT.
pub fn format_efi_partition(partition_path: &str) -> (c: ExternalCommand)
    ensures
        c@ == plain_command("mkfs.vfat"@, seq!["-F"@, "32"@, "-n"@, "BOOT"@, partition_path@]),
{
    let args = vec![
        "-F".to_string(),
        "32".to_string(),
        "-n".to_string(),
        "BOOT".to_string(),
        partition_path.to_string(),
    ];
    assert(args.deep_view() =~= seq!["-F"@, "32"@, "-n"@, "BOOT"@, partition_path@]);
    ExternalCommand::new("mkfs.vfat", args)
}

/// `mkfs.ext4 -F -L MITOS_ROOT <partition>`: ext4 labelled MITOS_ROOT.
pub fn format_root_partition(partition_path: &str) -> (c: ExternalCommand)
    ensures
        c@ == plain_command("mkfs.ext4"@, seq!["-F"@, "-L"@, "MITOS_ROOT"@, partition_path@]),
{
    let args = vec!["-F".to_string(), "-L".to_string(), "MITOS_ROOT".to_string(), partition_path.to_string()];
    assert(args.deep_view() =~= seq!["-F"@, "-L"@, "MITOS_ROOT"@, partition_path@]);
    ExternalCommand::new("mkfs.ext4", args)
}

/// The Btrfs subvolumes created on the root partition.
pub open spec fn btrfs_subvolumes() -> Seq<Seq<char>> {
    seq!["@"@, "@home"@, "@var"@, "@snapshots"@, "@log"@]
}

/// Where the root partition is mounted while its subvolumes are created.
pub open spec fn btrfs_temp_mount() -> Seq<char> {
    "/mnt/mitos-temp"@
}

/// The Btrfs layout, in order: format, create and mount on `temp_mount`, create each
/// subvolume, unmount.
pub struct BtrfsLayout {
    pub format: ExternalCommand,
    pub temp_mount: String,
    pub mount: ExternalCommand,
    pub subvolumes: Vec<SubvolumeCreate>,
    pub unmount: ExternalCommand,
}

/// The creation of one subvolume: its name and the command that creates it.
pub struct SubvolumeCreate {
    pub name: String,
    pub command: ExternalCommand,
}

impl DeepView for SubvolumeCreate {
    type V = (Seq<char>, CommandView);

    open spec fn deep_view(&self) -> (Seq<char>, CommandView) {
        (self.name@, self.command@)
    }
}

/// `btrfs subvolume create <temp mount>/<name>`.
pub open spec fn subvolume_create_spec(name: Seq<char>) -> CommandView {
    plain_command("btrfs"@, seq!["subvolume"@, "create"@, join_path_spec(btrfs_temp_mount(), name)])
}

/// The commands that format the root partition as Btrfs with the standard subvolumes.
pub fn create_btrfs_layout(root_partition: &str) -> (l: BtrfsLayout)
    ensures
        l.format@ == plain_command("mkfs.btrfs"@, seq!["-f"@, root_partition@]),
        l.temp_mount@ == btrfs_temp_mount(),
        l.mount@ == plain_command("mount"@, seq![root_partition@, btrfs_temp_mount()]),
        l.subvolumes.deep_view() == btrfs_subvolumes().map_values(
            |n: Seq<char>| (n, subvolume_create_spec(n)),
        ),
        l.unmount@ == plain_command("umount"@, seq![btrfs_temp_mount()]),
{
    let temp = "/mnt/mitos-temp";
    let format_args = vec!["-f".to_string(), root_partition.to_string()];
    assert(format_args.deep_view() =~= seq!["-f"@, root_partition@]);
    let mount_args = vec![root_partition.to_string(), temp.to_string()];
    assert(mount_args.deep_view() =~= seq![root_partition@, btrfs_temp_mount()]);
    let unmount_args = vec![temp.to_string()];
    assert(unmount_args.deep_view() =~= seq![btrfs_temp_mount()]);
    let mut subvolumes: Vec<SubvolumeCreate> = Vec::new();
    subvolumes.push(subvolume_create(temp, "@"));
    subvolumes.push(subvolume_create(temp, "@home"));
    subvolumes.push(subvolume_create(temp, "@var"));
    subvolumes.push(subvolume_create(temp, "@snapshots"));
    subvolumes.push(subvolume_create(temp, "@log"));
    assert(subvolumes.deep_view() =~= btrfs_subvolumes().map_values(
        |n: Seq<char>| (n, subvolume_create_spec(n)),
    ));
    BtrfsLayout {
        format: ExternalCommand::new("mkfs.btrfs", format_args),
        temp_mount: temp.to_string(),
        mount: ExternalCommand::new("mount", mount_args),
        subvolumes,
        unmount: ExternalCommand::new("umount", unmount_args),
    }
}

fn subvolume_create(temp: &str, name: &str) -> (c: SubvolumeCreate)
    ensures
        c.name@ == name@,
        c.command@ == plain_command("btrfs"@, seq!["subvolume"@, "create"@, join_path_spec(temp@, name@)]),
{
    let path = join_path(temp, name);
    let args = vec!["subvolume".to_string(), "create".to_string(), path];
    assert(args.deep_view() =~= seq!["subvolume"@, "create"@, join_path_spec(temp@, name@)]);
    SubvolumeCreate { name: name.to_string(), command: ExternalCommand::new("btrfs", args) }
}

} // verus!
