//! The Limine bootloader on the EFI system partition: where its files go, its configuration,
//! the UEFI boot entry, and the Windows chainload entry.

use vstd::prelude::*;
use vstd::string::StringExecFns;

use crate::command::{plain_command, CommandView, ExternalCommand, FileAppend};
use crate::text::{
    join_path, join_path_spec, parent_dir, path_parent, strip_prefix, strip_prefix_spec,
    trim, trim_spec, trim_start_char, trim_start_char_spec,
};

verus! {

broadcast use vstd::string::group_string_axioms;

/// Where the live environment may hold the Limine EFI binary, in the order they are tried.
pub open spec fn limine_binary_candidates() -> Seq<Seq<char>> {
    seq![
        "/usr/share/limine/BOOTX64.EFI"@,
        "/usr/lib/limine/BOOTX64.EFI"@,
        "/usr/lib/limine/bootx64.efi"@,
    ]
}

pub fn limine_binary_candidate_paths() -> (v: Vec<String>)
    ensures
        v.deep_view() == limine_binary_candidates(),
{
    let v = vec![
        "/usr/share/limine/BOOTX64.EFI".to_string(),
        "/usr/lib/limine/BOOTX64.EFI".to_string(),
        "/usr/lib/limine/bootx64.efi".to_string(),
    ];
    assert(v.deep_view() =~= limine_binary_candidates());
    v
}

/// The index of the first candidate that exists.
pub fn first_existing(exists: &[bool]) -> (r: Option<usize>)
    ensures
        match r {
            Some(i) => i < exists@.len() && exists@[i as int] && forall|j: int|
                0 <= j < i ==> !exists@[j],
            None => forall|j: int| 0 <= j < exists@.len() ==> !exists@[j],
        },
{
    let mut i: usize = 0;
    while i < exists.len()
        invariant
            i <= exists@.len(),
            forall|j: int| 0 <= j < i ==> !exists@[j],
        decreases exists@.len() - i,
    {
        if exists[i] {
            return Some(i);
        }
        i = i + 1;
    }
    None
}

/// The error when no Limine binary is found.
pub open spec fn limine_missing_error() -> Seq<char> {
    "Limine EFI binary not found in the live environment. Checked /usr/share/limine and /usr/lib/limine."@
}

pub fn limine_missing_message() -> (m: String)
    ensures
        m@ == limine_missing_error(),
{
    "Limine EFI binary not found in the live environment. Checked /usr/share/limine and /usr/lib/limine.".to_string()
}

/// Where installing Limine puts things on the EFI partition mounted at `efi_mount`.
pub struct LimineLayout {
    /// `EFI/mitos`, the distribution's directory.
    pub mitos_dir: String,
    /// `EFI/BOOT`, the firmware's fallback directory.
    pub fallback_dir: String,
    pub binary_dest: String,
    pub fallback_binary_dest: String,
    /// The kernel in the target's /boot (the parent of the EFI mount) and its copy on the ESP.
    pub kernel_src: String,
    pub kernel_dest: String,
    pub initramfs_src: String,
    pub initramfs_dest: String,
    pub config_path: String,
}

/// The target's /boot: the directory holding the EFI mount, or the mount itself when it has none.
pub open spec fn root_boot_dir(efi_mount: Seq<char>) -> Seq<char> {
    match path_parent(efi_mount) {
        Some(p) => p,
        None => efi_mount,
    }
}

pub open spec fn mitos_dir_spec(efi_mount: Seq<char>) -> Seq<char> {
    join_path_spec(join_path_spec(efi_mount, "EFI"@), "mitos"@)
}

pub open spec fn fallback_dir_spec(efi_mount: Seq<char>) -> Seq<char> {
    join_path_spec(join_path_spec(efi_mount, "EFI"@), "BOOT"@)
}

/// The file locations for installing Limine with the given kernel and initramfs file names.
pub fn limine_layout(efi_mount: &str, kernel_name: &str, initramfs_name: &str) -> (l: LimineLayout)
    ensures
        l.mitos_dir@ == mitos_dir_spec(efi_mount@),
        l.fallback_dir@ == fallback_dir_spec(efi_mount@),
        l.binary_dest@ == join_path_spec(mitos_dir_spec(efi_mount@), "BOOTX64.EFI"@),
        l.fallback_binary_dest@ == join_path_spec(fallback_dir_spec(efi_mount@), "BOOTX64.EFI"@),
        l.kernel_src@ == join_path_spec(root_boot_dir(efi_mount@), kernel_name@),
        l.kernel_dest@ == join_path_spec(mitos_dir_spec(efi_mount@), kernel_name@),
        l.initramfs_src@ == join_path_spec(root_boot_dir(efi_mount@), initramfs_name@),
        l.initramfs_dest@ == join_path_spec(mitos_dir_spec(efi_mount@), initramfs_name@),
        l.config_path@ == join_path_spec(mitos_dir_spec(efi_mount@), "limine.conf"@),
{
    let efi_dir = join_path(efi_mount, "EFI");
    let mitos_dir = join_path(efi_dir.as_str(), "mitos");
    let fallback_dir = join_path(efi_dir.as_str(), "BOOT");
    let root_boot = match parent_dir(efi_mount) {
        Some(p) => p,
        None => efi_mount.to_string(),
    };
    LimineLayout {
        binary_dest: join_path(mitos_dir.as_str(), "BOOTX64.EFI"),
        fallback_binary_dest: join_path(fallback_dir.as_str(), "BOOTX64.EFI"),
        kernel_src: join_path(root_boot.as_str(), kernel_name),
        kernel_dest: join_path(mitos_dir.as_str(), kernel_name),
        initramfs_src: join_path(root_boot.as_str(), initramfs_name),
        initramfs_dest: join_path(mitos_dir.as_str(), initramfs_name),
        config_path: join_path(mitos_dir.as_str(), "limine.conf"),
        mitos_dir,
        fallback_dir,
    }
}

/// limine.conf: a 3-second menu whose first entry boots the kernel and initramfs from the
/// `EFI/mitos` directory of the boot partition (where `limine_layout` copies them), with the root given by PARTUUID.
pub open spec fn limine_conf_spec(kernel: Seq<char>, initrd: Seq<char>, partuuid: Seq<char>) -> Seq<
    char,
> {
    "timeout: 3\ndefault_entry: 1\n\n/MITOS Linux\nprotocol: linux\nkernel_path: boot():/EFI/mitos/"@
        + kernel + "\nmodule_path: boot():/EFI/mitos/"@ + initrd + "\ncmdline: root=PARTUUID="@
        + partuuid + " rw quiet splash\n"@
}

pub fn limine_conf_content(kernel_name: &str, initramfs_name: &str, partuuid: &str) -> (s: String)
    ensures
        s@ == limine_conf_spec(kernel_name@, initramfs_name@, partuuid@),
{
    let mut s =
        "timeout: 3\ndefault_entry: 1\n\n/MITOS Linux\nprotocol: linux\nkernel_path: boot():/EFI/mitos/".to_string();
    s.append(kernel_name);
    s.append("\nmodule_path: boot():/EFI/mitos/");
    s.append(initramfs_name);
    s.append("\ncmdline: root=PARTUUID=");
    s.append(partuuid);
    s.append(" rw quiet splash\n");
    s
}

/// `lsblk -ndo PKNAME <partition>`: the name of the disk holding a partition.
pub fn parent_disk_command(partition: &str) -> (c: ExternalCommand)
    ensures
        c@ == plain_command("lsblk"@, seq!["-ndo"@, "PKNAME"@, partition@]),
{
    let args = vec!["-ndo".to_string(), "PKNAME".to_string(), partition.to_string()];
    assert(args.deep_view() =~= seq!["-ndo"@, "PKNAME"@, partition@]);
    ExternalCommand::new("lsblk", args)
}

/// The partition number: what follows the disk path in the partition path (nothing when it does
/// not start with it), without leading `p`s and then leading `/`s.
pub open spec fn partition_number_spec(partition: Seq<char>, disk_path: Seq<char>) -> Seq<char> {
    let rest = match strip_prefix_spec(partition, disk_path) {
        Some(r) => r,
        None => seq![],
    };
    trim_start_char_spec(trim_start_char_spec(rest, 'p'), '/')
}

/// `efibootmgr`, creating a `MITOS` entry that loads `\EFI\mitos\BOOTX64.EFI` from the given
/// disk and partition.
pub open spec fn efibootmgr_spec(disk_path: Seq<char>, part_num: Seq<char>) -> CommandView {
    plain_command(
        "efibootmgr"@,
        seq![
            "--create"@,
            "--disk"@,
            disk_path,
            "--part"@,
            part_num,
            "--label"@,
            "MITOS"@,
            "--loader"@,
            "\\EFI\\mitos\\BOOTX64.EFI"@,
        ],
    )
}

/// The NVRAM boot entry for the root partition, given what `lsblk` said its parent disk is:
/// none when it named no disk.
pub open spec fn uefi_boot_entry_spec(partition: Seq<char>, lsblk_output: Seq<char>) -> Option<
    CommandView,
> {
    let disk_name = trim_spec(lsblk_output);
    if disk_name.len() == 0 {
        None
    } else {
        let disk_path = "/dev/"@ + disk_name;
        Some(efibootmgr_spec(disk_path, partition_number_spec(partition, disk_path)))
    }
}

pub fn uefi_boot_entry_command(partition: &str, lsblk_output: &str) -> (c: Option<ExternalCommand>)
    ensures
        c.deep_view() == uefi_boot_entry_spec(partition@, lsblk_output@),
{
    let disk_name = trim(lsblk_output);
    if disk_name.as_str().is_empty() {
        return None;
    }
    let mut disk_path = "/dev/".to_string();
    disk_path.append(disk_name.as_str());
    let rest = match strip_prefix(partition, disk_path.as_str()) {
        Some(r) => r,
        None => String::new(),
    };
    let no_p = trim_start_char(rest.as_str(), 'p');
    let part_num = trim_start_char(no_p.as_str(), '/');
    let args = vec![
        "--create".to_string(),
        "--disk".to_string(),
        disk_path.clone(),
        "--part".to_string(),
        part_num,
        "--label".to_string(),
        "MITOS".to_string(),
        "--loader".to_string(),
        "\\EFI\\mitos\\BOOTX64.EFI".to_string(),
    ];
    assert(args.deep_view() =~= efibootmgr_spec(disk_path@, partition_number_spec(partition@, disk_path@)).args);
    Some(ExternalCommand::new("efibootmgr", args))
}

/// `blkid -p -s PARTUUID -o value <partition>`.
pub fn partuuid_command(partition: &str) -> (c: ExternalCommand)
    ensures
        c@ == plain_command("blkid"@, seq!["-p"@, "-s"@, "PARTUUID"@, "-o"@, "value"@, partition@]),
{
    let args = vec![
        "-p".to_string(),
        "-s".to_string(),
        "PARTUUID".to_string(),
        "-o".to_string(),
        "value".to_string(),
        partition.to_string(),
    ];
    assert(args.deep_view() =~= seq!["-p"@, "-s"@, "PARTUUID"@, "-o"@, "value"@, partition@]);
    ExternalCommand::new("blkid", args)
}

/// Where Windows keeps its boot manager on a shared EFI partition.
pub fn windows_boot_manager(efi_mount: &str) -> (p: String)
    ensures
        p@ == join_path_spec(efi_mount@, "EFI/Microsoft/Boot/bootmgfw.efi"@),
{
    join_path(efi_mount, "EFI/Microsoft/Boot/bootmgfw.efi")
}

/// The Limine entry that chainloads the Windows boot manager.
pub open spec fn windows_entry_spec() -> Seq<char> {
    "\n/Windows\n    protocol: efi_chainload\n    image_path: boot():/EFI/Microsoft/Boot/bootmgfw.efi\n"@
}

pub fn windows_entry() -> (s: String)
    ensures
        s@ == windows_entry_spec(),
{
    "\n/Windows\n    protocol: efi_chainload\n    image_path: boot():/EFI/Microsoft/Boot/bootmgfw.efi\n".to_string()
}

/// What adding Windows to the boot menu does, given whether its boot manager is on the EFI
/// partition: nothing when it is not; otherwise append the Windows entry to the existing
/// `limine_conf` (a missing limine.conf is not created, and the append then fails).
pub fn windows_entry_append(limine_conf: &str, boot_manager_exists: bool) -> (a: Option<FileAppend>)
    ensures
        !boot_manager_exists ==> a is None,
        boot_manager_exists ==> (a matches Some(f) && f.path@ == limine_conf@ && f.text@
            == windows_entry_spec() && !f.create),
{
    if !boot_manager_exists {
        return None;
    }
    Some(FileAppend { path: limine_conf.to_string(), text: windows_entry(), create: false })
}

/// The error when the Windows entry cannot be appended, after the reason.
pub fn windows_append_error(reason: &str) -> (m: String)
    ensures
        m@ == "Failed to append Windows entry to limine.conf: "@ + reason@,
{
    let mut m = "Failed to append Windows entry to limine.conf: ".to_string();
    m.append(reason);
    m
}

} // verus!
