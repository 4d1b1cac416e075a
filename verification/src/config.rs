//! The target system's core configuration files: fstab, hostname, hosts and machine-id.

use vstd::prelude::*;
use vstd::string::StringExecFns;

use crate::command::{plain_command, ExternalCommand};
use crate::text::{
    debug_path, join_path, join_path_spec, path_debug, text_result,
    lowercase, pad_right, pad_right_spec, remove_char, remove_char_spec, string_result, to_lowercase, trim, trim_spec,
};

verus! {

broadcast use vstd::string::group_string_axioms;

/// The root filesystems the installer can create.
#[derive(PartialEq, Eq, Structural, Clone, Copy, Debug)]
pub enum FilesystemType {
    Ext4,
    Btrfs,
}

/// The mount options shared by every Btrfs subvolume.
pub open spec fn btrfs_options() -> Seq<char> {
    "compress=zstd:1,noatime,discard=async"@
}

/// `UUID=<uuid>` with the UUID left-aligned in a 36-character field.
pub open spec fn uuid_field(uuid: Seq<char>) -> Seq<char> {
    "UUID="@ + pad_right_spec(uuid, 36)
}

pub open spec fn fstab_header() -> Seq<char> {
    "# /etc/fstab: static file system information.\n\
     # <file system>                           <mount point>  <type>  <options>                   <dump>  <pass>\n"@
}

/// The EFI line: vfat at /boot/efi, readable by root only (umask=0077), checked second.
pub open spec fn fstab_efi_line(efi_uuid: Seq<char>) -> Seq<char> {
    uuid_field(efi_uuid) + "  /boot/efi      vfat    umask=0077                  0       2\n"@
}

/// The root lines: one ext4 line, or the Btrfs subvolumes @, @home and @log.
pub open spec fn fstab_root_lines(root_uuid: Seq<char>, fs_type: FilesystemType) -> Seq<char> {
    match fs_type {
        FilesystemType::Ext4 => uuid_field(root_uuid)
            + "  /              ext4    defaults,noatime            0       1\n"@,
        FilesystemType::Btrfs => uuid_field(root_uuid) + "  /              btrfs   subvol=/@,"@
            + btrfs_options() + "      0       0\n"@ + uuid_field(root_uuid)
            + "  /home          btrfs   subvol=/@home,"@ + btrfs_options() + "      0       0\n"@
            + uuid_field(root_uuid) + "  /var/log       btrfs   subvol=/@log,"@ + btrfs_options()
            + "      0       0\n"@,
    }
}

pub open spec fn fstab_tmpfs_line() -> Seq<char> {
    "tmpfs                                  /tmp           tmpfs   defaults,noatime,mode=1777  0       0\n"@
}

/// The whole of /etc/fstab: header, EFI line, root lines, then tmpfs on /tmp.
pub open spec fn fstab_spec(root_uuid: Seq<char>, efi_uuid: Seq<char>, fs_type: FilesystemType) -> Seq<
    char,
> {
    fstab_header() + fstab_efi_line(efi_uuid) + fstab_root_lines(root_uuid, fs_type)
        + fstab_tmpfs_line()
}

fn push_uuid_field(out: &mut String, uuid: &str)
    ensures
        final(out)@ == old(out)@ + uuid_field(uuid@),
{
    out.append("UUID=");
    let padded = pad_right(uuid, 36);
    out.append(padded.as_str());
}

/// The text of /etc/fstab for the given partition UUIDs and root filesystem.
pub fn fstab_content(root_uuid: &str, efi_uuid: &str, fs_type: FilesystemType) -> (s: String)
    ensures
        s@ == fstab_spec(root_uuid@, efi_uuid@, fs_type),
{
    let mut s = "# /etc/fstab: static file system information.\n\
     # <file system>                           <mount point>  <type>  <options>                   <dump>  <pass>\n".to_string();
    push_uuid_field(&mut s, efi_uuid);
    s.append("  /boot/efi      vfat    umask=0077                  0       2\n");
    match fs_type {
        FilesystemType::Ext4 => {
            push_uuid_field(&mut s, root_uuid);
            s.append("  /              ext4    defaults,noatime            0       1\n");
        },
        FilesystemType::Btrfs => {
            let btrfs_opts = "compress=zstd:1,noatime,discard=async";
            push_uuid_field(&mut s, root_uuid);
            s.append("  /              btrfs   subvol=/@,");
            s.append(btrfs_opts);
            s.append("      0       0\n");
            push_uuid_field(&mut s, root_uuid);
            s.append("  /home          btrfs   subvol=/@home,");
            s.append(btrfs_opts);
            s.append("      0       0\n");
            push_uuid_field(&mut s, root_uuid);
            s.append("  /var/log       btrfs   subvol=/@log,");
            s.append(btrfs_opts);
            s.append("      0       0\n");
        },
    }
    s.append(
        "tmpfs                                  /tmp           tmpfs   defaults,noatime,mode=1777  0       0\n",
    );
    assert(s@ =~= fstab_spec(root_uuid@, efi_uuid@, fs_type));
    s
}

/// The text of /etc/hostname: the hostname trimmed, then a newline.
pub open spec fn hostname_file_spec(hostname: Seq<char>) -> Seq<char> {
    trim_spec(hostname) + "\n"@
}

pub fn hostname_file_content(hostname: &str) -> (s: String)
    ensures
        s@ == hostname_file_spec(hostname@),
{
    let mut s = trim(hostname);
    s.append("\n");
    s
}

/// The text of /etc/hosts: localhost for IPv4 and IPv6, and 127.0.1.1 for the trimmed hostname
/// with and without `.localdomain`.
pub open spec fn hosts_file_spec(hostname: Seq<char>) -> Seq<char> {
    let h = trim_spec(hostname);
    "# /etc/hosts\n\
     127.0.0.1       localhost\n\
     ::1             localhost\n\
     127.0.1.1       "@ + h + ".localdomain "@ + h + "\n"@
}

pub fn hosts_file_content(hostname: &str) -> (s: String)
    ensures
        s@ == hosts_file_spec(hostname@),
{
    let h = trim(hostname);
    let mut s = "# /etc/hosts\n\
     127.0.0.1       localhost\n\
     ::1             localhost\n\
     127.0.1.1       ".to_string();
    s.append(h.as_str());
    s.append(".localdomain ");
    s.append(h.as_str());
    s.append("\n");
    s
}

/// The machine-id used when `uuidgen` does not succeed: 32 zeros.
pub open spec fn fallback_machine_id() -> Seq<char> {
    "00000000000000000000000000000000"@
}

/// The machine-id: the `uuidgen` output with dashes removed, trimmed and lowercased, or the
/// all-zero fallback when `uuidgen` did not succeed (`None`).
pub open spec fn machine_id_spec(uuidgen_output: Option<Seq<char>>) -> Seq<char> {
    match uuidgen_output {
        Some(out) => lowercase(trim_spec(remove_char_spec(out, '-'))),
        None => fallback_machine_id(),
    }
}

pub fn machine_id(uuidgen_output: Option<&str>) -> (id: String)
    ensures
        id@ == machine_id_spec(uuidgen_output.deep_view()),
{
    match uuidgen_output {
        Some(out) => {
            let no_dashes = remove_char(out, '-');
            let trimmed = trim(no_dashes.as_str());
            to_lowercase(trimmed.as_str())
        },
        None => "00000000000000000000000000000000".to_string(),
    }
}

/// The text of /etc/machine-id.
pub fn machine_id_file_content(uuidgen_output: Option<&str>) -> (s: String)
    ensures
        s@ == machine_id_spec(uuidgen_output.deep_view()) + "\n"@,
{
    let mut s = machine_id(uuidgen_output);
    s.append("\n");
    s
}

/// Why a `blkid` query gave no identifier.
#[derive(PartialEq, Eq, Structural, Clone, Copy, Debug)]
pub enum BlkidError {
    /// `blkid` exited unsuccessfully.
    CommandFailed,
    /// `blkid` succeeded but printed only whitespace.
    Empty,
}

/// The identifier `blkid -o value` reports: its trimmed output, when it succeeded and the
/// output is not blank.
pub open spec fn blkid_value_spec(succeeded: bool, stdout: Seq<char>) -> Result<Seq<char>, BlkidError> {
    if !succeeded {
        Err(BlkidError::CommandFailed)
    } else if trim_spec(stdout).len() == 0 {
        Err(BlkidError::Empty)
    } else {
        Ok(trim_spec(stdout))
    }
}

pub fn blkid_value(succeeded: bool, stdout: &str) -> (r: Result<String, BlkidError>)
    ensures
        string_result(r) == blkid_value_spec(succeeded, stdout@),
{
    if !succeeded {
        return Err(BlkidError::CommandFailed);
    }
    let t = trim(stdout);
    if t.as_str().is_empty() {
        Err(BlkidError::Empty)
    } else {
        Ok(t)
    }
}

/// What looking up an identifier (`what`: UUID, PARTUUID) of `partition` with `blkid` gives:
/// the value, or the error naming the partition, with `blkid`'s error output when it failed.
pub open spec fn blkid_lookup_spec(
    what: Seq<char>,
    partition: Seq<char>,
    succeeded: bool,
    stdout: Seq<char>,
    stderr: Seq<char>,
) -> Result<Seq<char>, Seq<char>> {
    match blkid_value_spec(succeeded, stdout) {
        Ok(v) => Ok(v),
        Err(BlkidError::CommandFailed) => Err(
            "Failed to retrieve "@ + what + " for "@ + path_debug(partition) + ": "@ + stderr,
        ),
        Err(BlkidError::Empty) => Err("blkid returned empty "@ + what + " for "@ + path_debug(partition)),
    }
}

/// The identifier `blkid` reported for `partition`, or the error to report; never an empty
/// value.
pub fn blkid_lookup(what: &str, partition: &str, succeeded: bool, stdout: &str, stderr: &str) -> (r:
    Result<String, String>)
    ensures
        text_result(r) == blkid_lookup_spec(what@, partition@, succeeded, stdout@, stderr@),
        r matches Ok(v) ==> v@.len() > 0,
{
    match blkid_value(succeeded, stdout) {
        Ok(v) => Ok(v),
        Err(BlkidError::CommandFailed) => {
            let mut m = "Failed to retrieve ".to_string();
            m.append(what);
            m.append(" for ");
            let d = debug_path(partition);
            m.append(d.as_str());
            m.append(": ");
            m.append(stderr);
            Err(m)
        },
        Err(BlkidError::Empty) => {
            let mut m = "blkid returned empty ".to_string();
            m.append(what);
            m.append(" for ");
            let d = debug_path(partition);
            m.append(d.as_str());
            Err(m)
        },
    }
}

/// `blkid -s UUID -o value <partition>`.
pub fn uuid_command(partition: &str) -> (c: ExternalCommand)
    ensures
        c@ == plain_command("blkid"@, seq!["-s"@, "UUID"@, "-o"@, "value"@, partition@]),
{
    let args = vec![
        "-s".to_string(),
        "UUID".to_string(),
        "-o".to_string(),
        "value".to_string(),
        partition.to_string(),
    ];
    assert(args.deep_view() =~= seq!["-s"@, "UUID"@, "-o"@, "value"@, partition@]);
    ExternalCommand::new("blkid", args)
}

/// `uuidgen`: a fresh random UUID.
pub fn uuidgen_command() -> (c: ExternalCommand)
    ensures
        c@ == plain_command("uuidgen"@, seq![]),
{
    let args: Vec<String> = Vec::new();
    assert(args.deep_view() =~= Seq::<Seq<char>>::empty());
    ExternalCommand::new("uuidgen", args)
}

/// The files the system configuration writes under a target root.
pub struct SystemFiles {
    pub etc_dir: String,
    pub fstab: String,
    pub hostname: String,
    pub hosts: String,
    pub machine_id: String,
}

/// The paths of the system configuration files of the target at `target_mount`.
pub fn system_files(target_mount: &str) -> (f: SystemFiles)
    ensures
        f.etc_dir@ == join_path_spec(target_mount@, "etc"@),
        f.fstab@ == join_path_spec(target_mount@, "etc/fstab"@),
        f.hostname@ == join_path_spec(target_mount@, "etc/hostname"@),
        f.hosts@ == join_path_spec(target_mount@, "etc/hosts"@),
        f.machine_id@ == join_path_spec(target_mount@, "etc/machine-id"@),
{
    SystemFiles {
        etc_dir: join_path(target_mount, "etc"),
        fstab: join_path(target_mount, "etc/fstab"),
        hostname: join_path(target_mount, "etc/hostname"),
        hosts: join_path(target_mount, "etc/hosts"),
        machine_id: join_path(target_mount, "etc/machine-id"),
    }
}

} // verus!
