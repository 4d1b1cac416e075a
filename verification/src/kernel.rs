//! Copying the kernel image and an optional initramfs into the target's /boot.

use vstd::prelude::*;

use vstd::string::StringExecFns;

use crate::text::{debug_path, file_name, file_name_spec, join_path, join_path_spec, path_debug};

verus! {

broadcast use vstd::string::group_string_axioms;

/// The kernel image and optional initramfs to install.
#[derive(Debug, Clone)]
pub struct KernelArtifacts {
    /// For example `/boot/vmlinuz-mitos` or a freestanding ELF.
    pub kernel_path: String,
    /// For example `/boot/initramfs-mitos.img`.
    pub initramfs_path: Option<String>,
}

/// Where a file copied into `boot_dir` lands: under its own file name, if it has one.
pub open spec fn boot_destination_spec(boot_dir: Seq<char>, source: Seq<char>) -> Option<Seq<char>> {
    match file_name_spec(source) {
        Some(name) => Some(join_path_spec(boot_dir, name)),
        None => None,
    }
}

/// What installing the artifacts copies, and where.
pub struct KernelInstall {
    /// The target's /boot, created first.
    pub boot_dir: String,
    /// The kernel's destination; `None` when its path has no file name.
    pub kernel_destination: Option<String>,
    /// The initramfs's destination, when there is one; `None` inside when its path has no file name.
    pub initramfs_destination: Option<Option<String>>,
}

/// The copies that install `artifacts` into `target_dir`.
pub fn install_kernel_binaries(artifacts: &KernelArtifacts, target_dir: &str) -> (k: KernelInstall)
    ensures
        k.boot_dir@ == join_path_spec(target_dir@, "boot"@),
        k.kernel_destination.deep_view() == boot_destination_spec(
            join_path_spec(target_dir@, "boot"@),
            artifacts.kernel_path@,
        ),
        k.initramfs_destination.deep_view() == match artifacts.initramfs_path {
            Some(p) => Some(boot_destination_spec(join_path_spec(target_dir@, "boot"@), p@)),
            None => None,
        },
{
    let boot_dir = join_path(target_dir, "boot");
    let kernel_destination = boot_destination(boot_dir.as_str(), artifacts.kernel_path.as_str());
    let initramfs_destination = match &artifacts.initramfs_path {
        Some(p) => Some(boot_destination(boot_dir.as_str(), p.as_str())),
        None => None,
    };
    KernelInstall { boot_dir, kernel_destination, initramfs_destination }
}

/// Where a file lands when copied into `boot_dir` under its own name.
pub fn boot_destination(boot_dir: &str, source: &str) -> (d: Option<String>)
    ensures
        d.deep_view() == boot_destination_spec(boot_dir@, source@),
{
    match file_name(source) {
        Some(name) => Some(join_path(boot_dir, name.as_str())),
        None => None,
    }
}

/// The error when the kernel to install does not exist.
pub open spec fn kernel_missing_error(kernel_path: Seq<char>) -> Seq<char> {
    "Kernel source file does not exist: "@ + path_debug(kernel_path)
}

/// The kernel's copy into the target's /boot, as (source, destination): an error when the kernel
/// does not exist, or when its path has no file name.
pub fn kernel_copy(artifacts: &KernelArtifacts, target_dir: &str, kernel_exists: bool) -> (r: Result<
    (String, String),
    String,
>)
    ensures
        !kernel_exists ==> (r matches Err(e) && e@ == kernel_missing_error(artifacts.kernel_path@)),
        kernel_exists ==> match boot_destination_spec(
            join_path_spec(target_dir@, "boot"@),
            artifacts.kernel_path@,
        ) {
            Some(d) => r matches Ok((src, dst)) && src@ == artifacts.kernel_path@ && dst@ == d,
            None => r matches Err(e) && e@ == "Invalid kernel filename"@,
        },
{
    if !kernel_exists {
        let mut e = "Kernel source file does not exist: ".to_string();
        let d = debug_path(artifacts.kernel_path.as_str());
        e.append(d.as_str());
        return Err(e);
    }
    let boot_dir = join_path(target_dir, "boot");
    match boot_destination(boot_dir.as_str(), artifacts.kernel_path.as_str()) {
        Some(dst) => Ok((artifacts.kernel_path.clone(), dst)),
        None => Err("Invalid kernel filename".to_string()),
    }
}

/// The initramfs's copy into the target's /boot, made after the kernel's: none when there is no
/// initramfs or it does not exist (neither is an error), an error when its path has no file name.
pub fn initramfs_copy(artifacts: &KernelArtifacts, target_dir: &str, initramfs_exists: bool) -> (r:
    Result<Option<(String, String)>, String>)
    ensures
        match artifacts.initramfs_path {
            None => r matches Ok(None),
            Some(i) => if !initramfs_exists {
                r matches Ok(None)
            } else {
                match boot_destination_spec(join_path_spec(target_dir@, "boot"@), i@) {
                    Some(d) => r matches Ok(Some((src, dst))) && src@ == i@ && dst@ == d,
                    None => r matches Err(e) && e@ == "Invalid initramfs filename"@,
                }
            },
        },
{
    match &artifacts.initramfs_path {
        None => Ok(None),
        Some(i) => {
            if !initramfs_exists {
                return Ok(None);
            }
            let boot_dir = join_path(target_dir, "boot");
            match boot_destination(boot_dir.as_str(), i.as_str()) {
                Some(dst) => Ok(Some((i.clone(), dst))),
                None => Err("Invalid initramfs filename".to_string()),
            }
        },
    }
}

} // verus!
