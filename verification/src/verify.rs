//! Prerequisites of the live environment: root privileges and UEFI boot.

use vstd::prelude::*;

use crate::text::error_view;

verus! {

broadcast use vstd::string::group_string_axioms;

/// The directory whose presence shows that the system booted through UEFI.
pub fn efi_firmware_dir() -> (p: String)
    ensures
        p@ == "/sys/firmware/efi"@,
{
    "/sys/firmware/efi".to_string()
}

pub open spec fn not_root_error() -> Seq<char> {
    "The MITOS installer must be run as root (UID 0)."@
}

pub open spec fn not_uefi_error() -> Seq<char> {
    "System was not booted in UEFI mode. Legacy BIOS is not supported."@
}

/// Root always has UID 0.
pub fn check_root_privileges(uid: u32) -> (r: Result<(), String>)
    ensures
        error_view(r) == (if uid != 0 {
            Err(not_root_error())
        } else {
            Ok::<(), Seq<char>>(())
        }),
{
    if uid != 0 {
        return Err("The MITOS installer must be run as root (UID 0).".to_string());
    }
    Ok(())
}

/// Legacy BIOS boot is not supported.
pub fn check_uefi_mode(efi_dir_exists: bool) -> (r: Result<(), String>)
    ensures
        error_view(r) == (if !efi_dir_exists {
            Err(not_uefi_error())
        } else {
            Ok::<(), Seq<char>>(())
        }),
{
    if !efi_dir_exists {
        return Err("System was not booted in UEFI mode. Legacy BIOS is not supported.".to_string());
    }
    Ok(())
}

/// The installer runs only as root on a UEFI-booted system; root is checked first.
pub fn check_prerequisites(uid: u32, efi_dir_exists: bool) -> (r: Result<(), String>)
    ensures
        error_view(r) == (if uid != 0 {
            Err(not_root_error())
        } else if !efi_dir_exists {
            Err(not_uefi_error())
        } else {
            Ok::<(), Seq<char>>(())
        }),
{
    check_root_privileges(uid)?;
    check_uefi_mode(efi_dir_exists)?;
    Ok(())
}

} // verus!
