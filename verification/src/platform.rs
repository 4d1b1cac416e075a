//! Whether the installer runs inside a virtual machine.

use vstd::prelude::*;

use crate::text::{contains, contains_spec, lowercase, to_lowercase};

verus! {

broadcast use vstd::string::group_string_axioms;

/// A DMI system vendor that names a hypervisor (QEMU, VirtualBox or VMware), in any case.
pub open spec fn hypervisor_vendor(vendor: Seq<char>) -> bool {
    let v = lowercase(vendor);
    contains_spec(v, "qemu"@) || contains_spec(v, "virtualbox"@) || contains_spec(v, "vmware"@)
}

/// A VM: the DMI vendor names a hypervisor, or the CPU flags include `hypervisor`. Each source
/// counts only when it could be read.
pub open spec fn is_virtual_machine_spec(sys_vendor: Option<Seq<char>>, cpuinfo: Option<Seq<char>>) -> bool {
    (sys_vendor matches Some(v) && hypervisor_vendor(v)) || (cpuinfo matches Some(c) && contains_spec(
        c,
        "hypervisor"@,
    ))
}

/// Decides whether the host is a virtual machine from /sys/class/dmi/id/sys_vendor and
/// /proc/cpuinfo, each `None` when it could not be read.
pub fn is_virtual_machine(sys_vendor: Option<&str>, cpuinfo: Option<&str>) -> (b: bool)
    ensures
        b == is_virtual_machine_spec(sys_vendor.deep_view(), cpuinfo.deep_view()),
{
    if let Some(vendor) = sys_vendor {
        let v = to_lowercase(vendor);
        if contains(v.as_str(), "qemu") || contains(v.as_str(), "virtualbox") || contains(
            v.as_str(),
            "vmware",
        ) {
            return true;
        }
    }
    if let Some(c) = cpuinfo {
        if contains(c, "hypervisor") {
            return true;
        }
    }
    false
}

/// The message reporting the platform.
pub open spec fn platform_message_spec(is_vm: bool) -> Seq<char> {
    if is_vm {
        "Virtualization detected: Installer is running inside a VM."@
    } else {
        "Bare-metal detected: Installer is running on physical hardware."@
    }
}

/// Detects virtualization and returns the message that reports it.
pub fn detect_platform(sys_vendor: Option<&str>, cpuinfo: Option<&str>) -> (m: String)
    ensures
        m@ == platform_message_spec(
            is_virtual_machine_spec(sys_vendor.deep_view(), cpuinfo.deep_view()),
        ),
{
    if is_virtual_machine(sys_vendor, cpuinfo) {
        "Virtualization detected: Installer is running inside a VM.".to_string()
    } else {
        "Bare-metal detected: Installer is running on physical hardware.".to_string()
    }
}

} // verus!
