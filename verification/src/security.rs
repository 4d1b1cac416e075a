//! Permissions on sensitive files of the installed system.

use vstd::prelude::*;

use crate::command::{chroot_step, chroot_step_spec, ChrootStep, ChrootStepView};
use crate::text::{join_path, join_path_spec};

verus! {

broadcast use vstd::string::group_string_axioms;

/// Where the target's sudoers file is, to test whether it exists.
pub fn sudoers_path(target_mount: &str) -> (p: String)
    ensures
        p@ == join_path_spec(target_mount@, "etc/sudoers"@),
{
    join_path(target_mount, "etc/sudoers")
}

/// The permission commands, in order: /etc/shadow readable by root only and owned by root,
/// /etc/sudoers read-only for root and its group when it exists, and /root private to root.
pub open spec fn security_policies_spec(target_mount: Seq<char>, sudoers_exists: bool) -> Seq<
    ChrootStepView,
> {
    seq![
        chroot_step_spec(target_mount, "chmod 600 /etc/shadow"@, None, ""@),
        chroot_step_spec(target_mount, "chown root:root /etc/shadow"@, None, ""@),
    ] + (if sudoers_exists {
        seq![chroot_step_spec(target_mount, "chmod 440 /etc/sudoers"@, None, ""@)]
    } else {
        seq![]
    }) + seq![chroot_step_spec(target_mount, "chmod 700 /root"@, None, ""@)]
}

/// The commands that apply standard Linux security permissions to the target root.
pub fn apply_security_policies(target_mount: &str, sudoers_exists: bool) -> (steps: Vec<ChrootStep>)
    ensures
        steps.deep_view() == security_policies_spec(target_mount@, sudoers_exists),
{
    let mut steps: Vec<ChrootStep> = Vec::new();
    steps.push(chroot_step(target_mount, "chmod 600 /etc/shadow", None, ""));
    steps.push(chroot_step(target_mount, "chown root:root /etc/shadow", None, ""));
    if sudoers_exists {
        steps.push(chroot_step(target_mount, "chmod 440 /etc/sudoers", None, ""));
    }
    steps.push(chroot_step(target_mount, "chmod 700 /root", None, ""));
    assert(steps.deep_view() =~= security_policies_spec(target_mount@, sudoers_exists));
    steps
}

} // verus!
