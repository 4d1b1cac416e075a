//! The init system that the kernel starts in the installed system.

use vstd::prelude::*;

use crate::text::{join_path, join_path_spec};

verus! {

broadcast use vstd::string::group_string_axioms;

/// What configuring init does: create `sbin_dir` if missing, remove any existing `init_path`,
/// then link it to `link_target`, an absolute path in the installed system.
pub struct InitSetup {
    pub sbin_dir: String,
    pub init_path: String,
    pub link_target: String,
}

/// The /sbin/init link of the target at `target_mount`, pointing at `init_binary`.
pub fn configure_init(target_mount: &str, init_binary: &str) -> (s: InitSetup)
    ensures
        s.sbin_dir@ == join_path_spec(target_mount@, "sbin"@),
        s.init_path@ == join_path_spec(join_path_spec(target_mount@, "sbin"@), "init"@),
        s.link_target@ == init_binary@,
{
    let sbin_dir = join_path(target_mount, "sbin");
    let init_path = join_path(sbin_dir.as_str(), "init");
    InitSetup { sbin_dir, init_path, link_target: init_binary.to_string() }
}

} // verus!
