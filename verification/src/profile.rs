//! Optional package sets deployed after the root filesystem.

use vstd::prelude::*;

use crate::command::{plain_command, ExternalCommand};

verus! {

broadcast use vstd::string::group_string_axioms;

/// The package sets on offer.
#[derive(PartialEq, Eq, Structural, Clone, Copy, Debug)]
pub enum InstallProfile {
    Minimal,
    Standard,
    Gaming,
    Creator,
}

/// The package manager run a profile needs: the gaming profile installs steam, lutris and
/// gamemode inside the target; the others install nothing.
pub fn deploy_profile(profile: InstallProfile, target_mount: &str) -> (c: Option<ExternalCommand>)
    ensures
        profile == InstallProfile::Gaming ==> (c matches Some(cmd) && cmd@ == plain_command(
            "chroot"@,
            seq![target_mount@, "/usr/bin/mitos-pkg"@, "install"@, "steam"@, "lutris"@, "gamemode"@],
        )),
        profile != InstallProfile::Gaming ==> c is None,
{
    match profile {
        InstallProfile::Gaming => {
            let args = vec![
                target_mount.to_string(),
                "/usr/bin/mitos-pkg".to_string(),
                "install".to_string(),
                "steam".to_string(),
                "lutris".to_string(),
                "gamemode".to_string(),
            ];
            assert(args.deep_view() =~= seq![
                target_mount@,
                "/usr/bin/mitos-pkg"@,
                "install"@,
                "steam"@,
                "lutris"@,
                "gamemode"@,
            ]);
            Some(ExternalCommand::new("chroot", args))
        },
        _ => None,
    }
}

} // verus!
