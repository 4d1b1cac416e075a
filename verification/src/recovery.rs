//! Rolling back after a failed installation.

use vstd::prelude::*;

use crate::command::{plain_command, CommandView, ExternalCommand};
use crate::partition::{partprobe_command, zap_all_command};

verus! {

broadcast use vstd::string::group_string_axioms;

/// The rollback after a failed installation, in order: a lazy recursive unmount of the target,
/// then zapping the disk's partition table and making the kernel re-read it, so that nothing tries
/// to boot a broken system.
pub struct CleanupPlan {
    /// `umount -R -l <target>`, when the target exists.
    pub unmount: Option<ExternalCommand>,
    /// `sgdisk --zap-all <disk>`, when the disk is known.
    pub zap: Option<ExternalCommand>,
    /// `partprobe <disk>`, when the disk is known.
    pub reread: Option<ExternalCommand>,
}

/// The lazy recursive unmount of the target.
pub open spec fn lazy_unmount_spec(target_mount: Seq<char>) -> CommandView {
    plain_command("umount"@, seq!["-R"@, "-l"@, target_mount])
}

/// The commands of the emergency rollback: the unmount only when the target exists, the wipe
/// and re-read only when the disk is known.
pub fn emergency_cleanup_commands(
    target_mount: &str,
    target_exists: bool,
    target_disk: Option<&str>,
) -> (p: CleanupPlan)
    ensures
        p.unmount.deep_view() == (if target_exists {
            Some(lazy_unmount_spec(target_mount@))
        } else {
            None
        }),
        p.zap.deep_view() == match target_disk {
            Some(d) => Some(plain_command("sgdisk"@, seq!["--zap-all"@, d@])),
            None => None,
        },
        p.reread.deep_view() == match target_disk {
            Some(d) => Some(plain_command("partprobe"@, seq![d@])),
            None => None,
        },
{
    let unmount = if target_exists {
        let args = vec!["-R".to_string(), "-l".to_string(), target_mount.to_string()];
        assert(args.deep_view() =~= seq!["-R"@, "-l"@, target_mount@]);
        Some(ExternalCommand::new("umount", args))
    } else {
        None
    };
    let (zap, reread) = match target_disk {
        Some(disk) => (Some(zap_all_command(disk)), Some(partprobe_command(disk))),
        None => (None, None),
    };
    CleanupPlan { unmount, zap, reread }
}

} // verus!
