//! Default networking of the installed system: systemd-networkd DHCP on wired interfaces and
//! systemd-resolved for name resolution.

use vstd::prelude::*;

use crate::command::{chroot_step, chroot_step_spec, ChrootStep};
use crate::text::{join_path, join_path_spec};

verus! {

broadcast use vstd::string::group_string_axioms;

/// What configuring the network does, in order: create `network_dir`, write `wired_content` to
/// `wired_file`, run `enable`, then replace `resolv_conf` with a link to `resolv_link_target`.
pub struct NetworkSetup {
    pub network_dir: String,
    pub wired_file: String,
    pub wired_content: String,
    pub enable: ChrootStep,
    pub resolv_conf: String,
    pub resolv_link_target: String,
}

/// A DHCP fallback for every `en*` and `eth*` interface.
pub open spec fn wired_network_spec() -> Seq<char> {
    "\
    [Match]\n\
    Name=en* eth*\n\
    \n\
    [Network]\n\
    DHCP=yes\n\
    "@
}

/// The network configuration of the target at `target_mount`.
pub fn configure_network(target_mount: &str) -> (n: NetworkSetup)
    ensures
        n.network_dir@ == join_path_spec(target_mount@, "etc/systemd/network"@),
        n.wired_file@ == join_path_spec(
            join_path_spec(target_mount@, "etc/systemd/network"@),
            "20-wired.network"@,
        ),
        n.wired_content@ == wired_network_spec(),
        n.enable.deep_view() == chroot_step_spec(
            target_mount@,
            "systemctl enable systemd-networkd systemd-resolved"@,
            None,
            ""@,
        ),
        n.resolv_conf@ == join_path_spec(target_mount@, "etc/resolv.conf"@),
        n.resolv_link_target@ == "../run/systemd/resolve/stub-resolv.conf"@,
{
    let network_dir = join_path(target_mount, "etc/systemd/network");
    let wired_file = join_path(network_dir.as_str(), "20-wired.network");
    let wired_content = "\
    [Match]\n\
    Name=en* eth*\n\
    \n\
    [Network]\n\
    DHCP=yes\n\
    ".to_string();
    NetworkSetup {
        network_dir,
        wired_file,
        wired_content,
        enable: chroot_step(
            target_mount,
            "systemctl enable systemd-networkd systemd-resolved",
            None,
            "",
        ),
        resolv_conf: join_path(target_mount, "etc/resolv.conf"),
        resolv_link_target: "../run/systemd/resolve/stub-resolv.conf".to_string(),
    }
}

} // verus!
