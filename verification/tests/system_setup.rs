use mitos_installer::command::{chroot_command, chroot_failure_message, ChrootStep, ExternalCommand};
use mitos_installer::hardware::{
    battery_path, check_minimum_requirements, driver_services, lspci_command, profile_hardware,
    HardwareManifest,
};
use mitos_installer::platform::{detect_platform, is_virtual_machine};
use mitos_installer::security::{apply_security_policies, sudoers_path};
use mitos_installer::users::configure_users;

fn shell_line(step: &ChrootStep) -> &str {
    assert_eq!(step.command.args[3], step.command_line);
    step.command_line.as_str()
}

fn assert_chroot(c: &ExternalCommand, target: &str, line: &str) {
    assert_eq!(c.program, "chroot");
    assert_eq!(c.args, vec![target, "sh", "-c", line]);
}

#[test]
fn chroot_command_shape() {
    let c = chroot_command("/mnt/mitos", "ls /", None);
    assert_chroot(&c, "/mnt/mitos", "ls /");
    assert!(c.stdin.is_none());
    let c = chroot_command("/mnt/mitos", "cat", Some("data"));
    assert_eq!(c.stdin.as_deref(), Some("data"));
    assert_eq!(
        chroot_failure_message("useradd x", "  no such group\n"),
        "Chroot command 'useradd x' failed: no such group"
    );
}

#[test]
fn users_are_configured_in_order() {
    let steps = configure_users("/mnt/mitos", "ada", "$6$u", "$6$r");
    assert_eq!(steps.len(), 4);
    assert_chroot(&steps[0].command, "/mnt/mitos", "chpasswd -e");
    assert_eq!(steps[0].command.stdin.as_deref(), Some("root:$6$r"));
    assert_eq!(steps[0].error_prefix, "Failed to set root password: ");
    assert_chroot(&steps[1].command, "/mnt/mitos", "useradd -m -s /bin/bash -G wheel ada");
    assert!(steps[1].command.stdin.is_none());
    assert_eq!(steps[1].error_prefix, "Failed to create user 'ada': ");
    assert_chroot(&steps[2].command, "/mnt/mitos", "chpasswd -e");
    assert_eq!(steps[2].command.stdin.as_deref(), Some("ada:$6$u"));
    assert_eq!(steps[2].error_prefix, "Failed to set password for user 'ada': ");
    assert_eq!(
        shell_line(&steps[3]),
        "sh -c \"sed -i 's/^# %wheel ALL=(ALL:ALL) ALL/%wheel ALL=(ALL:ALL) ALL/' /etc/sudoers\""
    );
    assert_eq!(steps[3].error_prefix, "Failed to configure sudoers: ");
}

#[test]
fn password_hashes_never_reach_command_lines() {
    let a = configure_users("/mnt/mitos", "ada", "$6$secret-user", "$6$secret-root");
    let b = configure_users("/mnt/mitos", "ada", "x", "y");
    for (sa, sb) in a.iter().zip(b.iter()) {
        assert_eq!(sa.command.args, sb.command.args);
        assert_eq!(sa.error_prefix, sb.error_prefix);
        assert!(sa.command.args.iter().all(|arg| !arg.contains("secret")));
    }
}

#[test]
fn security_policies_with_and_without_sudoers() {
    assert_eq!(sudoers_path("/mnt/mitos"), "/mnt/mitos/etc/sudoers");
    let with: Vec<String> =
        apply_security_policies("/mnt/mitos", true).iter().map(|s| shell_line(s).to_string()).collect();
    assert_eq!(
        with,
        vec!["chmod 600 /etc/shadow", "chown root:root /etc/shadow", "chmod 440 /etc/sudoers", "chmod 700 /root"]
    );
    let without: Vec<String> =
        apply_security_policies("/mnt/mitos", false).iter().map(|s| shell_line(s).to_string()).collect();
    assert_eq!(without, vec!["chmod 600 /etc/shadow", "chown root:root /etc/shadow", "chmod 700 /root"]);
}

#[test]
fn hardware_profile_from_lspci() {
    assert_eq!(lspci_command().program, "lspci");
    assert!(lspci_command().args.is_empty());
    assert_eq!(battery_path(), "/sys/class/power_supply/BAT0");
    let m = profile_hardware("01:00.0 VGA compatible controller: NVIDIA Corporation GA106\n", true);
    assert!(m.has_nvidia);
    assert!(m.is_laptop);
    assert!(m.wifi_driver.is_none());
    let m = profile_hardware("00:02.0 VGA compatible controller: Intel Corporation\n", false);
    assert!(!m.has_nvidia);
    assert!(!m.is_laptop);
    let d = HardwareManifest::default();
    assert!(!d.has_nvidia && !d.is_laptop && d.wifi_driver.is_none());
}

#[test]
fn driver_services_follow_the_manifest() {
    let all = HardwareManifest { has_nvidia: true, is_laptop: true, wifi_driver: None };
    let lines: Vec<String> =
        driver_services("/mnt/mitos", &all).iter().map(|s| shell_line(s).to_string()).collect();
    assert_eq!(
        lines,
        vec![
            "systemctl enable nvidia-persistenced",
            "systemctl enable power-profiles-daemon",
            "systemctl enable upower",
        ]
    );
    assert!(driver_services("/mnt/mitos", &HardwareManifest::default()).is_empty());
}

#[test]
fn enough_ram_passes() {
    let meminfo = "MemTotal:        8048576 kB\nMemFree:          123456 kB\n";
    assert!(check_minimum_requirements(meminfo).is_ok());
    assert!(check_minimum_requirements("MemTotal: 1048576 kB\n").is_ok());
}

#[test]
fn too_little_ram_is_refused() {
    assert_eq!(
        check_minimum_requirements("MemTotal:         524288 kB\n").unwrap_err(),
        "Insufficient RAM. MITOS requires at least 1GB (Found 512MB)."
    );
    assert_eq!(
        check_minimum_requirements("MemTotal: 1048575 kB\n").unwrap_err(),
        "Insufficient RAM. MITOS requires at least 1GB (Found 1023MB)."
    );
}

#[test]
fn unreadable_ram_lines_are_skipped() {
    assert!(check_minimum_requirements("").is_ok());
    assert!(check_minimum_requirements("MemTotal:\nMemFree: 10 kB\n").is_ok());
    assert!(check_minimum_requirements("MemTotal: lots kB\n").is_ok());
}

#[test]
fn virtual_machines_are_recognised() {
    assert!(is_virtual_machine(Some("innotek GmbH VirtualBox\n"), None));
    assert!(is_virtual_machine(Some("QEMU"), None));
    assert!(is_virtual_machine(Some("VMware, Inc."), None));
    assert!(is_virtual_machine(None, Some("flags : fpu vme hypervisor")));
    assert!(!is_virtual_machine(Some("Dell Inc."), Some("flags : fpu vme")));
    assert!(!is_virtual_machine(None, None));
    assert_eq!(
        detect_platform(Some("QEMU"), None),
        "Virtualization detected: Installer is running inside a VM."
    );
    assert_eq!(
        detect_platform(Some("LENOVO"), None),
        "Bare-metal detected: Installer is running on physical hardware."
    );
}
