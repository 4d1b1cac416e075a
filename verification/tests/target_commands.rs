use mitos_installer::partition::{
    disk_preparation, gpt_layout_command, partprobe_command, wipefs_command, zap_all_command, DiskPrepKind,
};
use mitos_installer::command::{command_result, list_advance, list_start, CommandFailure, ListState};
use mitos_installer::config::blkid_lookup;
use mitos_installer::config::{system_files, uuid_command, uuidgen_command};
use mitos_installer::bootloader::{
    first_existing, limine_binary_candidate_paths, limine_conf_content, limine_layout,
    limine_missing_message, parent_disk_command, partuuid_command, uefi_boot_entry_command,
    windows_append_error, windows_boot_manager, windows_entry, windows_entry_append,
};
use mitos_installer::disk::{lsblk_command, writable_disks, BlockDevice};
use mitos_installer::encryption::{luks_format_command, luks_mapper_path, luks_open_command};
use mitos_installer::filesystem::{create_btrfs_layout, format_efi_partition, format_root_partition};
use mitos_installer::init::configure_init;
use mitos_installer::kernel::{boot_destination, initramfs_copy, install_kernel_binaries, kernel_copy, KernelArtifacts};
use mitos_installer::locale::configure_locale;
use mitos_installer::network::configure_network;
use mitos_installer::profile::{deploy_profile, InstallProfile};
use mitos_installer::recovery::emergency_cleanup_commands;
use mitos_installer::rootfs::{deploy_result, deploy_rootfs, RootfsSource};
use mitos_installer::verify::{check_prerequisites, check_root_privileges, check_uefi_mode, efi_firmware_dir};

fn device(name: &str, dev_type: &str, ro: bool) -> BlockDevice {
    BlockDevice {
        name: name.to_string(),
        path: format!("/dev/{}", name),
        size: 1 << 30,
        model: None,
        dev_type: dev_type.to_string(),
        ro,
    }
}

#[test]
fn limine_candidates_and_first_existing() {
    assert_eq!(
        limine_binary_candidate_paths(),
        vec!["/usr/share/limine/BOOTX64.EFI", "/usr/lib/limine/BOOTX64.EFI", "/usr/lib/limine/bootx64.efi"]
    );
    assert_eq!(first_existing(&[false, true, true]), Some(1));
    assert_eq!(first_existing(&[true, false, false]), Some(0));
    assert_eq!(first_existing(&[false, false, false]), None);
    assert_eq!(first_existing(&[]), None);
    assert_eq!(
        limine_missing_message(),
        "Limine EFI binary not found in the live environment. Checked /usr/share/limine and /usr/lib/limine."
    );
}

#[test]
fn limine_layout_on_the_esp() {
    let l = limine_layout("/mnt/mitos/boot/efi", "vmlinuz-mitos", "initramfs.img");
    assert_eq!(l.mitos_dir, "/mnt/mitos/boot/efi/EFI/mitos");
    assert_eq!(l.fallback_dir, "/mnt/mitos/boot/efi/EFI/BOOT");
    assert_eq!(l.binary_dest, "/mnt/mitos/boot/efi/EFI/mitos/BOOTX64.EFI");
    assert_eq!(l.fallback_binary_dest, "/mnt/mitos/boot/efi/EFI/BOOT/BOOTX64.EFI");
    assert_eq!(l.kernel_src, "/mnt/mitos/boot/vmlinuz-mitos");
    assert_eq!(l.kernel_dest, "/mnt/mitos/boot/efi/EFI/mitos/vmlinuz-mitos");
    assert_eq!(l.initramfs_src, "/mnt/mitos/boot/initramfs.img");
    assert_eq!(l.initramfs_dest, "/mnt/mitos/boot/efi/EFI/mitos/initramfs.img");
    assert_eq!(l.config_path, "/mnt/mitos/boot/efi/EFI/mitos/limine.conf");
}

#[test]
fn limine_conf_text() {
    assert_eq!(
        limine_conf_content("vmlinuz-mitos", "initramfs.img", "1234-abcd"),
        "timeout: 3\ndefault_entry: 1\n\n/MITOS Linux\nprotocol: linux\nkernel_path: boot():/EFI/mitos/vmlinuz-mitos\nmodule_path: boot():/EFI/mitos/initramfs.img\ncmdline: root=PARTUUID=1234-abcd rw quiet splash\n"
    );
}

#[test]
fn uefi_boot_entry_for_sata_and_nvme() {
    assert_eq!(parent_disk_command("/dev/sda2").args, vec!["-ndo", "PKNAME", "/dev/sda2"]);
    let c = uefi_boot_entry_command("/dev/sda2", "sda\n").unwrap();
    assert_eq!(c.program, "efibootmgr");
    assert_eq!(
        c.args,
        vec!["--create", "--disk", "/dev/sda", "--part", "2", "--label", "MITOS", "--loader", "\\EFI\\mitos\\BOOTX64.EFI"]
    );
    let c = uefi_boot_entry_command("/dev/nvme0n1p2", "nvme0n1").unwrap();
    assert_eq!(c.args[2], "/dev/nvme0n1");
    assert_eq!(c.args[4], "2");
    assert!(uefi_boot_entry_command("/dev/sda2", "  \n").is_none());
}

#[test]
fn partuuid_and_windows() {
    let c = partuuid_command("/dev/sda2");
    assert_eq!(c.program, "blkid");
    assert_eq!(c.args, vec!["-p", "-s", "PARTUUID", "-o", "value", "/dev/sda2"]);
    assert_eq!(
        windows_boot_manager("/mnt/mitos/boot/efi"),
        "/mnt/mitos/boot/efi/EFI/Microsoft/Boot/bootmgfw.efi"
    );
    assert_eq!(
        windows_entry(),
        "\n/Windows\n    protocol: efi_chainload\n    image_path: boot():/EFI/Microsoft/Boot/bootmgfw.efi\n"
    );
}

#[test]
fn rootfs_from_archive_or_directory() {
    let c = deploy_rootfs(&RootfsSource::Archive("/run/media/rootfs.tar.xz".to_string()), "/mnt/mitos");
    assert_eq!(c.program, "tar");
    assert_eq!(c.args, vec!["-xpf", "/run/media/rootfs.tar.xz", "-C", "/mnt/mitos", "--numeric-owner"]);
    let c = deploy_rootfs(&RootfsSource::Directory("/run/rootfs".to_string()), "/mnt/mitos");
    assert_eq!(c.program, "rsync");
    assert_eq!(c.args, vec!["-aHAX", "--numeric-ids", "--info=progress2", "/run/rootfs/", "/mnt/mitos"]);
    let c = deploy_rootfs(&RootfsSource::Directory("/run/rootfs//".to_string()), "/mnt/mitos");
    assert_eq!(c.args[3], "/run/rootfs/");
}

#[test]
fn kernel_copies_into_target_boot() {
    let k = install_kernel_binaries(
        &KernelArtifacts {
            kernel_path: "/boot/vmlinuz-mitos".to_string(),
            initramfs_path: Some("/boot/initramfs-mitos.img".to_string()),
        },
        "/mnt/mitos",
    );
    assert_eq!(k.boot_dir, "/mnt/mitos/boot");
    assert_eq!(k.kernel_destination.as_deref(), Some("/mnt/mitos/boot/vmlinuz-mitos"));
    assert_eq!(k.initramfs_destination, Some(Some("/mnt/mitos/boot/initramfs-mitos.img".to_string())));
    let k = install_kernel_binaries(
        &KernelArtifacts { kernel_path: "kernel.elf".to_string(), initramfs_path: None },
        "/mnt/mitos",
    );
    assert_eq!(k.kernel_destination.as_deref(), Some("/mnt/mitos/boot/kernel.elf"));
    assert_eq!(k.initramfs_destination, None);
    assert_eq!(boot_destination("/mnt/mitos/boot", "/"), None);
    assert_eq!(boot_destination("/mnt/mitos/boot", "/boot/.."), None);
}

#[test]
fn only_writable_whole_disks_are_offered() {
    let c = lsblk_command();
    assert_eq!(c.program, "lsblk");
    assert_eq!(c.args, vec!["-J", "-b", "-o", "NAME,PATH,SIZE,MODEL,TYPE,RO"]);
    let devices = vec![
        device("loop0", "loop", true),
        device("sda", "disk", false),
        device("sda1", "part", false),
        device("sr0", "rom", true),
        device("sdb", "disk", true),
        device("nvme0n1", "disk", false),
    ];
    let names: Vec<String> = writable_disks(&devices).into_iter().map(|d| d.name).collect();
    assert_eq!(names, vec!["sda", "nvme0n1"]);
    assert!(writable_disks(&Vec::new()).is_empty());
}

#[test]
fn emergency_cleanup_unmounts_then_wipes() {
    let p = emergency_cleanup_commands("/mnt/mitos", true, Some("/dev/sda"));
    let unmount = p.unmount.unwrap();
    assert_eq!(unmount.program, "umount");
    assert_eq!(unmount.args, vec!["-R", "-l", "/mnt/mitos"]);
    let zap = p.zap.unwrap();
    assert_eq!(zap.program, "sgdisk");
    assert_eq!(zap.args, vec!["--zap-all", "/dev/sda"]);
    let reread = p.reread.unwrap();
    assert_eq!(reread.program, "partprobe");
    assert_eq!(reread.args, vec!["/dev/sda"]);
    let none = emergency_cleanup_commands("/mnt/mitos", false, None);
    assert!(none.unmount.is_none() && none.zap.is_none() && none.reread.is_none());
    let only_disk = emergency_cleanup_commands("/mnt/mitos", false, Some("/dev/vda"));
    assert!(only_disk.unmount.is_none());
    assert_eq!(only_disk.zap.unwrap().args, vec!["--zap-all", "/dev/vda"]);
}

#[test]
fn prerequisites_root_first_then_uefi() {
    assert_eq!(efi_firmware_dir(), "/sys/firmware/efi");
    assert!(check_root_privileges(0).is_ok());
    assert_eq!(
        check_root_privileges(1000).unwrap_err(),
        "The MITOS installer must be run as root (UID 0)."
    );
    assert!(check_uefi_mode(true).is_ok());
    assert_eq!(
        check_uefi_mode(false).unwrap_err(),
        "System was not booted in UEFI mode. Legacy BIOS is not supported."
    );
    assert_eq!(
        check_prerequisites(1000, false).unwrap_err(),
        "The MITOS installer must be run as root (UID 0)."
    );
    assert_eq!(
        check_prerequisites(0, false).unwrap_err(),
        "System was not booted in UEFI mode. Legacy BIOS is not supported."
    );
    assert!(check_prerequisites(0, true).is_ok());
}

#[test]
fn only_gaming_profile_installs_packages() {
    let c = deploy_profile(InstallProfile::Gaming, "/mnt/mitos").unwrap();
    assert_eq!(c.program, "chroot");
    assert_eq!(c.args, vec!["/mnt/mitos", "/usr/bin/mitos-pkg", "install", "steam", "lutris", "gamemode"]);
    assert!(deploy_profile(InstallProfile::Minimal, "/mnt/mitos").is_none());
    assert!(deploy_profile(InstallProfile::Standard, "/mnt/mitos").is_none());
    assert!(deploy_profile(InstallProfile::Creator, "/mnt/mitos").is_none());
}

#[test]
fn network_configuration_files() {
    let n = configure_network("/mnt/mitos");
    assert_eq!(n.network_dir, "/mnt/mitos/etc/systemd/network");
    assert_eq!(n.wired_file, "/mnt/mitos/etc/systemd/network/20-wired.network");
    assert_eq!(n.wired_content, "[Match]\nName=en* eth*\n\n[Network]\nDHCP=yes\n");
    assert_eq!(n.enable.command.args[3], "systemctl enable systemd-networkd systemd-resolved");
    assert_eq!(n.resolv_conf, "/mnt/mitos/etc/resolv.conf");
    assert_eq!(n.resolv_link_target, "../run/systemd/resolve/stub-resolv.conf");
}

#[test]
fn locale_configuration_files() {
    let l = configure_locale("/mnt/mitos", "fr_FR.UTF-8", "Europe/Paris");
    assert_eq!(l.localtime, "/mnt/mitos/etc/localtime");
    assert_eq!(l.zoneinfo_link, "../usr/share/zoneinfo/Europe/Paris");
    assert_eq!(l.timezone_file, "/mnt/mitos/etc/timezone");
    assert_eq!(l.timezone_content, "Europe/Paris\n");
    assert_eq!(l.locale_conf, "/mnt/mitos/etc/locale.conf");
    assert_eq!(l.locale_conf_content, "LANG=fr_FR.UTF-8\n");
    assert_eq!(l.locale_gen, "/mnt/mitos/etc/locale.gen");
    assert_eq!(l.locale_gen_line, "fr_FR.UTF-8 UTF-8\n");
    assert_eq!(l.generate.command.args, vec!["/mnt/mitos", "sh", "-c", "locale-gen"]);
    assert_eq!(l.generate.command_line, "locale-gen");
}

#[test]
fn init_link() {
    let s = configure_init("/mnt/mitos", "/usr/bin/mitos-init");
    assert_eq!(s.sbin_dir, "/mnt/mitos/sbin");
    assert_eq!(s.init_path, "/mnt/mitos/sbin/init");
    assert_eq!(s.link_target, "/usr/bin/mitos-init");
}

#[test]
fn formatting_commands() {
    let c = format_efi_partition("/dev/sda1");
    assert_eq!(c.program, "mkfs.vfat");
    assert_eq!(c.args, vec!["-F", "32", "-n", "BOOT", "/dev/sda1"]);
    let c = format_root_partition("/dev/sda2");
    assert_eq!(c.program, "mkfs.ext4");
    assert_eq!(c.args, vec!["-F", "-L", "MITOS_ROOT", "/dev/sda2"]);
}

#[test]
fn btrfs_layout_creates_five_subvolumes() {
    let l = create_btrfs_layout("/dev/nvme0n1p2");
    assert_eq!(l.format.program, "mkfs.btrfs");
    assert_eq!(l.format.args, vec!["-f", "/dev/nvme0n1p2"]);
    assert_eq!(l.temp_mount, "/mnt/mitos-temp");
    assert_eq!(l.mount.args, vec!["/dev/nvme0n1p2", "/mnt/mitos-temp"]);
    let names: Vec<&str> = l.subvolumes.iter().map(|s| s.name.as_str()).collect();
    assert_eq!(names, vec!["@", "@home", "@var", "@snapshots", "@log"]);
    let paths: Vec<String> = l.subvolumes.iter().map(|s| s.command.args[2].clone()).collect();
    assert_eq!(
        paths,
        vec![
            "/mnt/mitos-temp/@",
            "/mnt/mitos-temp/@home",
            "/mnt/mitos-temp/@var",
            "/mnt/mitos-temp/@snapshots",
            "/mnt/mitos-temp/@log",
        ]
    );
    assert!(l.subvolumes.iter().all(|s| s.command.program == "btrfs"
        && s.command.args[0] == "subvolume"
        && s.command.args[1] == "create"));
    assert_eq!(l.unmount.args, vec!["/mnt/mitos-temp"]);
}

#[test]
fn luks_commands() {
    let c = luks_format_command("/dev/sda2", "pass");
    assert_eq!(c.program, "cryptsetup");
    assert_eq!(c.args, vec!["luksFormat", "--type", "luks2", "/dev/sda2"]);
    assert_eq!(c.stdin.as_deref(), Some("pass"));
    let c = luks_open_command("/dev/sda2");
    assert_eq!(c.args, vec!["open", "/dev/sda2", "mitos-root"]);
    assert!(c.stdin.is_none());
    assert_eq!(luks_mapper_path(), "/dev/mapper/mitos-root");
}

#[test]
fn disk_preparation_commands() {
    let c = wipefs_command("/dev/sda");
    assert_eq!(c.program, "wipefs");
    assert_eq!(c.args, vec!["-a", "/dev/sda"]);
    assert_eq!(zap_all_command("/dev/sda").args, vec!["--zap-all", "/dev/sda"]);
    let c = gpt_layout_command("/dev/sda");
    assert_eq!(c.program, "sgdisk");
    assert_eq!(
        c.args,
        vec![
            "--clear",
            "--new=1:0:+512M",
            "--typecode=1:ef00",
            "--change-name=1:MITOS_EFI",
            "--new=2:0:0",
            "--typecode=2:8300",
            "--change-name=2:MITOS_ROOT",
            "/dev/sda",
        ]
    );
    assert_eq!(partprobe_command("/dev/sda").program, "partprobe");
}

#[test]
fn system_file_paths_and_uuid_commands() {
    let f = system_files("/mnt/mitos");
    assert_eq!(f.etc_dir, "/mnt/mitos/etc");
    assert_eq!(f.fstab, "/mnt/mitos/etc/fstab");
    assert_eq!(f.hostname, "/mnt/mitos/etc/hostname");
    assert_eq!(f.hosts, "/mnt/mitos/etc/hosts");
    assert_eq!(f.machine_id, "/mnt/mitos/etc/machine-id");
    let c = uuid_command("/dev/sda2");
    assert_eq!(c.program, "blkid");
    assert_eq!(c.args, vec!["-s", "UUID", "-o", "value", "/dev/sda2"]);
    assert_eq!(uuidgen_command().program, "uuidgen");
    assert!(uuidgen_command().args.is_empty());
}

#[test]
fn disk_preparation_order_and_failures() {
    let steps = disk_preparation("/dev/sda");
    let kinds: Vec<DiskPrepKind> = steps.iter().map(|s| s.kind).collect();
    assert_eq!(
        kinds,
        vec![DiskPrepKind::WipeSignatures, DiskPrepKind::ZapTables, DiskPrepKind::WriteLayout, DiskPrepKind::RereadTable]
    );
    let programs: Vec<&str> = steps.iter().map(|s| s.command.program.as_str()).collect();
    assert_eq!(programs, vec!["wipefs", "sgdisk", "sgdisk", "partprobe"]);
    assert_eq!(steps[2].command.args, gpt_layout_command("/dev/sda").args);
    let flags: Vec<(bool, bool)> = steps.iter().map(|s| (s.start_required, s.success_required)).collect();
    assert_eq!(flags, vec![(true, false), (true, true), (true, true), (false, false)]);
    assert_eq!(command_result(true, false, Some(false)), Ok(()));
    assert_eq!(command_result(true, false, None), Err(CommandFailure::NotStarted));
    assert_eq!(command_result(true, true, Some(false)), Err(CommandFailure::Unsuccessful));
    assert_eq!(command_result(false, false, None), Ok(()));
    assert_eq!(command_result(true, true, Some(true)), Ok(()));
}

#[test]
fn blkid_lookup_results_and_errors() {
    assert_eq!(blkid_lookup("PARTUUID", "/dev/sda2", true, " 1234-ab\n", ""), Ok("1234-ab".to_string()));
    assert_eq!(
        blkid_lookup("PARTUUID", "/dev/sda2", true, " \n", ""),
        Err("blkid returned empty PARTUUID for \"/dev/sda2\"".to_string())
    );
    assert_eq!(
        blkid_lookup("UUID", "/dev/sda1", false, "x", "no such device\n"),
        Err("Failed to retrieve UUID for \"/dev/sda1\": no such device\n".to_string())
    );
}

#[test]
fn kernel_and_initramfs_copies() {
    let a = KernelArtifacts {
        kernel_path: "/boot/vmlinuz-mitos".to_string(),
        initramfs_path: Some("/boot/initramfs-mitos.img".to_string()),
    };
    assert_eq!(
        kernel_copy(&a, "/mnt/mitos", false),
        Err("Kernel source file does not exist: \"/boot/vmlinuz-mitos\"".to_string())
    );
    assert_eq!(
        kernel_copy(&a, "/mnt/mitos", true),
        Ok(("/boot/vmlinuz-mitos".to_string(), "/mnt/mitos/boot/vmlinuz-mitos".to_string()))
    );
    assert_eq!(initramfs_copy(&a, "/mnt/mitos", false), Ok(None));
    assert_eq!(
        initramfs_copy(&a, "/mnt/mitos", true),
        Ok(Some(("/boot/initramfs-mitos.img".to_string(), "/mnt/mitos/boot/initramfs-mitos.img".to_string())))
    );
    let no_name = KernelArtifacts { kernel_path: "/".to_string(), initramfs_path: Some("/boot/..".to_string()) };
    assert_eq!(kernel_copy(&no_name, "/mnt/mitos", true), Err("Invalid kernel filename".to_string()));
    assert_eq!(initramfs_copy(&no_name, "/mnt/mitos", true), Err("Invalid initramfs filename".to_string()));
    let none = KernelArtifacts { kernel_path: "k".to_string(), initramfs_path: None };
    assert_eq!(initramfs_copy(&none, "/mnt/mitos", true), Ok(None));
}

#[test]
fn rootfs_deploy_results() {
    let tar = RootfsSource::Archive("/run/rootfs.tar".to_string());
    let dir = RootfsSource::Directory("/run/rootfs".to_string());
    assert_eq!(deploy_result(&tar, Some(true), ""), Ok(()));
    assert_eq!(
        deploy_result(&tar, Some(false), "bad archive"),
        Err("Failed to extract rootfs archive from /run/rootfs.tar: bad archive".to_string())
    );
    assert_eq!(
        deploy_result(&dir, Some(false), "denied"),
        Err("Failed to copy live rootfs from /run/rootfs: denied".to_string())
    );
    assert_eq!(deploy_result(&tar, None, "not found"), Err("Failed to execute tar extraction: not found".to_string()));
    assert_eq!(deploy_result(&dir, None, "not found"), Err("Failed to execute rsync: not found".to_string()));
}

#[test]
fn windows_entry_is_appended_only_when_found() {
    assert!(windows_entry_append("/mnt/mitos/boot/efi/EFI/mitos/limine.conf", false).is_none());
    let a = windows_entry_append("/mnt/mitos/boot/efi/EFI/mitos/limine.conf", true).unwrap();
    assert_eq!(a.path, "/mnt/mitos/boot/efi/EFI/mitos/limine.conf");
    assert_eq!(a.text, windows_entry());
    assert!(!a.create);
    assert_eq!(windows_append_error("gone"), "Failed to append Windows entry to limine.conf: gone");
}

fn run_list(results: &[bool], ignore: bool) -> (ListState, Vec<usize>) {
    let mut ran = Vec::new();
    let mut state = list_start(results.len());
    while let ListState::Running(i) = state {
        ran.push(i);
        state = list_advance(results.len(), i, results[i], ignore);
    }
    (state, ran)
}

#[test]
fn command_lists_stop_at_the_first_failure() {
    assert_eq!(run_list(&[true, true, true], false), (ListState::Succeeded, vec![0, 1, 2]));
    assert_eq!(run_list(&[true, false, true], false), (ListState::Failed(1), vec![0, 1]));
    assert_eq!(run_list(&[false, false], true), (ListState::Succeeded, vec![0, 1]));
    assert_eq!(run_list(&[], false), (ListState::Succeeded, vec![]));
}
