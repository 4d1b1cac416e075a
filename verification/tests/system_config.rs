use mitos_installer::config::{
    blkid_value, fstab_content, hostname_file_content, hosts_file_content, machine_id,
    machine_id_file_content, BlkidError, FilesystemType,
};

#[test]
fn ext4_fstab_has_efi_root_and_tmpfs_lines() {
    let fstab = fstab_content("root-uuid", "EFI-UUID", FilesystemType::Ext4);
    let expected = format!(
        "# /etc/fstab: static file system information.\n\
         # <file system>                           <mount point>  <type>  <options>                   <dump>  <pass>\n\
         UUID={:<36}  /boot/efi      vfat    umask=0077                  0       2\n\
         UUID={:<36}  /              ext4    defaults,noatime            0       1\n\
         tmpfs                                  /tmp           tmpfs   defaults,noatime,mode=1777  0       0\n",
        "EFI-UUID", "root-uuid"
    );
    assert_eq!(fstab, expected);
}

#[test]
fn btrfs_fstab_mounts_three_subvolumes() {
    let fstab = fstab_content("1234", "ABCD", FilesystemType::Btrfs);
    let lines: Vec<&str> = fstab.lines().collect();
    assert_eq!(lines.len(), 7);
    assert!(lines[3].contains("subvol=/@,compress=zstd:1,noatime,discard=async"));
    assert!(lines[4].starts_with("UUID=1234 "));
    assert!(lines[4].contains("/home          btrfs   subvol=/@home,"));
    assert!(lines[5].contains("/var/log       btrfs   subvol=/@log,"));
    assert_eq!(lines[2].find("/boot/efi"), Some(5 + 36 + 2));
}

#[test]
fn hostname_and_hosts_use_the_trimmed_name() {
    assert_eq!(hostname_file_content("  mitos \n"), "mitos\n");
    assert_eq!(
        hosts_file_content(" box "),
        "# /etc/hosts\n127.0.0.1       localhost\n::1             localhost\n127.0.1.1       box.localdomain box\n"
    );
}

#[test]
fn machine_id_strips_dashes_and_lowercases() {
    assert_eq!(
        machine_id(Some("3F2504E0-4F89-11D3-9A0C-0305E82C3301\n")),
        "3f2504e04f8911d39a0c0305e82c3301"
    );
    assert_eq!(machine_id(None), "00000000000000000000000000000000");
    assert_eq!(machine_id_file_content(None), "00000000000000000000000000000000\n");
}

#[test]
fn blkid_output_is_trimmed_or_refused() {
    assert_eq!(blkid_value(true, "  abcd-1234\n"), Ok("abcd-1234".to_string()));
    assert_eq!(blkid_value(true, " \n"), Err(BlkidError::Empty));
    assert_eq!(blkid_value(false, "abcd"), Err(BlkidError::CommandFailed));
}
