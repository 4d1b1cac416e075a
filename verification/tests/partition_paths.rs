use mitos_installer::partition::get_partition_path;

#[test]
fn sata_disk_partitions_append_the_number() {
    assert_eq!(get_partition_path("/dev/sda", 1), "/dev/sda1");
    assert_eq!(get_partition_path("/dev/sda", 2), "/dev/sda2");
}

#[test]
fn nvme_disk_partitions_take_a_p() {
    assert_eq!(get_partition_path("/dev/nvme0n1", 1), "/dev/nvme0n1p1");
    assert_eq!(get_partition_path("/dev/mmcblk0", 2), "/dev/mmcblk0p2");
    assert_eq!(get_partition_path("/dev/loop0", 12), "/dev/loop0p12");
}
