use eclipse_installer::config::{DiskInfo, FsType, InstallConfig, DEFAULT_HOSTNAME, FS_TYPE_COUNT};

fn config_for(disk: &str, uefi: bool) -> InstallConfig {
    let mut c = InstallConfig::new("/run/rootfsbase".to_string(), uefi);
    c.disk = disk.to_string();
    c
}

#[test]
fn fs_type_names() {
    assert_eq!(FsType::Ext4.as_str(), "ext4");
    assert_eq!(FsType::Btrfs.as_str(), "btrfs");
    assert_eq!(FsType::Xfs.as_str(), "xfs");
}

#[test]
fn fs_type_descriptions() {
    assert_eq!(FsType::Ext4.description(), "ext4 (recommended, stable)");
    assert_eq!(FsType::Btrfs.description(), "Btrfs (snapshots, compression)");
    assert_eq!(FsType::Xfs.description(), "XFS (high performance)");
}

#[test]
fn fs_type_list_order() {
    assert_eq!(FS_TYPE_COUNT, 3);
    assert_eq!(FsType::at(0), FsType::Ext4);
    assert_eq!(FsType::at(1), FsType::Btrfs);
    assert_eq!(FsType::at(2), FsType::Xfs);
}

#[test]
fn new_config_defaults() {
    let c = InstallConfig::new("/run/dynamod/live/squash".to_string(), true);
    assert_eq!(c.disk, "");
    assert_eq!(c.disk_info, "");
    assert!(c.uefi);
    assert_eq!(c.fs_type, FsType::Ext4);
    assert_eq!(c.hostname, DEFAULT_HOSTNAME);
    assert_eq!(c.hostname, "eclipse");
    assert!(c.root_password.is_none());
    assert_eq!(c.username, "");
    assert!(c.user_password.is_none());
    assert_eq!(c.timezone, "UTC");
    assert_eq!(c.squashfs_mount, "/run/dynamod/live/squash");
    let bios = InstallConfig::new("/".to_string(), false);
    assert!(!bios.uefi);
}

#[test]
fn partition_path_plain_disk() {
    let c = config_for("/dev/sda", true);
    assert_eq!(c.partition_path(1), "/dev/sda1");
    assert_eq!(c.partition_path(2), "/dev/sda2");
    assert_eq!(c.partition_path(10), "/dev/sda10");
    let v = config_for("/dev/vdb", true);
    assert_eq!(v.partition_path(2), "/dev/vdb2");
}

#[test]
fn partition_path_nvme_disk() {
    let c = config_for("/dev/nvme0n1", true);
    assert_eq!(c.partition_path(1), "/dev/nvme0n1p1");
    assert_eq!(c.partition_path(2), "/dev/nvme0n1p2");
}

#[test]
fn partition_path_digit_suffixed_devices_get_p() {
    // Every device whose name ends in a digit gets the `p` separator.
    assert_eq!(config_for("/dev/mmcblk0", false).partition_path(1), "/dev/mmcblk0p1");
    assert_eq!(config_for("/dev/mmcblk0", false).partition_path(2), "/dev/mmcblk0p2");
    assert_eq!(config_for("/dev/loop0", false).partition_path(2), "/dev/loop0p2");
    assert_eq!(config_for("/dev/md0", false).partition_path(1), "/dev/md0p1");
    assert_eq!(config_for("/dev/dm-0", false).partition_path(1), "/dev/dm-0p1");
    assert_eq!(config_for("/dev/sdb", false).partition_path(1), "/dev/sdb1");
    assert_eq!(config_for("", false).partition_path(1), "1");
}

#[test]
fn efi_and_root_partitions_uefi() {
    let c = config_for("/dev/nvme0n1", true);
    assert_eq!(c.efi_partition(), Some("/dev/nvme0n1p1".to_string()));
    assert_eq!(c.root_partition(), "/dev/nvme0n1p2");
}

#[test]
fn efi_and_root_partitions_bios() {
    let c = config_for("/dev/sda", false);
    assert_eq!(c.efi_partition(), None);
    assert_eq!(c.root_partition(), "/dev/sda2");
}

#[test]
fn boot_mode_names() {
    assert_eq!(config_for("/dev/sda", true).boot_mode_str(), "UEFI");
    assert_eq!(config_for("/dev/sda", false).boot_mode_str(), "BIOS (Legacy)");
}

#[test]
fn disk_info_display_line() {
    let d = DiskInfo { path: "/dev/sda".to_string(), size_gb: 238, model: "Samsung SSD".to_string() };
    assert_eq!(d.to_display_string(), "/dev/sda - 238GB - Samsung SSD");
    let z = DiskInfo { path: "/dev/vda".to_string(), size_gb: 0, model: "Unknown".to_string() };
    assert_eq!(z.to_display_string(), "/dev/vda - 0GB - Unknown");
}

#[test]
fn efi_and_root_never_coincide() {
    for disk in ["/dev/sda", "/dev/nvme0n1", "", "/dev/vd1", "/dev/mmcblk0"] {
        let c = config_for(disk, true);
        assert_ne!(c.efi_partition().unwrap(), c.root_partition());
    }
}
