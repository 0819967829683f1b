//! Install-wide constants and the configuration the wizard collects.

use vstd::prelude::*;
use crate::text::{decimal, push_decimal, push_str};

verus! {

pub const BACKTITLE: &'static str = "Eclipse Linux";
pub const LOG_PATH: &'static str = "/tmp/eclipse-install.log";
pub const TARGET_MNT: &'static str = "/mnt/eclipse-target";
pub const DEFAULT_HOSTNAME: &'static str = "eclipse";
pub const EFI_LABEL: &'static str = "ECLIPSE_EFI";
pub const ROOT_LABEL: &'static str = "eclipse-root";
pub const GRUB_BIOS_MODULES: &'static str =
    "part_gpt part_msdos ext2 btrfs xfs fat normal configfile linux search echo test all_video";
pub const USER_GROUPS: &'static str = "wheel,audio,video,input,_seatd";
pub const USER_SHELL: &'static str = "/usr/bin/fish";
pub const SQUASHFS_CANDIDATES: [&'static str; 3] = ["/run/dynamod/live/squash", "/run/rootfsbase", "/"];

pub const RSYNC_EXCLUDES: [&'static str; 5] = ["/run/*", "/tmp/*", "/proc/*", "/sys/*", "/dev/*"];

pub const TIMEZONE_REGIONS: [&'static str; 11] = [
    "Africa",
    "America",
    "Antarctica",
    "Arctic",
    "Asia",
    "Atlantic",
    "Australia",
    "Europe",
    "Indian",
    "Pacific",
    "US",
];

/// Profile script that auto-starts the niri Wayland session on tty1.
pub const NIRI_AUTOSTART_PROFILE: &'static str = "# Auto-start Eclipse niri session on tty1 after login
if [ \"$(tty)\" = \"/dev/tty1\" ] && [ -z \"$WAYLAND_DISPLAY\" ]; then
    exec /usr/bin/eclipse-niri-session
fi
";

/// Busybox symlinks created inside the initramfs staging directory.
pub const BUSYBOX_SYMLINKS: [&'static str; 6] = ["sh", "mount", "umount", "losetup", "blkid", "switch_root"];

/// Shared library name prefixes copied into the initramfs for kmod.
pub const INITRAMFS_LIB_PATTERNS: [&'static str; 4] = ["libzstd", "liblzma", "libcrypto", "libz"];

/// Root filesystem type offered by the installer.
#[derive(Debug, Clone, Copy, PartialEq, Eq, Structural)]
pub enum FsType {
    Ext4,
    Btrfs,
    Xfs,
}

/// The name `mkfs`, `parted`, fstab and the kernel command line use.
pub open spec fn fs_name(fs: FsType) -> Seq<char> {
    match fs {
        FsType::Ext4 => "ext4"@,
        FsType::Btrfs => "btrfs"@,
        FsType::Xfs => "xfs"@,
    }
}

/// The label the filesystem list shows.
pub open spec fn fs_description(fs: FsType) -> Seq<char> {
    match fs {
        FsType::Ext4 => "ext4 (recommended, stable)"@,
        FsType::Btrfs => "Btrfs (snapshots, compression)"@,
        FsType::Xfs => "XFS (high performance)"@,
    }
}

/// The filesystems in the order the selection list shows them.
pub open spec fn fs_at(i: int) -> FsType {
    if i == 0 {
        FsType::Ext4
    } else if i == 1 {
        FsType::Btrfs
    } else {
        FsType::Xfs
    }
}

/// How many filesystems the selection list offers.
pub const FS_TYPE_COUNT: usize = 3;

impl FsType {
    pub fn as_str(&self) -> (r: &'static str)
        ensures
            r@ == fs_name(*self),
    {
        match self {
            FsType::Ext4 => "ext4",
            FsType::Btrfs => "btrfs",
            FsType::Xfs => "xfs",
        }
    }

    pub fn description(&self) -> (r: &'static str)
        ensures
            r@ == fs_description(*self),
    {
        match self {
            FsType::Ext4 => "ext4 (recommended, stable)",
            FsType::Btrfs => "Btrfs (snapshots, compression)",
            FsType::Xfs => "XFS (high performance)",
        }
    }

    /// The filesystem at position `i` of the selection list.
    pub fn at(i: usize) -> (r: FsType)
        requires
            i < FS_TYPE_COUNT,
        ensures
            r == fs_at(i as int),
    {
        if i == 0 {
            FsType::Ext4
        } else if i == 1 {
            FsType::Btrfs
        } else {
            FsType::Xfs
        }
    }
}

/// Information about a detected block device.
#[derive(Debug, Clone)]
pub struct DiskInfo {
    pub path: String,
    pub size_gb: u64,
    pub model: String,
}

/// `"<path> - <size>GB - <model>"`, the line that names a disk.
pub open spec fn disk_line(path: Seq<char>, size_gb: nat, model: Seq<char>) -> Seq<char> {
    path + " - "@ + decimal(size_gb) + "GB - "@ + model
}

impl DiskInfo {
    /// `"<path> - <size>GB - <model>"`, the line that names the disk.
    pub fn to_display_string(&self) -> (r: String)
        ensures
            r@ == disk_line(self.path@, self.size_gb as nat, self.model@),
    {
        let mut s = self.path.clone();
        push_str(&mut s, " - ");
        push_decimal(&mut s, self.size_gb);
        push_str(&mut s, "GB - ");
        push_str(&mut s, self.model.as_str());
        s
    }
}

/// All values collected by the wizard, passed to the installation.
#[derive(Debug, Clone)]
pub struct InstallConfig {
    pub disk: String,
    pub disk_info: String,
    pub uefi: bool,
    pub fs_type: FsType,
    pub hostname: String,
    pub root_password: Option<String>,
    pub username: String,
    pub user_password: Option<String>,
    pub timezone: String,
    pub squashfs_mount: String,
}

/// What a configuration holds, with texts as character sequences.
pub struct ConfigModel {
    pub disk: Seq<char>,
    pub disk_info: Seq<char>,
    pub uefi: bool,
    pub fs_type: FsType,
    pub hostname: Seq<char>,
    pub root_password: Option<Seq<char>>,
    pub username: Seq<char>,
    pub user_password: Option<Seq<char>>,
    pub timezone: Seq<char>,
    pub squashfs_mount: Seq<char>,
}

pub open spec fn opt_text(o: Option<String>) -> Option<Seq<char>> {
    match o {
        Some(s) => Some(s@),
        None => None,
    }
}

impl View for InstallConfig {
    type V = ConfigModel;

    open spec fn view(&self) -> ConfigModel {
        ConfigModel {
            disk: self.disk@,
            disk_info: self.disk_info@,
            uefi: self.uefi,
            fs_type: self.fs_type,
            hostname: self.hostname@,
            root_password: opt_text(self.root_password),
            username: self.username@,
            user_password: opt_text(self.user_password),
            timezone: self.timezone@,
            squashfs_mount: self.squashfs_mount@,
        }
    }
}

/// The device name ends in a digit, as `nvme0n1`, `mmcblk0`, `loop0`, `md0`
/// and `dm-0` do.
pub open spec fn ends_in_digit(disk: Seq<char>) -> bool {
    disk.len() > 0 && crate::text::is_ascii_digit(disk.last())
}

/// Device path of partition `num` of `disk`: a device whose name ends in a
/// digit puts a `p` before the number (`nvme0n1p2`, `mmcblk0p2`), others
/// do not (`sda2`, `vdb2`).
pub open spec fn partition_path_of(disk: Seq<char>, num: nat) -> Seq<char> {
    if ends_in_digit(disk) {
        disk + "p"@ + decimal(num)
    } else {
        disk + decimal(num)
    }
}

/// The EFI partition and the root partition of a disk are different devices,
/// so formatting one never touches the other.
pub proof fn lemma_partitions_distinct(disk: Seq<char>)
    ensures
        partition_path_of(disk, 1) != partition_path_of(disk, 2),
{
    let a = partition_path_of(disk, 1);
    let b = partition_path_of(disk, 2);
    assert(decimal(1) == seq!['1']);
    assert(decimal(2) == seq!['2']);
    assert(a.last() == '1');
    assert(b.last() == '2');
}

pub open spec fn boot_mode_name(uefi: bool) -> Seq<char> {
    if uefi { "UEFI"@ } else { "BIOS (Legacy)"@ }
}

fn is_digit_char(c: char) -> (b: bool)
    ensures
        b == crate::text::is_ascii_digit(c),
{
    '0' <= c && c <= '9'
}

impl InstallConfig {
    /// A fresh configuration; `uefi` says whether the firmware directory
    /// `/sys/firmware/efi` exists on the running system.
    pub fn new(squashfs_mount: String, uefi: bool) -> (c: Self)
        ensures
            c.disk@ == Seq::<char>::empty(),
            c.disk_info@ == Seq::<char>::empty(),
            c.uefi == uefi,
            c.fs_type == FsType::Ext4,
            c.hostname@ == DEFAULT_HOSTNAME@,
            c.root_password is None,
            c.username@ == Seq::<char>::empty(),
            c.user_password is None,
            c.timezone@ == "UTC"@,
            c.squashfs_mount == squashfs_mount,
    {
        InstallConfig {
            disk: String::new(),
            disk_info: String::new(),
            uefi,
            fs_type: FsType::Ext4,
            hostname: DEFAULT_HOSTNAME.to_owned(),
            root_password: None,
            username: String::new(),
            user_password: None,
            timezone: "UTC".to_owned(),
            squashfs_mount,
        }
    }

    /// Returns the partition device path for the given partition number.
    /// Devices whose name ends in a digit use `p1`, `p2`, etc. while sd/vd
    /// use `1`, `2`, etc.
    pub fn partition_path(&self, num: u8) -> (r: String)
        ensures
            r@ == partition_path_of(self.disk@, num as nat),
    {
        let mut s = self.disk.clone();
        let n = self.disk.as_str().unicode_len();
        if n > 0 && is_digit_char(self.disk.as_str().get_char(n - 1)) {
            push_str(&mut s, "p");
        }
        push_decimal(&mut s, num as u64);
        s
    }

    pub fn efi_partition(&self) -> (r: Option<String>)
        ensures
            self.uefi ==> r is Some && r->0@ == partition_path_of(self.disk@, 1),
            !self.uefi ==> r is None,
    {
        if self.uefi {
            Some(self.partition_path(1))
        } else {
            None
        }
    }

    pub fn root_partition(&self) -> (r: String)
        ensures
            r@ == partition_path_of(self.disk@, 2),
    {
        self.partition_path(2)
    }

    pub fn boot_mode_str(&self) -> (r: &'static str)
        ensures
            r@ == boot_mode_name(self.uefi),
    {
        if self.uefi {
            "UEFI"
        } else {
            "BIOS (Legacy)"
        }
    }
}

} // verus!
