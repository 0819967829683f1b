use eclipse_installer::config::{FsType, InstallConfig};
use eclipse_installer::target_files::{
    command_failure_message, detect_kernel_version, fix_passwd, fstab_content, grub_cfg_content, grub_dir,
    hostname_content, hosts_content, join_with_newlines, parse_uuid, resolv_conf_content, split_lines,
    target_path, timezone_link_target,
};

fn config(fs: FsType) -> InstallConfig {
    let mut c = InstallConfig::new("/run/rootfsbase".to_string(), true);
    c.disk = "/dev/sda".to_string();
    c.fs_type = fs;
    c.hostname = "orion".to_string();
    c
}

fn words(ws: &[&str]) -> Vec<String> {
    ws.iter().map(|s| s.to_string()).collect()
}

#[test]
fn lines_like_std() {
    for s in ["a\nb", "a\nb\n", "a\r\nb\r\n", "", "\n", "\n\n", "x\r", "a\r\r\nb", "one"] {
        let expected: Vec<String> = s.lines().map(|l| l.to_string()).collect();
        assert_eq!(split_lines(s), expected, "{:?}", s);
    }
}

#[test]
fn joining_lines() {
    assert_eq!(join_with_newlines(&words(&["a", "b", "c"])), "a\nb\nc");
    assert_eq!(join_with_newlines(&words(&["a"])), "a");
    assert_eq!(join_with_newlines(&Vec::new()), "");
    assert_eq!(join_with_newlines(&words(&["", ""])), "\n");
}

#[test]
fn passwd_root_entry_gets_shadow_marker() {
    let before = "root::0:0:root:/root:/bin/sh\nbin:x:1:1:bin:/bin:/sbin/nologin\n";
    let after = "root:x:0:0:root:/root:/bin/sh\nbin:x:1:1:bin:/bin:/sbin/nologin\n";
    assert_eq!(fix_passwd(before), after);
    // Fixing twice is fixing once.
    assert_eq!(fix_passwd(after), after);
}

#[test]
fn passwd_other_entries_untouched() {
    let content = "daemon:*:2:2::/:/bin/false\nrootless:abc:9:9::/:/bin/sh";
    assert_eq!(fix_passwd(content), content);
    // A root line without a second field stays as it is.
    assert_eq!(fix_passwd("root:\n"), "root:\n");
    assert_eq!(fix_passwd("root:"), "root:");
    assert_eq!(fix_passwd("root:abc"), "root:abc");
    // The password field of root is replaced whatever it held.
    assert_eq!(fix_passwd("root:!:0:0::/root:/bin/sh"), "root:x:0:0::/root:/bin/sh");
    assert_eq!(fix_passwd(""), "");
}

#[test]
fn passwd_trailing_newline_kept() {
    assert_eq!(fix_passwd("root::0:0\n"), "root:x:0:0\n");
    assert_eq!(fix_passwd("root::0:0"), "root:x:0:0");
    // Blank lines at the end go away with `lines`, one line feed stays.
    assert_eq!(fix_passwd("a\n\n"), "a\n");
    assert_eq!(fix_passwd("a\r\nb\r\n"), "a\nb\n");
}

#[test]
fn paths_in_target() {
    assert_eq!(target_path("/etc/fstab"), "/mnt/eclipse-target/etc/fstab");
    assert_eq!(grub_dir(true), "/mnt/eclipse-target/boot/grub2");
    assert_eq!(grub_dir(false), "/mnt/eclipse-target/boot/grub");
}

#[test]
fn fstab_uefi_and_bios() {
    let c = config(FsType::Btrfs);
    assert_eq!(
        fstab_content(&c, "1111-root", Some("AB12-CD34")),
        "# Eclipse Linux fstab - generated by eclipse-install\n\
         UUID=1111-root    /         btrfs    defaults    0 1\n\
         UUID=AB12-CD34    /boot/efi vfat    defaults,umask=0077    0 2\n"
    );
    assert_eq!(
        fstab_content(&config(FsType::Ext4), "u", None),
        "# Eclipse Linux fstab - generated by eclipse-install\nUUID=u    /         ext4    defaults    0 1\n"
    );
}

#[test]
fn hostname_and_hosts() {
    let c = config(FsType::Ext4);
    assert_eq!(hostname_content(&c), "orion\n");
    assert_eq!(hosts_content(&c), "127.0.0.1   localhost\n::1         localhost\n127.0.1.1   orion\n");
    assert_eq!(resolv_conf_content(), "nameserver 8.8.8.8\n");
}

#[test]
fn timezone_link() {
    let mut c = config(FsType::Ext4);
    assert_eq!(timezone_link_target(&c), None);
    c.timezone = "Europe/Berlin".to_string();
    assert_eq!(timezone_link_target(&c), Some("/usr/share/zoneinfo/Europe/Berlin".to_string()));
}

#[test]
fn kernel_version_detection() {
    let names = words(&["grub", "config-6.6.8_1", "vmlinuz-6.6.8_1", "vmlinuz-6.1.0"]);
    assert_eq!(detect_kernel_version(&names, &vec![false, true, true, true]), Ok("6.6.8_1".to_string()));
    assert_eq!(detect_kernel_version(&names, &vec![false, true, false, true]), Ok("6.1.0".to_string()));
    assert_eq!(
        detect_kernel_version(&names, &vec![true, true, false, false]),
        Err("Could not detect kernel version (no vmlinuz-* in /boot)".to_string())
    );
    assert_eq!(
        detect_kernel_version(&Vec::new(), &Vec::new()),
        Err("Could not detect kernel version (no vmlinuz-* in /boot)".to_string())
    );
    assert_eq!(detect_kernel_version(&words(&["vmlinuz-"]), &vec![true]), Ok(String::new()));
}

#[test]
fn grub_configuration() {
    let cfg = grub_cfg_content(&config(FsType::Xfs), "6.6.8_1", "abcd-ef");
    let expected = r#"set timeout=5
set default=0

menuentry "Eclipse Linux" {
    linux /boot/vmlinuz-6.6.8_1 root=UUID=abcd-ef rootfstype=xfs rootwait rdinit=/sbin/dynamod-init init=/sbin/dynamod-init quiet
    initrd /boot/initramfs-6.6.8_1.gz
}

menuentry "Eclipse Linux (serial console)" {
    linux /boot/vmlinuz-6.6.8_1 root=UUID=abcd-ef rootfstype=xfs rootwait rdinit=/sbin/dynamod-init init=/sbin/dynamod-init console=ttyS0,115200
    initrd /boot/initramfs-6.6.8_1.gz
}

menuentry "Eclipse Linux (recovery)" {
    linux /boot/vmlinuz-6.6.8_1 root=UUID=abcd-ef rootfstype=xfs rootwait rdinit=/sbin/dynamod-init init=/sbin/dynamod-init single
    initrd /boot/initramfs-6.6.8_1.gz
}
"#;
    assert_eq!(cfg, expected);
    assert_eq!(cfg.matches("menuentry").count(), 3);
}

#[test]
fn uuid_from_blkid() {
    assert_eq!(parse_uuid("  5f3c-aa01\n", "/dev/sda2"), Ok("5f3c-aa01".to_string()));
    assert_eq!(parse_uuid("\n", "/dev/sda2"), Err("Could not determine UUID for /dev/sda2".to_string()));
    assert_eq!(parse_uuid("", "/dev/sda1"), Err("Could not determine UUID for /dev/sda1".to_string()));
}

#[test]
fn failure_messages() {
    assert_eq!(
        command_failure_message("parted", Some(1), "Error: unrecognised disk label\n"),
        "parted failed (exit 1): Error: unrecognised disk label"
    );
    assert_eq!(command_failure_message("mount", None, ""), "mount failed (exit -1): ");
    assert_eq!(command_failure_message("x", Some(-9), " a "), "x failed (exit -9): a");
}

#[test]
fn passwd_lines_preserved() {
    let content = "root:*:0:0:root:/root:/bin/sh\nnobody:x:99:99::/:/bin/false\nroot:abc\n";
    let fixed = fix_passwd(content);
    let before: Vec<&str> = content.lines().collect();
    let after: Vec<&str> = fixed.lines().collect();
    assert_eq!(before.len(), after.len());
    assert_eq!(after, vec!["root:x:0:0:root:/root:/bin/sh", "nobody:x:99:99::/:/bin/false", "root:abc"]);
    assert!(fixed.ends_with('\n'));
    assert_eq!(fix_passwd(&fixed), fixed);
}

#[test]
fn fstab_efi_line_only_for_uefi() {
    let mut c = config(FsType::Ext4);
    c.uefi = false;
    assert_eq!(
        fstab_content(&c, "r", Some("E")),
        "# Eclipse Linux fstab - generated by eclipse-install\nUUID=r    /         ext4    defaults    0 1\n"
    );
    c.uefi = true;
    assert!(fstab_content(&c, "r", Some("E")).ends_with("UUID=E    /boot/efi vfat    defaults,umask=0077    0 2\n"));
}
