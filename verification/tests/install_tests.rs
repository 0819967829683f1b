use eclipse_installer::config::{FsType, InstallConfig};
use eclipse_installer::install::{
    account_steps, after_stage, bind_mount_commands, cleanup_targets, copy_done_report, efi_mount_dir,
    emergency_targets, find_first_existing, find_squashfs_source, first_action, format_commands,
    grub_bios_command, grub_bios_live_command, grub_after_install, grub_install_command, grub_module_copies, grub_module_ops,
    GrubNext,
    normal_mod_path, grub_module_source_dirs, grub_modules_dest_dir, grub_uefi_command,
    is_grub_module_file, mount_commands, partition_commands, partprobe_command, rsync_args, running_log_message,
    squashfs_init_paths, stage_at, stage_report, Command, InstallAction, Progress, Stage, STAGE_COUNT,
};

fn config(disk: &str, uefi: bool, fs: FsType) -> InstallConfig {
    let mut c = InstallConfig::new("/run/rootfsbase".to_string(), uefi);
    c.disk = disk.to_string();
    c.fs_type = fs;
    c.username = "alice".to_string();
    c
}

fn words(ws: &[&str]) -> Vec<String> {
    ws.iter().map(|s| s.to_string()).collect()
}

fn is(cmd: &Command, program: &str, args: &[&str]) -> bool {
    cmd.program == program && cmd.args == words(args)
}

#[test]
fn partitioning_uefi() {
    let c = config("/dev/nvme0n1", true, FsType::Btrfs);
    let cmds = partition_commands(&c);
    assert_eq!(cmds.len(), 2);
    assert!(is(&cmds[0], "wipefs", &["-af", "/dev/nvme0n1"]));
    assert!(is(
        &cmds[1],
        "parted",
        &[
            "-s", "/dev/nvme0n1", "mklabel", "gpt", "mkpart", "ESP", "fat32", "1MiB", "513MiB", "set", "1", "esp",
            "on", "mkpart", "root", "btrfs", "513MiB", "100%",
        ]
    ));
    assert!(is(&partprobe_command(&c), "partprobe", &["/dev/nvme0n1"]));
}

#[test]
fn partitioning_bios() {
    let c = config("/dev/sda", false, FsType::Ext4);
    let cmds = partition_commands(&c);
    assert!(is(&cmds[0], "wipefs", &["-af", "/dev/sda"]));
    assert!(is(
        &cmds[1],
        "parted",
        &[
            "-s", "/dev/sda", "mklabel", "gpt", "mkpart", "bios", "1MiB", "3MiB", "set", "1", "bios_grub", "on",
            "mkpart", "root", "ext4", "3MiB", "100%",
        ]
    ));
}

#[test]
fn formatting_each_filesystem() {
    let c = config("/dev/sda", true, FsType::Ext4);
    let cmds = format_commands(&c);
    assert_eq!(cmds.len(), 2);
    assert!(is(&cmds[0], "mkfs.fat", &["-F", "32", "-n", "ECLIPSE_EFI", "/dev/sda1"]));
    assert!(is(&cmds[1], "mkfs.ext4", &["-q", "-L", "eclipse-root", "/dev/sda2"]));

    let b = format_commands(&config("/dev/vda", false, FsType::Btrfs));
    assert_eq!(b.len(), 1);
    assert!(is(&b[0], "mkfs.btrfs", &["-f", "-L", "eclipse-root", "/dev/vda2"]));

    let x = format_commands(&config("/dev/nvme1n1", false, FsType::Xfs));
    assert!(is(&x[0], "mkfs.xfs", &["-f", "-L", "eclipse-root", "/dev/nvme1n1p2"]));
}

#[test]
fn mounting() {
    let u = mount_commands(&config("/dev/sda", true, FsType::Ext4));
    assert_eq!(u.len(), 2);
    assert!(is(&u[0], "mount", &["/dev/sda2", "/mnt/eclipse-target"]));
    assert!(is(&u[1], "mount", &["/dev/sda1", "/mnt/eclipse-target/boot/efi"]));
    assert_eq!(efi_mount_dir(), "/mnt/eclipse-target/boot/efi");
    let b = mount_commands(&config("/dev/sda", false, FsType::Ext4));
    assert_eq!(b.len(), 1);
}

#[test]
fn copying() {
    let c = config("/dev/sda", true, FsType::Ext4);
    assert_eq!(
        rsync_args(&c),
        words(&[
            "-aHAXx",
            "--info=progress2",
            "--exclude=/run/*",
            "--exclude=/tmp/*",
            "--exclude=/proc/*",
            "--exclude=/sys/*",
            "--exclude=/dev/*",
            "/run/rootfsbase/",
            "/mnt/eclipse-target/",
        ])
    );
}

#[test]
fn bind_mounts() {
    let b = bind_mount_commands();
    assert_eq!(b.len(), 3);
    assert!(is(&b[0], "mount", &["--bind", "/proc", "/mnt/eclipse-target/proc"]));
    assert!(is(&b[1], "mount", &["--bind", "/dev", "/mnt/eclipse-target/dev"]));
    assert!(is(&b[2], "mount", &["--bind", "/sys", "/mnt/eclipse-target/sys"]));
}

#[test]
fn accounts_with_passwords() {
    let mut c = config("/dev/sda", true, FsType::Ext4);
    c.root_password = Some("toor".to_string());
    c.user_password = Some("s3cret".to_string());
    let steps = account_steps(&c);
    assert_eq!(steps.len(), 3);
    assert!(is(&steps[0].command, "chroot", &["/mnt/eclipse-target", "chpasswd"]));
    assert_eq!(steps[0].stdin.as_deref(), Some("root:toor\n"));
    assert!(is(
        &steps[1].command,
        "chroot",
        &["/mnt/eclipse-target", "useradd", "-m", "-G", "wheel,audio,video,input,_seatd", "-s", "/usr/bin/fish", "alice"]
    ));
    assert_eq!(steps[1].stdin, None);
    assert!(is(&steps[2].command, "chroot", &["/mnt/eclipse-target", "chpasswd"]));
    assert_eq!(steps[2].stdin.as_deref(), Some("alice:s3cret\n"));
}

#[test]
fn accounts_without_passwords() {
    let c = config("/dev/sda", true, FsType::Ext4);
    let steps = account_steps(&c);
    assert!(is(&steps[0].command, "chroot", &["/mnt/eclipse-target", "passwd", "-d", "root"]));
    assert_eq!(steps[0].stdin, None);
    assert!(is(&steps[2].command, "chroot", &["/mnt/eclipse-target", "passwd", "-d", "alice"]));
    assert_eq!(steps[2].stdin, None);
}

#[test]
fn grub_commands() {
    assert!(is(
        &grub_uefi_command(),
        "chroot",
        &[
            "/mnt/eclipse-target",
            "grub-install",
            "--target=x86_64-efi",
            "--efi-directory=/boot/efi",
            "--bootloader-id=eclipse",
            "--removable",
        ]
    ));
    let c = config("/dev/sda", false, FsType::Ext4);
    let mods = "--modules=part_gpt part_msdos ext2 btrfs xfs fat normal configfile linux search echo test all_video";
    assert!(is(
        &grub_bios_command(&c),
        "chroot",
        &["/mnt/eclipse-target", "grub-install", "--target=i386-pc", mods, "/dev/sda"]
    ));
    assert!(is(
        &grub_bios_live_command(&c),
        "grub-install",
        &["--target=i386-pc", "--boot-directory=/mnt/eclipse-target/boot", mods, "/dev/sda"]
    ));
}

#[test]
fn grub_module_fallback() {
    assert_eq!(grub_modules_dest_dir(), "/mnt/eclipse-target/boot/grub/i386-pc");
    assert_eq!(
        grub_module_source_dirs(),
        words(&[
            "/mnt/eclipse-target/usr/lib/grub/i386-pc",
            "/usr/lib/grub/i386-pc",
            "/mnt/eclipse-target/usr/share/grub/i386-pc",
            "/usr/share/grub/i386-pc",
        ])
    );
    assert!(is_grub_module_file("normal.mod"));
    assert!(is_grub_module_file("command.lst"));
    assert!(!is_grub_module_file("modinfo.sh"));
    assert!(!is_grub_module_file(".mo"));
}

#[test]
fn first_existing_candidate() {
    let c = words(&["/a", "/b", "/c"]);
    assert_eq!(find_first_existing(&c, &vec![false, true, true]), Some("/b".to_string()));
    assert_eq!(find_first_existing(&c, &vec![false, false, false]), None);
    assert_eq!(find_first_existing(&Vec::new(), &Vec::new()), None);
}

#[test]
fn squashfs_source_search() {
    assert_eq!(
        squashfs_init_paths(),
        words(&["/run/dynamod/live/squash/sbin/dynamod-init", "/run/rootfsbase/sbin/dynamod-init", "//sbin/dynamod-init"])
    );
    assert_eq!(
        find_squashfs_source(&vec![true, true, true], &vec![false, true, true]),
        Some("/run/rootfsbase".to_string())
    );
    assert_eq!(
        find_squashfs_source(&vec![false, false, true], &vec![true, true, true]),
        Some("/".to_string())
    );
    assert_eq!(find_squashfs_source(&vec![true, false, true], &vec![false, true, false]), None);
}

#[test]
fn unmounting() {
    assert_eq!(
        cleanup_targets(&config("/dev/sda", true, FsType::Ext4)),
        words(&[
            "/mnt/eclipse-target/proc",
            "/mnt/eclipse-target/dev",
            "/mnt/eclipse-target/sys",
            "/mnt/eclipse-target/boot/efi",
            "/mnt/eclipse-target",
        ])
    );
    assert_eq!(
        cleanup_targets(&config("/dev/sda", false, FsType::Ext4)),
        words(&["/mnt/eclipse-target/proc", "/mnt/eclipse-target/dev", "/mnt/eclipse-target/sys", "/mnt/eclipse-target"])
    );
    assert_eq!(emergency_targets(), cleanup_targets(&config("/dev/sda", true, FsType::Ext4)));
}

#[test]
fn running_messages() {
    let c = Command { program: "mkfs.ext4".to_string(), args: words(&["-q", "-L", "eclipse-root", "/dev/sda2"]) };
    assert_eq!(running_log_message(&c, false), "Running: mkfs.ext4 -q -L eclipse-root /dev/sda2");
    let s = Command { program: "chroot".to_string(), args: words(&["/mnt/eclipse-target", "chpasswd"]) };
    assert_eq!(running_log_message(&s, true), "Running (with stdin): chroot /mnt/eclipse-target chpasswd");
    let e = Command { program: "sync".to_string(), args: Vec::new() };
    assert_eq!(running_log_message(&e, false), "Running: sync ");
}

fn update(p: &Progress) -> Option<(u8, String)> {
    match p {
        Progress::Update { percent, message } => Some((*percent, message.clone())),
        _ => None,
    }
}

#[test]
fn stage_reports_in_order() {
    assert_eq!(STAGE_COUNT, 11);
    let expected: [(u8, &str); 11] = [
        (0, "Partitioning disk..."),
        (15, "Formatting partitions..."),
        (25, "Mounting target filesystem..."),
        (30, "Copying system files (this may take several minutes)..."),
        (70, "Generating fstab..."),
        (75, "Configuring system..."),
        (80, "Setting up user accounts..."),
        (85, "Installing GRUB bootloader..."),
        (90, "Writing bootloader configuration..."),
        (95, "Building initramfs..."),
        (100, "Cleaning up..."),
    ];
    let mut last = 0;
    for (i, (p, m)) in expected.iter().enumerate() {
        let (percent, message) = update(&stage_report(i)).unwrap();
        assert_eq!(percent, *p);
        assert_eq!(message, *m);
        assert!(percent >= last);
        last = percent;
    }
    assert_eq!(update(&copy_done_report()), Some((70, "File copy complete.".to_string())));
    assert_eq!(stage_at(0), Stage::Partition);
    assert_eq!(stage_at(3), Stage::CopyRootfs);
    assert_eq!(stage_at(10), Stage::Cleanup);
}

#[test]
fn stage_sequencing() {
    assert!(matches!(first_action(), InstallAction::Run(0)));
    assert!(matches!(after_stage(0, Ok(())), InstallAction::Run(1)));
    assert!(matches!(after_stage(9, Ok(())), InstallAction::Run(10)));
    assert!(matches!(after_stage(10, Ok(())), InstallAction::Complete));
    match after_stage(4, Err("mkfs.ext4 failed (exit 1): bad".to_string())) {
        InstallAction::Fail(m) => assert_eq!(m, "mkfs.ext4 failed (exit 1): bad"),
        other => panic!("unexpected {:?}", other),
    }
    // Running every stage successfully visits each stage once, in order, then completes.
    let mut visited = Vec::new();
    let mut a = first_action();
    loop {
        match a {
            InstallAction::Run(i) => {
                visited.push(i);
                a = after_stage(i, Ok(()));
            }
            InstallAction::Complete => break,
            InstallAction::Fail(_) => panic!("no stage failed"),
        }
    }
    assert_eq!(visited, (0..STAGE_COUNT).collect::<Vec<_>>());
}

#[test]
fn grub_bios_fallbacks() {
    let c = config("/dev/sda", false, FsType::Ext4);
    assert!(is(&grub_install_command(&c), "chroot", &[
        "/mnt/eclipse-target", "grub-install", "--target=i386-pc",
        "--modules=part_gpt part_msdos ext2 btrfs xfs fat normal configfile linux search echo test all_video",
        "/dev/sda",
    ]));
    assert!(matches!(grub_after_install(&c, Ok(())), GrubNext::Modules));
    let live = match grub_after_install(&c, Err("exit 1".to_string())) {
        GrubNext::Retry(live) => live,
        other => panic!("unexpected {:?}", other),
    };
    assert_eq!(live.program, "grub-install");
    assert_eq!(live.args[1], "--boot-directory=/mnt/eclipse-target/boot");
    let u = config("/dev/sda", true, FsType::Ext4);
    assert_eq!(grub_install_command(&u).args[2], "--target=x86_64-efi");
    assert!(matches!(grub_after_install(&u, Ok(())), GrubNext::Finish));
    match grub_after_install(&u, Err("grub-install failed (exit 1): no EFI".to_string())) {
        GrubNext::Fail(m) => assert_eq!(m, "grub-install failed (exit 1): no EFI"),
        other => panic!("unexpected {:?}", other),
    }
    assert_eq!(normal_mod_path("/usr/lib/grub/i386-pc"), "/usr/lib/grub/i386-pc/normal.mod");
    assert_eq!(eclipse_installer::install::grub_module_fallback(true, &vec![true, true, true, true]), None);
    assert_eq!(eclipse_installer::install::grub_module_fallback(false, &vec![false, true, true, false]), Some("/usr/lib/grub/i386-pc".to_string()));
    assert_eq!(eclipse_installer::install::grub_module_fallback(false, &vec![false, false, false, false]), None);
    let copies = grub_module_copies("/usr/lib/grub/i386-pc", &words(&["normal.mod", "modinfo.sh", "fs.lst"]));
    assert_eq!(
        copies,
        vec![
            ("/usr/lib/grub/i386-pc/normal.mod".to_string(), "/mnt/eclipse-target/boot/grub/i386-pc/normal.mod".to_string()),
            ("/usr/lib/grub/i386-pc/fs.lst".to_string(), "/mnt/eclipse-target/boot/grub/i386-pc/fs.lst".to_string()),
        ]
    );
}

#[test]
fn grub_module_operations() {
    let ops = grub_module_ops("/usr/lib/grub/i386-pc", &words(&["normal.mod", "x.sh"]));
    assert_eq!(ops.len(), 2);
    match &ops[0] {
        eclipse_installer::initramfs::FsOp::CreateDir { path, error_label } => {
            assert_eq!(path, "/mnt/eclipse-target/boot/grub/i386-pc");
            assert_eq!(error_label.as_deref(), Some("mkdir /mnt/eclipse-target/boot/grub/i386-pc"));
        }
        other => panic!("unexpected {:?}", other),
    }
    match &ops[1] {
        eclipse_installer::initramfs::FsOp::Copy { from, to, error_label } => {
            assert_eq!(from, "/usr/lib/grub/i386-pc/normal.mod");
            assert_eq!(to, "/mnt/eclipse-target/boot/grub/i386-pc/normal.mod");
            assert!(error_label.is_none());
        }
        other => panic!("unexpected {:?}", other),
    }
}
