use eclipse_installer::initramfs::{
    busybox_candidate_paths, initramfs_path, initramfs_plan, kmod_candidate_paths, lib_dir_paths,
    libc_candidate_paths, modules_dir_path, staging_create_command, staging_remove_command, FsOp, InitramfsProbe,
};
use eclipse_installer::install::Command;

fn words(ws: &[&str]) -> Vec<String> {
    ws.iter().map(|s| s.to_string()).collect()
}

fn cmd_text(c: &Command) -> String {
    let mut s = c.program.clone();
    for a in &c.args {
        s.push('|');
        s.push_str(a);
    }
    s
}

fn label(l: &Option<String>) -> String {
    match l {
        Some(l) => format!(" !{}", l),
        None => String::new(),
    }
}

fn render(op: &FsOp) -> String {
    match op {
        FsOp::CreateDir { path, error_label } => format!("mkdir {}{}", path, label(error_label)),
        FsOp::Copy { from, to, error_label } => format!("copy {} {}{}", from, to, label(error_label)),
        FsOp::Symlink { target, link } => format!("ln {} {}", target, link),
        FsOp::Run { command, required } => format!("run {}{}", cmd_text(command), if *required { " !" } else { "" }),
        FsOp::Rename { from, to, error_label } => format!("mv {} {}{}", from, to, label(error_label)),
    }
}

const T: &str = "/mnt/eclipse-target";
const S: &str = "/tmp/tmp.XYZ";

fn skeleton() -> Vec<String> {
    let mut v: Vec<String> = ["sbin", "bin", "dev", "proc", "sys", "newroot", "etc", "lib"]
        .iter()
        .map(|d| format!("mkdir {}/{} !mkdir in staging", S, d))
        .collect();
    v.push(format!("copy {}/sbin/dynamod-init {}/sbin/dynamod-init !copy dynamod-init", T, S));
    v
}

fn archive(kver: &str) -> Vec<String> {
    vec![
        format!(
            "run sh|-c|cd '{}' && find . -print0 | cpio --null -o --format=newc > '{}/initramfs.cpio' 2>/dev/null !",
            S, S
        ),
        format!("run gzip|-9|-f|{}/initramfs.cpio !", S),
        format!(
            "mv {}/initramfs.cpio.gz {}/boot/initramfs-{}.gz !Failed to move initramfs to {}/boot/initramfs-{}.gz",
            S, T, kver, T, kver
        ),
    ]
}

#[test]
fn candidate_paths() {
    assert_eq!(busybox_candidate_paths(), words(&["/mnt/eclipse-target/usr/bin/busybox", "/mnt/eclipse-target/bin/busybox"]));
    assert_eq!(kmod_candidate_paths(), words(&["/mnt/eclipse-target/usr/bin/kmod", "/mnt/eclipse-target/bin/kmod"]));
    assert_eq!(
        libc_candidate_paths(),
        words(&[
            "/mnt/eclipse-target/usr/lib64/libc.so",
            "/mnt/eclipse-target/usr/lib/libc.so",
            "/mnt/eclipse-target/lib/libc.so",
        ])
    );
    assert_eq!(
        lib_dir_paths(),
        words(&["/mnt/eclipse-target/usr/lib", "/mnt/eclipse-target/lib", "/mnt/eclipse-target/usr/lib64"])
    );
    assert_eq!(modules_dir_path("6.6.8_1"), "/mnt/eclipse-target/lib/modules/6.6.8_1");
    assert_eq!(initramfs_path("6.6.8_1"), "/mnt/eclipse-target/boot/initramfs-6.6.8_1.gz");
}

#[test]
fn staging_commands() {
    let c = staging_create_command();
    assert_eq!(cmd_text(&c), "mktemp|-d");
    assert_eq!(cmd_text(&staging_remove_command(S)), "rm|-rf|/tmp/tmp.XYZ");
}

#[test]
fn plan_with_busybox_kmod_and_modules() {
    let probe = InitramfsProbe {
        busybox_found: vec![false, true],
        kmod_found: vec![true, true],
        libc_found: vec![false, true, true],
        lib_entries: vec![
            words(&["libz.so.1", "libzstd.so.1", "libc.so", "libcrypto.a"]),
            words(&["ld-musl-x86_64.so.1", "libz.so.1.3", "libgcc_s.so.1"]),
            Vec::new(),
        ],
        modules_dir: true,
    };
    let got: Vec<String> = initramfs_plan(S, "6.6.8", &probe).iter().map(render).collect();
    let mut want = skeleton();
    want.push(format!("copy {}/bin/busybox {}/bin/busybox !copy busybox", T, S));
    for l in ["sh", "mount", "umount", "losetup", "blkid", "switch_root"] {
        want.push(format!("ln busybox {}/bin/{}", S, l));
    }
    want.push(format!("copy {}/usr/bin/kmod {}/bin/kmod !copy kmod", T, S));
    want.push(format!("ln kmod {}/bin/modprobe", S));
    want.push(format!("ln ../bin/modprobe {}/sbin/modprobe", S));
    want.push(format!("mkdir {}/lib", S));
    want.push(format!("mkdir {}/usr/lib64", S));
    want.push(format!("mkdir {}/usr/lib", S));
    want.push(format!("run cp|-a|{}/lib/ld-musl-x86_64.so.1|{}/lib/ld-musl-x86_64.so.1", T, S));
    want.push(format!("mkdir {}/usr/lib", S));
    want.push(format!("copy {}/usr/lib/libc.so {}/usr/lib/libc.so", T, S));
    // libzstd
    want.push(format!("mkdir {}/usr/lib", S));
    want.push(format!("run cp|-a|{}/usr/lib/libzstd.so.1|{}/usr/lib/libzstd.so.1", T, S));
    // libz: both libz.so.1 and libzstd.so.1 start with "libz"
    want.push(format!("mkdir {}/usr/lib", S));
    want.push(format!("run cp|-a|{}/usr/lib/libz.so.1|{}/usr/lib/libz.so.1", T, S));
    want.push(format!("mkdir {}/usr/lib", S));
    want.push(format!("run cp|-a|{}/usr/lib/libzstd.so.1|{}/usr/lib/libzstd.so.1", T, S));
    want.push(format!("mkdir {}/lib", S));
    want.push(format!("run cp|-a|{}/lib/libz.so.1.3|{}/lib/libz.so.1.3", T, S));
    want.push(format!("mkdir {}/lib/modules !mkdir modules", S));
    want.push(format!("run cp|-a|{}/lib/modules/6.6.8|{}/lib/modules/6.6.8 !", T, S));
    want.extend(archive("6.6.8"));
    assert_eq!(got, want);
}

#[test]
fn plan_without_busybox_or_kmod() {
    let probe = InitramfsProbe {
        busybox_found: vec![false, false],
        kmod_found: vec![false, false],
        libc_found: vec![true, false, false],
        lib_entries: vec![words(&["libz.so"]), Vec::new(), Vec::new()],
        modules_dir: true,
    };
    let got: Vec<String> = initramfs_plan(S, "", &probe).iter().map(render).collect();
    let mut want = skeleton();
    want.push(format!("ln busybox {}/bin/modprobe", S));
    want.push(format!("ln ../bin/modprobe {}/sbin/modprobe", S));
    // No kernel version: no modules are copied.
    want.extend(archive(""));
    assert_eq!(got, want);
}

#[test]
fn plan_without_module_directory() {
    let probe = InitramfsProbe {
        busybox_found: vec![true, true],
        kmod_found: vec![false, true],
        libc_found: vec![false, false, false],
        lib_entries: vec![Vec::new(), Vec::new(), words(&["liblzma.so.5", "liblzma.a"])],
        modules_dir: false,
    };
    let got: Vec<String> = initramfs_plan(S, "6.1", &probe).iter().map(render).collect();
    let mut want = skeleton();
    want.push(format!("copy {}/usr/bin/busybox {}/bin/busybox !copy busybox", T, S));
    for l in ["sh", "mount", "umount", "losetup", "blkid", "switch_root"] {
        want.push(format!("ln busybox {}/bin/{}", S, l));
    }
    want.push(format!("copy {}/bin/kmod {}/bin/kmod !copy kmod", T, S));
    want.push(format!("ln kmod {}/bin/modprobe", S));
    want.push(format!("ln ../bin/modprobe {}/sbin/modprobe", S));
    want.push(format!("mkdir {}/lib", S));
    want.push(format!("mkdir {}/usr/lib64", S));
    want.push(format!("mkdir {}/usr/lib", S));
    want.push(format!("mkdir {}/usr/lib64", S));
    want.push(format!("run cp|-a|{}/usr/lib64/liblzma.so.5|{}/usr/lib64/liblzma.so.5", T, S));
    want.extend(archive("6.1"));
    assert_eq!(got, want);
}
