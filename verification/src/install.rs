//! The installation: the order of its stages, the progress it reports, and
//! the commands and files each stage produces.

use vstd::prelude::*;
use crate::config::{
    EFI_LABEL, FsType, GRUB_BIOS_MODULES, InstallConfig, ROOT_LABEL, RSYNC_EXCLUDES,
    SQUASHFS_CANDIDATES, TARGET_MNT, USER_GROUPS, USER_SHELL, fs_name, partition_path_of,
};
use crate::sort::texts_view;
use crate::text::push_str;

verus! {

/// A report from the installation to the wizard.
#[derive(Debug)]
pub enum Progress {
    Update { percent: u8, message: String },
    Complete,
    Error(String),
}


/// An external program to run, with its arguments.
#[derive(Debug)]
pub struct Command {
    pub program: String,
    pub args: Vec<String>,
}

/// A command as its program and arguments, texts as character sequences.
pub open spec fn command_view(c: Command) -> (Seq<char>, Seq<Seq<char>>) {
    (c.program@, texts_view(c.args@))
}

pub open spec fn commands_view(cs: Seq<Command>) -> Seq<(Seq<char>, Seq<Seq<char>>)> {
    cs.map_values(|c: Command| command_view(c))
}

/// Words joined with single spaces.
pub open spec fn join_words(ws: Seq<Seq<char>>) -> Seq<char>
    decreases ws.len(),
{
    if ws.len() == 0 {
        seq![]
    } else if ws.len() == 1 {
        ws[0]
    } else {
        join_words(ws.drop_last()) + " "@ + ws.last()
    }
}

/// The log message written before a command runs: the program and its
/// arguments, each after a space, behind `Running: `, or behind
/// `Running (with stdin): ` for a command that is fed standard input.
pub open spec fn running_message(c: (Seq<char>, Seq<Seq<char>>), with_stdin: bool) -> Seq<char> {
    (if with_stdin { "Running (with stdin): "@ } else { "Running: "@ }) + c.0 + " "@ + join_words(c.1)
}

/// The log message written before `cmd` runs.
pub fn running_log_message(cmd: &Command, with_stdin: bool) -> (r: String)
    ensures
        r@ == running_message(command_view(*cmd), with_stdin),
{
    let mut out = if with_stdin { "Running (with stdin): ".to_owned() } else { "Running: ".to_owned() };
    push_str(&mut out, cmd.program.as_str());
    push_str(&mut out, " ");
    let ghost head = out@;
    let ghost ws = texts_view(cmd.args@);
    let mut i: usize = 0;
    while i < cmd.args.len()
        invariant
            i <= cmd.args@.len(),
            ws == texts_view(cmd.args@),
            out@ == head + join_words(ws.subrange(0, i as int)),
        decreases cmd.args@.len() - i,
    {
        let ghost prefix = ws.subrange(0, i + 1);
        assert(prefix.drop_last() =~= ws.subrange(0, i as int));
        if i > 0 {
            push_str(&mut out, " ");
        } else {
            assert(out@ =~= head);
        }
        push_str(&mut out, cmd.args[i].as_str());
        i = i + 1;
        assert(out@ =~= head + join_words(prefix));
    }
    assert(ws.subrange(0, cmd.args@.len() as int) =~= ws);
    out
}

fn push_arg(v: &mut Vec<String>, a: &str)
    ensures
        texts_view(final(v)@) == texts_view(old(v)@).push(a@),
{
    v.push(a.to_owned());
    assert(texts_view(final(v)@) =~= texts_view(old(v)@).push(a@));
}

fn push_owned_arg(v: &mut Vec<String>, a: String)
    ensures
        texts_view(final(v)@) == texts_view(old(v)@).push(a@),
{
    v.push(a);
    assert(texts_view(final(v)@) =~= texts_view(old(v)@).push(a@));
}

fn concat(a: &str, b: &str) -> (r: String)
    ensures
        r@ == a@ + b@,
{
    let mut s = a.to_owned();
    push_str(&mut s, b);
    s
}

/// Arguments of `parted` for the disk layout: GPT with a 512 MiB EFI system
/// partition for UEFI, or a 2 MiB BIOS boot partition otherwise, and the rest
/// for the root filesystem.
pub open spec fn parted_args(disk: Seq<char>, uefi: bool, fs: FsType) -> Seq<Seq<char>> {
    if uefi {
        seq!["-s"@, disk, "mklabel"@, "gpt"@, "mkpart"@, "ESP"@, "fat32"@, "1MiB"@, "513MiB"@, "set"@, "1"@,
            "esp"@, "on"@, "mkpart"@, "root"@, fs_name(fs), "513MiB"@, "100%"@]
    } else {
        seq!["-s"@, disk, "mklabel"@, "gpt"@, "mkpart"@, "bios"@, "1MiB"@, "3MiB"@, "set"@, "1"@,
            "bios_grub"@, "on"@, "mkpart"@, "root"@, fs_name(fs), "3MiB"@, "100%"@]
    }
}

/// Stage 1: wipe the disk's signatures, then write the partition table.
pub open spec fn partition_plan(c: crate::config::ConfigModel) -> Seq<(Seq<char>, Seq<Seq<char>>)> {
    seq![("wipefs"@, seq!["-af"@, c.disk]), ("parted"@, parted_args(c.disk, c.uefi, c.fs_type))]
}

/// The commands that partition the disk, in order; each must succeed.
pub fn partition_commands(config: &InstallConfig) -> (r: Vec<Command>)
    ensures
        commands_view(r@) == partition_plan(config@),
{
    let mut wipe: Vec<String> = Vec::new();
    push_arg(&mut wipe, "-af");
    push_arg(&mut wipe, config.disk.as_str());
    let fs = config.fs_type.as_str();
    let mut parted: Vec<String> = Vec::new();
    push_arg(&mut parted, "-s");
    push_arg(&mut parted, config.disk.as_str());
    push_arg(&mut parted, "mklabel");
    push_arg(&mut parted, "gpt");
    push_arg(&mut parted, "mkpart");
    if config.uefi {
        push_arg(&mut parted, "ESP");
        push_arg(&mut parted, "fat32");
        push_arg(&mut parted, "1MiB");
        push_arg(&mut parted, "513MiB");
        push_arg(&mut parted, "set");
        push_arg(&mut parted, "1");
        push_arg(&mut parted, "esp");
        push_arg(&mut parted, "on");
        push_arg(&mut parted, "mkpart");
        push_arg(&mut parted, "root");
        push_arg(&mut parted, fs);
        push_arg(&mut parted, "513MiB");
        push_arg(&mut parted, "100%");
    } else {
        push_arg(&mut parted, "bios");
        push_arg(&mut parted, "1MiB");
        push_arg(&mut parted, "3MiB");
        push_arg(&mut parted, "set");
        push_arg(&mut parted, "1");
        push_arg(&mut parted, "bios_grub");
        push_arg(&mut parted, "on");
        push_arg(&mut parted, "mkpart");
        push_arg(&mut parted, "root");
        push_arg(&mut parted, fs);
        push_arg(&mut parted, "3MiB");
        push_arg(&mut parted, "100%");
    }
    let mut r: Vec<Command> = Vec::new();
    r.push(Command { program: "wipefs".to_owned(), args: wipe });
    r.push(Command { program: "parted".to_owned(), args: parted });
    assert(texts_view(r@[0].args@) =~= seq!["-af"@, config@.disk]);
    assert(texts_view(r@[1].args@) =~= parted_args(config@.disk, config@.uefi, config@.fs_type));
    assert(command_view(r@[0]) == partition_plan(config@)[0]);
    assert(command_view(r@[1]) == partition_plan(config@)[1]);
    assert(commands_view(r@) =~= partition_plan(config@));
    r
}

/// After partitioning, `partprobe` rereads the table; its failure is ignored.
pub fn partprobe_command(config: &InstallConfig) -> (r: Command)
    ensures
        command_view(r) == ("partprobe"@, seq![config@.disk]),
{
    let mut args: Vec<String> = Vec::new();
    push_arg(&mut args, config.disk.as_str());
    assert(texts_view(args@) =~= seq![config@.disk]);
    Command { program: "partprobe".to_owned(), args }
}

/// The `mkfs` program and flags for a root filesystem type.
pub open spec fn mkfs_for(fs: FsType) -> (Seq<char>, Seq<char>) {
    match fs {
        FsType::Ext4 => ("mkfs.ext4"@, "-q"@),
        FsType::Btrfs => ("mkfs.btrfs"@, "-f"@),
        FsType::Xfs => ("mkfs.xfs"@, "-f"@),
    }
}

/// Stage 2: a FAT32 EFI partition labelled `ECLIPSE_EFI` for UEFI, then the
/// root filesystem labelled `eclipse-root`.
pub open spec fn format_plan(c: crate::config::ConfigModel) -> Seq<(Seq<char>, Seq<Seq<char>>)> {
    let root_cmd = (mkfs_for(c.fs_type).0, seq![mkfs_for(c.fs_type).1, "-L"@, ROOT_LABEL@, partition_path_of(c.disk, 2)]);
    if c.uefi {
        seq![("mkfs.fat"@, seq!["-F"@, "32"@, "-n"@, EFI_LABEL@, partition_path_of(c.disk, 1)]), root_cmd]
    } else {
        seq![root_cmd]
    }
}

/// The commands that make the filesystems, in order; each must succeed.
pub fn format_commands(config: &InstallConfig) -> (r: Vec<Command>)
    ensures
        commands_view(r@) == format_plan(config@),
{
    let mut r: Vec<Command> = Vec::new();
    if let Some(efi) = config.efi_partition() {
        let mut args: Vec<String> = Vec::new();
        push_arg(&mut args, "-F");
        push_arg(&mut args, "32");
        push_arg(&mut args, "-n");
        push_arg(&mut args, EFI_LABEL);
        push_owned_arg(&mut args, efi);
        assert(texts_view(args@) =~= seq!["-F"@, "32"@, "-n"@, EFI_LABEL@, partition_path_of(config@.disk, 1)]);
        r.push(Command { program: "mkfs.fat".to_owned(), args });
    }
    let root = config.root_partition();
    let (program, flag) = match config.fs_type {
        FsType::Ext4 => ("mkfs.ext4", "-q"),
        FsType::Btrfs => ("mkfs.btrfs", "-f"),
        FsType::Xfs => ("mkfs.xfs", "-f"),
    };
    let mut args: Vec<String> = Vec::new();
    push_arg(&mut args, flag);
    push_arg(&mut args, "-L");
    push_arg(&mut args, ROOT_LABEL);
    push_owned_arg(&mut args, root);
    assert(texts_view(args@) =~= seq![mkfs_for(config@.fs_type).1, "-L"@, ROOT_LABEL@, partition_path_of(config@.disk, 2)]);
    let ghost before = commands_view(r@);
    r.push(Command { program: program.to_owned(), args });
    assert(commands_view(r@) =~= before.push(command_view(r@.last())));
    assert(commands_view(r@) =~= format_plan(config@));
    r
}


/// Where the EFI partition is mounted in the target.
pub open spec fn efi_mount_point() -> Seq<char> {
    TARGET_MNT@ + "/boot/efi"@
}

/// Stage 3: mount the root partition on the target directory, then, for
/// UEFI, the EFI partition under it.
pub open spec fn mount_plan(c: crate::config::ConfigModel) -> Seq<(Seq<char>, Seq<Seq<char>>)> {
    let root = ("mount"@, seq![partition_path_of(c.disk, 2), TARGET_MNT@]);
    if c.uefi {
        seq![root, ("mount"@, seq![partition_path_of(c.disk, 1), efi_mount_point()])]
    } else {
        seq![root]
    }
}

/// The directory to create for the EFI mount.
pub fn efi_mount_dir() -> (r: String)
    ensures
        r@ == efi_mount_point(),
{
    concat(TARGET_MNT, "/boot/efi")
}

/// The mounts of stage 3, in order; the target directory (and, for UEFI,
/// the EFI mount directory) is created before its mount.
pub fn mount_commands(config: &InstallConfig) -> (r: Vec<Command>)
    ensures
        commands_view(r@) == mount_plan(config@),
{
    let mut args: Vec<String> = Vec::new();
    push_owned_arg(&mut args, config.root_partition());
    push_arg(&mut args, TARGET_MNT);
    let mut r: Vec<Command> = Vec::new();
    r.push(Command { program: "mount".to_owned(), args });
    assert(commands_view(r@)[0] == mount_plan(config@)[0]);
    if let Some(efi) = config.efi_partition() {
        let mut eargs: Vec<String> = Vec::new();
        push_owned_arg(&mut eargs, efi);
        push_owned_arg(&mut eargs, efi_mount_dir());
        r.push(Command { program: "mount".to_owned(), args: eargs });
        assert(commands_view(r@)[1] == mount_plan(config@)[1]);
    }
    assert(commands_view(r@) =~= mount_plan(config@));
    r
}

/// The `rsync` arguments of stage 4: archive mode keeping hard links, ACLs
/// and extended attributes on one filesystem, overall progress, the
/// pseudo-filesystem excludes, then source and target as directories.
pub open spec fn rsync_plan(squashfs_mount: Seq<char>) -> Seq<Seq<char>> {
    seq!["-aHAXx"@, "--info=progress2"@]
        + Seq::new(5, |i: int| "--exclude="@ + RSYNC_EXCLUDES@[i]@)
        + seq![squashfs_mount + "/"@, TARGET_MNT@ + "/"@]
}

pub fn rsync_args(config: &InstallConfig) -> (r: Vec<String>)
    ensures
        texts_view(r@) == rsync_plan(config@.squashfs_mount),
{
    let mut r: Vec<String> = Vec::new();
    push_arg(&mut r, "-aHAXx");
    push_arg(&mut r, "--info=progress2");
    let mut i: usize = 0;
    while i < 5
        invariant
            i <= 5,
            texts_view(r@) == seq!["-aHAXx"@, "--info=progress2"@] + Seq::new(i as nat, |j: int| "--exclude="@ + RSYNC_EXCLUDES@[j]@),
        decreases 5 - i,
    {
        push_owned_arg(&mut r, concat("--exclude=", RSYNC_EXCLUDES[i]));
        i = i + 1;
        assert(texts_view(r@) =~= seq!["-aHAXx"@, "--info=progress2"@] + Seq::new(i as nat, |j: int| "--exclude="@ + RSYNC_EXCLUDES@[j]@));
    }
    push_owned_arg(&mut r, concat(config.squashfs_mount.as_str(), "/"));
    push_owned_arg(&mut r, concat(TARGET_MNT, "/"));
    assert(texts_view(r@) =~= rsync_plan(config@.squashfs_mount));
    r
}


/// The error of a failed copy: `rsync failed: ` and its trimmed error output.
pub fn rsync_failure_message(stderr: &str) -> (r: String)
    ensures
        r@ == "rsync failed: "@ + crate::text::trim(stderr@),
{
    let mut s = "rsync failed: ".to_owned();
    let t = crate::text::trim_str(stderr);
    push_str(&mut s, t.as_str());
    s
}

/// The directories created in the target once the files are copied, the
/// mount points and scratch space the copy left out; `tmp` is then made
/// world-writable with the sticky bit.
pub open spec fn runtime_dir_plan() -> Seq<Seq<char>> {
    seq![
        TARGET_MNT@ + "/run"@,
        TARGET_MNT@ + "/tmp"@,
        TARGET_MNT@ + "/proc"@,
        TARGET_MNT@ + "/sys"@,
        TARGET_MNT@ + "/dev"@,
    ]
}

/// Every directory the copy leaves out is made again in the target: for each
/// `RSYNC_EXCLUDES` entry `<dir>/*`, the target's `<dir>`. Among them are
/// the mount points of the bind mounts of stage 7.
pub proof fn lemma_excluded_dirs_recreated()
    ensures
        forall|i: int| 0 <= i < 5 ==> runtime_dir_plan().contains(
            TARGET_MNT@ + (#[trigger] RSYNC_EXCLUDES@[i])@.subrange(0, RSYNC_EXCLUDES@[i]@.len() - 2),
        ),
        forall|i: int| 0 <= i < 3 ==> runtime_dir_plan().contains((#[trigger] bind_plan()[i]).1[2]),
{
    reveal_strlit("/run/*");
    reveal_strlit("/tmp/*");
    reveal_strlit("/proc/*");
    reveal_strlit("/sys/*");
    reveal_strlit("/dev/*");
    reveal_strlit("/run");
    reveal_strlit("/tmp");
    reveal_strlit("/proc");
    reveal_strlit("/sys");
    reveal_strlit("/dev");
    let d = runtime_dir_plan();
    assert(RSYNC_EXCLUDES@[0]@.subrange(0, 4) =~= "/run"@);
    assert(RSYNC_EXCLUDES@[1]@.subrange(0, 4) =~= "/tmp"@);
    assert(RSYNC_EXCLUDES@[2]@.subrange(0, 5) =~= "/proc"@);
    assert(RSYNC_EXCLUDES@[3]@.subrange(0, 4) =~= "/sys"@);
    assert(RSYNC_EXCLUDES@[4]@.subrange(0, 4) =~= "/dev"@);
    assert(d.contains(d[0]) && d.contains(d[1]) && d.contains(d[2]) && d.contains(d[3]) && d.contains(d[4]));
}

pub fn runtime_dirs() -> (r: Vec<String>)
    ensures
        texts_view(r@) == runtime_dir_plan(),
        forall|i: int| 0 <= i < 5 ==> texts_view(r@).contains(
            TARGET_MNT@ + (#[trigger] RSYNC_EXCLUDES@[i])@.subrange(0, RSYNC_EXCLUDES@[i]@.len() - 2),
        ),
{
    let mut r: Vec<String> = Vec::new();
    push_owned_arg(&mut r, concat(TARGET_MNT, "/run"));
    push_owned_arg(&mut r, concat(TARGET_MNT, "/tmp"));
    push_owned_arg(&mut r, concat(TARGET_MNT, "/proc"));
    push_owned_arg(&mut r, concat(TARGET_MNT, "/sys"));
    push_owned_arg(&mut r, concat(TARGET_MNT, "/dev"));
    assert(texts_view(r@) =~= runtime_dir_plan());
    proof {
        lemma_excluded_dirs_recreated();
    }
    r
}

/// The command that prints the UUID of a partition's filesystem.
pub fn uuid_command(partition: &str) -> (r: Command)
    ensures
        command_view(r) == ("blkid"@, seq!["-s"@, "UUID"@, "-o"@, "value"@, partition@]),
{
    let mut args: Vec<String> = Vec::new();
    push_arg(&mut args, "-s");
    push_arg(&mut args, "UUID");
    push_arg(&mut args, "-o");
    push_arg(&mut args, "value");
    push_arg(&mut args, partition);
    assert(texts_view(args@) =~= seq!["-s"@, "UUID"@, "-o"@, "value"@, partition@]);
    Command { program: "blkid".to_owned(), args }
}

/// A command run inside the target with `chroot`, with text for its
/// standard input when it reads one.
#[derive(Debug)]
pub struct ChrootStep {
    pub command: Command,
    pub stdin: Option<String>,
}

pub open spec fn chroot_view(s: ChrootStep) -> (Seq<char>, Seq<Seq<char>>, Option<Seq<char>>) {
    (s.command.program@, texts_view(s.command.args@), crate::config::opt_text(s.stdin))
}

/// `chroot <target> <program> <args...>`.
pub open spec fn chroot_cmd(program: Seq<char>, args: Seq<Seq<char>>) -> (Seq<char>, Seq<Seq<char>>) {
    ("chroot"@, seq![TARGET_MNT@, program] + args)
}

/// `chroot <target> <program> <args...>`: the form every command run inside
/// the target takes.
pub fn chroot_command(program: &str, args: Vec<String>) -> (r: Command)
    ensures
        command_view(r) == chroot_cmd(program@, texts_view(args@)),
{
    let mut all: Vec<String> = Vec::new();
    push_arg(&mut all, TARGET_MNT);
    push_arg(&mut all, program);
    let mut i: usize = 0;
    while i < args.len()
        invariant
            i <= args@.len(),
            texts_view(all@) == seq![TARGET_MNT@, program@] + texts_view(args@).subrange(0, i as int),
        decreases args@.len() - i,
    {
        push_arg(&mut all, args[i].as_str());
        i = i + 1;
        assert(texts_view(all@) =~= seq![TARGET_MNT@, program@] + texts_view(args@).subrange(0, i as int));
    }
    assert(texts_view(args@).subrange(0, args@.len() as int) =~= texts_view(args@));
    Command { program: "chroot".to_owned(), args: all }
}

/// The bind mounts of `/proc`, `/dev` and `/sys` into the target that stage 7
/// makes first; their failures are ignored.
pub open spec fn bind_plan() -> Seq<(Seq<char>, Seq<Seq<char>>)> {
    seq![
        ("mount"@, seq!["--bind"@, "/proc"@, TARGET_MNT@ + "/proc"@]),
        ("mount"@, seq!["--bind"@, "/dev"@, TARGET_MNT@ + "/dev"@]),
        ("mount"@, seq!["--bind"@, "/sys"@, TARGET_MNT@ + "/sys"@]),
    ]
}

fn bind_command(dir: &str) -> (r: Command)
    ensures
        command_view(r) == ("mount"@, seq!["--bind"@, "/"@ + dir@, TARGET_MNT@ + "/"@ + dir@]),
{
    let mut args: Vec<String> = Vec::new();
    push_arg(&mut args, "--bind");
    push_owned_arg(&mut args, concat("/", dir));
    let mut dst = concat(TARGET_MNT, "/");
    push_str(&mut dst, dir);
    push_owned_arg(&mut args, dst);
    assert(texts_view(args@) =~= seq!["--bind"@, "/"@ + dir@, TARGET_MNT@ + "/"@ + dir@]);
    Command { program: "mount".to_owned(), args }
}

pub fn bind_mount_commands() -> (r: Vec<Command>)
    ensures
        commands_view(r@) == bind_plan(),
{
    let mut r: Vec<Command> = Vec::new();
    r.push(bind_command("proc"));
    r.push(bind_command("dev"));
    r.push(bind_command("sys"));
    proof {
        reveal_strlit("/");
        reveal_strlit("proc");
        reveal_strlit("dev");
        reveal_strlit("sys");
        reveal_strlit("/proc");
        reveal_strlit("/dev");
        reveal_strlit("/sys");
        assert("/"@ + "proc"@ =~= "/proc"@);
        assert("/"@ + "dev"@ =~= "/dev"@);
        assert("/"@ + "sys"@ =~= "/sys"@);
        assert(TARGET_MNT@ + "/"@ + "proc"@ =~= TARGET_MNT@ + "/proc"@);
        assert(TARGET_MNT@ + "/"@ + "dev"@ =~= TARGET_MNT@ + "/dev"@);
        assert(TARGET_MNT@ + "/"@ + "sys"@ =~= TARGET_MNT@ + "/sys"@);
    }
    assert(commands_view(r@) =~= bind_plan());
    r
}

/// How a password is set for `user`: piped to `chpasswd` as `user:password`,
/// or, when there is none, deleted with `passwd -d user`.
pub open spec fn password_step(user: Seq<char>, password: Option<Seq<char>>) -> (Seq<char>, Seq<Seq<char>>, Option<Seq<char>>) {
    match password {
        Some(p) => {
            let c = chroot_cmd("chpasswd"@, seq![]);
            (c.0, c.1, Some(user + ":"@ + p + "\n"@))
        },
        None => {
            let c = chroot_cmd("passwd"@, seq!["-d"@, user]);
            (c.0, c.1, None)
        },
    }
}

/// Stage 7, after the bind mounts: the root password, the user account with
/// its groups and shell, then the user's password. Each must succeed.
pub open spec fn accounts_plan(c: crate::config::ConfigModel) -> Seq<(Seq<char>, Seq<Seq<char>>, Option<Seq<char>>)> {
    let add = chroot_cmd("useradd"@, seq!["-m"@, "-G"@, USER_GROUPS@, "-s"@, USER_SHELL@, c.username]);
    seq![password_step("root"@, c.root_password), (add.0, add.1, None), password_step(c.username, c.user_password)]
}

fn password_command(user: &str, password: &Option<String>) -> (r: ChrootStep)
    ensures
        chroot_view(r) == password_step(user@, crate::config::opt_text(*password)),
{
    match password {
        Some(p) => {
            let mut input = concat(user, ":");
            push_str(&mut input, p.as_str());
            push_str(&mut input, "\n");
            let none: Vec<String> = Vec::new();
            assert(texts_view(none@) =~= Seq::<Seq<char>>::empty());
            let c = chroot_command("chpasswd", none);
            ChrootStep { command: c, stdin: Some(input) }
        },
        None => {
            let mut args: Vec<String> = Vec::new();
            push_arg(&mut args, "-d");
            push_arg(&mut args, user);
            assert(texts_view(args@) =~= seq!["-d"@, user@]);
            ChrootStep { command: chroot_command("passwd", args), stdin: None }
        },
    }
}

pub fn account_steps(config: &InstallConfig) -> (r: Vec<ChrootStep>)
    ensures
        r@.map_values(|s: ChrootStep| chroot_view(s)) == accounts_plan(config@),
{
    let mut r: Vec<ChrootStep> = Vec::new();
    r.push(password_command("root", &config.root_password));
    let mut args: Vec<String> = Vec::new();
    push_arg(&mut args, "-m");
    push_arg(&mut args, "-G");
    push_arg(&mut args, USER_GROUPS);
    push_arg(&mut args, "-s");
    push_arg(&mut args, USER_SHELL);
    push_arg(&mut args, config.username.as_str());
    assert(texts_view(args@) =~= seq!["-m"@, "-G"@, USER_GROUPS@, "-s"@, USER_SHELL@, config@.username]);
    r.push(ChrootStep { command: chroot_command("useradd", args), stdin: None });
    r.push(password_command(config.username.as_str(), &config.user_password));
    assert(r@.map_values(|s: ChrootStep| chroot_view(s)) =~= accounts_plan(config@));
    r
}


/// Stage 8 for UEFI: `grub-install` in the target for x86_64 EFI, as a
/// removable-media loader on `/boot/efi`. It must succeed.
pub open spec fn grub_uefi_plan() -> (Seq<char>, Seq<Seq<char>>) {
    chroot_cmd(
        "grub-install"@,
        seq!["--target=x86_64-efi"@, "--efi-directory=/boot/efi"@, "--bootloader-id=eclipse"@, "--removable"@],
    )
}

pub fn grub_uefi_command() -> (r: Command)
    ensures
        command_view(r) == grub_uefi_plan(),
{
    let mut args: Vec<String> = Vec::new();
    push_arg(&mut args, "--target=x86_64-efi");
    push_arg(&mut args, "--efi-directory=/boot/efi");
    push_arg(&mut args, "--bootloader-id=eclipse");
    push_arg(&mut args, "--removable");
    assert(texts_view(args@) =~= seq!["--target=x86_64-efi"@, "--efi-directory=/boot/efi"@, "--bootloader-id=eclipse"@, "--removable"@]);
    chroot_command("grub-install", args)
}

pub open spec fn grub_modules_arg() -> Seq<char> {
    "--modules="@ + GRUB_BIOS_MODULES@
}

/// Stage 8 for BIOS: `grub-install` in the target for i386-pc onto the disk.
pub open spec fn grub_bios_plan(disk: Seq<char>) -> (Seq<char>, Seq<Seq<char>>) {
    chroot_cmd("grub-install"@, seq!["--target=i386-pc"@, grub_modules_arg(), disk])
}

/// When that fails, the live system's `grub-install` is tried on the
/// target's `/boot`; its failure is ignored.
pub open spec fn grub_bios_live_plan(disk: Seq<char>) -> (Seq<char>, Seq<Seq<char>>) {
    ("grub-install"@, seq!["--target=i386-pc"@, "--boot-directory="@ + TARGET_MNT@ + "/boot"@, grub_modules_arg(), disk])
}

pub fn grub_bios_command(config: &InstallConfig) -> (r: Command)
    ensures
        command_view(r) == grub_bios_plan(config@.disk),
{
    let mut args: Vec<String> = Vec::new();
    push_arg(&mut args, "--target=i386-pc");
    push_owned_arg(&mut args, concat("--modules=", GRUB_BIOS_MODULES));
    push_arg(&mut args, config.disk.as_str());
    assert(texts_view(args@) =~= seq!["--target=i386-pc"@, grub_modules_arg(), config@.disk]);
    chroot_command("grub-install", args)
}

pub fn grub_bios_live_command(config: &InstallConfig) -> (r: Command)
    ensures
        command_view(r) == grub_bios_live_plan(config@.disk),
{
    let mut args: Vec<String> = Vec::new();
    push_arg(&mut args, "--target=i386-pc");
    let mut boot = concat("--boot-directory=", TARGET_MNT);
    push_str(&mut boot, "/boot");
    push_owned_arg(&mut args, boot);
    push_owned_arg(&mut args, concat("--modules=", GRUB_BIOS_MODULES));
    push_arg(&mut args, config.disk.as_str());
    assert(texts_view(args@) =~= seq!["--target=i386-pc"@, "--boot-directory="@ + TARGET_MNT@ + "/boot"@, grub_modules_arg(), config@.disk]);
    Command { program: "grub-install".to_owned(), args }
}

/// Where the BIOS GRUB modules belong in the target.
pub open spec fn grub_modules_dest() -> Seq<char> {
    TARGET_MNT@ + "/boot/grub/i386-pc"@
}

pub fn grub_modules_dest_dir() -> (r: String)
    ensures
        r@ == grub_modules_dest(),
{
    concat(TARGET_MNT, "/boot/grub/i386-pc")
}

/// The directories searched, in order, for BIOS GRUB modules to copy when
/// `normal.mod` is missing from the target.
pub open spec fn grub_module_sources() -> Seq<Seq<char>> {
    seq![
        TARGET_MNT@ + "/usr/lib/grub/i386-pc"@,
        "/usr/lib/grub/i386-pc"@,
        TARGET_MNT@ + "/usr/share/grub/i386-pc"@,
        "/usr/share/grub/i386-pc"@,
    ]
}

pub fn grub_module_source_dirs() -> (r: Vec<String>)
    ensures
        texts_view(r@) == grub_module_sources(),
{
    let mut r: Vec<String> = Vec::new();
    push_owned_arg(&mut r, concat(TARGET_MNT, "/usr/lib/grub/i386-pc"));
    push_arg(&mut r, "/usr/lib/grub/i386-pc");
    push_owned_arg(&mut r, concat(TARGET_MNT, "/usr/share/grub/i386-pc"));
    push_arg(&mut r, "/usr/share/grub/i386-pc");
    assert(texts_view(r@) =~= grub_module_sources());
    r
}

/// A file copied with the GRUB modules: a `.mod` or `.lst` file.
pub open spec fn is_grub_module_name(name: Seq<char>) -> bool {
    crate::text::has_suffix(name, ".mod"@) || crate::text::has_suffix(name, ".lst"@)
}

pub fn is_grub_module_file(name: &str) -> (b: bool)
    ensures
        b == is_grub_module_name(name@),
{
    crate::text::ends_with(name, ".mod") || crate::text::ends_with(name, ".lst")
}

/// The `grub-install` that stage 8 runs first: the EFI loader for UEFI, the
/// i386-pc loader onto the disk otherwise, both inside the target.
pub open spec fn grub_install_plan(c: crate::config::ConfigModel) -> (Seq<char>, Seq<Seq<char>>) {
    if c.uefi { grub_uefi_plan() } else { grub_bios_plan(c.disk) }
}

pub fn grub_install_command(config: &InstallConfig) -> (r: Command)
    ensures
        command_view(r) == grub_install_plan(config@),
{
    if config.uefi {
        grub_uefi_command()
    } else {
        grub_bios_command(config)
    }
}

/// What stage 8 does once its first `grub-install` has run.
#[derive(Debug)]
pub enum GrubNext {
    /// The stage fails with this message.
    Fail(String),
    /// The stage has succeeded.
    Finish,
    /// Run this command; whatever its outcome, the modules are checked next.
    Retry(Command),
    /// Check the BIOS GRUB modules: `grub_module_fallback`, then
    /// `grub_module_ops`; only a failure to create the module directory
    /// fails the stage.
    Modules,
}

/// After the first `grub-install`: for UEFI its failure fails the stage and
/// its success ends it; for BIOS a failure is retried from the live system
/// and a success goes on to the modules, so no `grub-install` failure fails
/// a BIOS install.
pub fn grub_after_install(config: &InstallConfig, outcome: Result<(), String>) -> (r: GrubNext)
    ensures
        config.uefi ==> match outcome {
            Err(e) => r matches GrubNext::Fail(m) && m@ == e@,
            Ok(()) => r is Finish,
        },
        !config.uefi ==> match outcome {
            Err(_) => r matches GrubNext::Retry(c) && command_view(c) == grub_bios_live_plan(config@.disk),
            Ok(()) => r is Modules,
        },
{
    match outcome {
        Err(e) => if config.uefi { GrubNext::Fail(e) } else { GrubNext::Retry(grub_bios_live_command(config)) },
        Ok(()) => if config.uefi { GrubNext::Finish } else { GrubNext::Modules },
    }
}

/// The file whose presence shows that a directory holds the BIOS GRUB modules.
pub fn normal_mod_path(dir: &str) -> (r: String)
    ensures
        r@ == dir@ + "/normal.mod"@,
{
    concat(dir, "/normal.mod")
}

/// Where the BIOS GRUB modules are copied from: nowhere when the target
/// already has `normal.mod`, otherwise the first of `grub_module_sources()`
/// that holds it, if any. `source_has_normal[i]` says whether source `i` does.
pub fn grub_module_fallback(dest_has_normal: bool, source_has_normal: &Vec<bool>) -> (r: Option<String>)
    requires
        source_has_normal@.len() == 4,
    ensures
        crate::config::opt_text(r) == (if dest_has_normal {
            None
        } else {
            first_existing(grub_module_sources(), source_has_normal@)
        }),
{
    if dest_has_normal {
        None
    } else {
        let dirs = grub_module_source_dirs();
        find_first_existing(&dirs, source_has_normal)
    }
}

/// The module files to copy from directory `dir`, as source and destination:
/// the `.mod` and `.lst` entries of `names`, in order, into
/// `grub_modules_dest()`.
pub open spec fn grub_module_copy_plan(dir: Seq<char>, names: Seq<Seq<char>>) -> Seq<(Seq<char>, Seq<char>)>
    decreases names.len(),
{
    if names.len() == 0 {
        seq![]
    } else {
        let rest = grub_module_copy_plan(dir, names.drop_last());
        let n = names.last();
        if is_grub_module_name(n) {
            rest.push((dir + "/"@ + n, grub_modules_dest() + "/"@ + n))
        } else {
            rest
        }
    }
}

pub fn grub_module_copies(dir: &str, names: &Vec<String>) -> (r: Vec<(String, String)>)
    ensures
        r@.map_values(|p: (String, String)| (p.0@, p.1@)) == grub_module_copy_plan(dir@, texts_view(names@)),
{
    let ghost ns = texts_view(names@);
    let dest = grub_modules_dest_dir();
    let mut r: Vec<(String, String)> = Vec::new();
    let mut i: usize = 0;
    while i < names.len()
        invariant
            i <= names@.len(),
            ns == texts_view(names@),
            dest@ == grub_modules_dest(),
            r@.map_values(|p: (String, String)| (p.0@, p.1@)) == grub_module_copy_plan(dir@, ns.subrange(0, i as int)),
        decreases names@.len() - i,
    {
        let ghost prefix = ns.subrange(0, i + 1);
        assert(prefix.drop_last() =~= ns.subrange(0, i as int));
        assert(prefix.last() == names@[i as int]@);
        let ghost before = r@.map_values(|p: (String, String)| (p.0@, p.1@));
        let name = names[i].as_str();
        if is_grub_module_file(name) {
            let mut from = concat(dir, "/");
            push_str(&mut from, name);
            let mut to = concat(dest.as_str(), "/");
            push_str(&mut to, name);
            let ghost pv = (from@, to@);
            r.push((from, to));
            assert(r@.map_values(|p: (String, String)| (p.0@, p.1@)) =~= before.push(pv));
        }
        i = i + 1;
    }
    assert(ns.subrange(0, names@.len() as int) =~= ns);
    r
}

/// The operations that copy the BIOS GRUB modules from `dir`: the module
/// directory is created, its failure failing the stage with
/// `mkdir <directory>: <error>`, then each module file is copied, failures
/// ignored.
pub open spec fn grub_module_op_plan(dir: Seq<char>, names: Seq<Seq<char>>) -> Seq<crate::initramfs::OpModel> {
    seq![crate::initramfs::OpModel::CreateDir(grub_modules_dest(), Some("mkdir "@ + grub_modules_dest()))]
        + grub_module_copy_plan(dir, names).map_values(
        |p: (Seq<char>, Seq<char>)| crate::initramfs::OpModel::Copy(p.0, p.1, None),
    )
}

pub fn grub_module_ops(dir: &str, names: &Vec<String>) -> (r: Vec<crate::initramfs::FsOp>)
    ensures
        crate::initramfs::ops_view(r@) == grub_module_op_plan(dir@, texts_view(names@)),
{
    let dest = grub_modules_dest_dir();
    let label = concat("mkdir ", dest.as_str());
    let copies = grub_module_copies(dir, names);
    let ghost cv = copies@.map_values(|p: (String, String)| (p.0@, p.1@));
    let mut r: Vec<crate::initramfs::FsOp> = Vec::new();
    r.push(crate::initramfs::FsOp::CreateDir { path: dest, error_label: Some(label) });
    let ghost head = crate::initramfs::ops_view(r@);
    assert(head =~= seq![crate::initramfs::OpModel::CreateDir(grub_modules_dest(), Some("mkdir "@ + grub_modules_dest()))]);
    let mut i: usize = 0;
    while i < copies.len()
        invariant
            i <= copies@.len(),
            cv == copies@.map_values(|p: (String, String)| (p.0@, p.1@)),
            crate::initramfs::ops_view(r@) == head + cv.subrange(0, i as int).map_values(
                |p: (Seq<char>, Seq<char>)| crate::initramfs::OpModel::Copy(p.0, p.1, None),
            ),
        decreases copies@.len() - i,
    {
        let ghost before = crate::initramfs::ops_view(r@);
        let from = copies[i].0.clone();
        let to = copies[i].1.clone();
        let op = crate::initramfs::FsOp::Copy { from, to, error_label: None };
        let ghost ov = crate::initramfs::op_view(op);
        assert(ov == crate::initramfs::OpModel::Copy(cv[i as int].0, cv[i as int].1, None));
        r.push(op);
        assert(crate::initramfs::ops_view(r@) =~= before.push(ov));
        i = i + 1;
        assert(crate::initramfs::ops_view(r@) =~= head + cv.subrange(0, i as int).map_values(
            |p: (Seq<char>, Seq<char>)| crate::initramfs::OpModel::Copy(p.0, p.1, None),
        ));
    }
    assert(cv.subrange(0, copies@.len() as int) =~= cv);
    r
}

/// The first candidate that exists: `exists[i]` says whether `candidates[i]` does.
pub open spec fn first_existing(candidates: Seq<Seq<char>>, exists: Seq<bool>) -> Option<Seq<char>>
    decreases candidates.len(),
{
    if candidates.len() == 0 || exists.len() == 0 {
        None
    } else if exists[0] {
        Some(candidates[0])
    } else {
        first_existing(candidates.drop_first(), exists.drop_first())
    }
}

/// The first of the candidate paths that is a regular file.
pub fn find_first_existing(candidates: &Vec<String>, is_file: &Vec<bool>) -> (r: Option<String>)
    requires
        candidates@.len() == is_file@.len(),
    ensures
        crate::config::opt_text(r) == first_existing(texts_view(candidates@), is_file@),
{
    let mut i: usize = 0;
    assert(texts_view(candidates@).skip(0) =~= texts_view(candidates@));
    assert(is_file@.skip(0) =~= is_file@);
    while i < candidates.len()
        invariant
            i <= candidates@.len(),
            candidates@.len() == is_file@.len(),
            first_existing(texts_view(candidates@), is_file@) == first_existing(
                texts_view(candidates@).skip(i as int),
                is_file@.skip(i as int),
            ),
        decreases candidates@.len() - i,
    {
        assert(texts_view(candidates@).skip(i as int).drop_first() =~= texts_view(candidates@).skip(i + 1));
        assert(is_file@.skip(i as int).drop_first() =~= is_file@.skip(i + 1));
        if is_file[i] {
            return Some(candidates[i].clone());
        }
        i = i + 1;
    }
    None
}


/// The places where the live system's root filesystem may be mounted, in
/// the order they are tried.
pub open spec fn squashfs_candidates() -> Seq<Seq<char>> {
    Seq::new(3, |i: int| SQUASHFS_CANDIDATES@[i]@)
}

/// The init program whose presence marks a candidate as the live root.
pub open spec fn squashfs_init_of(candidate: Seq<char>) -> Seq<char> {
    candidate + "/sbin/dynamod-init"@
}

/// Which candidates are usable: a directory that holds the init program.
pub open spec fn usable_sources(is_dir: Seq<bool>, has_init: Seq<bool>) -> Seq<bool> {
    Seq::new(is_dir.len(), |i: int| is_dir[i] && has_init[i])
}

/// The init program's path in each candidate, in the order of the candidates.
pub fn squashfs_init_paths() -> (r: Vec<String>)
    ensures
        texts_view(r@) == Seq::new(3, |i: int| squashfs_init_of(squashfs_candidates()[i])),
{
    let mut r: Vec<String> = Vec::new();
    let mut i: usize = 0;
    while i < 3
        invariant
            i <= 3,
            texts_view(r@) == Seq::new(i as nat, |j: int| squashfs_init_of(squashfs_candidates()[j])),
        decreases 3 - i,
    {
        assert(squashfs_candidates()[i as int] == SQUASHFS_CANDIDATES@[i as int]@);
        push_owned_arg(&mut r, concat(SQUASHFS_CANDIDATES[i], "/sbin/dynamod-init"));
        i = i + 1;
        assert(texts_view(r@) =~= Seq::new(i as nat, |j: int| squashfs_init_of(squashfs_candidates()[j])));
    }
    r
}

/// The root filesystem to install from: the first candidate that is a
/// directory holding the init program. `is_dir[i]` and `has_init[i]` say
/// what was found for candidate `i`.
pub fn find_squashfs_source(is_dir: &Vec<bool>, has_init: &Vec<bool>) -> (r: Option<String>)
    requires
        is_dir@.len() == 3,
        has_init@.len() == 3,
    ensures
        crate::config::opt_text(r) == first_existing(squashfs_candidates(), usable_sources(is_dir@, has_init@)),
{
    let mut candidates: Vec<String> = Vec::new();
    let mut usable: Vec<bool> = Vec::new();
    let mut i: usize = 0;
    while i < 3
        invariant
            i <= 3,
            is_dir@.len() == 3,
            has_init@.len() == 3,
            texts_view(candidates@) == squashfs_candidates().subrange(0, i as int),
            usable@ == usable_sources(is_dir@, has_init@).subrange(0, i as int),
        decreases 3 - i,
    {
        assert(squashfs_candidates()[i as int] == SQUASHFS_CANDIDATES@[i as int]@);
        push_arg(&mut candidates, SQUASHFS_CANDIDATES[i]);
        usable.push(is_dir[i] && has_init[i]);
        i = i + 1;
        assert(texts_view(candidates@) =~= squashfs_candidates().subrange(0, i as int));
        assert(usable@ =~= usable_sources(is_dir@, has_init@).subrange(0, i as int));
    }
    assert(texts_view(candidates@) =~= squashfs_candidates());
    assert(usable@ =~= usable_sources(is_dir@, has_init@));
    find_first_existing(&candidates, &usable)
}

/// The mount points unmounted after a finished installation, in order: the
/// bind mounts, the EFI partition on a UEFI install, then the target root.
pub open spec fn cleanup_plan(uefi: bool) -> Seq<Seq<char>> {
    seq![TARGET_MNT@ + "/proc"@, TARGET_MNT@ + "/dev"@, TARGET_MNT@ + "/sys"@]
        + (if uefi { seq![efi_mount_point()] } else { seq![] })
        + seq![TARGET_MNT@]
}

/// The mount points unmounted when the installer is interrupted: all of them,
/// whatever was mounted.
pub open spec fn emergency_plan() -> Seq<Seq<char>> {
    seq![
        TARGET_MNT@ + "/proc"@,
        TARGET_MNT@ + "/dev"@,
        TARGET_MNT@ + "/sys"@,
        TARGET_MNT@ + "/boot/efi"@,
        TARGET_MNT@,
    ]
}

/// The mount points to unmount after the installation, in order.
pub fn cleanup_targets(config: &InstallConfig) -> (r: Vec<String>)
    ensures
        texts_view(r@) == cleanup_plan(config@.uefi),
{
    let mut r: Vec<String> = Vec::new();
    r.push(concat(TARGET_MNT, "/proc"));
    r.push(concat(TARGET_MNT, "/dev"));
    r.push(concat(TARGET_MNT, "/sys"));
    if config.uefi {
        r.push(efi_mount_dir());
    }
    r.push(TARGET_MNT.to_owned());
    assert(texts_view(r@) =~= cleanup_plan(config@.uefi));
    r
}

/// The mount points to unmount when the installer is interrupted, in order.
pub fn emergency_targets() -> (r: Vec<String>)
    ensures
        texts_view(r@) == emergency_plan(),
{
    let mut r: Vec<String> = Vec::new();
    r.push(concat(TARGET_MNT, "/proc"));
    r.push(concat(TARGET_MNT, "/dev"));
    r.push(concat(TARGET_MNT, "/sys"));
    r.push(concat(TARGET_MNT, "/boot/efi"));
    r.push(TARGET_MNT.to_owned());
    assert(texts_view(r@) =~= emergency_plan());
    r
}

/// The stages of an installation, in the order they run.
#[derive(Debug, Clone, Copy, PartialEq, Eq, Structural)]
pub enum Stage {
    Partition,
    Format,
    Mount,
    CopyRootfs,
    Fstab,
    Configure,
    Accounts,
    Grub,
    GrubConfig,
    Initramfs,
    Cleanup,
}

/// Number of stages.
pub const STAGE_COUNT: usize = 11;

pub const INSTALL_STAGES: [Stage; 11] = [
    Stage::Partition,
    Stage::Format,
    Stage::Mount,
    Stage::CopyRootfs,
    Stage::Fstab,
    Stage::Configure,
    Stage::Accounts,
    Stage::Grub,
    Stage::GrubConfig,
    Stage::Initramfs,
    Stage::Cleanup,
];

/// The gauge position reported when stage `i` starts.
pub open spec fn stage_percent(i: int) -> nat {
    if i == 0 { 0 } else if i == 1 { 15 } else if i == 2 { 25 } else if i == 3 { 30 } else if i == 4 { 70 }
    else if i == 5 { 75 } else if i == 6 { 80 } else if i == 7 { 85 } else if i == 8 { 90 } else if i == 9 { 95 }
    else { 100 }
}

/// The status line reported when stage `i` starts.
pub open spec fn stage_message(i: int) -> Seq<char> {
    if i == 0 { "Partitioning disk..."@ }
    else if i == 1 { "Formatting partitions..."@ }
    else if i == 2 { "Mounting target filesystem..."@ }
    else if i == 3 { "Copying system files (this may take several minutes)..."@ }
    else if i == 4 { "Generating fstab..."@ }
    else if i == 5 { "Configuring system..."@ }
    else if i == 6 { "Setting up user accounts..."@ }
    else if i == 7 { "Installing GRUB bootloader..."@ }
    else if i == 8 { "Writing bootloader configuration..."@ }
    else if i == 9 { "Building initramfs..."@ }
    else { "Cleaning up..."@ }
}

/// The name stage `i` has in the log.
pub open spec fn stage_title(i: int) -> Seq<char> {
    if i == 0 { "Partitioning disk"@ }
    else if i == 1 { "Formatting partitions"@ }
    else if i == 2 { "Mounting target"@ }
    else if i == 3 { "Copying rootfs"@ }
    else if i == 4 { "Generating fstab"@ }
    else if i == 5 { "Configuring system"@ }
    else if i == 6 { "Setting up accounts"@ }
    else if i == 7 { "Installing GRUB"@ }
    else if i == 8 { "Writing grub.cfg"@ }
    else if i == 9 { "Building initramfs"@ }
    else { "Cleanup"@ }
}

/// The log line written when stage `i` starts: `=== Stage <n>: <name> ===`,
/// stages counted from one.
pub fn stage_start_log(i: usize) -> (r: String)
    requires
        i < STAGE_COUNT,
    ensures
        r@ == "=== Stage "@ + crate::text::decimal((i + 1) as nat) + ": "@ + stage_title(i as int) + " ==="@,
{
    let title: &str = if i == 0 { "Partitioning disk" }
    else if i == 1 { "Formatting partitions" }
    else if i == 2 { "Mounting target" }
    else if i == 3 { "Copying rootfs" }
    else if i == 4 { "Generating fstab" }
    else if i == 5 { "Configuring system" }
    else if i == 6 { "Setting up accounts" }
    else if i == 7 { "Installing GRUB" }
    else if i == 8 { "Writing grub.cfg" }
    else if i == 9 { "Building initramfs" }
    else { "Cleanup" };
    let mut s = "=== Stage ".to_owned();
    crate::text::push_decimal(&mut s, (i + 1) as u64);
    push_str(&mut s, ": ");
    push_str(&mut s, title);
    push_str(&mut s, " ===");
    s
}

/// The log line written when stage `i` has succeeded.
pub fn stage_done_log(i: usize) -> (r: String)
    requires
        i < STAGE_COUNT,
    ensures
        r@ == "=== Stage "@ + crate::text::decimal((i + 1) as nat) + " complete ==="@,
{
    let mut s = "=== Stage ".to_owned();
    crate::text::push_decimal(&mut s, (i + 1) as u64);
    push_str(&mut s, " complete ===");
    s
}

/// The stage at position `i`.
pub fn stage_at(i: usize) -> (s: Stage)
    requires
        i < STAGE_COUNT,
    ensures
        s == INSTALL_STAGES@[i as int],
{
    INSTALL_STAGES[i]
}

/// The progress report sent when stage `i` starts.
pub fn stage_report(i: usize) -> (p: Progress)
    requires
        i < STAGE_COUNT,
    ensures
        p matches Progress::Update { percent, message } && percent as nat == stage_percent(i as int)
            && message@ == stage_message(i as int),
{
    let (percent, message): (u8, &str) = if i == 0 { (0, "Partitioning disk...") }
    else if i == 1 { (15, "Formatting partitions...") }
    else if i == 2 { (25, "Mounting target filesystem...") }
    else if i == 3 { (30, "Copying system files (this may take several minutes)...") }
    else if i == 4 { (70, "Generating fstab...") }
    else if i == 5 { (75, "Configuring system...") }
    else if i == 6 { (80, "Setting up user accounts...") }
    else if i == 7 { (85, "Installing GRUB bootloader...") }
    else if i == 8 { (90, "Writing bootloader configuration...") }
    else if i == 9 { (95, "Building initramfs...") }
    else { (100, "Cleaning up...") };
    Progress::Update { percent, message: message.to_owned() }
}

/// The report sent in the middle of stage 4, once the files are copied.
pub fn copy_done_report() -> (p: Progress)
    ensures
        p matches Progress::Update { percent, message } && percent == 70 && message@ == "File copy complete."@,
{
    Progress::Update { percent: 70, message: "File copy complete.".to_owned() }
}

/// What the installation does next.
#[derive(Debug)]
pub enum InstallAction {
    /// Report the start of stage `i` and run it.
    Run(usize),
    /// Every stage succeeded: report completion.
    Complete,
    /// A stage failed with this message: report it; nothing more runs.
    Fail(String),
}

/// An installation starts with its first stage.
pub fn first_action() -> (a: InstallAction)
    ensures
        a matches InstallAction::Run(i) && i == 0,
{
    InstallAction::Run(0)
}

/// The next action once stage `i` ended with `outcome`: its error ends the
/// installation, success moves to the next stage, and success of the last
/// stage completes it.
pub fn after_stage(i: usize, outcome: Result<(), String>) -> (a: InstallAction)
    requires
        i < STAGE_COUNT,
    ensures
        outcome matches Err(e) ==> (a matches InstallAction::Fail(m) && m@ == e@),
        outcome is Ok && i + 1 < STAGE_COUNT ==> (a matches InstallAction::Run(j) && j == i + 1),
        outcome is Ok && i + 1 == STAGE_COUNT ==> a is Complete,
{
    match outcome {
        Err(e) => InstallAction::Fail(e),
        Ok(()) => if i + 1 < STAGE_COUNT { InstallAction::Run(i + 1) } else { InstallAction::Complete },
    }
}

/// The gauge only moves forward from stage to stage, from 0 at the first to
/// 100 at the last.
pub proof fn lemma_stage_percent_monotone(i: int, j: int)
    requires
        0 <= i <= j < STAGE_COUNT,
    ensures
        stage_percent(i) <= stage_percent(j),
        stage_percent(0) == 0,
        stage_percent(STAGE_COUNT - 1) == 100,
{
}

} // verus!
