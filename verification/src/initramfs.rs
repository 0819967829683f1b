//! The initramfs of the installed system: dynamod-init, busybox with its
//! applet links, kmod with the libraries it needs, and the kernel's modules,
//! packed as a gzipped `newc` cpio archive.

use vstd::prelude::*;
use crate::config::{BUSYBOX_SYMLINKS, INITRAMFS_LIB_PATTERNS, TARGET_MNT};
use crate::install::{Command, command_view, first_existing};
use crate::sort::texts_view;
use crate::text::{contains, has_infix, has_prefix, push_str, starts_with};

verus! {

/// A filesystem operation of the initramfs build. A failure of an operation
/// with an error label ends the build with `"<label>: <error>"`; a failure
/// of one without is ignored.
#[derive(Debug)]
pub enum FsOp {
    /// Create a directory and its parents.
    CreateDir { path: String, error_label: Option<String> },
    /// Copy a file.
    Copy { from: String, to: String, error_label: Option<String> },
    /// Make `link` a symbolic link to `target`; a failure is ignored.
    Symlink { target: String, link: String },
    /// Run a command; a failure ends the build when `required` holds.
    Run { command: Command, required: bool },
    /// Move a file.
    Rename { from: String, to: String, error_label: Option<String> },
}

/// An operation with its texts as character sequences.
pub enum OpModel {
    CreateDir(Seq<char>, Option<Seq<char>>),
    Copy(Seq<char>, Seq<char>, Option<Seq<char>>),
    Symlink(Seq<char>, Seq<char>),
    Run((Seq<char>, Seq<Seq<char>>), bool),
    Rename(Seq<char>, Seq<char>, Option<Seq<char>>),
}

pub open spec fn op_view(op: FsOp) -> OpModel {
    match op {
        FsOp::CreateDir { path, error_label } => OpModel::CreateDir(path@, crate::config::opt_text(error_label)),
        FsOp::Copy { from, to, error_label } => OpModel::Copy(from@, to@, crate::config::opt_text(error_label)),
        FsOp::Symlink { target, link } => OpModel::Symlink(target@, link@),
        FsOp::Run { command, required } => OpModel::Run(command_view(command), required),
        FsOp::Rename { from, to, error_label } => OpModel::Rename(from@, to@, crate::config::opt_text(error_label)),
    }
}

pub open spec fn ops_view(ops: Seq<FsOp>) -> Seq<OpModel> {
    ops.map_values(|o: FsOp| op_view(o))
}

/// What was found in the target before the build.
pub struct InitramfsProbe {
    /// Which of `busybox_candidates()` are regular files.
    pub busybox_found: Vec<bool>,
    /// Which of `kmod_candidates()` are regular files.
    pub kmod_found: Vec<bool>,
    /// Which of `libc_candidates()` are regular files.
    pub libc_found: Vec<bool>,
    /// The entry names of each of `lib_dirs()`; none for a directory that
    /// could not be read.
    pub lib_entries: Vec<Vec<String>>,
    /// `<target>/lib/modules/<kernel version>` is a directory.
    pub modules_dir: bool,
}

pub open spec fn busybox_candidates() -> Seq<Seq<char>> {
    seq![TARGET_MNT@ + "/usr/bin/busybox"@, TARGET_MNT@ + "/bin/busybox"@]
}

pub open spec fn kmod_candidates() -> Seq<Seq<char>> {
    seq![TARGET_MNT@ + "/usr/bin/kmod"@, TARGET_MNT@ + "/bin/kmod"@]
}

/// The libc candidates, relative to the target.
pub open spec fn libc_relatives() -> Seq<Seq<char>> {
    seq!["/usr/lib64/libc.so"@, "/usr/lib/libc.so"@, "/lib/libc.so"@]
}

/// The library directories searched, relative to the target.
pub open spec fn lib_relatives() -> Seq<Seq<char>> {
    seq!["/usr/lib"@, "/lib"@, "/usr/lib64"@]
}

pub open spec fn staging_dir_names() -> Seq<Seq<char>> {
    seq!["sbin"@, "bin"@, "dev"@, "proc"@, "sys"@, "newroot"@, "etc"@, "lib"@]
}

pub open spec fn label(s: Seq<char>) -> Option<Seq<char>> {
    Some(s)
}

pub open spec fn cp_a(from: Seq<char>, to: Seq<char>) -> (Seq<char>, Seq<Seq<char>>) {
    ("cp"@, seq!["-a"@, from, to])
}

/// The staging directory's skeleton.
pub open spec fn dirs_ops(staging: Seq<char>) -> Seq<OpModel> {
    Seq::new(8, |i: int| OpModel::CreateDir(staging + "/"@ + staging_dir_names()[i], label("mkdir in staging"@)))
}

/// Busybox, when found, with a link for each applet the initramfs uses.
pub open spec fn busybox_ops(staging: Seq<char>, found: Seq<bool>) -> Seq<OpModel> {
    match first_existing(busybox_candidates(), found) {
        Some(bb) => seq![OpModel::Copy(bb, staging + "/bin/busybox"@, label("copy busybox"@))] + Seq::new(
            6,
            |i: int| OpModel::Symlink("busybox"@, staging + "/bin/"@ + BUSYBOX_SYMLINKS@[i]@),
        ),
        None => seq![],
    }
}

/// The names in `names` that start with `prefix`.
pub open spec fn names_with_prefix(names: Seq<Seq<char>>, prefix: Seq<char>) -> Seq<Seq<char>>
    decreases names.len(),
{
    if names.len() == 0 {
        seq![]
    } else if has_prefix(names.last(), prefix) {
        names_with_prefix(names.drop_last(), prefix).push(names.last())
    } else {
        names_with_prefix(names.drop_last(), prefix)
    }
}

/// The names in `names` of shared libraries matching `pattern`: they start
/// with it and contain `.so`.
pub open spec fn libs_matching(names: Seq<Seq<char>>, pattern: Seq<char>) -> Seq<Seq<char>>
    decreases names.len(),
{
    if names.len() == 0 {
        seq![]
    } else if has_prefix(names.last(), pattern) && has_infix(names.last(), ".so"@) {
        libs_matching(names.drop_last(), pattern).push(names.last())
    } else {
        libs_matching(names.drop_last(), pattern)
    }
}

/// The musl dynamic loader, copied with `cp -a` so that links stay links.
pub open spec fn musl_ops(staging: Seq<char>, lib_names: Seq<Seq<char>>) -> Seq<OpModel> {
    names_with_prefix(lib_names, "ld-musl-"@).map_values(
        |n: Seq<char>| OpModel::Run(cp_a(TARGET_MNT@ + "/lib/"@ + n, staging + "/lib/"@ + n), false),
    )
}

/// libc, at the same place under the staging directory as in the target.
pub open spec fn libc_ops(staging: Seq<char>, found: Seq<bool>) -> Seq<OpModel> {
    match first_existing(libc_relatives(), found) {
        Some(rel) => seq![
            OpModel::CreateDir(staging + rel.subrange(0, rel.len() - 8), None),
            OpModel::Copy(TARGET_MNT@ + rel, staging + rel, None),
        ],
        None => seq![],
    }
}

/// One library matching a pattern in directory `k` of `lib_relatives()`.
pub open spec fn lib_copy_ops(staging: Seq<char>, dir: Seq<char>, name: Seq<char>) -> Seq<OpModel> {
    seq![
        OpModel::CreateDir(staging + dir, None),
        OpModel::Run(cp_a(TARGET_MNT@ + dir + "/"@ + name, staging + dir + "/"@ + name), false),
    ]
}

pub open spec fn lib_dir_ops(staging: Seq<char>, dir: Seq<char>, names: Seq<Seq<char>>) -> Seq<OpModel>
    decreases names.len(),
{
    if names.len() == 0 {
        seq![]
    } else {
        lib_dir_ops(staging, dir, names.drop_last()) + lib_copy_ops(staging, dir, names.last())
    }
}

/// For each pattern in turn, the matching libraries of each library directory.
pub open spec fn libs_ops(staging: Seq<char>, entries: Seq<Seq<Seq<char>>>, npat: int) -> Seq<OpModel>
    decreases npat,
{
    if npat <= 0 {
        seq![]
    } else {
        let pat = INITRAMFS_LIB_PATTERNS@[npat - 1]@;
        libs_ops(staging, entries, npat - 1)
            + lib_dir_ops(staging, lib_relatives()[0], libs_matching(entries[0], pat))
            + lib_dir_ops(staging, lib_relatives()[1], libs_matching(entries[1], pat))
            + lib_dir_ops(staging, lib_relatives()[2], libs_matching(entries[2], pat))
    }
}

/// kmod with its `modprobe` links and libraries when found; otherwise
/// `modprobe` is busybox's.
pub open spec fn kmod_ops(staging: Seq<char>, p: InitramfsProbe) -> Seq<OpModel> {
    let entries = p.lib_entries@.map_values(|v: Vec<String>| texts_view(v@));
    match first_existing(kmod_candidates(), p.kmod_found@) {
        Some(km) => seq![
            OpModel::Copy(km, staging + "/bin/kmod"@, label("copy kmod"@)),
            OpModel::Symlink("kmod"@, staging + "/bin/modprobe"@),
            OpModel::Symlink("../bin/modprobe"@, staging + "/sbin/modprobe"@),
            OpModel::CreateDir(staging + "/lib"@, None),
            OpModel::CreateDir(staging + "/usr/lib64"@, None),
            OpModel::CreateDir(staging + "/usr/lib"@, None),
        ] + musl_ops(staging, entries[1]) + libc_ops(staging, p.libc_found@) + libs_ops(staging, entries, 4),
        None => seq![
            OpModel::Symlink("busybox"@, staging + "/bin/modprobe"@),
            OpModel::Symlink("../bin/modprobe"@, staging + "/sbin/modprobe"@),
        ],
    }
}

/// The kernel's modules, when there is a version and its module directory.
pub open spec fn modules_ops(staging: Seq<char>, kver: Seq<char>, modules_dir: bool) -> Seq<OpModel> {
    if kver.len() > 0 && modules_dir {
        seq![
            OpModel::CreateDir(staging + "/lib/modules"@, label("mkdir modules"@)),
            OpModel::Run(cp_a(TARGET_MNT@ + "/lib/modules/"@ + kver, staging + "/lib/modules/"@ + kver), true),
        ]
    } else {
        seq![]
    }
}

pub open spec fn initramfs_path_of(kver: Seq<char>) -> Seq<char> {
    TARGET_MNT@ + "/boot/initramfs-"@ + kver + ".gz"@
}

/// The shell command that writes the cpio archive of the staging directory.
pub open spec fn cpio_script(staging: Seq<char>) -> Seq<char> {
    "cd '"@ + staging + "' && find . -print0 | cpio --null -o --format=newc > '"@ + staging
        + "/initramfs.cpio' 2>/dev/null"@
}

/// The archive: cpio, then gzip, then the move into the target's `/boot`.
pub open spec fn archive_ops(staging: Seq<char>, kver: Seq<char>) -> Seq<OpModel> {
    seq![
        OpModel::Run(("sh"@, seq!["-c"@, cpio_script(staging)]), true),
        OpModel::Run(("gzip"@, seq!["-9"@, "-f"@, staging + "/initramfs.cpio"@]), true),
        OpModel::Rename(
            staging + "/initramfs.cpio.gz"@,
            initramfs_path_of(kver),
            label("Failed to move initramfs to "@ + initramfs_path_of(kver)),
        ),
    ]
}

/// The whole build, in order.
pub open spec fn initramfs_ops(staging: Seq<char>, kver: Seq<char>, p: InitramfsProbe) -> Seq<OpModel> {
    dirs_ops(staging)
        + seq![OpModel::Copy(TARGET_MNT@ + "/sbin/dynamod-init"@, staging + "/sbin/dynamod-init"@, label("copy dynamod-init"@))]
        + busybox_ops(staging, p.busybox_found@) + kmod_ops(staging, p) + modules_ops(staging, kver, p.modules_dir)
        + archive_ops(staging, kver)
}


fn push_op(ops: &mut Vec<FsOp>, op: FsOp)
    ensures
        ops_view(final(ops)@) == ops_view(old(ops)@).push(op_view(op)),
{
    let ghost v = op_view(op);
    ops.push(op);
    assert(ops_view(final(ops)@) =~= ops_view(old(ops)@).push(v));
}

fn cat2(a: &str, b: &str) -> (r: String)
    ensures
        r@ == a@ + b@,
{
    let mut s = a.to_owned();
    push_str(&mut s, b);
    s
}

fn cat3(a: &str, b: &str, c: &str) -> (r: String)
    ensures
        r@ == a@ + b@ + c@,
{
    let mut s = a.to_owned();
    push_str(&mut s, b);
    push_str(&mut s, c);
    s
}

fn cp_a_command(from: String, to: String) -> (r: Command)
    ensures
        command_view(r) == cp_a(from@, to@),
{
    let mut args: Vec<String> = Vec::new();
    args.push("-a".to_owned());
    args.push(from);
    args.push(to);
    assert(texts_view(args@) =~= seq!["-a"@, from@, to@]);
    Command { program: "cp".to_owned(), args }
}

/// The command that creates the staging directory; it prints the directory's
/// path.
pub fn staging_create_command() -> (r: Command)
    ensures
        command_view(r) == ("mktemp"@, seq!["-d"@]),
{
    let mut args: Vec<String> = Vec::new();
    args.push("-d".to_owned());
    assert(texts_view(args@) =~= seq!["-d"@]);
    Command { program: "mktemp".to_owned(), args }
}

/// The command that removes the staging directory once the build is over,
/// whether or not it succeeded.
pub fn staging_remove_command(staging: &str) -> (r: Command)
    ensures
        command_view(r) == ("rm"@, seq!["-rf"@, staging@]),
{
    let mut args: Vec<String> = Vec::new();
    args.push("-rf".to_owned());
    args.push(staging.to_owned());
    assert(texts_view(args@) =~= seq!["-rf"@, staging@]);
    Command { program: "rm".to_owned(), args }
}

/// The candidate paths of busybox, in the order they are tried.
pub fn busybox_candidate_paths() -> (r: Vec<String>)
    ensures
        texts_view(r@) == busybox_candidates(),
{
    let mut r: Vec<String> = Vec::new();
    r.push(cat2(TARGET_MNT, "/usr/bin/busybox"));
    r.push(cat2(TARGET_MNT, "/bin/busybox"));
    assert(texts_view(r@) =~= busybox_candidates());
    r
}

/// The candidate paths of kmod, in the order they are tried.
pub fn kmod_candidate_paths() -> (r: Vec<String>)
    ensures
        texts_view(r@) == kmod_candidates(),
{
    let mut r: Vec<String> = Vec::new();
    r.push(cat2(TARGET_MNT, "/usr/bin/kmod"));
    r.push(cat2(TARGET_MNT, "/bin/kmod"));
    assert(texts_view(r@) =~= kmod_candidates());
    r
}

/// The candidate paths of libc, in the order they are tried.
pub fn libc_candidate_paths() -> (r: Vec<String>)
    ensures
        texts_view(r@) == libc_relatives().map_values(|rel: Seq<char>| TARGET_MNT@ + rel),
{
    let mut r: Vec<String> = Vec::new();
    r.push(cat2(TARGET_MNT, "/usr/lib64/libc.so"));
    r.push(cat2(TARGET_MNT, "/usr/lib/libc.so"));
    r.push(cat2(TARGET_MNT, "/lib/libc.so"));
    assert(texts_view(r@) =~= libc_relatives().map_values(|rel: Seq<char>| TARGET_MNT@ + rel));
    r
}

/// The library directories, in the order they are searched.
pub fn lib_dir_paths() -> (r: Vec<String>)
    ensures
        texts_view(r@) == lib_relatives().map_values(|rel: Seq<char>| TARGET_MNT@ + rel),
{
    let mut r: Vec<String> = Vec::new();
    r.push(cat2(TARGET_MNT, "/usr/lib"));
    r.push(cat2(TARGET_MNT, "/lib"));
    r.push(cat2(TARGET_MNT, "/usr/lib64"));
    assert(texts_view(r@) =~= lib_relatives().map_values(|rel: Seq<char>| TARGET_MNT@ + rel));
    r
}

/// The module directory of a kernel version in the target.
pub fn modules_dir_path(kver: &str) -> (r: String)
    ensures
        r@ == TARGET_MNT@ + "/lib/modules/"@ + kver@,
{
    cat3(TARGET_MNT, "/lib/modules/", kver)
}

fn push_dirs(ops: &mut Vec<FsOp>, staging: &str)
    ensures
        ops_view(final(ops)@) == ops_view(old(ops)@) + dirs_ops(staging@),
{
    let names: [&str; 8] = ["sbin", "bin", "dev", "proc", "sys", "newroot", "etc", "lib"];
    proof {
        reveal_strlit("sbin");
        reveal_strlit("bin");
        reveal_strlit("dev");
        reveal_strlit("proc");
        reveal_strlit("sys");
        reveal_strlit("newroot");
        reveal_strlit("etc");
        reveal_strlit("lib");
    }
    assert(forall|j: int| 0 <= j < 8 ==> names@[j]@ == #[trigger] staging_dir_names()[j]);
    let ghost start = ops_view(ops@);
    let mut i: usize = 0;
    assert(start + Seq::new(0, |j: int| dirs_ops(staging@)[j]) =~= start);
    while i < 8
        invariant
            i <= 8,
            forall|j: int| 0 <= j < 8 ==> names@[j]@ == #[trigger] staging_dir_names()[j],
            ops_view(ops@) == start + dirs_ops(staging@).subrange(0, i as int),
        decreases 8 - i,
    {
        push_op(ops, FsOp::CreateDir { path: cat3(staging, "/", names[i]), error_label: Some("mkdir in staging".to_owned()) });
        i = i + 1;
        assert(ops_view(ops@) =~= start + dirs_ops(staging@).subrange(0, i as int));
    }
    assert(dirs_ops(staging@).subrange(0, 8) =~= dirs_ops(staging@));
}

fn push_busybox(ops: &mut Vec<FsOp>, staging: &str, found: &Vec<bool>)
    requires
        found@.len() == 2,
    ensures
        ops_view(final(ops)@) == ops_view(old(ops)@) + busybox_ops(staging@, found@),
{
    let cands = busybox_candidate_paths();
    match crate::install::find_first_existing(&cands, found) {
        Some(bb) => {
            let ghost start = ops_view(ops@);
            push_op(ops, FsOp::Copy { from: bb, to: cat2(staging, "/bin/busybox"), error_label: Some("copy busybox".to_owned()) });
            let ghost links = Seq::new(6, |i: int| OpModel::Symlink("busybox"@, staging@ + "/bin/"@ + BUSYBOX_SYMLINKS@[i]@));
            let mut i: usize = 0;
            while i < 6
                invariant
                    i <= 6,
                    ops_view(ops@) == start + busybox_ops(staging@, found@).subrange(0, i + 1),
                    busybox_ops(staging@, found@).len() == 7,
                    forall|j: int| 0 <= j < 6 ==> busybox_ops(staging@, found@)[j + 1] == #[trigger] links[j],
                decreases 6 - i,
            {
                push_op(ops, FsOp::Symlink { target: "busybox".to_owned(), link: cat3(staging, "/bin/", BUSYBOX_SYMLINKS[i]) });
                i = i + 1;
                assert(ops_view(ops@) =~= start + busybox_ops(staging@, found@).subrange(0, i + 1));
            }
            assert(busybox_ops(staging@, found@).subrange(0, 7) =~= busybox_ops(staging@, found@));
        },
        None => {
            assert(ops_view(ops@) + busybox_ops(staging@, found@) =~= ops_view(ops@));
        },
    }
}


fn push_musl(ops: &mut Vec<FsOp>, staging: &str, names: &Vec<String>)
    ensures
        ops_view(final(ops)@) == ops_view(old(ops)@) + musl_ops(staging@, texts_view(names@)),
{
    let ghost start = ops_view(ops@);
    let ghost f = |n: Seq<char>| OpModel::Run(cp_a(TARGET_MNT@ + "/lib/"@ + n, staging@ + "/lib/"@ + n), false);
    let mut i: usize = 0;
    assert(texts_view(names@).subrange(0, 0) =~= Seq::<Seq<char>>::empty());
    assert(start + names_with_prefix(Seq::<Seq<char>>::empty(), "ld-musl-"@).map_values(f) =~= start);
    while i < names.len()
        invariant
            i <= names@.len(),
            f == (|n: Seq<char>| OpModel::Run(cp_a(TARGET_MNT@ + "/lib/"@ + n, staging@ + "/lib/"@ + n), false)),
            ops_view(ops@) == start + names_with_prefix(texts_view(names@).subrange(0, i as int), "ld-musl-"@).map_values(f),
        decreases names@.len() - i,
    {
        let ghost sub = texts_view(names@).subrange(0, i + 1);
        assert(sub.drop_last() =~= texts_view(names@).subrange(0, i as int));
        assert(sub.last() == names@[i as int]@);
        let ghost prev = names_with_prefix(texts_view(names@).subrange(0, i as int), "ld-musl-"@);
        if starts_with(names[i].as_str(), "ld-musl-") {
            let from = cat3(TARGET_MNT, "/lib/", names[i].as_str());
            let to = cat3(staging, "/lib/", names[i].as_str());
            push_op(ops, FsOp::Run { command: cp_a_command(from, to), required: false });
            assert(prev.push(names@[i as int]@).map_values(f) =~= prev.map_values(f).push(f(names@[i as int]@)));
        }
        i = i + 1;
        assert(ops_view(ops@) =~= start + names_with_prefix(texts_view(names@).subrange(0, i as int), "ld-musl-"@).map_values(f));
    }
    assert(texts_view(names@).subrange(0, names@.len() as int) =~= texts_view(names@));
}

fn push_libc(ops: &mut Vec<FsOp>, staging: &str, found: &Vec<bool>)
    requires
        found@.len() == 3,
    ensures
        ops_view(final(ops)@) == ops_view(old(ops)@) + libc_ops(staging@, found@),
{
    let mut rels: Vec<String> = Vec::new();
    rels.push("/usr/lib64/libc.so".to_owned());
    rels.push("/usr/lib/libc.so".to_owned());
    rels.push("/lib/libc.so".to_owned());
    let mut dirs: Vec<&str> = Vec::new();
    dirs.push("/usr/lib64");
    dirs.push("/usr/lib");
    dirs.push("/lib");
    assert(texts_view(rels@) =~= libc_relatives());
    proof {
        reveal_strlit("/usr/lib64/libc.so");
        reveal_strlit("/usr/lib/libc.so");
        reveal_strlit("/lib/libc.so");
        reveal_strlit("/usr/lib64");
        reveal_strlit("/usr/lib");
        reveal_strlit("/lib");
        assert(dirs@[0]@ =~= libc_relatives()[0].subrange(0, libc_relatives()[0].len() - 8));
        assert(dirs@[1]@ =~= libc_relatives()[1].subrange(0, libc_relatives()[1].len() - 8));
        assert(dirs@[2]@ =~= libc_relatives()[2].subrange(0, libc_relatives()[2].len() - 8));
    }
    let mut i: usize = 0;
    assert(libc_relatives().skip(0) =~= libc_relatives());
    assert(found@.skip(0) =~= found@);
    while i < 3
        invariant
            i <= 3,
            found@.len() == 3,
            texts_view(rels@) == libc_relatives(),
            rels@.len() == 3,
            dirs@.len() == 3,
            forall|j: int| 0 <= j < 3 ==> #[trigger] dirs@[j]@ == libc_relatives()[j].subrange(0, libc_relatives()[j].len() - 8),
            first_existing(libc_relatives(), found@) == first_existing(libc_relatives().skip(i as int), found@.skip(i as int)),
            ops_view(ops@) == ops_view(old(ops)@),
        decreases 3 - i,
    {
        assert(libc_relatives().skip(i as int).drop_first() =~= libc_relatives().skip(i + 1));
        assert(found@.skip(i as int).drop_first() =~= found@.skip(i + 1));
        assert(texts_view(rels@)[i as int] == rels@[i as int]@);
        if found[i] {
            let ghost start = ops_view(ops@);
            push_op(ops, FsOp::CreateDir { path: cat2(staging, dirs[i]), error_label: None });
            push_op(ops, FsOp::Copy { from: cat2(TARGET_MNT, rels[i].as_str()), to: cat2(staging, rels[i].as_str()), error_label: None });
            assert(ops_view(ops@) =~= start + libc_ops(staging@, found@));
            return;
        }
        i = i + 1;
    }
    assert(ops_view(ops@) + libc_ops(staging@, found@) =~= ops_view(ops@));
}

fn push_lib_dir(ops: &mut Vec<FsOp>, staging: &str, dir: &str, names: &Vec<String>, pattern: &str)
    ensures
        ops_view(final(ops)@) == ops_view(old(ops)@) + lib_dir_ops(staging@, dir@, libs_matching(texts_view(names@), pattern@)),
{
    let ghost start = ops_view(ops@);
    let mut i: usize = 0;
    assert(texts_view(names@).subrange(0, 0) =~= Seq::<Seq<char>>::empty());
    assert(start + lib_dir_ops(staging@, dir@, libs_matching(Seq::<Seq<char>>::empty(), pattern@)) =~= start);
    while i < names.len()
        invariant
            i <= names@.len(),
            ops_view(ops@) == start + lib_dir_ops(staging@, dir@, libs_matching(texts_view(names@).subrange(0, i as int), pattern@)),
        decreases names@.len() - i,
    {
        let ghost sub = texts_view(names@).subrange(0, i + 1);
        assert(sub.drop_last() =~= texts_view(names@).subrange(0, i as int));
        assert(sub.last() == names@[i as int]@);
        let ghost prev = libs_matching(texts_view(names@).subrange(0, i as int), pattern@);
        if starts_with(names[i].as_str(), pattern) && contains(names[i].as_str(), ".so") {
            push_op(ops, FsOp::CreateDir { path: cat2(staging, dir), error_label: None });
            let mut from = cat3(TARGET_MNT, dir, "/");
            push_str(&mut from, names[i].as_str());
            let mut to = cat3(staging, dir, "/");
            push_str(&mut to, names[i].as_str());
            push_op(ops, FsOp::Run { command: cp_a_command(from, to), required: false });
            let ghost next = prev.push(names@[i as int]@);
            assert(next.drop_last() =~= prev);
            assert(ops_view(ops@) =~= start + lib_dir_ops(staging@, dir@, next));
        }
        i = i + 1;
    }
    assert(texts_view(names@).subrange(0, names@.len() as int) =~= texts_view(names@));
}

fn push_libs(ops: &mut Vec<FsOp>, staging: &str, entries: &Vec<Vec<String>>)
    requires
        entries@.len() == 3,
    ensures
        ops_view(final(ops)@) == ops_view(old(ops)@) + libs_ops(staging@, entries@.map_values(|v: Vec<String>| texts_view(v@)), 4),
{
    let ghost ev = entries@.map_values(|v: Vec<String>| texts_view(v@));
    let ghost start = ops_view(ops@);
    let dirs: [&str; 3] = ["/usr/lib", "/lib", "/usr/lib64"];
    proof {
        reveal_strlit("/usr/lib");
        reveal_strlit("/lib");
        reveal_strlit("/usr/lib64");
    }
    assert(forall|k: int| 0 <= k < 3 ==> #[trigger] dirs@[k]@ == lib_relatives()[k]);
    let mut p: usize = 0;
    assert(start + libs_ops(staging@, ev, 0) =~= start);
    while p < 4
        invariant
            p <= 4,
            entries@.len() == 3,
            ev == entries@.map_values(|v: Vec<String>| texts_view(v@)),
            forall|k: int| 0 <= k < 3 ==> #[trigger] dirs@[k]@ == lib_relatives()[k],
            ops_view(ops@) == start + libs_ops(staging@, ev, p as int),
        decreases 4 - p,
    {
        let ghost before = ops_view(ops@);
        let pat = INITRAMFS_LIB_PATTERNS[p];
        push_lib_dir(ops, staging, dirs[0], &entries[0], pat);
        push_lib_dir(ops, staging, dirs[1], &entries[1], pat);
        push_lib_dir(ops, staging, dirs[2], &entries[2], pat);
        p = p + 1;
        assert(ops_view(ops@) =~= start + libs_ops(staging@, ev, p as int));
    }
}

fn push_kmod(ops: &mut Vec<FsOp>, staging: &str, probe: &InitramfsProbe)
    requires
        probe.kmod_found@.len() == 2,
        probe.libc_found@.len() == 3,
        probe.lib_entries@.len() == 3,
    ensures
        ops_view(final(ops)@) == ops_view(old(ops)@) + kmod_ops(staging@, *probe),
{
    let ghost start = ops_view(ops@);
    let cands = kmod_candidate_paths();
    match crate::install::find_first_existing(&cands, &probe.kmod_found) {
        Some(km) => {
            push_op(ops, FsOp::Copy { from: km, to: cat2(staging, "/bin/kmod"), error_label: Some("copy kmod".to_owned()) });
            push_op(ops, FsOp::Symlink { target: "kmod".to_owned(), link: cat2(staging, "/bin/modprobe") });
            push_op(ops, FsOp::Symlink { target: "../bin/modprobe".to_owned(), link: cat2(staging, "/sbin/modprobe") });
            push_op(ops, FsOp::CreateDir { path: cat2(staging, "/lib"), error_label: None });
            push_op(ops, FsOp::CreateDir { path: cat2(staging, "/usr/lib64"), error_label: None });
            push_op(ops, FsOp::CreateDir { path: cat2(staging, "/usr/lib"), error_label: None });
            let ghost mid = ops_view(ops@);
            push_musl(ops, staging, &probe.lib_entries[1]);
            push_libc(ops, staging, &probe.libc_found);
            push_libs(ops, staging, &probe.lib_entries);
            let ghost ev = probe.lib_entries@.map_values(|v: Vec<String>| texts_view(v@));
            assert(ev[1] == texts_view(probe.lib_entries@[1]@));
            assert(ops_view(ops@) =~= start + kmod_ops(staging@, *probe));
        },
        None => {
            push_op(ops, FsOp::Symlink { target: "busybox".to_owned(), link: cat2(staging, "/bin/modprobe") });
            push_op(ops, FsOp::Symlink { target: "../bin/modprobe".to_owned(), link: cat2(staging, "/sbin/modprobe") });
            assert(ops_view(ops@) =~= start + kmod_ops(staging@, *probe));
        },
    }
}

/// Where the initramfs of a kernel version goes in the target.
pub fn initramfs_path(kver: &str) -> (r: String)
    ensures
        r@ == initramfs_path_of(kver@),
{
    let mut s = cat3(TARGET_MNT, "/boot/initramfs-", kver);
    push_str(&mut s, ".gz");
    s
}

fn push_tail(ops: &mut Vec<FsOp>, staging: &str, kver: &str, modules_dir: bool)
    ensures
        ops_view(final(ops)@) == ops_view(old(ops)@) + modules_ops(staging@, kver@, modules_dir) + archive_ops(staging@, kver@),
{
    let ghost start = ops_view(ops@);
    if !kver.is_empty() && modules_dir {
        push_op(ops, FsOp::CreateDir { path: cat2(staging, "/lib/modules"), error_label: Some("mkdir modules".to_owned()) });
        let from = cat3(TARGET_MNT, "/lib/modules/", kver);
        let to = cat3(staging, "/lib/modules/", kver);
        push_op(ops, FsOp::Run { command: cp_a_command(from, to), required: true });
    }
    assert(ops_view(ops@) =~= start + modules_ops(staging@, kver@, modules_dir));
    let ghost mid = ops_view(ops@);
    let mut script = cat3("cd '", staging, "' && find . -print0 | cpio --null -o --format=newc > '");
    push_str(&mut script, staging);
    push_str(&mut script, "/initramfs.cpio' 2>/dev/null");
    let mut sh_args: Vec<String> = Vec::new();
    sh_args.push("-c".to_owned());
    sh_args.push(script);
    assert(texts_view(sh_args@) =~= seq!["-c"@, cpio_script(staging@)]);
    push_op(ops, FsOp::Run { command: Command { program: "sh".to_owned(), args: sh_args }, required: true });
    let mut gz_args: Vec<String> = Vec::new();
    gz_args.push("-9".to_owned());
    gz_args.push("-f".to_owned());
    gz_args.push(cat2(staging, "/initramfs.cpio"));
    assert(texts_view(gz_args@) =~= seq!["-9"@, "-f"@, staging@ + "/initramfs.cpio"@]);
    push_op(ops, FsOp::Run { command: Command { program: "gzip".to_owned(), args: gz_args }, required: true });
    let dest = initramfs_path(kver);
    let lbl = cat2("Failed to move initramfs to ", dest.as_str());
    push_op(ops, FsOp::Rename { from: cat2(staging, "/initramfs.cpio.gz"), to: dest, error_label: Some(lbl) });
    assert(ops_view(ops@) =~= mid + archive_ops(staging@, kver@));
}

/// The operations that build the initramfs for kernel `kver` in `staging`,
/// in the order they run, given what was found in the target.
pub fn initramfs_plan(staging: &str, kver: &str, probe: &InitramfsProbe) -> (r: Vec<FsOp>)
    requires
        probe.busybox_found@.len() == 2,
        probe.kmod_found@.len() == 2,
        probe.libc_found@.len() == 3,
        probe.lib_entries@.len() == 3,
    ensures
        ops_view(r@) == initramfs_ops(staging@, kver@, *probe),
{
    let mut ops: Vec<FsOp> = Vec::new();
    assert(ops_view(ops@) =~= Seq::<OpModel>::empty());
    push_dirs(&mut ops, staging);
    push_op(
        &mut ops,
        FsOp::Copy {
            from: cat2(TARGET_MNT, "/sbin/dynamod-init"),
            to: cat2(staging, "/sbin/dynamod-init"),
            error_label: Some("copy dynamod-init".to_owned()),
        },
    );
    push_busybox(&mut ops, staging, &probe.busybox_found);
    push_kmod(&mut ops, staging, probe);
    push_tail(&mut ops, staging, kver, probe.modules_dir);
    assert(ops_view(ops@) =~= initramfs_ops(staging@, kver@, *probe));
    ops
}

} // verus!
