//! The files the installation writes into the target system.

use vstd::prelude::*;
use crate::config::{InstallConfig, TARGET_MNT, fs_name};
use crate::sort::texts_view;
use crate::text::{has_prefix, push_char, push_str, to_chars, from_chars, starts_with, trim, trim_str};

verus! {

/// Characters before the first line feed.
pub open spec fn line_len(s: Seq<char>) -> nat
    decreases s.len(),
{
    if s.len() == 0 || s[0] == '\n' {
        0
    } else {
        1 + line_len(s.drop_first())
    }
}

/// A line without the carriage return that ended it.
pub open spec fn strip_cr(l: Seq<char>) -> Seq<char> {
    if l.len() > 0 && l.last() == '\r' { l.drop_last() } else { l }
}

/// The lines of a text as `str::lines` gives them: split after each line
/// feed, a final line feed optional, and `\r\n` counted as one line ending.
pub open spec fn lines_of(s: Seq<char>) -> Seq<Seq<char>>
    decreases s.len(),
{
    if s.len() == 0 {
        seq![]
    } else {
        let n = line_len(s);
        if n >= s.len() {
            seq![s]
        } else {
            seq![strip_cr(s.take(n as int))] + lines_of(s.skip(n + 1 as int))
        }
    }
}

/// Lines joined with line feeds between them.
pub open spec fn join_lines(ls: Seq<Seq<char>>) -> Seq<char>
    decreases ls.len(),
{
    if ls.len() == 0 {
        seq![]
    } else if ls.len() == 1 {
        ls[0]
    } else {
        join_lines(ls.drop_last()) + "\n"@ + ls.last()
    }
}

proof fn lemma_line_len(t: Seq<char>, n: int)
    requires
        0 <= n <= t.len(),
        forall|k: int| 0 <= k < n ==> t[k] != '\n',
        n == t.len() || t[n] == '\n',
    ensures
        line_len(t) == n,
    decreases n,
{
    if n > 0 {
        lemma_line_len(t.drop_first(), n - 1);
    }
}

/// `str::lines`.
pub fn split_lines(s: &str) -> (r: Vec<String>)
    ensures
        texts_view(r@) == lines_of(s@),
{
    let v = to_chars(s);
    let n = v.len();
    let mut out: Vec<String> = Vec::new();
    let mut pos: usize = 0;
    assert(s@.skip(0) =~= s@);
    assert(texts_view(out@) + lines_of(s@) =~= lines_of(s@));
    while pos < n
        invariant
            v@ == s@,
            n == v@.len(),
            pos <= n,
            lines_of(s@) == texts_view(out@) + lines_of(s@.skip(pos as int)),
        decreases n - pos,
    {
        let mut j: usize = pos;
        while j < n && v[j] != '\n'
            invariant
                pos <= j <= n,
                n == v@.len(),
                forall|k: int| pos <= k < j ==> v@[k] != '\n',
            decreases n - j,
        {
            j = j + 1;
        }
        let ghost t = s@.skip(pos as int);
        proof {
            lemma_line_len(t, (j - pos) as int);
        }
        let ghost before = texts_view(out@);
        if j == n {
            out.push(from_chars(&v.as_slice()[pos..n]));
            assert(v@.subrange(pos as int, n as int) =~= t);
            assert(lines_of(t) =~= seq![t]);
            assert(texts_view(out@) =~= before.push(t));
            assert(s@.skip(n as int) =~= Seq::<char>::empty());
            assert(lines_of(s@) =~= texts_view(out@) + lines_of(s@.skip(n as int)));
            pos = n;
        } else {
            let mut end = j;
            if end > pos && v[end - 1] == '\r' {
                end = end - 1;
            }
            out.push(from_chars(&v.as_slice()[pos..end]));
            assert(v@.subrange(pos as int, end as int) =~= strip_cr(t.take((j - pos) as int)));
            assert(t.skip((j - pos) + 1) =~= s@.skip(j + 1));
            assert(texts_view(out@) =~= before.push(strip_cr(t.take((j - pos) as int))));
            assert(lines_of(s@) =~= texts_view(out@) + lines_of(s@.skip(j + 1)));
            pos = j + 1;
        }
    }
    assert(s@.skip(n as int) =~= Seq::<char>::empty());
    assert(texts_view(out@) + Seq::<Seq<char>>::empty() =~= texts_view(out@));
    out
}

/// `ls.join("\n")`.
pub fn join_with_newlines(ls: &Vec<String>) -> (r: String)
    ensures
        r@ == join_lines(texts_view(ls@)),
{
    let mut out = String::new();
    let mut i: usize = 0;
    while i < ls.len()
        invariant
            i <= ls@.len(),
            out@ == join_lines(texts_view(ls@).subrange(0, i as int)),
        decreases ls@.len() - i,
    {
        let ghost prefix = texts_view(ls@).subrange(0, i + 1);
        assert(prefix.drop_last() =~= texts_view(ls@).subrange(0, i as int));
        if i > 0 {
            push_str(&mut out, "\n");
        } else {
            assert(out@ =~= Seq::<char>::empty());
        }
        push_str(&mut out, ls[i].as_str());
        i = i + 1;
        assert(out@ =~= join_lines(prefix));
    }
    assert(texts_view(ls@).subrange(0, ls@.len() as int) =~= texts_view(ls@));
    out
}


/// Characters before the first colon.
pub open spec fn colon_len(s: Seq<char>) -> nat
    decreases s.len(),
{
    if s.len() == 0 || s[0] == ':' {
        0
    } else {
        1 + colon_len(s.drop_first())
    }
}

/// The root entry with `x` in its password field, so that login checks
/// `/etc/shadow`; other lines, and a root line without a second field, stay.
pub open spec fn fix_passwd_line(line: Seq<char>) -> Seq<char> {
    if has_prefix(line, "root:"@) {
        let rest = line.skip(5);
        let k = colon_len(rest);
        if k < rest.len() {
            "root:x:"@ + rest.skip(k + 1 as int)
        } else {
            line
        }
    } else {
        line
    }
}

/// Fixing a passwd line twice is fixing it once: a fixed root entry already
/// has `x` as its password field and keeps its other fields.
pub proof fn lemma_fix_passwd_line_idempotent(line: Seq<char>)
    ensures
        fix_passwd_line(fix_passwd_line(line)) == fix_passwd_line(line),
{
    let f = fix_passwd_line(line);
    if f != line {
        reveal_strlit("root:");
        reveal_strlit("root:x:");
        let rest = line.skip(5);
        let tail = rest.skip(colon_len(rest) + 1 as int);
        assert(f =~= "root:x:"@ + tail);
        assert(f.subrange(0, 5) =~= "root:"@);
        let frest = f.skip(5);
        assert(frest =~= seq!['x', ':'] + tail);
        lemma_colon_len(frest, 1);
        assert(frest.skip(2) =~= tail);
    }
}

pub open spec fn ends_with_newline(s: Seq<char>) -> bool {
    s.len() > 0 && s.last() == '\n'
}

/// `/etc/passwd` with the root entry fixed line by line; a final line feed
/// of the original is kept.
pub open spec fn fixed_passwd(content: Seq<char>) -> Seq<char> {
    let fixed = join_lines(lines_of(content).map_values(|l: Seq<char>| fix_passwd_line(l)));
    if ends_with_newline(content) && !ends_with_newline(fixed) {
        fixed + "\n"@
    } else {
        fixed
    }
}

proof fn lemma_colon_len(t: Seq<char>, n: int)
    requires
        0 <= n <= t.len(),
        forall|k: int| 0 <= k < n ==> t[k] != ':',
        n == t.len() || t[n] == ':',
    ensures
        colon_len(t) == n,
    decreases n,
{
    if n > 0 {
        lemma_colon_len(t.drop_first(), n - 1);
    }
}

fn fix_line(line: &str) -> (r: String)
    ensures
        r@ == fix_passwd_line(line@),
{
    if !starts_with(line, "root:") {
        return line.to_owned();
    }
    proof {
        reveal_strlit("root:");
    }
    let v = to_chars(line);
    let n = v.len();
    let mut j: usize = 5;
    while j < n && v[j] != ':'
        invariant
            5 <= j <= n,
            n == v@.len(),
            forall|k: int| 5 <= k < j ==> v@[k] != ':',
        decreases n - j,
    {
        j = j + 1;
    }
    proof {
        lemma_colon_len(line@.skip(5), j - 5);
    }
    if j == n {
        line.to_owned()
    } else {
        let mut r = "root:x:".to_owned();
        let tail = from_chars(&v.as_slice()[j + 1..n]);
        push_str(&mut r, tail.as_str());
        assert(v@.subrange(j + 1, n as int) =~= line@.skip(5).skip(j - 5 + 1));
        r
    }
}

proof fn lemma_newline_suffix(s: Seq<char>)
    ensures
        crate::text::has_suffix(s, "\n"@) == ends_with_newline(s),
{
    reveal_strlit("\n");
    assert("\n"@ =~= seq!['\n']);
    if s.len() > 0 {
        let t = s.subrange(s.len() - 1, s.len() as int);
        assert(t =~= seq![s.last()]);
        if s.last() == '\n' {
            assert(t =~= "\n"@);
        } else {
            assert(t[0] != "\n"@[0]);
        }
    }
}

/// Rewrites `/etc/passwd` so that the root entry has `x` as its password field.
pub fn fix_passwd(content: &str) -> (r: String)
    ensures
        r@ == fixed_passwd(content@),
{
    let lines = split_lines(content);
    let mut fixed_lines: Vec<String> = Vec::new();
    let mut i: usize = 0;
    while i < lines.len()
        invariant
            i <= lines@.len(),
            texts_view(lines@) == lines_of(content@),
            texts_view(fixed_lines@) == texts_view(lines@).subrange(0, i as int).map_values(|l: Seq<char>| fix_passwd_line(l)),
        decreases lines@.len() - i,
    {
        let f = fix_line(lines[i].as_str());
        assert(texts_view(lines@)[i as int] == lines@[i as int]@);
        let ghost before = texts_view(fixed_lines@);
        fixed_lines.push(f);
        assert(texts_view(fixed_lines@) =~= before.push(fix_passwd_line(texts_view(lines@)[i as int])));
        i = i + 1;
        assert(texts_view(fixed_lines@) =~= texts_view(lines@).subrange(0, i as int).map_values(|l: Seq<char>| fix_passwd_line(l)));
    }
    assert(texts_view(lines@).subrange(0, lines@.len() as int) =~= texts_view(lines@));
    let fixed = join_with_newlines(&fixed_lines);
    let content_nl = crate::text::ends_with(content, "\n");
    let fixed_nl = crate::text::ends_with(fixed.as_str(), "\n");
    proof {
        lemma_newline_suffix(content@);
        lemma_newline_suffix(fixed@);
    }
    if content_nl && !fixed_nl {
        let mut f = fixed;
        push_str(&mut f, "\n");
        f
    } else {
        fixed
    }
}


/// A text with neither line feeds nor carriage returns.
pub open spec fn no_breaks(s: Seq<char>) -> bool {
    forall|i: int| 0 <= i < s.len() ==> s[i] != '\n' && s[i] != '\r'
}

proof fn lemma_join_front(ls: Seq<Seq<char>>)
    requires
        ls.len() >= 2,
    ensures
        join_lines(ls) == ls[0] + "\n"@ + join_lines(ls.drop_first()),
    decreases ls.len(),
{
    if ls.len() == 2 {
        assert(ls.drop_last() =~= seq![ls[0]]);
        assert(ls.drop_first() =~= seq![ls[1]]);
        assert(join_lines(ls.drop_last()) == ls[0]);
        assert(join_lines(ls.drop_first()) == ls[1]);
        assert(join_lines(ls) == join_lines(ls.drop_last()) + "\n"@ + ls.last());
        assert(join_lines(ls) =~= ls[0] + "\n"@ + join_lines(ls.drop_first()));
    } else {
        let dl = ls.drop_last();
        let df = ls.drop_first();
        lemma_join_front(dl);
        assert(dl[0] == ls[0]);
        assert(dl.drop_first() =~= df.drop_last());
        assert(df.last() == ls.last());
        assert(join_lines(df) == join_lines(df.drop_last()) + "\n"@ + df.last());
        assert(join_lines(ls) == join_lines(dl) + "\n"@ + ls.last());
        assert(join_lines(ls) =~= ls[0] + "\n"@ + join_lines(df));
    }
}

proof fn lemma_lines_cons(x: Seq<char>, y: Seq<char>)
    requires
        no_breaks(x),
    ensures
        lines_of(x + "\n"@ + y) == seq![x] + lines_of(y),
{
    reveal_strlit("\n");
    let s = x + "\n"@ + y;
    assert("\n"@ =~= seq!['\n']);
    lemma_line_len(s, x.len() as int);
    assert(s.take(x.len() as int) =~= x);
    assert(s.skip(x.len() + 1 as int) =~= y);
    if x.len() > 0 {
        assert(x.last() != '\r');
    }
    assert(strip_cr(x) == x);
}

proof fn lemma_lines_single(x: Seq<char>)
    requires
        no_breaks(x),
        x.len() > 0,
    ensures
        lines_of(x) == seq![x],
{
    lemma_line_len(x, x.len() as int);
}

proof fn lemma_join_no_final_newline(ls: Seq<Seq<char>>)
    requires
        ls.len() >= 1,
        forall|i: int| 0 <= i < ls.len() ==> no_breaks(#[trigger] ls[i]),
        ls.last().len() > 0,
    ensures
        lines_of(join_lines(ls)) == ls,
        join_lines(ls).len() > 0,
        !ends_with_newline(join_lines(ls)),
    decreases ls.len(),
{
    if ls.len() == 1 {
        assert(join_lines(ls) == ls[0]);
        lemma_lines_single(ls[0]);
        assert(no_breaks(ls[0]));
        assert(ls =~= seq![ls[0]]);
    } else {
        let rest = ls.drop_first();
        assert forall|i: int| 0 <= i < rest.len() implies no_breaks(#[trigger] rest[i]) by {
            assert(rest[i] == ls[i + 1]);
        }
        lemma_join_no_final_newline(rest);
        lemma_join_front(ls);
        assert(no_breaks(ls[0]));
        lemma_lines_cons(ls[0], join_lines(rest));
        assert(ls =~= seq![ls[0]] + rest);
        let j = join_lines(ls);
        assert(j.last() == join_lines(rest).last());
    }
}

proof fn lemma_join_final_newline(ls: Seq<Seq<char>>)
    requires
        ls.len() >= 1,
        forall|i: int| 0 <= i < ls.len() ==> no_breaks(#[trigger] ls[i]),
    ensures
        lines_of(join_lines(ls) + "\n"@) == ls,
    decreases ls.len(),
{
    if ls.len() == 1 {
        assert(join_lines(ls) == ls[0]);
        assert(no_breaks(ls[0]));
        lemma_lines_cons(ls[0], seq![]);
        assert(ls[0] + "\n"@ =~= ls[0] + "\n"@ + Seq::<char>::empty());
        assert(ls =~= seq![ls[0]]);
    } else {
        let rest = ls.drop_first();
        assert forall|i: int| 0 <= i < rest.len() implies no_breaks(#[trigger] rest[i]) by {
            assert(rest[i] == ls[i + 1]);
        }
        lemma_join_final_newline(rest);
        lemma_join_front(ls);
        assert(no_breaks(ls[0]));
        lemma_lines_cons(ls[0], join_lines(rest) + "\n"@);
        assert(join_lines(ls) + "\n"@ =~= ls[0] + "\n"@ + (join_lines(rest) + "\n"@));
        assert(ls =~= seq![ls[0]] + rest);
    }
}

/// A text without carriage returns.
pub open spec fn no_carriage_returns(s: Seq<char>) -> bool {
    forall|i: int| 0 <= i < s.len() ==> s[i] != '\r'
}

proof fn lemma_line_len_bound(s: Seq<char>)
    ensures
        line_len(s) <= s.len(),
        forall|k: int| 0 <= k < line_len(s) ==> s[k] != '\n',
        line_len(s) < s.len() ==> s[line_len(s) as int] == '\n',
    decreases s.len(),
{
    if s.len() > 0 && s[0] != '\n' {
        lemma_line_len_bound(s.drop_first());
        assert forall|k: int| 0 <= k < line_len(s) implies s[k] != '\n' by {
            if k > 0 {
                assert(s[k] == s.drop_first()[k - 1]);
            }
        }
    }
}

/// The lines of a text without carriage returns hold no line breaks; the
/// text has lines exactly when it is not empty, and its last line is not
/// empty when the text does not end with a line feed.
proof fn lemma_lines_shape(s: Seq<char>)
    requires
        no_carriage_returns(s),
    ensures
        forall|i: int| 0 <= i < lines_of(s).len() ==> no_breaks(#[trigger] lines_of(s)[i]),
        (lines_of(s).len() == 0) == (s.len() == 0),
        s.len() > 0 && !ends_with_newline(s) ==> lines_of(s).last().len() > 0,
    decreases s.len(),
{
    if s.len() > 0 {
        let n = line_len(s);
        lemma_line_len_bound(s);
        if n >= s.len() {
            assert(lines_of(s) == seq![s]);
            assert(no_breaks(s));
        } else {
            let head = strip_cr(s.take(n as int));
            let rest = s.skip(n + 1 as int);
            assert(no_carriage_returns(rest)) by {
                assert forall|i: int| 0 <= i < rest.len() implies rest[i] != '\r' by {
                    assert(rest[i] == s[i + n + 1]);
                }
            }
            lemma_lines_shape(rest);
            assert(head == s.take(n as int)) by {
                if n > 0 {
                    assert(s.take(n as int).last() == s[n - 1]);
                }
            }
            assert(no_breaks(head)) by {
                assert forall|i: int| 0 <= i < head.len() implies head[i] != '\n' && head[i] != '\r' by {
                    assert(head[i] == s[i]);
                }
            }
            let ls = lines_of(s);
            assert(ls == seq![head] + lines_of(rest));
            assert forall|i: int| 0 <= i < ls.len() implies no_breaks(#[trigger] ls[i]) by {
                if i > 0 {
                    assert(ls[i] == lines_of(rest)[i - 1]);
                }
            }
            if !ends_with_newline(s) {
                assert(rest.len() > 0);
                assert(rest.last() == s.last());
                assert(ls.last() == lines_of(rest).last());
            }
        }
    }
}

proof fn lemma_fix_line_shape(l: Seq<char>)
    requires
        no_breaks(l),
    ensures
        no_breaks(fix_passwd_line(l)),
        l.len() > 0 ==> fix_passwd_line(l).len() > 0,
{
    let f = fix_passwd_line(l);
    reveal_strlit("root:");
    reveal_strlit("root:x:");
    if has_prefix(l, "root:"@) {
        let rest = l.skip(5);
        let k = colon_len(rest);
        if k < rest.len() {
            let tail = rest.skip(k + 1 as int);
            assert(f == "root:x:"@ + tail);
            assert("root:x:"@ =~= seq!['r', 'o', 'o', 't', ':', 'x', ':']);
            assert forall|i: int| 0 <= i < f.len() implies f[i] != '\n' && f[i] != '\r' by {
                if i >= 7 {
                    assert(f[i] == tail[i - 7]);
                    assert(tail[i - 7] == rest[k + 1 + i - 7]);
                    assert(rest[k + 1 + i - 7] == l[5 + k + 1 + i - 7]);
                } else {
                    assert(f[i] == "root:x:"@[i]);
                }
            }
        }
    }
}

/// The rewritten passwd file has exactly the lines of the original, each
/// with its root entry fixed, and ends with a line feed exactly when the
/// original does; this holds of every file without carriage returns that
/// does not end in a blank line. (A file that does loses its blank last line,
/// as `str::lines` drops it.)
pub proof fn lemma_fixed_passwd_lines(content: Seq<char>)
    requires
        no_carriage_returns(content),
        lines_of(content).len() <= 1 || lines_of(content).last().len() > 0,
    ensures
        lines_of(fixed_passwd(content)) == lines_of(content).map_values(|l: Seq<char>| fix_passwd_line(l)),
        ends_with_newline(fixed_passwd(content)) == ends_with_newline(content),
{
    let ls = lines_of(content);
    let fs = ls.map_values(|l: Seq<char>| fix_passwd_line(l));
    lemma_lines_shape(content);
    if content.len() == 0 {
        assert(fs.len() == 0);
        assert(join_lines(fs) == Seq::<char>::empty());
        assert(fixed_passwd(content) == Seq::<char>::empty());
    } else {
        assert forall|i: int| 0 <= i < fs.len() implies no_breaks(#[trigger] fs[i]) by {
            assert(no_breaks(ls[i]));
            lemma_fix_line_shape(ls[i]);
        }
        let j = join_lines(fs);
        if ends_with_newline(content) {
            lemma_join_final_newline(fs);
            if fs.len() == 1 {
                assert(j == fs[0]);
                if j.len() > 0 {
                    assert(no_breaks(fs[0]));
                    assert(j.last() != '\n');
                }
            } else {
                assert(ls.last().len() > 0);
                assert(no_breaks(ls.last()));
                lemma_fix_line_shape(ls.last());
                assert(fs.last() == fix_passwd_line(ls.last()));
                lemma_join_no_final_newline(fs);
            }
            assert(!ends_with_newline(j));
            assert(fixed_passwd(content) == j + "\n"@);
            reveal_strlit("\n");
            assert((j + "\n"@).last() == '\n');
        } else {
            assert(no_breaks(ls.last()));
            lemma_fix_line_shape(ls.last());
            assert(fs.last() == fix_passwd_line(ls.last()));
            lemma_join_no_final_newline(fs);
            assert(fixed_passwd(content) == j);
        }
    }
}

/// Rewriting a passwd file twice gives what rewriting it once gives, for
/// every file without carriage returns that does not end in a blank line.
pub proof fn lemma_fix_passwd_idempotent(content: Seq<char>)
    requires
        no_carriage_returns(content),
        lines_of(content).len() <= 1 || lines_of(content).last().len() > 0,
    ensures
        fixed_passwd(fixed_passwd(content)) == fixed_passwd(content),
{
    let ls = lines_of(content);
    let fs = ls.map_values(|l: Seq<char>| fix_passwd_line(l));
    lemma_fixed_passwd_lines(content);
    let f = fixed_passwd(content);
    assert(lines_of(f) == fs);
    assert(fs.map_values(|l: Seq<char>| fix_passwd_line(l)) =~= fs) by {
        assert forall|i: int| 0 <= i < fs.len() implies #[trigger] fix_passwd_line(fs[i]) == fs[i] by {
            lemma_fix_passwd_line_idempotent(ls[i]);
        }
    }
}

/// A path inside the target: the target's mount point followed by `rel`.
pub fn target_path(rel: &str) -> (r: String)
    ensures
        r@ == TARGET_MNT@ + rel@,
{
    let mut s = TARGET_MNT.to_owned();
    push_str(&mut s, rel);
    s
}

pub open spec fn fstab_header() -> Seq<char> {
    "# Eclipse Linux fstab - generated by eclipse-install\n"@
}

/// `/etc/fstab`: the root filesystem by UUID, checked first at boot, and for
/// UEFI the EFI partition on `/boot/efi`, readable by root only.
pub open spec fn fstab_text(fs: Seq<char>, root_uuid: Seq<char>, efi_uuid: Option<Seq<char>>) -> Seq<char> {
    let root = fstab_header() + "UUID="@ + root_uuid + "    /         "@ + fs + "    defaults    0 1\n"@;
    match efi_uuid {
        Some(e) => root + "UUID="@ + e + "    /boot/efi vfat    defaults,umask=0077    0 2\n"@,
        None => root,
    }
}

/// `/etc/fstab` for the configuration: the root filesystem by `root_uuid`,
/// and the EFI partition by `efi_uuid` on a UEFI install only; the EFI UUID
/// is the one read from `config.efi_partition()`, which exists exactly for
/// UEFI.
pub fn fstab_content(config: &InstallConfig, root_uuid: &str, efi_uuid: Option<&str>) -> (r: String)
    ensures
        r@ == fstab_text(
            fs_name(config.fs_type),
            root_uuid@,
            if config.uefi {
                match efi_uuid {
                    Some(e) => Some(e@),
                    None => None,
                }
            } else {
                None
            },
        ),
{
    let mut s = "# Eclipse Linux fstab - generated by eclipse-install\n".to_owned();
    push_str(&mut s, "UUID=");
    push_str(&mut s, root_uuid);
    push_str(&mut s, "    /         ");
    push_str(&mut s, config.fs_type.as_str());
    push_str(&mut s, "    defaults    0 1\n");
    if !config.uefi {
        return s;
    }
    if let Some(e) = efi_uuid {
        push_str(&mut s, "UUID=");
        push_str(&mut s, e);
        push_str(&mut s, "    /boot/efi vfat    defaults,umask=0077    0 2\n");
    }
    s
}

/// `/etc/hostname`: the hostname on a line of its own.
pub fn hostname_content(config: &InstallConfig) -> (r: String)
    ensures
        r@ == config.hostname@ + "\n"@,
{
    let mut s = config.hostname.clone();
    push_str(&mut s, "\n");
    s
}

pub open spec fn hosts_text(hostname: Seq<char>) -> Seq<char> {
    "127.0.0.1   localhost\n::1         localhost\n127.0.1.1   "@ + hostname + "\n"@
}

/// `/etc/hosts`: localhost for IPv4 and IPv6, and the hostname on 127.0.1.1.
pub fn hosts_content(config: &InstallConfig) -> (r: String)
    ensures
        r@ == hosts_text(config.hostname@),
{
    let mut s = "127.0.0.1   localhost\n::1         localhost\n127.0.1.1   ".to_owned();
    push_str(&mut s, config.hostname.as_str());
    push_str(&mut s, "\n");
    s
}

/// `/etc/resolv.conf` of the installed system.
pub fn resolv_conf_content() -> (r: &'static str)
    ensures
        r@ == "nameserver 8.8.8.8\n"@,
{
    "nameserver 8.8.8.8\n"
}

/// The zoneinfo file `/etc/localtime` links to; none for UTC, which the
/// system uses when the link is absent.
pub open spec fn timezone_file(tz: Seq<char>) -> Option<Seq<char>> {
    if tz == "UTC"@ { None } else { Some("/usr/share/zoneinfo/"@ + tz) }
}

pub fn timezone_link_target(config: &InstallConfig) -> (r: Option<String>)
    ensures
        crate::config::opt_text(r) == timezone_file(config.timezone@),
{
    let utc = "UTC".to_owned();
    if config.timezone == utc {
        None
    } else {
        let mut s = "/usr/share/zoneinfo/".to_owned();
        push_str(&mut s, config.timezone.as_str());
        Some(s)
    }
}

/// The kernel version of the first `vmlinuz-<version>` regular file among
/// the entries of `/boot`, in the order they were read.
pub open spec fn first_kernel(names: Seq<Seq<char>>, is_file: Seq<bool>) -> Option<Seq<char>>
    decreases names.len(),
{
    if names.len() == 0 || is_file.len() == 0 {
        None
    } else if has_prefix(names[0], "vmlinuz-"@) && is_file[0] {
        Some(names[0].skip(8))
    } else {
        first_kernel(names.drop_first(), is_file.drop_first())
    }
}

pub open spec fn no_kernel_msg() -> Seq<char> {
    "Could not detect kernel version (no vmlinuz-* in /boot)"@
}

/// The installed kernel's version from the entries of the target's `/boot`.
/// A `/boot` that could not be read gives no entries.
pub fn detect_kernel_version(names: &Vec<String>, is_file: &Vec<bool>) -> (r: Result<String, String>)
    requires
        names@.len() == is_file@.len(),
    ensures
        match first_kernel(texts_view(names@), is_file@) {
            Some(v) => r matches Ok(k) && k@ == v,
            None => r matches Err(e) && e@ == no_kernel_msg(),
        },
{
    proof {
        reveal_strlit("vmlinuz-");
    }
    let mut i: usize = 0;
    assert(texts_view(names@).skip(0) =~= texts_view(names@));
    assert(is_file@.skip(0) =~= is_file@);
    while i < names.len()
        invariant
            i <= names@.len(),
            names@.len() == is_file@.len(),
            first_kernel(texts_view(names@), is_file@) == first_kernel(
                texts_view(names@).skip(i as int),
                is_file@.skip(i as int),
            ),
        decreases names@.len() - i,
    {
        assert(texts_view(names@).skip(i as int).drop_first() =~= texts_view(names@).skip(i + 1));
        assert(is_file@.skip(i as int).drop_first() =~= is_file@.skip(i + 1));
        assert(texts_view(names@).skip(i as int)[0] == names@[i as int]@);
        if starts_with(names[i].as_str(), "vmlinuz-") && is_file[i] {
            let v = to_chars(names[i].as_str());
            let n = v.len();
            proof {
                reveal_strlit("vmlinuz-");
            }
            assert("vmlinuz-"@.len() == 8);
            assert(n >= 8);
            let ver = from_chars(&v.as_slice()[8..n]);
            assert(v@.subrange(8, n as int) =~= names@[i as int]@.skip(8));
            return Ok(ver);
        }
        i = i + 1;
    }
    Err("Could not detect kernel version (no vmlinuz-* in /boot)".to_owned())
}

/// The directory for `grub.cfg`: `boot/grub2` when the target has it,
/// `boot/grub` otherwise.
pub fn grub_dir(grub2_exists: bool) -> (r: String)
    ensures
        r@ == TARGET_MNT@ + (if grub2_exists { "/boot/grub2"@ } else { "/boot/grub"@ }),
{
    if grub2_exists { target_path("/boot/grub2") } else { target_path("/boot/grub") }
}

/// One boot entry of `grub.cfg`; dynamod is PID 1 both in the initramfs
/// (`rdinit=`) and after the switch to the root filesystem (`init=`).
pub open spec fn grub_entry(title: Seq<char>, kver: Seq<char>, uuid: Seq<char>, fs: Seq<char>, extra: Seq<char>) -> Seq<char> {
    "menuentry \""@ + title + "\" {\n    linux /boot/vmlinuz-"@ + kver + " root=UUID="@ + uuid + " rootfstype="@ + fs
        + " rootwait rdinit=/sbin/dynamod-init init=/sbin/dynamod-init "@ + extra + "\n    initrd /boot/initramfs-"@
        + kver + ".gz\n}\n"@
}

/// `grub.cfg`: a five second menu with the normal, serial console and
/// recovery entries, the first as default.
pub open spec fn grub_cfg_text(kver: Seq<char>, uuid: Seq<char>, fs: Seq<char>) -> Seq<char> {
    "set timeout=5\nset default=0\n\n"@ + grub_entry("Eclipse Linux"@, kver, uuid, fs, "quiet"@) + "\n"@
        + grub_entry("Eclipse Linux (serial console)"@, kver, uuid, fs, "console=ttyS0,115200"@) + "\n"@
        + grub_entry("Eclipse Linux (recovery)"@, kver, uuid, fs, "single"@)
}

fn push_grub_entry(s: &mut String, title: &str, kver: &str, uuid: &str, fs: &str, extra: &str)
    ensures
        final(s)@ == old(s)@ + grub_entry(title@, kver@, uuid@, fs@, extra@),
{
    push_str(s, "menuentry \"");
    push_str(s, title);
    push_str(s, "\" {\n    linux /boot/vmlinuz-");
    push_str(s, kver);
    push_str(s, " root=UUID=");
    push_str(s, uuid);
    push_str(s, " rootfstype=");
    push_str(s, fs);
    push_str(s, " rootwait rdinit=/sbin/dynamod-init init=/sbin/dynamod-init ");
    push_str(s, extra);
    push_str(s, "\n    initrd /boot/initramfs-");
    push_str(s, kver);
    push_str(s, ".gz\n}\n");
    assert(final(s)@ =~= old(s)@ + grub_entry(title@, kver@, uuid@, fs@, extra@));
}

pub fn grub_cfg_content(config: &InstallConfig, kver: &str, root_uuid: &str) -> (r: String)
    ensures
        r@ == grub_cfg_text(kver@, root_uuid@, fs_name(config.fs_type)),
{
    let fs = config.fs_type.as_str();
    let mut s = "set timeout=5\nset default=0\n\n".to_owned();
    push_grub_entry(&mut s, "Eclipse Linux", kver, root_uuid, fs, "quiet");
    push_str(&mut s, "\n");
    push_grub_entry(&mut s, "Eclipse Linux (serial console)", kver, root_uuid, fs, "console=ttyS0,115200");
    push_str(&mut s, "\n");
    push_grub_entry(&mut s, "Eclipse Linux (recovery)", kver, root_uuid, fs, "single");
    assert(s@ =~= grub_cfg_text(kver@, root_uuid@, fs_name(config.fs_type)));
    s
}

pub open spec fn no_uuid_msg(partition: Seq<char>) -> Seq<char> {
    "Could not determine UUID for "@ + partition
}

/// The UUID `blkid -s UUID -o value <partition>` printed: its output
/// without surrounding white space, which must not be empty.
pub fn parse_uuid(stdout: &str, partition: &str) -> (r: Result<String, String>)
    ensures
        trim(stdout@).len() > 0 ==> (r matches Ok(u) && u@ == trim(stdout@)),
        trim(stdout@).len() == 0 ==> (r matches Err(e) && e@ == no_uuid_msg(partition@)),
{
    let uuid = trim_str(stdout);
    if uuid.as_str().is_empty() {
        let mut e = "Could not determine UUID for ".to_owned();
        push_str(&mut e, partition);
        Err(e)
    } else {
        Ok(uuid)
    }
}

/// The message a failed command is reported with: the program, its exit
/// code (-1 when it was killed by a signal) and its trimmed error output.
pub open spec fn failure_text(program: Seq<char>, code: Option<i32>, stderr: Seq<char>) -> Seq<char> {
    program + " failed (exit "@ + crate::text::int_text(
        match code {
            Some(c) => c as int,
            None => -1,
        },
    ) + "): "@ + trim(stderr)
}

pub fn command_failure_message(program: &str, code: Option<i32>, stderr: &str) -> (r: String)
    ensures
        r@ == failure_text(program@, code, stderr@),
{
    let mut s = program.to_owned();
    push_str(&mut s, " failed (exit ");
    let c: i32 = match code {
        Some(c) => c,
        None => -1,
    };
    crate::text::push_int(&mut s, c);
    push_str(&mut s, "): ");
    let t = trim_str(stderr);
    push_str(&mut s, t.as_str());
    s
}

} // verus!
