//! Disk selection screen: the block devices under `/sys/block` that can take
//! the installation.

use vstd::prelude::*;
use super::{Key, StepResult};
use super::list::{list_down, list_up, select_down, select_up};
use super::display::{Body, BodyModel, ScreenModel, ScreenText, Tone, TextLine, blank, items_view, lines_view, list_row, list_rows, plain, push_blank, push_fixed, screen_view};
use crate::config::disk_line;
use crate::config::DiskInfo;
use crate::sort::texts_view;
use crate::target_files::{lines_of, split_lines};
use crate::text::{
    from_chars, has_prefix, is_ws, is_ws_char, lemma_trim_start_skip, parse_u64, parse_u64_str, push_str,
    squeeze_double_spaces, squeeze_double_spaces_str, starts_with, to_chars, trim, trim_start, trim_str,
};

verus! {

/// What the scan learned of one entry of `/sys/block`.
pub struct BlockEntry {
    /// The entry's name, such as `sda`.
    pub name: String,
    /// `/dev/<name>` exists.
    pub dev_exists: bool,
    /// The text of `/sys/block/<name>/size`, when it could be read.
    pub size_text: Option<String>,
    /// The text of `/sys/block/<name>/device/model`, when it could be read.
    pub model_text: Option<String>,
}

/// Device name prefixes, in the order the list shows them.
pub open spec fn disk_patterns() -> Seq<Seq<char>> {
    seq!["sd"@, "vd"@, "nvme"@]
}

pub open spec fn dev_path_of(name: Seq<char>) -> Seq<char> {
    "/dev/"@ + name
}

/// Some mounted device path begins with `dev` (the disk or one of its partitions).
pub open spec fn is_mounted(dev: Seq<char>, mounted: Seq<Seq<char>>) -> bool {
    exists|i: int| 0 <= i < mounted.len() && has_prefix(#[trigger] mounted[i], dev)
}

/// Size in 512-byte sectors; 0 when the size file is missing or not a number.
pub open spec fn sectors_of(e: BlockEntry) -> nat {
    match e.size_text {
        Some(t) => match parse_u64(trim(t@)) {
            Some(v) => v as nat,
            None => 0,
        },
        None => 0,
    }
}

/// Whole gibibytes of the disk.
pub open spec fn size_gb_of(e: BlockEntry) -> nat {
    (sectors_of(e) * 512) / 1073741824
}

/// The model name shown, "Unknown" when there is none.
pub open spec fn model_of(e: BlockEntry) -> Seq<char> {
    let m = squeeze_double_spaces(
        trim(
            match e.model_text {
                Some(t) => t@,
                None => "Unknown"@,
            },
        ),
    );
    if m.len() == 0 { "Unknown"@ } else { m }
}

/// The entry has the prefix, exists under `/dev` and is not in use.
pub open spec fn passes_device_checks(pat: Seq<char>, e: BlockEntry, mounted: Seq<Seq<char>>) -> bool {
    &&& has_prefix(e.name@, pat)
    &&& e.dev_exists
    &&& !is_mounted(dev_path_of(e.name@), mounted)
}

/// The entry is offered: it passes the device checks and holds at least 1 GiB.
pub open spec fn disk_offered(pat: Seq<char>, e: BlockEntry, mounted: Seq<Seq<char>>) -> bool {
    passes_device_checks(pat, e, mounted) && size_gb_of(e) >= 1
}

/// A disk as (path, size in GiB, model).
pub open spec fn disk_of(e: BlockEntry) -> (Seq<char>, nat, Seq<char>) {
    (dev_path_of(e.name@), size_gb_of(e), model_of(e))
}

/// The disks offered for one prefix, in the order of the entries.
pub open spec fn disks_for(pat: Seq<char>, es: Seq<BlockEntry>, mounted: Seq<Seq<char>>) -> Seq<(Seq<char>, nat, Seq<char>)>
    decreases es.len(),
{
    if es.len() == 0 {
        seq![]
    } else {
        let rest = disks_for(pat, es.drop_last(), mounted);
        if disk_offered(pat, es.last(), mounted) {
            rest.push(disk_of(es.last()))
        } else {
            rest
        }
    }
}

/// All disks offered: first the `sd` devices, then `vd`, then `nvme`.
pub open spec fn disk_scan(es: Seq<BlockEntry>, mounted: Seq<Seq<char>>) -> Seq<(Seq<char>, nat, Seq<char>)> {
    disks_for(disk_patterns()[0], es, mounted) + disks_for(disk_patterns()[1], es, mounted) + disks_for(
        disk_patterns()[2],
        es,
        mounted,
    )
}

proof fn lemma_disks_for_safe(pat: Seq<char>, es: Seq<BlockEntry>, mounted: Seq<Seq<char>>)
    ensures
        forall|i: int| 0 <= i < disks_for(pat, es, mounted).len() ==> {
            let d = #[trigger] disks_for(pat, es, mounted)[i];
            &&& !is_mounted(d.0, mounted)
            &&& d.1 >= 1
            &&& has_prefix(d.0, "/dev/"@ + pat)
        },
    decreases es.len(),
{
    reveal_strlit("/dev/");
    if es.len() > 0 {
        lemma_disks_for_safe(pat, es.drop_last(), mounted);
        let rest = disks_for(pat, es.drop_last(), mounted);
        let all = disks_for(pat, es, mounted);
        let e = es.last();
        if disk_offered(pat, e, mounted) {
            let d = disk_of(e);
            assert(d.0 == "/dev/"@ + e.name@);
            assert(has_prefix(e.name@, pat));
            assert(d.0.subrange(0, 5 + pat.len() as int) =~= "/dev/"@ + pat) by {
                reveal_strlit("/dev/");
                assert(e.name@.subrange(0, pat.len() as int) == pat);
            }
            assert(all == rest.push(d));
        } else {
            assert(all == rest);
        }
        assert forall|i: int| 0 <= i < all.len() implies {
            let d = #[trigger] all[i];
            &&& !is_mounted(d.0, mounted)
            &&& d.1 >= 1
            &&& has_prefix(d.0, "/dev/"@ + pat)
        } by {
            if i < rest.len() {
                assert(all[i] == rest[i]);
            } else {
                let d = disk_of(e);
                assert(all[i] == d);
                assert(d.0.subrange(0, 5 + pat.len() as int) =~= "/dev/"@ + pat);
                assert(("/dev/"@ + pat).len() <= d.0.len());
            }
        }
    }
}

/// Only disks that are safe to wipe are offered: each listed disk is a
/// `/dev/sd*`, `/dev/vd*` or `/dev/nvme*` device, holds at least 1 GiB, and
/// neither it nor any of its partitions is mounted.
pub proof fn lemma_offered_disks_safe(es: Seq<BlockEntry>, mounted: Seq<Seq<char>>)
    ensures
        forall|i: int| 0 <= i < disk_scan(es, mounted).len() ==> {
            let d = #[trigger] disk_scan(es, mounted)[i];
            &&& !is_mounted(d.0, mounted)
            &&& d.1 >= 1
            &&& (has_prefix(d.0, "/dev/sd"@) || has_prefix(d.0, "/dev/vd"@) || has_prefix(d.0, "/dev/nvme"@))
        },
{
    let p = disk_patterns();
    lemma_disks_for_safe(p[0], es, mounted);
    lemma_disks_for_safe(p[1], es, mounted);
    lemma_disks_for_safe(p[2], es, mounted);
    reveal_strlit("/dev/");
    reveal_strlit("/dev/sd");
    reveal_strlit("/dev/vd");
    reveal_strlit("/dev/nvme");
    reveal_strlit("sd");
    reveal_strlit("vd");
    reveal_strlit("nvme");
    assert("/dev/"@ + p[0] =~= "/dev/sd"@);
    assert("/dev/"@ + p[1] =~= "/dev/vd"@);
    assert("/dev/"@ + p[2] =~= "/dev/nvme"@);
    let a = disks_for(p[0], es, mounted);
    let b = disks_for(p[1], es, mounted);
    let c = disks_for(p[2], es, mounted);
    assert forall|i: int| 0 <= i < disk_scan(es, mounted).len() implies {
        let d = #[trigger] disk_scan(es, mounted)[i];
        &&& !is_mounted(d.0, mounted)
        &&& d.1 >= 1
        &&& (has_prefix(d.0, "/dev/sd"@) || has_prefix(d.0, "/dev/vd"@) || has_prefix(d.0, "/dev/nvme"@))
    } by {
        assert(disk_scan(es, mounted) == a + b + c);
        if i < a.len() {
            assert(disk_scan(es, mounted)[i] == a[i]);
        } else if i < a.len() + b.len() {
            assert(disk_scan(es, mounted)[i] == b[i - a.len()]);
        } else {
            assert(disk_scan(es, mounted)[i] == c[i - a.len() - b.len()]);
        }
    }
}

/// The byte size, in sectors times 512, fits in 64 bits for each entry whose
/// size is computed.
pub open spec fn sizes_fit(es: Seq<BlockEntry>, mounted: Seq<Seq<char>>) -> bool {
    forall|i: int|
        0 <= i < es.len() && (passes_device_checks(disk_patterns()[0], #[trigger] es[i], mounted)
            || passes_device_checks(disk_patterns()[1], es[i], mounted)
            || passes_device_checks(disk_patterns()[2], es[i], mounted))
            ==> sectors_of(es[i]) * 512 <= u64::MAX
}

pub open spec fn disk_view(d: DiskInfo) -> (Seq<char>, nat, Seq<char>) {
    (d.path@, d.size_gb as nat, d.model@)
}

pub open spec fn strings_view(v: Seq<String>) -> Seq<Seq<char>> {
    v.map_values(|s: String| s@)
}

fn mounted_under(dev: &str, mounted: &Vec<String>) -> (b: bool)
    ensures
        b == is_mounted(dev@, strings_view(mounted@)),
{
    let mut i: usize = 0;
    while i < mounted.len()
        invariant
            i <= mounted@.len(),
            forall|j: int| 0 <= j < i ==> !has_prefix(#[trigger] strings_view(mounted@)[j], dev@),
        decreases mounted@.len() - i,
    {
        if starts_with(mounted[i].as_str(), dev) {
            assert(has_prefix(strings_view(mounted@)[i as int], dev@));
            return true;
        }
        i = i + 1;
    }
    false
}

fn read_sectors(e: &BlockEntry) -> (r: u64)
    ensures
        r as nat == sectors_of(*e),
{
    match &e.size_text {
        Some(t) => {
            let tt = trim_str(t.as_str());
            match parse_u64_str(tt.as_str()) {
                Some(v) => v,
                None => 0,
            }
        },
        None => 0,
    }
}

fn read_model(e: &BlockEntry) -> (r: String)
    ensures
        r@ == model_of(*e),
{
    let raw = match &e.model_text {
        Some(t) => trim_str(t.as_str()),
        None => trim_str("Unknown"),
    };
    let m = squeeze_double_spaces_str(raw.as_str());
    if m.as_str().is_empty() {
        "Unknown".to_owned()
    } else {
        m
    }
}

fn collect_for_pattern(pat: &str, entries: &Vec<BlockEntry>, mounted: &Vec<String>, out: &mut Vec<DiskInfo>)
    requires
        forall|i: int| 0 <= i < entries@.len() && passes_device_checks(pat@, #[trigger] entries@[i], strings_view(mounted@))
            ==> sectors_of(entries@[i]) * 512 <= u64::MAX,
    ensures
        final(out)@.map_values(|d: DiskInfo| disk_view(d)) == old(out)@.map_values(|d: DiskInfo| disk_view(d))
            + disks_for(pat@, entries@, strings_view(mounted@)),
{
    let ghost ms = strings_view(mounted@);
    let ghost start = old(out)@.map_values(|d: DiskInfo| disk_view(d));
    let mut i: usize = 0;
    assert(entries@.subrange(0, 0) =~= Seq::<BlockEntry>::empty());
    assert(start + disks_for(pat@, entries@.subrange(0, 0), ms) =~= start);
    while i < entries.len()
        invariant
            i <= entries@.len(),
            ms == strings_view(mounted@),
            start == old(out)@.map_values(|d: DiskInfo| disk_view(d)),
            forall|j: int| 0 <= j < entries@.len() && passes_device_checks(pat@, #[trigger] entries@[j], ms)
                ==> sectors_of(entries@[j]) * 512 <= u64::MAX,
            out@.map_values(|d: DiskInfo| disk_view(d)) == start + disks_for(pat@, entries@.subrange(0, i as int), ms),
        decreases entries@.len() - i,
    {
        let e = &entries[i];
        let ghost before = out@.map_values(|d: DiskInfo| disk_view(d));
        assert(entries@.subrange(0, i + 1).drop_last() =~= entries@.subrange(0, i as int));
        assert(entries@.subrange(0, i + 1).last() == entries@[i as int]);
        if starts_with(e.name.as_str(), pat) && e.dev_exists {
            let mut dev_path = "/dev/".to_owned();
            push_str(&mut dev_path, e.name.as_str());
            if !mounted_under(dev_path.as_str(), mounted) {
                let sectors = read_sectors(e);
                let size_gb = sectors * 512 / 1073741824;
                if size_gb >= 1 {
                    let model = read_model(e);
                    out.push(DiskInfo { path: dev_path, size_gb, model });
                    assert(out@.map_values(|d: DiskInfo| disk_view(d)) =~= before.push(disk_of(entries@[i as int])));
                }
            }
        }
        i = i + 1;
        assert(out@.map_values(|d: DiskInfo| disk_view(d)) =~= start + disks_for(pat@, entries@.subrange(0, i as int), ms));
    }
    assert(entries@.subrange(0, i as int) =~= entries@);
}

/// Whether the scan can compute every size it needs without overflow, as
/// `scan_block_entries` requires.
pub fn scan_sizes_fit(entries: &Vec<BlockEntry>, mounted: &Vec<String>) -> (b: bool)
    ensures
        b == sizes_fit(entries@, strings_view(mounted@)),
{
    let ghost ms = strings_view(mounted@);
    let mut i: usize = 0;
    while i < entries.len()
        invariant
            i <= entries@.len(),
            ms == strings_view(mounted@),
            forall|j: int|
                0 <= j < i && (passes_device_checks(disk_patterns()[0], #[trigger] entries@[j], ms)
                    || passes_device_checks(disk_patterns()[1], entries@[j], ms)
                    || passes_device_checks(disk_patterns()[2], entries@[j], ms))
                    ==> sectors_of(entries@[j]) * 512 <= u64::MAX,
        decreases entries@.len() - i,
    {
        let e = &entries[i];
        let pats: [&str; 3] = ["sd", "vd", "nvme"];
        proof {
            reveal_strlit("sd");
            reveal_strlit("vd");
            reveal_strlit("nvme");
            assert(pats@[0]@ == disk_patterns()[0]);
            assert(pats@[1]@ == disk_patterns()[1]);
            assert(pats@[2]@ == disk_patterns()[2]);
        }
        let mut dev_path = "/dev/".to_owned();
        push_str(&mut dev_path, e.name.as_str());
        let checked = e.dev_exists && !mounted_under(dev_path.as_str(), mounted)
            && (starts_with(e.name.as_str(), pats[0]) || starts_with(e.name.as_str(), pats[1])
            || starts_with(e.name.as_str(), pats[2]));
        if checked {
            let sectors = read_sectors(e);
            if sectors > u64::MAX / 512 {
                return false;
            }
        }
        i = i + 1;
    }
    true
}

/// The disks the scan offers for the given `/sys/block` entries and mounted
/// device paths.
pub fn scan_block_entries(entries: &Vec<BlockEntry>, mounted: &Vec<String>) -> (r: Vec<DiskInfo>)
    requires
        sizes_fit(entries@, strings_view(mounted@)),
    ensures
        r@.map_values(|d: DiskInfo| disk_view(d)) == disk_scan(entries@, strings_view(mounted@)),
{
    let mut out: Vec<DiskInfo> = Vec::new();
    let pats: [&str; 3] = ["sd", "vd", "nvme"];
    proof {
        reveal_strlit("sd");
        reveal_strlit("vd");
        reveal_strlit("nvme");
        assert(pats@[0]@ == disk_patterns()[0]);
        assert(pats@[1]@ == disk_patterns()[1]);
        assert(pats@[2]@ == disk_patterns()[2]);
        assert(out@.map_values(|d: DiskInfo| disk_view(d)) =~= Seq::<(Seq<char>, nat, Seq<char>)>::empty());
    }
    assert forall|i: int| 0 <= i < entries@.len() && passes_device_checks(disk_patterns()[0], #[trigger] entries@[i], strings_view(mounted@))
        implies sectors_of(entries@[i]) * 512 <= u64::MAX by {}
    collect_for_pattern(pats[0], entries, mounted, &mut out);
    assert forall|i: int| 0 <= i < entries@.len() && passes_device_checks(disk_patterns()[1], #[trigger] entries@[i], strings_view(mounted@))
        implies sectors_of(entries@[i]) * 512 <= u64::MAX by {}
    collect_for_pattern(pats[1], entries, mounted, &mut out);
    assert forall|i: int| 0 <= i < entries@.len() && passes_device_checks(disk_patterns()[2], #[trigger] entries@[i], strings_view(mounted@))
        implies sectors_of(entries@[i]) * 512 <= u64::MAX by {}
    collect_for_pattern(pats[2], entries, mounted, &mut out);
    assert(out@.map_values(|d: DiskInfo| disk_view(d)) =~= disk_scan(entries@, strings_view(mounted@)));
    out
}


/// Characters before the first white space.
pub open spec fn word_len(s: Seq<char>) -> nat
    decreases s.len(),
{
    if s.len() == 0 || is_ws(s[0]) {
        0
    } else {
        1 + word_len(s.drop_first())
    }
}

/// The first white-space-separated word of a line, as
/// `split_whitespace().next()` gives it.
pub open spec fn first_word(s: Seq<char>) -> Option<Seq<char>> {
    let t = trim_start(s);
    if t.len() == 0 {
        None
    } else {
        Some(t.take(word_len(t) as int))
    }
}

/// The device paths named by lines of `mount` output: the first word of each
/// line, where it starts with `/dev/`, in the order of the lines.
pub open spec fn mounted_in(lines: Seq<Seq<char>>) -> Seq<Seq<char>>
    decreases lines.len(),
{
    if lines.len() == 0 {
        seq![]
    } else {
        let rest = mounted_in(lines.drop_last());
        match first_word(lines.last()) {
            Some(w) => if has_prefix(w, "/dev/"@) { rest.push(w) } else { rest },
            None => rest,
        }
    }
}

proof fn lemma_word_len(t: Seq<char>, n: int)
    requires
        0 <= n <= t.len(),
        forall|k: int| 0 <= k < n ==> !is_ws(t[k]),
        n == t.len() || is_ws(t[n]),
    ensures
        word_len(t) == n,
    decreases n,
{
    if n > 0 {
        lemma_word_len(t.drop_first(), n - 1);
    }
}

fn first_word_of(line: &str) -> (r: Option<String>)
    ensures
        crate::config::opt_text(r) == first_word(line@),
{
    let v = to_chars(line);
    let n = v.len();
    let mut a: usize = 0;
    assert(v@.subrange(0, n as int) =~= v@);
    while a < n && is_ws_char(v[a])
        invariant
            v@ == line@,
            n == v@.len(),
            a <= n,
            trim_start(v@) == trim_start(v@.subrange(a as int, n as int)),
        decreases n - a,
    {
        proof {
            lemma_trim_start_skip(v@, a as int);
        }
        a = a + 1;
    }
    let ghost t = v@.subrange(a as int, n as int);
    assert(trim_start(t) == t);
    if a == n {
        return None;
    }
    let mut b: usize = a;
    while b < n && !is_ws_char(v[b])
        invariant
            a <= b <= n,
            n == v@.len(),
            forall|k: int| a <= k < b ==> !is_ws(v@[k]),
        decreases n - b,
    {
        b = b + 1;
    }
    proof {
        lemma_word_len(t, (b - a) as int);
        assert(t.take((b - a) as int) =~= v@.subrange(a as int, b as int));
    }
    Some(from_chars(&v.as_slice()[a..b]))
}

/// The mounted device paths listed in the output of `mount`.
pub fn mounted_devices(mount_stdout: &str) -> (r: Vec<String>)
    ensures
        texts_view(r@) == mounted_in(lines_of(mount_stdout@)),
{
    let lines = split_lines(mount_stdout);
    let ghost ls = texts_view(lines@);
    let mut r: Vec<String> = Vec::new();
    let mut i: usize = 0;
    while i < lines.len()
        invariant
            i <= lines@.len(),
            ls == texts_view(lines@),
            texts_view(r@) == mounted_in(ls.subrange(0, i as int)),
        decreases lines@.len() - i,
    {
        let ghost prefix = ls.subrange(0, i + 1);
        assert(prefix.drop_last() =~= ls.subrange(0, i as int));
        let ghost before = texts_view(r@);
        match first_word_of(lines[i].as_str()) {
            Some(w) => {
                if starts_with(w.as_str(), "/dev/") {
                    r.push(w);
                    assert(texts_view(r@) =~= before.push(r@.last()@));
                }
            },
            None => {},
        }
        i = i + 1;
    }
    assert(ls.subrange(0, lines@.len() as int) =~= ls);
    r
}

pub struct DiskScreen {
    disks: Vec<DiskInfo>,
    selected: Option<usize>,
    scanned: bool,
}

/// The disk list, the highlighted row and whether a scan has run.
pub struct DiskModel {
    pub disks: Seq<DiskInfo>,
    pub selected: Option<usize>,
    pub scanned: bool,
}

impl View for DiskScreen {
    type V = DiskModel;

    closed spec fn view(&self) -> DiskModel {
        DiskModel { disks: self.disks@, selected: self.selected, scanned: self.scanned }
    }
}

/// The highlighted row can still move down one row.
pub open spec fn disk_screen_wf(m: DiskModel) -> bool {
    m.selected matches Some(i) ==> i < usize::MAX
}

/// The disk under the highlight, if the highlight is on a listed disk.
pub open spec fn selected_disk_of(m: DiskModel) -> Option<DiskInfo> {
    match m.selected {
        Some(i) => if i < m.disks.len() { Some(m.disks[i as int]) } else { None },
        None => None,
    }
}

/// One key press on the disk screen: Up and Down move the highlight, Enter
/// goes on only when a disk is highlighted in a non-empty list, Esc goes back.
pub open spec fn disk_step(m: DiskModel, key: Key) -> (DiskModel, StepResult) {
    match key {
        Key::Up => (DiskModel { selected: list_up(m.selected), ..m }, StepResult::Continue),
        Key::Down => (DiskModel { selected: list_down(m.selected, m.disks.len()), ..m }, StepResult::Continue),
        Key::Enter => if m.selected is Some && m.disks.len() > 0 {
            (m, StepResult::Next)
        } else {
            (m, StepResult::Continue)
        },
        Key::Esc => (m, StepResult::Back),
        _ => (m, StepResult::Continue),
    }
}

/// The disk list: each disk as its path, size and model; a message when no
/// disk qualifies.
pub open spec fn disk_screen(m: DiskModel) -> ScreenModel {
    ScreenModel {
        title: "Select Disk"@,
        footer: " [Up/Down] Select  [Enter] Confirm  [Esc] Back "@,
        width: 70,
        height: 20,
        body: if m.disks.len() == 0 {
            BodyModel::Text(
                true,
                seq![blank(), (Tone::Error, "No suitable disks found."@), blank(), plain("Press Esc to go back."@)],
            )
        } else {
            BodyModel::Choice(
                m.disks.map_values(|d: DiskInfo| list_row(disk_line(d.path@, d.size_gb as nat, d.model@))),
                m.selected,
            )
        },
    }
}

impl DiskScreen {
    pub fn text(&self) -> (r: ScreenText)
        ensures
            screen_view(r) == disk_screen(self@),
    {
        let title = "Select Disk";
        let footer = " [Up/Down] Select  [Enter] Confirm  [Esc] Back ";
        if self.disks.len() == 0 {
            let mut lines: Vec<TextLine> = Vec::new();
            push_blank(&mut lines);
            push_fixed(&mut lines, Tone::Error, "No suitable disks found.");
            push_blank(&mut lines);
            push_fixed(&mut lines, Tone::Plain, "Press Esc to go back.");
            let ghost lv = lines_view(lines@);
            assert(lv =~= match disk_screen(self@).body { BodyModel::Text(_, l) => l, _ => seq![] });
            return ScreenText { title, footer, width: 70, height: 20, body: Body::Text { centered: true, lines } };
        }
        let mut names: Vec<String> = Vec::new();
        let mut i: usize = 0;
        while i < self.disks.len()
            invariant
                i <= self.disks@.len(),
                items_view(names@) == self.disks@.subrange(0, i as int).map_values(
                    |d: DiskInfo| disk_line(d.path@, d.size_gb as nat, d.model@),
                ),
            decreases self.disks@.len() - i,
        {
            let ghost before = items_view(names@);
            let line = self.disks[i].to_display_string();
            let ghost lv = line@;
            names.push(line);
            assert(items_view(names@) =~= before.push(lv));
            i = i + 1;
            assert(items_view(names@) =~= self.disks@.subrange(0, i as int).map_values(
                |d: DiskInfo| disk_line(d.path@, d.size_gb as nat, d.model@),
            ));
        }
        let items = list_rows(&names);
        assert(self.disks@.subrange(0, self.disks@.len() as int) =~= self.disks@);
        let ghost iv = items_view(items@);
        assert(iv =~= match disk_screen(self@).body { BodyModel::Choice(l, _) => l, _ => seq![] });
        ScreenText { title, footer, width: 70, height: 20, body: Body::Choice { items, selected: self.selected } }
    }

    pub closed spec fn wf(&self) -> bool {
        disk_screen_wf(self@)
    }

    pub fn new() -> (s: Self)
        ensures
            s.wf(),
            s@.disks.len() == 0,
            s@.selected is None,
            !s@.scanned,
    {
        Self { disks: Vec::new(), selected: None, scanned: false }
    }

    pub fn selected_disk(&self) -> (r: Option<&DiskInfo>)
        ensures
            (match r { Some(d) => Some(*d), None => None }) == selected_disk_of(self@),
    {
        match self.selected {
            Some(i) => if i < self.disks.len() { Some(&self.disks[i]) } else { None },
            None => None,
        }
    }

    /// The screen has to scan before it is drawn.
    pub fn needs_scan(&self) -> (b: bool)
        ensures
            b == !self@.scanned,
    {
        !self.scanned
    }

    /// Replaces the list with the disks a scan found; the first is
    /// highlighted when there is one.
    pub fn set_disks(&mut self, disks: Vec<DiskInfo>)
        requires
            old(self).wf(),
        ensures
            final(self).wf(),
            final(self)@.disks == disks@,
            final(self)@.scanned,
            disks@.len() > 0 ==> final(self)@.selected == Some(0usize),
            disks@.len() == 0 ==> final(self)@.selected == old(self)@.selected,
    {
        let nonempty = disks.len() > 0;
        self.disks = disks;
        if nonempty {
            self.selected = Some(0);
        }
        self.scanned = true;
    }

    /// Runs the scan on what was read of `/sys/block` and the mounted devices.
    pub fn scan_disks(&mut self, entries: &Vec<BlockEntry>, mounted: &Vec<String>)
        requires
            old(self).wf(),
            sizes_fit(entries@, strings_view(mounted@)),
        ensures
            final(self).wf(),
            final(self)@.disks.map_values(|d: DiskInfo| disk_view(d)) == disk_scan(entries@, strings_view(mounted@)),
            final(self)@.scanned,
            final(self)@.disks.len() > 0 ==> final(self)@.selected == Some(0usize),
            final(self)@.disks.len() == 0 ==> final(self)@.selected == old(self)@.selected,
    {
        let disks = scan_block_entries(entries, mounted);
        self.set_disks(disks);
    }

    /// Force a rescan next time the screen is drawn.
    pub fn invalidate(&mut self)
        ensures
            final(self)@ == (DiskModel { scanned: false, ..old(self)@ }),
    {
        self.scanned = false;
    }

    /// The disks listed.
    pub fn disks(&self) -> (r: &Vec<DiskInfo>)
        ensures
            r@ == self@.disks,
    {
        &self.disks
    }

    /// The highlighted row.
    pub fn selected_index(&self) -> (r: Option<usize>)
        ensures
            r == self@.selected,
    {
        self.selected
    }

    pub fn handle_input(&mut self, key: Key) -> (r: StepResult)
        requires
            old(self).wf(),
        ensures
            final(self).wf(),
            (final(self)@, r) == disk_step(old(self)@, key),
            key == Key::Up || key == Key::Down ==> r == StepResult::Continue && final(self)@.disks == old(self)@.disks
                && final(self)@.scanned == old(self)@.scanned,
            old(self)@.selected matches Some(i) ==> (key == Key::Up ==> final(self)@.selected == Some(
                (if i > 0 { i - 1 } else { i as int }) as usize)),
            old(self)@.selected matches Some(i) ==> (key == Key::Down ==> final(self)@.selected == Some(
                (if i + 1 < old(self)@.disks.len() { i + 1 } else { i as int }) as usize)),
            old(self)@.selected is None && (key == Key::Up || key == Key::Down) ==> final(self)@.selected is None,
    {
        match key {
            Key::Up => {
                self.selected = select_up(self.selected);
                StepResult::Continue
            },
            Key::Down => {
                self.selected = select_down(self.selected, self.disks.len());
                StepResult::Continue
            },
            Key::Enter => {
                if self.selected.is_some() && self.disks.len() > 0 {
                    StepResult::Next
                } else {
                    StepResult::Continue
                }
            },
            Key::Esc => StepResult::Back,
            _ => StepResult::Continue,
        }
    }
}

} // verus!
