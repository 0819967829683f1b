//! What a screen shows: its box title and size, the key hints, and either
//! lines of text or a list with a highlighted row. Colours and borders are
//! left to the terminal front end; the tone of a line says which to use.

use vstd::prelude::*;
use crate::text::push_str;

verus! {

/// How a line is set off.
#[derive(Debug, Clone, Copy, PartialEq, Eq, Structural)]
pub enum Tone {
    Plain,
    /// A bold headline.
    Heading,
    /// A caution in yellow.
    Notice,
    /// A bold warning.
    Warning,
    /// A bold error.
    Error,
    /// A dimmed hint.
    Muted,
    /// A bold success message.
    Success,
    /// An entry field: shown behind a `> ` prompt.
    Entry,
}

#[derive(Debug)]
pub struct TextLine {
    pub tone: Tone,
    pub text: String,
}

#[derive(Debug)]
pub enum Body {
    /// Lines of text, centred or from the left.
    Text { centered: bool, lines: Vec<TextLine> },
    /// A list of items with a highlighted row.
    Choice { items: Vec<String>, selected: Option<usize> },
    /// A status line above a gauge filled to `percent` and labelled `label`.
    Gauge { status: String, percent: u16, label: String },
}

/// A screen: a box of `width` x `height` cells titled `title` in the middle
/// of the content area, and `footer` on the key hint line.
#[derive(Debug)]
pub struct ScreenText {
    pub title: &'static str,
    pub footer: &'static str,
    pub width: u16,
    pub height: u16,
    pub body: Body,
}

pub enum BodyModel {
    Text(bool, Seq<(Tone, Seq<char>)>),
    Choice(Seq<Seq<char>>, Option<usize>),
    Gauge(Seq<char>, nat, Seq<char>),
}

pub struct ScreenModel {
    pub title: Seq<char>,
    pub footer: Seq<char>,
    pub width: nat,
    pub height: nat,
    pub body: BodyModel,
}

pub open spec fn line_view(l: TextLine) -> (Tone, Seq<char>) {
    (l.tone, l.text@)
}

pub open spec fn lines_view(ls: Seq<TextLine>) -> Seq<(Tone, Seq<char>)> {
    ls.map_values(|l: TextLine| line_view(l))
}

pub open spec fn items_view(v: Seq<String>) -> Seq<Seq<char>> {
    v.map_values(|s: String| s@)
}

pub open spec fn body_view(b: Body) -> BodyModel {
    match b {
        Body::Text { centered, lines } => BodyModel::Text(centered, lines_view(lines@)),
        Body::Choice { items, selected } => BodyModel::Choice(items_view(items@), selected),
        Body::Gauge { status, percent, label } => BodyModel::Gauge(status@, percent as nat, label@),
    }
}

pub open spec fn screen_view(s: ScreenText) -> ScreenModel {
    ScreenModel {
        title: s.title@,
        footer: s.footer@,
        width: s.width as nat,
        height: s.height as nat,
        body: body_view(s.body),
    }
}

/// An empty line.
pub open spec fn blank() -> (Tone, Seq<char>) {
    (Tone::Plain, seq![])
}

pub open spec fn plain(s: Seq<char>) -> (Tone, Seq<char>) {
    (Tone::Plain, s)
}

/// The length in bytes of a text's UTF-8 encoding, as `str::len` gives it.
pub open spec fn byte_len(s: Seq<char>) -> nat {
    (vstd::utf8::encode_utf8(s).len() as usize) as nat
}

/// A password entry shown as one `*` per byte typed, then the cursor `_`.
pub open spec fn masked(n: nat) -> Seq<char> {
    Seq::new(n, |i: int| '*') + "_"@
}

/// A list row: the item indented by two spaces.
pub open spec fn list_row(s: Seq<char>) -> Seq<char> {
    "  "@ + s
}

pub fn masked_text(n: usize) -> (r: String)
    ensures
        r@ == masked(n as nat),
{
    let mut s = String::new();
    let mut i: usize = 0;
    while i < n
        invariant
            i <= n,
            s@ == Seq::new(i as nat, |k: int| '*'),
        decreases n - i,
    {
        crate::text::push_char(&mut s, '*');
        i = i + 1;
        assert(s@ =~= Seq::new(i as nat, |k: int| '*'));
    }
    push_str(&mut s, "_");
    s
}

/// Appends a line.
pub fn push_line(v: &mut Vec<TextLine>, tone: Tone, text: String)
    ensures
        lines_view(final(v)@) == lines_view(old(v)@).push((tone, text@)),
{
    let ghost t = text@;
    v.push(TextLine { tone, text });
    assert(lines_view(final(v)@) =~= lines_view(old(v)@).push((tone, t)));
}

/// Appends a line with a fixed text.
pub fn push_fixed(v: &mut Vec<TextLine>, tone: Tone, text: &str)
    ensures
        lines_view(final(v)@) == lines_view(old(v)@).push((tone, text@)),
{
    push_line(v, tone, text.to_owned());
}

/// Appends an empty line.
pub fn push_blank(v: &mut Vec<TextLine>)
    ensures
        lines_view(final(v)@) == lines_view(old(v)@).push(blank()),
{
    push_line(v, Tone::Plain, String::new());
}

/// The rows of a list: each item indented by two spaces.
pub fn list_rows(items: &Vec<String>) -> (r: Vec<String>)
    ensures
        items_view(r@) == items_view(items@).map_values(|s: Seq<char>| list_row(s)),
{
    let mut r: Vec<String> = Vec::new();
    let mut i: usize = 0;
    while i < items.len()
        invariant
            i <= items@.len(),
            items_view(r@) == items_view(items@).subrange(0, i as int).map_values(|s: Seq<char>| list_row(s)),
        decreases items@.len() - i,
    {
        let mut row = "  ".to_owned();
        push_str(&mut row, items[i].as_str());
        let ghost before = items_view(r@);
        r.push(row);
        assert(items_view(r@) =~= before.push(list_row(items@[i as int]@)));
        i = i + 1;
        assert(items_view(r@) =~= items_view(items@).subrange(0, i as int).map_values(|s: Seq<char>| list_row(s)));
    }
    assert(items_view(items@).subrange(0, items@.len() as int) =~= items_view(items@));
    r
}

} // verus!
