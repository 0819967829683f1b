//! Hostname input screen: the default is "eclipse", and an empty entry falls
//! back to it.

use vstd::prelude::*;
use super::{Key, StepResult};
use super::display::{Body, BodyModel, ScreenModel, ScreenText, Tone, TextLine, blank, lines_view, masked, masked_text, plain, push_blank, push_fixed, push_line, screen_view};
use crate::config::DEFAULT_HOSTNAME;
use vstd::utf8::{is_ascii_chars, is_ascii_chars_encode_utf8};
use crate::text::{byte_offset, insert_char, is_char_start, remove_char, starts_char, trim, trim_str};

verus! {

pub struct HostnameScreen {
    input: String,
    cursor_pos: usize,
}

/// The text typed so far and the cursor, a byte position in its UTF-8 encoding.
pub struct HostnameModel {
    pub input: Seq<char>,
    pub cursor: nat,
}

impl View for HostnameScreen {
    type V = HostnameModel;

    closed spec fn view(&self) -> HostnameModel {
        HostnameModel { input: self.input@, cursor: self.cursor_pos as nat }
    }
}

/// The index of the character that starts at byte position `idx`.
pub open spec fn char_index_at(s: Seq<char>, idx: int) -> int {
    choose|k: int| 0 <= k <= s.len() && #[trigger] byte_offset(s, k) == idx
}

/// The index of the character whose encoding starts at byte position `idx`.
pub open spec fn char_starting_at(s: Seq<char>, idx: int) -> int {
    choose|k: int| 0 <= k < s.len() && #[trigger] byte_offset(s, k) == idx
}

/// The keys the screen can take in state `m` without the editing panicking:
/// a character is inserted at the cursor, which must lie on a character
/// boundary; Backspace removes the character that starts one byte before it.
pub open spec fn hostname_key_ok(m: HostnameModel, key: Key) -> bool {
    match key {
        Key::Char(_) => is_char_start(m.input, m.cursor as int) && m.cursor < usize::MAX,
        Key::Backspace => m.cursor > 0 ==> starts_char(m.input, m.cursor - 1),
        _ => true,
    }
}

/// One key press on the hostname screen: Enter accepts, Esc goes back,
/// Backspace deletes before the cursor, a character is inserted at it.
pub open spec fn hostname_step(m: HostnameModel, key: Key) -> (HostnameModel, StepResult) {
    match key {
        Key::Enter => (m, StepResult::Next),
        Key::Esc => (m, StepResult::Back),
        Key::Backspace => if m.cursor > 0 {
            let k = char_starting_at(m.input, m.cursor - 1);
            (HostnameModel { input: m.input.remove(k), cursor: (m.cursor - 1) as nat }, StepResult::Continue)
        } else {
            (m, StepResult::Continue)
        },
        Key::Char(c) => {
            let k = char_index_at(m.input, m.cursor as int);
            (HostnameModel { input: m.input.insert(k, c), cursor: m.cursor + 1 }, StepResult::Continue)
        },
        _ => (m, StepResult::Continue),
    }
}

/// The hostname an entry stands for: the trimmed text, or the default when
/// nothing but white space is left.
pub open spec fn hostname_value(input: Seq<char>) -> Seq<char> {
    if trim(input).len() == 0 { DEFAULT_HOSTNAME@ } else { trim(input) }
}

/// An entry made of ASCII characters with the cursor at its end.
pub open spec fn ascii_at_end(m: HostnameModel) -> bool {
    is_ascii_chars(m.input) && m.cursor == m.input.len()
}

proof fn lemma_ascii_offset(s: Seq<char>, k: int)
    requires
        is_ascii_chars(s),
        0 <= k <= s.len(),
    ensures
        byte_offset(s, k) == k,
{
    let p = s.subrange(0, k);
    assert(is_ascii_chars(p)) by {
        assert forall|i: int| 0 <= i < p.len() implies '\0' <= #[trigger] p[i] <= '\u{7f}' by {
            assert(p[i] == s[i]);
        }
    }
    is_ascii_chars_encode_utf8(p);
}

/// ASCII typing is always safe: in an ASCII entry with the cursor at its
/// end, a key with an ASCII character, and any key that is not a character,
/// can be taken without the editing panicking, and the entry stays ASCII
/// with the cursor at its end. (A wider character moves the byte cursor
/// into the middle of its encoding, and the next edit would panic.)
pub proof fn lemma_ascii_typing_safe(m: HostnameModel, key: Key)
    requires
        ascii_at_end(m),
        m.input.len() + 1 < usize::MAX,
        key matches Key::Char(c) ==> c <= '\u{7f}',
    ensures
        hostname_key_ok(m, key),
        ascii_at_end(hostname_step(m, key).0),
{
    let s = m.input;
    let n = s.len() as int;
    match key {
        Key::Char(c) => {
            lemma_ascii_offset(s, n);
            assert(is_char_start(s, n));
            let k = char_index_at(s, n);
            lemma_ascii_offset(s, k);
            assert(k == n);
            let t = s.insert(k, c);
            assert(t =~= s.push(c));
            assert forall|i: int| 0 <= i < t.len() implies '\0' <= #[trigger] t[i] <= '\u{7f}' by {
                if i < n {
                    assert(t[i] == s[i]);
                }
            }
        },
        Key::Backspace => {
            if m.cursor > 0 {
                lemma_ascii_offset(s, n - 1);
                assert(starts_char(s, n - 1));
                let k = char_starting_at(s, n - 1);
                lemma_ascii_offset(s, k);
                assert(k == n - 1);
                let t = s.remove(k);
                assert(t =~= s.drop_last());
                assert forall|i: int| 0 <= i < t.len() implies '\0' <= #[trigger] t[i] <= '\u{7f}' by {
                    assert(t[i] == s[i]);
                }
            }
        },
        _ => {},
    }
}

/// The hostname entry, the text typed so far followed by the cursor `_`.
pub open spec fn hostname_screen(input: Seq<char>) -> ScreenModel {
    ScreenModel {
        title: "Hostname"@,
        footer: " [Enter] Confirm  [Esc] Back "@,
        width: 55,
        height: 9,
        body: BodyModel::Text(
            false,
            seq![blank(), plain("Enter a hostname for this system:"@), blank(), (Tone::Entry, input + "_"@)],
        ),
    }
}

impl HostnameScreen {
    pub fn text(&self) -> (r: ScreenText)
        ensures
            screen_view(r) == hostname_screen(self@.input),
    {
        let mut lines: Vec<TextLine> = Vec::new();
        push_blank(&mut lines);
        push_fixed(&mut lines, Tone::Plain, "Enter a hostname for this system:");
        push_blank(&mut lines);
        let mut entry = self.input.clone();
        crate::text::push_str(&mut entry, "_");
        push_line(&mut lines, Tone::Entry, entry);
        let ghost lv = lines_view(lines@);
        assert(lv =~= match hostname_screen(self@.input).body { BodyModel::Text(_, l) => l, _ => seq![] });
        ScreenText {
            title: "Hostname",
            footer: " [Enter] Confirm  [Esc] Back ",
            width: 55,
            height: 9,
            body: Body::Text { centered: false, lines },
        }
    }

    pub fn new() -> (s: Self)
        ensures
            s@.input == DEFAULT_HOSTNAME@,
            s@.cursor == 7,
            ascii_at_end(s@),
    {
        proof {
            reveal_strlit("eclipse");
            assert(is_ascii_chars(DEFAULT_HOSTNAME@));
            is_ascii_chars_encode_utf8(DEFAULT_HOSTNAME@);
        }
        Self { input: DEFAULT_HOSTNAME.to_owned(), cursor_pos: DEFAULT_HOSTNAME.len() }
    }

    /// The hostname to configure; never empty.
    pub fn value(&self) -> (r: String)
        ensures
            r@ == hostname_value(self@.input),
            r@.len() > 0,
    {
        let v = trim_str(self.input.as_str());
        if v.as_str().is_empty() {
            proof {
                reveal_strlit("eclipse");
            }
            DEFAULT_HOSTNAME.to_owned()
        } else {
            v
        }
    }

    /// The cursor: a byte position in the text typed so far.
    pub fn cursor(&self) -> (r: usize)
        ensures
            r as nat == self@.cursor,
    {
        self.cursor_pos
    }

    /// The text typed so far.
    pub fn input(&self) -> (r: &str)
        ensures
            r@ == self@.input,
    {
        self.input.as_str()
    }

    pub fn handle_input(&mut self, key: Key) -> (r: StepResult)
        requires
            hostname_key_ok(old(self)@, key),
        ensures
            (final(self)@, r) == hostname_step(old(self)@, key),
    {
        match key {
            Key::Enter => StepResult::Next,
            Key::Esc => StepResult::Back,
            Key::Backspace => {
                if self.cursor_pos > 0 {
                    let _ = remove_char(&mut self.input, self.cursor_pos - 1);
                    self.cursor_pos = self.cursor_pos - 1;
                }
                StepResult::Continue
            },
            Key::Char(c) => {
                insert_char(&mut self.input, self.cursor_pos, c);
                self.cursor_pos = self.cursor_pos + 1;
                StepResult::Continue
            },
            _ => StepResult::Continue,
        }
    }
}

} // verus!
