//! Line editing shared by the text-entry screens.

use vstd::prelude::*;
use super::Key;
use crate::text::{pop_char, push_char};

verus! {

/// The text after one editing key: Backspace removes the last character,
/// a character key appends it, any other key leaves the text as it is.
pub open spec fn typed(s: Seq<char>, key: Key) -> Seq<char> {
    match key {
        Key::Backspace => if s.len() > 0 { s.drop_last() } else { s },
        Key::Char(c) => s.push(c),
        _ => s,
    }
}

/// Editing keys do what they say: Backspace removes exactly the last
/// character of a non-empty entry and keeps the rest, a character key
/// appends exactly that character, and no other key changes the entry.
pub proof fn lemma_typed_edits(s: Seq<char>, key: Key)
    ensures
        key == Key::Backspace && s.len() > 0 ==> typed(s, key).len() == s.len() - 1 && typed(s, key)
            == s.subrange(0, s.len() - 1),
        key == Key::Backspace && s.len() == 0 ==> typed(s, key) == s,
        key matches Key::Char(c) ==> typed(s, key).len() == s.len() + 1 && typed(s, key).subrange(0, s.len() as int)
            == s && typed(s, key).last() == c,
        key != Key::Backspace && !(key is Char) ==> typed(s, key) == s,
{
    if key == Key::Backspace && s.len() > 0 {
        assert(s.drop_last() =~= s.subrange(0, s.len() - 1));
    }
    if key is Char {
        assert(typed(s, key).subrange(0, s.len() as int) =~= s);
    }
}

/// Applies an editing key to `s`.
pub fn apply_edit(s: &mut String, key: Key)
    ensures
        final(s)@ == typed(old(s)@, key),
        key == Key::Backspace && old(s)@.len() > 0 ==> final(s)@.len() == old(s)@.len() - 1 && final(s)@
            == old(s)@.subrange(0, old(s)@.len() - 1),
        key == Key::Backspace && old(s)@.len() == 0 ==> final(s)@ == old(s)@,
        key matches Key::Char(c) ==> final(s)@ == old(s)@.push(c),
        key != Key::Backspace && !(key is Char) ==> final(s)@ == old(s)@,
{
    match key {
        Key::Backspace => {
            let _ = pop_char(s);
        },
        Key::Char(c) => push_char(s, c),
        _ => {},
    }
}

} // verus!
