//! Error screen: the failure message and where the log is.

use vstd::prelude::*;
use super::{Key, StepResult, is_char, key_is_char};
use super::display::{Body, BodyModel, ScreenModel, ScreenText, Tone, TextLine, blank, lines_view, plain, push_blank, push_fixed, push_line, screen_view};
use crate::config::LOG_PATH;
use crate::sort::texts_view;
use crate::target_files::{lines_of, split_lines};

verus! {

pub struct ErrorScreen {
    message: String,
}

pub open spec fn error_result(key: Key) -> StepResult {
    if is_char(key, 'q') || key == Key::Esc || key == Key::Enter {
        StepResult::Quit
    } else {
        StepResult::Continue
    }
}

/// The error screen: the failure, the message line by line, and where the
/// log is.
pub open spec fn error_screen(message: Seq<char>) -> ScreenModel {
    ScreenModel {
        title: "Error"@,
        footer: " [q/Esc] Quit "@,
        width: 70,
        height: 16,
        body: BodyModel::Text(
            true,
            seq![blank(), (Tone::Error, "Installation Failed"@), blank()]
                + lines_of(message).map_values(|l: Seq<char>| plain(l))
                + seq![
                blank(),
                plain("Check "@ + LOG_PATH@ + " for details."@),
                blank(),
                plain("Press q or Esc to quit."@),
            ],
        ),
    }
}

impl ErrorScreen {
    pub closed spec fn message_text(&self) -> Seq<char> {
        self.message@
    }

    pub fn new() -> (s: Self)
        ensures
            s.message_text() == Seq::<char>::empty(),
    {
        Self { message: String::new() }
    }

    pub fn set_message(&mut self, msg: &str)
        ensures
            final(self).message_text() == msg@,
    {
        self.message = msg.to_owned();
    }

    /// The message shown on the screen.
    pub fn message(&self) -> (r: &str)
        ensures
            r@ == self.message_text(),
    {
        self.message.as_str()
    }

    pub fn text(&self) -> (r: ScreenText)
        ensures
            screen_view(r) == error_screen(self.message_text()),
    {
        let mut lines: Vec<TextLine> = Vec::new();
        push_blank(&mut lines);
        push_fixed(&mut lines, Tone::Error, "Installation Failed");
        push_blank(&mut lines);
        let ghost head = lines_view(lines@);
        let msg_lines = split_lines(self.message.as_str());
        let ghost ml = texts_view(msg_lines@);
        let mut i: usize = 0;
        while i < msg_lines.len()
            invariant
                i <= msg_lines@.len(),
                ml == texts_view(msg_lines@),
                lines_view(lines@) == head + ml.subrange(0, i as int).map_values(|l: Seq<char>| plain(l)),
            decreases msg_lines@.len() - i,
        {
            push_line(&mut lines, Tone::Plain, msg_lines[i].clone());
            i = i + 1;
            assert(lines_view(lines@) =~= head + ml.subrange(0, i as int).map_values(|l: Seq<char>| plain(l)));
        }
        assert(ml.subrange(0, msg_lines@.len() as int) =~= ml);
        push_blank(&mut lines);
        let mut check = "Check ".to_owned();
        crate::text::push_str(&mut check, LOG_PATH);
        crate::text::push_str(&mut check, " for details.");
        push_line(&mut lines, Tone::Plain, check);
        push_blank(&mut lines);
        push_fixed(&mut lines, Tone::Plain, "Press q or Esc to quit.");
        let ghost lv = lines_view(lines@);
        assert(lv =~= match error_screen(self.message_text()).body { BodyModel::Text(_, l) => l, _ => seq![] });
        ScreenText {
            title: "Error",
            footer: " [q/Esc] Quit ",
            width: 70,
            height: 16,
            body: Body::Text { centered: true, lines },
        }
    }

    /// `q`, Esc or Enter quit.
    pub fn handle_input(&self, key: Key) -> (r: StepResult)
        ensures
            r == error_result(key),
    {
        if key_is_char(key, 'q') || key == Key::Esc || key == Key::Enter {
            StepResult::Quit
        } else {
            StepResult::Continue
        }
    }
}

} // verus!
