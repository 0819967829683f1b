//! Welcome screen: splash text with continue/quit prompt.

use vstd::prelude::*;
use super::{Key, StepResult, is_char, key_is_char};
use super::display::{Body, BodyModel, ScreenModel, ScreenText, Tone, TextLine, blank, lines_view, plain, push_blank, push_fixed, screen_view};

verus! {

pub struct WelcomeScreen;

pub open spec fn welcome_result(key: Key) -> StepResult {
    if key == Key::Enter {
        StepResult::Next
    } else if key == Key::Esc || is_char(key, 'q') {
        StepResult::Quit
    } else {
        StepResult::Continue
    }
}

/// The welcome screen: what Eclipse Linux is, and that the chosen disk will
/// be wiped.
pub open spec fn welcome_screen() -> ScreenModel {
    ScreenModel {
        title: "Eclipse Linux Installer"@,
        footer: " [Enter] Continue  [q/Esc] Quit "@,
        width: 65,
        height: 15,
        body: BodyModel::Text(
            true,
            seq![
                blank(),
                (Tone::Heading, "Welcome to the Eclipse Linux Installer"@),
                blank(),
                plain("Eclipse Linux is a Void Linux-based distribution using the"@),
                plain("dynamod init system."@),
                blank(),
                plain("This will guide you through installing Eclipse Linux to a disk."@),
                (Tone::Notice, "All data on the selected disk will be destroyed."@),
                blank(),
                blank(),
                (Tone::Muted, "Press Enter to continue or Esc to quit."@),
            ],
        ),
    }
}

impl WelcomeScreen {
    pub fn text(&self) -> (r: ScreenText)
        ensures
            screen_view(r) == welcome_screen(),
    {
        let mut lines: Vec<TextLine> = Vec::new();
        push_blank(&mut lines);
        push_fixed(&mut lines, Tone::Heading, "Welcome to the Eclipse Linux Installer");
        push_blank(&mut lines);
        push_fixed(&mut lines, Tone::Plain, "Eclipse Linux is a Void Linux-based distribution using the");
        push_fixed(&mut lines, Tone::Plain, "dynamod init system.");
        push_blank(&mut lines);
        push_fixed(&mut lines, Tone::Plain, "This will guide you through installing Eclipse Linux to a disk.");
        push_fixed(&mut lines, Tone::Notice, "All data on the selected disk will be destroyed.");
        push_blank(&mut lines);
        push_blank(&mut lines);
        push_fixed(&mut lines, Tone::Muted, "Press Enter to continue or Esc to quit.");
        let ghost lv = lines_view(lines@);
        let r = ScreenText {
            title: "Eclipse Linux Installer",
            footer: " [Enter] Continue  [q/Esc] Quit ",
            width: 65,
            height: 15,
            body: Body::Text { centered: true, lines },
        };
        assert(lv =~= match welcome_screen().body { BodyModel::Text(_, l) => l, _ => seq![] });
        r
    }

    /// Enter continues; Esc or `q` quits the installer.
    pub fn handle_input(&mut self, key: Key) -> (r: StepResult)
        ensures
            r == welcome_result(key),
    {
        if key == Key::Enter {
            StepResult::Next
        } else if key == Key::Esc || key_is_char(key, 'q') {
            StepResult::Quit
        } else {
            StepResult::Continue
        }
    }
}

} // verus!
