//! Completion screen: success message with a reboot prompt.

use vstd::prelude::*;
use super::{Key, StepResult, is_char, key_is_char};
use super::display::{Body, BodyModel, ScreenModel, ScreenText, Tone, TextLine, blank, lines_view, plain, push_blank, push_fixed, screen_view};

verus! {

pub struct CompleteScreen {
    reboot: bool,
}

/// The key says "reboot now".
pub open spec fn is_reboot_key(key: Key) -> bool {
    is_char(key, 'y') || is_char(key, 'Y')
}

/// The key says "quit without rebooting".
pub open spec fn is_no_reboot_key(key: Key) -> bool {
    is_char(key, 'n') || is_char(key, 'N') || is_char(key, 'q') || key == Key::Esc
}

/// The completion screen: success, and the question whether to reboot.
pub open spec fn complete_screen() -> ScreenModel {
    ScreenModel {
        title: "Installation Complete"@,
        footer: " [y] Reboot  [n/q] Quit "@,
        width: 60,
        height: 14,
        body: BodyModel::Text(
            true,
            seq![
                blank(),
                (Tone::Success, "Eclipse Linux has been installed successfully!"@),
                blank(),
                plain("You can now reboot into your new system."@),
                plain("Remove the installation media before rebooting."@),
                blank(),
                blank(),
                plain("Reboot now? (y/n)"@),
            ],
        ),
    }
}

impl CompleteScreen {
    pub fn text(&self) -> (r: ScreenText)
        ensures
            screen_view(r) == complete_screen(),
    {
        let mut lines: Vec<TextLine> = Vec::new();
        push_blank(&mut lines);
        push_fixed(&mut lines, Tone::Success, "Eclipse Linux has been installed successfully!");
        push_blank(&mut lines);
        push_fixed(&mut lines, Tone::Plain, "You can now reboot into your new system.");
        push_fixed(&mut lines, Tone::Plain, "Remove the installation media before rebooting.");
        push_blank(&mut lines);
        push_blank(&mut lines);
        push_fixed(&mut lines, Tone::Plain, "Reboot now? (y/n)");
        let ghost lv = lines_view(lines@);
        assert(lv =~= match complete_screen().body { BodyModel::Text(_, l) => l, _ => seq![] });
        ScreenText {
            title: "Installation Complete",
            footer: " [y] Reboot  [n/q] Quit ",
            width: 60,
            height: 14,
            body: Body::Text { centered: true, lines },
        }
    }

    pub closed spec fn reboot_chosen(&self) -> bool {
        self.reboot
    }

    pub fn new() -> (s: Self)
        ensures
            !s.reboot_chosen(),
    {
        Self { reboot: false }
    }

    pub fn should_reboot(&self) -> (b: bool)
        ensures
            b == self.reboot_chosen(),
    {
        self.reboot
    }

    /// `y`/`Y` quits and asks for a reboot; `n`, `N`, `q` or Esc quit without one.
    pub fn handle_input(&mut self, key: Key) -> (r: StepResult)
        ensures
            is_reboot_key(key) ==> r == StepResult::Quit && final(self).reboot_chosen(),
            is_no_reboot_key(key) ==> r == StepResult::Quit && !final(self).reboot_chosen(),
            !is_reboot_key(key) && !is_no_reboot_key(key) ==> r == StepResult::Continue
                && final(self).reboot_chosen() == old(self).reboot_chosen(),
    {
        if key_is_char(key, 'y') || key_is_char(key, 'Y') {
            self.reboot = true;
            StepResult::Quit
        } else if key_is_char(key, 'n') || key_is_char(key, 'N') || key_is_char(key, 'q')
            || key == Key::Esc {
            self.reboot = false;
            StepResult::Quit
        } else {
            StepResult::Continue
        }
    }
}

} // verus!
