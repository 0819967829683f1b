//! Boot mode screen: shows the detected UEFI/BIOS mode and the partition layout.

use vstd::prelude::*;
use super::{Key, StepResult};
use super::display::{Body, BodyModel, ScreenModel, ScreenText, Tone, TextLine, blank, lines_view, plain, push_blank, push_fixed, push_line, screen_view};
use crate::config::{InstallConfig, boot_mode_name};

verus! {

pub struct BootModeScreen;

pub open spec fn boot_mode_result(key: Key) -> StepResult {
    if key == Key::Enter {
        StepResult::Next
    } else if key == Key::Esc {
        StepResult::Back
    } else {
        StepResult::Continue
    }
}

/// The partition layout the screen announces for the boot mode.
pub open spec fn layout_lines(uefi: bool) -> Seq<Seq<char>> {
    if uefi {
        seq!["  GPT partition table"@, "  512MB EFI System Partition (FAT32)"@, "  Remaining space: root partition"@]
    } else {
        seq!["  GPT partition table"@, "  2MB BIOS boot partition"@, "  Remaining space: root partition"@]
    }
}

/// The boot mode screen: the detected firmware and the partition layout
/// that follows from it.
pub open spec fn boot_mode_screen(uefi: bool) -> ScreenModel {
    ScreenModel {
        title: "Boot Mode"@,
        footer: " [Enter] Continue  [Esc] Back "@,
        width: 65,
        height: 14,
        body: BodyModel::Text(
            true,
            seq![
                blank(),
                plain("Detected boot mode: "@ + boot_mode_name(uefi)),
                blank(),
                plain("The disk will be partitioned accordingly:"@),
                blank(),
                plain(layout_lines(uefi)[0]),
                plain(layout_lines(uefi)[1]),
                plain(layout_lines(uefi)[2]),
                blank(),
                plain("Press Enter to continue."@),
            ],
        ),
    }
}

impl BootModeScreen {
    pub fn text(&self, config: &InstallConfig) -> (r: ScreenText)
        ensures
            screen_view(r) == boot_mode_screen(config.uefi),
    {
        let mut lines: Vec<TextLine> = Vec::new();
        push_blank(&mut lines);
        let mut mode = "Detected boot mode: ".to_owned();
        crate::text::push_str(&mut mode, config.boot_mode_str());
        push_line(&mut lines, Tone::Plain, mode);
        push_blank(&mut lines);
        push_fixed(&mut lines, Tone::Plain, "The disk will be partitioned accordingly:");
        push_blank(&mut lines);
        let layout = Self::layout_lines(config.uefi);
        push_fixed(&mut lines, Tone::Plain, layout[0]);
        push_fixed(&mut lines, Tone::Plain, layout[1]);
        push_fixed(&mut lines, Tone::Plain, layout[2]);
        push_blank(&mut lines);
        push_fixed(&mut lines, Tone::Plain, "Press Enter to continue.");
        let ghost lv = lines_view(lines@);
        assert(lv =~= match boot_mode_screen(config.uefi).body { BodyModel::Text(_, l) => l, _ => seq![] });
        ScreenText {
            title: "Boot Mode",
            footer: " [Enter] Continue  [Esc] Back ",
            width: 65,
            height: 14,
            body: Body::Text { centered: true, lines },
        }
    }

    /// Enter continues, Esc goes back.
    pub fn handle_input(&self, key: Key) -> (r: StepResult)
        ensures
            r == boot_mode_result(key),
    {
        if key == Key::Enter {
            StepResult::Next
        } else if key == Key::Esc {
            StepResult::Back
        } else {
            StepResult::Continue
        }
    }

    /// The partition layout lines for the detected boot mode.
    pub fn layout_lines(uefi: bool) -> (r: [&'static str; 3])
        ensures
            r@.len() == 3,
            forall|i: int| 0 <= i < 3 ==> #[trigger] r@[i]@ == layout_lines(uefi)[i],
    {
        if uefi {
            ["  GPT partition table", "  512MB EFI System Partition (FAT32)", "  Remaining space: root partition"]
        } else {
            ["  GPT partition table", "  2MB BIOS boot partition", "  Remaining space: root partition"]
        }
    }
}

} // verus!
