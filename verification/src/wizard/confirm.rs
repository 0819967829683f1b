//! Disk confirmation screen: shows the selected disk and requires an explicit yes.

use vstd::prelude::*;
use super::{Key, StepResult, yes_no, yes_no_result};
use super::display::{Body, BodyModel, ScreenModel, ScreenText, Tone, TextLine, blank, lines_view, plain, push_blank, push_fixed, push_line, screen_view};
use crate::config::InstallConfig;
use crate::text::push_str;

verus! {

pub struct ConfirmScreen;

/// The disk confirmation: the chosen disk and that all its data goes.
pub open spec fn confirm_screen(disk_info: Seq<char>) -> ScreenModel {
    ScreenModel {
        title: "Confirm Disk"@,
        footer: " [y/Enter] Confirm  [n/Esc] Go back "@,
        width: 65,
        height: 12,
        body: BodyModel::Text(
            true,
            seq![
                blank(),
                plain("You selected:"@),
                blank(),
                plain("  "@ + disk_info),
                blank(),
                (Tone::Warning, "ALL DATA ON THIS DISK WILL BE DESTROYED."@),
                blank(),
                plain("Are you sure?"@),
            ],
        ),
    }
}

impl ConfirmScreen {
    pub fn text(&self, config: &InstallConfig) -> (r: ScreenText)
        ensures
            screen_view(r) == confirm_screen(config.disk_info@),
    {
        let mut lines: Vec<TextLine> = Vec::new();
        push_blank(&mut lines);
        push_fixed(&mut lines, Tone::Plain, "You selected:");
        push_blank(&mut lines);
        let mut disk = "  ".to_owned();
        push_str(&mut disk, config.disk_info.as_str());
        push_line(&mut lines, Tone::Plain, disk);
        push_blank(&mut lines);
        push_fixed(&mut lines, Tone::Warning, "ALL DATA ON THIS DISK WILL BE DESTROYED.");
        push_blank(&mut lines);
        push_fixed(&mut lines, Tone::Plain, "Are you sure?");
        let ghost lv = lines_view(lines@);
        assert(lv =~= match confirm_screen(config.disk_info@).body { BodyModel::Text(_, l) => l, _ => seq![] });
        ScreenText {
            title: "Confirm Disk",
            footer: " [y/Enter] Confirm  [n/Esc] Go back ",
            width: 65,
            height: 12,
            body: Body::Text { centered: true, lines },
        }
    }

    /// `y`, `Y` or Enter confirm; `n`, `N` or Esc go back.
    pub fn handle_input(&self, key: Key) -> (r: StepResult)
        ensures
            r == yes_no_result(key),
    {
        yes_no(key)
    }
}

} // verus!
