//! Installation summary screen: all collected values, with a final yes/no.

use vstd::prelude::*;
use super::{Key, StepResult, yes_no, yes_no_result};
use super::display::{Body, BodyModel, ScreenModel, ScreenText, Tone, TextLine, blank, lines_view, plain, push_blank, push_fixed, push_line, screen_view};
use crate::config::{ConfigModel, InstallConfig, boot_mode_name, fs_name};
use crate::text::push_str;

verus! {

pub struct SummaryScreen;

/// How the summary shows a password: whether one was set, never the password.
pub open spec fn password_status(p: Option<Seq<char>>) -> Seq<char> {
    if p is Some { "(set)"@ } else { "(none)"@ }
}

/// The summary of everything collected, before the last confirmation.
pub open spec fn summary_screen(c: ConfigModel) -> ScreenModel {
    ScreenModel {
        title: "Installation Summary"@,
        footer: " [y/Enter] Proceed  [n/Esc] Go back "@,
        width: 65,
        height: 20,
        body: BodyModel::Text(
            true,
            seq![
                blank(),
                plain("The following will be performed:"@),
                blank(),
                plain("  Disk:        "@ + c.disk),
                plain("  Boot mode:   "@ + boot_mode_name(c.uefi)),
                plain("  Filesystem:  "@ + fs_name(c.fs_type)),
                plain("  Hostname:    "@ + c.hostname),
                plain("  User:        "@ + c.username),
                plain("  Timezone:    "@ + c.timezone),
                plain("  Root pass:   "@ + password_status(c.root_password)),
                plain("  User pass:   "@ + password_status(c.user_password)),
                blank(),
                (Tone::Warning, "ALL DATA ON "@ + c.disk + " WILL BE DESTROYED."@),
                blank(),
                plain("Proceed with installation?"@),
            ],
        ),
    }
}

fn labelled(label: &str, value: &str) -> (r: String)
    ensures
        r@ == label@ + value@,
{
    let mut s = label.to_owned();
    push_str(&mut s, value);
    s
}

impl SummaryScreen {
    pub fn text(&self, config: &InstallConfig) -> (r: ScreenText)
        ensures
            screen_view(r) == summary_screen(config@),
    {
        let mut lines: Vec<TextLine> = Vec::new();
        push_blank(&mut lines);
        push_fixed(&mut lines, Tone::Plain, "The following will be performed:");
        push_blank(&mut lines);
        push_line(&mut lines, Tone::Plain, labelled("  Disk:        ", config.disk.as_str()));
        push_line(&mut lines, Tone::Plain, labelled("  Boot mode:   ", config.boot_mode_str()));
        push_line(&mut lines, Tone::Plain, labelled("  Filesystem:  ", config.fs_type.as_str()));
        push_line(&mut lines, Tone::Plain, labelled("  Hostname:    ", config.hostname.as_str()));
        push_line(&mut lines, Tone::Plain, labelled("  User:        ", config.username.as_str()));
        push_line(&mut lines, Tone::Plain, labelled("  Timezone:    ", config.timezone.as_str()));
        push_line(&mut lines, Tone::Plain, labelled("  Root pass:   ", Self::password_status(&config.root_password)));
        push_line(&mut lines, Tone::Plain, labelled("  User pass:   ", Self::password_status(&config.user_password)));
        push_blank(&mut lines);
        let mut warn = labelled("ALL DATA ON ", config.disk.as_str());
        push_str(&mut warn, " WILL BE DESTROYED.");
        push_line(&mut lines, Tone::Warning, warn);
        push_blank(&mut lines);
        push_fixed(&mut lines, Tone::Plain, "Proceed with installation?");
        let ghost lv = lines_view(lines@);
        assert(lv =~= match summary_screen(config@).body { BodyModel::Text(_, l) => l, _ => seq![] });
        ScreenText {
            title: "Installation Summary",
            footer: " [y/Enter] Proceed  [n/Esc] Go back ",
            width: 65,
            height: 20,
            body: Body::Text { centered: true, lines },
        }
    }

    /// `y`, `Y` or Enter start the installation; `n`, `N` or Esc go back.
    pub fn handle_input(&self, key: Key) -> (r: StepResult)
        ensures
            r == yes_no_result(key),
    {
        yes_no(key)
    }

    /// The summary's entry for a password.
    pub fn password_status(password: &Option<String>) -> (r: &'static str)
        ensures
            r@ == password_status(match password { Some(p) => Some(p@), None => None }),
    {
        if password.is_some() { "(set)" } else { "(none)" }
    }
}

} // verus!
