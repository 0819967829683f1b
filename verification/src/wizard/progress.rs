//! Progress screen: a gauge driven by the installation's progress reports.

use vstd::prelude::*;
use super::{Key, StepResult};
use super::display::{Body, BodyModel, ScreenModel, ScreenText, screen_view};

verus! {

pub struct ProgressScreen {
    percent: u16,
    message: String,
}

/// The progress screen: the last status line and the gauge.
pub open spec fn progress_screen(percent: nat, message: Seq<char>) -> ScreenModel {
    ScreenModel {
        title: "Installing Eclipse Linux"@,
        footer: " Installation in progress... Please wait. "@,
        width: 65,
        height: 10,
        body: BodyModel::Gauge(message, percent, crate::text::decimal(percent) + "%"@),
    }
}

impl ProgressScreen {
    pub closed spec fn percent_shown(&self) -> nat {
        self.percent as nat
    }

    pub closed spec fn message_text(&self) -> Seq<char> {
        self.message@
    }

    pub fn new() -> (s: Self)
        ensures
            s.percent_shown() == 0,
            s.message_text() == "Preparing..."@,
    {
        Self { percent: 0, message: "Preparing...".to_owned() }
    }

    pub fn update(&mut self, percent: u8, message: &str)
        ensures
            final(self).percent_shown() == percent as nat,
            final(self).message_text() == message@,
    {
        self.percent = percent as u16;
        self.message = message.to_owned();
    }

    pub fn percent(&self) -> (r: u16)
        ensures
            r as nat == self.percent_shown(),
    {
        self.percent
    }

    pub fn message(&self) -> (r: &str)
        ensures
            r@ == self.message_text(),
    {
        self.message.as_str()
    }

    /// The gauge's label: the percentage, then `%`.
    pub fn label(&self) -> (r: String)
        ensures
            r@ == crate::text::decimal(self.percent_shown()) + "%"@,
    {
        let mut s = String::new();
        crate::text::push_decimal(&mut s, self.percent as u64);
        crate::text::push_str(&mut s, "%");
        s
    }

    pub fn text(&self) -> (r: ScreenText)
        ensures
            screen_view(r) == progress_screen(self.percent_shown(), self.message_text()),
    {
        ScreenText {
            title: "Installing Eclipse Linux",
            footer: " Installation in progress... Please wait. ",
            width: 65,
            height: 10,
            body: Body::Gauge { status: self.message.clone(), percent: self.percent, label: self.label() },
        }
    }

    /// No key does anything while the installation runs.
    pub fn handle_input(&self, key: Key) -> (r: StepResult)
        ensures
            r == StepResult::Continue,
    {
        StepResult::Continue
    }
}

} // verus!
