//! Root password screen: masked input with confirmation; an empty password
//! is allowed after a warning.

use vstd::prelude::*;
use super::{Key, StepResult, is_char, key_is_char};
use super::edit::{typed, apply_edit};
use super::display::{Body, BodyModel, byte_len, ScreenModel, ScreenText, Tone, TextLine, blank, lines_view, masked, masked_text, plain, push_blank, push_fixed, push_line, screen_view};
use vstd::utf8::encode_utf8;

verus! {

#[derive(Debug, Clone, Copy, PartialEq, Eq, Structural)]
pub enum RootPasswordPhase {
    Enter,
    Confirm,
    EmptyWarning,
    Mismatch,
}

pub struct RootPasswordScreen {
    pass1: String,
    pass2: String,
    phase: RootPasswordPhase,
}

/// What the screen holds: the password, its confirmation, and the phase.
pub struct RootPasswordModel {
    pub pass1: Seq<char>,
    pub pass2: Seq<char>,
    pub phase: RootPasswordPhase,
}

impl View for RootPasswordScreen {
    type V = RootPasswordModel;

    closed spec fn view(&self) -> RootPasswordModel {
        RootPasswordModel { pass1: self.pass1@, pass2: self.pass2@, phase: self.phase }
    }
}

/// The phases only occur with the entries they are meant for: the
/// confirmation is asked only for a non-empty password, the warning only for
/// an empty one, and nothing has been confirmed while a password is entered.
pub open spec fn root_password_wf(m: RootPasswordModel) -> bool {
    &&& m.phase == RootPasswordPhase::Confirm ==> m.pass1.len() > 0
    &&& m.phase == RootPasswordPhase::EmptyWarning ==> m.pass1.len() == 0
    &&& (m.phase == RootPasswordPhase::Enter || m.phase == RootPasswordPhase::EmptyWarning)
        ==> m.pass2.len() == 0
}

/// One key press on the root password screen: the next state and the result.
pub open spec fn root_password_step(m: RootPasswordModel, key: Key) -> (RootPasswordModel, StepResult) {
    match m.phase {
        RootPasswordPhase::Enter => {
            if key == Key::Enter {
                let phase = if m.pass1.len() == 0 {
                    RootPasswordPhase::EmptyWarning
                } else {
                    RootPasswordPhase::Confirm
                };
                (RootPasswordModel { phase, ..m }, StepResult::Continue)
            } else if key == Key::Esc {
                (m, StepResult::Back)
            } else {
                (RootPasswordModel { pass1: typed(m.pass1, key), ..m }, StepResult::Continue)
            }
        },
        RootPasswordPhase::Confirm => {
            if key == Key::Enter {
                if m.pass1 == m.pass2 {
                    (m, StepResult::Next)
                } else {
                    (RootPasswordModel { phase: RootPasswordPhase::Mismatch, ..m }, StepResult::Continue)
                }
            } else if key == Key::Esc {
                (
                    RootPasswordModel { pass2: Seq::empty(), phase: RootPasswordPhase::Enter, ..m },
                    StepResult::Continue,
                )
            } else {
                (RootPasswordModel { pass2: typed(m.pass2, key), ..m }, StepResult::Continue)
            }
        },
        RootPasswordPhase::EmptyWarning => {
            if is_char(key, 'y') || is_char(key, 'Y') {
                (m, StepResult::Next)
            } else if is_char(key, 'n') || is_char(key, 'N') || key == Key::Esc {
                (RootPasswordModel { phase: RootPasswordPhase::Enter, ..m }, StepResult::Continue)
            } else {
                (m, StepResult::Continue)
            }
        },
        RootPasswordPhase::Mismatch => {
            if key == Key::Enter || key == Key::Esc {
                (
                    RootPasswordModel {
                        pass1: Seq::empty(),
                        pass2: Seq::empty(),
                        phase: RootPasswordPhase::Enter,
                    },
                    StepResult::Continue,
                )
            } else {
                (m, StepResult::Continue)
            }
        },
    }
}

/// A password entry: `None` when nothing was typed.
pub open spec fn optional_password(p: Seq<char>) -> Option<Seq<char>> {
    if p.len() == 0 { None } else { Some(p) }
}

/// The root password screen in each phase: the entry masked, one `*` per
/// byte, or the warning or mismatch message.
pub open spec fn root_password_screen(m: RootPasswordModel) -> ScreenModel {
    let (footer, lines) = match m.phase {
        RootPasswordPhase::Enter => (
            " [Enter] Confirm  [Esc] Back "@,
            seq![
                blank(),
                plain("Enter root password (empty for none):"@),
                blank(),
                (Tone::Entry, masked(byte_len(m.pass1))),
            ],
        ),
        RootPasswordPhase::Confirm => (
            " [Enter] Confirm  [Esc] Re-enter "@,
            seq![blank(), plain("Confirm root password:"@), blank(), (Tone::Entry, masked(byte_len(m.pass2)))],
        ),
        RootPasswordPhase::EmptyWarning => (
            " [y] Continue without password  [n] Go back "@,
            seq![
                blank(),
                (Tone::Warning, "No password set. Root will have no password."@),
                blank(),
                plain("Continue without a password? (y/n)"@),
            ],
        ),
        RootPasswordPhase::Mismatch => (
            " [Enter] Try again "@,
            seq![blank(), blank(), (Tone::Warning, "Passwords do not match. Press Enter to try again."@)],
        ),
    };
    ScreenModel { title: "Root Password"@, footer, width: 55, height: 10, body: BodyModel::Text(false, lines) }
}

impl RootPasswordScreen {
    pub closed spec fn wf(&self) -> bool {
        root_password_wf(self@)
    }

    pub fn new() -> (s: Self)
        ensures
            s.wf(),
            s@.pass1 == Seq::<char>::empty(),
            s@.pass2 == Seq::<char>::empty(),
            s@.phase == RootPasswordPhase::Enter,
    {
        Self { pass1: String::new(), pass2: String::new(), phase: RootPasswordPhase::Enter }
    }

    /// The password to set, or `None` for no password.
    pub fn password(&self) -> (r: Option<String>)
        ensures
            (match r { Some(p) => Some(p@), None => None }) == optional_password(self@.pass1),
    {
        if self.pass1.as_str().is_empty() {
            None
        } else {
            Some(self.pass1.clone())
        }
    }

    pub fn phase(&self) -> (r: RootPasswordPhase)
        ensures
            r == self@.phase,
    {
        self.phase
    }

    /// Bytes typed so far in the entry that the current phase edits, for the masked echo.
    pub fn typed_len(&self) -> (r: usize)
        ensures
            self@.phase == RootPasswordPhase::Confirm ==> r == encode_utf8(self@.pass2).len() as usize,
            self@.phase != RootPasswordPhase::Confirm ==> r == encode_utf8(self@.pass1).len() as usize,
    {
        if self.phase == RootPasswordPhase::Confirm {
            self.pass2.as_str().len()
        } else {
            self.pass1.as_str().len()
        }
    }

    pub fn text(&self) -> (r: ScreenText)
        ensures
            screen_view(r) == root_password_screen(self@),
    {
        let mut lines: Vec<TextLine> = Vec::new();
        push_blank(&mut lines);
        let footer: &'static str = match self.phase {
            RootPasswordPhase::Enter => {
                push_fixed(&mut lines, Tone::Plain, "Enter root password (empty for none):");
                push_blank(&mut lines);
                push_line(&mut lines, Tone::Entry, masked_text(self.typed_len()));
                " [Enter] Confirm  [Esc] Back "
            },
            RootPasswordPhase::Confirm => {
                push_fixed(&mut lines, Tone::Plain, "Confirm root password:");
                push_blank(&mut lines);
                push_line(&mut lines, Tone::Entry, masked_text(self.typed_len()));
                " [Enter] Confirm  [Esc] Re-enter "
            },
            RootPasswordPhase::EmptyWarning => {
                push_fixed(&mut lines, Tone::Warning, "No password set. Root will have no password.");
                push_blank(&mut lines);
                push_fixed(&mut lines, Tone::Plain, "Continue without a password? (y/n)");
                " [y] Continue without password  [n] Go back "
            },
            RootPasswordPhase::Mismatch => {
                push_blank(&mut lines);
                push_fixed(&mut lines, Tone::Warning, "Passwords do not match. Press Enter to try again.");
                " [Enter] Try again "
            },
        };
        let ghost lv = lines_view(lines@);
        assert(lv =~= match root_password_screen(self@).body { BodyModel::Text(_, l) => l, _ => seq![] });
        ScreenText { title: "Root Password", footer, width: 55, height: 10, body: Body::Text { centered: false, lines } }
    }

    /// Handles one key press. The screen only answers `Next` for a password
    /// typed twice alike, or for an empty one the user accepted.
    pub fn handle_input(&mut self, key: Key) -> (r: StepResult)
        requires
            old(self).wf(),
        ensures
            final(self).wf(),
            (final(self)@, r) == root_password_step(old(self)@, key),
            r == StepResult::Next ==> (final(self)@.pass1.len() > 0 && final(self)@.pass1 == final(self)@.pass2)
                || final(self)@.pass1.len() == 0,
            r == StepResult::Next <==> {
                ||| old(self)@.phase == RootPasswordPhase::Confirm && key == Key::Enter && old(self)@.pass1.len() > 0
                    && old(self)@.pass1 == old(self)@.pass2
                ||| old(self)@.phase == RootPasswordPhase::EmptyWarning && (is_char(key, 'y') || is_char(key, 'Y'))
                    && old(self)@.pass1.len() == 0
            },
            r == StepResult::Next ==> final(self)@ == old(self)@,
            r == StepResult::Back <==> old(self)@.phase == RootPasswordPhase::Enter && key == Key::Esc,
            old(self)@.phase == RootPasswordPhase::Confirm && key == Key::Enter && old(self)@.pass1 != old(self)@.pass2
                ==> r == StepResult::Continue && final(self)@.phase == RootPasswordPhase::Mismatch,
            old(self)@.phase == RootPasswordPhase::Mismatch && (key == Key::Enter || key == Key::Esc)
                ==> final(self)@.phase == RootPasswordPhase::Enter && final(self)@.pass1.len() == 0
                && final(self)@.pass2.len() == 0,
            old(self)@.phase == RootPasswordPhase::Enter && key == Key::Backspace && old(self)@.pass1.len() > 0 ==> r == StepResult::Continue
                && final(self)@.pass1 == old(self)@.pass1.subrange(0, old(self)@.pass1.len() - 1) && final(self)@.phase == old(self)@.phase && final(self)@.pass2 == old(self)@.pass2,
            old(self)@.phase == RootPasswordPhase::Enter && key == Key::Backspace && old(self)@.pass1.len() == 0 ==> final(self)@ == old(self)@,
            old(self)@.phase == RootPasswordPhase::Enter ==> (key matches Key::Char(c) ==> r == StepResult::Continue && final(self)@.pass1 == old(self)@.pass1.push(c)
                && final(self)@.phase == old(self)@.phase && final(self)@.pass2 == old(self)@.pass2),
            old(self)@.phase == RootPasswordPhase::Confirm && key == Key::Backspace && old(self)@.pass2.len() > 0 ==> r == StepResult::Continue
                && final(self)@.pass2 == old(self)@.pass2.subrange(0, old(self)@.pass2.len() - 1) && final(self)@.phase == old(self)@.phase && final(self)@.pass1 == old(self)@.pass1,
            old(self)@.phase == RootPasswordPhase::Confirm && key == Key::Backspace && old(self)@.pass2.len() == 0 ==> final(self)@ == old(self)@,
            old(self)@.phase == RootPasswordPhase::Confirm ==> (key matches Key::Char(c) ==> r == StepResult::Continue && final(self)@.pass2 == old(self)@.pass2.push(c)
                && final(self)@.phase == old(self)@.phase && final(self)@.pass1 == old(self)@.pass1),
            old(self)@.phase == RootPasswordPhase::Confirm && key == Key::Esc ==> r == StepResult::Continue
                && final(self)@.pass1 == old(self)@.pass1 && final(self)@.pass2.len() == 0 && final(self)@.phase == RootPasswordPhase::Enter,
    {
        match self.phase {
            RootPasswordPhase::Enter => {
                if key == Key::Enter {
                    if self.pass1.as_str().is_empty() {
                        self.phase = RootPasswordPhase::EmptyWarning;
                    } else {
                        self.phase = RootPasswordPhase::Confirm;
                    }
                    StepResult::Continue
                } else if key == Key::Esc {
                    StepResult::Back
                } else {
                    apply_edit(&mut self.pass1, key);
                    StepResult::Continue
                }
            },
            RootPasswordPhase::Confirm => {
                if key == Key::Enter {
                    if self.pass1 == self.pass2 {
                        StepResult::Next
                    } else {
                        self.phase = RootPasswordPhase::Mismatch;
                        StepResult::Continue
                    }
                } else if key == Key::Esc {
                    self.pass2 = String::new();
                    self.phase = RootPasswordPhase::Enter;
                    StepResult::Continue
                } else {
                    apply_edit(&mut self.pass2, key);
                    StepResult::Continue
                }
            },
            RootPasswordPhase::EmptyWarning => {
                if key_is_char(key, 'y') || key_is_char(key, 'Y') {
                    StepResult::Next
                } else if key_is_char(key, 'n') || key_is_char(key, 'N') || key == Key::Esc {
                    self.phase = RootPasswordPhase::Enter;
                    StepResult::Continue
                } else {
                    StepResult::Continue
                }
            },
            RootPasswordPhase::Mismatch => {
                if key == Key::Enter || key == Key::Esc {
                    self.pass1 = String::new();
                    self.pass2 = String::new();
                    self.phase = RootPasswordPhase::Enter;
                }
                StepResult::Continue
            },
        }
    }
}

} // verus!
