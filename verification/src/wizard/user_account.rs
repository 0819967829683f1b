//! User account screen: a username checked against a pattern, then a masked
//! password with confirmation; an empty password is allowed after a warning.

use vstd::prelude::*;
use vstd::utf8::encode_utf8;
use super::{Key, StepResult, is_char, key_is_char};
use super::edit::{typed, apply_edit};
use super::display::{Body, BodyModel, ScreenModel, ScreenText, Tone, TextLine, blank, byte_len, lines_view, masked, masked_text, plain, push_blank, push_fixed, push_line, screen_view};

verus! {

/// The pattern a username has to match.
pub const USERNAME_PATTERN: &'static str = "^[a-z][a-z0-9_-]*$";

pub open spec fn is_lower_ascii(c: char) -> bool {
    'a' <= c && c <= 'z'
}

/// A character allowed after the first one of a username.
pub open spec fn is_username_tail_char(c: char) -> bool {
    is_lower_ascii(c) || ('0' <= c && c <= '9') || c == '_' || c == '-'
}

/// The text `^[a-z][a-z0-9_-]*$` accepts: a lowercase ASCII letter followed
/// by lowercase letters, digits, `_` and `-`.
pub open spec fn valid_username(s: Seq<char>) -> bool {
    &&& s.len() >= 1
    &&& is_lower_ascii(s[0])
    &&& forall|i: int| 1 <= i < s.len() ==> is_username_tail_char(#[trigger] s[i])
}

/// What `regex::Regex::new(pattern)` followed by `is_match(haystack)` gives:
/// `None` when the pattern does not compile.
pub uninterp spec fn regex_search(pattern: Seq<char>, haystack: Seq<char>) -> Option<bool>;

/// Compiles `pattern` with `regex::Regex::new` and, when that succeeds,
/// answers `Regex::is_match` on `haystack`. The contract names the result and,
/// for the username pattern, states what the crate's documented syntax makes
/// of it: `^` and `$` anchor at the ends of the haystack and the brackets are
/// ASCII ranges, so the pattern compiles and matches exactly the texts of
/// `valid_username`.
#[verifier::external_body]
fn regex_is_match(pattern: &str, haystack: &str) -> (r: Option<bool>)
    ensures
        r == regex_search(pattern@, haystack@),
        pattern@ == "^[a-z][a-z0-9_-]*$"@ ==> r == Some(valid_username(haystack@)),
{
    match regex::Regex::new(pattern) {
        Ok(re) => Some(re.is_match(haystack)),
        Err(_) => None,
    }
}

#[derive(Debug, Clone, Copy, PartialEq, Eq, Structural)]
pub enum AccountPhase {
    Username,
    UsernameError,
    Password,
    PasswordConfirm,
    EmptyPasswordWarning,
    PasswordMismatch,
}

pub struct UserAccountScreen {
    user_input: String,
    pass1: String,
    pass2: String,
    phase: AccountPhase,
    error_msg: String,
}

pub struct UserAccountModel {
    pub user_input: Seq<char>,
    pub pass1: Seq<char>,
    pub pass2: Seq<char>,
    pub phase: AccountPhase,
    pub error_msg: Seq<char>,
}

impl View for UserAccountScreen {
    type V = UserAccountModel;

    closed spec fn view(&self) -> UserAccountModel {
        UserAccountModel {
            user_input: self.user_input@,
            pass1: self.pass1@,
            pass2: self.pass2@,
            phase: self.phase,
            error_msg: self.error_msg@,
        }
    }
}

pub open spec fn empty_username_msg() -> Seq<char> {
    "Username cannot be empty."@
}

pub open spec fn invalid_username_msg() -> Seq<char> {
    "Invalid username. Use lowercase letters, digits, hyphens, or underscores. Must start with a letter."@
}

/// The password phases are only reached with a valid username; the
/// confirmation is asked only for a non-empty password and the warning only
/// for an empty one; no password is held while the username is edited.
pub open spec fn user_account_wf(m: UserAccountModel) -> bool {
    let password_phase = m.phase == AccountPhase::Password || m.phase == AccountPhase::PasswordConfirm
        || m.phase == AccountPhase::EmptyPasswordWarning || m.phase == AccountPhase::PasswordMismatch;
    &&& password_phase ==> valid_username(m.user_input)
    &&& m.phase == AccountPhase::PasswordConfirm ==> m.pass1.len() > 0
    &&& m.phase == AccountPhase::EmptyPasswordWarning ==> m.pass1.len() == 0
    &&& (m.phase == AccountPhase::Username || m.phase == AccountPhase::UsernameError) ==> m.pass1.len() == 0
    &&& (m.phase != AccountPhase::PasswordConfirm && m.phase != AccountPhase::PasswordMismatch)
        ==> m.pass2.len() == 0
}

/// One key press on the user account screen: the next state and the result.
pub open spec fn user_account_step(m: UserAccountModel, key: Key) -> (UserAccountModel, StepResult) {
    match m.phase {
        AccountPhase::Username => {
            if key == Key::Enter {
                if m.user_input.len() == 0 {
                    (
                        UserAccountModel { error_msg: empty_username_msg(), phase: AccountPhase::UsernameError, ..m },
                        StepResult::Continue,
                    )
                } else if !valid_username(m.user_input) {
                    (
                        UserAccountModel { error_msg: invalid_username_msg(), phase: AccountPhase::UsernameError, ..m },
                        StepResult::Continue,
                    )
                } else {
                    (UserAccountModel { phase: AccountPhase::Password, ..m }, StepResult::Continue)
                }
            } else if key == Key::Esc {
                (m, StepResult::Back)
            } else {
                (UserAccountModel { user_input: typed(m.user_input, key), ..m }, StepResult::Continue)
            }
        },
        AccountPhase::UsernameError => {
            if key == Key::Enter || key == Key::Esc {
                (
                    UserAccountModel { user_input: Seq::empty(), phase: AccountPhase::Username, ..m },
                    StepResult::Continue,
                )
            } else {
                (m, StepResult::Continue)
            }
        },
        AccountPhase::Password => {
            if key == Key::Enter {
                let phase = if m.pass1.len() == 0 {
                    AccountPhase::EmptyPasswordWarning
                } else {
                    AccountPhase::PasswordConfirm
                };
                (UserAccountModel { phase, ..m }, StepResult::Continue)
            } else if key == Key::Esc {
                (
                    UserAccountModel { pass1: Seq::empty(), phase: AccountPhase::Username, ..m },
                    StepResult::Continue,
                )
            } else {
                (UserAccountModel { pass1: typed(m.pass1, key), ..m }, StepResult::Continue)
            }
        },
        AccountPhase::PasswordConfirm => {
            if key == Key::Enter {
                if m.pass1 == m.pass2 {
                    (m, StepResult::Next)
                } else {
                    (UserAccountModel { phase: AccountPhase::PasswordMismatch, ..m }, StepResult::Continue)
                }
            } else if key == Key::Esc {
                (
                    UserAccountModel { pass2: Seq::empty(), phase: AccountPhase::Password, ..m },
                    StepResult::Continue,
                )
            } else {
                (UserAccountModel { pass2: typed(m.pass2, key), ..m }, StepResult::Continue)
            }
        },
        AccountPhase::EmptyPasswordWarning => {
            if is_char(key, 'y') || is_char(key, 'Y') {
                (m, StepResult::Next)
            } else if is_char(key, 'n') || is_char(key, 'N') || key == Key::Esc {
                (UserAccountModel { phase: AccountPhase::Password, ..m }, StepResult::Continue)
            } else {
                (m, StepResult::Continue)
            }
        },
        AccountPhase::PasswordMismatch => {
            if key == Key::Enter || key == Key::Esc {
                (
                    UserAccountModel {
                        pass1: Seq::empty(),
                        pass2: Seq::empty(),
                        phase: AccountPhase::Password,
                        ..m
                    },
                    StepResult::Continue,
                )
            } else {
                (m, StepResult::Continue)
            }
        },
    }
}

/// The user account screen in each phase: the username entry, the error
/// about it, the masked password entries, or the warning or mismatch message.
pub open spec fn user_account_screen(m: UserAccountModel) -> ScreenModel {
    let u = m.user_input;
    let (footer, lines) = match m.phase {
        AccountPhase::Username => (
            " [Enter] Confirm  [Esc] Back "@,
            seq![blank(), plain("Enter a username for the primary user account:"@), blank(), (Tone::Entry, u + "_"@)],
        ),
        AccountPhase::UsernameError => (" [Enter] Try again "@, seq![blank(), blank(), (Tone::Error, m.error_msg)]),
        AccountPhase::Password => (
            " [Enter] Confirm  [Esc] Back to username "@,
            seq![blank(), plain("Enter password for "@ + u + ":"@), blank(), (Tone::Entry, masked(byte_len(m.pass1)))],
        ),
        AccountPhase::PasswordConfirm => (
            " [Enter] Confirm  [Esc] Re-enter "@,
            seq![blank(), plain("Confirm password for "@ + u + ":"@), blank(), (Tone::Entry, masked(byte_len(m.pass2)))],
        ),
        AccountPhase::EmptyPasswordWarning => (
            " [y] Continue without password  [n] Go back "@,
            seq![
                blank(),
                (Tone::Warning, "No password set for "@ + u + ". Continue?"@),
                blank(),
                plain("Continue without a password? (y/n)"@),
            ],
        ),
        AccountPhase::PasswordMismatch => (
            " [Enter] Try again "@,
            seq![blank(), blank(), (Tone::Warning, "Passwords do not match. Press Enter to try again."@)],
        ),
    };
    ScreenModel { title: "User Account"@, footer, width: 60, height: 10, body: BodyModel::Text(false, lines) }
}

fn around(before: &str, middle: &str, after: &str) -> (r: String)
    ensures
        r@ == before@ + middle@ + after@,
{
    let mut s = before.to_owned();
    crate::text::push_str(&mut s, middle);
    crate::text::push_str(&mut s, after);
    s
}

impl UserAccountScreen {
    pub closed spec fn wf(&self) -> bool {
        user_account_wf(self@)
    }

    pub fn new() -> (s: Self)
        ensures
            s.wf(),
            s@.user_input == Seq::<char>::empty(),
            s@.pass1 == Seq::<char>::empty(),
            s@.pass2 == Seq::<char>::empty(),
            s@.phase == AccountPhase::Username,
            s@.error_msg == Seq::<char>::empty(),
    {
        Self {
            user_input: String::new(),
            pass1: String::new(),
            pass2: String::new(),
            phase: AccountPhase::Username,
            error_msg: String::new(),
        }
    }

    pub fn username(&self) -> (r: String)
        ensures
            r@ == self@.user_input,
    {
        self.user_input.clone()
    }

    /// The password to set, or `None` for no password.
    pub fn password(&self) -> (r: Option<String>)
        ensures
            (match r { Some(p) => Some(p@), None => None }) == super::root_password::optional_password(
                self@.pass1,
            ),
    {
        if self.pass1.as_str().is_empty() {
            None
        } else {
            Some(self.pass1.clone())
        }
    }

    /// The username matches `^[a-z][a-z0-9_-]*$`.
    fn validate_username(&self) -> (b: bool)
        ensures
            b == valid_username(self@.user_input),
    {
        match regex_is_match(USERNAME_PATTERN, self.user_input.as_str()) {
            Some(b) => b,
            None => false,
        }
    }

    pub fn phase(&self) -> (r: AccountPhase)
        ensures
            r == self@.phase,
    {
        self.phase
    }

    pub fn error_message(&self) -> (r: &str)
        ensures
            r@ == self@.error_msg,
    {
        self.error_msg.as_str()
    }

    /// Bytes typed so far in the password entry that the current phase
    /// edits, for the masked echo.
    pub fn typed_len(&self) -> (r: usize)
        ensures
            self@.phase == AccountPhase::PasswordConfirm ==> r == encode_utf8(self@.pass2).len() as usize,
            self@.phase != AccountPhase::PasswordConfirm ==> r == encode_utf8(self@.pass1).len() as usize,
    {
        if self.phase == AccountPhase::PasswordConfirm {
            self.pass2.as_str().len()
        } else {
            self.pass1.as_str().len()
        }
    }

    pub fn text(&self) -> (r: ScreenText)
        ensures
            screen_view(r) == user_account_screen(self@),
    {
        let mut lines: Vec<TextLine> = Vec::new();
        push_blank(&mut lines);
        let u = self.user_input.as_str();
        let footer: &'static str = match self.phase {
            AccountPhase::Username => {
                push_fixed(&mut lines, Tone::Plain, "Enter a username for the primary user account:");
                push_blank(&mut lines);
                let mut entry = self.user_input.clone();
                crate::text::push_str(&mut entry, "_");
                push_line(&mut lines, Tone::Entry, entry);
                " [Enter] Confirm  [Esc] Back "
            },
            AccountPhase::UsernameError => {
                push_blank(&mut lines);
                push_line(&mut lines, Tone::Error, self.error_msg.clone());
                " [Enter] Try again "
            },
            AccountPhase::Password => {
                push_line(&mut lines, Tone::Plain, around("Enter password for ", u, ":"));
                push_blank(&mut lines);
                push_line(&mut lines, Tone::Entry, masked_text(self.typed_len()));
                " [Enter] Confirm  [Esc] Back to username "
            },
            AccountPhase::PasswordConfirm => {
                push_line(&mut lines, Tone::Plain, around("Confirm password for ", u, ":"));
                push_blank(&mut lines);
                push_line(&mut lines, Tone::Entry, masked_text(self.typed_len()));
                " [Enter] Confirm  [Esc] Re-enter "
            },
            AccountPhase::EmptyPasswordWarning => {
                push_line(&mut lines, Tone::Warning, around("No password set for ", u, ". Continue?"));
                push_blank(&mut lines);
                push_fixed(&mut lines, Tone::Plain, "Continue without a password? (y/n)");
                " [y] Continue without password  [n] Go back "
            },
            AccountPhase::PasswordMismatch => {
                push_blank(&mut lines);
                push_fixed(&mut lines, Tone::Warning, "Passwords do not match. Press Enter to try again.");
                " [Enter] Try again "
            },
        };
        let ghost lv = lines_view(lines@);
        assert(lv =~= match user_account_screen(self@).body { BodyModel::Text(_, l) => l, _ => seq![] });
        ScreenText { title: "User Account", footer, width: 60, height: 10, body: Body::Text { centered: false, lines } }
    }

    /// Handles one key press. The screen only answers `Next` with a valid
    /// username and a password typed twice alike, or an empty one the user
    /// accepted.
    pub fn handle_input(&mut self, key: Key) -> (r: StepResult)
        requires
            old(self).wf(),
        ensures
            final(self).wf(),
            (final(self)@, r) == user_account_step(old(self)@, key),
            r == StepResult::Next ==> valid_username(final(self)@.user_input) && (
            (final(self)@.pass1.len() > 0 && final(self)@.pass1 == final(self)@.pass2)
                || final(self)@.pass1.len() == 0),
            old(self)@.phase == AccountPhase::Username && key == Key::Backspace && old(self)@.user_input.len() > 0 ==> r == StepResult::Continue
                && final(self)@.user_input == old(self)@.user_input.subrange(0, old(self)@.user_input.len() - 1) && final(self)@.phase == old(self)@.phase && final(self)@.pass1 == old(self)@.pass1 && final(self)@.pass2 == old(self)@.pass2 && final(self)@.error_msg == old(self)@.error_msg,
            old(self)@.phase == AccountPhase::Username && key == Key::Backspace && old(self)@.user_input.len() == 0 ==> final(self)@ == old(self)@,
            old(self)@.phase == AccountPhase::Username ==> (key matches Key::Char(c) ==> r == StepResult::Continue && final(self)@.user_input == old(self)@.user_input.push(c)
                && final(self)@.phase == old(self)@.phase && final(self)@.pass1 == old(self)@.pass1 && final(self)@.pass2 == old(self)@.pass2 && final(self)@.error_msg == old(self)@.error_msg),
            old(self)@.phase == AccountPhase::Password && key == Key::Backspace && old(self)@.pass1.len() > 0 ==> r == StepResult::Continue
                && final(self)@.pass1 == old(self)@.pass1.subrange(0, old(self)@.pass1.len() - 1) && final(self)@.phase == old(self)@.phase && final(self)@.user_input == old(self)@.user_input && final(self)@.pass2 == old(self)@.pass2 && final(self)@.error_msg == old(self)@.error_msg,
            old(self)@.phase == AccountPhase::Password && key == Key::Backspace && old(self)@.pass1.len() == 0 ==> final(self)@ == old(self)@,
            old(self)@.phase == AccountPhase::Password ==> (key matches Key::Char(c) ==> r == StepResult::Continue && final(self)@.pass1 == old(self)@.pass1.push(c)
                && final(self)@.phase == old(self)@.phase && final(self)@.user_input == old(self)@.user_input && final(self)@.pass2 == old(self)@.pass2 && final(self)@.error_msg == old(self)@.error_msg),
            old(self)@.phase == AccountPhase::PasswordConfirm && key == Key::Backspace && old(self)@.pass2.len() > 0 ==> r == StepResult::Continue
                && final(self)@.pass2 == old(self)@.pass2.subrange(0, old(self)@.pass2.len() - 1) && final(self)@.phase == old(self)@.phase && final(self)@.user_input == old(self)@.user_input && final(self)@.pass1 == old(self)@.pass1 && final(self)@.error_msg == old(self)@.error_msg,
            old(self)@.phase == AccountPhase::PasswordConfirm && key == Key::Backspace && old(self)@.pass2.len() == 0 ==> final(self)@ == old(self)@,
            old(self)@.phase == AccountPhase::PasswordConfirm ==> (key matches Key::Char(c) ==> r == StepResult::Continue && final(self)@.pass2 == old(self)@.pass2.push(c)
                && final(self)@.phase == old(self)@.phase && final(self)@.user_input == old(self)@.user_input && final(self)@.pass1 == old(self)@.pass1 && final(self)@.error_msg == old(self)@.error_msg),
            old(self)@.phase == AccountPhase::PasswordConfirm && key == Key::Esc ==> r == StepResult::Continue
                && final(self)@.pass1 == old(self)@.pass1 && final(self)@.user_input == old(self)@.user_input && final(self)@.pass2.len() == 0
                && final(self)@.phase == AccountPhase::Password,
            old(self)@.phase == AccountPhase::Password && key == Key::Esc ==> r == StepResult::Continue
                && final(self)@.user_input == old(self)@.user_input && final(self)@.pass1.len() == 0 && final(self)@.phase == AccountPhase::Username,
    {
        match self.phase {
            AccountPhase::Username => {
                if key == Key::Enter {
                    if self.user_input.as_str().is_empty() {
                        self.error_msg = "Username cannot be empty.".to_owned();
                        self.phase = AccountPhase::UsernameError;
                    } else if !self.validate_username() {
                        self.error_msg =
                            "Invalid username. Use lowercase letters, digits, hyphens, or underscores. Must start with a letter."
                                .to_owned();
                        self.phase = AccountPhase::UsernameError;
                    } else {
                        self.phase = AccountPhase::Password;
                    }
                    StepResult::Continue
                } else if key == Key::Esc {
                    StepResult::Back
                } else {
                    apply_edit(&mut self.user_input, key);
                    StepResult::Continue
                }
            },
            AccountPhase::UsernameError => {
                if key == Key::Enter || key == Key::Esc {
                    self.user_input = String::new();
                    self.phase = AccountPhase::Username;
                }
                StepResult::Continue
            },
            AccountPhase::Password => {
                if key == Key::Enter {
                    if self.pass1.as_str().is_empty() {
                        self.phase = AccountPhase::EmptyPasswordWarning;
                    } else {
                        self.phase = AccountPhase::PasswordConfirm;
                    }
                    StepResult::Continue
                } else if key == Key::Esc {
                    self.pass1 = String::new();
                    self.phase = AccountPhase::Username;
                    StepResult::Continue
                } else {
                    apply_edit(&mut self.pass1, key);
                    StepResult::Continue
                }
            },
            AccountPhase::PasswordConfirm => {
                if key == Key::Enter {
                    if self.pass1 == self.pass2 {
                        StepResult::Next
                    } else {
                        self.phase = AccountPhase::PasswordMismatch;
                        StepResult::Continue
                    }
                } else if key == Key::Esc {
                    self.pass2 = String::new();
                    self.phase = AccountPhase::Password;
                    StepResult::Continue
                } else {
                    apply_edit(&mut self.pass2, key);
                    StepResult::Continue
                }
            },
            AccountPhase::EmptyPasswordWarning => {
                if key_is_char(key, 'y') || key_is_char(key, 'Y') {
                    StepResult::Next
                } else if key_is_char(key, 'n') || key_is_char(key, 'N') || key == Key::Esc {
                    self.phase = AccountPhase::Password;
                    StepResult::Continue
                } else {
                    StepResult::Continue
                }
            },
            AccountPhase::PasswordMismatch => {
                if key == Key::Enter || key == Key::Esc {
                    self.pass1 = String::new();
                    self.pass2 = String::new();
                    self.phase = AccountPhase::Password;
                }
                StepResult::Continue
            },
        }
    }
}

} // verus!
