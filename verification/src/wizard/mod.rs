//! The installer wizard: one screen per step, each a small state machine
//! driven by key presses.

pub mod boot_mode;
pub mod complete;
pub mod confirm;
pub mod disk;
pub mod display;
pub mod edit;
pub mod error;
pub mod filesystem;
pub mod hostname;
pub mod list;
pub mod progress;
pub mod root_password;
pub mod summary;
pub mod timezone;
pub mod user_account;
pub mod welcome;

use vstd::prelude::*;
use crate::config::{ConfigModel, InstallConfig, disk_line};
use crate::install::Progress;
use boot_mode::{BootModeScreen, boot_mode_result};
use complete::{CompleteScreen, is_no_reboot_key, is_reboot_key};
use confirm::ConfirmScreen;
use disk::{DiskScreen, disk_step, selected_disk_of};
use error::{ErrorScreen, error_result};
use filesystem::{FilesystemScreen, filesystem_step, selected_fs};
use hostname::{HostnameScreen, hostname_key_ok, hostname_step, hostname_value};
use progress::ProgressScreen;
use root_password::{RootPasswordScreen, optional_password, root_password_step};
use summary::SummaryScreen;
use timezone::{TimezoneScreen, present_regions, timezone_of, timezone_step};
use user_account::{UserAccountScreen, user_account_step};
use welcome::{WelcomeScreen, welcome_result, welcome_screen};
use display::{ScreenModel, ScreenText, screen_view};
use boot_mode::boot_mode_screen;
use complete::complete_screen;
use confirm::confirm_screen;
use disk::disk_screen;
use error::error_screen;
use filesystem::filesystem_screen;
use hostname::hostname_screen;
use progress::progress_screen;
use root_password::root_password_screen;
use summary::summary_screen;
use timezone::timezone_screen;
use user_account::user_account_screen;

verus! {

/// What a screen asks the wizard to do after a key press.
#[derive(Debug, Clone, Copy, PartialEq, Eq, Structural)]
pub enum StepResult {
    Continue,
    Next,
    Back,
    Quit,
}

/// A key press, as the screens see it.
#[derive(Debug, Clone, Copy, PartialEq, Eq, Structural)]
pub enum Key {
    Enter,
    Esc,
    Backspace,
    Up,
    Down,
    Char(char),
    /// Any other key; every screen ignores it.
    Other,
}

/// `key` is the character key `c`.
pub open spec fn is_char(key: Key, c: char) -> bool {
    key matches Key::Char(k) && k == c
}

/// The answer keys of the yes/no screens: `y`, `Y` or Enter go on, `n`, `N`
/// or Esc go back, anything else is ignored.
pub open spec fn yes_no_result(key: Key) -> StepResult {
    if key == Key::Enter || is_char(key, 'y') || is_char(key, 'Y') {
        StepResult::Next
    } else if key == Key::Esc || is_char(key, 'n') || is_char(key, 'N') {
        StepResult::Back
    } else {
        StepResult::Continue
    }
}

/// `key` is the character key `c`.
pub fn key_is_char(key: Key, c: char) -> (b: bool)
    ensures
        b == is_char(key, c),
{
    match key {
        Key::Char(k) => k == c,
        _ => false,
    }
}

/// Result of a yes/no screen for `key`.
pub fn yes_no(key: Key) -> (r: StepResult)
    ensures
        r == yes_no_result(key),
{
    if key == Key::Enter || key_is_char(key, 'y') || key_is_char(key, 'Y') {
        StepResult::Next
    } else if key == Key::Esc || key_is_char(key, 'n') || key_is_char(key, 'N') {
        StepResult::Back
    } else {
        StepResult::Continue
    }
}


/// The wizard's steps.
#[derive(Debug, Clone, Copy, PartialEq, Eq, Structural)]
pub enum Step {
    Welcome,
    Disk,
    DiskConfirm,
    BootMode,
    Filesystem,
    Hostname,
    RootPassword,
    UserAccount,
    Timezone,
    Summary,
    Installing,
    Complete,
    Error,
}

/// The steps in the order the wizard walks them, up to `Complete`; `Error`
/// comes last and is reached only when the installation fails.
pub const STEP_ORDER: [Step; 13] = [
    Step::Welcome,
    Step::Disk,
    Step::DiskConfirm,
    Step::BootMode,
    Step::Filesystem,
    Step::Hostname,
    Step::RootPassword,
    Step::UserAccount,
    Step::Timezone,
    Step::Summary,
    Step::Installing,
    Step::Complete,
    Step::Error,
];

/// Number of steps in `STEP_ORDER`.
pub const STEP_COUNT: usize = 13;

/// Position of `Step::Complete` in `STEP_ORDER`, the end of the walk.
pub const COMPLETE_INDEX: usize = 11;

/// Position of `Step::Error` in `STEP_ORDER`.
pub const ERROR_INDEX: usize = 12;

pub open spec fn step_at(i: nat) -> Step {
    STEP_ORDER@[i as int]
}

/// The step index after a screen's result: one further on `Next`, one back
/// on `Back`, never before the first step nor past `Complete`.
pub open spec fn next_step_index(i: nat, r: StepResult) -> nat {
    match r {
        StepResult::Next => if i < COMPLETE_INDEX { i + 1 } else { i },
        StepResult::Back => if i > 0 { (i - 1) as nat } else { i },
        _ => i,
    }
}

/// What the caller has to do after a key press.
#[derive(Debug, Clone, Copy, PartialEq, Eq, Structural)]
pub enum WizardAction {
    /// Nothing beyond drawing again.
    Continue,
    /// Leave the installer.
    Quit,
    /// Start the installation with the collected configuration; the wizard
    /// now shows its progress.
    StartInstall,
}

/// Top-level wizard that owns all per-step state and the install config.
pub struct Wizard {
    pub step_idx: usize,
    pub config: InstallConfig,
    pub welcome: WelcomeScreen,
    pub disk: DiskScreen,
    pub confirm: ConfirmScreen,
    pub boot_mode: BootModeScreen,
    pub filesystem: FilesystemScreen,
    pub hostname: HostnameScreen,
    pub root_password: RootPasswordScreen,
    pub user_account: UserAccountScreen,
    pub timezone: TimezoneScreen,
    pub summary: SummaryScreen,
    pub progress: ProgressScreen,
    pub complete: CompleteScreen,
    pub error: ErrorScreen,
    pub install_active: bool,
}

/// The result the current screen gives for `key`.
pub open spec fn screen_result(w: Wizard, step: Step, key: Key) -> StepResult {
    match step {
        Step::Welcome => welcome_result(key),
        Step::Disk => disk_step(w.disk@, key).1,
        Step::DiskConfirm => yes_no_result(key),
        Step::BootMode => boot_mode_result(key),
        Step::Filesystem => filesystem_step(w.filesystem@, key).1,
        Step::Hostname => hostname_step(w.hostname@, key).1,
        Step::RootPassword => root_password_step(w.root_password@, key).1,
        Step::UserAccount => user_account_step(w.user_account@, key).1,
        Step::Timezone => timezone_step(w.timezone@, key).1,
        Step::Summary => yes_no_result(key),
        Step::Installing => StepResult::Continue,
        Step::Complete => if is_reboot_key(key) || is_no_reboot_key(key) {
            StepResult::Quit
        } else {
            StepResult::Continue
        },
        Step::Error => error_result(key),
    }
}

/// The configuration after the current screen answered `r`: the screen's
/// value is taken over when it answers `Next`; on the boot mode step the
/// detected firmware is recorded whatever the key.
pub open spec fn config_after(w_old: Wizard, w_new: Wizard, step: Step, r: StepResult, efi_present: bool) -> ConfigModel {
    let c = w_old.config@;
    match step {
        Step::Disk => if r == StepResult::Next {
            match selected_disk_of(w_new.disk@) {
                Some(d) => ConfigModel {
                    disk: d.path@,
                    disk_info: disk_line(d.path@, d.size_gb as nat, d.model@),
                    ..c
                },
                None => c,
            }
        } else {
            c
        },
        Step::BootMode => ConfigModel { uefi: efi_present, ..c },
        Step::Filesystem => if r == StepResult::Next {
            ConfigModel { fs_type: selected_fs(w_new.filesystem@), ..c }
        } else {
            c
        },
        Step::Hostname => if r == StepResult::Next {
            ConfigModel { hostname: hostname_value(w_new.hostname@.input), ..c }
        } else {
            c
        },
        Step::RootPassword => if r == StepResult::Next {
            ConfigModel { root_password: optional_password(w_new.root_password@.pass1), ..c }
        } else {
            c
        },
        Step::UserAccount => if r == StepResult::Next {
            ConfigModel {
                username: w_new.user_account@.user_input,
                user_password: optional_password(w_new.user_account@.pass1),
                ..c
            }
        } else {
            c
        },
        Step::Timezone => if r == StepResult::Next {
            ConfigModel { timezone: timezone_of(w_new.timezone@), ..c }
        } else {
            c
        },
        _ => c,
    }
}

/// What the installation's reports change in the wizard.
pub struct PollState {
    pub percent: nat,
    pub message: Seq<char>,
    pub error: Seq<char>,
    pub active: bool,
    pub step: nat,
}

pub open spec fn progress_view(p: Progress) -> ProgressReport {
    match p {
        Progress::Update { percent, message } => ProgressReport::Update(percent as nat, message@),
        Progress::Complete => ProgressReport::Complete,
        Progress::Error(e) => ProgressReport::Error(e@),
    }
}

/// A progress report with its texts as character sequences.
pub enum ProgressReport {
    Update(nat, Seq<char>),
    Complete,
    Error(Seq<char>),
}

/// The reports applied in order while the installation is active: an update
/// moves the gauge, completion fills it and turns to the completion screen,
/// an error records its message and turns to the error screen; after
/// completion or an error the rest is dropped.
pub open spec fn apply_reports(st: PollState, msgs: Seq<ProgressReport>) -> PollState
    decreases msgs.len(),
{
    if msgs.len() == 0 || !st.active {
        st
    } else {
        match msgs[0] {
            ProgressReport::Update(p, m) => apply_reports(PollState { percent: p, message: m, ..st }, msgs.drop_first()),
            ProgressReport::Complete => PollState {
                percent: 100,
                message: "Installation complete!"@,
                active: false,
                step: COMPLETE_INDEX as nat,
                ..st
            },
            ProgressReport::Error(e) => PollState { error: e, active: false, step: ERROR_INDEX as nat, ..st },
        }
    }
}

/// A key moves the wizard at most one step, and never off its list of steps.
pub proof fn lemma_one_step_per_key(i: nat, r: StepResult)
    requires
        i < STEP_COUNT,
    ensures
        next_step_index(i, r) < STEP_COUNT,
        next_step_index(i, r) <= i + 1,
        i <= next_step_index(i, r) + 1,
{
}

/// Going back undoes going forward along the walk: from any step before
/// `Complete`, `Next` and then `Back` return to it; from any step after the
/// first up to `Complete`, `Back` and then `Next` do.
pub proof fn lemma_back_undoes_next(i: nat)
    requires
        i <= COMPLETE_INDEX,
    ensures
        i < COMPLETE_INDEX ==> next_step_index(next_step_index(i, StepResult::Next), StepResult::Back) == i,
        i > 0 ==> next_step_index(next_step_index(i, StepResult::Back), StepResult::Next) == i,
{
}

/// Reports may be polled in any batches: applying two batches one after the
/// other gives what applying them all at once gives.
pub proof fn lemma_poll_batches(st: PollState, a: Seq<ProgressReport>, b: Seq<ProgressReport>)
    ensures
        apply_reports(apply_reports(st, a), b) == apply_reports(st, a + b),
    decreases a.len(),
{
    if a.len() == 0 {
        assert(a + b =~= b);
    } else if st.active {
        assert((a + b)[0] == a[0]);
        assert((a + b).drop_first() =~= a.drop_first() + b);
        match a[0] {
            ProgressReport::Update(p, m) => {
                lemma_poll_batches(PollState { percent: p, message: m, ..st }, a.drop_first(), b);
            },
            _ => {},
        }
    }
}

/// Once the installation has ended, with completion or an error, further
/// reports change nothing.
pub proof fn lemma_reports_after_end(st: PollState, msgs: Seq<ProgressReport>)
    requires
        !st.active,
    ensures
        apply_reports(st, msgs) == st,
{
}

/// What the wizard shows: the screen of the current step.
pub open spec fn wizard_screen(w: Wizard) -> ScreenModel {
    match step_at(w.step_idx as nat) {
        Step::Welcome => welcome_screen(),
        Step::Disk => disk_screen(w.disk@),
        Step::DiskConfirm => confirm_screen(w.config.disk_info@),
        Step::BootMode => boot_mode_screen(w.config.uefi),
        Step::Filesystem => filesystem_screen(w.filesystem@),
        Step::Hostname => hostname_screen(w.hostname@.input),
        Step::RootPassword => root_password_screen(w.root_password@),
        Step::UserAccount => user_account_screen(w.user_account@),
        Step::Timezone => timezone_screen(w.timezone@),
        Step::Summary => summary_screen(w.config@),
        Step::Installing => progress_screen(w.progress.percent_shown(), w.progress.message_text()),
        Step::Complete => complete_screen(),
        Step::Error => error_screen(w.error.message_text()),
    }
}

impl Wizard {
    pub open spec fn step_index(&self) -> nat {
        self.step_idx as nat
    }

    pub open spec fn installing(&self) -> bool {
        self.install_active
    }

    pub open spec fn poll_state(&self) -> PollState {
        PollState {
            percent: self.progress.percent_shown(),
            message: self.progress.message_text(),
            error: self.error.message_text(),
            active: self.installing(),
            step: self.step_index(),
        }
    }

    pub open spec fn wf(&self) -> bool {
        &&& self.step_idx < STEP_COUNT
        &&& self.disk.wf()
        &&& self.filesystem.wf()
        &&& self.root_password.wf()
        &&& self.user_account.wf()
        &&& self.timezone.wf()
    }

    /// A wizard on its first step; `region_present[i]` says whether the
    /// zoneinfo directory of `TIMEZONE_REGIONS[i]` exists.
    pub fn new(config: InstallConfig, region_present: &Vec<bool>) -> (w: Self)
        requires
            region_present@.len() == 11,
        ensures
            w.wf(),
            w.step_index() == 0,
            !w.installing(),
            w.config == config,
            w.disk@.disks.len() == 0 && w.disk@.selected is None && !w.disk@.scanned,
            w.filesystem@ == Some(0usize),
            w.hostname@.input == crate::config::DEFAULT_HOSTNAME@ && w.hostname@.cursor == 7,
            w.root_password@.phase == root_password::RootPasswordPhase::Enter,
            w.root_password@.pass1.len() == 0 && w.root_password@.pass2.len() == 0,
            w.user_account@.phase == user_account::AccountPhase::Username,
            w.user_account@.user_input.len() == 0 && w.user_account@.pass1.len() == 0,
            w.user_account@.pass2.len() == 0 && w.user_account@.error_msg.len() == 0,
            w.timezone@.phase == timezone::TimezonePhase::Region,
            w.timezone@.regions == present_regions(region_present@, 11),
            w.timezone@.region_sel == timezone::first_row(w.timezone@.regions.len()),
            w.timezone@.cities.len() == 0 && w.timezone@.city_sel is None,
            w.timezone@.selected_region.len() == 0 && !w.timezone@.cities_pending,
            w.progress.percent_shown() == 0 && w.progress.message_text() == "Preparing..."@,
            w.error.message_text().len() == 0,
            !w.complete.reboot_chosen(),
    {
        Self {
            step_idx: 0,
            config,
            welcome: WelcomeScreen,
            disk: DiskScreen::new(),
            confirm: ConfirmScreen,
            boot_mode: BootModeScreen,
            filesystem: FilesystemScreen::new(),
            hostname: HostnameScreen::new(),
            root_password: RootPasswordScreen::new(),
            user_account: UserAccountScreen::new(),
            timezone: TimezoneScreen::new(region_present),
            summary: SummaryScreen,
            progress: ProgressScreen::new(),
            complete: CompleteScreen::new(),
            error: ErrorScreen::new(),
            install_active: false,
        }
    }

    /// The step on screen.
    pub fn current_step(&self) -> (s: Step)
        requires
            self.wf(),
        ensures
            s == step_at(self.step_index()),
    {
        STEP_ORDER[self.step_idx]
    }

    /// The screen of the current step.
    pub fn screen(&self) -> (r: ScreenText)
        requires
            self.wf(),
        ensures
            screen_view(r) == wizard_screen(*self),
    {
        match STEP_ORDER[self.step_idx] {
            Step::Welcome => self.welcome.text(),
            Step::Disk => self.disk.text(),
            Step::DiskConfirm => self.confirm.text(&self.config),
            Step::BootMode => self.boot_mode.text(&self.config),
            Step::Filesystem => self.filesystem.text(),
            Step::Hostname => self.hostname.text(),
            Step::RootPassword => self.root_password.text(),
            Step::UserAccount => self.user_account.text(),
            Step::Timezone => self.timezone.text(),
            Step::Summary => self.summary.text(&self.config),
            Step::Installing => self.progress.text(),
            Step::Complete => self.complete.text(),
            Step::Error => self.error.text(),
        }
    }

    /// The installation was started and has not reported its end yet.
    pub fn is_installing(&self) -> (b: bool)
        ensures
            b == self.installing(),
    {
        self.install_active
    }

    /// Handles a key press on the current step. `efi_present` says whether
    /// `/sys/firmware/efi` exists; the boot mode step records it.
    #[verifier::rlimit(60)]
    #[verifier::spinoff_prover]
    pub fn handle_input(&mut self, key: Key, efi_present: bool) -> (a: WizardAction)
        requires
            old(self).wf(),
            step_at(old(self).step_index()) == Step::Hostname ==> hostname_key_ok(old(self).hostname@, key),
        ensures
            final(self).wf(),
            ({
                let step = step_at(old(self).step_index());
                let r = screen_result(*old(self), step, key);
                &&& step == Step::Complete || step == Step::Error ==> final(self).step_index() == old(self).step_index()
                    && a == (if r == StepResult::Quit { WizardAction::Quit } else { WizardAction::Continue })
                &&& step != Step::Complete && step != Step::Error ==> final(self).step_index() == next_step_index(
                    old(self).step_index(),
                    r,
                ) && a == (if r == StepResult::Quit {
                    WizardAction::Quit
                } else if step == Step::Summary && r == StepResult::Next {
                    WizardAction::StartInstall
                } else {
                    WizardAction::Continue
                })
                &&& final(self).config@ == config_after(*old(self), *final(self), step, r, efi_present)
                &&& final(self).installing() == (old(self).installing() || a == WizardAction::StartInstall)
                &&& step == Step::Disk ==> final(self).disk@ == disk_step(old(self).disk@, key).0
                &&& step != Step::Disk ==> final(self).disk == old(self).disk
                &&& step == Step::Filesystem ==> final(self).filesystem@ == filesystem_step(old(self).filesystem@, key).0
                &&& step != Step::Filesystem ==> final(self).filesystem == old(self).filesystem
                &&& step == Step::Hostname ==> final(self).hostname@ == hostname_step(old(self).hostname@, key).0
                &&& step != Step::Hostname ==> final(self).hostname == old(self).hostname
                &&& step == Step::RootPassword ==> final(self).root_password@ == root_password_step(
                    old(self).root_password@,
                    key,
                ).0
                &&& step != Step::RootPassword ==> final(self).root_password == old(self).root_password
                &&& step == Step::UserAccount ==> final(self).user_account@ == user_account_step(
                    old(self).user_account@,
                    key,
                ).0
                &&& step != Step::UserAccount ==> final(self).user_account == old(self).user_account
                &&& step == Step::Timezone ==> final(self).timezone@ == timezone_step(old(self).timezone@, key).0
                &&& step != Step::Timezone ==> final(self).timezone == old(self).timezone
                &&& step == Step::Complete && is_reboot_key(key) ==> final(self).complete.reboot_chosen()
                &&& step == Step::Complete && is_no_reboot_key(key) ==> !final(self).complete.reboot_chosen()
                &&& !(step == Step::Complete && (is_reboot_key(key) || is_no_reboot_key(key)))
                    ==> final(self).complete.reboot_chosen() == old(self).complete.reboot_chosen()
                &&& final(self).progress == old(self).progress
                &&& final(self).error == old(self).error
            }),
    {
        let step = STEP_ORDER[self.step_idx];
        let result = match step {
            Step::Welcome => self.welcome.handle_input(key),
            Step::Disk => {
                let r = self.disk.handle_input(key);
                if r == StepResult::Next {
                    if let Some(d) = self.disk.selected_disk() {
                        let path = d.path.clone();
                        let info = d.to_display_string();
                        self.config.disk = path;
                        self.config.disk_info = info;
                    }
                }
                r
            },
            Step::DiskConfirm => self.confirm.handle_input(key),
            Step::BootMode => {
                self.config.uefi = efi_present;
                self.boot_mode.handle_input(key)
            },
            Step::Filesystem => {
                let r = self.filesystem.handle_input(key);
                if r == StepResult::Next {
                    self.config.fs_type = self.filesystem.selected();
                }
                r
            },
            Step::Hostname => {
                let r = self.hostname.handle_input(key);
                if r == StepResult::Next {
                    self.config.hostname = self.hostname.value();
                }
                r
            },
            Step::RootPassword => {
                let r = self.root_password.handle_input(key);
                if r == StepResult::Next {
                    self.config.root_password = self.root_password.password();
                }
                r
            },
            Step::UserAccount => {
                let r = self.user_account.handle_input(key);
                if r == StepResult::Next {
                    self.config.username = self.user_account.username();
                    self.config.user_password = self.user_account.password();
                }
                r
            },
            Step::Timezone => {
                let r = self.timezone.handle_input(key);
                if r == StepResult::Next {
                    self.config.timezone = self.timezone.selected_timezone();
                }
                r
            },
            Step::Summary => {
                let r = self.summary.handle_input(key);
                if r == StepResult::Next {
                    self.install_active = true;
                }
                r
            },
            Step::Installing => self.progress.handle_input(key),
            Step::Complete => {
                let r = self.complete.handle_input(key);
                return if r == StepResult::Quit { WizardAction::Quit } else { WizardAction::Continue };
            },
            Step::Error => {
                let r = self.error.handle_input(key);
                return if r == StepResult::Quit { WizardAction::Quit } else { WizardAction::Continue };
            },
        };
        match result {
            StepResult::Next => {
                if self.step_idx < COMPLETE_INDEX {
                    self.step_idx = self.step_idx + 1;
                }
            },
            StepResult::Back => {
                if self.step_idx > 0 {
                    self.step_idx = self.step_idx - 1;
                }
            },
            StepResult::Quit => {
                return WizardAction::Quit;
            },
            StepResult::Continue => {},
        }
        if step == Step::Summary && result == StepResult::Next {
            WizardAction::StartInstall
        } else {
            WizardAction::Continue
        }
    }

    /// Applies the reports the installation sent since the last call, in
    /// order. Nothing happens unless the installing step is on screen and the
    /// installation is running.
    pub fn poll_progress(&mut self, messages: Vec<Progress>)
        requires
            old(self).wf(),
        ensures
            final(self).wf(),
            step_at(old(self).step_index()) == Step::Installing ==> final(self).poll_state() == apply_reports(
                old(self).poll_state(),
                messages@.map_values(|p: Progress| progress_view(p)),
            ),
            step_at(old(self).step_index()) != Step::Installing ==> final(self).poll_state() == old(self).poll_state(),
            final(self).config == old(self).config,
            final(self).disk == old(self).disk,
            final(self).filesystem == old(self).filesystem,
            final(self).hostname == old(self).hostname,
            final(self).root_password == old(self).root_password,
            final(self).user_account == old(self).user_account,
            final(self).timezone == old(self).timezone,
            final(self).complete == old(self).complete,
    {
        if STEP_ORDER[self.step_idx] != Step::Installing {
            return;
        }
        let ghost msgs = messages@.map_values(|p: Progress| progress_view(p));
        let ghost target = apply_reports(self.poll_state(), msgs);
        let mut i: usize = 0;
        let n = messages.len();
        assert(msgs.skip(0) =~= msgs);
        while i < n
            invariant
                n == messages@.len(),
                i <= n,
                msgs == messages@.map_values(|p: Progress| progress_view(p)),
                self.wf(),
                target == apply_reports(self.poll_state(), msgs.skip(i as int)),
                target == apply_reports(old(self).poll_state(), msgs),
                step_at(old(self).step_index()) == Step::Installing,
                self.config == old(self).config,
                self.disk == old(self).disk,
                self.filesystem == old(self).filesystem,
                self.hostname == old(self).hostname,
                self.root_password == old(self).root_password,
                self.user_account == old(self).user_account,
                self.timezone == old(self).timezone,
                self.complete == old(self).complete,
            ensures
                i == n || !self.install_active,
                target == apply_reports(self.poll_state(), msgs.skip(i as int)),
                target == apply_reports(old(self).poll_state(), msgs),
                n == messages@.len(),
                i <= n,
                msgs == messages@.map_values(|p: Progress| progress_view(p)),
                self.wf(),
                self.config == old(self).config,
                self.disk == old(self).disk,
                self.filesystem == old(self).filesystem,
                self.hostname == old(self).hostname,
                self.root_password == old(self).root_password,
                self.user_account == old(self).user_account,
                self.timezone == old(self).timezone,
                self.complete == old(self).complete,
            decreases n - i,
        {
            if !self.install_active {
                break;
            }
            let ghost rest = msgs.skip(i as int);
            assert(rest[0] == progress_view(messages@[i as int]));
            assert(rest.drop_first() =~= msgs.skip(i + 1));
            match &messages[i] {
                Progress::Update { percent, message } => {
                    self.progress.update(*percent, message.as_str());
                },
                Progress::Complete => {
                    self.progress.update(100, "Installation complete!");
                    self.install_active = false;
                    self.step_idx = COMPLETE_INDEX;
                    assert(self.poll_state() == target);
                    return;
                },
                Progress::Error(msg) => {
                    self.error.set_message(msg.as_str());
                    self.install_active = false;
                    self.step_idx = ERROR_INDEX;
                    assert(self.poll_state() == target);
                    return;
                },
            }
            i = i + 1;
        }
        if i == n {
            assert(msgs.skip(i as int) =~= Seq::<ProgressReport>::empty());
        }
        if !self.install_active {
            assert(!self.poll_state().active);
            assert(apply_reports(self.poll_state(), msgs.skip(i as int)) == self.poll_state());
        } else {
            assert(i == n);
            assert(msgs.skip(i as int).len() == 0);
            assert(apply_reports(self.poll_state(), msgs.skip(i as int)) == self.poll_state());
        }
    }
}

} // verus!
