use eclipse_installer::config::{DiskInfo, FsType, InstallConfig};
use eclipse_installer::install::Progress;
use eclipse_installer::wizard::boot_mode::BootModeScreen;
use eclipse_installer::wizard::complete::CompleteScreen;
use eclipse_installer::wizard::confirm::ConfirmScreen;
use eclipse_installer::wizard::disk::{mounted_devices, scan_block_entries, BlockEntry, DiskScreen};
use eclipse_installer::wizard::error::ErrorScreen;
use eclipse_installer::wizard::filesystem::FilesystemScreen;
use eclipse_installer::wizard::hostname::HostnameScreen;
use eclipse_installer::wizard::progress::ProgressScreen;
use eclipse_installer::wizard::root_password::{RootPasswordPhase, RootPasswordScreen};
use eclipse_installer::wizard::summary::SummaryScreen;
use eclipse_installer::wizard::timezone::{TimezonePhase, TimezoneScreen};
use eclipse_installer::wizard::user_account::{AccountPhase, UserAccountScreen};
use eclipse_installer::wizard::welcome::WelcomeScreen;
use eclipse_installer::wizard::{yes_no, Key, Step, StepResult, Wizard, WizardAction};

fn type_text(s: &str) -> Vec<Key> {
    s.chars().map(Key::Char).collect()
}

fn entry(name: &str, dev: bool, size: Option<&str>, model: Option<&str>) -> BlockEntry {
    BlockEntry {
        name: name.to_string(),
        dev_exists: dev,
        size_text: size.map(|s| s.to_string()),
        model_text: model.map(|s| s.to_string()),
    }
}

fn lines(ds: &[DiskInfo]) -> Vec<String> {
    ds.iter().map(|d| d.to_display_string()).collect()
}

#[test]
fn yes_no_keys() {
    assert_eq!(yes_no(Key::Enter), StepResult::Next);
    assert_eq!(yes_no(Key::Char('y')), StepResult::Next);
    assert_eq!(yes_no(Key::Char('Y')), StepResult::Next);
    assert_eq!(yes_no(Key::Esc), StepResult::Back);
    assert_eq!(yes_no(Key::Char('n')), StepResult::Back);
    assert_eq!(yes_no(Key::Char('N')), StepResult::Back);
    assert_eq!(yes_no(Key::Char('x')), StepResult::Continue);
    assert_eq!(ConfirmScreen.handle_input(Key::Char('y')), StepResult::Next);
    assert_eq!(SummaryScreen.handle_input(Key::Esc), StepResult::Back);
}

#[test]
fn welcome_keys() {
    let mut w = WelcomeScreen;
    assert_eq!(w.handle_input(Key::Enter), StepResult::Next);
    assert_eq!(w.handle_input(Key::Esc), StepResult::Quit);
    assert_eq!(w.handle_input(Key::Char('q')), StepResult::Quit);
    assert_eq!(w.handle_input(Key::Char('Q')), StepResult::Continue);
    assert_eq!(w.handle_input(Key::Up), StepResult::Continue);
}

#[test]
fn boot_mode_screen() {
    let b = BootModeScreen;
    assert_eq!(b.handle_input(Key::Enter), StepResult::Next);
    assert_eq!(b.handle_input(Key::Esc), StepResult::Back);
    assert_eq!(b.handle_input(Key::Char('y')), StepResult::Continue);
    assert_eq!(
        BootModeScreen::layout_lines(true),
        ["  GPT partition table", "  512MB EFI System Partition (FAT32)", "  Remaining space: root partition"]
    );
    assert_eq!(
        BootModeScreen::layout_lines(false),
        ["  GPT partition table", "  2MB BIOS boot partition", "  Remaining space: root partition"]
    );
}

#[test]
fn summary_password_status() {
    assert_eq!(SummaryScreen::password_status(&Some("x".to_string())), "(set)");
    assert_eq!(SummaryScreen::password_status(&None), "(none)");
}

#[test]
fn complete_screen_reboot_choice() {
    let mut c = CompleteScreen::new();
    assert!(!c.should_reboot());
    assert_eq!(c.handle_input(Key::Enter), StepResult::Continue);
    assert!(!c.should_reboot());
    assert_eq!(c.handle_input(Key::Char('Y')), StepResult::Quit);
    assert!(c.should_reboot());
    assert_eq!(c.handle_input(Key::Char('q')), StepResult::Quit);
    assert!(!c.should_reboot());
    let mut d = CompleteScreen::new();
    assert_eq!(d.handle_input(Key::Esc), StepResult::Quit);
    assert!(!d.should_reboot());
}

#[test]
fn error_screen() {
    let mut e = ErrorScreen::new();
    assert_eq!(e.message(), "");
    e.set_message("rsync failed: disk full");
    assert_eq!(e.message(), "rsync failed: disk full");
    assert_eq!(e.handle_input(Key::Char('q')), StepResult::Quit);
    assert_eq!(e.handle_input(Key::Enter), StepResult::Quit);
    assert_eq!(e.handle_input(Key::Esc), StepResult::Quit);
    assert_eq!(e.handle_input(Key::Char('x')), StepResult::Continue);
}

#[test]
fn progress_screen() {
    let mut p = ProgressScreen::new();
    assert_eq!(p.percent(), 0);
    assert_eq!(p.message(), "Preparing...");
    p.update(42, "Copying");
    assert_eq!(p.percent(), 42);
    assert_eq!(p.message(), "Copying");
    assert_eq!(p.handle_input(Key::Esc), StepResult::Continue);
}

#[test]
fn mount_output_devices() {
    let out = "/dev/sda2 on / type ext4 (rw)\nproc on /proc type proc (rw)\n  /dev/sdb1 on /mnt type vfat (rw)\n\ntmpfs on /run type tmpfs\n/devx on /y\n";
    assert_eq!(mounted_devices(out), vec!["/dev/sda2".to_string(), "/dev/sdb1".to_string()]);
    assert!(mounted_devices("").is_empty());
}

#[test]
fn disk_scan_filters_and_orders() {
    let entries = vec![
        entry("nvme0n1", true, Some("1000215216\n"), Some("Samsung  SSD 970  \n")),
        entry("sda", true, Some("500118192"), None),
        entry("sdb", true, Some("62521344"), Some("USB")),
        entry("vda", true, Some("2097152"), Some("   ")),
        entry("sdc", false, Some("500118192"), Some("x")),
        entry("loop0", true, Some("500118192"), Some("x")),
        entry("sdd", true, Some("2097151"), Some("tiny")),
        entry("sde", true, Some("garbage"), Some("x")),
    ];
    let mounted = vec!["/dev/sdb1".to_string()];
    let disks = scan_block_entries(&entries, &mounted);
    assert_eq!(
        lines(&disks),
        vec![
            "/dev/sda - 238GB - Unknown".to_string(),
            "/dev/vda - 1GB - Unknown".to_string(),
            "/dev/nvme0n1 - 476GB - Samsung SSD 970".to_string(),
        ]
    );
}

#[test]
fn disk_screen_navigation() {
    let mut d = DiskScreen::new();
    assert!(d.needs_scan());
    assert_eq!(d.handle_input(Key::Enter), StepResult::Continue);
    let entries = vec![entry("sda", true, Some("500118192"), Some("A")), entry("sdb", true, Some("500118192"), Some("B"))];
    d.scan_disks(&entries, &Vec::new());
    assert!(!d.needs_scan());
    assert_eq!(d.selected_index(), Some(0));
    assert_eq!(d.handle_input(Key::Up), StepResult::Continue);
    assert_eq!(d.selected_index(), Some(0));
    assert_eq!(d.handle_input(Key::Down), StepResult::Continue);
    assert_eq!(d.handle_input(Key::Down), StepResult::Continue);
    assert_eq!(d.selected_index(), Some(1));
    assert_eq!(d.selected_disk().map(|x| x.path.clone()), Some("/dev/sdb".to_string()));
    assert_eq!(d.handle_input(Key::Enter), StepResult::Next);
    assert_eq!(d.handle_input(Key::Esc), StepResult::Back);
    d.invalidate();
    assert!(d.needs_scan());
    assert_eq!(d.disks().len(), 2);
}

#[test]
fn filesystem_screen() {
    let mut f = FilesystemScreen::new();
    assert_eq!(f.selected(), FsType::Ext4);
    f.handle_input(Key::Up);
    assert_eq!(f.selected_index(), Some(0));
    f.handle_input(Key::Down);
    f.handle_input(Key::Down);
    f.handle_input(Key::Down);
    assert_eq!(f.selected(), FsType::Xfs);
    f.handle_input(Key::Up);
    assert_eq!(f.selected(), FsType::Btrfs);
    assert_eq!(f.handle_input(Key::Enter), StepResult::Next);
    assert_eq!(f.handle_input(Key::Esc), StepResult::Back);
}

#[test]
fn hostname_editing() {
    let mut h = HostnameScreen::new();
    assert_eq!(h.input(), "eclipse");
    assert_eq!(h.value(), "eclipse");
    for k in type_text("-01") {
        assert_eq!(h.handle_input(k), StepResult::Continue);
    }
    assert_eq!(h.value(), "eclipse-01");
    h.handle_input(Key::Backspace);
    assert_eq!(h.input(), "eclipse-0");
    assert_eq!(h.handle_input(Key::Enter), StepResult::Next);
    assert_eq!(h.handle_input(Key::Esc), StepResult::Back);
}

#[test]
fn hostname_falls_back_to_default() {
    let mut h = HostnameScreen::new();
    for _ in 0..10 {
        h.handle_input(Key::Backspace);
    }
    assert_eq!(h.input(), "");
    assert_eq!(h.value(), "eclipse");
    for k in type_text("   ") {
        h.handle_input(k);
    }
    assert_eq!(h.value(), "eclipse");
    for k in type_text(" box ") {
        h.handle_input(k);
    }
    assert_eq!(h.value(), "box");
}

#[test]
fn root_password_confirmed() {
    let mut r = RootPasswordScreen::new();
    assert_eq!(r.phase(), RootPasswordPhase::Enter);
    for k in type_text("hunter2") {
        r.handle_input(k);
    }
    assert_eq!(r.typed_len(), 7);
    assert_eq!(r.handle_input(Key::Enter), StepResult::Continue);
    assert_eq!(r.phase(), RootPasswordPhase::Confirm);
    assert_eq!(r.typed_len(), 0);
    for k in type_text("hunter2") {
        r.handle_input(k);
    }
    assert_eq!(r.handle_input(Key::Enter), StepResult::Next);
    assert_eq!(r.password(), Some("hunter2".to_string()));
}

#[test]
fn root_password_mismatch_restarts() {
    let mut r = RootPasswordScreen::new();
    for k in type_text("abc") {
        r.handle_input(k);
    }
    r.handle_input(Key::Enter);
    for k in type_text("abd") {
        r.handle_input(k);
    }
    assert_eq!(r.handle_input(Key::Enter), StepResult::Continue);
    assert_eq!(r.phase(), RootPasswordPhase::Mismatch);
    r.handle_input(Key::Char('z'));
    assert_eq!(r.phase(), RootPasswordPhase::Mismatch);
    r.handle_input(Key::Enter);
    assert_eq!(r.phase(), RootPasswordPhase::Enter);
    assert_eq!(r.password(), None);
    assert_eq!(r.typed_len(), 0);
}

#[test]
fn root_password_empty_needs_consent() {
    let mut r = RootPasswordScreen::new();
    assert_eq!(r.handle_input(Key::Enter), StepResult::Continue);
    assert_eq!(r.phase(), RootPasswordPhase::EmptyWarning);
    assert_eq!(r.handle_input(Key::Char('n')), StepResult::Continue);
    assert_eq!(r.phase(), RootPasswordPhase::Enter);
    assert_eq!(r.handle_input(Key::Esc), StepResult::Back);
    r.handle_input(Key::Enter);
    assert_eq!(r.handle_input(Key::Char('Y')), StepResult::Next);
    assert_eq!(r.password(), None);
}

#[test]
fn root_password_confirm_esc_returns_to_entry() {
    let mut r = RootPasswordScreen::new();
    for k in type_text("pw") {
        r.handle_input(k);
    }
    r.handle_input(Key::Enter);
    r.handle_input(Key::Char('p'));
    assert_eq!(r.handle_input(Key::Esc), StepResult::Continue);
    assert_eq!(r.phase(), RootPasswordPhase::Enter);
    assert_eq!(r.password(), Some("pw".to_string()));
}

#[test]
fn user_account_valid_flow() {
    let mut u = UserAccountScreen::new();
    for k in type_text("alice_2-x") {
        u.handle_input(k);
    }
    assert_eq!(u.handle_input(Key::Enter), StepResult::Continue);
    assert_eq!(u.phase(), AccountPhase::Password);
    for k in type_text("pässword") {
        u.handle_input(k);
    }
    assert_eq!(u.typed_len(), "pässword".len());
    u.handle_input(Key::Enter);
    assert_eq!(u.phase(), AccountPhase::PasswordConfirm);
    for k in type_text("pässword") {
        u.handle_input(k);
    }
    assert_eq!(u.handle_input(Key::Enter), StepResult::Next);
    assert_eq!(u.username(), "alice_2-x");
    assert_eq!(u.password(), Some("pässword".to_string()));
}

#[test]
fn user_account_rejects_bad_names() {
    for bad in ["Alice", "1abc", "_x", "al ice", "bob!", "ÿ"] {
        let mut u = UserAccountScreen::new();
        for k in type_text(bad) {
            u.handle_input(k);
        }
        assert_eq!(u.handle_input(Key::Enter), StepResult::Continue, "{}", bad);
        assert_eq!(u.phase(), AccountPhase::UsernameError, "{}", bad);
        assert_eq!(
            u.error_message(),
            "Invalid username. Use lowercase letters, digits, hyphens, or underscores. Must start with a letter."
        );
        u.handle_input(Key::Enter);
        assert_eq!(u.phase(), AccountPhase::Username);
        assert_eq!(u.username(), "");
    }
}

#[test]
fn user_account_empty_name_and_password() {
    let mut u = UserAccountScreen::new();
    assert_eq!(u.handle_input(Key::Enter), StepResult::Continue);
    assert_eq!(u.phase(), AccountPhase::UsernameError);
    assert_eq!(u.error_message(), "Username cannot be empty.");
    u.handle_input(Key::Esc);
    assert_eq!(u.phase(), AccountPhase::Username);
    for k in type_text("z") {
        u.handle_input(k);
    }
    u.handle_input(Key::Enter);
    assert_eq!(u.handle_input(Key::Enter), StepResult::Continue);
    assert_eq!(u.phase(), AccountPhase::EmptyPasswordWarning);
    assert_eq!(u.handle_input(Key::Esc), StepResult::Continue);
    assert_eq!(u.phase(), AccountPhase::Password);
    assert_eq!(u.handle_input(Key::Esc), StepResult::Continue);
    assert_eq!(u.phase(), AccountPhase::Username);
    assert_eq!(u.handle_input(Key::Esc), StepResult::Back);
    u.handle_input(Key::Enter);
    u.handle_input(Key::Enter);
    assert_eq!(u.handle_input(Key::Char('y')), StepResult::Next);
    assert_eq!(u.password(), None);
}

#[test]
fn user_account_password_mismatch() {
    let mut u = UserAccountScreen::new();
    for k in type_text("bob") {
        u.handle_input(k);
    }
    u.handle_input(Key::Enter);
    for k in type_text("one") {
        u.handle_input(k);
    }
    u.handle_input(Key::Enter);
    for k in type_text("two") {
        u.handle_input(k);
    }
    u.handle_input(Key::Enter);
    assert_eq!(u.phase(), AccountPhase::PasswordMismatch);
    u.handle_input(Key::Esc);
    assert_eq!(u.phase(), AccountPhase::Password);
    assert_eq!(u.password(), None);
}

fn all_regions() -> Vec<bool> {
    vec![true; 11]
}

#[test]
fn timezone_regions_present() {
    let mut present = vec![false; 11];
    present[1] = true;
    present[7] = true;
    let t = TimezoneScreen::new(&present);
    assert_eq!(t.regions(), &vec!["America".to_string(), "Europe".to_string()]);
    assert_eq!(t.region_index(), Some(0));
    assert_eq!(t.selected_timezone(), "UTC");
    let none = TimezoneScreen::new(&vec![false; 11]);
    assert_eq!(none.region_index(), None);
}

#[test]
fn timezone_region_then_city() {
    let mut t = TimezoneScreen::new(&all_regions());
    t.handle_input(Key::Down);
    t.handle_input(Key::Down);
    t.handle_input(Key::Up);
    assert_eq!(t.region_index(), Some(1));
    assert_eq!(t.handle_input(Key::Enter), StepResult::Continue);
    assert_eq!(t.phase(), TimezonePhase::City);
    assert!(t.needs_cities());
    assert_eq!(t.city_dir(), "/usr/share/zoneinfo/America");
    let names = vec!["New_York".to_string(), "Argentina".to_string(), "Chicago".to_string(), "Adak".to_string()];
    t.load_cities(&names, &vec![true, false, true, true]);
    assert!(!t.needs_cities());
    assert_eq!(t.cities(), &vec!["Adak".to_string(), "Chicago".to_string(), "New_York".to_string()]);
    assert_eq!(t.city_index(), Some(0));
    t.handle_input(Key::Down);
    assert_eq!(t.selected_timezone(), "America/Chicago");
    assert_eq!(t.handle_input(Key::Enter), StepResult::Next);
    assert_eq!(t.handle_input(Key::Esc), StepResult::Continue);
    assert_eq!(t.phase(), TimezonePhase::Region);
    assert_eq!(t.handle_input(Key::Esc), StepResult::Back);
}

#[test]
fn timezone_empty_region_returns() {
    let mut t = TimezoneScreen::new(&all_regions());
    t.handle_input(Key::Enter);
    t.load_cities(&Vec::new(), &Vec::new());
    assert_eq!(t.selected_timezone(), "UTC");
    assert_eq!(t.handle_input(Key::Enter), StepResult::Continue);
    assert_eq!(t.phase(), TimezonePhase::Region);
    let mut none = TimezoneScreen::new(&vec![false; 11]);
    assert_eq!(none.handle_input(Key::Enter), StepResult::Next);
    assert_eq!(none.selected_timezone(), "UTC");
}

fn press(w: &mut Wizard, keys: Vec<Key>) -> WizardAction {
    let mut last = WizardAction::Continue;
    for k in keys {
        last = w.handle_input(k, true);
    }
    last
}

fn walk_to_summary(w: &mut Wizard) {
    assert_eq!(press(w, vec![Key::Enter]), WizardAction::Continue);
    assert_eq!(w.current_step(), Step::Disk);
    let entries = vec![entry("sda", true, Some("500118192"), Some("Disk A"))];
    w.disk.scan_disks(&entries, &Vec::new());
    press(w, vec![Key::Enter]);
    assert_eq!(w.current_step(), Step::DiskConfirm);
    assert_eq!(w.config.disk, "/dev/sda");
    assert_eq!(w.config.disk_info, "/dev/sda - 238GB - Disk A");
    press(w, vec![Key::Char('y')]);
    assert_eq!(w.current_step(), Step::BootMode);
    press(w, vec![Key::Enter]);
    assert!(w.config.uefi);
    assert_eq!(w.current_step(), Step::Filesystem);
    press(w, vec![Key::Down, Key::Enter]);
    assert_eq!(w.config.fs_type, FsType::Btrfs);
    assert_eq!(w.current_step(), Step::Hostname);
    let mut keys = vec![Key::Backspace; 7];
    keys.extend(type_text("orion"));
    keys.push(Key::Enter);
    press(w, keys);
    assert_eq!(w.config.hostname, "orion");
    assert_eq!(w.current_step(), Step::RootPassword);
    press(w, vec![Key::Enter, Key::Char('y')]);
    assert_eq!(w.config.root_password, None);
    assert_eq!(w.current_step(), Step::UserAccount);
    let mut keys = type_text("alice");
    keys.push(Key::Enter);
    keys.extend(type_text("pw"));
    keys.push(Key::Enter);
    keys.extend(type_text("pw"));
    keys.push(Key::Enter);
    press(w, keys);
    assert_eq!(w.config.username, "alice");
    assert_eq!(w.config.user_password, Some("pw".to_string()));
    assert_eq!(w.current_step(), Step::Timezone);
    press(w, vec![Key::Down, Key::Enter]);
    assert!(w.timezone.needs_cities());
    w.timezone.load_cities(&vec!["Juneau".to_string(), "Adak".to_string()], &vec![true, true]);
    press(w, vec![Key::Enter]);
    assert_eq!(w.config.timezone, "America/Adak");
    assert_eq!(w.current_step(), Step::Summary);
}

#[test]
fn wizard_full_run_completes() {
    let mut w = Wizard::new(InstallConfig::new("/run/rootfsbase".to_string(), false), &all_regions());
    assert_eq!(w.current_step(), Step::Welcome);
    assert!(!w.is_installing());
    walk_to_summary(&mut w);
    assert_eq!(press(&mut w, vec![Key::Char('y')]), WizardAction::StartInstall);
    assert_eq!(w.current_step(), Step::Installing);
    assert!(w.is_installing());
    assert_eq!(press(&mut w, vec![Key::Esc, Key::Char('q')]), WizardAction::Continue);
    assert_eq!(w.current_step(), Step::Installing);
    w.poll_progress(vec![Progress::Update { percent: 15, message: "Formatting partitions...".to_string() }]);
    assert_eq!(w.progress.percent(), 15);
    assert_eq!(w.progress.message(), "Formatting partitions...");
    w.poll_progress(vec![
        Progress::Update { percent: 95, message: "Building initramfs...".to_string() },
        Progress::Complete,
        Progress::Update { percent: 1, message: "late".to_string() },
    ]);
    assert_eq!(w.current_step(), Step::Complete);
    assert!(!w.is_installing());
    assert_eq!(w.progress.percent(), 100);
    assert_eq!(w.progress.message(), "Installation complete!");
    w.poll_progress(vec![Progress::Error("ignored".to_string())]);
    assert_eq!(w.error.message(), "");
    assert_eq!(press(&mut w, vec![Key::Enter]), WizardAction::Continue);
    assert_eq!(press(&mut w, vec![Key::Char('y')]), WizardAction::Quit);
    assert!(w.complete.should_reboot());
}

#[test]
fn wizard_install_error_shows_error_screen() {
    let mut w = Wizard::new(InstallConfig::new("/".to_string(), false), &all_regions());
    walk_to_summary(&mut w);
    press(&mut w, vec![Key::Enter]);
    assert!(w.is_installing());
    w.poll_progress(vec![
        Progress::Error("mkfs.btrfs failed (exit 1): busy".to_string()),
        Progress::Complete,
    ]);
    assert!(!w.is_installing());
    assert_eq!(w.error.message(), "mkfs.btrfs failed (exit 1): busy");
    assert_eq!(w.current_step(), Step::Error);
    assert_eq!(w.screen().title, "Error");
    // Later reports change nothing; a key other than q, Esc or Enter stays.
    w.poll_progress(vec![Progress::Complete]);
    assert_eq!(w.current_step(), Step::Error);
    assert_eq!(press(&mut w, vec![Key::Char('x')]), WizardAction::Continue);
    assert_eq!(w.current_step(), Step::Error);
    assert_eq!(press(&mut w, vec![Key::Enter]), WizardAction::Quit);
}

#[test]
fn wizard_back_and_quit() {
    let mut w = Wizard::new(InstallConfig::new("/".to_string(), true), &all_regions());
    assert_eq!(press(&mut w, vec![Key::Enter]), WizardAction::Continue);
    assert_eq!(w.current_step(), Step::Disk);
    assert_eq!(press(&mut w, vec![Key::Esc]), WizardAction::Continue);
    assert_eq!(w.current_step(), Step::Welcome);
    // Enter on a disk list that was not scanned does nothing.
    press(&mut w, vec![Key::Enter, Key::Enter]);
    assert_eq!(w.current_step(), Step::Disk);
    press(&mut w, vec![Key::Esc]);
    assert_eq!(press(&mut w, vec![Key::Char('q')]), WizardAction::Quit);
    assert_eq!(w.current_step(), Step::Welcome);
}

#[test]
fn wizard_boot_mode_records_firmware() {
    let mut w = Wizard::new(InstallConfig::new("/".to_string(), true), &all_regions());
    w.handle_input(Key::Enter, false);
    w.disk.scan_disks(&vec![entry("vda", true, Some("41943040"), None)], &Vec::new());
    w.handle_input(Key::Enter, false);
    w.handle_input(Key::Enter, false);
    assert_eq!(w.current_step(), Step::BootMode);
    assert!(w.config.uefi);
    // Any key on the boot mode step records what was detected.
    w.handle_input(Key::Char('x'), false);
    assert!(!w.config.uefi);
    assert_eq!(w.current_step(), Step::BootMode);
    w.handle_input(Key::Esc, true);
    assert!(w.config.uefi);
    assert_eq!(w.current_step(), Step::DiskConfirm);
}

fn installing_wizard() -> Wizard {
    let mut w = Wizard::new(InstallConfig::new("/".to_string(), false), &all_regions());
    walk_to_summary(&mut w);
    press(&mut w, vec![Key::Enter]);
    w
}

fn reports() -> Vec<Progress> {
    vec![
        Progress::Update { percent: 15, message: "Formatting partitions...".to_string() },
        Progress::Update { percent: 25, message: "Mounting target filesystem...".to_string() },
        Progress::Error("mount failed (exit 32): busy".to_string()),
        Progress::Update { percent: 30, message: "late".to_string() },
    ]
}

#[test]
fn polling_in_batches_is_polling_once() {
    let mut once = installing_wizard();
    once.poll_progress(reports());
    let mut split = installing_wizard();
    let mut all = reports();
    let rest = all.split_off(1);
    split.poll_progress(all);
    assert!(split.is_installing());
    split.poll_progress(rest);
    for w in [&once, &split] {
        assert!(!w.is_installing());
        assert_eq!(w.progress.percent(), 25);
        assert_eq!(w.progress.message(), "Mounting target filesystem...");
        assert_eq!(w.error.message(), "mount failed (exit 32): busy");
        assert_eq!(w.current_step(), Step::Error);
    }
}
