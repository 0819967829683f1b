use eclipse_installer::config::{FsType, InstallConfig};
use eclipse_installer::wizard::boot_mode::BootModeScreen;
use eclipse_installer::wizard::complete::CompleteScreen;
use eclipse_installer::wizard::confirm::ConfirmScreen;
use eclipse_installer::wizard::disk::{BlockEntry, DiskScreen};
use eclipse_installer::wizard::display::{masked_text, Body, ScreenText, Tone};
use eclipse_installer::wizard::error::ErrorScreen;
use eclipse_installer::wizard::filesystem::FilesystemScreen;
use eclipse_installer::wizard::hostname::HostnameScreen;
use eclipse_installer::wizard::progress::ProgressScreen;
use eclipse_installer::wizard::root_password::RootPasswordScreen;
use eclipse_installer::wizard::summary::SummaryScreen;
use eclipse_installer::wizard::timezone::TimezoneScreen;
use eclipse_installer::wizard::user_account::UserAccountScreen;
use eclipse_installer::wizard::welcome::WelcomeScreen;
use eclipse_installer::wizard::{Key, Wizard};

fn text_lines(s: &ScreenText) -> Vec<(Tone, String)> {
    match &s.body {
        Body::Text { lines, .. } => lines.iter().map(|l| (l.tone, l.text.clone())).collect(),
        other => panic!("not text: {:?}", other),
    }
}

fn plain(lines: &[&str]) -> Vec<(Tone, String)> {
    lines.iter().map(|l| (Tone::Plain, l.to_string())).collect()
}

fn choice(s: &ScreenText) -> (Vec<String>, Option<usize>) {
    match &s.body {
        Body::Choice { items, selected } => (items.clone(), *selected),
        other => panic!("not a list: {:?}", other),
    }
}

fn keys(w: &str) -> Vec<Key> {
    w.chars().map(Key::Char).collect()
}

#[test]
fn masking() {
    assert_eq!(masked_text(0), "_");
    assert_eq!(masked_text(3), "***_");
}

#[test]
fn welcome_text() {
    let s = WelcomeScreen.text();
    assert_eq!(s.title, "Eclipse Linux Installer");
    assert_eq!(s.footer, " [Enter] Continue  [q/Esc] Quit ");
    assert_eq!((s.width, s.height), (65, 15));
    let l = text_lines(&s);
    assert_eq!(l.len(), 11);
    assert_eq!(l[1], (Tone::Heading, "Welcome to the Eclipse Linux Installer".to_string()));
    assert_eq!(l[7], (Tone::Notice, "All data on the selected disk will be destroyed.".to_string()));
    assert_eq!(l[10], (Tone::Muted, "Press Enter to continue or Esc to quit.".to_string()));
    assert!(matches!(s.body, Body::Text { centered: true, .. }));
}

fn config() -> InstallConfig {
    let mut c = InstallConfig::new("/".to_string(), true);
    c.disk = "/dev/sda".to_string();
    c.disk_info = "/dev/sda - 238GB - Disk A".to_string();
    c.fs_type = FsType::Xfs;
    c.hostname = "orion".to_string();
    c.username = "alice".to_string();
    c.user_password = Some("pw".to_string());
    c.timezone = "Europe/Paris".to_string();
    c
}

#[test]
fn confirm_text() {
    let s = ConfirmScreen.text(&config());
    assert_eq!(s.title, "Confirm Disk");
    let l = text_lines(&s);
    assert_eq!(l[3], (Tone::Plain, "  /dev/sda - 238GB - Disk A".to_string()));
    assert_eq!(l[5], (Tone::Warning, "ALL DATA ON THIS DISK WILL BE DESTROYED.".to_string()));
}

#[test]
fn boot_mode_text() {
    let mut c = config();
    let uefi = text_lines(&BootModeScreen.text(&c));
    assert_eq!(uefi[1].1, "Detected boot mode: UEFI");
    assert_eq!(uefi[6].1, "  512MB EFI System Partition (FAT32)");
    c.uefi = false;
    let bios = text_lines(&BootModeScreen.text(&c));
    assert_eq!(bios[1].1, "Detected boot mode: BIOS (Legacy)");
    assert_eq!(bios[6].1, "  2MB BIOS boot partition");
    assert_eq!(bios.len(), 10);
}

#[test]
fn summary_text() {
    let s = SummaryScreen.text(&config());
    assert_eq!(s.footer, " [y/Enter] Proceed  [n/Esc] Go back ");
    let l = text_lines(&s);
    let body: Vec<String> = l[3..11].iter().map(|x| x.1.clone()).collect();
    assert_eq!(
        body,
        vec![
            "  Disk:        /dev/sda",
            "  Boot mode:   UEFI",
            "  Filesystem:  xfs",
            "  Hostname:    orion",
            "  User:        alice",
            "  Timezone:    Europe/Paris",
            "  Root pass:   (none)",
            "  User pass:   (set)",
        ]
    );
    assert_eq!(l[12], (Tone::Warning, "ALL DATA ON /dev/sda WILL BE DESTROYED.".to_string()));
    assert_eq!(l[14].1, "Proceed with installation?");
}

#[test]
fn complete_and_error_text() {
    let c = text_lines(&CompleteScreen::new().text());
    assert_eq!(c[1], (Tone::Success, "Eclipse Linux has been installed successfully!".to_string()));
    let mut e = ErrorScreen::new();
    e.set_message("rsync failed:\nno space left\n");
    let s = e.text();
    assert_eq!(s.footer, " [q/Esc] Quit ");
    let mut want = vec![(Tone::Plain, String::new()), (Tone::Error, "Installation Failed".to_string())];
    want.extend(plain(&["", "rsync failed:", "no space left", "", "Check /tmp/eclipse-install.log for details.", "", "Press q or Esc to quit."]));
    assert_eq!(text_lines(&s), want);
}

#[test]
fn progress_text() {
    let mut p = ProgressScreen::new();
    p.update(85, "Installing GRUB bootloader...");
    assert_eq!(p.label(), "85%");
    match p.text().body {
        Body::Gauge { status, percent, label } => {
            assert_eq!(status, "Installing GRUB bootloader...");
            assert_eq!(percent, 85);
            assert_eq!(label, "85%");
        }
        other => panic!("{:?}", other),
    }
}

#[test]
fn hostname_text() {
    let mut h = HostnameScreen::new();
    h.handle_input(Key::Char('1'));
    let l = text_lines(&h.text());
    assert_eq!(l[1].1, "Enter a hostname for this system:");
    assert_eq!(l[3], (Tone::Entry, "eclipse1_".to_string()));
}

#[test]
fn root_password_text_phases() {
    let mut r = RootPasswordScreen::new();
    for k in keys("pä") {
        r.handle_input(k);
    }
    let s = r.text();
    assert_eq!(s.footer, " [Enter] Confirm  [Esc] Back ");
    assert_eq!(text_lines(&s)[3], (Tone::Entry, "***_".to_string()));
    r.handle_input(Key::Enter);
    let s = r.text();
    assert_eq!(s.footer, " [Enter] Confirm  [Esc] Re-enter ");
    assert_eq!(text_lines(&s)[1].1, "Confirm root password:");
    assert_eq!(text_lines(&s)[3].1, "_");
    r.handle_input(Key::Char('x'));
    r.handle_input(Key::Enter);
    let s = r.text();
    assert_eq!(s.footer, " [Enter] Try again ");
    assert_eq!(text_lines(&s)[2], (Tone::Warning, "Passwords do not match. Press Enter to try again.".to_string()));
    let mut empty = RootPasswordScreen::new();
    empty.handle_input(Key::Enter);
    let s = empty.text();
    assert_eq!(s.footer, " [y] Continue without password  [n] Go back ");
    assert_eq!(text_lines(&s)[1], (Tone::Warning, "No password set. Root will have no password.".to_string()));
}

#[test]
fn user_account_text_phases() {
    let mut u = UserAccountScreen::new();
    for k in keys("bo") {
        u.handle_input(k);
    }
    assert_eq!(text_lines(&u.text())[3], (Tone::Entry, "bo_".to_string()));
    u.handle_input(Key::Enter);
    let s = u.text();
    assert_eq!(s.footer, " [Enter] Confirm  [Esc] Back to username ");
    assert_eq!(text_lines(&s)[1].1, "Enter password for bo:");
    u.handle_input(Key::Enter);
    assert_eq!(text_lines(&u.text())[1], (Tone::Warning, "No password set for bo. Continue?".to_string()));
    let mut bad = UserAccountScreen::new();
    bad.handle_input(Key::Enter);
    let s = bad.text();
    assert_eq!(s.footer, " [Enter] Try again ");
    assert_eq!(text_lines(&s)[2], (Tone::Error, "Username cannot be empty.".to_string()));
}

#[test]
fn list_screens() {
    let mut d = DiskScreen::new();
    let empty = d.text();
    assert_eq!(text_lines(&empty)[1], (Tone::Error, "No suitable disks found.".to_string()));
    let e = BlockEntry {
        name: "vda".to_string(),
        dev_exists: true,
        size_text: Some("41943040".to_string()),
        model_text: None,
    };
    d.scan_disks(&vec![e], &Vec::new());
    assert_eq!(choice(&d.text()), (vec!["  /dev/vda - 20GB - Unknown".to_string()], Some(0)));

    let mut f = FilesystemScreen::new();
    f.handle_input(Key::Down);
    assert_eq!(
        choice(&f.text()),
        (
            vec![
                "  ext4 (recommended, stable)".to_string(),
                "  Btrfs (snapshots, compression)".to_string(),
                "  XFS (high performance)".to_string(),
            ],
            Some(1)
        )
    );

    let mut present = vec![false; 11];
    present[7] = true;
    let mut t = TimezoneScreen::new(&present);
    assert_eq!(t.text().title, "Timezone Region");
    assert_eq!(choice(&t.text()), (vec!["  Europe".to_string()], Some(0)));
    t.handle_input(Key::Enter);
    t.load_cities(&Vec::new(), &Vec::new());
    let s = t.text();
    assert_eq!(s.title, "Timezone");
    assert_eq!(s.footer, " [Up/Down] Select  [Enter] Confirm  [Esc] Back to region ");
    assert_eq!(text_lines(&s), plain(&["No cities found. Using UTC."]));
    let none = TimezoneScreen::new(&vec![false; 11]);
    assert_eq!(text_lines(&none.text()), plain(&["No timezone regions found. Using UTC."]));
}

#[test]
fn wizard_shows_current_step() {
    let mut w = Wizard::new(InstallConfig::new("/".to_string(), false), &vec![true; 11]);
    assert_eq!(w.screen().title, "Eclipse Linux Installer");
    w.handle_input(Key::Enter, false);
    assert_eq!(w.screen().title, "Select Disk");
}
