use eclipse_installer::log::{clock_text, log_record, output_log_messages};

#[test]
fn clock_of_epoch_seconds() {
    assert_eq!(clock_text(0), "00:00:00");
    assert_eq!(clock_text(3661), "01:01:01");
    assert_eq!(clock_text(86399), "23:59:59");
    assert_eq!(clock_text(86400), "00:00:00");
    assert_eq!(clock_text(1_700_000_000), "22:13:20");
    assert_eq!(clock_text(u64::MAX), {
        let s = u64::MAX;
        format!("{:02}:{:02}:{:02}", (s % 86400) / 3600, (s % 3600) / 60, s % 60)
    });
}

#[test]
fn record_layout() {
    assert_eq!(log_record("12:00:01", "Eclipse Linux Installer started"), "[12:00:01] Eclipse Linux Installer started\n");
    assert_eq!(log_record("", ""), "[] \n");
}

#[test]
fn command_output_messages() {
    assert_eq!(
        output_log_messages("mkfs.ext4", "done\n\n", "warning: x  \n"),
        vec!["[mkfs.ext4] stdout: done".to_string(), "[mkfs.ext4] stderr: warning: x".to_string()]
    );
    assert_eq!(output_log_messages("rsync", "", "boom\n"), vec!["[rsync] stderr: boom".to_string()]);
    assert_eq!(output_log_messages("rsync", "ok", ""), vec!["[rsync] stdout: ok".to_string()]);
    assert!(output_log_messages("true", "", "").is_empty());
    // Output made of white space is logged, with nothing after the label.
    assert_eq!(output_log_messages("sh", " \n", ""), vec!["[sh] stdout: ".to_string()]);
}
