use rustsible::config::default_ssh_key_path;
use rustsible::config::default_true;
use rustsible::config::format_reboot_schedule;
use rustsible::config::ProvisioningConfig;
use rustsible::numfmt::i32_to_string;
use rustsible::numfmt::u32_to_string;
use rustsible::report::exit_failure_message;
use rustsible::report::failure_detail;

#[test]
fn default_true_is_true() {
    assert!(default_true());
}

#[test]
fn fresh_config_has_shipped_defaults() {
    let c = ProvisioningConfig::initial(String::from("/home/op/.ssh/id_rsa"));
    assert_eq!(c.ip_address, "");
    assert_eq!(c.ssh_user, "root");
    assert_eq!(c.ssh_key_path, "/home/op/.ssh/id_rsa");
    assert_eq!(c.added_user, "organic");
    assert!(c.create_user);
    assert!(c.fail2ban);
    assert!(c.docker);
    assert!(c.swap);
    assert!(!c.lemp);
    assert!(c.devtools);
    assert!(!c.wordpress);
    assert!(!c.certbot);
    assert!(!c.system_hardening);
    assert!(!c.advanced_protection);
    assert!(c.install_neovim);
    assert!(c.install_nodejs);
    assert!(c.install_claude_code);
    assert!(!c.install_gemini);
    assert!(!c.install_uv);
    assert!(!c.install_fish);
    assert!(c.cron_jobs);
    assert!(!c.periodic_reboot);
    assert_eq!(c.reboot_hour, "3");
}

#[test]
fn default_leaves_key_path_empty() {
    let c = ProvisioningConfig::default();
    assert_eq!(c.ssh_key_path, "");
    assert_eq!(c.ssh_user, "root");
}

#[test]
fn key_path_is_under_home() {
    assert_eq!(default_ssh_key_path("/home/op"), "/home/op/.ssh/id_rsa");
    assert_eq!(default_ssh_key_path(""), "/.ssh/id_rsa");
}

#[test]
fn reboot_schedule_labels() {
    assert_eq!(format_reboot_schedule("1"), "Daily at 1:00 AM");
    assert_eq!(format_reboot_schedule("2"), "Daily at 2:00 AM");
    assert_eq!(format_reboot_schedule("3"), "Daily at 3:00 AM");
    assert_eq!(format_reboot_schedule("4"), "Daily at 4:00 AM");
    assert_eq!(format_reboot_schedule("5"), "Daily at 5:00 AM");
    assert_eq!(format_reboot_schedule("*/6"), "Every 6 hours");
    assert_eq!(format_reboot_schedule("*/12"), "Every 12 hours");
    assert_eq!(format_reboot_schedule("*/24"), "Every 24 hours");
    assert_eq!(format_reboot_schedule("7"), "Daily at 3:00 AM");
    assert_eq!(format_reboot_schedule(""), "Daily at 3:00 AM");
}

#[test]
fn integers_render_in_decimal() {
    assert_eq!(u32_to_string(0), "0");
    assert_eq!(u32_to_string(7), "7");
    assert_eq!(u32_to_string(1024), "1024");
    assert_eq!(u32_to_string(u32::MAX), "4294967295");
    assert_eq!(i32_to_string(0), "0");
    assert_eq!(i32_to_string(-1), "-1");
    assert_eq!(i32_to_string(137), "137");
    assert_eq!(i32_to_string(i32::MIN), "-2147483648");
}

#[test]
fn exit_message_carries_the_code() {
    assert_eq!(exit_failure_message(-1), "Provisioning failed with exit code: -1");
    assert_eq!(exit_failure_message(2), "Provisioning failed with exit code: 2");
}

#[test]
fn failure_detail_quotes_error_lines() {
    let lines = vec![
        String::from("ok: [host]"),
        String::from("fatal: [host]: FAILED! => {\"msg\": \"boom\"}"),
        String::from("PLAY RECAP"),
    ];
    assert_eq!(
        failure_detail(&lines),
        "Provisioning failed.\n\nErrors:\nfatal: [host]: FAILED! => {\"msg\": \"boom\"}"
    );
}

#[test]
fn failure_detail_falls_back_to_last_five_lines() {
    let lines: Vec<String> = (1..=7).map(|i| format!("line {}", i)).collect();
    assert_eq!(
        failure_detail(&lines),
        "Provisioning failed.\n\nLast output:\nline 3\nline 4\nline 5\nline 6\nline 7"
    );
}

#[test]
fn failure_detail_with_no_output() {
    let lines: Vec<String> = Vec::new();
    assert_eq!(failure_detail(&lines), "Provisioning failed.\n\nLast output:\n");
}
