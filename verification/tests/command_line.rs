use rustsible::args::bool_to_yes_no;
use rustsible::args::expand_tilde;
use rustsible::args::playbook_args;
use rustsible::config::ProvisioningConfig;

fn sample_config() -> ProvisioningConfig {
    let mut c = ProvisioningConfig::initial(String::from("/home/op/.ssh/id_rsa"));
    c.ip_address = String::from("10.0.0.5");
    c.hostname = String::from("web01");
    c
}

#[test]
fn yes_no_follows_the_toggle() {
    assert_eq!(bool_to_yes_no(true), "yes");
    assert_eq!(bool_to_yes_no(false), "no");
}

#[test]
fn tilde_paths_expand_to_home() {
    assert_eq!(expand_tilde("~/.ssh/id_rsa", "/home/op"), "/home/op/.ssh/id_rsa");
    assert_eq!(expand_tilde("/etc/key", "/home/op"), "/etc/key");
    assert_eq!(expand_tilde("~", "/home/op"), "~");
}

#[test]
fn playbook_args_carry_every_setting() {
    let c = sample_config();
    let args = playbook_args(&c, "/home/op/.ssh/id_rsa");
    let expected = vec![
        "playbook.yml",
        "-e",
        "target_ip=10.0.0.5",
        "-e",
        "target_user=root",
        "-e",
        "ssh_key_path=/home/op/.ssh/id_rsa",
        "-e",
        "target_hostname=web01",
        "-e",
        "prompt_enable_fail2ban=yes",
        "-e",
        "prompt_install_docker=yes",
        "-e",
        "prompt_install_lemp=no",
        "-e",
        "prompt_enable_swap=yes",
        "-e",
        "prompt_enable_cron_jobs=yes",
        "-e",
        "prompt_install_dev_tools=yes",
        "-e",
        "prompt_install_wordpress=no",
        "-e",
        "prompt_install_certbot=no",
        "-e",
        "prompt_enable_periodic_reboot=no",
        "-e",
        "prompt_reboot_hour=3",
    ];
    assert_eq!(args, expected);
}

#[test]
fn empty_hostname_is_left_out() {
    let mut c = sample_config();
    c.hostname = String::new();
    let args = playbook_args(&c, "/home/op/.ssh/id_rsa");
    assert!(!args.iter().any(|a| a.starts_with("target_hostname=")));
    assert_eq!(args.len(), 27);
}

#[test]
fn security_flags_appear_exactly_for_checked_boxes() {
    let mut c = sample_config();
    c.system_hardening = true;
    c.rootkit_detection = true;
    let args = playbook_args(&c, "/home/op/.ssh/id_rsa");
    assert!(args.iter().any(|a| a == "enable_kernel_hardening=yes"));
    assert!(args.iter().any(|a| a == "enable_rkhunter=yes"));
    assert!(!args.iter().any(|a| a == "enable_apparmor=yes"));
    assert!(!args.iter().any(|a| a == "enable_aide=yes"));
    assert!(!args.iter().any(|a| a == "enable_auditd=yes"));
    assert!(!args.iter().any(|a| a == "enable_logwatch=yes"));
    assert!(!args.iter().any(|a| a == "enable_ssh_2fa=yes"));
}

#[test]
fn advanced_protection_adds_three_flags() {
    let mut c = sample_config();
    c.advanced_protection = true;
    let args = playbook_args(&c, "/home/op/.ssh/id_rsa");
    assert!(args.iter().any(|a| a == "enable_ssh_2fa=yes"));
    assert!(args.iter().any(|a| a == "enable_backups=yes"));
    assert!(args.iter().any(|a| a == "enable_usb_restrictions=yes"));
}

#[test]
fn all_security_flags_together() {
    let mut c = sample_config();
    c.system_hardening = true;
    c.apparmor = true;
    c.rootkit_detection = true;
    c.file_integrity = true;
    c.audit_logging = true;
    c.log_monitoring = true;
    c.advanced_protection = true;
    let args = playbook_args(&c, "/home/op/.ssh/id_rsa");
    let tail: Vec<&str> = args[29..].iter().map(|s| s.as_str()).collect();
    assert_eq!(
        tail,
        vec![
            "-e",
            "enable_kernel_hardening=yes",
            "-e",
            "enable_apparmor=yes",
            "-e",
            "enable_rkhunter=yes",
            "-e",
            "enable_aide=yes",
            "-e",
            "enable_auditd=yes",
            "-e",
            "enable_logwatch=yes",
            "-e",
            "enable_ssh_2fa=yes",
            "-e",
            "enable_backups=yes",
            "-e",
            "enable_usb_restrictions=yes",
        ]
    );
}
