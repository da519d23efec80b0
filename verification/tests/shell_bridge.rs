use rustsible::bridge::extra_vars;
use rustsible::bridge::join_with_spaces;
use rustsible::bridge::launch_args;
use rustsible::bridge::validate_ip;
use rustsible::bridge::ProvisioningConfig;
use rustsible::cleanup::group_kill_args;
use rustsible::cleanup::is_killable_group;
use rustsible::cleanup::is_target_instance;
use rustsible::cleanup::kill_force_args;
use rustsible::cleanup::should_kill_parent;
use rustsible::style::ansible_line_style;
use rustsible::lines::LineStyle;

#[test]
fn dotted_quads_validate() {
    assert!(validate_ip(String::from("192.168.1.1")));
    assert!(validate_ip(String::from("0.0.0.0")));
    assert!(validate_ip(String::from("255.255.255.255")));
    // u8 parsing accepts a leading plus and leading zeros.
    assert!(validate_ip(String::from("+1.2.3.4")));
    assert!(validate_ip(String::from("010.2.3.4")));
}

#[test]
fn bad_addresses_are_rejected() {
    assert!(!validate_ip(String::from("")));
    assert!(!validate_ip(String::from("1.2.3")));
    assert!(!validate_ip(String::from("1.2.3.4.5")));
    assert!(!validate_ip(String::from("256.1.1.1")));
    assert!(!validate_ip(String::from("a.b.c.d")));
    assert!(!validate_ip(String::from("1..2.3")));
    assert!(!validate_ip(String::from("1.2.3.")));
    assert!(!validate_ip(String::from(".1.2.3")));
    assert!(!validate_ip(String::from("1.2.3.-4")));
    assert!(!validate_ip(String::from("1. 2.3.4")));
}

#[test]
fn shell_defaults_match() {
    let c = ProvisioningConfig::default();
    assert_eq!(c.ssh_user, "root");
    assert_eq!(c.ssh_password, "");
    assert!(c.fail2ban);
    assert!(c.docker);
    assert!(!c.lemp);
    assert!(c.cron_jobs);
    assert_eq!(c.reboot_hour, "3");
}

#[test]
fn extra_vars_list_every_setting() {
    let mut c = ProvisioningConfig::default();
    c.ip_address = String::from("10.0.0.9");
    let vars = extra_vars(&c);
    let expected = vec![
        "ip_address=10.0.0.9",
        "install_docker=true",
        "enable_swap=true",
        "install_lemp=false",
        "install_dev_tools=true",
        "install_wordpress=false",
        "install_certbot=false",
        "enable_kernel_hardening=false",
        "enable_apparmor=false",
        "enable_rkhunter=false",
        "enable_aide=false",
        "enable_auditd=false",
        "enable_logwatch=false",
        "enable_cron_jobs=true",
        "enable_periodic_reboot=false",
        "cron_reboot_hour=3",
    ];
    assert_eq!(vars, expected);
}

#[test]
fn hostname_var_appears_when_set() {
    let mut c = ProvisioningConfig::default();
    c.hostname = String::from("web01");
    let vars = extra_vars(&c);
    assert_eq!(vars.last().unwrap(), "server_hostname=web01");
}

#[test]
fn join_uses_single_spaces() {
    let v = vec![String::from("a=1"), String::from("b=2"), String::from("c=3")];
    assert_eq!(join_with_spaces(&v), "a=1 b=2 c=3");
    assert_eq!(join_with_spaces(&vec![String::from("only")]), "only");
    assert_eq!(join_with_spaces(&Vec::new()), "");
}

#[test]
fn launch_command_shape() {
    let mut c = ProvisioningConfig::default();
    c.ip_address = String::from("10.0.0.9");
    c.ssh_user = String::from("admin");
    let args = launch_args(&c);
    assert_eq!(args[0], "../playbook.yml");
    assert_eq!(args[1], "-i");
    assert_eq!(args[2], "../inventory.ini");
    assert_eq!(args[3], "-u");
    assert_eq!(args[4], "admin");
    assert_eq!(args[5], "-k");
    assert_eq!(args[6], "-e");
    assert!(args[7].starts_with("ip_address=10.0.0.9 install_docker=true"));
    assert!(args[7].ends_with("cron_reboot_hour=3"));
    assert_eq!(args.len(), 8);
}

#[test]
fn stray_instances_are_matched_by_name() {
    assert!(is_target_instance(100, "rustsible-gui", 42));
    assert!(is_target_instance(100, "some/rustsible-gui-v2", 42));
    assert!(!is_target_instance(42, "rustsible-gui", 42));
    assert!(!is_target_instance(100, "bash", 42));
}

#[test]
fn system_supervisors_are_never_killed() {
    assert!(should_kill_parent(50, "run-wrapper", 42));
    assert!(!should_kill_parent(42, "run-wrapper", 42));
    assert!(!should_kill_parent(1, "anything", 42));
    assert!(!should_kill_parent(50, "systemd", 42));
    assert!(!should_kill_parent(50, "launchd", 42));
    assert!(!should_kill_parent(50, "init", 42));
    // `init` is matched anywhere in the name.
    assert!(!should_kill_parent(50, "my-init-helper", 42));
}

#[test]
fn process_groups_above_one_may_be_killed() {
    assert!(is_killable_group(100, 42));
    assert!(!is_killable_group(1, 42));
    assert!(!is_killable_group(0, 42));
    assert!(!is_killable_group(-5, 42));
    assert!(!is_killable_group(42, 42));
}

#[test]
fn kill_commands_take_numeric_targets() {
    assert_eq!(kill_force_args(1234), vec!["-9", "1234"]);
    assert_eq!(group_kill_args(88), vec!["-9", "-88"]);
}

#[test]
fn reduced_style_cascade() {
    assert_eq!(
        ansible_line_style("fatal: broken"),
        LineStyle { color: 0xFF453A, bold: true }
    );
    assert_eq!(
        ansible_line_style("changed: [host]"),
        LineStyle { color: 0xFF9F0A, bold: false }
    );
    assert_eq!(
        ansible_line_style("ok: [host]"),
        LineStyle { color: 0x30D158, bold: false }
    );
    assert_eq!(
        ansible_line_style("TASK [x]"),
        LineStyle { color: 0xFFFFFF, bold: true }
    );
    assert_eq!(
        ansible_line_style("something else"),
        LineStyle { color: 0xA0A0A5, bold: false }
    );
}
