//! Construction of the argument list handed to the external
//! provisioning tool: one `-e key=value` extra-variable per setting,
//! derived 1:1 from the operator's choices.

use vstd::prelude::*;

use crate::config::ProvisioningConfig;

verus! {

/// The `yes`/`no` rendering of a toggle.
pub open spec fn yes_no(b: bool) -> Seq<char> {
    if b {
        "yes"@
    } else {
        "no"@
    }
}

/// Renders a toggle the way the tool's prompt variables expect it.
pub fn bool_to_yes_no(value: bool) -> (r: &'static str)
    ensures
        r@ == yes_no(value),
{
    if value {
        "yes"
    } else {
        "no"
    }
}

/// `~/` at the front of `path` replaced by the home directory.
pub open spec fn expand_tilde_spec(path: Seq<char>, home: Seq<char>) -> Seq<char> {
    if path.len() >= 2 && path[0] == '~' && path[1] == '/' {
        home + path.skip(1)
    } else {
        path
    }
}

/// Expands a leading `~/` in a key path to the given home directory;
/// any other path is returned unchanged.
pub fn expand_tilde(path: &str, home: &str) -> (r: String)
    ensures
        r@ == expand_tilde_spec(path@, home@),
{
    let n = path.unicode_len();
    if n >= 2 && path.get_char(0) == '~' && path.get_char(1) == '/' {
        let rest = path.substring_char(1, n);
        proof {
            assert(rest@ =~= path@.skip(1));
        }
        String::from_str(home).concat(rest)
    } else {
        String::from_str(path)
    }
}

/// An optional `-e <flag>` pair.
pub open spec fn opt_flag(on: bool, flag: Seq<char>) -> Seq<Seq<char>> {
    if on {
        seq!["-e"@, flag]
    } else {
        Seq::<Seq<char>>::empty()
    }
}

/// The arguments that are always present, in order: the playbook, the
/// connection variables, the optional hostname, and one prompt variable
/// per core toggle.
pub open spec fn fixed_args(c: &ProvisioningConfig, key_path: Seq<char>) -> Seq<Seq<char>> {
    seq![
        "playbook.yml"@,
        "-e"@,
        "target_ip="@ + c.ip_address@,
        "-e"@,
        "target_user="@ + c.ssh_user@,
        "-e"@,
        "ssh_key_path="@ + key_path,
    ] + (if c.hostname@.len() > 0 {
        seq!["-e"@, "target_hostname="@ + c.hostname@]
    } else {
        Seq::<Seq<char>>::empty()
    }) + seq![
        "-e"@,
        "prompt_enable_fail2ban="@ + yes_no(c.fail2ban),
        "-e"@,
        "prompt_install_docker="@ + yes_no(c.docker),
        "-e"@,
        "prompt_install_lemp="@ + yes_no(c.lemp),
        "-e"@,
        "prompt_enable_swap="@ + yes_no(c.swap),
        "-e"@,
        "prompt_enable_cron_jobs="@ + yes_no(c.cron_jobs),
        "-e"@,
        "prompt_install_dev_tools="@ + yes_no(c.devtools),
        "-e"@,
        "prompt_install_wordpress="@ + yes_no(c.wordpress),
        "-e"@,
        "prompt_install_certbot="@ + yes_no(c.certbot),
        "-e"@,
        "prompt_enable_periodic_reboot="@ + yes_no(c.periodic_reboot),
        "-e"@,
        "prompt_reboot_hour="@ + c.reboot_hour@,
    ]
}

/// The `-e enable_* =yes` flags added only for switched-on security
/// clusters; advanced protection expands to three of them.
pub open spec fn security_flags(c: &ProvisioningConfig) -> Seq<Seq<char>> {
    opt_flag(c.system_hardening, "enable_kernel_hardening=yes"@) + opt_flag(
        c.apparmor,
        "enable_apparmor=yes"@,
    ) + opt_flag(c.rootkit_detection, "enable_rkhunter=yes"@) + opt_flag(
        c.file_integrity,
        "enable_aide=yes"@,
    ) + opt_flag(c.audit_logging, "enable_auditd=yes"@) + opt_flag(
        c.log_monitoring,
        "enable_logwatch=yes"@,
    ) + (if c.advanced_protection {
        seq![
            "-e"@,
            "enable_ssh_2fa=yes"@,
            "-e"@,
            "enable_backups=yes"@,
            "-e"@,
            "enable_usb_restrictions=yes"@,
        ]
    } else {
        Seq::<Seq<char>>::empty()
    })
}

/// The full argument list for one provisioning run.
pub open spec fn playbook_args_spec(c: &ProvisioningConfig, key_path: Seq<char>) -> Seq<Seq<char>> {
    fixed_args(c, key_path) + security_flags(c)
}

/// Builds the always-present part of the argument list.
#[verifier::rlimit(100)]
fn build_fixed_args(config: &ProvisioningConfig, ssh_key_path: &str) -> (r: Vec<String>)
    ensures
        r.deep_view() == fixed_args(config, ssh_key_path@),
{
    let mut args: Vec<String> = Vec::new();
    args.push(String::from_str("playbook.yml"));
    args.push(String::from_str("-e"));
    args.push(String::from_str("target_ip=").concat(config.ip_address.as_str()));
    args.push(String::from_str("-e"));
    args.push(String::from_str("target_user=").concat(config.ssh_user.as_str()));
    args.push(String::from_str("-e"));
    args.push(String::from_str("ssh_key_path=").concat(ssh_key_path));
    if !config.hostname.as_str().is_empty() {
        args.push(String::from_str("-e"));
        args.push(String::from_str("target_hostname=").concat(config.hostname.as_str()));
    }
    args.push(String::from_str("-e"));
    args.push(String::from_str("prompt_enable_fail2ban=").concat(bool_to_yes_no(config.fail2ban)));
    args.push(String::from_str("-e"));
    args.push(String::from_str("prompt_install_docker=").concat(bool_to_yes_no(config.docker)));
    args.push(String::from_str("-e"));
    args.push(String::from_str("prompt_install_lemp=").concat(bool_to_yes_no(config.lemp)));
    args.push(String::from_str("-e"));
    args.push(String::from_str("prompt_enable_swap=").concat(bool_to_yes_no(config.swap)));
    args.push(String::from_str("-e"));
    args.push(
        String::from_str("prompt_enable_cron_jobs=").concat(bool_to_yes_no(config.cron_jobs)),
    );
    args.push(String::from_str("-e"));
    args.push(
        String::from_str("prompt_install_dev_tools=").concat(bool_to_yes_no(config.devtools)),
    );
    args.push(String::from_str("-e"));
    args.push(
        String::from_str("prompt_install_wordpress=").concat(bool_to_yes_no(config.wordpress)),
    );
    args.push(String::from_str("-e"));
    args.push(String::from_str("prompt_install_certbot=").concat(bool_to_yes_no(config.certbot)));
    args.push(String::from_str("-e"));
    args.push(
        String::from_str("prompt_enable_periodic_reboot=").concat(
            bool_to_yes_no(config.periodic_reboot),
        ),
    );
    args.push(String::from_str("-e"));
    args.push(String::from_str("prompt_reboot_hour=").concat(config.reboot_hour.as_str()));
    proof {
        assert(args.deep_view() =~~= fixed_args(config, ssh_key_path@));
    }
    args
}

/// Builds the argument list handed to the provisioning tool, from the
/// operator's settings and the already-expanded SSH key path.
#[verifier::rlimit(100)]
pub fn playbook_args(config: &ProvisioningConfig, ssh_key_path: &str) -> (r: Vec<String>)
    ensures
        r.deep_view() == playbook_args_spec(config, ssh_key_path@),
{
    let mut args = build_fixed_args(config, ssh_key_path);
    let ghost fixed = args.deep_view();
    if config.system_hardening {
        args.push(String::from_str("-e"));
        args.push(String::from_str("enable_kernel_hardening=yes"));
    }
    if config.apparmor {
        args.push(String::from_str("-e"));
        args.push(String::from_str("enable_apparmor=yes"));
    }
    if config.rootkit_detection {
        args.push(String::from_str("-e"));
        args.push(String::from_str("enable_rkhunter=yes"));
    }
    if config.file_integrity {
        args.push(String::from_str("-e"));
        args.push(String::from_str("enable_aide=yes"));
    }
    if config.audit_logging {
        args.push(String::from_str("-e"));
        args.push(String::from_str("enable_auditd=yes"));
    }
    if config.log_monitoring {
        args.push(String::from_str("-e"));
        args.push(String::from_str("enable_logwatch=yes"));
    }
    if config.advanced_protection {
        args.push(String::from_str("-e"));
        args.push(String::from_str("enable_ssh_2fa=yes"));
        args.push(String::from_str("-e"));
        args.push(String::from_str("enable_backups=yes"));
        args.push(String::from_str("-e"));
        args.push(String::from_str("enable_usb_restrictions=yes"));
    }
    proof {
        assert(args.deep_view() =~~= fixed + security_flags(config));
    }
    args
}

proof fn lemma_contains_concat(a: Seq<Seq<char>>, b: Seq<Seq<char>>, x: Seq<char>)
    ensures
        (a + b).contains(x) <==> (a.contains(x) || b.contains(x)),
{
    if a.contains(x) {
        let i = choose|i: int| 0 <= i < a.len() && a[i] == x;
        assert((a + b)[i] == x);
    }
    if b.contains(x) {
        let i = choose|i: int| 0 <= i < b.len() && b[i] == x;
        assert((a + b)[a.len() + i] == x);
    }
    if (a + b).contains(x) {
        let i = choose|i: int| 0 <= i < (a + b).len() && (a + b)[i] == x;
        if i < a.len() {
            assert(a[i] == x);
        } else {
            assert(b[i - a.len()] == x);
        }
    }
}

proof fn lemma_opt_contains(on: bool, fl: Seq<char>, f: Seq<char>)
    ensures
        opt_flag(on, fl).contains(f) <==> (on && (f == "-e"@ || f == fl)),
{
    if on {
        let s = seq!["-e"@, fl];
        if s.contains(f) {
            let i = choose|i: int| 0 <= i < s.len() && s[i] == f;
            assert(i == 0 || i == 1);
        }
        if f == "-e"@ {
            assert(s[0] == f);
        }
        if f == fl {
            assert(s[1] == f);
        }
    }
}

/// `security_flags` holds exactly the pairs of the switched-on
/// clusters.
proof fn lemma_sec_contains(c: &ProvisioningConfig, f: Seq<char>)
    ensures
        security_flags(c).contains(f) <==> ((c.system_hardening && (f == "-e"@ || f
            == "enable_kernel_hardening=yes"@)) || (c.apparmor && (f == "-e"@ || f
            == "enable_apparmor=yes"@)) || (c.rootkit_detection && (f == "-e"@ || f
            == "enable_rkhunter=yes"@)) || (c.file_integrity && (f == "-e"@ || f
            == "enable_aide=yes"@)) || (c.audit_logging && (f == "-e"@ || f
            == "enable_auditd=yes"@)) || (c.log_monitoring && (f == "-e"@ || f
            == "enable_logwatch=yes"@)) || (c.advanced_protection && (f == "-e"@ || f
            == "enable_ssh_2fa=yes"@ || f == "enable_backups=yes"@ || f
            == "enable_usb_restrictions=yes"@))),
{
    let o1 = opt_flag(c.system_hardening, "enable_kernel_hardening=yes"@);
    let o2 = opt_flag(c.apparmor, "enable_apparmor=yes"@);
    let o3 = opt_flag(c.rootkit_detection, "enable_rkhunter=yes"@);
    let o4 = opt_flag(c.file_integrity, "enable_aide=yes"@);
    let o5 = opt_flag(c.audit_logging, "enable_auditd=yes"@);
    let o6 = opt_flag(c.log_monitoring, "enable_logwatch=yes"@);
    let adv = if c.advanced_protection {
        seq![
            "-e"@,
            "enable_ssh_2fa=yes"@,
            "-e"@,
            "enable_backups=yes"@,
            "-e"@,
            "enable_usb_restrictions=yes"@,
        ]
    } else {
        Seq::<Seq<char>>::empty()
    };
    lemma_opt_contains(c.system_hardening, "enable_kernel_hardening=yes"@, f);
    lemma_opt_contains(c.apparmor, "enable_apparmor=yes"@, f);
    lemma_opt_contains(c.rootkit_detection, "enable_rkhunter=yes"@, f);
    lemma_opt_contains(c.file_integrity, "enable_aide=yes"@, f);
    lemma_opt_contains(c.audit_logging, "enable_auditd=yes"@, f);
    lemma_opt_contains(c.log_monitoring, "enable_logwatch=yes"@, f);
    if c.advanced_protection {
        if adv.contains(f) {
            let i = choose|i: int| 0 <= i < adv.len() && adv[i] == f;
            assert(0 <= i < 6);
        }
        if f == "-e"@ {
            assert(adv[0] == f);
        }
        if f == "enable_ssh_2fa=yes"@ {
            assert(adv[1] == f);
        }
        if f == "enable_backups=yes"@ {
            assert(adv[3] == f);
        }
        if f == "enable_usb_restrictions=yes"@ {
            assert(adv[5] == f);
        }
    }
    lemma_contains_concat(o1, o2, f);
    lemma_contains_concat(o1 + o2, o3, f);
    lemma_contains_concat(o1 + o2 + o3, o4, f);
    lemma_contains_concat(o1 + o2 + o3 + o4, o5, f);
    lemma_contains_concat(o1 + o2 + o3 + o4 + o5, o6, f);
    lemma_contains_concat(o1 + o2 + o3 + o4 + o5 + o6, adv, f);
}

/// No element of the fixed part begins with `e`, so no `enable_*` flag
/// can hide there.
#[verifier::rlimit(100)]
proof fn lemma_fixed_free_of_enable(c: &ProvisioningConfig, key_path: Seq<char>, f: Seq<char>)
    requires
        f.len() > 0,
        f[0] == 'e',
    ensures
        !fixed_args(c, key_path).contains(f),
{
    reveal_strlit("playbook.yml");
    reveal_strlit("-e");
    reveal_strlit("target_ip=");
    reveal_strlit("target_user=");
    reveal_strlit("ssh_key_path=");
    reveal_strlit("target_hostname=");
    reveal_strlit("prompt_enable_fail2ban=");
    reveal_strlit("prompt_install_docker=");
    reveal_strlit("prompt_install_lemp=");
    reveal_strlit("prompt_enable_swap=");
    reveal_strlit("prompt_enable_cron_jobs=");
    reveal_strlit("prompt_install_dev_tools=");
    reveal_strlit("prompt_install_wordpress=");
    reveal_strlit("prompt_install_certbot=");
    reveal_strlit("prompt_enable_periodic_reboot=");
    reveal_strlit("prompt_reboot_hour=");
    let fixed = fixed_args(c, key_path);
    assert(("target_ip="@ + c.ip_address@)[0] == 't');
    assert(("target_user="@ + c.ssh_user@)[0] == 't');
    assert(("ssh_key_path="@ + key_path)[0] == 's');
    assert(("target_hostname="@ + c.hostname@)[0] == 't');
    assert(("prompt_enable_fail2ban="@ + yes_no(c.fail2ban))[0] == 'p');
    assert(("prompt_install_docker="@ + yes_no(c.docker))[0] == 'p');
    assert(("prompt_install_lemp="@ + yes_no(c.lemp))[0] == 'p');
    assert(("prompt_enable_swap="@ + yes_no(c.swap))[0] == 'p');
    assert(("prompt_enable_cron_jobs="@ + yes_no(c.cron_jobs))[0] == 'p');
    assert(("prompt_install_dev_tools="@ + yes_no(c.devtools))[0] == 'p');
    assert(("prompt_install_wordpress="@ + yes_no(c.wordpress))[0] == 'p');
    assert(("prompt_install_certbot="@ + yes_no(c.certbot))[0] == 'p');
    assert(("prompt_enable_periodic_reboot="@ + yes_no(c.periodic_reboot))[0] == 'p');
    assert(("prompt_reboot_hour="@ + c.reboot_hour@)[0] == 'p');
    assert forall|j: int| 0 <= j < fixed.len() implies fixed[j] != f by {
        assert(fixed[j].len() > 0 ==> fixed[j][0] != 'e');
    }
    if fixed.contains(f) {
        let i = choose|i: int| 0 <= i < fixed.len() && fixed[i] == f;
        assert(fixed[i] != f);
    }
}

/// The security flag strings are pairwise distinct, and none is `-e`.
proof fn lemma_enable_flags_distinct()
    ensures
        "enable_kernel_hardening=yes"@ != "-e"@,
        "enable_kernel_hardening=yes"@ != "enable_apparmor=yes"@,
        "enable_kernel_hardening=yes"@ != "enable_rkhunter=yes"@,
        "enable_kernel_hardening=yes"@ != "enable_aide=yes"@,
        "enable_kernel_hardening=yes"@ != "enable_auditd=yes"@,
        "enable_kernel_hardening=yes"@ != "enable_logwatch=yes"@,
        "enable_kernel_hardening=yes"@ != "enable_ssh_2fa=yes"@,
        "enable_kernel_hardening=yes"@ != "enable_backups=yes"@,
        "enable_kernel_hardening=yes"@ != "enable_usb_restrictions=yes"@,
        "enable_apparmor=yes"@ != "-e"@,
        "enable_apparmor=yes"@ != "enable_rkhunter=yes"@,
        "enable_apparmor=yes"@ != "enable_aide=yes"@,
        "enable_apparmor=yes"@ != "enable_auditd=yes"@,
        "enable_apparmor=yes"@ != "enable_logwatch=yes"@,
        "enable_apparmor=yes"@ != "enable_ssh_2fa=yes"@,
        "enable_apparmor=yes"@ != "enable_backups=yes"@,
        "enable_apparmor=yes"@ != "enable_usb_restrictions=yes"@,
        "enable_rkhunter=yes"@ != "-e"@,
        "enable_rkhunter=yes"@ != "enable_aide=yes"@,
        "enable_rkhunter=yes"@ != "enable_auditd=yes"@,
        "enable_rkhunter=yes"@ != "enable_logwatch=yes"@,
        "enable_rkhunter=yes"@ != "enable_ssh_2fa=yes"@,
        "enable_rkhunter=yes"@ != "enable_backups=yes"@,
        "enable_rkhunter=yes"@ != "enable_usb_restrictions=yes"@,
        "enable_aide=yes"@ != "-e"@,
        "enable_aide=yes"@ != "enable_auditd=yes"@,
        "enable_aide=yes"@ != "enable_logwatch=yes"@,
        "enable_aide=yes"@ != "enable_ssh_2fa=yes"@,
        "enable_aide=yes"@ != "enable_backups=yes"@,
        "enable_aide=yes"@ != "enable_usb_restrictions=yes"@,
        "enable_auditd=yes"@ != "-e"@,
        "enable_auditd=yes"@ != "enable_logwatch=yes"@,
        "enable_auditd=yes"@ != "enable_ssh_2fa=yes"@,
        "enable_auditd=yes"@ != "enable_backups=yes"@,
        "enable_auditd=yes"@ != "enable_usb_restrictions=yes"@,
        "enable_logwatch=yes"@ != "-e"@,
        "enable_logwatch=yes"@ != "enable_ssh_2fa=yes"@,
        "enable_logwatch=yes"@ != "enable_backups=yes"@,
        "enable_logwatch=yes"@ != "enable_usb_restrictions=yes"@,
        "enable_ssh_2fa=yes"@ != "-e"@,
        "enable_ssh_2fa=yes"@ != "enable_backups=yes"@,
        "enable_ssh_2fa=yes"@ != "enable_usb_restrictions=yes"@,
        "enable_backups=yes"@ != "-e"@,
        "enable_backups=yes"@ != "enable_usb_restrictions=yes"@,
        "enable_usb_restrictions=yes"@ != "-e"@,
{
    reveal_strlit("-e");
    reveal_strlit("enable_kernel_hardening=yes");
    reveal_strlit("enable_apparmor=yes");
    reveal_strlit("enable_rkhunter=yes");
    reveal_strlit("enable_aide=yes");
    reveal_strlit("enable_auditd=yes");
    reveal_strlit("enable_logwatch=yes");
    reveal_strlit("enable_ssh_2fa=yes");
    reveal_strlit("enable_backups=yes");
    reveal_strlit("enable_usb_restrictions=yes");
    assert("-e"@.len() == 2);
    assert("enable_kernel_hardening=yes"@.len() == 27);
    assert("enable_apparmor=yes"@.len() == 19);
    assert("enable_rkhunter=yes"@.len() == 19);
    assert("enable_aide=yes"@.len() == 15);
    assert("enable_auditd=yes"@.len() == 17);
    assert("enable_logwatch=yes"@.len() == 19);
    assert("enable_ssh_2fa=yes"@.len() == 18);
    assert("enable_backups=yes"@.len() == 18);
    assert("enable_usb_restrictions=yes"@.len() == 27);
    assert("enable_apparmor=yes"@[7] == 'a');
    assert("enable_rkhunter=yes"@[7] == 'r');
    assert("enable_logwatch=yes"@[7] == 'l');
    assert("enable_kernel_hardening=yes"@[7] == 'k');
    assert("enable_usb_restrictions=yes"@[7] == 'u');
    assert("enable_ssh_2fa=yes"@[8] == 's');
    assert("enable_backups=yes"@[8] == 'a');
}

/// An `enable_*` flag occurs in the full list exactly when it occurs
/// among the security flags.
proof fn lemma_flag_only_in_security(c: &ProvisioningConfig, key_path: Seq<char>, f: Seq<char>)
    requires
        f.len() > 0,
        f[0] == 'e',
    ensures
        playbook_args_spec(c, key_path).contains(f) <==> security_flags(c).contains(f),
{
    lemma_fixed_free_of_enable(c, key_path, f);
    lemma_contains_concat(fixed_args(c, key_path), security_flags(c), f);
}

proof fn lemma_kernel_hardening_flag(c: &ProvisioningConfig, key_path: Seq<char>)
    ensures
        playbook_args_spec(c, key_path).contains("enable_kernel_hardening=yes"@)
            <==> c.system_hardening,
{
    reveal_strlit("-e");
    reveal_strlit("enable_kernel_hardening=yes");
    reveal_strlit("enable_apparmor=yes");
    reveal_strlit("enable_rkhunter=yes");
    reveal_strlit("enable_aide=yes");
    reveal_strlit("enable_auditd=yes");
    reveal_strlit("enable_logwatch=yes");
    reveal_strlit("enable_ssh_2fa=yes");
    reveal_strlit("enable_backups=yes");
    reveal_strlit("enable_usb_restrictions=yes");
    assert("enable_kernel_hardening=yes"@[7] != "enable_usb_restrictions=yes"@[7]);
    lemma_enable_flags_distinct();
    lemma_flag_only_in_security(c, key_path, "enable_kernel_hardening=yes"@);
    lemma_sec_contains(c, "enable_kernel_hardening=yes"@);
    assert(security_flags(c).contains("enable_kernel_hardening=yes"@) <==> c.system_hardening);
}

proof fn lemma_apparmor_flag(c: &ProvisioningConfig, key_path: Seq<char>)
    ensures
        playbook_args_spec(c, key_path).contains("enable_apparmor=yes"@) <==> c.apparmor,
{
    reveal_strlit("-e");
    reveal_strlit("enable_kernel_hardening=yes");
    reveal_strlit("enable_apparmor=yes");
    reveal_strlit("enable_rkhunter=yes");
    reveal_strlit("enable_aide=yes");
    reveal_strlit("enable_auditd=yes");
    reveal_strlit("enable_logwatch=yes");
    reveal_strlit("enable_ssh_2fa=yes");
    reveal_strlit("enable_backups=yes");
    reveal_strlit("enable_usb_restrictions=yes");
    assert("enable_apparmor=yes"@[7] != "enable_rkhunter=yes"@[7]);
    assert("enable_apparmor=yes"@[7] != "enable_logwatch=yes"@[7]);
    lemma_enable_flags_distinct();
    lemma_flag_only_in_security(c, key_path, "enable_apparmor=yes"@);
    lemma_sec_contains(c, "enable_apparmor=yes"@);
    assert(security_flags(c).contains("enable_apparmor=yes"@) <==> c.apparmor);
}

proof fn lemma_rkhunter_flag(c: &ProvisioningConfig, key_path: Seq<char>)
    ensures
        playbook_args_spec(c, key_path).contains("enable_rkhunter=yes"@)
            <==> c.rootkit_detection,
{
    reveal_strlit("-e");
    reveal_strlit("enable_kernel_hardening=yes");
    reveal_strlit("enable_apparmor=yes");
    reveal_strlit("enable_rkhunter=yes");
    reveal_strlit("enable_aide=yes");
    reveal_strlit("enable_auditd=yes");
    reveal_strlit("enable_logwatch=yes");
    reveal_strlit("enable_ssh_2fa=yes");
    reveal_strlit("enable_backups=yes");
    reveal_strlit("enable_usb_restrictions=yes");
    assert("enable_rkhunter=yes"@[7] != "enable_apparmor=yes"@[7]);
    assert("enable_rkhunter=yes"@[7] != "enable_logwatch=yes"@[7]);
    lemma_enable_flags_distinct();
    lemma_flag_only_in_security(c, key_path, "enable_rkhunter=yes"@);
    lemma_sec_contains(c, "enable_rkhunter=yes"@);
    assert(security_flags(c).contains("enable_rkhunter=yes"@) <==> c.rootkit_detection);
}

proof fn lemma_aide_flag(c: &ProvisioningConfig, key_path: Seq<char>)
    ensures
        playbook_args_spec(c, key_path).contains("enable_aide=yes"@) <==> c.file_integrity,
{
    reveal_strlit("-e");
    reveal_strlit("enable_kernel_hardening=yes");
    reveal_strlit("enable_apparmor=yes");
    reveal_strlit("enable_rkhunter=yes");
    reveal_strlit("enable_aide=yes");
    reveal_strlit("enable_auditd=yes");
    reveal_strlit("enable_logwatch=yes");
    reveal_strlit("enable_ssh_2fa=yes");
    reveal_strlit("enable_backups=yes");
    reveal_strlit("enable_usb_restrictions=yes");
    lemma_enable_flags_distinct();
    lemma_flag_only_in_security(c, key_path, "enable_aide=yes"@);
    lemma_sec_contains(c, "enable_aide=yes"@);
    assert(security_flags(c).contains("enable_aide=yes"@) <==> c.file_integrity);
}

proof fn lemma_auditd_flag(c: &ProvisioningConfig, key_path: Seq<char>)
    ensures
        playbook_args_spec(c, key_path).contains("enable_auditd=yes"@) <==> c.audit_logging,
{
    reveal_strlit("-e");
    reveal_strlit("enable_kernel_hardening=yes");
    reveal_strlit("enable_apparmor=yes");
    reveal_strlit("enable_rkhunter=yes");
    reveal_strlit("enable_aide=yes");
    reveal_strlit("enable_auditd=yes");
    reveal_strlit("enable_logwatch=yes");
    reveal_strlit("enable_ssh_2fa=yes");
    reveal_strlit("enable_backups=yes");
    reveal_strlit("enable_usb_restrictions=yes");
    lemma_enable_flags_distinct();
    lemma_flag_only_in_security(c, key_path, "enable_auditd=yes"@);
    lemma_sec_contains(c, "enable_auditd=yes"@);
    assert(security_flags(c).contains("enable_auditd=yes"@) <==> c.audit_logging);
}

proof fn lemma_logwatch_flag(c: &ProvisioningConfig, key_path: Seq<char>)
    ensures
        playbook_args_spec(c, key_path).contains("enable_logwatch=yes"@) <==> c.log_monitoring,
{
    reveal_strlit("-e");
    reveal_strlit("enable_kernel_hardening=yes");
    reveal_strlit("enable_apparmor=yes");
    reveal_strlit("enable_rkhunter=yes");
    reveal_strlit("enable_aide=yes");
    reveal_strlit("enable_auditd=yes");
    reveal_strlit("enable_logwatch=yes");
    reveal_strlit("enable_ssh_2fa=yes");
    reveal_strlit("enable_backups=yes");
    reveal_strlit("enable_usb_restrictions=yes");
    assert("enable_logwatch=yes"@[7] != "enable_apparmor=yes"@[7]);
    assert("enable_logwatch=yes"@[7] != "enable_rkhunter=yes"@[7]);
    lemma_enable_flags_distinct();
    lemma_flag_only_in_security(c, key_path, "enable_logwatch=yes"@);
    lemma_sec_contains(c, "enable_logwatch=yes"@);
    assert(security_flags(c).contains("enable_logwatch=yes"@) <==> c.log_monitoring);
}

proof fn lemma_ssh_2fa_flag(c: &ProvisioningConfig, key_path: Seq<char>)
    ensures
        playbook_args_spec(c, key_path).contains("enable_ssh_2fa=yes"@)
            <==> c.advanced_protection,
{
    reveal_strlit("-e");
    reveal_strlit("enable_kernel_hardening=yes");
    reveal_strlit("enable_apparmor=yes");
    reveal_strlit("enable_rkhunter=yes");
    reveal_strlit("enable_aide=yes");
    reveal_strlit("enable_auditd=yes");
    reveal_strlit("enable_logwatch=yes");
    reveal_strlit("enable_ssh_2fa=yes");
    reveal_strlit("enable_backups=yes");
    reveal_strlit("enable_usb_restrictions=yes");
    assert("enable_ssh_2fa=yes"@[8] != "enable_backups=yes"@[8]);
    lemma_enable_flags_distinct();
    lemma_flag_only_in_security(c, key_path, "enable_ssh_2fa=yes"@);
    lemma_sec_contains(c, "enable_ssh_2fa=yes"@);
    assert(security_flags(c).contains("enable_ssh_2fa=yes"@) <==> c.advanced_protection);
}

proof fn lemma_backups_flag(c: &ProvisioningConfig, key_path: Seq<char>)
    ensures
        playbook_args_spec(c, key_path).contains("enable_backups=yes"@)
            <==> c.advanced_protection,
{
    reveal_strlit("-e");
    reveal_strlit("enable_kernel_hardening=yes");
    reveal_strlit("enable_apparmor=yes");
    reveal_strlit("enable_rkhunter=yes");
    reveal_strlit("enable_aide=yes");
    reveal_strlit("enable_auditd=yes");
    reveal_strlit("enable_logwatch=yes");
    reveal_strlit("enable_ssh_2fa=yes");
    reveal_strlit("enable_backups=yes");
    reveal_strlit("enable_usb_restrictions=yes");
    assert("enable_backups=yes"@[8] != "enable_ssh_2fa=yes"@[8]);
    lemma_enable_flags_distinct();
    lemma_flag_only_in_security(c, key_path, "enable_backups=yes"@);
    lemma_sec_contains(c, "enable_backups=yes"@);
    assert(security_flags(c).contains("enable_backups=yes"@) <==> c.advanced_protection);
}

proof fn lemma_usb_restrictions_flag(c: &ProvisioningConfig, key_path: Seq<char>)
    ensures
        playbook_args_spec(c, key_path).contains("enable_usb_restrictions=yes"@)
            <==> c.advanced_protection,
{
    reveal_strlit("-e");
    reveal_strlit("enable_kernel_hardening=yes");
    reveal_strlit("enable_apparmor=yes");
    reveal_strlit("enable_rkhunter=yes");
    reveal_strlit("enable_aide=yes");
    reveal_strlit("enable_auditd=yes");
    reveal_strlit("enable_logwatch=yes");
    reveal_strlit("enable_ssh_2fa=yes");
    reveal_strlit("enable_backups=yes");
    reveal_strlit("enable_usb_restrictions=yes");
    assert("enable_usb_restrictions=yes"@[7] != "enable_kernel_hardening=yes"@[7]);
    lemma_enable_flags_distinct();
    lemma_flag_only_in_security(c, key_path, "enable_usb_restrictions=yes"@);
    lemma_sec_contains(c, "enable_usb_restrictions=yes"@);
    assert(security_flags(c).contains("enable_usb_restrictions=yes"@) <==> c.advanced_protection);
}

/// Law: the command line carries the `enable_*` flag of a security
/// cluster exactly when the operator switched that cluster on, and the
/// three advanced-protection flags exactly when advanced protection is
/// on.
pub proof fn lemma_security_flags_reflect_toggles(c: &ProvisioningConfig, key_path: Seq<char>)
    ensures
        playbook_args_spec(c, key_path).contains("enable_kernel_hardening=yes"@)
            <==> c.system_hardening,
        playbook_args_spec(c, key_path).contains("enable_apparmor=yes"@) <==> c.apparmor,
        playbook_args_spec(c, key_path).contains("enable_rkhunter=yes"@) <==> c.rootkit_detection,
        playbook_args_spec(c, key_path).contains("enable_aide=yes"@) <==> c.file_integrity,
        playbook_args_spec(c, key_path).contains("enable_auditd=yes"@) <==> c.audit_logging,
        playbook_args_spec(c, key_path).contains("enable_logwatch=yes"@)
            <==> c.log_monitoring,
        playbook_args_spec(c, key_path).contains("enable_ssh_2fa=yes"@)
            <==> c.advanced_protection,
        playbook_args_spec(c, key_path).contains("enable_backups=yes"@)
            <==> c.advanced_protection,
        playbook_args_spec(c, key_path).contains("enable_usb_restrictions=yes"@)
            <==> c.advanced_protection,
{
    lemma_kernel_hardening_flag(c, key_path);
    lemma_apparmor_flag(c, key_path);
    lemma_rkhunter_flag(c, key_path);
    lemma_aide_flag(c, key_path);
    lemma_auditd_flag(c, key_path);
    lemma_logwatch_flag(c, key_path);
    lemma_ssh_2fa_flag(c, key_path);
    lemma_backups_flag(c, key_path);
    lemma_usb_restrictions_flag(c, key_path);
}

/// Law: the command line always carries one prompt variable per core
/// toggle, valued `yes` or `no` as the box is checked (and the chosen
/// reboot hour), whether or not a hostname was given.
pub proof fn lemma_prompt_vars_present(c: &ProvisioningConfig, key_path: Seq<char>)
    ensures
        playbook_args_spec(c, key_path).contains("prompt_enable_fail2ban="@ + yes_no(c.fail2ban)),
        playbook_args_spec(c, key_path).contains("prompt_install_docker="@ + yes_no(c.docker)),
        playbook_args_spec(c, key_path).contains("prompt_install_lemp="@ + yes_no(c.lemp)),
        playbook_args_spec(c, key_path).contains("prompt_enable_swap="@ + yes_no(c.swap)),
        playbook_args_spec(c, key_path).contains("prompt_enable_cron_jobs="@ + yes_no(c.cron_jobs)),
        playbook_args_spec(c, key_path).contains("prompt_install_dev_tools="@ + yes_no(c.devtools)),
        playbook_args_spec(c, key_path).contains("prompt_install_wordpress="@ + yes_no(c.wordpress)),
        playbook_args_spec(c, key_path).contains("prompt_install_certbot="@ + yes_no(c.certbot)),
        playbook_args_spec(c, key_path).contains("prompt_enable_periodic_reboot="@ + yes_no(c.periodic_reboot)),
        playbook_args_spec(c, key_path).contains("prompt_reboot_hour="@ + c.reboot_hour@),
{
    let fixed = fixed_args(c, key_path);
    let sec = security_flags(c);
    if c.hostname@.len() > 0 {
        assert(fixed[10] == "prompt_enable_fail2ban="@ + yes_no(c.fail2ban));
        assert(fixed[12] == "prompt_install_docker="@ + yes_no(c.docker));
        assert(fixed[14] == "prompt_install_lemp="@ + yes_no(c.lemp));
        assert(fixed[16] == "prompt_enable_swap="@ + yes_no(c.swap));
        assert(fixed[18] == "prompt_enable_cron_jobs="@ + yes_no(c.cron_jobs));
        assert(fixed[20] == "prompt_install_dev_tools="@ + yes_no(c.devtools));
        assert(fixed[22] == "prompt_install_wordpress="@ + yes_no(c.wordpress));
        assert(fixed[24] == "prompt_install_certbot="@ + yes_no(c.certbot));
        assert(fixed[26] == "prompt_enable_periodic_reboot="@ + yes_no(c.periodic_reboot));
        assert(fixed[28] == "prompt_reboot_hour="@ + c.reboot_hour@);
    } else {
        assert(fixed[8] == "prompt_enable_fail2ban="@ + yes_no(c.fail2ban));
        assert(fixed[10] == "prompt_install_docker="@ + yes_no(c.docker));
        assert(fixed[12] == "prompt_install_lemp="@ + yes_no(c.lemp));
        assert(fixed[14] == "prompt_enable_swap="@ + yes_no(c.swap));
        assert(fixed[16] == "prompt_enable_cron_jobs="@ + yes_no(c.cron_jobs));
        assert(fixed[18] == "prompt_install_dev_tools="@ + yes_no(c.devtools));
        assert(fixed[20] == "prompt_install_wordpress="@ + yes_no(c.wordpress));
        assert(fixed[22] == "prompt_install_certbot="@ + yes_no(c.certbot));
        assert(fixed[24] == "prompt_enable_periodic_reboot="@ + yes_no(c.periodic_reboot));
        assert(fixed[26] == "prompt_reboot_hour="@ + c.reboot_hour@);
    }
    lemma_contains_concat(fixed, sec, "prompt_enable_fail2ban="@ + yes_no(c.fail2ban));
    lemma_contains_concat(fixed, sec, "prompt_install_docker="@ + yes_no(c.docker));
    lemma_contains_concat(fixed, sec, "prompt_install_lemp="@ + yes_no(c.lemp));
    lemma_contains_concat(fixed, sec, "prompt_enable_swap="@ + yes_no(c.swap));
    lemma_contains_concat(fixed, sec, "prompt_enable_cron_jobs="@ + yes_no(c.cron_jobs));
    lemma_contains_concat(fixed, sec, "prompt_install_dev_tools="@ + yes_no(c.devtools));
    lemma_contains_concat(fixed, sec, "prompt_install_wordpress="@ + yes_no(c.wordpress));
    lemma_contains_concat(fixed, sec, "prompt_install_certbot="@ + yes_no(c.certbot));
    lemma_contains_concat(fixed, sec, "prompt_enable_periodic_reboot="@ + yes_no(c.periodic_reboot));
    lemma_contains_concat(fixed, sec, "prompt_reboot_hour="@ + c.reboot_hour@);
}

} // verus!
