//! The settings record and command construction used by the web-view
//! shell variant of the front-end. It keeps a reduced field set, asks
//! for the SSH password instead of a key, and passes every setting in a
//! single space-joined extra-variable string.

use vstd::prelude::*;

use crate::ansi::is_digit;

verus! {

/// Everything the web-view shell collects before a provisioning run.
#[derive(Debug, Clone)]
pub struct ProvisioningConfig {
    pub ip_address: String,
    pub ssh_user: String,
    pub ssh_password: String,
    pub hostname: String,
    pub fail2ban: bool,
    pub docker: bool,
    pub swap: bool,
    pub lemp: bool,
    pub devtools: bool,
    pub wordpress: bool,
    pub certbot: bool,
    pub system_hardening: bool,
    pub apparmor: bool,
    pub rootkit_detection: bool,
    pub file_integrity: bool,
    pub audit_logging: bool,
    pub log_monitoring: bool,
    pub advanced_protection: bool,
    pub cron_jobs: bool,
    pub periodic_reboot: bool,
    pub reboot_hour: String,
}

/// `c` holds the values a fresh record starts from.
pub open spec fn is_initial_config(c: &ProvisioningConfig) -> bool {
    &&& c.ip_address@ == Seq::<char>::empty()
    &&& c.ssh_user@ == "root"@
    &&& c.ssh_password@ == Seq::<char>::empty()
    &&& c.hostname@ == Seq::<char>::empty()
    &&& c.fail2ban == true
    &&& c.docker == true
    &&& c.swap == true
    &&& c.lemp == false
    &&& c.devtools == true
    &&& c.wordpress == false
    &&& c.certbot == false
    &&& c.system_hardening == false
    &&& c.apparmor == false
    &&& c.rootkit_detection == false
    &&& c.file_integrity == false
    &&& c.audit_logging == false
    &&& c.log_monitoring == false
    &&& c.advanced_protection == false
    &&& c.cron_jobs == true
    &&& c.periodic_reboot == false
    &&& c.reboot_hour@ == "3"@
}

impl Default for ProvisioningConfig {
    /// A fresh record with the shipped defaults.
    fn default() -> (r: Self)
        ensures
            is_initial_config(&r),
    {
        ProvisioningConfig {
            ip_address: String::new(),
            ssh_user: String::from_str("root"),
            ssh_password: String::new(),
            hostname: String::new(),
            fail2ban: true,
            docker: true,
            swap: true,
            lemp: false,
            devtools: true,
            wordpress: false,
            certbot: false,
            system_hardening: false,
            apparmor: false,
            rootkit_detection: false,
            file_integrity: false,
            audit_logging: false,
            log_monitoring: false,
            advanced_protection: false,
            cron_jobs: true,
            periodic_reboot: false,
            reboot_hour: String::from_str("3"),
        }
    }
}

/// The `true`/`false` rendering of a toggle, as the shell passes it.
pub open spec fn true_false(b: bool) -> Seq<char> {
    if b {
        "true"@
    } else {
        "false"@
    }
}

/// Renders a toggle as `true` or `false`.
pub fn bool_to_true_false(value: bool) -> (r: &'static str)
    ensures
        r@ == true_false(value),
{
    if value {
        "true"
    } else {
        "false"
    }
}

/// The extra variables passed to the tool, one `key=value` string per
/// setting, with the hostname only when one was given.
pub open spec fn extra_vars_spec(c: &ProvisioningConfig) -> Seq<Seq<char>> {
    seq![
        "ip_address="@ + c.ip_address@,
        "install_docker="@ + true_false(c.docker),
        "enable_swap="@ + true_false(c.swap),
        "install_lemp="@ + true_false(c.lemp),
        "install_dev_tools="@ + true_false(c.devtools),
        "install_wordpress="@ + true_false(c.wordpress),
        "install_certbot="@ + true_false(c.certbot),
        "enable_kernel_hardening="@ + true_false(c.system_hardening),
        "enable_apparmor="@ + true_false(c.apparmor),
        "enable_rkhunter="@ + true_false(c.rootkit_detection),
        "enable_aide="@ + true_false(c.file_integrity),
        "enable_auditd="@ + true_false(c.audit_logging),
        "enable_logwatch="@ + true_false(c.log_monitoring),
        "enable_cron_jobs="@ + true_false(c.cron_jobs),
        "enable_periodic_reboot="@ + true_false(c.periodic_reboot),
        "cron_reboot_hour="@ + c.reboot_hour@,
    ] + (if c.hostname@.len() > 0 {
        seq!["server_hostname="@ + c.hostname@]
    } else {
        Seq::<Seq<char>>::empty()
    })
}

/// Builds the extra-variable strings for one provisioning run.
#[verifier::rlimit(100)]
pub fn extra_vars(config: &ProvisioningConfig) -> (r: Vec<String>)
    ensures
        r.deep_view() == extra_vars_spec(config),
{
    let mut vars: Vec<String> = Vec::new();
    vars.push(String::from_str("ip_address=").concat(config.ip_address.as_str()));
    vars.push(String::from_str("install_docker=").concat(bool_to_true_false(config.docker)));
    vars.push(String::from_str("enable_swap=").concat(bool_to_true_false(config.swap)));
    vars.push(String::from_str("install_lemp=").concat(bool_to_true_false(config.lemp)));
    vars.push(String::from_str("install_dev_tools=").concat(bool_to_true_false(config.devtools)));
    vars.push(
        String::from_str("install_wordpress=").concat(bool_to_true_false(config.wordpress)),
    );
    vars.push(String::from_str("install_certbot=").concat(bool_to_true_false(config.certbot)));
    vars.push(
        String::from_str("enable_kernel_hardening=").concat(
            bool_to_true_false(config.system_hardening),
        ),
    );
    vars.push(String::from_str("enable_apparmor=").concat(bool_to_true_false(config.apparmor)));
    vars.push(
        String::from_str("enable_rkhunter=").concat(bool_to_true_false(config.rootkit_detection)),
    );
    vars.push(String::from_str("enable_aide=").concat(bool_to_true_false(config.file_integrity)));
    vars.push(String::from_str("enable_auditd=").concat(bool_to_true_false(config.audit_logging)));
    vars.push(
        String::from_str("enable_logwatch=").concat(bool_to_true_false(config.log_monitoring)),
    );
    vars.push(String::from_str("enable_cron_jobs=").concat(bool_to_true_false(config.cron_jobs)));
    vars.push(
        String::from_str("enable_periodic_reboot=").concat(
            bool_to_true_false(config.periodic_reboot),
        ),
    );
    vars.push(String::from_str("cron_reboot_hour=").concat(config.reboot_hour.as_str()));
    if !config.hostname.as_str().is_empty() {
        vars.push(String::from_str("server_hostname=").concat(config.hostname.as_str()));
    }
    proof {
        assert(vars.deep_view() =~~= extra_vars_spec(config));
    }
    vars
}

/// The given strings joined with single spaces.
pub open spec fn join_space(xs: Seq<Seq<char>>) -> Seq<char>
    decreases xs.len(),
{
    if xs.len() == 0 {
        Seq::<char>::empty()
    } else if xs.len() == 1 {
        xs[0]
    } else {
        join_space(xs.drop_last()) + " "@ + xs.last()
    }
}

/// Joins the given strings with single spaces.
pub fn join_with_spaces(v: &Vec<String>) -> (r: String)
    ensures
        r@ == join_space(v.deep_view()),
{
    let ghost dv = v.deep_view();
    let n = v.len();
    proof {
        assert(dv.len() == n);
        assert(dv.subrange(0, 0) =~= Seq::<Seq<char>>::empty());
    }
    let mut out = String::new();
    let mut i: usize = 0;
    while i < n
        invariant
            n == v@.len(),
            dv == v.deep_view(),
            dv.len() == n,
            i <= n,
            out@ == join_space(dv.subrange(0, i as int)),
        decreases n - i,
    {
        proof {
            let cur = dv.subrange(0, i as int + 1);
            assert(cur.drop_last() =~= dv.subrange(0, i as int));
            assert(cur.last() == dv[i as int]);
            assert(dv[i as int] == v@[i as int]@);
        }
        if i > 0 {
            out.append(" ");
        }
        out.append(v[i].as_str());
        i = i + 1;
    }
    proof {
        assert(dv.subrange(0, n as int) =~= dv);
    }
    out
}

/// The full command line the shell hands to the tool: playbook,
/// inventory, user, password prompt, and one `-e` argument carrying all
/// extra variables space-joined.
pub open spec fn launch_args_spec(c: &ProvisioningConfig) -> Seq<Seq<char>> {
    seq![
        "../playbook.yml"@,
        "-i"@,
        "../inventory.ini"@,
        "-u"@,
        c.ssh_user@,
        "-k"@,
        "-e"@,
        join_space(extra_vars_spec(c)),
    ]
}

/// Builds the command line for one provisioning run.
pub fn launch_args(config: &ProvisioningConfig) -> (r: Vec<String>)
    ensures
        r.deep_view() == launch_args_spec(config),
{
    let vars = extra_vars(config);
    let joined = join_with_spaces(&vars);
    let mut args: Vec<String> = Vec::new();
    args.push(String::from_str("../playbook.yml"));
    args.push(String::from_str("-i"));
    args.push(String::from_str("../inventory.ini"));
    args.push(String::from_str("-u"));
    args.push(config.ssh_user.clone());
    args.push(String::from_str("-k"));
    args.push(String::from_str("-e"));
    args.push(joined);
    proof {
        assert(args.deep_view() =~~= launch_args_spec(config));
    }
    args
}

/// Index of the first `.` in `s`, or `s.len()` when there is none.
pub open spec fn first_dot(s: Seq<char>) -> int
    decreases s.len(),
{
    if s.len() == 0 {
        0
    } else if s[0] == '.' {
        0
    } else {
        1 + first_dot(s.drop_first())
    }
}

/// The numeric value of a digit string, most significant digit first.
pub open spec fn digits_val(d: Seq<char>) -> int
    decreases d.len(),
{
    if d.len() == 0 {
        0
    } else {
        digits_val(d.drop_last()) * 10 + (d.last() as u32 - 0x30)
    }
}

/// `p` with one leading `+` removed, if present: the digits a `u8`
/// parse reads.
pub open spec fn digits_of(p: Seq<char>) -> Seq<char> {
    if p.len() >= 1 && p[0] == '+' {
        p.skip(1)
    } else {
        p
    }
}

/// Every character of `d` is a digit.
pub open spec fn all_digits(d: Seq<char>) -> bool {
    forall|i: int| 0 <= i < d.len() ==> is_digit(#[trigger] d[i])
}

/// `p` parses as a `u8`: an optional leading `+`, then one or more
/// digits whose value is at most 255.
pub open spec fn is_u8_decimal(p: Seq<char>) -> bool {
    digits_of(p).len() > 0 && all_digits(digits_of(p)) && digits_val(digits_of(p)) <= 255
}

/// `s` splits on `.` into exactly `n` pieces, each of which parses as a
/// `u8`.
pub open spec fn valid_parts(s: Seq<char>, n: int) -> bool
    decreases n,
{
    if n <= 1 {
        first_dot(s) == s.len() && is_u8_decimal(s)
    } else {
        let d = first_dot(s);
        d < s.len() && is_u8_decimal(s.take(d)) && valid_parts(s.skip(d + 1), n - 1)
    }
}

/// `s` has the shape of a dotted-quad address: four `.`-separated
/// pieces, each parsing as a `u8`.
pub open spec fn valid_ipv4_form(s: Seq<char>) -> bool {
    valid_parts(s, 4)
}

/// Finds the first `.` at or after `from`.
fn find_dot(v: &Vec<char>, from: usize) -> (j: usize)
    requires
        from <= v@.len(),
    ensures
        from <= j <= v@.len(),
        j - from == first_dot(v@.skip(from as int)),
{
    let n = v.len();
    let mut j: usize = from;
    while j < n && v[j] != '.'
        invariant
            n == v@.len(),
            from <= j <= n,
            first_dot(v@.skip(from as int)) == j - from + first_dot(v@.skip(j as int)),
        decreases n - j,
    {
        proof {
            assert(v@.skip(j as int).drop_first() =~= v@.skip(j as int + 1));
        }
        j = j + 1;
    }
    j
}

/// Checks that `v[start..end]` parses as a `u8`.
fn check_u8_part(v: &Vec<char>, start: usize, end: usize) -> (b: bool)
    requires
        start <= end <= v@.len(),
    ensures
        b == is_u8_decimal(v@.subrange(start as int, end as int)),
{
    let ghost p = v@.subrange(start as int, end as int);
    proof {
        assert(is_u8_decimal(p) == is_u8_decimal(v@.subrange(start as int, end as int)));
    }
    let mut i: usize = start;
    if i < end && v[i] == '+' {
        i = i + 1;
    }
    let ghost digits = digits_of(p);
    proof {
        assert(digits =~= v@.subrange(i as int, end as int));
    }
    if i == end {
        proof {
            assert(digits.len() == 0);
        }
        return false;
    }
    let mut acc: u32 = 0;
    let mut j: usize = i;
    while j < end
        invariant
            start <= i <= j <= end <= v@.len(),
            p == v@.subrange(start as int, end as int),
            digits == digits_of(p),
            digits == v@.subrange(i as int, end as int),
            forall|k: int| 0 <= k < j - i ==> is_digit(#[trigger] digits[k]),
            acc <= 2559,
            digits_val(digits.take(j - i)) <= 255 ==> acc == digits_val(digits.take(j - i)),
            digits_val(digits.take(j - i)) > 255 ==> acc > 255,
        decreases end - j,
    {
        let c = v[j];
        let u = c as u32;
        if !(0x30 <= u && u <= 0x39) {
            proof {
                assert(digits_of(p)[j - i] == v@[j as int]);
                assert(!all_digits(digits_of(p))) by {
                    assert(0 <= j - i < digits_of(p).len());
                    assert(!is_digit(digits_of(p)[j - i]));
                }
                assert(!is_u8_decimal(p));
            }
            return false;
        }
        proof {
            let cur = digits.take(j - i + 1);
            assert(cur.drop_last() =~= digits.take(j - i));
            assert(cur.last() == digits[j - i]);
            assert(digits[j - i] == v@[j as int]);
        }
        acc = if acc > 255 {
            256
        } else {
            acc * 10 + (u - 0x30)
        };
        j = j + 1;
    }
    proof {
        assert(digits.take(end - i) =~= digits);
        assert(all_digits(digits_of(p))) by {
            assert forall|k: int| 0 <= k < digits_of(p).len() implies is_digit(
                digits_of(p)[k],
            ) by {
                assert(digits_of(p)[k] == digits[k]);
            }
        }
    }
    acc <= 255
}

/// Checks that the address has the dotted-quad shape, each piece a
/// valid `u8`.
pub fn validate_ip(ip: String) -> (r: bool)
    ensures
        r == valid_ipv4_form(ip@),
{
    let v = crate::text::str_to_chars(ip.as_str());
    let n = v.len();
    let ghost s = v@;
    proof {
        assert(s.skip(0) =~= s);
    }
    let d1 = find_dot(&v, 0);
    proof {
        assert(d1 == first_dot(s));
    }
    if d1 == n {
        proof {
            assert(!valid_parts(s, 4));
        }
        return false;
    }
    proof {
        assert(s.take(first_dot(s)) =~= s.subrange(0, d1 as int));
    }
    if !check_u8_part(&v, 0, d1) {
        proof {
            assert(!valid_parts(s, 4));
        }
        return false;
    }
    let ghost s2 = s.skip(d1 as int + 1);
    let d2 = find_dot(&v, d1 + 1);
    proof {
        assert(s2 =~= v@.skip(d1 as int + 1));
        assert(d2 - (d1 + 1) == first_dot(s2));
    }
    if d2 == n {
        proof {
            assert(first_dot(s2) == s2.len());
            assert(!valid_parts(s2, 3));
            assert(!valid_parts(s, 4));
        }
        return false;
    }
    proof {
        assert(s2.take(first_dot(s2)) =~= s.subrange(d1 as int + 1, d2 as int));
    }
    if !check_u8_part(&v, d1 + 1, d2) {
        proof {
            assert(!valid_parts(s2, 3));
            assert(!valid_parts(s, 4));
        }
        return false;
    }
    let ghost s3 = s2.skip(first_dot(s2) + 1);
    let d3 = find_dot(&v, d2 + 1);
    proof {
        assert(s3 =~= v@.skip(d2 as int + 1));
        assert(d3 - (d2 + 1) == first_dot(s3));
    }
    if d3 == n {
        proof {
            assert(first_dot(s3) == s3.len());
            assert(!valid_parts(s3, 2));
            assert(!valid_parts(s2, 3));
            assert(!valid_parts(s, 4));
        }
        return false;
    }
    proof {
        assert(s3.take(first_dot(s3)) =~= s.subrange(d2 as int + 1, d3 as int));
    }
    if !check_u8_part(&v, d2 + 1, d3) {
        proof {
            assert(!valid_parts(s3, 2));
            assert(!valid_parts(s2, 3));
            assert(!valid_parts(s, 4));
        }
        return false;
    }
    let ghost s4 = s3.skip(first_dot(s3) + 1);
    let d4 = find_dot(&v, d3 + 1);
    proof {
        assert(s4 =~= v@.skip(d3 as int + 1));
        assert(d4 - (d3 + 1) == first_dot(s4));
    }
    if d4 != n {
        proof {
            assert(first_dot(s4) < s4.len());
            assert(!valid_parts(s4, 1));
            assert(!valid_parts(s3, 2));
            assert(!valid_parts(s2, 3));
            assert(!valid_parts(s, 4));
        }
        return false;
    }
    proof {
        assert(s4 =~= s.subrange(d3 as int + 1, n as int));
        assert(first_dot(s4) == s4.len());
    }
    let ok = check_u8_part(&v, d3 + 1, n);
    proof {
        assert(valid_parts(s4, 1) == is_u8_decimal(s4));
        assert(valid_parts(s3, 2) == valid_parts(s4, 1));
        assert(valid_parts(s2, 3) == valid_parts(s3, 2));
        assert(valid_parts(s, 4) == valid_parts(s2, 3));
    }
    ok
}

} // verus!
