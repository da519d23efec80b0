//! The settings record collected from the operator: connection details
//! plus one toggle per provisioning feature. The record is persisted as a
//! JSON cache by the shell around the library and handed back here when a
//! run is launched.

use vstd::prelude::*;

use crate::text::str_eq;

verus! {

/// Answers `true`; stands in for the default of settings that ship enabled.
pub fn default_true() -> (r: bool)
    ensures
        r,
{
    true
}

/// Everything the operator can set before a provisioning run.
#[derive(Debug, Clone)]
pub struct ProvisioningConfig {
    pub ip_address: String,
    pub ssh_user: String,
    pub connection_password: String,
    pub ssh_key_path: String,
    pub ssh_key_passphrase: String,
    pub hostname: String,
    pub added_user: String,
    pub user_password: String,
    pub create_user: bool,
    pub fail2ban: bool,
    pub docker: bool,
    pub swap: bool,
    pub lemp: bool,
    pub devtools: bool,
    pub wordpress: bool,
    pub certbot: bool,
    pub system_hardening: bool,
    pub apparmor: bool,
    pub rootkit_detection: bool,
    pub file_integrity: bool,
    pub audit_logging: bool,
    pub log_monitoring: bool,
    pub advanced_protection: bool,
    pub ssh_2fa_totp: bool,
    pub ssh_2fa_fido2: bool,
    pub ssh_2fa_duo: bool,
    pub backups: bool,
    pub usb_restrictions: bool,
    pub install_neovim: bool,
    pub install_nodejs: bool,
    pub install_claude_code: bool,
    pub install_gemini: bool,
    pub install_kiro: bool,
    pub install_github_cli: bool,
    pub install_btop: bool,
    pub install_tldr: bool,
    pub install_lazygit: bool,
    pub install_tmux: bool,
    pub install_zsh: bool,
    pub install_ripgrep: bool,
    pub install_fd: bool,
    pub install_duf: bool,
    pub install_ncdu: bool,
    pub install_lnav: bool,
    pub install_uv: bool,
    pub install_fzf: bool,
    pub install_bat: bool,
    pub install_eza: bool,
    pub install_zoxide: bool,
    pub install_jq: bool,
    pub install_htop: bool,
    pub install_gping: bool,
    pub install_nmap: bool,
    pub install_autossh: bool,
    pub install_starship: bool,
    pub install_direnv: bool,
    pub install_fish: bool,
    pub install_micro: bool,
    pub install_ranger: bool,
    pub secure_shm: bool,
    pub lynis: bool,
    pub disable_ipv6: bool,
    pub suricata: bool,
    pub cron_jobs: bool,
    pub periodic_reboot: bool,
    pub reboot_hour: String,
}

/// `c` holds the values a fresh record starts from, with `key_path` as
/// the pre-filled SSH key location.
pub open spec fn is_initial_config(c: &ProvisioningConfig, key_path: Seq<char>) -> bool {
    &&& c.ip_address@ == Seq::<char>::empty()
    &&& c.ssh_user@ == "root"@
    &&& c.connection_password@ == Seq::<char>::empty()
    &&& c.ssh_key_path@ == key_path
    &&& c.ssh_key_passphrase@ == Seq::<char>::empty()
    &&& c.hostname@ == Seq::<char>::empty()
    &&& c.added_user@ == "organic"@
    &&& c.user_password@ == Seq::<char>::empty()
    &&& c.create_user == true
    &&& c.fail2ban == true
    &&& c.docker == true
    &&& c.swap == true
    &&& c.lemp == false
    &&& c.devtools == true
    &&& c.wordpress == false
    &&& c.certbot == false
    &&& c.system_hardening == false
    &&& c.apparmor == false
    &&& c.rootkit_detection == false
    &&& c.file_integrity == false
    &&& c.audit_logging == false
    &&& c.log_monitoring == false
    &&& c.advanced_protection == false
    &&& c.ssh_2fa_totp == false
    &&& c.ssh_2fa_fido2 == false
    &&& c.ssh_2fa_duo == false
    &&& c.backups == false
    &&& c.usb_restrictions == false
    &&& c.install_neovim == true
    &&& c.install_nodejs == true
    &&& c.install_claude_code == true
    &&& c.install_gemini == false
    &&& c.install_kiro == false
    &&& c.install_github_cli == true
    &&& c.install_btop == true
    &&& c.install_tldr == true
    &&& c.install_lazygit == true
    &&& c.install_tmux == true
    &&& c.install_zsh == true
    &&& c.install_ripgrep == true
    &&& c.install_fd == true
    &&& c.install_duf == true
    &&& c.install_ncdu == true
    &&& c.install_lnav == true
    &&& c.install_uv == false
    &&& c.install_fzf == true
    &&& c.install_bat == true
    &&& c.install_eza == true
    &&& c.install_zoxide == true
    &&& c.install_jq == true
    &&& c.install_htop == true
    &&& c.install_gping == true
    &&& c.install_nmap == true
    &&& c.install_autossh == true
    &&& c.install_starship == true
    &&& c.install_direnv == true
    &&& c.install_fish == false
    &&& c.install_micro == true
    &&& c.install_ranger == true
    &&& c.secure_shm == false
    &&& c.lynis == false
    &&& c.disable_ipv6 == false
    &&& c.suricata == false
    &&& c.cron_jobs == true
    &&& c.periodic_reboot == false
    &&& c.reboot_hour@ == "3"@
}

impl ProvisioningConfig {
    /// A fresh record, with the SSH key location already filled in.
    pub fn initial(default_key_path: String) -> (r: Self)
        ensures
            is_initial_config(&r, default_key_path@),
    {
        ProvisioningConfig {
            ip_address: String::new(),
            ssh_user: String::from_str("root"),
            connection_password: String::new(),
            ssh_key_path: default_key_path,
            ssh_key_passphrase: String::new(),
            hostname: String::new(),
            added_user: String::from_str("organic"),
            user_password: String::new(),
            create_user: true,
            fail2ban: true,
            docker: true,
            swap: true,
            lemp: false,
            devtools: true,
            wordpress: false,
            certbot: false,
            system_hardening: false,
            apparmor: false,
            rootkit_detection: false,
            file_integrity: false,
            audit_logging: false,
            log_monitoring: false,
            advanced_protection: false,
            ssh_2fa_totp: false,
            ssh_2fa_fido2: false,
            ssh_2fa_duo: false,
            backups: false,
            usb_restrictions: false,
            install_neovim: true,
            install_nodejs: true,
            install_claude_code: true,
            install_gemini: false,
            install_kiro: false,
            install_github_cli: true,
            install_btop: true,
            install_tldr: true,
            install_lazygit: true,
            install_tmux: true,
            install_zsh: true,
            install_ripgrep: true,
            install_fd: true,
            install_duf: true,
            install_ncdu: true,
            install_lnav: true,
            install_uv: false,
            install_fzf: true,
            install_bat: true,
            install_eza: true,
            install_zoxide: true,
            install_jq: true,
            install_htop: true,
            install_gping: true,
            install_nmap: true,
            install_autossh: true,
            install_starship: true,
            install_direnv: true,
            install_fish: false,
            install_micro: true,
            install_ranger: true,
            secure_shm: false,
            lynis: false,
            disable_ipv6: false,
            suricata: false,
            cron_jobs: true,
            periodic_reboot: false,
            reboot_hour: String::from_str("3"),
        }
    }
}

impl Default for ProvisioningConfig {
    /// A fresh record with no SSH key location; the shell fills one in
    /// when it knows the home directory.
    fn default() -> (r: Self)
        ensures
            is_initial_config(&r, Seq::<char>::empty()),
    {
        ProvisioningConfig::initial(String::new())
    }
}

/// The SSH key location offered when nothing has been saved yet:
/// `.ssh/id_rsa` under the given home directory.
pub fn default_ssh_key_path(home: &str) -> (r: String)
    ensures
        r@ == home@ + "/.ssh/id_rsa"@,
{
    String::from_str(home).concat("/.ssh/id_rsa")
}

/// The label shown for a reboot-hour setting.
pub open spec fn reboot_schedule_label(h: Seq<char>) -> Seq<char> {
    if h == "1"@ {
        "Daily at 1:00 AM"@
    } else if h == "2"@ {
        "Daily at 2:00 AM"@
    } else if h == "3"@ {
        "Daily at 3:00 AM"@
    } else if h == "4"@ {
        "Daily at 4:00 AM"@
    } else if h == "5"@ {
        "Daily at 5:00 AM"@
    } else if h == "*/6"@ {
        "Every 6 hours"@
    } else if h == "*/12"@ {
        "Every 12 hours"@
    } else if h == "*/24"@ {
        "Every 24 hours"@
    } else {
        "Daily at 3:00 AM"@
    }
}

/// Renders the reboot-hour setting as the label the operator sees;
/// unknown values fall back to the 3 AM label.
pub fn format_reboot_schedule(hour: &str) -> (r: String)
    ensures
        r@ == reboot_schedule_label(hour@),
{
    let label: &str = if str_eq(hour, "1") {
        "Daily at 1:00 AM"
    } else if str_eq(hour, "2") {
        "Daily at 2:00 AM"
    } else if str_eq(hour, "3") {
        "Daily at 3:00 AM"
    } else if str_eq(hour, "4") {
        "Daily at 4:00 AM"
    } else if str_eq(hour, "5") {
        "Daily at 5:00 AM"
    } else if str_eq(hour, "*/6") {
        "Every 6 hours"
    } else if str_eq(hour, "*/12") {
        "Every 12 hours"
    } else if str_eq(hour, "*/24") {
        "Every 24 hours"
    } else {
        "Daily at 3:00 AM"
    };
    String::from_str(label)
}

} // verus!
