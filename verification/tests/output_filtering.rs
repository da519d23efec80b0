use rustsible::ansi::strip_ansi;
use rustsible::lines::ansible_line_style;
use rustsible::lines::error_display_line;
use rustsible::lines::filter_stderr_line;
use rustsible::lines::filter_stdout_line;
use rustsible::lines::is_timing_only_line;
use rustsible::lines::log_file_line;
use rustsible::lines::stderr_log_line;
use rustsible::lines::success_message;
use rustsible::lines::warning_display_line;
use rustsible::lines::LineStyle;
use rustsible::lines::StderrDisposition;
use rustsible::lines::StdoutDisposition;

#[test]
fn strip_ansi_removes_real_escape_sequences() {
    assert_eq!(strip_ansi("\x1b[1;32mok: [host]\x1b[0m"), "ok: [host]");
    assert_eq!(strip_ansi("plain text"), "plain text");
    assert_eq!(strip_ansi(""), "");
}

#[test]
fn strip_ansi_drops_lone_escape() {
    // ESC not followed by `[` disappears on its own.
    assert_eq!(strip_ansi("a\x1bb"), "ab");
    // ESC at the very end disappears too.
    assert_eq!(strip_ansi("abc\x1b"), "abc");
    // An unterminated sequence swallows the rest of the line.
    assert_eq!(strip_ansi("ab\x1b[123"), "ab");
}

#[test]
fn strip_ansi_removes_literal_escape_spellings() {
    assert_eq!(strip_ansi("a\\u001b[0mb"), "ab");
    assert_eq!(strip_ansi("a\\u001B[1;36mb"), "ab");
    assert_eq!(strip_ansi("a\\u000033[1;36mb"), "ab");
    assert_eq!(strip_ansi("a\\033[31mb"), "ab");
    assert_eq!(strip_ansi("a\x0033[0mb"), "ab");
    assert_eq!(strip_ansi("a\x00\x0033[0;1mb"), "ab");
}

#[test]
fn strip_ansi_keeps_incomplete_literal_spellings() {
    // No closing `m`: nothing is removed.
    assert_eq!(strip_ansi("a\\u001b[0x"), "a\\u001b[0x");
    // No bracket after the introducer.
    assert_eq!(strip_ansi("a\\0331m"), "a\\0331m");
    // A plain backslash-u with no colour code.
    assert_eq!(strip_ansi("c:\\users"), "c:\\users");
}

#[test]
fn timing_lines_are_recognised() {
    assert!(is_timing_only_line(
        "Friday 20 February 2026  19:15:30 -0800 (0:00:00.008)       0:00:00.008 *******"
    ));
    assert!(is_timing_only_line("***************"));
    assert!(!is_timing_only_line("TASK [install docker] *******"));
    assert!(!is_timing_only_line("PLAY RECAP *********"));
    assert!(!is_timing_only_line("ok: [server]"));
}

#[test]
fn stdout_blank_lines_are_discarded() {
    assert!(matches!(filter_stdout_line(""), StdoutDisposition::Discard));
    assert!(matches!(filter_stdout_line("   \t "), StdoutDisposition::Discard));
    // A line that is blank once its colour codes are gone.
    assert!(matches!(filter_stdout_line("\x1b[0m  "), StdoutDisposition::Discard));
}

#[test]
fn stdout_timing_lines_go_to_log_only() {
    match filter_stdout_line("Monday 03 March 2025  10:00:00 +0000 (0:00:01.100) 0:00:01.100 *******") {
        StdoutDisposition::LogOnly(s) => {
            assert_eq!(
                s,
                "Monday 03 March 2025  10:00:00 +0000 (0:00:01.100) 0:00:01.100 *******"
            );
        }
        other => panic!("expected LogOnly, got {:?}", other),
    }
}

#[test]
fn stdout_ordinary_lines_are_displayed_cleaned() {
    match filter_stdout_line("\x1b[32mok: [host]\x1b[0m") {
        StdoutDisposition::Display(s) => assert_eq!(s, "ok: [host]"),
        other => panic!("expected Display, got {:?}", other),
    }
}

#[test]
fn stderr_blank_lines_are_discarded() {
    assert!(matches!(filter_stderr_line("  "), StderrDisposition::Discard));
}

#[test]
fn stderr_warnings_are_classified() {
    match filter_stderr_line("[WARNING]: provided hosts list is empty") {
        StderrDisposition::Warning(s) => {
            assert_eq!(s, "[WARNING]: provided hosts list is empty");
        }
        other => panic!("expected Warning, got {:?}", other),
    }
    match filter_stderr_line("Use `ansible_facts` instead") {
        StderrDisposition::Warning(_) => {}
        other => panic!("expected Warning, got {:?}", other),
    }
}

#[test]
fn stderr_deprecation_context_goes_to_log_only() {
    assert!(matches!(
        filter_stderr_line("Origin: /etc/ansible/playbook.yml:12"),
        StderrDisposition::LogOnly(_)
    ));
    assert!(matches!(
        filter_stderr_line("        ^ column 13"),
        StderrDisposition::LogOnly(_)
    ));
    // A numbered source snippet: leading digit and internal double space.
    assert!(matches!(
        filter_stderr_line("12   - name: do  things"),
        StderrDisposition::LogOnly(_)
    ));
}

#[test]
fn stderr_other_lines_are_errors() {
    match filter_stderr_line("fatal: something broke") {
        StderrDisposition::Error(s) => assert_eq!(s, "fatal: something broke"),
        other => panic!("expected Error, got {:?}", other),
    }
}

#[test]
fn line_styles_match_ansible_colours() {
    assert_eq!(
        ansible_line_style("fatal: [host]: FAILED! => {}"),
        LineStyle { color: 0xFF4B4B, bold: true }
    );
    assert_eq!(
        ansible_line_style("ERROR: something"),
        LineStyle { color: 0xE74C3C, bold: true }
    );
    assert_eq!(
        ansible_line_style("changed: [host]"),
        LineStyle { color: 0xF1C40F, bold: false }
    );
    assert_eq!(
        ansible_line_style("ok: [host]"),
        LineStyle { color: 0x2ECC71, bold: false }
    );
    assert_eq!(
        ansible_line_style("skipping: [host]"),
        LineStyle { color: 0x56CCF2, bold: false }
    );
    assert_eq!(
        ansible_line_style("PLAY RECAP *********"),
        LineStyle { color: 0xFFFFFF, bold: true }
    );
    assert_eq!(
        ansible_line_style("TASK [install docker]"),
        LineStyle { color: 0x5DADE2, bold: true }
    );
    assert_eq!(
        ansible_line_style("host : ok=5 changed=2 unreachable=0"),
        LineStyle { color: 0xFF5555, bold: true }
    );
    assert_eq!(
        ansible_line_style("anything else"),
        LineStyle { color: 0xC8C8C8, bold: false }
    );
}

#[test]
fn recap_line_is_purple_when_not_unreachable() {
    assert_eq!(
        ansible_line_style("host : ok=5 changed=2 failed=0"),
        LineStyle { color: 0xBB8FCE, bold: false }
    );
}

#[test]
fn message_builders_prefix_their_lines() {
    assert_eq!(warning_display_line("deprecation ahead"), "WARNING: deprecation ahead");
    assert_eq!(stderr_log_line("boom"), "STDERR: boom");
    assert_eq!(error_display_line("boom"), "ERROR: boom");
    assert_eq!(log_file_line("/tmp/provisioning.log"), "Log file: /tmp/provisioning.log");
    assert_eq!(success_message(), "Provisioning completed successfully!");
}
