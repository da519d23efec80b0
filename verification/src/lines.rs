//! Line-by-line handling of the provisioning tool's output: which lines
//! are pure timing noise, which stderr lines are warnings rather than
//! errors, which are skipped as deprecation context, and which colour
//! each line is shown in.

use vstd::prelude::*;

use crate::ansi::is_digit;
use crate::ansi::strip_ansi;
use crate::ansi::strip_ansi_spec;
use crate::text::contains_seq;
use crate::text::contains_sub;
use crate::text::ends_with_chars;
use crate::text::ends_with_seq;
use crate::text::starts_with_chars;
use crate::text::starts_with_seq;
use crate::text::str_to_chars;
use crate::text::trim_chars;
use crate::text::trim_spec;

verus! {

/// The line carries only task-timing output — a run of asterisks with
/// no task, play or handler heading, or a weekday-dated stamp with a
/// duration and a trailing run of asterisks.
pub open spec fn timing_only_line(s: Seq<char>) -> bool {
    (contains_seq(s, "*******"@) && !contains_seq(s, "TASK"@) && !contains_seq(s, "PLAY"@)
        && !contains_seq(s, "HANDLER"@)) || ((starts_with_seq(s, "Friday "@) || starts_with_seq(
        s,
        "Saturday "@,
    ) || starts_with_seq(s, "Sunday "@) || starts_with_seq(s, "Monday "@) || starts_with_seq(
        s,
        "Tuesday "@,
    ) || starts_with_seq(s, "Wednesday "@) || starts_with_seq(s, "Thursday "@)) && contains_seq(
        s,
        "(0:"@,
    ) && ends_with_seq(s, "*******"@))
}

/// Decides [`timing_only_line`] over a character vector.
fn timing_only_chars(s: &Vec<char>) -> (b: bool)
    ensures
        b == timing_only_line(s@),
{
    let stars = str_to_chars("*******");
    let first = contains_sub(s, &stars) && !contains_sub(s, &str_to_chars("TASK"))
        && !contains_sub(s, &str_to_chars("PLAY")) && !contains_sub(s, &str_to_chars("HANDLER"));
    if first {
        return true;
    }
    let weekday = starts_with_chars(s, &str_to_chars("Friday ")) || starts_with_chars(
        s,
        &str_to_chars("Saturday "),
    ) || starts_with_chars(s, &str_to_chars("Sunday ")) || starts_with_chars(
        s,
        &str_to_chars("Monday "),
    ) || starts_with_chars(s, &str_to_chars("Tuesday ")) || starts_with_chars(
        s,
        &str_to_chars("Wednesday "),
    ) || starts_with_chars(s, &str_to_chars("Thursday "));
    weekday && contains_sub(s, &str_to_chars("(0:")) && ends_with_chars(s, &stars)
}

/// The line carries only timing information from the profiling callback
/// and is kept out of the display (though still logged).
pub fn is_timing_only_line(s: &str) -> (b: bool)
    ensures
        b == timing_only_line(s@),
{
    let v = str_to_chars(s);
    timing_only_chars(&v)
}

/// How one output line is rendered: a packed `0xRRGGBB` colour and a
/// bold flag.
#[derive(PartialEq, Eq, Structural, Clone, Copy, Debug)]
pub struct LineStyle {
    pub color: u32,
    pub bold: bool,
}

pub const BRIGHT_RED: u32 = 0xFF4B4B;

pub const RED: u32 = 0xE74C3C;

pub const SOFT_RED: u32 = 0xFF5555;

pub const YELLOW: u32 = 0xF1C40F;

pub const ORANGE: u32 = 0xE6AF2E;

pub const GREEN: u32 = 0x2ECC71;

pub const CYAN: u32 = 0x56CCF2;

pub const WHITE: u32 = 0xFFFFFF;

pub const BLUE: u32 = 0x5DADE2;

pub const PURPLE: u32 = 0xBB8FCE;

pub const DIM_GRAY: u32 = 0x787878;

pub const LIGHT_GRAY: u32 = 0xA0A0A0;

pub const BLUE_GRAY: u32 = 0x78909C;

pub const DEFAULT_GRAY: u32 = 0xC8C8C8;

/// The colour cascade applied to a (trimmed) output line, matching the
/// provisioning tool's own terminal colours.
pub open spec fn line_style_spec(line: Seq<char>) -> LineStyle {
    let t = trim_spec(line);
    if starts_with_seq(t, "fatal:"@) || contains_seq(t, "FAILED!"@) {
        LineStyle { color: BRIGHT_RED, bold: true }
    } else if contains_seq(t, "ERROR"@) || starts_with_seq(t, "ERROR:"@) {
        LineStyle { color: RED, bold: true }
    } else if contains_seq(t, "UNREACHABLE!"@) || contains_seq(t, "unreachable="@) {
        LineStyle { color: SOFT_RED, bold: true }
    } else if starts_with_seq(t, "changed:"@) || contains_seq(t, "changed:"@) {
        LineStyle { color: YELLOW, bold: false }
    } else if contains_seq(t, "[WARNING]"@) || starts_with_seq(t, "WARNING"@) || starts_with_seq(
        t,
        "[DEPRECATION"@,
    ) {
        LineStyle { color: ORANGE, bold: false }
    } else if starts_with_seq(t, "ok:"@) || contains_seq(t, "ok:"@) {
        LineStyle { color: GREEN, bold: false }
    } else if contains_seq(t, "SUCCESS"@) || contains_seq(t, "PROVISIONING COMPLETED"@) {
        LineStyle { color: GREEN, bold: true }
    } else if starts_with_seq(t, "skipping:"@) || contains_seq(t, "skipping:"@) {
        LineStyle { color: CYAN, bold: false }
    } else if starts_with_seq(t, "included:"@) {
        LineStyle { color: CYAN, bold: false }
    } else if starts_with_seq(t, "PLAY ["@) || starts_with_seq(t, "PLAY RECAP"@) {
        LineStyle { color: WHITE, bold: true }
    } else if starts_with_seq(t, "TASK ["@) {
        LineStyle { color: BLUE, bold: true }
    } else if starts_with_seq(t, "RUNNING HANDLER"@) {
        LineStyle { color: BLUE, bold: true }
    } else if contains_seq(t, "ok="@) && contains_seq(t, "changed="@) {
        LineStyle { color: PURPLE, bold: false }
    } else if contains_seq(t, "0:00:"@) || starts_with_seq(t, "===="@) || starts_with_seq(
        t,
        "----"@,
    ) {
        LineStyle { color: DIM_GRAY, bold: false }
    } else if starts_with_seq(t, "Playbook run took"@) || starts_with_seq(t, "TASKS RECAP"@)
        || starts_with_seq(t, "PLAYBOOK RECAP"@) {
        LineStyle { color: LIGHT_GRAY, bold: true }
    } else if starts_with_seq(t, "Log file:"@) {
        LineStyle { color: BLUE_GRAY, bold: false }
    } else {
        LineStyle { color: DEFAULT_GRAY, bold: false }
    }
}

/// Picks the colour and weight a line of output is shown in.
pub fn ansible_line_style(line: &str) -> (r: LineStyle)
    ensures
        r == line_style_spec(line@),
{
    let v = str_to_chars(line);
    let t = trim_chars(&v);
    if starts_with_chars(&t, &str_to_chars("fatal:")) || contains_sub(&t, &str_to_chars("FAILED!"))
    {
        LineStyle { color: BRIGHT_RED, bold: true }
    } else if contains_sub(&t, &str_to_chars("ERROR")) || starts_with_chars(
        &t,
        &str_to_chars("ERROR:"),
    ) {
        LineStyle { color: RED, bold: true }
    } else if contains_sub(&t, &str_to_chars("UNREACHABLE!")) || contains_sub(
        &t,
        &str_to_chars("unreachable="),
    ) {
        LineStyle { color: SOFT_RED, bold: true }
    } else if starts_with_chars(&t, &str_to_chars("changed:")) || contains_sub(
        &t,
        &str_to_chars("changed:"),
    ) {
        LineStyle { color: YELLOW, bold: false }
    } else if contains_sub(&t, &str_to_chars("[WARNING]")) || starts_with_chars(
        &t,
        &str_to_chars("WARNING"),
    ) || starts_with_chars(&t, &str_to_chars("[DEPRECATION")) {
        LineStyle { color: ORANGE, bold: false }
    } else if starts_with_chars(&t, &str_to_chars("ok:")) || contains_sub(
        &t,
        &str_to_chars("ok:"),
    ) {
        LineStyle { color: GREEN, bold: false }
    } else if contains_sub(&t, &str_to_chars("SUCCESS")) || contains_sub(
        &t,
        &str_to_chars("PROVISIONING COMPLETED"),
    ) {
        LineStyle { color: GREEN, bold: true }
    } else if starts_with_chars(&t, &str_to_chars("skipping:")) || contains_sub(
        &t,
        &str_to_chars("skipping:"),
    ) {
        LineStyle { color: CYAN, bold: false }
    } else if starts_with_chars(&t, &str_to_chars("included:")) {
        LineStyle { color: CYAN, bold: false }
    } else if starts_with_chars(&t, &str_to_chars("PLAY [")) || starts_with_chars(
        &t,
        &str_to_chars("PLAY RECAP"),
    ) {
        LineStyle { color: WHITE, bold: true }
    } else if starts_with_chars(&t, &str_to_chars("TASK [")) {
        LineStyle { color: BLUE, bold: true }
    } else if starts_with_chars(&t, &str_to_chars("RUNNING HANDLER")) {
        LineStyle { color: BLUE, bold: true }
    } else if contains_sub(&t, &str_to_chars("ok=")) && contains_sub(&t, &str_to_chars("changed="))
    {
        LineStyle { color: PURPLE, bold: false }
    } else if contains_sub(&t, &str_to_chars("0:00:")) || starts_with_chars(
        &t,
        &str_to_chars("===="),
    ) || starts_with_chars(&t, &str_to_chars("----")) {
        LineStyle { color: DIM_GRAY, bold: false }
    } else if starts_with_chars(&t, &str_to_chars("Playbook run took")) || starts_with_chars(
        &t,
        &str_to_chars("TASKS RECAP"),
    ) || starts_with_chars(&t, &str_to_chars("PLAYBOOK RECAP")) {
        LineStyle { color: LIGHT_GRAY, bold: true }
    } else if starts_with_chars(&t, &str_to_chars("Log file:")) {
        LineStyle { color: BLUE_GRAY, bold: false }
    } else {
        LineStyle { color: DEFAULT_GRAY, bold: false }
    }
}

/// A captured stderr line reports a warning or deprecation rather than
/// a failure.
pub open spec fn warning_line(t: Seq<char>) -> bool {
    contains_seq(t, "[WARNING]"@) || contains_seq(t, "[DEPRECATION WARNING]"@) || starts_with_seq(
        t,
        "Origin:"@,
    ) || starts_with_seq(t, "Use `ansible_facts"@) || contains_seq(t, "^ column"@)
}

/// A captured stderr line is verbose context around a deprecation
/// notice — a source location, a caret marker, or a numbered source
/// snippet — and is kept out of the display.
pub open spec fn deprecation_context_line(t: Seq<char>) -> bool {
    starts_with_seq(t, "Origin:"@) || contains_seq(t, "^ column"@) || (vstd::utf8::encode_utf8(
        t,
    ).len() > 2 && t.len() > 0 && is_digit(t[0]) && contains_seq(t, "  "@))
}

fn warning_chars(t: &Vec<char>) -> (b: bool)
    ensures
        b == warning_line(t@),
{
    contains_sub(t, &str_to_chars("[WARNING]")) || contains_sub(
        t,
        &str_to_chars("[DEPRECATION WARNING]"),
    ) || starts_with_chars(t, &str_to_chars("Origin:")) || starts_with_chars(
        t,
        &str_to_chars("Use `ansible_facts"),
    ) || contains_sub(t, &str_to_chars("^ column"))
}

/// The number of bytes in the UTF-8 encoding of `c`.
fn char_utf8_width(c: char) -> (w: usize)
    ensures
        w == vstd::utf8::encode_scalar(c as u32).len(),
        1 <= w <= 4,
{
    proof {
        vstd::utf8::char_is_scalar(c);
    }
    let u = c as u32;
    if u < 0x80 {
        1
    } else if u < 0x800 {
        2
    } else if u < 0x10000 {
        3
    } else {
        4
    }
}

proof fn lemma_encode_unfold(s: Seq<char>)
    requires
        s.len() > 0,
    ensures
        vstd::utf8::encode_utf8(s).len() == vstd::utf8::encode_scalar(s[0] as u32).len()
            + vstd::utf8::encode_utf8(s.drop_first()).len(),
{
}

proof fn lemma_encode_len_ge(s: Seq<char>)
    ensures
        vstd::utf8::encode_utf8(s).len() >= s.len(),
    decreases s.len(),
{
    if s.len() > 0 {
        lemma_encode_len_ge(s.drop_first());
        vstd::utf8::char_is_scalar(s[0]);
    }
}

/// Whether the UTF-8 encoding of `t` is longer than two bytes.
fn utf8_len_gt_2(t: &Vec<char>) -> (b: bool)
    ensures
        b == (vstd::utf8::encode_utf8(t@).len() > 2),
{
    if t.len() == 0 {
        false
    } else if t.len() == 1 {
        proof {
            lemma_encode_unfold(t@);
            assert(t@.drop_first().len() == 0);
            assert(vstd::utf8::encode_utf8(t@.drop_first()).len() == 0);
        }
        char_utf8_width(t[0]) > 2
    } else if t.len() == 2 {
        proof {
            let d = t@.drop_first();
            lemma_encode_unfold(t@);
            lemma_encode_unfold(d);
            assert(d.drop_first().len() == 0);
            assert(vstd::utf8::encode_utf8(d.drop_first()).len() == 0);
            assert(d[0] == t@[1]);
        }
        let w0 = char_utf8_width(t[0]);
        let w1 = char_utf8_width(t[1]);
        w0 + w1 > 2
    } else {
        proof {
            lemma_encode_len_ge(t@);
        }
        true
    }
}

fn deprecation_context_chars(t: &Vec<char>) -> (b: bool)
    ensures
        b == deprecation_context_line(t@),
{
    if starts_with_chars(t, &str_to_chars("Origin:")) || contains_sub(t, &str_to_chars("^ column"))
    {
        return true;
    }
    if t.len() == 0 {
        return false;
    }
    let c = t[0];
    let u = c as u32;
    let leading_digit = 0x30 <= u && u <= 0x39;
    if !leading_digit {
        return false;
    }
    utf8_len_gt_2(t) && contains_sub(t, &str_to_chars("  "))
}

/// What becomes of one captured stdout line.
#[derive(Debug)]
pub enum StdoutDisposition {
    /// Blank once cleaned: neither logged nor shown.
    Discard,
    /// Timing noise: written to the log only.
    LogOnly(String),
    /// Written to the log and shown to the operator.
    Display(String),
}

/// Cleans one stdout line and decides where it goes: blank lines are
/// dropped, timing-only lines are logged but not shown, everything else
/// is logged and shown. The carried string is the cleaned line.
pub fn filter_stdout_line(line: &str) -> (r: StdoutDisposition)
    ensures
        ({
            let clean = strip_ansi_spec(line@);
            let t = trim_spec(clean);
            &&& (r is Discard <==> t.len() == 0)
            &&& (r is LogOnly <==> (t.len() > 0 && timing_only_line(t)))
            &&& (r is Display <==> (t.len() > 0 && !timing_only_line(t)))
            &&& (r matches StdoutDisposition::LogOnly(c) ==> c@ == clean)
            &&& (r matches StdoutDisposition::Display(c) ==> c@ == clean)
        }),
{
    let clean = strip_ansi(line);
    let cv = str_to_chars(clean.as_str());
    let t = trim_chars(&cv);
    if t.len() == 0 {
        StdoutDisposition::Discard
    } else if timing_only_chars(&t) {
        StdoutDisposition::LogOnly(clean)
    } else {
        StdoutDisposition::Display(clean)
    }
}

/// What becomes of one captured stderr line.
#[derive(Debug)]
pub enum StderrDisposition {
    /// Blank once cleaned: neither logged nor shown.
    Discard,
    /// Deprecation context: written to the log only.
    LogOnly(String),
    /// Logged, and shown to the operator as a warning.
    Warning(String),
    /// Logged, and surfaced to the operator as an error.
    Error(String),
}

/// Cleans one stderr line and decides where it goes: blank lines are
/// dropped, deprecation context is logged but not shown, warnings are
/// shown as warnings, and everything else is surfaced as an error. The
/// carried string is the cleaned line.
pub fn filter_stderr_line(line: &str) -> (r: StderrDisposition)
    ensures
        ({
            let clean = strip_ansi_spec(line@);
            let t = trim_spec(clean);
            &&& (r is Discard <==> t.len() == 0)
            &&& (r is LogOnly <==> (t.len() > 0 && deprecation_context_line(t)))
            &&& (r is Warning <==> (t.len() > 0 && !deprecation_context_line(t) && warning_line(
                t,
            )))
            &&& (r is Error <==> (t.len() > 0 && !deprecation_context_line(t) && !warning_line(t)))
            &&& (r matches StderrDisposition::LogOnly(c) ==> c@ == clean)
            &&& (r matches StderrDisposition::Warning(c) ==> c@ == clean)
            &&& (r matches StderrDisposition::Error(c) ==> c@ == clean)
        }),
{
    let clean = strip_ansi(line);
    let cv = str_to_chars(clean.as_str());
    let t = trim_chars(&cv);
    if t.len() == 0 {
        StderrDisposition::Discard
    } else if deprecation_context_chars(&t) {
        StderrDisposition::LogOnly(clean)
    } else if warning_chars(&t) {
        StderrDisposition::Warning(clean)
    } else {
        StderrDisposition::Error(clean)
    }
}

/// The display form of a stderr warning line.
pub fn warning_display_line(clean: &str) -> (r: String)
    ensures
        r@ == "WARNING: "@ + clean@,
{
    String::from_str("WARNING: ").concat(clean)
}

/// The log-file form of a stderr line.
pub fn stderr_log_line(clean: &str) -> (r: String)
    ensures
        r@ == "STDERR: "@ + clean@,
{
    String::from_str("STDERR: ").concat(clean)
}

/// The display form of an error message pushed into the output pane.
pub fn error_display_line(line: &str) -> (r: String)
    ensures
        r@ == "ERROR: "@ + line@,
{
    String::from_str("ERROR: ").concat(line)
}

/// The line announcing where the run's log file lives.
pub fn log_file_line(path: &str) -> (r: String)
    ensures
        r@ == "Log file: "@ + path@,
{
    String::from_str("Log file: ").concat(path)
}

/// The message shown when a run finishes cleanly.
pub fn success_message() -> (r: String)
    ensures
        r@ == "Provisioning completed successfully!"@,
{
    String::from_str("Provisioning completed successfully!")
}

} // verus!
