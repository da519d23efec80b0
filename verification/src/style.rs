//! The reduced colour cascade used by the alternative front-end skin.
//! Colours are packed `0xRRGGBB` values; the shell converts them to its
//! toolkit's colour type.

use vstd::prelude::*;

use crate::lines::LineStyle;
use crate::text::contains_seq;
use crate::text::contains_sub;
use crate::text::starts_with_chars;
use crate::text::starts_with_seq;
use crate::text::str_to_chars;
use crate::text::trim_chars;
use crate::text::trim_spec;

verus! {

pub const ERROR_RED: u32 = 0xFF453A;

pub const WARNING_AMBER: u32 = 0xFF9F0A;

pub const SUCCESS_GREEN: u32 = 0x30D158;

pub const TEXT_PRIMARY: u32 = 0xFFFFFF;

pub const TEXT_MED: u32 = 0xA0A0A5;

/// The reduced colour cascade applied to a (trimmed) output line.
pub open spec fn line_style_spec(line: Seq<char>) -> LineStyle {
    let t = trim_spec(line);
    if contains_seq(t, "FAILED"@) || contains_seq(t, "fatal:"@) || contains_seq(t, "ERROR"@) {
        LineStyle { color: ERROR_RED, bold: true }
    } else if contains_seq(t, "changed:"@) {
        LineStyle { color: WARNING_AMBER, bold: false }
    } else if contains_seq(t, "ok:"@) || contains_seq(t, "SUCCESS"@) {
        LineStyle { color: SUCCESS_GREEN, bold: false }
    } else if starts_with_seq(t, "TASK"@) || starts_with_seq(t, "PLAY"@) {
        LineStyle { color: TEXT_PRIMARY, bold: true }
    } else {
        LineStyle { color: TEXT_MED, bold: false }
    }
}

/// Picks the colour and weight a line of output is shown in.
pub fn ansible_line_style(line: &str) -> (r: LineStyle)
    ensures
        r == line_style_spec(line@),
{
    let v = str_to_chars(line);
    let t = trim_chars(&v);
    if contains_sub(&t, &str_to_chars("FAILED")) || contains_sub(&t, &str_to_chars("fatal:"))
        || contains_sub(&t, &str_to_chars("ERROR")) {
        LineStyle { color: ERROR_RED, bold: true }
    } else if contains_sub(&t, &str_to_chars("changed:")) {
        LineStyle { color: WARNING_AMBER, bold: false }
    } else if contains_sub(&t, &str_to_chars("ok:")) || contains_sub(&t, &str_to_chars("SUCCESS"))
    {
        LineStyle { color: SUCCESS_GREEN, bold: false }
    } else if starts_with_chars(&t, &str_to_chars("TASK")) || starts_with_chars(
        &t,
        &str_to_chars("PLAY"),
    ) {
        LineStyle { color: TEXT_PRIMARY, bold: true }
    } else {
        LineStyle { color: TEXT_MED, bold: false }
    }
}

} // verus!
