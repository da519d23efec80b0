//! Removal of terminal colour codes from the provisioning tool's output.
//!
//! Two kinds of noise appear in the captured lines. Real escape
//! sequences — an ESC byte, `[`, parameters, and a final letter — come
//! from the tool's own colouring. On top of that, YAML-formatted output
//! often carries *literal* renderings of such sequences, spelled
//! `\u001b[...m`, `\u000033[...m`, `\033[...m`, or NUL-padded `33[...m`.
//! Both kinds are stripped before a line is logged or shown.

use vstd::prelude::*;

verus! {

/// An ASCII letter; a real escape sequence ends at the first one.
pub open spec fn is_alpha(c: char) -> bool {
    let u = c as u32;
    (0x41 <= u && u <= 0x5a) || (0x61 <= u && u <= 0x7a)
}

/// An ASCII digit.
pub open spec fn is_digit(c: char) -> bool {
    let u = c as u32;
    0x30 <= u && u <= 0x39
}

/// A character allowed between `[` and the final `m` of a literal
/// colour code: digits and semicolons.
pub open spec fn is_param_char(c: char) -> bool {
    is_digit(c) || c == ';'
}

/// Where the scanner over real escape sequences stands: in plain text,
/// or inside an ESC `[` sequence waiting for the final letter.
#[derive(Clone, Copy, PartialEq, Eq, Structural, Debug)]
pub enum EscState {
    Plain,
    Csi,
}

/// What remains of `s` once real escape sequences are removed, scanning
/// from state `st`. An ESC followed by `[` opens a sequence that runs up
/// to and including the first ASCII letter; an ESC followed by anything
/// else (or by nothing) is dropped on its own.
pub open spec fn strip_esc_from(s: Seq<char>, st: EscState) -> Seq<char>
    decreases s.len(),
{
    if s.len() == 0 {
        Seq::<char>::empty()
    } else {
        match st {
            EscState::Plain => {
                if s[0] == '\x1b' {
                    if s.len() >= 2 && s[1] == '[' {
                        strip_esc_from(s.skip(2), EscState::Csi)
                    } else {
                        strip_esc_from(s.drop_first(), EscState::Plain)
                    }
                } else {
                    seq![s[0]] + strip_esc_from(s.drop_first(), EscState::Plain)
                }
            },
            EscState::Csi => {
                if is_alpha(s[0]) {
                    strip_esc_from(s.drop_first(), EscState::Plain)
                } else {
                    strip_esc_from(s.drop_first(), EscState::Csi)
                }
            },
        }
    }
}

/// `s` with real escape sequences removed.
pub open spec fn strip_esc(s: Seq<char>) -> Seq<char> {
    strip_esc_from(s, EscState::Plain)
}

/// Length of the run of copies of `c` in `s` starting at `i`.
pub open spec fn run_len(s: Seq<char>, i: int, c: char) -> int
    decreases s.len() - i,
{
    if 0 <= i && i < s.len() && s[i] == c {
        1 + run_len(s, i + 1, c)
    } else {
        0
    }
}

/// Length of the run of parameter characters in `s` starting at `i`.
pub open spec fn param_run_len(s: Seq<char>, i: int) -> int
    decreases s.len() - i,
{
    if 0 <= i && i < s.len() && is_param_char(s[i]) {
        1 + param_run_len(s, i + 1)
    } else {
        0
    }
}

/// Length of the escape introducer of a literal colour code at `i`, or
/// -1 when none starts there. The three accepted spellings are
/// `\u`, zero or more `0`s, then `1b`, `1B` or `33`; the four characters
/// `\033`; and one or more NUL characters followed by `33`.
pub open spec fn literal_intro_len(s: Seq<char>, i: int) -> int {
    if 0 <= i && i + 2 <= s.len() && s[i] == '\\' && s[i + 1] == 'u' {
        let z = run_len(s, i + 2, '0');
        let j = i + 2 + z;
        if j + 2 <= s.len() && ((s[j] == '1' && (s[j + 1] == 'b' || s[j + 1] == 'B')) || (s[j]
            == '3' && s[j + 1] == '3')) {
            z + 4
        } else {
            -1
        }
    } else if 0 <= i && i + 4 <= s.len() && s[i] == '\\' && s[i + 1] == '0' && s[i + 2] == '3' && s[
        i + 3] == '3' {
        4
    } else if 0 <= i && i < s.len() && s[i] == '\x00' {
        let z = run_len(s, i, '\x00');
        let j = i + z;
        if j + 2 <= s.len() && s[j] == '3' && s[j + 1] == '3' {
            z + 2
        } else {
            -1
        }
    } else {
        -1
    }
}

/// Length of a whole literal colour code at `i` — introducer, `[`,
/// parameter characters, final `m` — or -1 when none starts there.
pub open spec fn literal_token_len(s: Seq<char>, i: int) -> int {
    let il = literal_intro_len(s, i);
    if il >= 1 {
        let j = i + il;
        if j < s.len() && s[j] == '[' {
            let b = param_run_len(s, j + 1);
            let k = j + 1 + b;
            if k < s.len() && s[k] == 'm' {
                il + b + 2
            } else {
                -1
            }
        } else {
            -1
        }
    } else {
        -1
    }
}

/// What remains of `s` from position `i` on once literal colour codes
/// are removed, scanning left to right and skipping each code whole.
pub open spec fn strip_literals_from(s: Seq<char>, i: int) -> Seq<char>
    decreases s.len() - i,
{
    if i < 0 || i >= s.len() {
        Seq::<char>::empty()
    } else {
        let l = literal_token_len(s, i);
        if 1 <= l && i + l <= s.len() {
            strip_literals_from(s, i + l)
        } else {
            seq![s[i]] + strip_literals_from(s, i + 1)
        }
    }
}

/// `s` with literal colour codes removed.
pub open spec fn strip_literal_escapes(s: Seq<char>) -> Seq<char> {
    strip_literals_from(s, 0)
}

/// `s` with real escape sequences removed first and literal colour
/// codes removed from the result.
pub open spec fn strip_ansi_spec(s: Seq<char>) -> Seq<char> {
    strip_literal_escapes(strip_esc(s))
}

/// Decides [`is_alpha`] on a single character.
fn is_alpha_char(c: char) -> (b: bool)
    ensures
        b == is_alpha(c),
{
    let u = c as u32;
    (0x41 <= u && u <= 0x5a) || (0x61 <= u && u <= 0x7a)
}

/// Decides [`is_param_char`] on a single character.
fn is_param_char_exec(c: char) -> (b: bool)
    ensures
        b == is_param_char(c),
{
    let u = c as u32;
    (0x30 <= u && u <= 0x39) || c == ';'
}

/// Removes real escape sequences from `v`.
fn strip_esc_chars(v: &Vec<char>) -> (r: Vec<char>)
    ensures
        r@ == strip_esc(v@),
{
    let n = v.len();
    let mut out: Vec<char> = Vec::new();
    let mut i: usize = 0;
    let mut in_csi = false;
    proof {
        assert(v@.skip(0) =~= v@);
        assert(Seq::<char>::empty() + strip_esc_from(v@, EscState::Plain) =~= strip_esc_from(
            v@,
            EscState::Plain,
        ));
    }
    while i < n
        invariant
            n == v@.len(),
            i <= n,
            strip_esc(v@) == out@ + strip_esc_from(
                v@.skip(i as int),
                if in_csi {
                    EscState::Csi
                } else {
                    EscState::Plain
                },
            ),
        decreases n - i,
    {
        let ghost rest = v@.skip(i as int);
        proof {
            assert(rest[0] == v@[i as int]);
            assert(rest.drop_first() =~= v@.skip(i as int + 1));
        }
        if in_csi {
            if is_alpha_char(v[i]) {
                in_csi = false;
            }
            i = i + 1;
        } else {
            let c = v[i];
            if c == '\x1b' {
                if i + 1 < n && v[i + 1] == '[' {
                    proof {
                        assert(rest[1] == v@[i as int + 1]);
                        assert(rest.skip(2) =~= v@.skip(i as int + 2));
                    }
                    in_csi = true;
                    i = i + 2;
                } else {
                    proof {
                        assert(rest.len() >= 2 ==> rest[1] == v@[i as int + 1]);
                    }
                    i = i + 1;
                }
            } else {
                let ghost old_out = out@;
                out.push(c);
                i = i + 1;
                proof {
                    let tail = strip_esc_from(v@.skip(i as int), EscState::Plain);
                    assert(out@ =~= old_out + seq![c]);
                    assert((old_out + seq![c]) + tail =~= old_out + (seq![c] + tail));
                }
            }
        }
    }
    proof {
        assert(v@.skip(n as int) =~= Seq::<char>::empty());
        assert(out@ =~= strip_esc(v@));
    }
    out
}

/// Measures the run of copies of `c` in `v` starting at `i`.
fn run_scan(v: &Vec<char>, i: usize, c: char) -> (r: usize)
    requires
        i <= v@.len(),
    ensures
        r == run_len(v@, i as int, c),
        i + r <= v@.len(),
{
    let n = v.len();
    let mut j: usize = i;
    while j < n && v[j] == c
        invariant
            n == v@.len(),
            i <= j <= n,
            run_len(v@, i as int, c) == j - i + run_len(v@, j as int, c),
        decreases n - j,
    {
        j = j + 1;
    }
    j - i
}

/// Measures the run of parameter characters in `v` starting at `i`.
fn param_run_scan(v: &Vec<char>, i: usize) -> (r: usize)
    requires
        i <= v@.len(),
    ensures
        r == param_run_len(v@, i as int),
        i + r <= v@.len(),
{
    let n = v.len();
    let mut j: usize = i;
    while j < n && is_param_char_exec(v[j])
        invariant
            n == v@.len(),
            i <= j <= n,
            param_run_len(v@, i as int) == j - i + param_run_len(v@, j as int),
        decreases n - j,
    {
        j = j + 1;
    }
    j - i
}

/// Finds the length of the literal colour code at `i`, if one starts
/// there.
fn literal_token_at(v: &Vec<char>, i: usize) -> (r: Option<usize>)
    requires
        i < v@.len(),
    ensures
        match r {
            Some(l) => literal_token_len(v@, i as int) == l as int && 1 <= l && i + l <= v@.len(),
            None => literal_token_len(v@, i as int) == -1,
        },
{
    let n = v.len();
    let intro: usize;
    if n - i >= 2 && v[i] == '\\' && v[i + 1] == 'u' {
        let z = run_scan(v, i + 2, '0');
        let j = i + 2 + z;
        if n - j >= 2 && ((v[j] == '1' && (v[j + 1] == 'b' || v[j + 1] == 'B')) || (v[j] == '3'
            && v[j + 1] == '3')) {
            intro = z + 4;
        } else {
            return None;
        }
    } else if n - i >= 4 && v[i] == '\\' && v[i + 1] == '0' && v[i + 2] == '3' && v[i + 3] == '3' {
        intro = 4;
    } else if v[i] == '\x00' {
        let z = run_scan(v, i, '\x00');
        let j = i + z;
        if n - j >= 2 && v[j] == '3' && v[j + 1] == '3' {
            intro = z + 2;
        } else {
            return None;
        }
    } else {
        return None;
    }
    let j = i + intro;
    if j < n && v[j] == '[' {
        let b = param_run_scan(v, j + 1);
        let k = j + 1 + b;
        if k < n && v[k] == 'm' {
            Some(intro + b + 2)
        } else {
            None
        }
    } else {
        None
    }
}

/// Removes literal colour codes from `v`.
fn strip_literals_chars(v: &Vec<char>) -> (r: Vec<char>)
    ensures
        r@ == strip_literal_escapes(v@),
{
    let n = v.len();
    let mut out: Vec<char> = Vec::new();
    let mut i: usize = 0;
    proof {
        assert(Seq::<char>::empty() + strip_literals_from(v@, 0) =~= strip_literals_from(v@, 0));
    }
    while i < n
        invariant
            n == v@.len(),
            i <= n,
            strip_literal_escapes(v@) == out@ + strip_literals_from(v@, i as int),
        decreases n - i,
    {
        match literal_token_at(v, i) {
            Some(l) => {
                i = i + l;
            },
            None => {
                let ghost old_out = out@;
                let c = v[i];
                out.push(c);
                i = i + 1;
                proof {
                    let tail = strip_literals_from(v@, i as int);
                    assert(out@ =~= old_out + seq![c]);
                    assert((old_out + seq![c]) + tail =~= old_out + (seq![c] + tail));
                }
            },
        }
    }
    proof {
        assert(out@ =~= strip_literal_escapes(v@));
    }
    out
}

/// Strips both real escape sequences and literal colour codes from a
/// captured output line.
pub fn strip_ansi(s: &str) -> (r: String)
    ensures
        r@ == strip_ansi_spec(s@),
{
    let chars = crate::text::str_to_chars(s);
    let pass1 = strip_esc_chars(&chars);
    let pass2 = strip_literals_chars(&pass1);
    crate::text::chars_to_string(&pass2)
}

} // verus!
