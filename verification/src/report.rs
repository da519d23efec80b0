//! The messages assembled for the operator when a run ends: the failure
//! summary built from the captured output, and the exit-code notice.

use vstd::prelude::*;

use crate::numfmt::dec_int;
use crate::numfmt::i32_to_string;
use crate::text::contains_seq;
use crate::text::contains_sub;
use crate::text::str_to_chars;

verus! {

/// How many trailing output lines are quoted when no line looks like an
/// error.
pub const TAIL_LINES: usize = 5;

/// The line looks like an error report from the provisioning tool.
pub open spec fn is_error_line(l: Seq<char>) -> bool {
    contains_seq(l, "ERROR"@) || contains_seq(l, "fatal:"@) || contains_seq(l, "FAILED!"@)
        || contains_seq(l, "UNREACHABLE!"@)
}

/// The subsequence of `lines` that look like error reports, in order.
pub open spec fn error_lines_of(lines: Seq<Seq<char>>) -> Seq<Seq<char>>
    decreases lines.len(),
{
    if lines.len() == 0 {
        Seq::<Seq<char>>::empty()
    } else {
        let rest = error_lines_of(lines.drop_last());
        if is_error_line(lines.last()) {
            rest.push(lines.last())
        } else {
            rest
        }
    }
}

/// The given lines joined with newlines.
pub open spec fn join_newline(xs: Seq<Seq<char>>) -> Seq<char>
    decreases xs.len(),
{
    if xs.len() == 0 {
        Seq::<char>::empty()
    } else if xs.len() == 1 {
        xs[0]
    } else {
        join_newline(xs.drop_last()) + "\n"@ + xs.last()
    }
}

/// The last `n` lines, or all of them when fewer.
pub open spec fn last_n(xs: Seq<Seq<char>>, n: int) -> Seq<Seq<char>> {
    if xs.len() <= n {
        xs
    } else {
        xs.skip(xs.len() - n)
    }
}

/// The failure summary: the error-looking lines when there are any,
/// otherwise the last few lines of output as context.
pub open spec fn failure_detail_spec(lines: Seq<Seq<char>>) -> Seq<char> {
    if error_lines_of(lines).len() == 0 {
        "Provisioning failed.\n\nLast output:\n"@ + join_newline(last_n(lines, TAIL_LINES as int))
    } else {
        "Provisioning failed.\n\nErrors:\n"@ + join_newline(error_lines_of(lines))
    }
}

/// Decides [`is_error_line`] for one line.
fn is_error_line_exec(line: &String) -> (b: bool)
    ensures
        b == is_error_line(line@),
{
    let v = str_to_chars(line.as_str());
    contains_sub(&v, &str_to_chars("ERROR")) || contains_sub(&v, &str_to_chars("fatal:"))
        || contains_sub(&v, &str_to_chars("FAILED!")) || contains_sub(
        &v,
        &str_to_chars("UNREACHABLE!"),
    )
}

/// Joins `v[start..]` with newlines.
fn join_from(v: &Vec<String>, start: usize) -> (r: String)
    requires
        start <= v@.len(),
    ensures
        r@ == join_newline(v.deep_view().skip(start as int)),
{
    let ghost dv = v.deep_view();
    let n = v.len();
    proof {
        assert(dv.len() == n);
    }
    let mut out = String::new();
    let mut i: usize = start;
    proof {
        assert(dv.subrange(start as int, start as int) =~= Seq::<Seq<char>>::empty());
    }
    while i < n
        invariant
            n == v@.len(),
            dv == v.deep_view(),
            dv.len() == n,
            start <= i <= n,
            out@ == join_newline(dv.subrange(start as int, i as int)),
        decreases n - i,
    {
        proof {
            let cur = dv.subrange(start as int, i as int + 1);
            assert(cur.drop_last() =~= dv.subrange(start as int, i as int));
            assert(cur.last() == dv[i as int]);
            assert(dv[i as int] == v@[i as int]@);
        }
        if i > start {
            out.append("\n");
        }
        out.append(v[i].as_str());
        i = i + 1;
    }
    proof {
        assert(dv.subrange(start as int, n as int) =~= dv.skip(start as int));
    }
    out
}

/// Builds the summary shown when a run fails: the lines that look like
/// errors, or, when there are none, the last few lines of output.
pub fn failure_detail(output_lines: &Vec<String>) -> (r: String)
    ensures
        r@ == failure_detail_spec(output_lines.deep_view()),
{
    let ghost dv = output_lines.deep_view();
    let n = output_lines.len();
    proof {
        assert(dv.len() == n);
    }
    let mut err: Vec<String> = Vec::new();
    let mut i: usize = 0;
    proof {
        assert(err.deep_view() =~= error_lines_of(dv.take(0)));
    }
    while i < n
        invariant
            n == output_lines@.len(),
            dv == output_lines.deep_view(),
            dv.len() == n,
            i <= n,
            err.deep_view() == error_lines_of(dv.take(i as int)),
        decreases n - i,
    {
        proof {
            let cur = dv.take(i as int + 1);
            assert(cur.drop_last() =~= dv.take(i as int));
            assert(cur.last() == dv[i as int]);
            assert(dv[i as int] == output_lines@[i as int]@);
        }
        let line = &output_lines[i];
        if is_error_line_exec(line) {
            let ghost before = err.deep_view();
            err.push(line.clone());
            proof {
                assert(err.deep_view() =~= before.push(output_lines@[i as int]@));
            }
        }
        i = i + 1;
    }
    proof {
        assert(dv.take(n as int) =~= dv);
    }
    if err.len() == 0 {
        let start = if n > TAIL_LINES {
            n - TAIL_LINES
        } else {
            0
        };
        let joined = join_from(output_lines, start);
        proof {
            assert(dv.skip(start as int) =~= last_n(dv, TAIL_LINES as int));
        }
        String::from_str("Provisioning failed.\n\nLast output:\n").concat(joined.as_str())
    } else {
        let joined = join_from(&err, 0);
        proof {
            assert(err.deep_view().skip(0) =~= error_lines_of(dv));
        }
        String::from_str("Provisioning failed.\n\nErrors:\n").concat(joined.as_str())
    }
}

/// The notice pushed into the output when the tool exits non-zero.
pub fn exit_failure_message(code: i32) -> (r: String)
    ensures
        r@ == "Provisioning failed with exit code: "@ + dec_int(code as int),
{
    let num = i32_to_string(code);
    String::from_str("Provisioning failed with exit code: ").concat(num.as_str())
}

} // verus!
