//! The reporter.
//!
//! Every job yields exactly one report line, emitted in spawn order. A
//! line holds the workspace identifier, the elapsed milliseconds for a
//! success or the sentinel `FAILED` for a failure — the sentinel is no
//! decimal numeral, so it is distinguishable from every real duration —
//! then the command label and the repository URL, separated by single
//! spaces.

use vstd::prelude::*;
use vstd::string::StringExecFns;

use crate::job::{JobResult, Outcome};

verus! {

/// The decimal digit character for `d`.
pub open spec fn dec_digit(d: int) -> char {
    if d == 0 {
        '0'
    } else if d == 1 {
        '1'
    } else if d == 2 {
        '2'
    } else if d == 3 {
        '3'
    } else if d == 4 {
        '4'
    } else if d == 5 {
        '5'
    } else if d == 6 {
        '6'
    } else if d == 7 {
        '7'
    } else if d == 8 {
        '8'
    } else {
        '9'
    }
}

/// The decimal numeral of `n`, without leading zeros (a single `0` for
/// zero).
pub open spec fn dec_seq(n: int) -> Seq<char>
    decreases n,
{
    if n < 10 {
        seq![dec_digit(n)]
    } else {
        dec_seq(n / 10) + seq![dec_digit(n % 10)]
    }
}

/// The one-character string of the decimal digit `d`.
fn digit_str(d: u64) -> (r: &'static str)
    requires
        d < 10,
    ensures
        r@ == seq![dec_digit(d as int)],
{
    let r: &'static str = if d == 0 {
        "0"
    } else if d == 1 {
        "1"
    } else if d == 2 {
        "2"
    } else if d == 3 {
        "3"
    } else if d == 4 {
        "4"
    } else if d == 5 {
        "5"
    } else if d == 6 {
        "6"
    } else if d == 7 {
        "7"
    } else if d == 8 {
        "8"
    } else {
        "9"
    };
    proof {
        reveal_strlit("0");
        reveal_strlit("1");
        reveal_strlit("2");
        reveal_strlit("3");
        reveal_strlit("4");
        reveal_strlit("5");
        reveal_strlit("6");
        reveal_strlit("7");
        reveal_strlit("8");
        reveal_strlit("9");
        assert(r@ =~= seq![dec_digit(d as int)]);
    }
    r
}

/// The decimal numeral of `n` as a string.
pub fn u64_to_string(n: u64) -> (r: String)
    ensures
        r@ == dec_seq(n as int),
    decreases n,
{
    if n < 10 {
        digit_str(n).to_owned()
    } else {
        let mut s = u64_to_string(n / 10);
        s.append(digit_str(n % 10));
        s
    }
}

/// The sentinel report field standing for a failed job's duration.
pub open spec fn failed_field() -> Seq<char> {
    seq!['F', 'A', 'I', 'L', 'E', 'D']
}

/// A decimal numeral never contains the letter `F`, and is never empty.
proof fn lemma_dec_seq_digits(n: int)
    requires
        0 <= n,
    ensures
        dec_seq(n).len() >= 1,
        forall|i: int| 0 <= i < dec_seq(n).len() ==> dec_seq(n)[i] != 'F',
    decreases n,
{
    if n >= 10 {
        lemma_dec_seq_digits(n / 10);
    }
}

/// The sentinel duration field is distinguishable from every real
/// duration: no elapsed time renders as `FAILED`.
pub proof fn lemma_sentinel_is_no_duration(n: int)
    requires
        0 <= n,
    ensures
        dec_seq(n) != failed_field(),
{
    lemma_dec_seq_digits(n);
    if dec_seq(n) == failed_field() {
        assert(dec_seq(n)[0] == 'F');
    }
}

/// The duration field of a report line: the elapsed milliseconds of a
/// success, the sentinel for a failure.
pub open spec fn spec_duration_field(outcome: Outcome) -> Seq<char> {
    match outcome {
        Outcome::Success { elapsed_ms } => dec_seq(elapsed_ms as int),
        Outcome::Failure { .. } => failed_field(),
    }
}

/// The whole report line of one job result: workspace identifier,
/// duration field, command label and repository URL, space-separated.
pub open spec fn spec_report_line(r: JobResult) -> Seq<char> {
    r.workspace_id@ + seq![' '] + spec_duration_field(r.outcome) + seq![' '] + r.label@
        + seq![' '] + r.repository@
}

/// The duration field of `r`'s report line.
pub fn duration_field(r: &JobResult) -> (s: String)
    ensures
        s@ == spec_duration_field(r.outcome),
{
    match &r.outcome {
        Outcome::Success { elapsed_ms } => u64_to_string(*elapsed_ms),
        Outcome::Failure { .. } => {
            let s = "FAILED".to_owned();
            proof {
                reveal_strlit("FAILED");
                assert(s@ =~= failed_field());
            }
            s
        },
    }
}

/// The report line of one job result.
pub fn report_line(r: &JobResult) -> (line: String)
    ensures
        line@ == spec_report_line(*r),
{
    let mut line = r.workspace_id.clone();
    line.append(" ");
    line.append(duration_field(r).as_str());
    line.append(" ");
    line.append(r.label.as_str());
    line.append(" ");
    line.append(r.repository.as_str());
    proof {
        reveal_strlit(" ");
        assert(line@ =~= spec_report_line(*r));
    }
    line
}

/// The report lines of a whole run, one line per result, in the order the
/// results are given (spawn order).
pub fn report_lines(results: &Vec<JobResult>) -> (lines: Vec<String>)
    ensures
        lines@.len() == results@.len(),
        forall|k: int| 0 <= k < results@.len() ==> (#[trigger] lines@[k])@ == spec_report_line(
            results@[k],
        ),
{
    let mut lines: Vec<String> = Vec::new();
    let mut k: usize = 0;
    while k < results.len()
        invariant
            k <= results@.len(),
            lines@.len() == k,
            forall|k0: int| 0 <= k0 < k ==> (#[trigger] lines@[k0])@ == spec_report_line(
                results@[k0],
            ),
        decreases results@.len() - k,
    {
        lines.push(report_line(&results[k]));
        k = k + 1;
    }
    lines
}

} // verus!
