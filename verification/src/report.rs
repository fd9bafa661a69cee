//! The outcome reporter: renders each fetch outcome as exactly one line.
//!
//! Rendering is total — every outcome, including one with an empty detail
//! string, produces a line. The reporter aggregates and filters nothing.

use vstd::prelude::*;

use vstd::string::StringExecFns;

use crate::outcome::FetchOutcome;

verus! {

/// The decimal digit character for `d` (for `d` up to nine).
pub open spec fn spec_digit_char(d: nat) -> char {
    if d == 0 {
        '0'
    } else if d == 1 {
        '1'
    } else if d == 2 {
        '2'
    } else if d == 3 {
        '3'
    } else if d == 4 {
        '4'
    } else if d == 5 {
        '5'
    } else if d == 6 {
        '6'
    } else if d == 7 {
        '7'
    } else if d == 8 {
        '8'
    } else {
        '9'
    }
}

/// The usual decimal rendering of `n`: most significant digit first, no
/// leading zeros, a single `'0'` for zero.
pub open spec fn spec_decimal(n: nat) -> Seq<char>
    decreases n,
{
    if n < 10 {
        seq![spec_digit_char(n)]
    } else {
        spec_decimal(n / 10) + seq![spec_digit_char(n % 10)]
    }
}

/// One decimal digit as a string slice.
fn digit_str(d: u64) -> (s: &'static str)
    requires
        d < 10,
    ensures
        s@ == seq![spec_digit_char(d as nat)],
{
    let s: &'static str = if d == 0 {
        "0"
    } else if d == 1 {
        "1"
    } else if d == 2 {
        "2"
    } else if d == 3 {
        "3"
    } else if d == 4 {
        "4"
    } else if d == 5 {
        "5"
    } else if d == 6 {
        "6"
    } else if d == 7 {
        "7"
    } else if d == 8 {
        "8"
    } else {
        "9"
    };
    proof {
        reveal_strlit("0");
        reveal_strlit("1");
        reveal_strlit("2");
        reveal_strlit("3");
        reveal_strlit("4");
        reveal_strlit("5");
        reveal_strlit("6");
        reveal_strlit("7");
        reveal_strlit("8");
        reveal_strlit("9");
        assert(s@ =~= seq![spec_digit_char(d as nat)]);
    }
    s
}

/// Renders `n` in decimal.
pub fn u64_to_decimal(n: u64) -> (s: String)
    ensures
        s@ == spec_decimal(n as nat),
    decreases n,
{
    if n < 10 {
        digit_str(n).to_owned()
    } else {
        let mut s = u64_to_decimal(n / 10);
        s.append(digit_str(n % 10));
        s
    }
}

/// The one report line an outcome renders to: the work item's name, then
/// either the reference count on success or a short tag naming the failure
/// kind plus the retained detail.
pub open spec fn spec_render(o: FetchOutcome) -> Seq<char> {
    match o {
        FetchOutcome::Success { name, ref_count } => name@ + ": fetch completed, "@ + spec_decimal(
            ref_count as nat,
        ) + " remote refs"@,
        FetchOutcome::NotARepository { name, detail } => name@ + ": error: not a git repository: "@
            + detail@,
        FetchOutcome::NoRemoteConfigured { name } => name@ + ": error: no remote configured"@,
        FetchOutcome::RemoteResolutionFailed { name, detail } => name@
            + ": error: remote resolution failed: "@ + detail@,
        FetchOutcome::FetchFailed { name, detail } => name@ + ": fetch failed: "@ + detail@,
        FetchOutcome::Cancelled { name } => name@ + ": cancelled"@,
    }
}

/// Renders one outcome as its report line. Rendering never fails: an empty
/// detail still yields a line with an empty detail field.
pub fn render(o: &FetchOutcome) -> (line: String)
    ensures
        line@ == spec_render(*o),
{
    match o {
        FetchOutcome::Success { name, ref_count } => {
            let mut line = name.clone();
            line.append(": fetch completed, ");
            let count = u64_to_decimal(*ref_count);
            line.append(count.as_str());
            line.append(" remote refs");
            line
        },
        FetchOutcome::NotARepository { name, detail } => {
            let mut line = name.clone();
            line.append(": error: not a git repository: ");
            line.append(detail.as_str());
            line
        },
        FetchOutcome::NoRemoteConfigured { name } => {
            let mut line = name.clone();
            line.append(": error: no remote configured");
            line
        },
        FetchOutcome::RemoteResolutionFailed { name, detail } => {
            let mut line = name.clone();
            line.append(": error: remote resolution failed: ");
            line.append(detail.as_str());
            line
        },
        FetchOutcome::FetchFailed { name, detail } => {
            let mut line = name.clone();
            line.append(": fetch failed: ");
            line.append(detail.as_str());
            line
        },
        FetchOutcome::Cancelled { name } => {
            let mut line = name.clone();
            line.append(": cancelled");
            line
        },
    }
}

} // verus!
