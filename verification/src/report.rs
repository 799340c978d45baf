//! Formatting a chain of error causes for display.
//!
//! The top-level handler prints every failure as its chain of causes,
//! innermost cause first, each later (outer) cause introduced by a
//! "Which caused the following issue" line, and each cause followed by the
//! place it happened at when one was captured.

use vstd::prelude::*;
use vstd::string::*;

verus! {

/// One cause of a failure: its display text, and the captured text of the
/// place it happened at — empty when none was captured.
#[derive(Clone, Debug)]
pub struct Cause {
    pub message: String,
    pub happened_at: String,
}

/// The line introducing each cause after the first displayed one.
pub open spec fn caused_by_line() -> Seq<char> {
    "   Which caused the following issue:\n"@
}

/// The text displayed for one cause: its message, then either the place it
/// happened at or a bare line end.
pub open spec fn cause_block(c: Cause) -> Seq<char> {
    if c.happened_at@.len() > 0 {
        c.message@ + " This happened at "@ + c.happened_at@ + "\n"@
    } else {
        c.message@ + "\n"@
    }
}

/// The report after the first `k` displayed causes. Causes are given
/// outermost first, as a cause chain is walked, and displayed in reverse:
/// the innermost cause comes first, and every later one is introduced by
/// the caused-by line.
pub open spec fn report_prefix(causes: Seq<Cause>, k: int) -> Seq<char>
    decreases k,
{
    if k <= 0 {
        Seq::empty()
    } else {
        report_prefix(causes, k - 1) + (if k > 1 {
            caused_by_line()
        } else {
            Seq::<char>::empty()
        }) + cause_block(causes[causes.len() - k])
    }
}

/// The full displayed report of a cause chain.
pub open spec fn report_text(causes: Seq<Cause>) -> Seq<char> {
    report_prefix(causes, causes.len() as int)
}

/// Formats a failure's cause chain for display. `causes` is the chain
/// outermost first, as the host walked it; the text displays it innermost
/// first, framing each subsequent (outer) cause with the caused-by line
/// and appending the place each cause happened at, when one was captured.
pub fn failure_to_string(causes: &Vec<Cause>) -> (r: String)
    ensures
        r@ == report_text(causes@),
{
    let mut result = String::new();
    let n = causes.len();
    let mut k: usize = 0;
    while k < n
        invariant
            n == causes@.len(),
            k <= n,
            result@ == report_prefix(causes@, k as int),
        decreases n - k,
    {
        if k > 0 {
            result.append("   Which caused the following issue:\n");
        }
        let c = &causes[n - 1 - k];
        result.append(c.message.as_str());
        if c.happened_at.as_str().unicode_len() > 0 {
            result.append(" This happened at ");
            result.append(c.happened_at.as_str());
            result.append("\n");
        } else {
            result.append("\n");
        }
        proof {
            assert(causes@[n - 1 - k] == causes@[causes@.len() - (k + 1)]);
            assert(result@ =~= report_prefix(causes@, k + 1));
        }
        k = k + 1;
    }
    result
}

} // verus!
