//! Notices and warnings carried to a page in its query string.

use vstd::prelude::*;

use crate::models::workflow::WorkflowOutcome;
use crate::text::{join_seq, slice_chars};
use crate::utils::{pct_encode, pct_encoded};

verus! {

/// The longest encoded warning carried whole; a longer one is cut to this
/// length and marked with an encoded ellipsis.
pub const WARNING_LIMIT: usize = 400;

/// An encoded warning, cut to the limit with an encoded `…` when longer.
pub open spec fn limited(e: Seq<char>) -> Seq<char> {
    if e.len() > 400 {
        e.take(400) + "%E2%80%A6"@
    } else {
        e
    }
}

/// The query value of an outcome's warnings: their summary,
/// percent-encoded and limited.
pub open spec fn warning_value(o: WorkflowOutcome) -> Seq<char> {
    limited(pct_encoded(join_seq(o.warning_views(), "; "@)))
}

/// The query value of an outcome's warnings (see `warning_value`).
pub fn warning_param(outcome: &WorkflowOutcome) -> (res: String)
    ensures
        res@ == warning_value(*outcome),
{
    let summary = outcome.warning_summary();
    let encoded = pct_encode(summary.as_str());
    let n = encoded.as_str().unicode_len();
    if n > 400 {
        let cut = slice_chars(encoded.as_str(), 0, 400);
        assert(encoded@.subrange(0, 400) =~= encoded@.take(400));
        cut.concat("%E2%80%A6")
    } else {
        encoded
    }
}


/// A carried warning is never longer than the limit and its marker, and a
/// warning within the limit is carried whole.
pub proof fn law_warning_is_bounded(e: Seq<char>)
    ensures
        limited(e).len() <= 409,
        e.len() <= 400 ==> limited(e) == e,
        e.len() > 400 ==> limited(e).take(400) == e.take(400),
{
    reveal_strlit("%E2%80%A6");
    if e.len() > 400 {
        assert((e.take(400) + "%E2%80%A6"@).take(400) =~= e.take(400));
    }
}

} // verus!
