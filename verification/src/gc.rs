//! Sweeping what has outlived its use.

use vstd::prelude::*;

use crate::report::Report;
use crate::text::{concat2, concat4, decimal_u64};

verus! {

/// What a sweep of overdue payloads did.
#[derive(Debug, Clone, Copy, PartialEq, Eq, Structural)]
pub struct PayloadSweep {
    pub payload_removed: u64,
    pub payload_retained: u64,
    pub total_envelopes: u64,
}

/// What is reported of a sweep: that it failed, and is tried again at the next tick, or what
/// it removed. A sweep that found nothing overdue is not reported.
pub open spec fn payload_sweep_line(sweep: Result<PayloadSweep, String>) -> Option<
    Report<Seq<char>>,
> {
    match sweep {
        Ok(done) => if done.payload_removed > 0 {
            Some(
                Report::Info(
                    "payload TTL sweep removed overdue rows payload_removed="@
                        + crate::text::decimal(done.payload_removed as int)
                        + " payload_retained="@ + crate::text::decimal(
                        done.payload_retained as int,
                    ) + " total_envelopes="@ + crate::text::decimal(done.total_envelopes as int),
                ),
            )
        } else {
            None
        },
        Err(e) => Some(
            Report::Warning("payload TTL sweep failed; will retry on next tick reason="@ + e@),
        ),
    }
}

/// What is reported of a sweep of overdue payloads.
pub fn payload_sweep_report(sweep: &Result<PayloadSweep, String>) -> (r: Option<Report>)
    ensures
        match r {
            Some(report) => payload_sweep_line(*sweep) == Some(report@),
            None => payload_sweep_line(*sweep) is None,
        },
{
    match sweep {
        Ok(done) => {
            if done.payload_removed == 0 {
                return None;
            }
            let head = concat4(
                "payload TTL sweep removed overdue rows payload_removed=",
                decimal_u64(done.payload_removed).as_str(),
                " payload_retained=",
                decimal_u64(done.payload_retained).as_str(),
            );
            let tail = concat2(" total_envelopes=", decimal_u64(done.total_envelopes).as_str());
            let line = concat2(head.as_str(), tail.as_str());
            proof {
                assert(line@ =~= payload_sweep_line(*sweep)->Some_0->Info_0);
            }
            Some(Report::Info(line))
        },
        Err(e) => Some(
            Report::Warning(
                concat2("payload TTL sweep failed; will retry on next tick reason=", e.as_str()),
            ),
        ),
    }
}

/// What is reported of a sweep of retired generations that failed. The daemon comes up all
/// the same, and the next start goes on where this sweep stopped.
pub open spec fn sweep_fault(message: Seq<char>) -> Report<Seq<char>> {
    Report::Warning("retention sweep failed; will retry on next start reason="@ + message)
}

/// What is reported of a sweep of retired generations that failed.
pub fn retention_sweep_failure(message: &str) -> (r: Report)
    ensures
        r@ == sweep_fault(message@),
{
    Report::Warning(concat2("retention sweep failed; will retry on next start reason=", message))
}

/// A sweep that removed something says so, one that removed nothing says nothing, and one that
/// failed is warned of, with its reason.
pub proof fn law_a_sweep_reports_what_it_removed(sweep: Result<PayloadSweep, String>)
    ensures
        ({
            let line = payload_sweep_line(sweep);
            &&& sweep matches Ok(done) ==> (done.payload_removed == 0 <==> line is None)
            &&& sweep is Ok && line is Some ==> line->Some_0 is Info
            &&& sweep matches Err(e) ==> line is Some && line->Some_0 is Warning && (
            line->Some_0->Warning_0).skip((line->Some_0->Warning_0).len() - e@.len()) == e@
        }),
{
    if let Err(e) = sweep {
        let text = payload_sweep_line(sweep)->Some_0->Warning_0;
        assert(text.skip(text.len() - e@.len()) =~= e@);
    }
}

/// A sweep that failed is a warning, not an error, and says why.
pub proof fn law_a_failed_sweep_is_a_warning(message: Seq<char>)
    ensures
        sweep_fault(message) matches Report::Warning(line) && line
            == "retention sweep failed; will retry on next start reason="@ + message,
{
}

} // verus!
