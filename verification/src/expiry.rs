//! The expiry gate: decides from an existing certificate's expiry instant
//! whether a renewal is due.

use vstd::prelude::*;

use crate::date::{
    add_months, months_addable, spec_ts_add_months, spec_ts_lt, timestamp_wf, ts_lt, Timestamp,
};

verus! {

/// Whether an existing certificate is still fresh enough to keep.
#[derive(Clone, Copy, Debug, PartialEq, Eq, Structural)]
pub enum RenewalDecision {
    RenewalRequired,
    RenewalNotNeeded,
}

/// Renewal is needed exactly when there is no prior certificate, or when its
/// expiry is not strictly later than now plus the threshold.
pub open spec fn spec_needs_renewal(
    existing: Option<Timestamp>,
    now: Timestamp,
    threshold_months: u32,
) -> bool {
    match existing {
        Option::None => true,
        Option::Some(e) => !spec_ts_lt(spec_ts_add_months(now, threshold_months as int), e),
    }
}

/// The decision itself.  `existing` is the parsed expiry of the certificate
/// chain on disk, or `None` when no chain file exists.  A chain that exists
/// but cannot be parsed never reaches this function: the workflow treats it
/// as a fatal error rather than a reason to renew.
pub fn renewal_decision(
    existing: Option<Timestamp>,
    now: &Timestamp,
    threshold_months: u32,
) -> (r: RenewalDecision)
    requires
        timestamp_wf(*now),
        months_addable(now.date, threshold_months as int),
    ensures
        (r is RenewalRequired) == spec_needs_renewal(existing, *now, threshold_months),
{
    match existing {
        None => RenewalDecision::RenewalRequired,
        Some(e) => {
            let horizon = Timestamp {
                date: add_months(&now.date, threshold_months),
                second_of_day: now.second_of_day,
            };
            if ts_lt(&horizon, &e) {
                RenewalDecision::RenewalNotNeeded
            } else {
                RenewalDecision::RenewalRequired
            }
        },
    }
}

} // verus!
