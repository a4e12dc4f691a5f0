//! The monitor's guarantees, stated over the spec-level model of the check
//! loop and proved for every sequence of probe outcomes.

use vstd::prelude::*;

use crate::config::Config;
use crate::monitor::message_produced;
use crate::monitor::notifies;
use crate::monitor::step_state;
use crate::monitor::EndpointState;

verus! {

/// The state after running the counter transition over a whole sequence of
/// probe outcomes, oldest first (`true` is a success).
pub open spec fn run_state(init: EndpointState, outcomes: Seq<bool>) -> EndpointState
    decreases outcomes.len(),
{
    if outcomes.len() == 0 {
        init
    } else {
        step_state(run_state(init, outcomes.drop_last()), outcomes.last())
    }
}

/// Counter accounting: starting fresh, after any sequence of probe outcomes
/// the two lifetime counters sum to exactly the number of completed probes,
/// the consecutive-failure count never exceeds the failure total, and the URL
/// never changes.
pub proof fn lemma_counters_account_for_probes(init: EndpointState, outcomes: Seq<bool>)
    requires
        init.fresh(),
        outcomes.len() <= u64::MAX,
    ensures
        run_state(init, outcomes).total_failures + run_state(init, outcomes).total_successes
            == outcomes.len(),
        run_state(init, outcomes).consecutive_failures <= run_state(init, outcomes).total_failures,
        run_state(init, outcomes).url == init.url,
    decreases outcomes.len(),
{
    if outcomes.len() > 0 {
        lemma_counters_account_for_probes(init, outcomes.drop_last());
    }
}

/// After any non-empty sequence of probe outcomes, the consecutive-failure
/// count is zero exactly when the last outcome was a success, and strictly
/// positive when it was a failure.
pub proof fn lemma_consecutive_failures_track_last(init: EndpointState, outcomes: Seq<bool>)
    requires
        init.fresh(),
        0 < outcomes.len() <= u64::MAX,
    ensures
        outcomes.last() ==> run_state(init, outcomes).consecutive_failures == 0,
        !outcomes.last() ==> run_state(init, outcomes).consecutive_failures > 0,
{
    lemma_counters_account_for_probes(init, outcomes.drop_last());
}

/// Threshold law: on a failure outcome a notification is delivered exactly
/// when the updated consecutive-failure count equals the first-alert
/// threshold or is a multiple of the re-report interval; on any other failure
/// iteration it is suppressed.
pub proof fn lemma_failure_notification_threshold(s: EndpointState, cfg: Config)
    requires
        cfg.valid(),
        s.consecutive_failures < u64::MAX,
    ensures
        notifies(s, false, cfg) <==> (s.consecutive_failures + 1 == cfg.notify_failures || (
        s.consecutive_failures + 1) % (cfg.rereport as int) == 0),
{
}

/// Recovery law: a success that ends a failure episode always delivers its
/// notification — the throttle gate cannot suppress it — and resets the
/// consecutive-failure count to zero.
pub proof fn lemma_recovery_always_notifies(s: EndpointState, cfg: Config)
    requires
        cfg.valid(),
        s.consecutive_failures > 0,
    ensures
        notifies(s, true, cfg),
        step_state(s, true).consecutive_failures == 0,
{
}

/// A success that does not end a failure episode produces no message and
/// therefore delivers nothing.
pub proof fn lemma_plain_success_silent(s: EndpointState, cfg: Config)
    requires
        s.consecutive_failures == 0,
    ensures
        !message_produced(s, true),
        !notifies(s, true, cfg),
{
}

} // verus!
