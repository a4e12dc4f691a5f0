//! The per-endpoint monitor core: the state carried between probes, the URL
//! validation gate that guards a monitor's startup, and the step that
//! classifies one probe outcome, updates the counters, and decides whether a
//! notification goes out and how long to sleep.

use vstd::prelude::*;

use crate::config::Config;
use crate::message::recovered_message;
use crate::message::recovered_text;
use crate::message::status_failure_message;
use crate::message::status_failure_text;
use crate::message::transport_failure_message;
use crate::message::transport_failure_text;
use crate::probe::probe_succeeded;
use crate::probe::ProbeResult;
use crate::probe::STATUS_OK;

verus! {

/// Whether a string parses as a URL, under the URI parser's grammar.
pub uninterp spec fn uri_well_formed(s: Seq<char>) -> bool;

/// Relies on hyper's URL parser (`str::parse::<hyper::Uri>`, hyper re-exports
/// `http::Uri`): whether a string parses is a function of the string alone,
/// and the empty string is always rejected.
#[verifier::external_body]
fn parse_uri_ok(url: &str) -> (r: bool)
    ensures
        r == uri_well_formed(url@),
        url@.len() == 0 ==> !r,
{
    match url.parse::<hyper::Uri>() {
        Ok(_) => true,
        Err(_) => false,
    }
}

/// The URL validation gate: a monitor loop may start for an address only when
/// this returns true.
pub fn url_is_valid(url: &str) -> (r: bool)
    ensures
        r == uri_well_formed(url@),
        url@.len() == 0 ==> !r,
{
    parse_uri_ok(url)
}

/// Health-tracking state of one endpoint, owned by its monitor task alone.
pub struct EndpointState {
    /// The monitored address; fixed for the life of the state.
    pub url: String,
    /// Failures since the last success; reset to zero exactly on a success.
    pub consecutive_failures: u64,
    /// Lifetime failure count, used in message text.
    pub total_failures: u64,
    /// Lifetime success count, used in message text.
    pub total_successes: u64,
}

/// What one monitor iteration decided: the message produced (if any), whether
/// it is to be delivered, and how long to sleep before the next probe.
pub struct Decision {
    /// `None` on a plain success; the notification text otherwise.
    pub message: Option<String>,
    /// True exactly when the message is to be handed to the notifier.
    pub notify: bool,
    /// Milliseconds to sleep before the next probe.
    pub sleep_ms: u64,
}

/// The counter transition for one probe outcome: a success resets the
/// consecutive-failure count and bumps the success total; a failure bumps
/// both failure counts. The URL never changes.
pub open spec fn step_state(s: EndpointState, success: bool) -> EndpointState {
    if success {
        EndpointState {
            consecutive_failures: 0,
            total_successes: (s.total_successes + 1) as u64,
            ..s
        }
    } else {
        EndpointState {
            consecutive_failures: (s.consecutive_failures + 1) as u64,
            total_failures: (s.total_failures + 1) as u64,
            ..s
        }
    }
}

/// An iteration produces a message unless it is a plain success: every
/// failure reports, and a success reports exactly when it ends a failure
/// episode.
pub open spec fn message_produced(s: EndpointState, success: bool) -> bool {
    !success || s.consecutive_failures > 0
}

/// The throttle gate on a produced message, judged on the updated
/// consecutive-failure count: deliver at the first-alert threshold and on
/// every multiple of the re-report interval. A recovery message passes
/// unconditionally, since its count is zero and zero is a multiple of
/// anything.
pub open spec fn notify_gate(consecutive_failures: int, cfg: Config) -> bool {
    consecutive_failures == cfg.notify_failures || consecutive_failures % (
    cfg.rereport as int) == 0
}

/// Whether one iteration delivers a notification: a message was produced and
/// it passes the throttle gate.
pub open spec fn notifies(s: EndpointState, success: bool, cfg: Config) -> bool {
    message_produced(s, success) && notify_gate(
        step_state(s, success).consecutive_failures as int,
        cfg,
    )
}

impl EndpointState {
    /// A state as a monitor task first creates it: no probe has happened yet.
    pub open spec fn fresh(self) -> bool {
        &&& self.consecutive_failures == 0
        &&& self.total_failures == 0
        &&& self.total_successes == 0
    }

    /// Creates the state for one endpoint's monitor. Succeeds exactly when
    /// the address passes the URL validation gate; on a malformed address no
    /// state is created and no loop can start.
    pub fn new(url: String) -> (r: Option<EndpointState>)
        ensures
            r is Some <==> uri_well_formed(url@),
            r matches Some(s) ==> s.url == url && s.fresh(),
    {
        if parse_uri_ok(url.as_str()) {
            Some(
                EndpointState {
                    url,
                    consecutive_failures: 0,
                    total_failures: 0,
                    total_successes: 0,
                },
            )
        } else {
            None
        }
    }

    /// One monitor iteration after a probe: classifies the outcome, updates
    /// the counters, produces the message, and decides delivery and cadence.
    pub fn step(&mut self, cfg: &Config, result: &ProbeResult) -> (d: Decision)
        requires
            cfg.valid(),
            probe_succeeded(*result) ==> old(self).total_successes < u64::MAX,
            !probe_succeeded(*result) ==> old(self).total_failures < u64::MAX
                && old(self).consecutive_failures < u64::MAX,
        ensures
            *final(self) == step_state(*old(self), probe_succeeded(*result)),
            d.message is Some <==> message_produced(*old(self), probe_succeeded(*result)),
            d.notify == notifies(*old(self), probe_succeeded(*result), *cfg),
            probe_succeeded(*result) && old(self).consecutive_failures > 0 ==> (d.message
                matches Some(m) && m@ == recovered_text(old(self).url@)),
            (result matches ProbeResult::Status { code, .. } && code != STATUS_OK) ==> (d.message
                matches Some(m) && m@ == status_failure_text(
                old(self).url@,
                result->Status_text@,
                (old(self).total_failures + 1) as nat,
                old(self).total_successes as nat,
            )),
            result matches ProbeResult::Transport { text } ==> (d.message matches Some(m) && m@
                == transport_failure_text(
                old(self).url@,
                text@,
                (old(self).total_failures + 1) as nat,
                old(self).total_successes as nat,
            )),
            d.message is None ==> d.sleep_ms == cfg.check_interval_success,
            d.message is Some ==> d.sleep_ms == cfg.check_interval_fail,
    {
        let mut message: Option<String> = None;

        match result {
            ProbeResult::Status { code, text } => {
                if *code == STATUS_OK {
                    self.total_successes = self.total_successes + 1;
                    if self.consecutive_failures > 0 {
                        self.consecutive_failures = 0;
                        message = Some(recovered_message(self.url.as_str()));
                    }
                } else {
                    self.total_failures = self.total_failures + 1;
                    self.consecutive_failures = self.consecutive_failures + 1;
                    message = Some(
                        status_failure_message(
                            self.url.as_str(),
                            text.as_str(),
                            self.total_failures,
                            self.total_successes,
                        ),
                    );
                }
            },
            ProbeResult::Transport { text } => {
                self.total_failures = self.total_failures + 1;
                self.consecutive_failures = self.consecutive_failures + 1;
                message = Some(
                    transport_failure_message(
                        self.url.as_str(),
                        text.as_str(),
                        self.total_failures,
                        self.total_successes,
                    ),
                );
            },
        }

        let notify = if message.is_some() {
            self.consecutive_failures == cfg.notify_failures || self.consecutive_failures
                % cfg.rereport == 0
        } else {
            false
        };
        let sleep_ms = if message.is_none() {
            cfg.check_interval_success
        } else {
            cfg.check_interval_fail
        };
        Decision { message, notify, sleep_ms }
    }
}

} // verus!
