//! Monitor configuration: the timing and notification parameters shared by
//! every endpoint monitor, and the validation that rejects unusable values
//! at startup.

use vstd::prelude::*;
use vstd::string::StringExecFns;

verus! {

/// Why a configuration was rejected at startup.
#[derive(Clone, Copy, Debug, PartialEq, Eq, Structural)]
pub enum ConfigError {
    /// `check_interval_success` was zero; the poll cadence must be positive.
    SuccessIntervalZero,
    /// `check_interval_fail` was zero; the poll cadence must be positive.
    FailIntervalZero,
    /// `notify_failures` was zero; the first-alert threshold must be at least one.
    NotifyFailuresZero,
    /// `rereport` was zero; the re-alert interval must be at least one, or the
    /// modulo gate in the notification decision would divide by zero.
    RereportZero,
}

/// Validated monitor configuration, read-only after construction.
#[derive(Clone)]
pub struct Config {
    /// Notification channel credential.
    pub telegram_token: String,
    /// Notification destination.
    pub telegram_chat_id: i64,
    /// Milliseconds to sleep after an iteration that produced no message.
    pub check_interval_success: u64,
    /// Milliseconds to sleep after an iteration that produced a message.
    pub check_interval_fail: u64,
    /// Consecutive-failure count at which the first alert of an episode fires.
    pub notify_failures: u64,
    /// Past the threshold, re-alert on every multiple of this count.
    pub rereport: u64,
    /// Endpoint URLs to monitor, in startup order.
    pub addresses: Vec<String>,
}

impl Config {
    /// The parameter constraints that every constructed `Config` satisfies.
    pub open spec fn valid(self) -> bool {
        &&& self.check_interval_success > 0
        &&& self.check_interval_fail > 0
        &&& self.notify_failures >= 1
        &&& self.rereport >= 1
    }

    /// Builds a configuration, rejecting parameter values the monitor loop
    /// cannot run with. Checks are made in field order and the first failure
    /// is reported.
    pub fn new(
        telegram_token: String,
        telegram_chat_id: i64,
        check_interval_success: u64,
        check_interval_fail: u64,
        notify_failures: u64,
        rereport: u64,
        addresses: Vec<String>,
    ) -> (r: Result<Config, ConfigError>)
        ensures
            r is Ok <==> (check_interval_success > 0 && check_interval_fail > 0
                && notify_failures >= 1 && rereport >= 1),
            r matches Ok(c) ==> c == (Config {
                telegram_token,
                telegram_chat_id,
                check_interval_success,
                check_interval_fail,
                notify_failures,
                rereport,
                addresses,
            }),
            r matches Ok(c) ==> c.valid(),
            check_interval_success == 0 ==> r == Err::<Config, ConfigError>(
                ConfigError::SuccessIntervalZero,
            ),
            check_interval_success > 0 && check_interval_fail == 0 ==> r
                == Err::<Config, ConfigError>(ConfigError::FailIntervalZero),
            check_interval_success > 0 && check_interval_fail > 0 && notify_failures == 0 ==> r
                == Err::<Config, ConfigError>(ConfigError::NotifyFailuresZero),
            check_interval_success > 0 && check_interval_fail > 0 && notify_failures >= 1
                && rereport == 0 ==> r == Err::<Config, ConfigError>(ConfigError::RereportZero),
    {
        if check_interval_success == 0 {
            Err(ConfigError::SuccessIntervalZero)
        } else if check_interval_fail == 0 {
            Err(ConfigError::FailIntervalZero)
        } else if notify_failures == 0 {
            Err(ConfigError::NotifyFailuresZero)
        } else if rereport == 0 {
            Err(ConfigError::RereportZero)
        } else {
            Ok(Config {
                telegram_token,
                telegram_chat_id,
                check_interval_success,
                check_interval_fail,
                notify_failures,
                rereport,
                addresses,
            })
        }
    }
}

/// Resolves the configuration file path: an explicit override wins, otherwise
/// the conventional default file name is used. A pure function of its
/// argument, with no process-wide side effects.
pub fn resolve_config_path(override_path: Option<String>) -> (r: String)
    ensures
        override_path matches Some(p) ==> r@ == p@,
        override_path is None ==> r@ == "healthcheck.toml"@,
{
    match override_path {
        Some(p) => p,
        None => String::from_str("healthcheck.toml"),
    }
}

} // verus!
