//! The health watchdog: it counts the probes of a running service, counts
//! the failures that follow one another, and asks for a restart when they
//! reach the configured threshold.
//!
//! The watchdog decides; it performs no probe and restarts nothing itself.
//! Its owner runs the loop: ask `next_probe`, send the probe, hand the
//! result to `record_check`, and sleep as the verdict says.

use vstd::prelude::*;
use vstd::string::StringExecFns;
use crate::health::{
    health_url, health_url_text, outcome_record, rfc3339_text, rfc3339_utc, HealthCheckResult,
    ProbeOutcome,
};

verus! {

/// The capability to ask for a restart of the watched service. The
/// watchdog only asks; whoever implements this decides how to restart.
pub trait RestartRequester {
    fn request_restart(&self);
}

/// The requester of a watchdog that was given none: asking does nothing.
#[derive(Debug, Clone, Copy)]
pub struct NoRestart;

impl RestartRequester for NoRestart {
    fn request_restart(&self) {
    }
}

/// What a status query reports.
#[derive(Debug, Clone)]
pub enum WatchdogStatus {
    Stopped,
    Running {
        target_port: u16,
        checks_performed: u64,
        last_check: Option<String>,
        consecutive_failures: u32,
        uptime: u64,
    },
    Error { message: String },
}

/// Why a watchdog operation was refused.
#[derive(Debug, Clone, Copy, PartialEq, Eq, Structural)]
pub enum WatchdogError {
    AlreadyRunning,
}

impl WatchdogError {
    /// The text of this error.
    pub fn message(&self) -> (text: String)
        ensures
            text@ == "Watchdog is already running"@,
    {
        String::from_str("Watchdog is already running")
    }
}

/// The settings of a watchdog. Times are in milliseconds.
#[derive(Debug, Clone)]
pub struct WatchdogConfig {
    pub check_interval_ms: u64,
    pub timeout_ms: u64,
    pub max_consecutive_failures: u32,
    pub restart_delay_ms: u64,
    pub health_endpoint: String,
}

impl Default for WatchdogConfig {
    fn default() -> (config: WatchdogConfig)
        ensures
            config.check_interval_ms == 10_000,
            config.timeout_ms == 5_000,
            config.max_consecutive_failures == 3,
            config.restart_delay_ms == 5_000,
            config.health_endpoint@ == "/api/health"@,
    {
        WatchdogConfig {
            check_interval_ms: 10_000,
            timeout_ms: 5_000,
            max_consecutive_failures: 3,
            restart_delay_ms: 5_000,
            health_endpoint: String::from_str("/api/health"),
        }
    }
}

/// One monitoring session. It exists from `start` to `stop`.
#[derive(Debug, Clone)]
pub struct WatchdogState {
    pub target_port: u16,
    pub checks_performed: u64,
    pub consecutive_failures: u32,
    pub last_check_result: Option<HealthCheckResult>,
    pub started_at_ms: u64,
    pub is_running: bool,
}

/// What the owner of the loop does after a check was recorded.
#[derive(Debug, Clone, Copy, PartialEq, Eq, Structural)]
pub enum CheckVerdict {
    /// No session exists; nothing was recorded.
    NotMonitoring,
    /// The probe succeeded and no failure preceded it.
    Healthy,
    /// The probe succeeded after this many failures in a row.
    Recovered { failures: u32 },
    /// The probe failed; this many failures now stand in a row.
    Failing { failures: u32 },
    /// The threshold was reached: a restart was asked for, and the loop
    /// waits this long before its next tick.
    RestartRequested { settle_delay_ms: u64 },
}

/// The count of consecutive failures after one more check.
pub open spec fn failures_after(failures: u32, threshold: u32, success: bool) -> u32 {
    if success || failures + 1 >= threshold {
        0
    } else {
        (failures + 1) as u32
    }
}

/// Whether one more check makes the watchdog ask for a restart.
pub open spec fn restart_due(failures: u32, threshold: u32, success: bool) -> bool {
    !success && failures + 1 >= threshold
}

/// The session as `start` creates it.
pub open spec fn fresh_session(target_port: u16, now_ms: u64) -> WatchdogState {
    WatchdogState {
        target_port,
        checks_performed: 0,
        consecutive_failures: 0,
        last_check_result: None,
        started_at_ms: now_ms,
        is_running: true,
    }
}

/// The session after `result` was recorded.
pub open spec fn session_after_check(
    session: WatchdogState,
    threshold: u32,
    result: HealthCheckResult,
) -> WatchdogState {
    WatchdogState {
        target_port: session.target_port,
        checks_performed: (session.checks_performed + 1) as u64,
        consecutive_failures: failures_after(
            session.consecutive_failures,
            threshold,
            result.success,
        ),
        last_check_result: Some(result),
        started_at_ms: session.started_at_ms,
        is_running: session.is_running,
    }
}

/// The verdict on a check.
pub open spec fn verdict_of(
    session: Option<WatchdogState>,
    config: WatchdogConfig,
    success: bool,
) -> CheckVerdict {
    match session {
        None => CheckVerdict::NotMonitoring,
        Some(s) => if success {
            if s.consecutive_failures > 0 {
                CheckVerdict::Recovered { failures: s.consecutive_failures }
            } else {
                CheckVerdict::Healthy
            }
        } else if restart_due(s.consecutive_failures, config.max_consecutive_failures, false) {
            CheckVerdict::RestartRequested { settle_delay_ms: config.restart_delay_ms }
        } else {
            CheckVerdict::Failing { failures: (s.consecutive_failures + 1) as u32 }
        },
    }
}

/// Whole seconds from `started_at_ms` to `now_ms`; zero if the clock reads
/// earlier than the start.
pub open spec fn uptime_secs(started_at_ms: u64, now_ms: u64) -> u64 {
    if now_ms >= started_at_ms {
        ((now_ms - started_at_ms) / 1000) as u64
    } else {
        0
    }
}

/// What a status query reports of a session at `now_ms`: the timestamp of
/// the last check as the only part of its record.
pub open spec fn status_matches(
    status: WatchdogStatus,
    session: Option<WatchdogState>,
    now_ms: u64,
) -> bool {
    match session {
        None => status is Stopped,
        Some(s) => {
            &&& status matches WatchdogStatus::Running {
                target_port,
                checks_performed,
                last_check,
                consecutive_failures,
                uptime,
            }
            &&& target_port == s.target_port
            &&& checks_performed == s.checks_performed
            &&& consecutive_failures == s.consecutive_failures
            &&& uptime == uptime_secs(s.started_at_ms, now_ms)
            &&& match s.last_check_result {
                None => last_check is None,
                Some(r) => last_check matches Some(t) && t@ == r.timestamp@,
            }
        },
    }
}

/// Whole seconds from `started_at_ms` to `now_ms`, zero if the clock reads
/// earlier than the start.
pub fn elapsed_secs(started_at_ms: u64, now_ms: u64) -> (secs: u64)
    ensures
        secs == uptime_secs(started_at_ms, now_ms),
{
    if now_ms >= started_at_ms {
        (now_ms - started_at_ms) / 1000
    } else {
        0
    }
}

/// The watchdog of one service, with the requester it asks for restarts.
pub struct Watchdog<R: RestartRequester> {
    state: Option<WatchdogState>,
    config: WatchdogConfig,
    restart_callback: R,
}

impl Watchdog<NoRestart> {
    /// A stopped watchdog with the default settings and no requester.
    pub fn new() -> (watchdog: Watchdog<NoRestart>)
        ensures
            watchdog.session() is None,
            watchdog.settings().check_interval_ms == 10_000,
            watchdog.settings().timeout_ms == 5_000,
            watchdog.settings().max_consecutive_failures == 3,
            watchdog.settings().restart_delay_ms == 5_000,
            watchdog.settings().health_endpoint@ == "/api/health"@,
    {
        Watchdog { state: None, config: WatchdogConfig::default(), restart_callback: NoRestart }
    }

    /// A stopped watchdog with the given settings and no requester.
    pub fn with_config(config: WatchdogConfig) -> (watchdog: Watchdog<NoRestart>)
        ensures
            watchdog.session() is None,
            watchdog.settings() == config,
    {
        Watchdog { state: None, config, restart_callback: NoRestart }
    }
}

impl<R: RestartRequester> Watchdog<R> {
    /// The current session, if monitoring is on.
    pub closed spec fn session(&self) -> Option<WatchdogState> {
        self.state
    }

    /// The settings this watchdog was made with.
    pub closed spec fn settings(&self) -> WatchdogConfig {
        self.config
    }

    /// The requester that is asked when the threshold is reached.
    pub closed spec fn requester(&self) -> R {
        self.restart_callback
    }

    /// The same watchdog with `callback` as its requester.
    pub fn with_restart_callback<Q: RestartRequester>(self, callback: Q) -> (watchdog: Watchdog<Q>)
        ensures
            watchdog.session() == self.session(),
            watchdog.settings() == self.settings(),
            watchdog.requester() == callback,
    {
        Watchdog { state: self.state, config: self.config, restart_callback: callback }
    }

    /// The settings of this watchdog.
    pub fn config(&self) -> (config: &WatchdogConfig)
        ensures
            *config == self.settings(),
    {
        &self.config
    }

    /// The requester of this watchdog.
    pub fn restart_callback(&self) -> (callback: &R)
        ensures
            *callback == self.requester(),
    {
        &self.restart_callback
    }

    /// The record of the most recent check of the current session.
    pub fn last_check_result(&self) -> (last: Option<&HealthCheckResult>)
        ensures
            match self.session() {
                Some(s) => match s.last_check_result {
                    Some(r) => last == Some(&r),
                    None => last is None,
                },
                None => last is None,
            },
    {
        match &self.state {
            Some(s) => match &s.last_check_result {
                Some(r) => Some(r),
                None => None,
            },
            None => None,
        }
    }

    /// Begins a monitoring session for `target_port`. Refused while a
    /// session exists, which is then left as it is.
    pub fn start(&mut self, target_port: u16, now_ms: u64) -> (result: Result<(), WatchdogError>)
        ensures
            final(self).settings() == old(self).settings(),
            final(self).requester() == old(self).requester(),
            old(self).session() is Some ==> result == Err::<(), WatchdogError>(
                WatchdogError::AlreadyRunning,
            ) && final(self).session() == old(self).session(),
            old(self).session() is None ==> result is Ok && final(self).session() == Some(
                fresh_session(target_port, now_ms),
            ),
    {
        if self.state.is_some() {
            return Err(WatchdogError::AlreadyRunning);
        }
        self.state = Some(
            WatchdogState {
                target_port,
                checks_performed: 0,
                consecutive_failures: 0,
                last_check_result: None,
                started_at_ms: now_ms,
                is_running: true,
            },
        );
        Ok(())
    }

    /// Marks the session inactive, so that the loop ends at its next tick.
    /// Without a session nothing changes.
    pub fn deactivate(&mut self)
        ensures
            final(self).settings() == old(self).settings(),
            final(self).requester() == old(self).requester(),
            match old(self).session() {
                Some(s) => final(self).session() == Some(WatchdogState { is_running: false, ..s }),
                None => final(self).session() is None,
            },
    {
        match self.state.take() {
            Some(s) => {
                self.state = Some(
                    WatchdogState {
                        target_port: s.target_port,
                        checks_performed: s.checks_performed,
                        consecutive_failures: s.consecutive_failures,
                        last_check_result: s.last_check_result,
                        started_at_ms: s.started_at_ms,
                        is_running: false,
                    },
                );
            },
            None => {},
        }
    }

    /// Ends the session and discards its state.
    pub fn stop(&mut self)
        ensures
            final(self).settings() == old(self).settings(),
            final(self).requester() == old(self).requester(),
            final(self).session() is None,
    {
        self.state = None;
    }

    /// The status at `now_ms`: `Stopped` without a session, and otherwise
    /// the session's counters with its uptime in whole seconds.
    pub fn get_status(&self, now_ms: u64) -> (status: WatchdogStatus)
        ensures
            status_matches(status, self.session(), now_ms),
    {
        match &self.state {
            Some(s) => {
                let last_check = match &s.last_check_result {
                    Some(r) => Some(r.timestamp.clone()),
                    None => None,
                };
                WatchdogStatus::Running {
                    target_port: s.target_port,
                    checks_performed: s.checks_performed,
                    last_check,
                    consecutive_failures: s.consecutive_failures,
                    uptime: elapsed_secs(s.started_at_ms, now_ms),
                }
            },
            None => WatchdogStatus::Stopped,
        }
    }

    /// What the loop does at a tick: probe the returned port, or end when
    /// there is none, which is so without a session or once it is marked
    /// inactive.
    pub fn next_probe(&self) -> (port: Option<u16>)
        ensures
            port == match self.session() {
                Some(s) => if s.is_running {
                    Some(s.target_port)
                } else {
                    None
                },
                None => None,
            },
    {
        match &self.state {
            Some(s) => if s.is_running {
                Some(s.target_port)
            } else {
                None
            },
            None => None,
        }
    }

    /// The address that a probe of `port` is sent to.
    pub fn health_url(&self, port: u16) -> (url: String)
        ensures
            url@ == health_url_text(port, self.settings().health_endpoint@),
    {
        health_url(port, self.config.health_endpoint.as_str())
    }

    /// Turns the outcome of one probe into its record, stamped with the
    /// instant at which it ended, given by its distance from the Unix epoch.
    /// There is no record for an instant that has no RFC 3339 text.
    pub fn perform_health_check(
        &self,
        outcome: ProbeOutcome,
        response_time_ms: u64,
        unix_secs: i64,
        subsec_nanos: u32,
    ) -> (result: Option<HealthCheckResult>)
        ensures
            match rfc3339_text(unix_secs, subsec_nanos) {
                Some(stamp) => result matches Some(r) && r@ == outcome_record(
                    outcome,
                    response_time_ms,
                    stamp,
                ),
                None => result is None,
            },
    {
        match rfc3339_utc(unix_secs, subsec_nanos) {
            Some(timestamp) => Some(
                HealthCheckResult::from_outcome(outcome, response_time_ms, timestamp),
            ),
            None => None,
        }
    }

    /// Records one check. Without a session nothing changes. Otherwise the
    /// check is counted and kept as the last one; a success clears the count
    /// of consecutive failures; a failure raises it, and when it reaches the
    /// threshold the requester is asked once and the count is cleared in the
    /// same step.
    pub fn record_check(&mut self, result: HealthCheckResult) -> (verdict: CheckVerdict)
        requires
            old(self).session() matches Some(s) ==> s.checks_performed < u64::MAX,
        ensures
            final(self).settings() == old(self).settings(),
            final(self).requester() == old(self).requester(),
            verdict == verdict_of(old(self).session(), old(self).settings(), result.success),
            final(self).session() == match old(self).session() {
                Some(s) => Some(
                    session_after_check(s, old(self).settings().max_consecutive_failures, result),
                ),
                None => None,
            },
            result.success ==> !(verdict is RestartRequested),
            result.success ==> (final(self).session() matches Some(s) ==> s.consecutive_failures
                == 0),
            verdict is RestartRequested ==> (final(self).session() matches Some(s)
                && s.consecutive_failures == 0),
            final(self).session() matches Some(s) ==> s.consecutive_failures == 0
                || s.consecutive_failures < old(self).settings().max_consecutive_failures,
    {
        let threshold = self.config.max_consecutive_failures;
        let (target_port, checks, failures, started_at_ms, is_running) = match &self.state {
            None => {
                return CheckVerdict::NotMonitoring;
            },
            Some(s) => (
                s.target_port,
                s.checks_performed,
                s.consecutive_failures,
                s.started_at_ms,
                s.is_running,
            ),
        };
        let success = result.success;
        let mut consecutive_failures: u32 = 0;
        let verdict = if success {
            if failures > 0 {
                CheckVerdict::Recovered { failures }
            } else {
                CheckVerdict::Healthy
            }
        } else if failures == u32::MAX || failures + 1 >= threshold {
            self.restart_callback.request_restart();
            CheckVerdict::RestartRequested { settle_delay_ms: self.config.restart_delay_ms }
        } else {
            consecutive_failures = failures + 1;
            CheckVerdict::Failing { failures: consecutive_failures }
        };
        self.state = Some(
            WatchdogState {
                target_port,
                checks_performed: checks + 1,
                consecutive_failures,
                last_check_result: Some(result),
                started_at_ms,
                is_running,
            },
        );
        verdict
    }
}


/// The count of consecutive failures after a run of checks, given by the
/// success of each in order.
pub open spec fn failures_after_run(failures: u32, threshold: u32, run: Seq<bool>) -> u32
    decreases run.len(),
{
    if run.len() == 0 {
        failures
    } else {
        failures_after(
            failures_after_run(failures, threshold, run.drop_last()),
            threshold,
            run.last(),
        )
    }
}

/// How many restarts a run of checks asks for.
pub open spec fn restarts_in_run(failures: u32, threshold: u32, run: Seq<bool>) -> nat
    decreases run.len(),
{
    if run.len() == 0 {
        0
    } else {
        let before = restarts_in_run(failures, threshold, run.drop_last());
        if restart_due(
            failures_after_run(failures, threshold, run.drop_last()),
            threshold,
            run.last(),
        ) {
            before + 1
        } else {
            before
        }
    }
}

/// A run of `n` checks that all fail.
pub open spec fn all_failing(n: nat) -> Seq<bool> {
    Seq::new(n, |i: int| false)
}

/// The length of a streak of `rounds` full thresholds and `extra` more.
pub open spec fn streak_len(threshold: u32, rounds: nat, extra: nat) -> nat {
    (rounds * threshold + extra) as nat
}

/// An unbroken streak of failures, counted from a clear counter, asks for
/// one restart each time the threshold is filled and for none in between:
/// after `rounds` full thresholds and `extra` further failures, `rounds`
/// restarts were asked for and the counter stands at `extra`.
pub proof fn lemma_unbroken_failures(threshold: u32, rounds: nat, extra: nat)
    requires
        threshold >= 1,
        extra < threshold,
    ensures
        failures_after_run(0, threshold, all_failing(streak_len(threshold, rounds, extra)))
            == extra,
        restarts_in_run(0, threshold, all_failing(streak_len(threshold, rounds, extra))) == rounds,
    decreases rounds, extra,
{
    let n = streak_len(threshold, rounds, extra);
    if extra > 0 {
        lemma_unbroken_failures(threshold, rounds, (extra - 1) as nat);
        assert(all_failing(n).drop_last() =~= all_failing((n - 1) as nat));
    } else if rounds > 0 {
        lemma_unbroken_failures(threshold, (rounds - 1) as nat, (threshold - 1) as nat);
        assert(rounds * threshold == (rounds - 1) * threshold + threshold) by (nonlinear_arith);
        assert(all_failing(n).drop_last() =~= all_failing((n - 1) as nat));
    } else {
        assert(rounds * threshold == 0) by (nonlinear_arith)
            requires
                rounds == 0,
        ;
    }
}

/// Within the first threshold window of an unbroken streak of failures the
/// restart fires exactly once: at the failure that fills the threshold, not
/// before it, and the counter is clear again right after.
pub proof fn lemma_first_restart(threshold: u32, n: nat)
    requires
        threshold >= 1,
        n <= threshold,
    ensures
        restarts_in_run(0, threshold, all_failing(n)) == if n == threshold {
            1nat
        } else {
            0nat
        },
        failures_after_run(0, threshold, all_failing(n)) == if n == threshold {
            0
        } else {
            n
        },
{
    if n == threshold {
        lemma_unbroken_failures(threshold, 1, 0);
        assert(1 * threshold + 0 == n) by (nonlinear_arith)
            requires
                n == threshold,
        ;
    } else {
        lemma_unbroken_failures(threshold, 0, n);
        assert(0 * threshold + n == n) by (nonlinear_arith);
    }
}

/// One success clears the counter whatever it was, and asks for no restart.
pub proof fn lemma_success_clears(failures: u32, threshold: u32)
    ensures
        failures_after(failures, threshold, true) == 0,
        !restart_due(failures, threshold, true),
{
}

/// After every check the counter is clear or below the threshold: it never
/// stands at the threshold once the step that reached it is over.
pub proof fn lemma_counter_stays_below_threshold(failures: u32, threshold: u32, success: bool)
    ensures
        failures_after(failures, threshold, success) == 0 || failures_after(
            failures,
            threshold,
            success,
        ) < threshold,
{
}

} // verus!
