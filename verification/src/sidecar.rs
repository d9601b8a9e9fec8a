//! The process supervisor: the lifecycle of the managed service as a state
//! machine, from `Stopped` through `Starting` to `Running`, and back through
//! `Stopping`, with `Error` for a start that failed.
//!
//! The supervisor decides; its owner holds the handle of the operating
//! system's process and does the work between the decisions: it spawns,
//! probes, sleeps, kills and reaps, and reports each outcome back.

use vstd::prelude::*;
use vstd::string::StringExecFns;
use crate::decimal::{decimal_digits, decimal_string, push_decimal};
use crate::health::{health_url, health_url_text};
use crate::ports::{find_available_port, probe_covers, reported_free, reported_taken};
use crate::text::{text_pairs, texts};
use crate::watchdog::{elapsed_secs, uptime_secs};

verus! {

/// The lifecycle signal that the supervisor shows to the outside.
#[derive(Debug, Clone)]
pub enum SidecarStatus {
    Stopped,
    Starting,
    Running { port: u16, pid: u32, uptime: u64 },
    Stopping,
    Error { message: String },
}

/// A status as plain values.
pub enum SidecarStatusView {
    Stopped,
    Starting,
    Running { port: u16, pid: u32, uptime: u64 },
    Stopping,
    Error { message: Seq<char> },
}

impl View for SidecarStatus {
    type V = SidecarStatusView;

    open spec fn view(&self) -> SidecarStatusView {
        match *self {
            SidecarStatus::Stopped => SidecarStatusView::Stopped,
            SidecarStatus::Starting => SidecarStatusView::Starting,
            SidecarStatus::Running { port, pid, uptime } => SidecarStatusView::Running {
                port,
                pid,
                uptime,
            },
            SidecarStatus::Stopping => SidecarStatusView::Stopping,
            SidecarStatus::Error { message } => SidecarStatusView::Error { message: message@ },
        }
    }
}

/// What the supervisor remembers of the process it tracks. The handle
/// itself stays with the owner.
#[derive(Debug, Clone, Copy, PartialEq, Eq, Structural)]
pub struct SidecarProcess {
    pub pid: u32,
    pub port: u16,
    pub started_at_ms: u64,
}

/// The settings of a supervisor. Times are in milliseconds.
#[derive(Debug)]
pub struct SidecarConfig {
    pub executable_path: String,
    pub working_dir: String,
    pub port_range: (u16, u16),
    pub startup_timeout_ms: u64,
    pub health_check_interval_ms: u64,
    pub max_restart_attempts: u32,
}

impl Default for SidecarConfig {
    fn default() -> (config: SidecarConfig)
        ensures
            config.executable_path@ == "node"@,
            config.working_dir@ == "../web"@,
            config.port_range == (3000u16, 4000u16),
            config.startup_timeout_ms == 30_000,
            config.health_check_interval_ms == 5_000,
            config.max_restart_attempts == 3,
    {
        SidecarConfig {
            executable_path: String::from_str("node"),
            working_dir: String::from_str("../web"),
            port_range: (3000, 4000),
            startup_timeout_ms: 30_000,
            health_check_interval_ms: 5_000,
            max_restart_attempts: 3,
        }
    }
}

/// Why a start failed.
#[derive(Debug, Clone)]
pub enum SidecarError {
    /// A service is running, or a start is under way.
    AlreadyRunning,
    /// The probe reported every port of the range taken.
    PortExhausted { low: u16, high: u16 },
    /// The operating system could not create the process.
    SpawnFailed { reason: String },
    /// The process was created but did not become healthy in time.
    ReadinessTimeout,
}

/// The text of an error.
pub open spec fn error_text(error: SidecarError) -> Seq<char> {
    match error {
        SidecarError::AlreadyRunning => "Sidecar is already running"@,
        SidecarError::PortExhausted { low, high } => "No available port found in range ("@
            + decimal_digits(low as nat) + ", "@ + decimal_digits(high as nat) + ")"@,
        SidecarError::SpawnFailed { reason } => "Failed to spawn process: "@ + reason@,
        SidecarError::ReadinessTimeout => "Timeout waiting for server to be ready"@,
    }
}

impl SidecarError {
    /// The text of this error.
    pub fn message(&self) -> (text: String)
        ensures
            text@ == error_text(*self),
    {
        match self {
            SidecarError::AlreadyRunning => String::from_str("Sidecar is already running"),
            SidecarError::PortExhausted { low, high } => {
                let mut text = String::from_str("No available port found in range (");
                push_decimal(&mut text, *low as u64);
                text.append(", ");
                push_decimal(&mut text, *high as u64);
                text.append(")");
                text
            },
            SidecarError::SpawnFailed { reason } => {
                let mut text = String::from_str("Failed to spawn process: ");
                text.append(reason.as_str());
                text
            },
            SidecarError::ReadinessTimeout => String::from_str(
                "Timeout waiting for server to be ready",
            ),
        }
    }
}

/// The supervisor as plain values: its status and the process it tracks.
pub struct SupervisorModel {
    pub status: SidecarStatusView,
    pub process: Option<SidecarProcess>,
}

/// The status never drifts from the process: `Running` names the tracked
/// process, and a process is tracked only while starting or running. So
/// when the status is `Stopped`, `Stopping` or `Error`, no process is left
/// without an owner.
pub open spec fn model_wf(m: SupervisorModel) -> bool {
    &&& m.status matches SidecarStatusView::Running { port, pid, .. } ==> (m.process matches Some(p)
        && p.port == port && p.pid == pid)
    &&& m.process is Some ==> (m.status is Starting || m.status is Running)
}

/// A start is refused while a service runs or another start is under way.
pub open spec fn start_refused(m: SupervisorModel) -> bool {
    m.status is Running || m.process is Some
}

/// The message of the `Error` status after a failed start.
pub open spec fn start_failure_text(error: SidecarError) -> Seq<char> {
    "Failed to start: "@ + error_text(error)
}

/// The message of the `Error` status after a failed spawn.
pub open spec fn spawn_failure_text(reason: Seq<char>) -> Seq<char> {
    "Failed to spawn: Failed to spawn process: "@ + reason
}

/// After a start was asked for and the range was scanned.
pub open spec fn after_start(
    m: SupervisorModel,
    low: u16,
    high: u16,
    found: Option<u16>,
) -> SupervisorModel {
    if start_refused(m) {
        m
    } else if found is Some {
        SupervisorModel { status: SidecarStatusView::Starting, process: None }
    } else {
        SupervisorModel {
            status: SidecarStatusView::Error {
                message: start_failure_text(SidecarError::PortExhausted { low, high }),
            },
            process: None,
        }
    }
}

/// Whether the supervisor waits for the outcome of a spawn.
pub open spec fn awaits_spawn(m: SupervisorModel) -> bool {
    m.status is Starting && m.process is None
}

/// After the owner reported the process it spawned.
pub open spec fn after_spawned(m: SupervisorModel, process: SidecarProcess) -> SupervisorModel {
    if awaits_spawn(m) {
        SupervisorModel { status: m.status, process: Some(process) }
    } else {
        m
    }
}

/// After the owner reported that the spawn failed.
pub open spec fn after_spawn_failed(m: SupervisorModel, reason: Seq<char>) -> SupervisorModel {
    if awaits_spawn(m) {
        SupervisorModel {
            status: SidecarStatusView::Error { message: spawn_failure_text(reason) },
            process: None,
        }
    } else {
        m
    }
}

/// Milliseconds from `started_at_ms` to `now_ms`; zero if the clock reads
/// earlier than the start.
pub open spec fn elapsed_since(started_at_ms: u64, now_ms: u64) -> u64 {
    if now_ms >= started_at_ms {
        (now_ms - started_at_ms) as u64
    } else {
        0
    }
}

/// The process whose readiness is being awaited, if any.
pub open spec fn awaited_process(m: SupervisorModel) -> Option<SidecarProcess> {
    if m.status is Starting {
        m.process
    } else {
        None
    }
}

/// Whether a readiness poll at `now_ms` finds the startup time used up.
pub open spec fn startup_expired(m: SupervisorModel, timeout_ms: u64, now_ms: u64) -> bool {
    awaited_process(m) matches Some(p) && elapsed_since(p.started_at_ms, now_ms) >= timeout_ms
}

/// After a readiness poll: once the startup time is used up the process is
/// given up, and the status is `Error`.
pub open spec fn after_readiness_poll(
    m: SupervisorModel,
    timeout_ms: u64,
    now_ms: u64,
) -> SupervisorModel {
    if startup_expired(m, timeout_ms, now_ms) {
        SupervisorModel {
            status: SidecarStatusView::Error {
                message: start_failure_text(SidecarError::ReadinessTimeout),
            },
            process: None,
        }
    } else {
        m
    }
}

/// After the outcome of a readiness probe: a healthy answer makes the
/// awaited process the running one.
pub open spec fn after_probe(m: SupervisorModel, healthy: bool) -> SupervisorModel {
    match awaited_process(m) {
        Some(p) => if healthy {
            SupervisorModel {
                status: SidecarStatusView::Running { port: p.port, pid: p.pid, uptime: 0 },
                process: m.process,
            }
        } else {
            m
        },
        None => m,
    }
}

/// After a stop was asked for: the process is handed to the owner.
pub open spec fn after_stop(m: SupervisorModel) -> SupervisorModel {
    SupervisorModel { status: SidecarStatusView::Stopping, process: None }
}

/// After the owner reported the end of the stop.
pub open spec fn after_stop_finished(m: SupervisorModel) -> SupervisorModel {
    if m.status is Stopping {
        SupervisorModel { status: SidecarStatusView::Stopped, process: m.process }
    } else {
        m
    }
}

/// What a status query reports at `now_ms`: the status, with the uptime of
/// a running service computed from its start.
pub open spec fn reported_status(m: SupervisorModel, now_ms: u64) -> SidecarStatusView {
    match m.status {
        SidecarStatusView::Running { port, pid, uptime } => match m.process {
            Some(p) => SidecarStatusView::Running {
                port,
                pid,
                uptime: uptime_secs(p.started_at_ms, now_ms),
            },
            None => m.status,
        },
        _ => m.status,
    }
}

/// What the owner does after a readiness poll.
#[derive(Debug, Clone, Copy, PartialEq, Eq, Structural)]
pub enum ReadinessStep {
    /// No start is under way with a spawned process.
    NotStarting,
    /// Send a health probe to this port and report its outcome.
    Probe { port: u16 },
    /// The startup time is used up: kill and reap this process.
    TimedOut { process: SidecarProcess },
}

impl ReadinessStep {
    /// The error with which the start ends at this step: a timeout where the
    /// startup time is used up, none where the start goes on or none is
    /// under way.
    pub fn failure(&self) -> (error: Option<SidecarError>)
        ensures
            match *self {
                ReadinessStep::TimedOut { .. } => error matches Some(
                    SidecarError::ReadinessTimeout,
                ),
                _ => error is None,
            },
    {
        match self {
            ReadinessStep::TimedOut { .. } => Some(SidecarError::ReadinessTimeout),
            _ => None,
        }
    }
}

/// What the owner does after a readiness probe.
#[derive(Debug, Clone, Copy, PartialEq, Eq, Structural)]
pub enum ProbeStep {
    /// No start is under way with a spawned process.
    NotStarting,
    /// The service is ready on this port.
    Ready { port: u16 },
    /// Wait this long, then poll again.
    Retry { delay_ms: u64 },
}

/// What the owner does for a restart: kill and reap the old process if
/// there is one, report the end of the stop, wait, then start again.
#[derive(Debug, Clone, Copy, PartialEq, Eq, Structural)]
pub struct RestartPlan {
    pub stale: Option<SidecarProcess>,
    pub cooldown_ms: u64,
}

/// The pause between two readiness probes.
pub const READINESS_POLL_INTERVAL_MS: u64 = 500;

/// The time allowed for one readiness probe.
pub const READINESS_PROBE_TIMEOUT_MS: u64 = 2_000;

/// The pause between the stop and the start of a restart.
pub const RESTART_COOLDOWN_MS: u64 = 1_000;

/// The supervisor of one managed service.
pub struct SidecarManager {
    process: Option<SidecarProcess>,
    status: SidecarStatus,
    config: SidecarConfig,
}

impl View for SidecarManager {
    type V = SupervisorModel;

    closed spec fn view(&self) -> SupervisorModel {
        SupervisorModel { status: self.status@, process: self.process }
    }
}

impl SidecarManager {
    /// The settings this supervisor was made with.
    pub closed spec fn settings(&self) -> SidecarConfig {
        self.config
    }

    /// A stopped supervisor with the default settings.
    pub fn new() -> (manager: SidecarManager)
        ensures
            manager@ == (SupervisorModel { status: SidecarStatusView::Stopped, process: None }),
            manager.settings().executable_path@ == "node"@,
            manager.settings().working_dir@ == "../web"@,
            manager.settings().port_range == (3000u16, 4000u16),
            manager.settings().startup_timeout_ms == 30_000,
            manager.settings().health_check_interval_ms == 5_000,
            manager.settings().max_restart_attempts == 3,
    {
        SidecarManager {
            process: None,
            status: SidecarStatus::Stopped,
            config: SidecarConfig::default(),
        }
    }

    /// A stopped supervisor with the given settings.
    pub fn with_config(config: SidecarConfig) -> (manager: SidecarManager)
        ensures
            manager@ == (SupervisorModel { status: SidecarStatusView::Stopped, process: None }),
            manager.settings() == config,
    {
        SidecarManager { process: None, status: SidecarStatus::Stopped, config }
    }

    /// The settings of this supervisor.
    pub fn config(&self) -> (config: &SidecarConfig)
        ensures
            *config == self.settings(),
    {
        &self.config
    }

    /// Begins a start: refuses it while a service runs or a start is under
    /// way, and otherwise scans the configured range for a free port. The
    /// owner spawns the process on the port returned.
    pub fn start<F: Fn(u16) -> bool>(&mut self, probe: &F) -> (result: Result<u16, SidecarError>)
        requires
            probe_covers(
                probe,
                old(self).settings().port_range.0,
                old(self).settings().port_range.1,
            ),
        ensures
            final(self).settings() == old(self).settings(),
            old(self)@.status is Running ==> (result matches Err(SidecarError::AlreadyRunning))
                && final(self)@ == old(self)@,
            final(self)@ == after_start(
                old(self)@,
                old(self).settings().port_range.0,
                old(self).settings().port_range.1,
                match result {
                    Ok(port) => Some(port),
                    Err(_) => None,
                },
            ),
            start_refused(old(self)@) <==> (result matches Err(SidecarError::AlreadyRunning)),
            match result {
                Ok(port) => {
                    &&& old(self).settings().port_range.0 <= port <= old(
                        self,
                    ).settings().port_range.1
                    &&& reported_free(probe, port)
                    &&& forall|q: u16|
                        old(self).settings().port_range.0 <= q < port ==> reported_taken(probe, q)
                },
                Err(SidecarError::PortExhausted { low, high }) => {
                    &&& low == old(self).settings().port_range.0
                    &&& high == old(self).settings().port_range.1
                    &&& forall|q: u16| low <= q <= high ==> reported_taken(probe, q)
                },
                Err(e) => e is AlreadyRunning,
            },
    {
        let running = match &self.status {
            SidecarStatus::Running { .. } => true,
            _ => false,
        };
        if running || self.process.is_some() {
            return Err(SidecarError::AlreadyRunning);
        }
        let low = self.config.port_range.0;
        let high = self.config.port_range.1;
        match find_available_port(low, high, probe) {
            Some(port) => {
                self.status = SidecarStatus::Starting;
                Ok(port)
            },
            None => {
                let error = SidecarError::PortExhausted { low, high };
                let mut message = String::from_str("Failed to start: ");
                let text = error.message();
                message.append(text.as_str());
                self.status = SidecarStatus::Error { message };
                Err(error)
            },
        }
    }

    /// Records the process that the owner spawned on `port`. Returns whether
    /// it was recorded, which is so exactly when a start awaited it; a
    /// process that was not recorded stays the owner's to end.
    pub fn process_spawned(&mut self, port: u16, pid: u32, now_ms: u64) -> (recorded: bool)
        ensures
            final(self).settings() == old(self).settings(),
            recorded == awaits_spawn(old(self)@),
            final(self)@ == after_spawned(
                old(self)@,
                SidecarProcess { pid, port, started_at_ms: now_ms },
            ),
    {
        let starting = match &self.status {
            SidecarStatus::Starting => true,
            _ => false,
        };
        if starting && self.process.is_none() {
            self.process = Some(SidecarProcess { pid, port, started_at_ms: now_ms });
            true
        } else {
            false
        }
    }

    /// Records that the spawn failed for `reason`, and returns the error of
    /// the start. The status becomes `Error` if a start awaited the spawn.
    pub fn spawn_failed(&mut self, reason: String) -> (error: SidecarError)
        ensures
            final(self).settings() == old(self).settings(),
            (error matches SidecarError::SpawnFailed { reason: r } && r@ == reason@),
            final(self)@ == after_spawn_failed(old(self)@, reason@),
    {
        let starting = match &self.status {
            SidecarStatus::Starting => true,
            _ => false,
        };
        if starting && self.process.is_none() {
            let mut message = String::from_str("Failed to spawn: Failed to spawn process: ");
            message.append(reason.as_str());
            self.status = SidecarStatus::Error { message };
        }
        SidecarError::SpawnFailed { reason }
    }

    /// Decides at `now_ms` whether the awaited process gets another probe.
    /// While the startup time lasts the answer is the port to probe. Once it
    /// is used up the process is given up and handed to the owner to be
    /// killed and reaped, and the status becomes `Error`.
    pub fn readiness_poll(&mut self, now_ms: u64) -> (step: ReadinessStep)
        ensures
            final(self).settings() == old(self).settings(),
            final(self)@ == after_readiness_poll(
                old(self)@,
                old(self).settings().startup_timeout_ms,
                now_ms,
            ),
            step == match awaited_process(old(self)@) {
                None => ReadinessStep::NotStarting,
                Some(p) => if elapsed_since(p.started_at_ms, now_ms) < old(
                    self,
                ).settings().startup_timeout_ms {
                    ReadinessStep::Probe { port: p.port }
                } else {
                    ReadinessStep::TimedOut { process: p }
                },
            },
    {
        let starting = match &self.status {
            SidecarStatus::Starting => true,
            _ => false,
        };
        if !starting {
            return ReadinessStep::NotStarting;
        }
        match self.process {
            None => ReadinessStep::NotStarting,
            Some(p) => {
                let elapsed = if now_ms >= p.started_at_ms {
                    now_ms - p.started_at_ms
                } else {
                    0
                };
                if elapsed < self.config.startup_timeout_ms {
                    ReadinessStep::Probe { port: p.port }
                } else {
                    self.process = None;
                    let mut message = String::from_str("Failed to start: ");
                    let text = SidecarError::ReadinessTimeout.message();
                    message.append(text.as_str());
                    self.status = SidecarStatus::Error { message };
                    ReadinessStep::TimedOut { process: p }
                }
            },
        }
    }

    /// Records the outcome of a readiness probe. A healthy answer makes the
    /// status `Running`; any other asks the owner to wait and poll again.
    pub fn probe_finished(&mut self, healthy: bool) -> (step: ProbeStep)
        ensures
            final(self).settings() == old(self).settings(),
            final(self)@ == after_probe(old(self)@, healthy),
            step == match awaited_process(old(self)@) {
                None => ProbeStep::NotStarting,
                Some(p) => if healthy {
                    ProbeStep::Ready { port: p.port }
                } else {
                    ProbeStep::Retry { delay_ms: READINESS_POLL_INTERVAL_MS }
                },
            },
    {
        let starting = match &self.status {
            SidecarStatus::Starting => true,
            _ => false,
        };
        if !starting {
            return ProbeStep::NotStarting;
        }
        match self.process {
            None => ProbeStep::NotStarting,
            Some(p) => {
                if healthy {
                    self.status = SidecarStatus::Running { port: p.port, pid: p.pid, uptime: 0 };
                    ProbeStep::Ready { port: p.port }
                } else {
                    ProbeStep::Retry { delay_ms: READINESS_POLL_INTERVAL_MS }
                }
            },
        }
    }

    /// Begins a stop: the status becomes `Stopping`, and the tracked process,
    /// if there is one, is handed to the owner to be killed and reaped.
    pub fn stop(&mut self) -> (stale: Option<SidecarProcess>)
        ensures
            final(self).settings() == old(self).settings(),
            final(self)@ == after_stop(old(self)@),
            stale == old(self)@.process,
    {
        let stale = self.process;
        self.process = None;
        self.status = SidecarStatus::Stopping;
        stale
    }

    /// Ends a stop: `Stopping` becomes `Stopped`.
    pub fn finish_stop(&mut self)
        ensures
            final(self).settings() == old(self).settings(),
            final(self)@ == after_stop_finished(old(self)@),
    {
        let stopping = match &self.status {
            SidecarStatus::Stopping => true,
            _ => false,
        };
        if stopping {
            self.status = SidecarStatus::Stopped;
        }
    }

    /// Begins a restart, which is a stop, a pause and a start: it begins the
    /// stop and tells the pause.
    pub fn restart(&mut self) -> (plan: RestartPlan)
        ensures
            final(self).settings() == old(self).settings(),
            final(self)@ == after_stop(old(self)@),
            plan == (RestartPlan { stale: old(self)@.process, cooldown_ms: RESTART_COOLDOWN_MS }),
    {
        let stale = self.stop();
        RestartPlan { stale, cooldown_ms: RESTART_COOLDOWN_MS }
    }

    /// Gives up whatever is tracked before the supervisor is discarded: the
    /// process, if there is one, is handed to the owner to be killed and
    /// reaped, and the status is `Stopped`.
    pub fn shutdown(&mut self) -> (stale: Option<SidecarProcess>)
        ensures
            final(self).settings() == old(self).settings(),
            final(self)@ == (SupervisorModel { status: SidecarStatusView::Stopped, process: None }),
            stale == old(self)@.process,
    {
        let stale = self.process;
        self.process = None;
        self.status = SidecarStatus::Stopped;
        stale
    }

    /// The status at `now_ms`. The uptime of a running service is computed
    /// from its start at every query.
    pub fn get_status(&self, now_ms: u64) -> (status: SidecarStatus)
        ensures
            status@ == reported_status(self@, now_ms),
    {
        match &self.status {
            SidecarStatus::Running { port, pid, uptime } => match self.process {
                Some(p) => SidecarStatus::Running {
                    port: *port,
                    pid: *pid,
                    uptime: elapsed_secs(p.started_at_ms, now_ms),
                },
                None => SidecarStatus::Running { port: *port, pid: *pid, uptime: *uptime },
            },
            SidecarStatus::Stopped => SidecarStatus::Stopped,
            SidecarStatus::Starting => SidecarStatus::Starting,
            SidecarStatus::Stopping => SidecarStatus::Stopping,
            SidecarStatus::Error { message } => SidecarStatus::Error { message: message.clone() },
        }
    }

    /// The port of the running service; none unless the status is
    /// `Running`.
    pub fn get_port(&self) -> (port: Option<u16>)
        ensures
            port == match self@.status {
                SidecarStatusView::Running { port, .. } => Some(port),
                _ => None,
            },
    {
        match &self.status {
            SidecarStatus::Running { port, .. } => Some(*port),
            _ => None,
        }
    }

    /// The port to send a health probe to: that of the tracked process.
    /// Without one there is nothing to probe, and the service counts as
    /// unhealthy.
    pub fn health_check(&self) -> (port: Option<u16>)
        ensures
            port == match self@.process {
                Some(p) => Some(p.port),
                None => None,
            },
    {
        match self.process {
            Some(p) => Some(p.port),
            None => None,
        }
    }
}

/// How the owner launches the service: the program with its arguments, the
/// directory it runs in, and the variables added to its environment.
#[derive(Debug)]
pub struct SpawnPlan {
    pub program: String,
    pub args: Vec<String>,
    pub working_dir: String,
    pub env: Vec<(String, String)>,
}

/// The arguments of the launch: the development server in development, the
/// built server otherwise.
pub open spec fn spawn_args(development: bool) -> Seq<Seq<char>> {
    if development {
        seq!["run"@, "dev"@]
    } else {
        seq!["start"@]
    }
}

/// The variables of the launch: the allocated port, the mode, and the two
/// flags that switch off colors and interactive prompts.
pub open spec fn spawn_env(port: u16, development: bool) -> Seq<(Seq<char>, Seq<char>)> {
    seq![
        ("PORT"@, decimal_digits(port as nat)),
        (
            "NODE_ENV"@,
            if development {
                "development"@
            } else {
                "production"@
            },
        ),
        ("FORCE_COLOR"@, "0"@),
        ("CI"@, "true"@),
    ]
}

impl SidecarManager {
    /// The launch of the service on `port`.
    pub fn spawn_plan(&self, port: u16, development: bool) -> (plan: SpawnPlan)
        ensures
            plan.program@ == "npm"@,
            texts(plan.args@) == spawn_args(development),
            plan.working_dir@ == self.settings().working_dir@,
            text_pairs(plan.env@) == spawn_env(port, development),
    {
        let mut args: Vec<String> = Vec::new();
        if development {
            args.push(String::from_str("run"));
            args.push(String::from_str("dev"));
        } else {
            args.push(String::from_str("start"));
        }
        let mode = if development {
            String::from_str("development")
        } else {
            String::from_str("production")
        };
        let mut env: Vec<(String, String)> = Vec::new();
        env.push((String::from_str("PORT"), decimal_string(port as u64)));
        env.push((String::from_str("NODE_ENV"), mode));
        env.push((String::from_str("FORCE_COLOR"), String::from_str("0")));
        env.push((String::from_str("CI"), String::from_str("true")));
        assert(texts(args@) =~= spawn_args(development));
        assert(text_pairs(env@) =~= spawn_env(port, development));
        SpawnPlan {
            program: String::from_str("npm"),
            args,
            working_dir: self.config.working_dir.clone(),
            env,
        }
    }
}

/// What can happen to a supervisor between two queries of its status.
pub enum SupervisorEvent {
    /// A start was asked for; the scan of the range found this port.
    StartRequested { found: Option<u16> },
    /// The owner spawned this process.
    ProcessSpawned { process: SidecarProcess },
    /// The owner could not spawn the process.
    SpawnFailed { reason: Seq<char> },
    /// Readiness was polled at this time.
    ReadinessPolled { now_ms: u64 },
    /// A readiness probe ended.
    ProbeFinished { healthy: bool },
    /// A stop, or the stop of a restart, was asked for.
    StopRequested,
    /// The owner reported the end of the stop.
    StopFinished,
    /// The supervisor was shut down.
    ShutDown,
}

/// The supervisor after one event.
pub open spec fn after_event(
    m: SupervisorModel,
    config: SidecarConfig,
    event: SupervisorEvent,
) -> SupervisorModel {
    match event {
        SupervisorEvent::StartRequested { found } => after_start(
            m,
            config.port_range.0,
            config.port_range.1,
            found,
        ),
        SupervisorEvent::ProcessSpawned { process } => after_spawned(m, process),
        SupervisorEvent::SpawnFailed { reason } => after_spawn_failed(m, reason),
        SupervisorEvent::ReadinessPolled { now_ms } => after_readiness_poll(
            m,
            config.startup_timeout_ms,
            now_ms,
        ),
        SupervisorEvent::ProbeFinished { healthy } => after_probe(m, healthy),
        SupervisorEvent::StopRequested => after_stop(m),
        SupervisorEvent::StopFinished => after_stop_finished(m),
        SupervisorEvent::ShutDown => SupervisorModel {
            status: SidecarStatusView::Stopped,
            process: None,
        },
    }
}

/// The supervisor after a sequence of events, taken in order.
pub open spec fn after_events(
    m: SupervisorModel,
    config: SidecarConfig,
    events: Seq<SupervisorEvent>,
) -> SupervisorModel
    decreases events.len(),
{
    if events.len() == 0 {
        m
    } else {
        after_event(after_events(m, config, events.drop_last()), config, events.last())
    }
}

/// Whether an event is a readiness probe that found the service healthy.
pub open spec fn is_healthy_probe(event: SupervisorEvent) -> bool {
    event matches SupervisorEvent::ProbeFinished { healthy } && healthy
}

/// No event lets the status drift from the process.
pub proof fn lemma_event_keeps_wf(m: SupervisorModel, config: SidecarConfig, event: SupervisorEvent)
    requires
        model_wf(m),
    ensures
        model_wf(after_event(m, config, event)),
{
}

/// Whatever happens to a supervisor whose status agrees with its process,
/// the two keep agreeing; so it is with one that starts out stopped.
pub proof fn lemma_events_keep_wf(
    m: SupervisorModel,
    config: SidecarConfig,
    events: Seq<SupervisorEvent>,
)
    requires
        model_wf(m),
    ensures
        model_wf(after_events(m, config, events)),
    decreases events.len(),
{
    if events.len() > 0 {
        lemma_events_keep_wf(m, config, events.drop_last());
        lemma_event_keeps_wf(
            after_events(m, config, events.drop_last()),
            config,
            events.last(),
        );
    }
}

/// Through events that hold no healthy readiness probe, a supervisor that
/// is not `Running` is not `Running` at the end.
pub proof fn lemma_not_running_at_end(
    m: SupervisorModel,
    config: SidecarConfig,
    events: Seq<SupervisorEvent>,
)
    requires
        !(m.status is Running),
        forall|i: int| 0 <= i < events.len() ==> !is_healthy_probe(#[trigger] events[i]),
    ensures
        !(after_events(m, config, events).status is Running),
    decreases events.len(),
{
    if events.len() > 0 {
        lemma_not_running_at_end(m, config, events.drop_last());
    }
}

/// Only a healthy readiness probe makes a service running: through events
/// that hold none, a supervisor that is not `Running` never becomes so,
/// at the end or at any point on the way.
pub proof fn lemma_running_needs_healthy_probe(
    m: SupervisorModel,
    config: SidecarConfig,
    events: Seq<SupervisorEvent>,
)
    requires
        !(m.status is Running),
        forall|i: int| 0 <= i < events.len() ==> !is_healthy_probe(#[trigger] events[i]),
    ensures
        forall|k: int|
            0 <= k <= events.len() ==> !(#[trigger] after_events(
                m,
                config,
                events.take(k),
            ).status is Running),
{
    assert forall|k: int| 0 <= k <= events.len() implies !(#[trigger] after_events(
        m,
        config,
        events.take(k),
    ).status is Running) by {
        lemma_not_running_at_end(m, config, events.take(k));
    }
}

/// A start whose process does not become healthy in time ends without a
/// process: the poll that finds the startup time used up leaves the status
/// `Error` and nothing tracked, so the process it hands out is the whole of
/// what there is to kill.
pub proof fn lemma_timeout_leaves_no_process(m: SupervisorModel, timeout_ms: u64, now_ms: u64)
    requires
        startup_expired(m, timeout_ms, now_ms),
    ensures
        after_readiness_poll(m, timeout_ms, now_ms).status is Error,
        after_readiness_poll(m, timeout_ms, now_ms).process is None,
{
}

/// A start asked for while a service runs changes nothing: the same process
/// stays tracked under the same status.
pub proof fn lemma_start_while_running_changes_nothing(
    m: SupervisorModel,
    low: u16,
    high: u16,
    found: Option<u16>,
)
    requires
        m.status is Running,
    ensures
        after_start(m, low, high, found) == m,
{
}

/// The address of the readiness probe for `port`.
pub fn readiness_url(port: u16) -> (url: String)
    ensures
        url@ == health_url_text(port, "/api/health"@),
{
    health_url(port, "/api/health")
}

} // verus!
