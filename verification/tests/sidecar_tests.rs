use sidecar_supervisor::sidecar::{
    readiness_url, ProbeStep, ReadinessStep, RestartPlan, SidecarConfig, SidecarError,
    SidecarManager, SidecarProcess, SidecarStatus, READINESS_POLL_INTERVAL_MS,
    RESTART_COOLDOWN_MS,
};

fn config(low: u16, high: u16, timeout_ms: u64) -> SidecarConfig {
    SidecarConfig {
        executable_path: String::from("node"),
        working_dir: String::from("/srv/web"),
        port_range: (low, high),
        startup_timeout_ms: timeout_ms,
        health_check_interval_ms: 5_000,
        max_restart_attempts: 3,
    }
}

fn running_manager() -> SidecarManager {
    let mut m = SidecarManager::with_config(config(3000, 3002, 30_000));
    assert!(matches!(m.start(&|_p: u16| true), Ok(3000)));
    assert!(m.process_spawned(3000, 4242, 10_000));
    assert_eq!(m.readiness_poll(10_100), ReadinessStep::Probe { port: 3000 });
    assert_eq!(m.probe_finished(true), ProbeStep::Ready { port: 3000 });
    m
}

#[test]
fn new_manager_is_stopped_with_default_settings() {
    let m = SidecarManager::new();
    assert!(matches!(m.get_status(0), SidecarStatus::Stopped));
    assert_eq!(m.config().executable_path, "node");
    assert_eq!(m.config().working_dir, "../web");
    assert_eq!(m.config().port_range, (3000, 4000));
    assert_eq!(m.config().startup_timeout_ms, 30_000);
    assert_eq!(m.config().health_check_interval_ms, 5_000);
    assert_eq!(m.config().max_restart_attempts, 3);
    assert_eq!(m.get_port(), None);
    assert_eq!(m.health_check(), None);
}

#[test]
fn start_takes_the_lowest_free_port_and_becomes_running() {
    let mut m = SidecarManager::with_config(config(3000, 3002, 30_000));
    assert!(matches!(m.start(&|p: u16| p != 3000), Ok(3001)));
    assert!(matches!(m.get_status(0), SidecarStatus::Starting));
    assert_eq!(m.readiness_poll(0), ReadinessStep::NotStarting);
    assert_eq!(m.probe_finished(true), ProbeStep::NotStarting);
    assert!(m.process_spawned(3001, 77, 1_000));
    assert_eq!(m.health_check(), Some(3001));
    assert_eq!(m.get_port(), None);
    assert_eq!(m.readiness_poll(1_000), ReadinessStep::Probe { port: 3001 });
    assert_eq!(
        m.probe_finished(false),
        ProbeStep::Retry { delay_ms: READINESS_POLL_INTERVAL_MS }
    );
    assert_eq!(READINESS_POLL_INTERVAL_MS, 500);
    assert!(matches!(m.get_status(1_500), SidecarStatus::Starting));
    assert_eq!(m.readiness_poll(1_500), ReadinessStep::Probe { port: 3001 });
    assert_eq!(m.probe_finished(true), ProbeStep::Ready { port: 3001 });
    assert!(matches!(
        m.get_status(1_500),
        SidecarStatus::Running { port: 3001, pid: 77, uptime: 0 }
    ));
    assert_eq!(m.get_port(), Some(3001));
}

#[test]
fn start_while_running_is_refused_and_keeps_the_process() {
    let mut m = running_manager();
    let before = m.get_status(20_000);
    assert!(matches!(before, SidecarStatus::Running { port: 3000, pid: 4242, uptime: 10 }));
    let asked = std::cell::Cell::new(0u32);
    let probe = |_p: u16| {
        asked.set(asked.get() + 1);
        true
    };
    assert!(matches!(m.start(&probe), Err(SidecarError::AlreadyRunning)));
    assert_eq!(asked.get(), 0);
    assert!(matches!(
        m.get_status(20_000),
        SidecarStatus::Running { port: 3000, pid: 4242, uptime: 10 }
    ));
    assert_eq!(m.health_check(), Some(3000));
    assert_eq!(SidecarError::AlreadyRunning.message(), "Sidecar is already running");
}

#[test]
fn start_during_a_start_is_refused() {
    let mut m = SidecarManager::with_config(config(3000, 3002, 30_000));
    assert!(matches!(m.start(&|_p: u16| true), Ok(3000)));
    assert!(m.process_spawned(3000, 1, 0));
    assert!(matches!(m.start(&|_p: u16| true), Err(SidecarError::AlreadyRunning)));
    assert!(!m.process_spawned(3001, 2, 0));
    assert_eq!(m.health_check(), Some(3000));
    assert!(matches!(m.get_status(0), SidecarStatus::Starting));
}

#[test]
fn start_with_no_free_port_ends_in_error() {
    let mut m = SidecarManager::with_config(config(3000, 3002, 30_000));
    let result = m.start(&|_p: u16| false);
    match result {
        Err(SidecarError::PortExhausted { low, high }) => {
            assert_eq!((low, high), (3000, 3002));
        }
        _ => panic!("expected port exhaustion"),
    }
    assert_eq!(
        SidecarError::PortExhausted { low: 3000, high: 3002 }.message(),
        "No available port found in range (3000, 3002)"
    );
    match m.get_status(0) {
        SidecarStatus::Error { message } => {
            assert_eq!(message, "Failed to start: No available port found in range (3000, 3002)");
        }
        _ => panic!("expected the error status"),
    }
    assert_eq!(m.health_check(), None);
    assert!(matches!(m.start(&|_p: u16| true), Ok(3000)));
}

#[test]
fn failed_spawn_ends_in_error() {
    let mut m = SidecarManager::with_config(config(3000, 3002, 30_000));
    assert!(matches!(m.start(&|_p: u16| true), Ok(3000)));
    let error = m.spawn_failed(String::from("No such file or directory"));
    assert_eq!(error.message(), "Failed to spawn process: No such file or directory");
    assert!(matches!(error, SidecarError::SpawnFailed { .. }));
    match m.get_status(0) {
        SidecarStatus::Error { message } => {
            assert_eq!(
                message,
                "Failed to spawn: Failed to spawn process: No such file or directory"
            );
        }
        _ => panic!("expected the error status"),
    }
    assert_eq!(m.health_check(), None);
    assert_eq!(m.readiness_poll(0), ReadinessStep::NotStarting);
}

#[test]
fn spawn_failure_outside_a_start_changes_nothing() {
    let mut m = running_manager();
    let error = m.spawn_failed(String::from("late"));
    assert!(matches!(error, SidecarError::SpawnFailed { .. }));
    assert!(matches!(m.get_status(10_000), SidecarStatus::Running { .. }));
}

#[test]
fn readiness_times_out_after_the_startup_timeout() {
    let mut m = SidecarManager::with_config(config(3000, 3002, 2_000));
    assert!(matches!(m.start(&|_p: u16| true), Ok(3000)));
    assert!(m.process_spawned(3000, 99, 50_000));
    let mut now = 50_000u64;
    let mut probes = 0;
    let timed_out_at;
    loop {
        match m.readiness_poll(now) {
            ReadinessStep::Probe { port } => {
                assert_eq!(port, 3000);
                probes += 1;
                assert!(matches!(m.get_status(now), SidecarStatus::Starting));
                match m.probe_finished(false) {
                    ProbeStep::Retry { delay_ms } => now += delay_ms,
                    _ => panic!("expected a retry"),
                }
            }
            step @ ReadinessStep::TimedOut { .. } => {
                assert_eq!(
                    step,
                    ReadinessStep::TimedOut {
                        process: SidecarProcess { pid: 99, port: 3000, started_at_ms: 50_000 },
                    }
                );
                assert!(matches!(step.failure(), Some(SidecarError::ReadinessTimeout)));
                timed_out_at = now;
                break;
            }
            ReadinessStep::NotStarting => panic!("a start is under way"),
        }
        assert!(!matches!(m.get_status(now), SidecarStatus::Running { .. }));
    }
    assert_eq!(probes, 4);
    assert_eq!(timed_out_at, 52_000);
    match m.get_status(now) {
        SidecarStatus::Error { message } => {
            assert_eq!(message, "Failed to start: Timeout waiting for server to be ready");
        }
        _ => panic!("expected the error status"),
    }
    assert_eq!(
        SidecarError::ReadinessTimeout.message(),
        "Timeout waiting for server to be ready"
    );
    assert_eq!(m.health_check(), None);
    assert_eq!(m.get_port(), None);
    assert_eq!(m.probe_finished(true), ProbeStep::NotStarting);
    assert!(matches!(m.get_status(now), SidecarStatus::Error { .. }));
}

#[test]
fn readiness_poll_just_before_the_timeout_still_probes() {
    let mut m = SidecarManager::with_config(config(3000, 3002, 2_000));
    assert!(matches!(m.start(&|_p: u16| true), Ok(3000)));
    assert!(m.process_spawned(3000, 99, 1_000));
    assert_eq!(m.readiness_poll(500), ReadinessStep::Probe { port: 3000 });
    assert!(ReadinessStep::Probe { port: 3000 }.failure().is_none());
    assert!(ReadinessStep::NotStarting.failure().is_none());
    assert_eq!(m.readiness_poll(2_999), ReadinessStep::Probe { port: 3000 });
    assert!(matches!(m.readiness_poll(3_000), ReadinessStep::TimedOut { .. }));
    assert_eq!(m.readiness_poll(3_000), ReadinessStep::NotStarting);
}

#[test]
fn stop_hands_out_the_process_and_ends_stopped() {
    let mut m = running_manager();
    let stale = m.stop();
    assert_eq!(stale, Some(SidecarProcess { pid: 4242, port: 3000, started_at_ms: 10_000 }));
    assert!(matches!(m.get_status(0), SidecarStatus::Stopping));
    assert_eq!(m.health_check(), None);
    m.finish_stop();
    assert!(matches!(m.get_status(0), SidecarStatus::Stopped));
    assert_eq!(m.stop(), None);
    m.finish_stop();
    assert!(matches!(m.get_status(0), SidecarStatus::Stopped));
}

#[test]
fn finish_stop_outside_a_stop_changes_nothing() {
    let mut m = running_manager();
    m.finish_stop();
    assert!(matches!(m.get_status(10_000), SidecarStatus::Running { .. }));
    assert_eq!(m.health_check(), Some(3000));
}

#[test]
fn restart_stops_pauses_and_starts_again() {
    let mut m = running_manager();
    let plan = m.restart();
    assert_eq!(
        plan,
        RestartPlan {
            stale: Some(SidecarProcess { pid: 4242, port: 3000, started_at_ms: 10_000 }),
            cooldown_ms: RESTART_COOLDOWN_MS,
        }
    );
    assert_eq!(RESTART_COOLDOWN_MS, 1_000);
    assert!(matches!(m.get_status(0), SidecarStatus::Stopping));
    m.finish_stop();
    assert!(matches!(m.start(&|p: u16| p == 3002), Ok(3002)));
    assert!(m.process_spawned(3002, 4243, 20_000));
    assert_eq!(m.probe_finished(true), ProbeStep::Ready { port: 3002 });
    assert!(matches!(
        m.get_status(23_500),
        SidecarStatus::Running { port: 3002, pid: 4243, uptime: 3 }
    ));
}

#[test]
fn shutdown_hands_out_the_process() {
    let mut m = running_manager();
    assert_eq!(
        m.shutdown(),
        Some(SidecarProcess { pid: 4242, port: 3000, started_at_ms: 10_000 })
    );
    assert!(matches!(m.get_status(0), SidecarStatus::Stopped));
    assert_eq!(m.shutdown(), None);
}

#[test]
fn uptime_is_recomputed_at_every_query() {
    let m = running_manager();
    assert!(matches!(m.get_status(10_000), SidecarStatus::Running { uptime: 0, .. }));
    assert!(matches!(m.get_status(10_999), SidecarStatus::Running { uptime: 0, .. }));
    assert!(matches!(m.get_status(11_000), SidecarStatus::Running { uptime: 1, .. }));
    assert!(matches!(m.get_status(3_610_000), SidecarStatus::Running { uptime: 3600, .. }));
    assert!(matches!(m.get_status(9_000), SidecarStatus::Running { uptime: 0, .. }));
}

#[test]
fn spawn_plan_sets_directory_port_and_flags() {
    let m = SidecarManager::with_config(config(3000, 3002, 30_000));
    let dev = m.spawn_plan(3001, true);
    assert_eq!(dev.program, "npm");
    assert_eq!(dev.args, vec![String::from("run"), String::from("dev")]);
    assert_eq!(dev.working_dir, "/srv/web");
    assert_eq!(
        dev.env,
        vec![
            (String::from("PORT"), String::from("3001")),
            (String::from("NODE_ENV"), String::from("development")),
            (String::from("FORCE_COLOR"), String::from("0")),
            (String::from("CI"), String::from("true")),
        ]
    );
    let prod = m.spawn_plan(65535, false);
    assert_eq!(prod.program, "npm");
    assert_eq!(prod.args, vec![String::from("start")]);
    assert_eq!(prod.env[0], (String::from("PORT"), String::from("65535")));
    assert_eq!(prod.env[1], (String::from("NODE_ENV"), String::from("production")));
    assert_eq!(prod.env.len(), 4);
}

#[test]
fn readiness_url_is_the_health_path_on_the_port() {
    assert_eq!(readiness_url(3000), "http://localhost:3000/api/health");
}
