use sidecar_supervisor::commands::{
    check_port_availability, get_app_config, get_available_port, restart_sidecar, service_url,
    start_sidecar, start_watchdog, tray_menu_action, AppConfig, CommandResult, TrayAction,
};
use sidecar_supervisor::sidecar::SidecarError;
use sidecar_supervisor::watchdog::WatchdogError;

#[test]
fn success_envelope_holds_the_data() {
    let r = CommandResult::success(7u32);
    assert!(r.success);
    assert_eq!(r.data, Some(7));
    assert_eq!(r.error, None);
}

#[test]
fn error_envelope_holds_the_message() {
    let r: CommandResult<u32> = CommandResult::error(String::from("boom"));
    assert!(!r.success);
    assert_eq!(r.data, None);
    assert_eq!(r.error, Some(String::from("boom")));
}

#[test]
fn default_app_config() {
    let c = AppConfig::default();
    assert!(c.auto_start);
    assert!(c.minimize_to_tray);
    assert!(!c.start_minimized);
    assert_eq!(c.server_port, None);
    assert_eq!(c.theme, "light");
    assert_eq!(c.language, "id");
    assert!(c.notifications_enabled);
    assert!(c.auto_update);
    let r = get_app_config();
    assert!(r.success);
    assert_eq!(r.data.unwrap().theme, "light");
}

#[test]
fn start_answers_with_the_service_address() {
    let r = start_sidecar(Ok(3000));
    assert!(r.success);
    assert_eq!(r.data, Some(String::from("http://localhost:3000")));
    assert_eq!(r.error, None);
    assert_eq!(service_url(65535), "http://localhost:65535");
    let again = restart_sidecar(Ok(3001));
    assert_eq!(again.data, Some(String::from("http://localhost:3001")));
}

#[test]
fn start_answers_with_the_error_text() {
    let r = start_sidecar(Err(SidecarError::AlreadyRunning));
    assert!(!r.success);
    assert_eq!(r.data, None);
    assert_eq!(r.error, Some(String::from("Sidecar is already running")));
    let r = restart_sidecar(Err(SidecarError::ReadinessTimeout));
    assert_eq!(r.error, Some(String::from("Timeout waiting for server to be ready")));
    let r = start_sidecar(Err(SidecarError::PortExhausted { low: 1, high: 2 }));
    assert_eq!(r.error, Some(String::from("No available port found in range (1, 2)")));
}

#[test]
fn watchdog_start_answers() {
    let ok = start_watchdog(Ok(()));
    assert!(ok.success);
    assert_eq!(ok.data, Some(()));
    let refused = start_watchdog(Err(WatchdogError::AlreadyRunning));
    assert!(!refused.success);
    assert_eq!(refused.error, Some(String::from("Watchdog is already running")));
}

#[test]
fn port_commands_answer_what_the_probe_says() {
    let probe = |port: u16| port >= 3500;
    let r = check_port_availability(3499, &probe);
    assert!(r.success);
    assert_eq!(r.data, Some(false));
    assert_eq!(check_port_availability(3500, &probe).data, Some(true));
    let found = get_available_port(&probe);
    assert!(found.success);
    assert_eq!(found.data, Some(3500));
    let none = get_available_port(&|_p: u16| false);
    assert!(!none.success);
    assert_eq!(none.data, None);
    assert_eq!(none.error, Some(String::from("No available port found")));
    assert_eq!(get_available_port(&|p: u16| p == 4000).data, Some(4000));
    assert_eq!(get_available_port(&|p: u16| p == 4001 || p == 2999).data, None);
}

#[test]
fn tray_menu_entries_map_to_their_actions() {
    assert_eq!(tray_menu_action("show"), TrayAction::ShowWindow);
    assert_eq!(tray_menu_action("hide"), TrayAction::HideWindow);
    assert_eq!(tray_menu_action("restart"), TrayAction::RestartServer);
    assert_eq!(tray_menu_action("quit"), TrayAction::Quit);
    assert_eq!(tray_menu_action(""), TrayAction::Nothing);
    assert_eq!(tray_menu_action("Show"), TrayAction::Nothing);
    assert_eq!(tray_menu_action("quit "), TrayAction::Nothing);
}
