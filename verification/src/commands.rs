//! The command surface shown to the shell: every operation answers with an
//! envelope that holds either a result or the text of an error.

use vstd::prelude::*;
use vstd::string::StringExecFns;
use crate::decimal::{decimal_digits, push_decimal};
use crate::ports::{find_available_port, probe_covers, reported_free, reported_taken};
use crate::sidecar::{error_text, SidecarError};
use crate::text::text_equals;
use crate::watchdog::WatchdogError;

verus! {

/// The settings of the application.
#[derive(Debug)]
pub struct AppConfig {
    pub auto_start: bool,
    pub minimize_to_tray: bool,
    pub start_minimized: bool,
    pub server_port: Option<u16>,
    pub theme: String,
    pub language: String,
    pub notifications_enabled: bool,
    pub auto_update: bool,
}

impl Default for AppConfig {
    fn default() -> (config: AppConfig)
        ensures
            config.auto_start,
            config.minimize_to_tray,
            !config.start_minimized,
            config.server_port is None,
            config.theme@ == "light"@,
            config.language@ == "id"@,
            config.notifications_enabled,
            config.auto_update,
    {
        AppConfig {
            auto_start: true,
            minimize_to_tray: true,
            start_minimized: false,
            server_port: None,
            theme: String::from_str("light"),
            language: String::from_str("id"),
            notifications_enabled: true,
            auto_update: true,
        }
    }
}

/// The answer to a command: a result on success, the text of an error
/// otherwise, never both.
#[derive(Debug)]
pub struct CommandResult<T> {
    pub success: bool,
    pub data: Option<T>,
    pub error: Option<String>,
}

impl<T> CommandResult<T> {
    /// The answer to a command that gave `data`.
    pub fn success(data: T) -> (result: CommandResult<T>)
        ensures
            result.success,
            result.data == Some(data),
            result.error is None,
    {
        CommandResult { success: true, data: Some(data), error: None }
    }

    /// The answer to a command that failed with `message`.
    pub fn error(message: String) -> (result: CommandResult<T>)
        ensures
            !result.success,
            result.data is None,
            result.error == Some(message),
    {
        CommandResult { success: false, data: None, error: Some(message) }
    }
}

/// The address under which the shell reaches the service on `port`.
pub open spec fn service_url_text(port: u16) -> Seq<char> {
    "http://localhost:"@ + decimal_digits(port as nat)
}

/// Writes the address under which the shell reaches the service on `port`.
pub fn service_url(port: u16) -> (url: String)
    ensures
        url@ == service_url_text(port),
{
    let mut url = String::from_str("http://localhost:");
    push_decimal(&mut url, port as u64);
    url
}

/// The answer to a start: the address of the service, or the text of the
/// error.
pub fn start_sidecar(outcome: Result<u16, SidecarError>) -> (result: CommandResult<String>)
    ensures
        match outcome {
            Ok(port) => {
                &&& result.success
                &&& result.data matches Some(url) && url@ == service_url_text(port)
                &&& result.error is None
            },
            Err(e) => {
                &&& !result.success
                &&& result.data is None
                &&& result.error matches Some(text) && text@ == error_text(e)
            },
        },
{
    match outcome {
        Ok(port) => CommandResult::success(service_url(port)),
        Err(e) => CommandResult::error(e.message()),
    }
}

/// The answer to a restart, which is that of the start it ends with.
pub fn restart_sidecar(outcome: Result<u16, SidecarError>) -> (result: CommandResult<String>)
    ensures
        match outcome {
            Ok(port) => {
                &&& result.success
                &&& result.data matches Some(url) && url@ == service_url_text(port)
                &&& result.error is None
            },
            Err(e) => {
                &&& !result.success
                &&& result.data is None
                &&& result.error matches Some(text) && text@ == error_text(e)
            },
        },
{
    start_sidecar(outcome)
}

/// The answer to a start of the watchdog.
pub fn start_watchdog(outcome: Result<(), WatchdogError>) -> (result: CommandResult<()>)
    ensures
        match outcome {
            Ok(_) => result.success && result.data is Some && result.error is None,
            Err(_) => {
                &&& !result.success
                &&& result.data is None
                &&& result.error matches Some(text) && text@ == "Watchdog is already running"@
            },
        },
{
    match outcome {
        Ok(_) => CommandResult::success(()),
        Err(e) => CommandResult::error(e.message()),
    }
}

/// Asks the probe whether `port` is free, and answers with what it said.
pub fn check_port_availability<F: Fn(u16) -> bool>(port: u16, probe: &F) -> (result: CommandResult<
    bool,
>)
    requires
        call_requires(*probe, (port,)),
    ensures
        result.success,
        result.error is None,
        result.data matches Some(free) && call_ensures(*probe, (port,), free),
{
    CommandResult::success(probe(port))
}

/// The first port of the shell's range.
pub const SHELL_PORT_LOW: u16 = 3000;

/// The last port of the shell's range.
pub const SHELL_PORT_HIGH: u16 = 4000;

/// Scans the shell's range for a free port and answers with the first one,
/// or with an error when the probe reported them all taken.
pub fn get_available_port<F: Fn(u16) -> bool>(probe: &F) -> (result: CommandResult<u16>)
    requires
        probe_covers(probe, SHELL_PORT_LOW, SHELL_PORT_HIGH),
    ensures
        match result.data {
            Some(port) => {
                &&& result.success
                &&& result.error is None
                &&& SHELL_PORT_LOW <= port <= SHELL_PORT_HIGH
                &&& reported_free(probe, port)
                &&& forall|q: u16| SHELL_PORT_LOW <= q < port ==> reported_taken(probe, q)
            },
            None => {
                &&& !result.success
                &&& result.error matches Some(text) && text@ == "No available port found"@
                &&& forall|q: u16|
                    SHELL_PORT_LOW <= q <= SHELL_PORT_HIGH ==> reported_taken(probe, q)
            },
        },
{
    match find_available_port(SHELL_PORT_LOW, SHELL_PORT_HIGH, probe) {
        Some(port) => CommandResult::success(port),
        None => CommandResult::error(String::from_str("No available port found")),
    }
}

/// The settings that the shell is given: the defaults.
pub fn get_app_config() -> (result: CommandResult<AppConfig>)
    ensures
        result.success,
        result.error is None,
        result.data matches Some(config) && config.auto_start && config.minimize_to_tray
            && !config.start_minimized && config.server_port is None && config.theme@ == "light"@
            && config.language@ == "id"@ && config.notifications_enabled && config.auto_update,
{
    CommandResult::success(AppConfig::default())
}

/// What an entry of the tray menu asks for.
#[derive(Debug, Clone, Copy, PartialEq, Eq, Structural)]
pub enum TrayAction {
    ShowWindow,
    HideWindow,
    RestartServer,
    Quit,
    Nothing,
}

/// The action of the menu entry with the identifier `id`. An identifier
/// that the menu does not hold asks for nothing.
pub open spec fn tray_action_of(id: Seq<char>) -> TrayAction {
    if id == "show"@ {
        TrayAction::ShowWindow
    } else if id == "hide"@ {
        TrayAction::HideWindow
    } else if id == "restart"@ {
        TrayAction::RestartServer
    } else if id == "quit"@ {
        TrayAction::Quit
    } else {
        TrayAction::Nothing
    }
}

/// Decides what a click on the menu entry `id` asks for.
pub fn tray_menu_action(id: &str) -> (action: TrayAction)
    ensures
        action == tray_action_of(id@),
{
    if text_equals(id, "show") {
        TrayAction::ShowWindow
    } else if text_equals(id, "hide") {
        TrayAction::HideWindow
    } else if text_equals(id, "restart") {
        TrayAction::RestartServer
    } else if text_equals(id, "quit") {
        TrayAction::Quit
    } else {
        TrayAction::Nothing
    }
}

} // verus!
