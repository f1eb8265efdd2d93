//! The application host: the command-invocation bridge.
//!
//! The host is a three-state machine. It starts uninitialized, enters the
//! running state exactly once (performing the best-effort sidecar bootstrap
//! on the way), and terminates when the event loop exits. Commands are
//! dispatched only while it runs.
//!
//! Each command is a request/response operation around at most one native
//! call. `plan` turns a request into the native action the command needs; the
//! caller performs that action (a filesystem read, a notification display, a
//! tray update) and hands its outcome back to `respond`, which builds the
//! typed response. A command that needs no native call is answered by `plan`
//! directly.

use crate::dialog::FileSelection;
use crate::dialog::SaveSelection;
use crate::dialog::dialog_open_file;
use crate::dialog::dialog_save_file;
use crate::fs::BytesResult;
use crate::fs::bytes_response_of;
use crate::fs::read_file_bytes;
use crate::notify::NotificationRequest;
use crate::notify::notify_complete;
use crate::notify::notify_os;
use crate::notify::notify_response_of;
use vstd::prelude::*;

verus! {

/// A named request issued by the UI layer, one variant per command of the
/// fixed registry.
#[derive(Debug, PartialEq, Eq)]
pub enum CommandRequest {
    DialogOpenFile { filters: Option<Vec<String>> },
    DialogSaveFile { default_name: Option<String> },
    ReadFileBytes { path: String },
    NotifyOs { title: String, body: String, icon: Option<String> },
    UpdateTray,
}

/// The typed response a command hands back to the UI layer.
#[derive(Debug, PartialEq, Eq)]
pub enum CommandResponse {
    DialogOpenFile { selection: Option<FileSelection> },
    DialogSaveFile { selection: Option<SaveSelection> },
    ReadFileBytes { result: Result<BytesResult, String> },
    NotifyOs { result: Result<(), String> },
    UpdateTray,
}

/// The one native call a command needs, or the finished response where it
/// needs none.
#[derive(Debug, PartialEq, Eq)]
pub enum NativeAction {
    Respond { response: CommandResponse },
    ReadFile { path: String },
    ShowNotification { request: NotificationRequest },
    ApplyTray,
}

/// The outcome of a performed native call, handed back to the host.
#[derive(Debug, PartialEq, Eq)]
pub enum NativeOutcome {
    ReadFile { read_outcome: Result<Vec<u8>, String> },
    ShowNotification { show_outcome: Result<(), String> },
    ApplyTray,
}

/// The native action each request calls for. The dialog commands are stubs
/// and are answered at once with the empty selection; the read command asks
/// for the file's bytes at the request's path, as given; the notify command
/// asks for a display of the request's title and body, never of its icon; the
/// tray command asks for the tray update.
pub open spec fn action_of(request: CommandRequest) -> NativeAction {
    match request {
        CommandRequest::DialogOpenFile { .. } => NativeAction::Respond {
            response: CommandResponse::DialogOpenFile { selection: None },
        },
        CommandRequest::DialogSaveFile { .. } => NativeAction::Respond {
            response: CommandResponse::DialogSaveFile { selection: None },
        },
        CommandRequest::ReadFileBytes { path } => NativeAction::ReadFile { path },
        CommandRequest::NotifyOs { title, body, .. } => NativeAction::ShowNotification {
            request: NotificationRequest { title, body },
        },
        CommandRequest::UpdateTray => NativeAction::ApplyTray,
    }
}

/// The typed response each native outcome settles: a read's outcome settles
/// the read-file-bytes command, a display's outcome the notify-OS command,
/// and a performed tray update the update-tray command.
pub open spec fn response_of(outcome: NativeOutcome) -> CommandResponse {
    match outcome {
        NativeOutcome::ReadFile { read_outcome } => CommandResponse::ReadFileBytes {
            result: bytes_response_of(read_outcome),
        },
        NativeOutcome::ShowNotification { show_outcome } => CommandResponse::NotifyOs {
            result: notify_response_of(show_outcome),
        },
        NativeOutcome::ApplyTray => CommandResponse::UpdateTray,
    }
}

/// The diagnostic the host logs for a sidecar bootstrap outcome: nothing on
/// success, the failure's description on failure.
pub open spec fn sidecar_diagnostic_of(sidecar_outcome: Result<(), String>) -> Option<String> {
    match sidecar_outcome {
        Ok(_) => None,
        Err(message) => Some(message),
    }
}

/// The host a start with the given sidecar bootstrap outcome produces: a
/// running host that records whether the bootstrap succeeded.
pub open spec fn started_host(sidecar_outcome: Result<(), String>) -> Host {
    Host { state: HostState::Running, sidecar_ok: sidecar_outcome is Ok }
}

/// Sidecar bootstrap failure is tolerated: whatever the bootstrap's outcome,
/// success or any failure, the started host is running, so its command table
/// is available.
pub proof fn lemma_bootstrap_failure_tolerated(sidecar_outcome: Result<(), String>)
    ensures
        started_host(sidecar_outcome).state is Running,
{
}

/// The host's lifecycle states. There is no restart or reload transition:
/// the host runs once and terminates once.
#[derive(Debug, PartialEq, Eq)]
pub enum HostState {
    Uninitialized,
    Running,
    Terminated,
}

/// The application host. It records where it stands in its lifecycle and
/// whether the sidecar bootstrap succeeded; a failed bootstrap leaves it
/// running with degraded functionality, never stopped.
#[derive(Debug, PartialEq, Eq)]
pub struct Host {
    pub state: HostState,
    pub sidecar_ok: bool,
}

impl Host {
    /// A host that has not started yet.
    pub fn new() -> (host: Host)
        ensures
            host.state is Uninitialized,
            !host.sidecar_ok,
    {
        Host { state: HostState::Uninitialized, sidecar_ok: false }
    }

    /// The one transition out of the uninitialized state. The sidecar
    /// bootstrap's outcome is recorded and, on failure, its description is
    /// returned for the caller to log; the host enters the running state
    /// either way, so a bootstrap failure never keeps the command table from
    /// becoming available.
    pub fn start(&mut self, sidecar_outcome: Result<(), String>) -> (diagnostic: Option<String>)
        requires
            old(self).state is Uninitialized,
        ensures
            *final(self) == started_host(sidecar_outcome),
            final(self).state is Running,
            diagnostic == sidecar_diagnostic_of(sidecar_outcome),
    {
        self.state = HostState::Running;
        match sidecar_outcome {
            Ok(_) => {
                self.sidecar_ok = true;
                None
            },
            Err(message) => {
                self.sidecar_ok = false;
                Some(message)
            },
        }
    }

    /// Whether the command table is reachable: it is exactly while the host
    /// runs.
    pub fn commands_available(&self) -> (available: bool)
        ensures
            available == self.state is Running,
    {
        match self.state {
            HostState::Running => true,
            HostState::Uninitialized => false,
            HostState::Terminated => false,
        }
    }

    /// Whether the sidecar bootstrap succeeded when the host started. A
    /// running host with a failed bootstrap is degraded, not stopped.
    pub fn sidecar_healthy(&self) -> (healthy: bool)
        ensures
            healthy == self.sidecar_ok,
    {
        self.sidecar_ok
    }

    /// Dispatches a request to its command and returns the native action the
    /// command needs, or the finished response where it needs none.
    pub fn plan(&self, request: CommandRequest) -> (action: NativeAction)
        requires
            self.state is Running,
        ensures
            action == action_of(request),
    {
        match request {
            CommandRequest::DialogOpenFile { filters } => NativeAction::Respond {
                response: CommandResponse::DialogOpenFile { selection: dialog_open_file(filters) },
            },
            CommandRequest::DialogSaveFile { default_name } => NativeAction::Respond {
                response: CommandResponse::DialogSaveFile {
                    selection: dialog_save_file(default_name),
                },
            },
            CommandRequest::ReadFileBytes { path } => NativeAction::ReadFile { path },
            CommandRequest::NotifyOs { title, body, icon } => NativeAction::ShowNotification {
                request: notify_os(title, body, icon),
            },
            CommandRequest::UpdateTray => NativeAction::ApplyTray,
        }
    }

    /// Settles a command from the outcome of its performed native action and
    /// returns the typed response for the UI layer.
    pub fn respond(&self, outcome: NativeOutcome) -> (response: CommandResponse)
        requires
            self.state is Running,
        ensures
            response == response_of(outcome),
    {
        match outcome {
            NativeOutcome::ReadFile { read_outcome } => CommandResponse::ReadFileBytes {
                result: read_file_bytes(read_outcome),
            },
            NativeOutcome::ShowNotification { show_outcome } => CommandResponse::NotifyOs {
                result: notify_complete(show_outcome),
            },
            NativeOutcome::ApplyTray => CommandResponse::UpdateTray,
        }
    }

    /// The one transition out of the running state, taken when the event
    /// loop exits. The terminated state is terminal: no further commands are
    /// dispatched.
    pub fn terminate(&mut self)
        requires
            old(self).state is Running,
        ensures
            final(self).state is Terminated,
            final(self).sidecar_ok == old(self).sidecar_ok,
    {
        self.state = HostState::Terminated;
    }
}

} // verus!
