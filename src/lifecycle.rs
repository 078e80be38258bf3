//! Settings, and the start / stop / status life of the embedded tool server.
//!
//! Starting decides on the settings and the current status, asks the caller
//! for a bind probe of the port, and on success allocates a fresh
//! cancellation handle. Stopping cancels and drops that handle and reports
//! the server stopped at once: it signals, it does not wait.
use vstd::prelude::*;

use tokio_util::sync::CancellationToken;

use crate::messages::{decimal, with_number, SaveResult};

verus! {

#[verifier::external_type_specification]
#[verifier::external_body]
pub struct ExCancellationToken(CancellationToken);

/// Relies on `tokio_util::sync::CancellationToken::new`: a fresh token, not
/// cancelled and shared with nothing.
pub assume_specification[ CancellationToken::new ]() -> CancellationToken;

/// Relies on `tokio_util::sync::CancellationToken::cancel`: signals every
/// clone of the token and returns at once.
pub assume_specification[ CancellationToken::cancel ](t: &CancellationToken);

/// Relies on `CancellationToken`'s `Clone`: a second handle on the same token.
pub assume_specification[ <CancellationToken as Clone>::clone ](t: &CancellationToken) -> CancellationToken;

/// The application's settings.
pub struct AppSettings {
    pub claude_config_path: String,
    pub dark_mode: bool,
    pub mcp_server_enabled: bool,
    pub mcp_server_port: u16,
    pub mcp_sse_path: String,
}

impl Default for AppSettings {
    fn default() -> (r: Self)
        ensures
            r.claude_config_path@ == Seq::<char>::empty(),
            !r.dark_mode,
            !r.mcp_server_enabled,
            r.mcp_server_port == 8000,
            r.mcp_sse_path@ == "/sse"@,
    {
        AppSettings {
            claude_config_path: String::new(),
            dark_mode: false,
            mcp_server_enabled: false,
            mcp_server_port: 8000,
            mcp_sse_path: String::from_str("/sse"),
        }
    }
}

impl AppSettings {
    pub fn duplicate(&self) -> (r: Self)
        ensures
            r.claude_config_path@ == self.claude_config_path@,
            r.dark_mode == self.dark_mode,
            r.mcp_server_enabled == self.mcp_server_enabled,
            r.mcp_server_port == self.mcp_server_port,
            r.mcp_sse_path@ == self.mcp_sse_path@,
    {
        AppSettings {
            claude_config_path: self.claude_config_path.clone(),
            dark_mode: self.dark_mode,
            mcp_server_enabled: self.mcp_server_enabled,
            mcp_server_port: self.mcp_server_port,
            mcp_sse_path: self.mcp_sse_path.clone(),
        }
    }
}

/// The address the server's event stream is reached at.
pub open spec fn server_url(port: u16, path: Seq<char>) -> Seq<char> {
    "http://127.0.0.1:"@ + decimal(port as nat) + path
}

/// The observable state of the embedded server.
pub struct McpServerStatus {
    pub running: bool,
    pub port: Option<u16>,
    pub sse_path: Option<String>,
    pub url: Option<String>,
}

pub ghost struct StatusView {
    pub running: bool,
    pub port: Option<u16>,
    pub sse_path: Option<Seq<char>>,
    pub url: Option<Seq<char>>,
}

pub open spec fn opt_view(o: Option<String>) -> Option<Seq<char>> {
    match o {
        Some(s) => Some(s@),
        None => None,
    }
}

impl View for McpServerStatus {
    type V = StatusView;

    open spec fn view(&self) -> StatusView {
        StatusView {
            running: self.running,
            port: self.port,
            sse_path: opt_view(self.sse_path),
            url: opt_view(self.url),
        }
    }
}

pub open spec fn stopped_status() -> StatusView {
    StatusView { running: false, port: None, sse_path: None, url: None }
}

pub open spec fn running_status(port: u16, path: Seq<char>) -> StatusView {
    StatusView {
        running: true,
        port: Some(port),
        sse_path: Some(path),
        url: Some(server_url(port, path)),
    }
}

fn clone_opt(o: &Option<String>) -> (r: Option<String>)
    ensures
        opt_view(r) == opt_view(*o),
{
    match o {
        Some(s) => Some(s.clone()),
        None => None,
    }
}

impl McpServerStatus {
    pub fn stopped() -> (r: Self)
        ensures
            r@ == stopped_status(),
    {
        McpServerStatus { running: false, port: None, sse_path: None, url: None }
    }

    pub fn snapshot(&self) -> (r: Self)
        ensures
            r@ == self@,
    {
        McpServerStatus {
            running: self.running,
            port: self.port,
            sse_path: clone_opt(&self.sse_path),
            url: clone_opt(&self.url),
        }
    }
}

/// Why a start did not happen, or that it did.
#[derive(Clone, Copy, Debug, PartialEq, Eq, Structural)]
pub enum StartOutcome {
    Disabled,
    AlreadyRunning,
    PortInUse { port: u16 },
    Started { port: u16 },
}

/// What a start needs next: an answer now, or a bind probe of a port first.
#[derive(Clone, Copy, Debug, PartialEq, Eq, Structural)]
pub enum StartCheck {
    Refused(StartOutcome),
    Probe { port: u16 },
}

pub open spec fn start_check_of(status: StatusView, enabled: bool, port: u16) -> StartCheck {
    if !enabled {
        StartCheck::Refused(StartOutcome::Disabled)
    } else if status.running {
        StartCheck::Refused(StartOutcome::AlreadyRunning)
    } else {
        StartCheck::Probe { port }
    }
}

/// The status and outcome of a start once the probe answered.
pub open spec fn start_result(
    status: StatusView,
    enabled: bool,
    port: u16,
    path: Seq<char>,
    port_free: bool,
) -> (StatusView, StartOutcome) {
    match start_check_of(status, enabled, port) {
        StartCheck::Refused(o) => (status, o),
        StartCheck::Probe { .. } => if !port_free {
            (status, StartOutcome::PortInUse { port })
        } else {
            (running_status(port, path), StartOutcome::Started { port })
        },
    }
}

/// A start with the server disabled refuses and leaves the status as it
/// was; a start from stopped with a free port runs the server on the
/// configured port; a second start refuses and keeps the first one's port
/// and path.
pub proof fn lemma_start_refusals(
    status: StatusView,
    port: u16,
    path: Seq<char>,
    port_free: bool,
    port2: u16,
    path2: Seq<char>,
    port_free2: bool,
)
    ensures
        start_result(status, false, port, path, port_free) == (status, StartOutcome::Disabled),
        start_result(stopped_status(), true, port, path, true) == (
            running_status(port, path),
            StartOutcome::Started { port },
        ),
        start_result(running_status(port, path), true, port2, path2, port_free2) == (
            running_status(port, path),
            StartOutcome::AlreadyRunning,
        ),
{
}

pub ghost struct LifecycleView {
    pub status: StatusView,
    pub has_handle: bool,
}

/// The server's status and the cancellation handle of a running server.
pub struct ServerLifecycle {
    status: McpServerStatus,
    cancellation: Option<CancellationToken>,
}

impl View for ServerLifecycle {
    type V = LifecycleView;

    closed spec fn view(&self) -> LifecycleView {
        LifecycleView { status: self.status@, has_handle: self.cancellation is Some }
    }
}

impl ServerLifecycle {
    pub fn new() -> (r: Self)
        ensures
            r@ == (LifecycleView { status: stopped_status(), has_handle: false }),
    {
        ServerLifecycle { status: McpServerStatus::stopped(), cancellation: None }
    }

    /// A point-in-time copy of the status.
    pub fn status(&self) -> (r: McpServerStatus)
        ensures
            r@ == self@.status,
    {
        self.status.snapshot()
    }

    /// Whether a start may go on to probe the port.
    pub fn begin_start(&self, settings: &AppSettings) -> (r: StartCheck)
        ensures
            r == start_check_of(self@.status, settings.mcp_server_enabled, settings.mcp_server_port),
    {
        if !settings.mcp_server_enabled {
            StartCheck::Refused(StartOutcome::Disabled)
        } else if self.status.running {
            StartCheck::Refused(StartOutcome::AlreadyRunning)
        } else {
            StartCheck::Probe { port: settings.mcp_server_port }
        }
    }

    /// Completes a start with the probe's answer. The checks are made again,
    /// as the status may have changed meanwhile. On success a fresh handle
    /// replaces any old one and the status turns running.
    pub fn finish_start(&mut self, settings: &AppSettings, port_free: bool) -> (r: StartOutcome)
        ensures
            (final(self)@.status, r) == start_result(
                old(self)@.status,
                settings.mcp_server_enabled,
                settings.mcp_server_port,
                settings.mcp_sse_path@,
                port_free,
            ),
            r is Started ==> final(self)@.has_handle,
            !(r is Started) ==> final(self)@ == old(self)@,
    {
        match self.begin_start(settings) {
            StartCheck::Refused(o) => o,
            StartCheck::Probe { port } => {
                if !port_free {
                    return StartOutcome::PortInUse { port };
                }
                self.cancellation = Some(CancellationToken::new());
                let path = settings.mcp_sse_path.clone();
                let url = with_number("http://127.0.0.1:", port as u64, path.as_str());
                self.status = McpServerStatus {
                    running: true,
                    port: Some(port),
                    sse_path: Some(path),
                    url: Some(url),
                };
                StartOutcome::Started { port }
            },
        }
    }

    /// A handle on the running server's cancellation token, for its serving
    /// task.
    pub fn cancellation_handle(&self) -> (r: Option<CancellationToken>)
        ensures
            r is Some == self@.has_handle,
    {
        match &self.cancellation {
            Some(t) => Some(t.clone()),
            None => None,
        }
    }

    /// Cancels and drops the handle, if any, and reports the server stopped
    /// at once.
    pub fn stop(&mut self) -> (r: SaveResult)
        ensures
            final(self)@ == (LifecycleView { status: stopped_status(), has_handle: false }),
            r.success,
            r.message@ == "MCP server stopped"@,
    {
        let token = self.cancellation.take();
        match token {
            Some(t) => t.cancel(),
            None => {},
        }
        self.status = McpServerStatus::stopped();
        SaveResult { success: true, message: String::from_str("MCP server stopped") }
    }

    /// The serving task ended on an error: the status falls back to stopped.
    pub fn on_server_failed(&mut self)
        ensures
            final(self)@.status == stopped_status(),
            final(self)@.has_handle == old(self)@.has_handle,
    {
        self.status = McpServerStatus::stopped();
    }
}

impl StartOutcome {
    pub fn to_result(&self) -> (r: SaveResult)
        ensures
            r.success == (*self is Started),
            r.message@ == match *self {
                StartOutcome::Disabled => "MCP server is disabled in settings"@,
                StartOutcome::AlreadyRunning => "MCP server is already running"@,
                StartOutcome::PortInUse { port } => "Port "@ + decimal(port as nat)
                    + " is already in use"@,
                StartOutcome::Started { port } => "MCP server started on port "@ + decimal(
                    port as nat,
                ) + ""@,
            },
    {
        match self {
            StartOutcome::Disabled => SaveResult {
                success: false,
                message: String::from_str("MCP server is disabled in settings"),
            },
            StartOutcome::AlreadyRunning => SaveResult {
                success: false,
                message: String::from_str("MCP server is already running"),
            },
            StartOutcome::PortInUse { port } => SaveResult {
                success: false,
                message: with_number("Port ", *port as u64, " is already in use"),
            },
            StartOutcome::Started { port } => SaveResult {
                success: true,
                message: with_number("MCP server started on port ", *port as u64, ""),
            },
        }
    }
}

/// The lowest port a user may pick.
pub const MIN_USER_PORT: u16 = 1024;

/// What checking a candidate port needs: below the user range it is refused
/// with no bind attempted; otherwise a bind probe decides.
#[derive(Clone, Copy, Debug, PartialEq, Eq, Structural)]
pub enum PortCheck {
    OutOfRange,
    Probe,
}

pub fn check_port(port: u16) -> (r: PortCheck)
    ensures
        r == (if port < MIN_USER_PORT {
            PortCheck::OutOfRange
        } else {
            PortCheck::Probe
        }),
{
    if port < MIN_USER_PORT {
        PortCheck::OutOfRange
    } else {
        PortCheck::Probe
    }
}

/// The answer to a port check; `probe` is the bind probe's answer, asked for
/// only when the check called for it.
pub fn validate_mcp_port(port: u16, probe: Option<bool>) -> (r: SaveResult)
    requires
        port >= MIN_USER_PORT ==> probe is Some,
    ensures
        r.success == (port >= MIN_USER_PORT && probe == Some(true)),
        port < MIN_USER_PORT ==> r.message@ == "Port must be between 1024 and 65535"@,
        port >= MIN_USER_PORT && probe == Some(true) ==> r.message@ == "Port "@ + decimal(port as nat)
            + " is available"@,
        port >= MIN_USER_PORT && probe == Some(false) ==> r.message@ == "Port "@ + decimal(
            port as nat,
        ) + " is already in use"@,
{
    match check_port(port) {
        PortCheck::OutOfRange => SaveResult {
            success: false,
            message: String::from_str("Port must be between 1024 and 65535"),
        },
        PortCheck::Probe => {
            if probe.unwrap() {
                SaveResult { success: true, message: with_number("Port ", port as u64, " is available") }
            } else {
                SaveResult { success: false, message: with_number("Port ", port as u64, " is already in use") }
            }
        },
    }
}

} // verus!
