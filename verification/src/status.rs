//! Health snapshots of the driver service.

use vstd::prelude::*;
use vstd::string::*;

verus! {

/// Snapshot of the driver service returned by every health, start and restart operation.
#[derive(Debug, Clone, PartialEq, Eq)]
pub struct ServiceStatus {
    pub is_healthy: bool,
    pub port: u16,
    pub error_message: Option<String>,
}

/// Mathematical value of a [`ServiceStatus`].
pub struct ServiceStatusView {
    pub is_healthy: bool,
    pub port: u16,
    pub error_message: Option<Seq<char>>,
}

impl View for ServiceStatus {
    type V = ServiceStatusView;

    open spec fn view(&self) -> ServiceStatusView {
        ServiceStatusView {
            is_healthy: self.is_healthy,
            port: self.port,
            error_message: match self.error_message {
                Some(m) => Some(m@),
                None => None,
            },
        }
    }
}

impl ServiceStatusView {
    /// A snapshot is never partially populated: a healthy one carries no
    /// message, and an unhealthy one says why.
    pub open spec fn well_formed(self) -> bool {
        self.is_healthy <==> self.error_message is None
    }
}

impl ServiceStatus {

    /// The snapshot of a service that answered its status request.
    pub fn healthy(port: u16) -> (s: ServiceStatus)
        ensures
            s@ == (ServiceStatusView { is_healthy: true, port, error_message: None }),
            s@.well_formed(),
    {
        ServiceStatus { is_healthy: true, port, error_message: None }
    }

    /// The snapshot of a service that is not usable, with the reason.
    pub fn unhealthy(port: u16, message: String) -> (s: ServiceStatus)
        ensures
            s@ == (ServiceStatusView { is_healthy: false, port, error_message: Some(message@) }),
            s@.well_formed(),
    {
        ServiceStatus { is_healthy: false, port, error_message: Some(message) }
    }
}

/// Health of the engine: the driver service together with the session.
#[derive(Debug, Clone, PartialEq, Eq)]
pub struct BrowserEngineStatus {
    pub is_running: bool,
    pub current_port: u16,
    pub message: String,
    pub requires_restart: bool,
}

/// Mathematical value of a [`BrowserEngineStatus`].
pub struct BrowserEngineStatusView {
    pub is_running: bool,
    pub current_port: u16,
    pub message: Seq<char>,
    pub requires_restart: bool,
}

impl View for BrowserEngineStatus {
    type V = BrowserEngineStatusView;

    open spec fn view(&self) -> BrowserEngineStatusView {
        BrowserEngineStatusView {
            is_running: self.is_running,
            current_port: self.current_port,
            message: self.message@,
            requires_restart: self.requires_restart,
        }
    }
}

/// Message of a snapshot that carries none.
pub open spec fn healthy_message() -> Seq<char> {
    "Service is healthy"@
}

/// What the engine reports for a snapshot of the service: it is running
/// only if the service is healthy and a session is open.
pub open spec fn engine_report(
    status: ServiceStatusView,
    session_open: bool,
) -> BrowserEngineStatusView {
    BrowserEngineStatusView {
        is_running: status.is_healthy && session_open,
        current_port: status.port,
        message: match status.error_message {
            Some(message) => message,
            None => healthy_message(),
        },
        requires_restart: !status.is_healthy,
    }
}

impl BrowserEngineStatus {
    /// Annotates a snapshot of the service with whether a session is open.
    pub fn from_service(status: ServiceStatus, session_open: bool) -> (report: BrowserEngineStatus)
        ensures
            report@ == engine_report(status@, session_open),
    {
        let message = match status.error_message {
            Some(message) => message,
            None => String::from_str("Service is healthy"),
        };
        BrowserEngineStatus {
            is_running: status.is_healthy && session_open,
            current_port: status.port,
            message,
            requires_restart: !status.is_healthy,
        }
    }
}

/// Health of the whole pipeline, stamped with the time of the check.
#[derive(Debug, Clone, PartialEq, Eq)]
pub struct PriceEngineStatus {
    pub is_healthy: bool,
    pub current_port: u16,
    pub message: String,
    pub last_check: String,
}

/// Mathematical value of a [`PriceEngineStatus`].
pub struct PriceEngineStatusView {
    pub is_healthy: bool,
    pub current_port: u16,
    pub message: Seq<char>,
    pub last_check: Seq<char>,
}

impl View for PriceEngineStatus {
    type V = PriceEngineStatusView;

    open spec fn view(&self) -> PriceEngineStatusView {
        PriceEngineStatusView {
            is_healthy: self.is_healthy,
            current_port: self.current_port,
            message: self.message@,
            last_check: self.last_check@,
        }
    }
}

impl PriceEngineStatus {
    /// The engine's report under the time at which it was taken.
    pub fn stamped(report: BrowserEngineStatus, last_check: String) -> (status: PriceEngineStatus)
        ensures
            status@ == (PriceEngineStatusView {
                is_healthy: report@.is_running,
                current_port: report@.current_port,
                message: report@.message,
                last_check: last_check@,
            }),
    {
        PriceEngineStatus {
            is_healthy: report.is_running,
            current_port: report.current_port,
            message: report.message,
            last_check,
        }
    }
}

} // verus!
