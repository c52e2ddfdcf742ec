//! Supervision of the driver process: port choice, launch, health and restart.
//!
//! The supervisor is a state machine. An operation such as
//! [`BrowserServiceManager::start_service`] returns a [`ServiceStep`]: either
//! a request for the host together with the task to resume once the host has
//! answered, or the outcome of the operation.

use vstd::prelude::*;
use vstd::string::*;
use crate::host::{Reply, ReplyView, Request, RequestView};
use crate::ports::{scan_after, scan_first, PortScan, ScanStep};
use crate::status::{ServiceStatus, ServiceStatusView};
use crate::text::{decimal, decimal_text, join, join3};

verus! {

/// Width of the port range that a new supervisor may fall back to.
pub const PORT_RANGE_SPAN: u16 = 100;

/// Seconds granted to a freshly launched driver to bind its listener.
pub const LAUNCH_SETTLE_SECONDS: u64 = 3;

/// Seconds after which a status request is given up.
pub const STATUS_TIMEOUT_SECONDS: u64 = 5;

/// Why a supervisor operation could not give a status.
#[derive(Debug, PartialEq, Eq)]
pub enum ServiceError {
    /// Every port of the range was probed and none was free.
    NoPortAvailable { min: u16, max: u16 },
    /// The driver binary could not be launched.
    SpawnFailed { reason: String },
    /// The host answered with a reply that does not fit the request.
    UnexpectedReply,
    /// The task does not belong to the supervisor as it now is.
    StaleTask,
}

/// Mathematical value of a [`ServiceError`].
pub enum ServiceErrorView {
    NoPortAvailable { min: u16, max: u16 },
    SpawnFailed { reason: Seq<char> },
    UnexpectedReply,
    StaleTask,
}

impl View for ServiceError {
    type V = ServiceErrorView;

    open spec fn view(&self) -> ServiceErrorView {
        match *self {
            ServiceError::NoPortAvailable { min, max } => ServiceErrorView::NoPortAvailable {
                min,
                max,
            },
            ServiceError::SpawnFailed { reason } => ServiceErrorView::SpawnFailed {
                reason: reason@,
            },
            ServiceError::UnexpectedReply => ServiceErrorView::UnexpectedReply,
            ServiceError::StaleTask => ServiceErrorView::StaleTask,
        }
    }
}

/// How a supervisor operation ended.
#[derive(Debug, PartialEq, Eq)]
pub enum ServiceOutcome {
    /// Start, restart and health check end with a snapshot.
    Status(ServiceStatus),
    /// The port search ended on this port, the lowest that answered its probe.
    PortFound(u16),
    /// The supervisor owns no process any more.
    Stopped,
    /// The operation was given up.
    Failed(ServiceError),
}

/// Mathematical value of a [`ServiceOutcome`].
pub enum ServiceOutcomeView {
    Status(ServiceStatusView),
    PortFound(u16),
    Stopped,
    Failed(ServiceErrorView),
}

impl View for ServiceOutcome {
    type V = ServiceOutcomeView;

    open spec fn view(&self) -> ServiceOutcomeView {
        match *self {
            ServiceOutcome::Status(status) => ServiceOutcomeView::Status(status@),
            ServiceOutcome::PortFound(port) => ServiceOutcomeView::PortFound(port),
            ServiceOutcome::Stopped => ServiceOutcomeView::Stopped,
            ServiceOutcome::Failed(error) => ServiceOutcomeView::Failed(error@),
        }
    }
}

/// What a port scan is for, and so what follows once it has found a port.
#[derive(Debug, Clone, Copy, PartialEq, Eq)]
pub enum ScanPurpose {
    /// A plain search: report the port.
    Find,
    /// The preferred port was busy at start: report the reassignment.
    Reassign,
    /// The preferred port was busy at restart: start on the port found.
    Relocate,
}

/// Where an operation of the supervisor stands while the host works.
#[derive(Debug, Clone, Copy, PartialEq, Eq)]
pub enum ServiceTask {
    /// A port probe of this scan is outstanding.
    Scanning { scan: PortScan, purpose: ScanPurpose },
    /// Health check: the status query is outstanding.
    CheckHealth,
    /// Stop: the kill is outstanding.
    Stop,
    /// Start: the probe of the current port is outstanding.
    StartProbe,
    /// Start: the kill of the previous process is outstanding.
    StartClear,
    /// Start: the launch is outstanding.
    StartSpawn,
    /// Start: the settle delay is running.
    StartSettle,
    /// Start: the status query is outstanding.
    StartVerify,
    /// Restart: the kill is outstanding.
    RestartStop,
    /// Restart: the probe of the current port is outstanding.
    RestartProbe,
}

/// One step of a supervisor operation.
#[derive(Debug, PartialEq, Eq)]
pub enum ServiceStep {
    /// The host carries out the request and resumes the task with its reply.
    Ask(Request, ServiceTask),
    /// The operation is over.
    Done(ServiceOutcome),
}

/// Mathematical value of a [`ServiceStep`].
pub enum ServiceStepView {
    Ask(RequestView, ServiceTask),
    Done(ServiceOutcomeView),
}

impl View for ServiceStep {
    type V = ServiceStepView;

    open spec fn view(&self) -> ServiceStepView {
        match *self {
            ServiceStep::Ask(request, task) => ServiceStepView::Ask(request@, task),
            ServiceStep::Done(outcome) => ServiceStepView::Done(outcome@),
        }
    }
}

/// Supervisor of one driver process.
#[derive(Debug)]
pub struct BrowserServiceManager {
    current_port: u16,
    min_port: u16,
    max_port: u16,
    driver_path: String,
    browser_path: String,
    process: Option<u32>,
}

/// Mathematical value of a [`BrowserServiceManager`].
pub struct ManagerView {
    pub current_port: u16,
    pub min_port: u16,
    pub max_port: u16,
    pub driver_path: Seq<char>,
    pub browser_path: Seq<char>,
    /// Id of the driver process that the supervisor owns.
    pub process: Option<u32>,
}

impl View for BrowserServiceManager {
    type V = ManagerView;

    closed spec fn view(&self) -> ManagerView {
        ManagerView {
            current_port: self.current_port,
            min_port: self.min_port,
            max_port: self.max_port,
            driver_path: self.driver_path@,
            browser_path: self.browser_path@,
            process: self.process,
        }
    }
}

/// Address of the driver's status endpoint.
pub open spec fn status_url(port: u16) -> Seq<char> {
    "http://localhost:"@ + decimal(port as nat) + "/status"@
}

/// Address of the driver's automation endpoint.
pub open spec fn server_url(port: u16) -> Seq<char> {
    "http://localhost:"@ + decimal(port as nat)
}

/// Launch arguments of the driver: the port to listen on, and an empty list
/// of admitted remote addresses.
pub open spec fn launch_arguments(port: u16) -> Seq<Seq<char>> {
    seq!["--port="@ + decimal(port as nat), "--whitelisted-ips="@]
}

/// Message of a status request that was answered with an error status.
pub open spec fn unhealthy_message(port: u16, status: Seq<char>) -> Seq<char> {
    "Service unhealthy on port "@ + decimal(port as nat) + ": HTTP "@ + status
}

/// Message of a status request that got no answer.
pub open spec fn unreachable_message(port: u16, reason: Seq<char>) -> Seq<char> {
    "Service not responding on port "@ + decimal(port as nat) + ": "@ + reason
}

/// Message of a start that found its port busy and moved to another.
pub open spec fn reassigned_message() -> Seq<char> {
    "port busy, reassigned"@
}

/// Snapshot of a service that answered.
pub open spec fn healthy_status(port: u16) -> ServiceStatusView {
    ServiceStatusView { is_healthy: true, port, error_message: None }
}

/// Snapshot of a service that is not usable.
pub open spec fn unhealthy_status(port: u16, message: Seq<char>) -> ServiceStatusView {
    ServiceStatusView { is_healthy: false, port, error_message: Some(message) }
}

/// The supervisor before anything is started: it prefers `initial_port`,
/// may fall back to the [`PORT_RANGE_SPAN`] ports above it, and owns no process.
pub open spec fn new_manager(
    initial_port: u16,
    driver_path: Seq<char>,
    browser_path: Seq<char>,
) -> ManagerView {
    ManagerView {
        current_port: initial_port,
        min_port: initial_port,
        max_port: (initial_port + PORT_RANGE_SPAN) as u16,
        driver_path,
        browser_path,
        process: None,
    }
}

impl ManagerView {
    /// The current port lies in the range, unless the range is empty.
    pub open spec fn well_formed(self) -> bool {
        self.min_port <= self.max_port ==> self.min_port <= self.current_port <= self.max_port
    }

    /// The step that gives an operation up.
    pub open spec fn fail(self, error: ServiceErrorView) -> (ManagerView, ServiceStepView) {
        (self, ServiceStepView::Done(ServiceOutcomeView::Failed(error)))
    }

    /// The step that ends an operation with a snapshot.
    pub open spec fn report(self, status: ServiceStatusView) -> (ManagerView, ServiceStepView) {
        (self, ServiceStepView::Done(ServiceOutcomeView::Status(status)))
    }

    /// The step that asks for the status of the current port.
    pub open spec fn query(self, task: ServiceTask) -> (ManagerView, ServiceStepView) {
        (
            self,
            ServiceStepView::Ask(
                RequestView::QueryStatus {
                    url: status_url(self.current_port),
                    timeout_seconds: STATUS_TIMEOUT_SECONDS,
                },
                task,
            ),
        )
    }

    /// The step that asks whether the current port is free.
    pub open spec fn probe(self, task: ServiceTask) -> (ManagerView, ServiceStepView) {
        (
            self,
            ServiceStepView::Ask(RequestView::ProbePort { port: self.current_port }, task),
        )
    }

    /// The step that asks for the launch of the driver on the current port.
    pub open spec fn launch(self) -> (ManagerView, ServiceStepView) {
        (
            self,
            ServiceStepView::Ask(
                RequestView::SpawnDriver {
                    program: self.driver_path,
                    arguments: launch_arguments(self.current_port),
                },
                ServiceTask::StartSpawn,
            ),
        )
    }

    /// Lets go of the owned process, if any: the step asks for its end and
    /// goes on with `task`. Without a process the result is `None`.
    pub open spec fn release(self, task: ServiceTask) -> Option<(ManagerView, ServiceStepView)> {
        match self.process {
            Some(pid) => Some(
                (
                    ManagerView { process: None, ..self },
                    ServiceStepView::Ask(RequestView::KillProcess { pid }, task),
                ),
            ),
            None => None,
        }
    }

    /// How a scan goes on from `step`.
    pub open spec fn scan(self, step: ScanStep, purpose: ScanPurpose) -> (
        ManagerView,
        ServiceStepView,
    ) {
        match step {
            ScanStep::Probe(scan) => (
                self,
                ServiceStepView::Ask(
                    RequestView::ProbePort { port: scan.port },
                    ServiceTask::Scanning { scan, purpose },
                ),
            ),
            ScanStep::Found(port) => {
                let moved = ManagerView { current_port: port, ..self };
                match purpose {
                    ScanPurpose::Find => (
                        self,
                        ServiceStepView::Done(ServiceOutcomeView::PortFound(port)),
                    ),
                    ScanPurpose::Reassign => moved.report(
                        unhealthy_status(port, reassigned_message()),
                    ),
                    ScanPurpose::Relocate => moved.start_service(),
                }
            },
            ScanStep::Exhausted => self.fail(
                ServiceErrorView::NoPortAvailable { min: self.min_port, max: self.max_port },
            ),
        }
    }

    /// First step of a port search.
    pub open spec fn find_available_port(self) -> (ManagerView, ServiceStepView) {
        self.scan(scan_first(self.min_port, self.max_port), ScanPurpose::Find)
    }

    /// First step of a health check.
    pub open spec fn check_service_health(self) -> (ManagerView, ServiceStepView) {
        self.query(ServiceTask::CheckHealth)
    }

    /// First step of a stop.
    pub open spec fn stop_service(self) -> (ManagerView, ServiceStepView) {
        match self.release(ServiceTask::Stop) {
            Some(step) => step,
            None => (self, ServiceStepView::Done(ServiceOutcomeView::Stopped)),
        }
    }

    /// First step of a start.
    pub open spec fn start_service(self) -> (ManagerView, ServiceStepView) {
        self.probe(ServiceTask::StartProbe)
    }

    /// First step of a restart.
    pub open spec fn restart_service(self) -> (ManagerView, ServiceStepView) {
        match self.release(ServiceTask::RestartStop) {
            Some(step) => step,
            None => self.probe(ServiceTask::RestartProbe),
        }
    }

    /// The snapshot that a health check gives for a reply, if the reply
    /// answers a status query.
    pub open spec fn health(self, reply: ReplyView) -> Option<ServiceStatusView> {
        match reply {
            ReplyView::Status { success, status } => Some(
                if success {
                    healthy_status(self.current_port)
                } else {
                    unhealthy_status(
                        self.current_port,
                        unhealthy_message(self.current_port, status),
                    )
                },
            ),
            ReplyView::Failed { reason } => Some(
                unhealthy_status(
                    self.current_port,
                    unreachable_message(self.current_port, reason),
                ),
            ),
            _ => None,
        }
    }

    /// The step that follows the host's reply to the request of `task`. A
    /// task that does not fit the supervisor is rejected, and nothing changes.
    pub open spec fn resume(self, task: ServiceTask, reply: ReplyView) -> (
        ManagerView,
        ServiceStepView,
    ) {
        if task.fits(self) {
            self.proceed(task, reply)
        } else {
            self.fail(ServiceErrorView::StaleTask)
        }
    }

    /// The step that follows the host's reply to the request of a fitting `task`.
    pub open spec fn proceed(self, task: ServiceTask, reply: ReplyView) -> (
        ManagerView,
        ServiceStepView,
    ) {
        match task {
            ServiceTask::Scanning { scan, purpose } => match reply {
                ReplyView::Port { available } => self.scan(scan_after(scan, available), purpose),
                _ => self.fail(ServiceErrorView::UnexpectedReply),
            },
            ServiceTask::CheckHealth => match self.health(reply) {
                Some(status) => self.report(status),
                None => self.fail(ServiceErrorView::UnexpectedReply),
            },
            ServiceTask::Stop => if reply.is_acknowledgement() {
                (self, ServiceStepView::Done(ServiceOutcomeView::Stopped))
            } else {
                self.fail(ServiceErrorView::UnexpectedReply)
            },
            ServiceTask::StartProbe => match reply {
                ReplyView::Port { available } => if available {
                    match self.release(ServiceTask::StartClear) {
                        Some(step) => step,
                        None => self.launch(),
                    }
                } else {
                    self.scan(scan_first(self.min_port, self.max_port), ScanPurpose::Reassign)
                },
                _ => self.fail(ServiceErrorView::UnexpectedReply),
            },
            ServiceTask::StartClear => if reply.is_acknowledgement() {
                self.launch()
            } else {
                self.fail(ServiceErrorView::UnexpectedReply)
            },
            ServiceTask::StartSpawn => match reply {
                ReplyView::Spawned { pid } => (
                    ManagerView { process: Some(pid), ..self },
                    ServiceStepView::Ask(
                        RequestView::Settle { seconds: LAUNCH_SETTLE_SECONDS },
                        ServiceTask::StartSettle,
                    ),
                ),
                ReplyView::Failed { reason } => self.fail(
                    ServiceErrorView::SpawnFailed { reason },
                ),
                _ => self.fail(ServiceErrorView::UnexpectedReply),
            },
            ServiceTask::StartSettle => match reply {
                ReplyView::Completed => self.query(ServiceTask::StartVerify),
                _ => self.fail(ServiceErrorView::UnexpectedReply),
            },
            ServiceTask::StartVerify => match self.health(reply) {
                Some(status) => self.report(status),
                None => self.fail(ServiceErrorView::UnexpectedReply),
            },
            ServiceTask::RestartStop => if reply.is_acknowledgement() {
                self.probe(ServiceTask::RestartProbe)
            } else {
                self.fail(ServiceErrorView::UnexpectedReply)
            },
            ServiceTask::RestartProbe => match reply {
                ReplyView::Port { available } => if available {
                    self.start_service()
                } else {
                    self.scan(scan_first(self.min_port, self.max_port), ScanPurpose::Relocate)
                },
                _ => self.fail(ServiceErrorView::UnexpectedReply),
            },
        }
    }
}

/// Writes a port number in decimal.
fn port_text(port: u16) -> (text: String)
    ensures
        text@ == decimal(port as nat),
{
    decimal_text(port as u64)
}

/// Writes the address of the driver's status endpoint.
pub fn status_url_text(port: u16) -> (text: String)
    ensures
        text@ == status_url(port),
{
    let number = port_text(port);
    join3("http://localhost:", number.as_str(), "/status")
}

/// Writes the address of the driver's automation endpoint.
pub fn server_url_text(port: u16) -> (text: String)
    ensures
        text@ == server_url(port),
{
    let number = port_text(port);
    join("http://localhost:", number.as_str())
}

/// Writes the launch arguments of the driver.
pub fn launch_argument_texts(port: u16) -> (arguments: Vec<String>)
    ensures
        arguments.deep_view() == launch_arguments(port),
{
    let number = port_text(port);
    let mut arguments: Vec<String> = Vec::new();
    arguments.push(join("--port=", number.as_str()));
    arguments.push(String::from_str("--whitelisted-ips="));
    assert(arguments.deep_view() =~= launch_arguments(port));
    arguments
}

fn unhealthy_message_text(port: u16, status: &str) -> (text: String)
    ensures
        text@ == unhealthy_message(port, status@),
{
    let number = port_text(port);
    let mut text = join3("Service unhealthy on port ", number.as_str(), ": HTTP ");
    text.append(status);
    text
}

fn unreachable_message_text(port: u16, reason: &str) -> (text: String)
    ensures
        text@ == unreachable_message(port, reason@),
{
    let number = port_text(port);
    let mut text = join3("Service not responding on port ", number.as_str(), ": ");
    text.append(reason);
    text
}

fn failed(error: ServiceError) -> (step: ServiceStep)
    ensures
        step@ == ServiceStepView::Done(ServiceOutcomeView::Failed(error@)),
{
    ServiceStep::Done(ServiceOutcome::Failed(error))
}

fn reported(status: ServiceStatus) -> (step: ServiceStep)
    ensures
        step@ == ServiceStepView::Done(ServiceOutcomeView::Status(status@)),
{
    ServiceStep::Done(ServiceOutcome::Status(status))
}

impl BrowserServiceManager {
    /// A supervisor that prefers `initial_port` and may fall back to the
    /// [`PORT_RANGE_SPAN`] ports above it. It owns no process yet.
    pub fn new(initial_port: u16, driver_path: &str, browser_path: &str) -> (manager: Self)
        requires
            initial_port + PORT_RANGE_SPAN <= u16::MAX,
        ensures
            manager@ == new_manager(initial_port, driver_path@, browser_path@),
            manager@.well_formed(),
    {
        BrowserServiceManager {
            current_port: initial_port,
            min_port: initial_port,
            max_port: initial_port + PORT_RANGE_SPAN,
            driver_path: String::from_str(driver_path),
            browser_path: String::from_str(browser_path),
            process: None,
        }
    }

    /// The port that the driver is, or will be, bound to.
    pub fn get_current_port(&self) -> (port: u16)
        ensures
            port == self@.current_port,
    {
        self.current_port
    }

    /// Id of the driver process that the supervisor owns.
    pub fn process_id(&self) -> (pid: Option<u32>)
        ensures
            pid == self@.process,
    {
        self.process
    }

    /// Gives the owned process up to the caller, who is to ask for its end.
    pub(crate) fn give_up_process(&mut self) -> (pid: Option<u32>)
        ensures
            pid == old(self)@.process,
            final(self)@ == (ManagerView { process: None, ..old(self)@ }),
    {
        let pid = self.process;
        self.process = None;
        pid
    }

    /// Path of the browser binary that sessions are opened for.
    pub fn browser_path(&self) -> (path: &str)
        ensures
            path@ == self@.browser_path,
    {
        self.browser_path.as_str()
    }

    /// Sets the bounds of the port range. A current port outside the new
    /// bounds is reset to the lower bound; nothing is restarted.
    pub fn set_port_range(&mut self, min_port: u16, max_port: u16)
        ensures
            final(self)@ == (ManagerView {
                min_port,
                max_port,
                current_port: if min_port <= old(self)@.current_port <= max_port {
                    old(self)@.current_port
                } else {
                    min_port
                },
                ..old(self)@
            }),
            final(self)@.well_formed(),
    {
        self.min_port = min_port;
        self.max_port = max_port;
        if self.current_port < min_port || self.current_port > max_port {
            self.current_port = min_port;
        }
    }

    /// Whether a task is one that an operation on this supervisor hands out.
    pub fn fits(&self, task: ServiceTask) -> (fitting: bool)
        ensures
            fitting == task.fits(self@),
    {
        match task {
            ServiceTask::Scanning { scan, purpose } => {
                let relocating = match purpose {
                    ScanPurpose::Relocate => true,
                    _ => false,
                };
                self.min_port <= scan.port && scan.port <= scan.last && scan.last == self.max_port
                    && (!relocating || self.process.is_none())
            },
            ServiceTask::StartClear => self.process.is_none(),
            ServiceTask::StartSpawn => self.process.is_none(),
            ServiceTask::StartSettle => self.process.is_some(),
            ServiceTask::StartVerify => self.process.is_some(),
            ServiceTask::RestartStop => self.process.is_none(),
            ServiceTask::RestartProbe => self.process.is_none(),
            _ => true,
        }
    }

    fn query(&self, task: ServiceTask) -> (step: ServiceStep)
        ensures
            (self@, step@) == self@.query(task),
    {
        ServiceStep::Ask(
            Request::QueryStatus {
                url: status_url_text(self.current_port),
                timeout_seconds: STATUS_TIMEOUT_SECONDS,
            },
            task,
        )
    }

    fn probe(&self, task: ServiceTask) -> (step: ServiceStep)
        ensures
            (self@, step@) == self@.probe(task),
    {
        ServiceStep::Ask(Request::ProbePort { port: self.current_port }, task)
    }

    fn launch(&self) -> (step: ServiceStep)
        ensures
            (self@, step@) == self@.launch(),
    {
        ServiceStep::Ask(
            Request::SpawnDriver {
                program: self.driver_path.clone(),
                arguments: launch_argument_texts(self.current_port),
            },
            ServiceTask::StartSpawn,
        )
    }

    fn release(&mut self, task: ServiceTask) -> (step: Option<ServiceStep>)
        ensures
            match old(self)@.release(task) {
                Some(next) => step matches Some(asked) && (final(self)@, asked@) == next,
                None => step is None && final(self)@ == old(self)@,
            },
    {
        match self.process {
            Some(pid) => {
                self.process = None;
                Some(ServiceStep::Ask(Request::KillProcess { pid }, task))
            },
            None => None,
        }
    }

    fn scan(&mut self, step: ScanStep, purpose: ScanPurpose) -> (next: ServiceStep)
        ensures
            (final(self)@, next@) == old(self)@.scan(step, purpose),
    {
        match step {
            ScanStep::Probe(scan) => ServiceStep::Ask(
                Request::ProbePort { port: scan.port },
                ServiceTask::Scanning { scan, purpose },
            ),
            ScanStep::Found(port) => match purpose {
                ScanPurpose::Find => ServiceStep::Done(ServiceOutcome::PortFound(port)),
                ScanPurpose::Reassign => {
                    self.current_port = port;
                    reported(
                        ServiceStatus::unhealthy(port, String::from_str("port busy, reassigned")),
                    )
                },
                ScanPurpose::Relocate => {
                    self.current_port = port;
                    self.start_service()
                },
            },
            ScanStep::Exhausted => failed(
                ServiceError::NoPortAvailable { min: self.min_port, max: self.max_port },
            ),
        }
    }

    /// Begins the search for a free port: the range is probed in ascending
    /// order, and the search ends on the first port that answers. The
    /// search changes nothing about the supervisor.
    pub fn find_available_port(&mut self) -> (step: ServiceStep)
        ensures
            (final(self)@, step@) == old(self)@.find_available_port(),
            final(self)@ == old(self)@,
    {
        let first = PortScan::begin(self.min_port, self.max_port);
        self.scan(first, ScanPurpose::Find)
    }

    /// Begins a health check of the driver on the current port.
    pub fn check_service_health(&self) -> (step: ServiceStep)
        ensures
            (self@, step@) == self@.check_service_health(),
    {
        self.query(ServiceTask::CheckHealth)
    }

    /// Begins a stop: an owned process is let go of and its end asked for.
    pub fn stop_service(&mut self) -> (step: ServiceStep)
        ensures
            (final(self)@, step@) == old(self)@.stop_service(),
    {
        match self.release(ServiceTask::Stop) {
            Some(step) => step,
            None => ServiceStep::Done(ServiceOutcome::Stopped),
        }
    }

    /// Begins a start of the driver on the current port.
    pub fn start_service(&mut self) -> (step: ServiceStep)
        ensures
            (final(self)@, step@) == old(self)@.start_service(),
    {
        self.probe(ServiceTask::StartProbe)
    }

    /// Begins a restart: stop, then start on the current port, or on
    /// another port of the range if the current one is taken.
    pub fn restart_service(&mut self) -> (step: ServiceStep)
        ensures
            (final(self)@, step@) == old(self)@.restart_service(),
    {
        match self.release(ServiceTask::RestartStop) {
            Some(step) => step,
            None => self.probe(ServiceTask::RestartProbe),
        }
    }

    fn health(&self, reply: Reply) -> (status: Option<ServiceStatus>)
        ensures
            match self@.health(reply@) {
                Some(expected) => status matches Some(given) && given@ == expected,
                None => status is None,
            },
    {
        match reply {
            Reply::Status { success, status } => {
                if success {
                    Some(ServiceStatus::healthy(self.current_port))
                } else {
                    Some(
                        ServiceStatus::unhealthy(
                            self.current_port,
                            unhealthy_message_text(self.current_port, status.as_str()),
                        ),
                    )
                }
            },
            Reply::Failed { reason } => Some(
                ServiceStatus::unhealthy(
                    self.current_port,
                    unreachable_message_text(self.current_port, reason.as_str()),
                ),
            ),
            _ => None,
        }
    }

    /// Takes the host's reply to the request that came with `task` and gives
    /// the next step of the operation.
    pub fn resume(&mut self, task: ServiceTask, reply: Reply) -> (step: ServiceStep)
        ensures
            (final(self)@, step@) == old(self)@.resume(task, reply@),
            old(self)@.well_formed() ==> final(self)@.well_formed(),
    {
        if !self.fits(task) {
            return failed(ServiceError::StaleTask);
        }
        proof {
            if self@.well_formed() {
                lemma_resume_fits(self@, task, reply@);
            }
        }
        match task {
            ServiceTask::Scanning { scan, purpose } => match reply {
                Reply::Port { available } => self.scan(scan.advance(available), purpose),
                _ => failed(ServiceError::UnexpectedReply),
            },
            ServiceTask::CheckHealth => match self.health(reply) {
                Some(status) => reported(status),
                None => failed(ServiceError::UnexpectedReply),
            },
            ServiceTask::Stop => match reply {
                Reply::Completed => ServiceStep::Done(ServiceOutcome::Stopped),
                Reply::Failed { .. } => ServiceStep::Done(ServiceOutcome::Stopped),
                _ => failed(ServiceError::UnexpectedReply),
            },
            ServiceTask::StartProbe => match reply {
                Reply::Port { available } => {
                    if available {
                        match self.release(ServiceTask::StartClear) {
                            Some(step) => step,
                            None => self.launch(),
                        }
                    } else {
                        let first = PortScan::begin(self.min_port, self.max_port);
                        self.scan(first, ScanPurpose::Reassign)
                    }
                },
                _ => failed(ServiceError::UnexpectedReply),
            },
            ServiceTask::StartClear => match reply {
                Reply::Completed => self.launch(),
                Reply::Failed { .. } => self.launch(),
                _ => failed(ServiceError::UnexpectedReply),
            },
            ServiceTask::StartSpawn => match reply {
                Reply::Spawned { pid } => {
                    self.process = Some(pid);
                    ServiceStep::Ask(
                        Request::Settle { seconds: LAUNCH_SETTLE_SECONDS },
                        ServiceTask::StartSettle,
                    )
                },
                Reply::Failed { reason } => failed(ServiceError::SpawnFailed { reason }),
                _ => failed(ServiceError::UnexpectedReply),
            },
            ServiceTask::StartSettle => match reply {
                Reply::Completed => self.query(ServiceTask::StartVerify),
                _ => failed(ServiceError::UnexpectedReply),
            },
            ServiceTask::StartVerify => match self.health(reply) {
                Some(status) => reported(status),
                None => failed(ServiceError::UnexpectedReply),
            },
            ServiceTask::RestartStop => match reply {
                Reply::Completed => self.probe(ServiceTask::RestartProbe),
                Reply::Failed { .. } => self.probe(ServiceTask::RestartProbe),
                _ => failed(ServiceError::UnexpectedReply),
            },
            ServiceTask::RestartProbe => match reply {
                Reply::Port { available } => {
                    if available {
                        self.start_service()
                    } else {
                        let first = PortScan::begin(self.min_port, self.max_port);
                        self.scan(first, ScanPurpose::Relocate)
                    }
                },
                _ => failed(ServiceError::UnexpectedReply),
            },
        }
    }
}

impl ServiceTask {
    /// Whether the task is part of a start or a restart.
    pub fn is_starting(self) -> (starting: bool)
        ensures
            starting == self.starts(),
    {
        match self {
            ServiceTask::Scanning { purpose, .. } => match purpose {
                ScanPurpose::Find => false,
                _ => true,
            },
            ServiceTask::CheckHealth => false,
            ServiceTask::Stop => false,
            _ => true,
        }
    }

    /// The task is one that an operation on the supervisor `m` hands out:
    /// a scan stays inside the range, and a process is owned exactly
    /// between its launch and the next stop.
    pub open spec fn fits(self, m: ManagerView) -> bool {
        match self {
            ServiceTask::Scanning { scan, purpose } => {
                &&& m.min_port <= scan.port <= scan.last
                &&& scan.last == m.max_port
                &&& purpose == ScanPurpose::Relocate ==> m.process is None
            },
            ServiceTask::StartClear => m.process is None,
            ServiceTask::StartSpawn => m.process is None,
            ServiceTask::StartSettle => m.process is Some,
            ServiceTask::StartVerify => m.process is Some,
            ServiceTask::RestartStop => m.process is None,
            ServiceTask::RestartProbe => m.process is None,
            _ => true,
        }
    }

    /// The task is part of a start or a restart.
    pub open spec fn starts(self) -> bool {
        match self {
            ServiceTask::Scanning { purpose, .. } => purpose != ScanPurpose::Find,
            ServiceTask::CheckHealth => false,
            ServiceTask::Stop => false,
            _ => true,
        }
    }

    /// An upper bound on the replies that the operation still takes.
    pub open spec fn steps_left(self, m: ManagerView) -> nat {
        match self {
            ServiceTask::Scanning { scan, purpose } => crate::ports::probes_left(
                ScanStep::Probe(scan),
            ) + if purpose == ScanPurpose::Relocate {
                start_bound(m)
            } else {
                0
            },
            ServiceTask::CheckHealth => 1,
            ServiceTask::Stop => 1,
            ServiceTask::StartProbe => start_bound(m),
            ServiceTask::StartClear => 4,
            ServiceTask::StartSpawn => 3,
            ServiceTask::StartSettle => 2,
            ServiceTask::StartVerify => 1,
            ServiceTask::RestartStop => restart_bound(m),
            ServiceTask::RestartProbe => (restart_bound(m) - 1) as nat,
        }
    }
}

/// Number of ports in the range of `m`.
pub open spec fn range_size(m: ManagerView) -> nat {
    if m.min_port <= m.max_port {
        (m.max_port - m.min_port + 1) as nat
    } else {
        0
    }
}

/// Replies that a start takes at most: the probe of the current port, and
/// then either a scan of the range or stop, launch, delay and status query.
pub open spec fn start_bound(m: ManagerView) -> nat {
    range_size(m) + 5
}

/// Replies that a restart takes at most: stop, probe, a scan of the range, and a start.
pub open spec fn restart_bound(m: ManagerView) -> nat {
    2 + range_size(m) + start_bound(m)
}

/// `next` is a step of an operation on a well-formed supervisor.
pub open spec fn step_fits(next: (ManagerView, ServiceStepView)) -> bool {
    &&& next.0.well_formed()
    &&& next.1 matches ServiceStepView::Ask(_, task) ==> task.fits(next.0)
}

/// Every operation begins with a step that fits the supervisor, and leaves
/// the range as it was.
pub proof fn lemma_operations_fit(m: ManagerView)
    requires
        m.well_formed(),
    ensures
        step_fits(m.find_available_port()),
        step_fits(m.check_service_health()),
        step_fits(m.stop_service()),
        step_fits(m.start_service()),
        step_fits(m.restart_service()),
{
}

/// Resuming a fitting task gives a fitting step: the range invariant and
/// the bookkeeping of the process survive every reply.
pub proof fn lemma_resume_fits(m: ManagerView, task: ServiceTask, reply: ReplyView)
    requires
        m.well_formed(),
        task.fits(m),
    ensures
        step_fits(m.resume(task, reply)),
{
}

/// No step of the supervisor touches the bounds of the range or the paths.
pub proof fn lemma_resume_keeps_configuration(m: ManagerView, task: ServiceTask, reply: ReplyView)
    ensures
        m.resume(task, reply).0.min_port == m.min_port,
        m.resume(task, reply).0.max_port == m.max_port,
        m.resume(task, reply).0.driver_path == m.driver_path,
        m.resume(task, reply).0.browser_path == m.browser_path,
{
}

/// Exclusive ownership. Across any step the supervisor either keeps its
/// process, or lets go of it in the very step that asks for its end, or
/// adopts the process that the host has just launched, and that only when
/// it owned none. A launch is asked for only by a supervisor that owns no
/// process. So no two processes are ever owned at once, and none is dropped
/// without a request to end it.
pub proof fn lemma_exclusive_ownership(m: ManagerView, task: ServiceTask, reply: ReplyView)
    requires
        task.fits(m),
    ensures
        ({
            let (after, step) = m.resume(task, reply);
            &&& {
                ||| after.process == m.process
                ||| m.process is Some && after.process is None && step
                    == ServiceStepView::Ask(
                    RequestView::KillProcess { pid: m.process->0 },
                    step->Ask_1,
                )
                ||| m.process is None && reply is Spawned && after.process == Some(reply->pid)
            }
            &&& step matches ServiceStepView::Ask(RequestView::SpawnDriver { .. }, _)
                ==> after.process is None
        }),
{
}

/// A restart begins by letting go of the owned process, asking for its end.
pub proof fn lemma_restart_releases(m: ManagerView)
    ensures
        m.restart_service().0.process is None,
        m.process matches Some(pid) ==> m.restart_service().1 == ServiceStepView::Ask(
            RequestView::KillProcess { pid },
            ServiceTask::RestartStop,
        ),
        m.stop_service().0.process is None,
        m.process matches Some(pid) ==> m.stop_service().1 == ServiceStepView::Ask(
            RequestView::KillProcess { pid },
            ServiceTask::Stop,
        ),
{
}

/// A start or restart that reports a healthy service owns the process it launched.
pub proof fn lemma_healthy_service_has_process(m: ManagerView, task: ServiceTask, reply: ReplyView)
    requires
        task.fits(m),
        task.starts(),
    ensures
        ({
            let (after, step) = m.resume(task, reply);
            &&& step matches ServiceStepView::Done(ServiceOutcomeView::Status(status)) ==> (
            status.is_healthy ==> after.process is Some && status.port == after.current_port)
            &&& step matches ServiceStepView::Ask(_, next) ==> next.starts()
            &&& !(step matches ServiceStepView::Done(ServiceOutcomeView::PortFound(_)))
            &&& !(step matches ServiceStepView::Done(ServiceOutcomeView::Stopped))
        }),
{
}

/// Every reply brings an operation closer to its end.
pub proof fn lemma_resume_makes_progress(m: ManagerView, task: ServiceTask, reply: ReplyView)
    ensures
        m.resume(task, reply).1 matches ServiceStepView::Ask(_, next) ==> next.steps_left(
            m.resume(task, reply).0,
        ) < task.steps_left(m),
{
    lemma_resume_keeps_configuration(m, task, reply);
}

/// Every snapshot that an operation ends with is fully populated: healthy
/// without a message, or unhealthy with one, and for the current port.
pub proof fn lemma_reported_status_is_well_formed(
    m: ManagerView,
    task: ServiceTask,
    reply: ReplyView,
)
    ensures
        m.resume(task, reply).1 matches ServiceStepView::Done(ServiceOutcomeView::Status(status))
            ==> status.well_formed() && status.port == m.resume(task, reply).0.current_port,
{
}

/// A port search has no effect on the supervisor: whatever the probes
/// answer, port, range and process stay as they were.
pub proof fn lemma_search_changes_nothing(m: ManagerView, scan: PortScan, reply: ReplyView)
    ensures
        m.find_available_port().0 == m,
        m.resume(ServiceTask::Scanning { scan, purpose: ScanPurpose::Find }, reply).0 == m,
{
}

} // verus!
