//! The browser engine: a session on top of the supervised driver, and the
//! fetch of a rendered page with one restart and one retry at most.
//!
//! Like the supervisor it is a state machine: every operation returns an
//! [`EngineStep`], and the host resumes the task of a step with its reply.

use vstd::prelude::*;
use vstd::string::*;
use crate::browser_service_manager::{
    healthy_status, lemma_healthy_service_has_process, lemma_resume_fits, new_manager, server_url,
    server_url_text, BrowserServiceManager, ManagerView, ServiceError, ServiceErrorView,
    ServiceOutcome, ServiceOutcomeView, ServiceStep, ServiceStepView, ServiceTask, PORT_RANGE_SPAN,
};
use crate::host::{Reply, ReplyView, Request, RequestView};
use crate::text::{decimal, decimal_text, join};
use crate::status::{
    engine_report, BrowserEngineStatus, BrowserEngineStatusView, ServiceStatus, ServiceStatusView,
};

verus! {

/// Seconds granted to a page to finish rendering after navigation.
pub const RENDER_SETTLE_SECONDS: u64 = 2;

/// Navigations that one fetch may attempt.
pub const NAVIGATION_BUDGET: u8 = 2;

/// Restarts that one fetch may trigger.
pub const RESTART_BUDGET: u8 = 1;

/// The part of the pipeline in which an operation failed.
#[derive(Debug, Clone, Copy, PartialEq, Eq)]
pub enum Phase {
    PortAllocation,
    ProcessStart,
    SessionOpen,
    Navigation,
    Protocol,
}

/// Why an engine operation failed.
#[derive(Debug, PartialEq, Eq)]
pub enum EngineError {
    /// Every port of the range was probed and none was free.
    NoPortAvailable { min: u16, max: u16 },
    /// The driver binary could not be launched.
    SpawnFailed { reason: String },
    /// The first start of the service left it unhealthy.
    StartFailed { message: String },
    /// The service was still unhealthy after the fallback restart.
    FallbackFailed { message: String },
    /// A restart left the service unhealthy.
    ServiceUnavailable { message: String },
    /// The service is up but no session could be opened.
    SessionOpenFailed { reason: String },
    /// The page could not be loaded or read, on a fresh session too.
    NavigationFailed { reason: String },
    /// The operation needs a session and none is open.
    SessionClosed,
    /// The active window could not be closed.
    CloseFailed { reason: String },
    /// The host answered with a reply that does not fit the request.
    UnexpectedReply,
    /// The task does not belong to the engine as it now is.
    StaleTask,
}

/// Mathematical value of an [`EngineError`].
pub enum EngineErrorView {
    NoPortAvailable { min: u16, max: u16 },
    SpawnFailed { reason: Seq<char> },
    StartFailed { message: Seq<char> },
    FallbackFailed { message: Seq<char> },
    ServiceUnavailable { message: Seq<char> },
    SessionOpenFailed { reason: Seq<char> },
    NavigationFailed { reason: Seq<char> },
    SessionClosed,
    CloseFailed { reason: Seq<char> },
    UnexpectedReply,
    StaleTask,
}

impl View for EngineError {
    type V = EngineErrorView;

    open spec fn view(&self) -> EngineErrorView {
        match *self {
            EngineError::NoPortAvailable { min, max } => EngineErrorView::NoPortAvailable {
                min,
                max,
            },
            EngineError::SpawnFailed { reason } => EngineErrorView::SpawnFailed { reason: reason@ },
            EngineError::StartFailed { message } => EngineErrorView::StartFailed {
                message: message@,
            },
            EngineError::FallbackFailed { message } => EngineErrorView::FallbackFailed {
                message: message@,
            },
            EngineError::ServiceUnavailable { message } => EngineErrorView::ServiceUnavailable {
                message: message@,
            },
            EngineError::SessionOpenFailed { reason } => EngineErrorView::SessionOpenFailed {
                reason: reason@,
            },
            EngineError::NavigationFailed { reason } => EngineErrorView::NavigationFailed {
                reason: reason@,
            },
            EngineError::SessionClosed => EngineErrorView::SessionClosed,
            EngineError::CloseFailed { reason } => EngineErrorView::CloseFailed { reason: reason@ },
            EngineError::UnexpectedReply => EngineErrorView::UnexpectedReply,
            EngineError::StaleTask => EngineErrorView::StaleTask,
        }
    }
}

impl EngineErrorView {
    /// The phase that the error belongs to.
    pub open spec fn phase(self) -> Phase {
        match self {
            EngineErrorView::NoPortAvailable { .. } => Phase::PortAllocation,
            EngineErrorView::SpawnFailed { .. } => Phase::ProcessStart,
            EngineErrorView::StartFailed { .. } => Phase::ProcessStart,
            EngineErrorView::FallbackFailed { .. } => Phase::ProcessStart,
            EngineErrorView::ServiceUnavailable { .. } => Phase::ProcessStart,
            EngineErrorView::SessionOpenFailed { .. } => Phase::SessionOpen,
            EngineErrorView::SessionClosed => Phase::SessionOpen,
            EngineErrorView::NavigationFailed { .. } => Phase::Navigation,
            EngineErrorView::CloseFailed { .. } => Phase::Navigation,
            EngineErrorView::UnexpectedReply => Phase::Protocol,
            EngineErrorView::StaleTask => Phase::Protocol,
        }
    }
}

/// What is said of a failed operation.
pub open spec fn description(error: EngineErrorView) -> Seq<char> {
    match error {
        EngineErrorView::NoPortAvailable { min, max } => "No available ports found in range "@
            + decimal(min as nat) + "-"@ + decimal(max as nat),
        EngineErrorView::SpawnFailed { reason } =>
            "Failed to start chromedriver. Is it in your PATH? Error: "@ + reason,
        EngineErrorView::StartFailed { message } => "Failed to start browser service: "@ + message,
        EngineErrorView::FallbackFailed { message } =>
            "Failed to start browser service after fallback: "@ + message,
        EngineErrorView::ServiceUnavailable { message } => "Failed to restart service: "@
            + message,
        EngineErrorView::SessionOpenFailed { reason } => "Failed to create WebDriver: "@ + reason,
        EngineErrorView::NavigationFailed { reason } => reason,
        EngineErrorView::SessionClosed =>
            "Browser has been shut down and is no longer available."@,
        EngineErrorView::CloseFailed { reason } => reason,
        EngineErrorView::UnexpectedReply => "The host gave a reply that does not fit the request"@,
        EngineErrorView::StaleTask => "The task does not belong to the engine as it now is"@,
    }
}

/// The engine's error for an error of the supervisor.
pub open spec fn from_service_error(error: ServiceErrorView) -> EngineErrorView {
    match error {
        ServiceErrorView::NoPortAvailable { min, max } => EngineErrorView::NoPortAvailable {
            min,
            max,
        },
        ServiceErrorView::SpawnFailed { reason } => EngineErrorView::SpawnFailed { reason },
        ServiceErrorView::UnexpectedReply => EngineErrorView::UnexpectedReply,
        ServiceErrorView::StaleTask => EngineErrorView::StaleTask,
    }
}

/// Message of an unhealthy snapshot that carries none.
pub open spec fn unknown_message() -> Seq<char> {
    "Unknown error"@
}

/// The message of a snapshot, for an error that is built from it.
pub open spec fn status_message(status: ServiceStatusView) -> Seq<char> {
    match status.error_message {
        Some(message) => message,
        None => unknown_message(),
    }
}

/// Which of its navigations a fetch is at.
#[derive(Debug, Clone, Copy, PartialEq, Eq)]
pub enum Attempt {
    /// On the session that was open when the fetch began.
    First,
    /// On the fresh session after the restart.
    Retry,
}

/// What a start or restart is for.
#[derive(Debug, PartialEq, Eq)]
pub enum Goal {
    /// The creation of the engine: report the status, and on failure let
    /// go of the process, for no engine is left to own it.
    Created,
    /// The restart itself: report the status.
    Ready,
    /// A fetch: load this address on the fresh session.
    Fetch { url: String },
}

/// Mathematical value of a [`Goal`].
pub enum GoalView {
    Created,
    Ready,
    Fetch { url: Seq<char> },
}

impl View for Goal {
    type V = GoalView;

    open spec fn view(&self) -> GoalView {
        match *self {
            Goal::Created => GoalView::Created,
            Goal::Ready => GoalView::Ready,
            Goal::Fetch { url } => GoalView::Fetch { url: url@ },
        }
    }
}

/// What the engine wants from the supervisor operation it is waiting for.
#[derive(Debug, PartialEq, Eq)]
pub enum Purpose {
    /// Creation: the first start.
    Create,
    /// Creation with fallback: the first start, to be followed by a restart if it fails.
    CreateWithFallback,
    /// Creation with fallback: the restart after a failed first start.
    CreateAfterRestart,
    /// A restart.
    Restart(Goal),
    /// A health report.
    Report,
    /// The end of the process at shutdown.
    Shutdown,
}

/// Mathematical value of a [`Purpose`].
pub enum PurposeView {
    Create,
    CreateWithFallback,
    CreateAfterRestart,
    Restart(GoalView),
    Report,
    Shutdown,
}

impl View for Purpose {
    type V = PurposeView;

    open spec fn view(&self) -> PurposeView {
        match *self {
            Purpose::Create => PurposeView::Create,
            Purpose::CreateWithFallback => PurposeView::CreateWithFallback,
            Purpose::CreateAfterRestart => PurposeView::CreateAfterRestart,
            Purpose::Restart(goal) => PurposeView::Restart(goal@),
            Purpose::Report => PurposeView::Report,
            Purpose::Shutdown => PurposeView::Shutdown,
        }
    }
}

impl PurposeView {
    /// Supervisor operations that may still follow the one that serves this purpose.
    pub open spec fn rank(self) -> nat {
        match self {
            PurposeView::CreateWithFallback => 1,
            _ => 0,
        }
    }

    /// What the session is for that is opened once the service is healthy.
    pub open spec fn goal(self) -> GoalView {
        match self {
            PurposeView::Create => GoalView::Created,
            PurposeView::CreateWithFallback => GoalView::Created,
            PurposeView::CreateAfterRestart => GoalView::Created,
            PurposeView::Restart(goal) => goal,
            _ => GoalView::Ready,
        }
    }

    /// The error for a service that the operation left unhealthy.
    pub open spec fn unhealthy(self, message: Seq<char>) -> EngineErrorView {
        match self {
            PurposeView::Create => EngineErrorView::StartFailed { message },
            PurposeView::CreateWithFallback => EngineErrorView::FallbackFailed { message },
            PurposeView::CreateAfterRestart => EngineErrorView::FallbackFailed { message },
            _ => EngineErrorView::ServiceUnavailable { message },
        }
    }
}

/// Where an operation of the engine stands while the host works.
#[derive(Debug, PartialEq, Eq)]
pub enum EngineTask {
    /// An operation of the supervisor is under way.
    Service { task: ServiceTask, purpose: Purpose },
    /// The session is being closed before a restart.
    Closing { goal: Goal },
    /// The process of a failed creation is being ended.
    Abandoning { error: EngineError },
    /// A session is being opened against the service on `port`.
    Opening { port: u16, goal: Goal },
    /// The page is loading.
    Navigating { url: String, attempt: Attempt },
    /// The page is given time to render.
    Rendering { url: String, attempt: Attempt },
    /// The document source is being read.
    Reading { url: String, attempt: Attempt },
    /// The active window is being closed.
    ClosingTab,
    /// The session is being ended at shutdown.
    Quitting,
}

/// Mathematical value of an [`EngineTask`].
pub enum EngineTaskView {
    Service { task: ServiceTask, purpose: PurposeView },
    Closing { goal: GoalView },
    Abandoning { error: EngineErrorView },
    Opening { port: u16, goal: GoalView },
    Navigating { url: Seq<char>, attempt: Attempt },
    Rendering { url: Seq<char>, attempt: Attempt },
    Reading { url: Seq<char>, attempt: Attempt },
    ClosingTab,
    Quitting,
}

impl View for EngineTask {
    type V = EngineTaskView;

    open spec fn view(&self) -> EngineTaskView {
        match *self {
            EngineTask::Service { task, purpose } => EngineTaskView::Service {
                task,
                purpose: purpose@,
            },
            EngineTask::Closing { goal } => EngineTaskView::Closing { goal: goal@ },
            EngineTask::Abandoning { error } => EngineTaskView::Abandoning { error: error@ },
            EngineTask::Opening { port, goal } => EngineTaskView::Opening { port, goal: goal@ },
            EngineTask::Navigating { url, attempt } => EngineTaskView::Navigating {
                url: url@,
                attempt,
            },
            EngineTask::Rendering { url, attempt } => EngineTaskView::Rendering {
                url: url@,
                attempt,
            },
            EngineTask::Reading { url, attempt } => EngineTaskView::Reading { url: url@, attempt },
            EngineTask::ClosingTab => EngineTaskView::ClosingTab,
            EngineTask::Quitting => EngineTaskView::Quitting,
        }
    }
}

/// How an engine operation ended.
#[derive(Debug, PartialEq, Eq)]
pub enum EngineOutcome {
    /// Service and session are up; the snapshot is that of the service.
    Ready(ServiceStatus),
    /// The rendered page.
    Page(String),
    /// The health report.
    Report(BrowserEngineStatus),
    /// The active window was closed.
    TabClosed,
    /// Session and process are ended.
    ShutDown,
    /// The operation failed.
    Failed(EngineError),
}

/// Mathematical value of an [`EngineOutcome`].
pub enum EngineOutcomeView {
    Ready(ServiceStatusView),
    Page(Seq<char>),
    Report(BrowserEngineStatusView),
    TabClosed,
    ShutDown,
    Failed(EngineErrorView),
}

impl View for EngineOutcome {
    type V = EngineOutcomeView;

    open spec fn view(&self) -> EngineOutcomeView {
        match *self {
            EngineOutcome::Ready(status) => EngineOutcomeView::Ready(status@),
            EngineOutcome::Page(html) => EngineOutcomeView::Page(html@),
            EngineOutcome::Report(report) => EngineOutcomeView::Report(report@),
            EngineOutcome::TabClosed => EngineOutcomeView::TabClosed,
            EngineOutcome::ShutDown => EngineOutcomeView::ShutDown,
            EngineOutcome::Failed(error) => EngineOutcomeView::Failed(error@),
        }
    }
}

/// One step of an engine operation.
#[derive(Debug, PartialEq, Eq)]
pub enum EngineStep {
    /// The host carries out the request and resumes the task with its reply.
    Ask(Request, EngineTask),
    /// The operation is over.
    Done(EngineOutcome),
}

/// Mathematical value of an [`EngineStep`].
pub enum EngineStepView {
    Ask(RequestView, EngineTaskView),
    Done(EngineOutcomeView),
}

impl View for EngineStep {
    type V = EngineStepView;

    open spec fn view(&self) -> EngineStepView {
        match *self {
            EngineStep::Ask(request, task) => EngineStepView::Ask(request@, task@),
            EngineStep::Done(outcome) => EngineStepView::Done(outcome@),
        }
    }
}

/// The four conditions that an engine can be in.
#[derive(Debug, Clone, Copy, PartialEq, Eq)]
pub enum EngineState {
    /// Neither process nor session.
    Uninitialized,
    /// A process without a session.
    ProcessOnly,
    /// Process and session, and no failed health check since the session was opened.
    Ready,
    /// A session whose last health check failed.
    Degraded,
}

/// A browser session on top of a supervised driver process.
#[derive(Debug)]
pub struct BrowserEngine {
    service_manager: BrowserServiceManager,
    session_open: bool,
    degraded: bool,
}

/// Mathematical value of a [`BrowserEngine`].
pub struct EngineView {
    pub manager: ManagerView,
    /// A session is open.
    pub session_open: bool,
    /// The last health check since the session was opened failed.
    pub degraded: bool,
}

impl View for BrowserEngine {
    type V = EngineView;

    closed spec fn view(&self) -> EngineView {
        EngineView {
            manager: self.service_manager@,
            session_open: self.session_open,
            degraded: self.degraded,
        }
    }
}

impl EngineView {
    /// The current port lies in the range, and a session has a process under it.
    pub open spec fn well_formed(self) -> bool {
        &&& self.manager.well_formed()
        &&& self.session_open ==> self.manager.process is Some
    }

    /// The condition that the engine is in.
    pub open spec fn state(self) -> EngineState {
        if self.session_open {
            if self.degraded {
                EngineState::Degraded
            } else {
                EngineState::Ready
            }
        } else if self.manager.process is Some {
            EngineState::ProcessOnly
        } else {
            EngineState::Uninitialized
        }
    }

    /// The step that fails an operation.
    pub open spec fn fail(self, error: EngineErrorView) -> (EngineView, EngineStepView) {
        (self, EngineStepView::Done(EngineOutcomeView::Failed(error)))
    }

    /// The step that asks for a session against the service on `port`.
    pub open spec fn open(self, port: u16, goal: GoalView) -> (EngineView, EngineStepView) {
        (
            self,
            EngineStepView::Ask(
                RequestView::OpenSession {
                    server_url: server_url(self.manager.current_port),
                    browser_path: self.manager.browser_path,
                },
                EngineTaskView::Opening { port, goal },
            ),
        )
    }

    /// The step that asks for the page to be loaded.
    pub open spec fn navigate(self, url: Seq<char>, attempt: Attempt) -> (
        EngineView,
        EngineStepView,
    ) {
        (
            self,
            EngineStepView::Ask(
                RequestView::Navigate { url },
                EngineTaskView::Navigating { url, attempt },
            ),
        )
    }

    /// What follows the outcome of a restart, or of a start that is not followed by one.
    pub open spec fn started(self, outcome: ServiceOutcomeView, purpose: PurposeView) -> (
        EngineView,
        EngineStepView,
    ) {
        match outcome {
            ServiceOutcomeView::Status(status) => if status.is_healthy {
                self.open(status.port, purpose.goal())
            } else {
                self.give_up(purpose.goal() is Created, purpose.unhealthy(status_message(status)))
            },
            ServiceOutcomeView::Failed(error) => self.give_up(
                purpose.goal() is Created,
                from_service_error(error),
            ),
            _ => self.give_up(purpose.goal() is Created, EngineErrorView::UnexpectedReply),
        }
    }

    /// The step that fails a start or restart. A creation that fails lets
    /// go of the process it launched and asks for its end first; after a
    /// failed restart the engine keeps what it owns for the next call.
    pub open spec fn give_up(self, creating: bool, error: EngineErrorView) -> (
        EngineView,
        EngineStepView,
    ) {
        if creating && self.manager.process is Some {
            (
                EngineView { manager: ManagerView { process: None, ..self.manager }, ..self },
                EngineStepView::Ask(
                    RequestView::KillProcess { pid: self.manager.process->0 },
                    EngineTaskView::Abandoning { error },
                ),
            )
        } else {
            self.fail(error)
        }
    }

    /// What follows the outcome of the supervisor operation that served `purpose`.
    pub open spec fn settle(self, outcome: ServiceOutcomeView, purpose: PurposeView) -> (
        EngineView,
        EngineStepView,
    )
        decreases purpose.rank(), 0nat,
    {
        match purpose {
            PurposeView::Create => self.started(outcome, purpose),
            PurposeView::CreateWithFallback => match outcome {
                ServiceOutcomeView::Status(status) if status.is_healthy => self.open(
                    status.port,
                    GoalView::Created,
                ),
                _ => self.wrap(self.manager.restart_service(), PurposeView::CreateAfterRestart),
            },
            PurposeView::CreateAfterRestart => self.started(outcome, purpose),
            PurposeView::Restart(_) => self.started(outcome, purpose),
            PurposeView::Report => match outcome {
                ServiceOutcomeView::Status(status) => (
                    EngineView { degraded: self.session_open && !status.is_healthy, ..self },
                    EngineStepView::Done(
                        EngineOutcomeView::Report(engine_report(status, self.session_open)),
                    ),
                ),
                ServiceOutcomeView::Failed(error) => self.fail(from_service_error(error)),
                _ => self.fail(EngineErrorView::UnexpectedReply),
            },
            PurposeView::Shutdown => match outcome {
                ServiceOutcomeView::Stopped => (
                    self,
                    EngineStepView::Done(EngineOutcomeView::ShutDown),
                ),
                ServiceOutcomeView::Failed(error) => self.fail(from_service_error(error)),
                _ => self.fail(EngineErrorView::UnexpectedReply),
            },
        }
    }

    /// The engine's step for a step of the supervisor made to serve `purpose`.
    pub open spec fn wrap(self, inner: (ManagerView, ServiceStepView), purpose: PurposeView) -> (
        EngineView,
        EngineStepView,
    )
        decreases purpose.rank(), 1nat,
    {
        let engine = EngineView { manager: inner.0, ..self };
        match inner.1 {
            ServiceStepView::Ask(request, task) => (
                engine,
                EngineStepView::Ask(request, EngineTaskView::Service { task, purpose }),
            ),
            ServiceStepView::Done(outcome) => engine.settle(outcome, purpose),
        }
    }

    /// First step of a creation: the service is started to serve `purpose`.
    pub open spec fn create(self, purpose: PurposeView) -> (EngineView, EngineStepView) {
        self.wrap(self.manager.start_service(), purpose)
    }

    /// First step of a restart: a session, if open, is closed first, as
    /// well as that can be done.
    pub open spec fn restart(self, goal: GoalView) -> (EngineView, EngineStepView) {
        if self.session_open {
            (
                EngineView { session_open: false, degraded: false, ..self },
                EngineStepView::Ask(RequestView::QuitSession, EngineTaskView::Closing { goal }),
            )
        } else {
            self.wrap(self.manager.restart_service(), PurposeView::Restart(goal))
        }
    }

    /// First step of a restart of service and session.
    pub open spec fn restart_with_fallback(self) -> (EngineView, EngineStepView) {
        self.restart(GoalView::Ready)
    }

    /// First step of a health report.
    pub open spec fn check_service_status(self) -> (EngineView, EngineStepView) {
        self.wrap(self.manager.check_service_health(), PurposeView::Report)
    }

    /// First step of a fetch.
    pub open spec fn get_page_source(self, url: Seq<char>) -> (EngineView, EngineStepView) {
        if self.session_open {
            self.navigate(url, Attempt::First)
        } else {
            self.restart(GoalView::Fetch { url })
        }
    }

    /// First step of closing the active window.
    pub open spec fn close_current_tab(self) -> (EngineView, EngineStepView) {
        if self.session_open {
            (self, EngineStepView::Ask(RequestView::CloseWindow, EngineTaskView::ClosingTab))
        } else {
            self.fail(EngineErrorView::SessionClosed)
        }
    }

    /// First step of a shutdown: the session goes first, then the process.
    pub open spec fn shutdown(self) -> (EngineView, EngineStepView) {
        if self.session_open {
            (
                EngineView { session_open: false, degraded: false, ..self },
                EngineStepView::Ask(RequestView::QuitSession, EngineTaskView::Quitting),
            )
        } else {
            self.wrap(self.manager.stop_service(), PurposeView::Shutdown)
        }
    }

    /// What follows a failure of loading or reading the page.
    pub open spec fn navigation_failed(self, url: Seq<char>, attempt: Attempt, reason: Seq<char>) -> (
        EngineView,
        EngineStepView,
    ) {
        match attempt {
            Attempt::First => self.restart(GoalView::Fetch { url }),
            Attempt::Retry => self.fail(EngineErrorView::NavigationFailed { reason }),
        }
    }

    /// The step that follows the host's reply to the request of `task`. A
    /// task that does not fit the engine is rejected, and nothing changes.
    pub open spec fn resume(self, task: EngineTaskView, reply: ReplyView) -> (
        EngineView,
        EngineStepView,
    ) {
        if task.fits(self) {
            self.proceed(task, reply)
        } else {
            self.fail(EngineErrorView::StaleTask)
        }
    }

    /// The step that follows the host's reply to the request of a fitting `task`.
    pub open spec fn proceed(self, task: EngineTaskView, reply: ReplyView) -> (
        EngineView,
        EngineStepView,
    ) {
        match task {
            EngineTaskView::Service { task, purpose } => self.wrap(
                self.manager.resume(task, reply),
                purpose,
            ),
            EngineTaskView::Closing { goal } => if reply.is_acknowledgement() {
                self.wrap(self.manager.restart_service(), PurposeView::Restart(goal))
            } else {
                self.fail(EngineErrorView::UnexpectedReply)
            },
            EngineTaskView::Abandoning { error } => if reply.is_acknowledgement() {
                self.fail(error)
            } else {
                self.fail(EngineErrorView::UnexpectedReply)
            },
            EngineTaskView::Opening { port, goal } => match reply {
                ReplyView::Completed => {
                    let engine = EngineView { session_open: true, degraded: false, ..self };
                    match goal {
                        GoalView::Fetch { url } => engine.navigate(url, Attempt::Retry),
                        _ => (
                            engine,
                            EngineStepView::Done(EngineOutcomeView::Ready(healthy_status(port))),
                        ),
                    }
                },
                ReplyView::Failed { reason } => self.give_up(
                    goal is Created,
                    EngineErrorView::SessionOpenFailed { reason },
                ),
                _ => self.give_up(goal is Created, EngineErrorView::UnexpectedReply),
            },
            EngineTaskView::Navigating { url, attempt } => match reply {
                ReplyView::Completed => (
                    self,
                    EngineStepView::Ask(
                        RequestView::Settle { seconds: RENDER_SETTLE_SECONDS },
                        EngineTaskView::Rendering { url, attempt },
                    ),
                ),
                ReplyView::Failed { reason } => self.navigation_failed(url, attempt, reason),
                _ => self.fail(EngineErrorView::UnexpectedReply),
            },
            EngineTaskView::Rendering { url, attempt } => match reply {
                ReplyView::Completed => (
                    self,
                    EngineStepView::Ask(
                        RequestView::ReadSource,
                        EngineTaskView::Reading { url, attempt },
                    ),
                ),
                _ => self.fail(EngineErrorView::UnexpectedReply),
            },
            EngineTaskView::Reading { url, attempt } => match reply {
                ReplyView::PageSource { html } => (
                    self,
                    EngineStepView::Done(EngineOutcomeView::Page(html)),
                ),
                ReplyView::Failed { reason } => self.navigation_failed(url, attempt, reason),
                _ => self.fail(EngineErrorView::UnexpectedReply),
            },
            EngineTaskView::ClosingTab => match reply {
                ReplyView::Completed => (
                    self,
                    EngineStepView::Done(EngineOutcomeView::TabClosed),
                ),
                ReplyView::Failed { reason } => self.fail(EngineErrorView::CloseFailed { reason }),
                _ => self.fail(EngineErrorView::UnexpectedReply),
            },
            EngineTaskView::Quitting => if reply.is_acknowledgement() {
                self.wrap(self.manager.stop_service(), PurposeView::Shutdown)
            } else {
                self.fail(EngineErrorView::UnexpectedReply)
            },
        }
    }
}

/// The engine before anything is started.
pub open spec fn fresh_engine(manager: ManagerView) -> EngineView {
    EngineView { manager, session_open: false, degraded: false }
}

impl EngineError {
    /// The phase that the error belongs to.
    pub fn phase(&self) -> (phase: Phase)
        ensures
            phase == self@.phase(),
    {
        match self {
            EngineError::NoPortAvailable { .. } => Phase::PortAllocation,
            EngineError::SpawnFailed { .. } => Phase::ProcessStart,
            EngineError::StartFailed { .. } => Phase::ProcessStart,
            EngineError::FallbackFailed { .. } => Phase::ProcessStart,
            EngineError::ServiceUnavailable { .. } => Phase::ProcessStart,
            EngineError::SessionOpenFailed { .. } => Phase::SessionOpen,
            EngineError::SessionClosed => Phase::SessionOpen,
            EngineError::NavigationFailed { .. } => Phase::Navigation,
            EngineError::CloseFailed { .. } => Phase::Navigation,
            EngineError::UnexpectedReply => Phase::Protocol,
            EngineError::StaleTask => Phase::Protocol,
        }
    }

    /// Says what went wrong.
    pub fn describe(&self) -> (text: String)
        ensures
            text@ == description(self@),
    {
        match self {
            EngineError::NoPortAvailable { min, max } => {
                let low = decimal_text(*min as u64);
                let high = decimal_text(*max as u64);
                let mut text = join("No available ports found in range ", low.as_str());
                text.append("-");
                text.append(high.as_str());
                text
            },
            EngineError::SpawnFailed { reason } => join(
                "Failed to start chromedriver. Is it in your PATH? Error: ",
                reason.as_str(),
            ),
            EngineError::StartFailed { message } => join(
                "Failed to start browser service: ",
                message.as_str(),
            ),
            EngineError::FallbackFailed { message } => join(
                "Failed to start browser service after fallback: ",
                message.as_str(),
            ),
            EngineError::ServiceUnavailable { message } => join(
                "Failed to restart service: ",
                message.as_str(),
            ),
            EngineError::SessionOpenFailed { reason } => join(
                "Failed to create WebDriver: ",
                reason.as_str(),
            ),
            EngineError::NavigationFailed { reason } => reason.clone(),
            EngineError::SessionClosed => String::from_str(
                "Browser has been shut down and is no longer available.",
            ),
            EngineError::CloseFailed { reason } => reason.clone(),
            EngineError::UnexpectedReply => String::from_str(
                "The host gave a reply that does not fit the request",
            ),
            EngineError::StaleTask => String::from_str(
                "The task does not belong to the engine as it now is",
            ),
        }
    }
}

fn failed(error: EngineError) -> (step: EngineStep)
    ensures
        step@ == EngineStepView::Done(EngineOutcomeView::Failed(error@)),
{
    EngineStep::Done(EngineOutcome::Failed(error))
}

fn convert(error: ServiceError) -> (converted: EngineError)
    ensures
        converted@ == from_service_error(error@),
{
    match error {
        ServiceError::NoPortAvailable { min, max } => EngineError::NoPortAvailable { min, max },
        ServiceError::SpawnFailed { reason } => EngineError::SpawnFailed { reason },
        ServiceError::UnexpectedReply => EngineError::UnexpectedReply,
        ServiceError::StaleTask => EngineError::StaleTask,
    }
}

fn status_message_text(status: ServiceStatus) -> (message: String)
    ensures
        message@ == status_message(status@),
{
    match status.error_message {
        Some(message) => message,
        None => String::from_str("Unknown error"),
    }
}

fn unhealthy_error(purpose: Purpose, message: String) -> (error: EngineError)
    ensures
        error@ == purpose@.unhealthy(message@),
{
    match purpose {
        Purpose::Create => EngineError::StartFailed { message },
        Purpose::CreateWithFallback => EngineError::FallbackFailed { message },
        Purpose::CreateAfterRestart => EngineError::FallbackFailed { message },
        _ => EngineError::ServiceUnavailable { message },
    }
}

fn goal_of(purpose: Purpose) -> (goal: Goal)
    ensures
        goal@ == purpose@.goal(),
{
    match purpose {
        Purpose::Create => Goal::Created,
        Purpose::CreateWithFallback => Goal::Created,
        Purpose::CreateAfterRestart => Goal::Created,
        Purpose::Restart(goal) => goal,
        _ => Goal::Ready,
    }
}

fn creates(purpose: &Purpose) -> (creating: bool)
    ensures
        creating == (purpose@.goal() is Created),
{
    match purpose {
        Purpose::Create => true,
        Purpose::CreateWithFallback => true,
        Purpose::CreateAfterRestart => true,
        Purpose::Restart(goal) => is_created(goal),
        _ => false,
    }
}

fn is_created(goal: &Goal) -> (created: bool)
    ensures
        created == (goal@ is Created),
{
    match goal {
        Goal::Created => true,
        _ => false,
    }
}

impl BrowserEngine {
    /// Begins the creation of an engine: the service is started on `port`,
    /// and once it is healthy a session is opened. The operation fails if
    /// the first start leaves the service unhealthy.
    pub fn new(port: u16, browser_path: &str, driver_path: &str) -> (created: (
        BrowserEngine,
        EngineStep,
    ))
        requires
            port + PORT_RANGE_SPAN <= u16::MAX,
        ensures
            (created.0@, created.1@) == fresh_engine(
                new_manager(port, driver_path@, browser_path@),
            ).create(PurposeView::Create),
            created.0@.well_formed(),
    {
        proof {
            lemma_fresh_engine(port, driver_path@, browser_path@);
        }
        let mut engine = BrowserEngine {
            service_manager: BrowserServiceManager::new(port, driver_path, browser_path),
            session_open: false,
            degraded: false,
        };
        let inner = engine.service_manager.start_service();
        let step = engine.wrap(inner, Purpose::Create);
        (engine, step)
    }

    /// Begins the creation of an engine that restarts the service once, on
    /// another port if need be, when the first start fails.
    pub fn new_with_fallback(initial_port: u16, browser_path: &str, driver_path: &str) -> (created:
        (BrowserEngine, EngineStep))
        requires
            initial_port + PORT_RANGE_SPAN <= u16::MAX,
        ensures
            (created.0@, created.1@) == fresh_engine(
                new_manager(initial_port, driver_path@, browser_path@),
            ).create(PurposeView::CreateWithFallback),
            created.0@.well_formed(),
    {
        proof {
            lemma_fresh_engine(initial_port, driver_path@, browser_path@);
        }
        let mut engine = BrowserEngine {
            service_manager: BrowserServiceManager::new(initial_port, driver_path, browser_path),
            session_open: false,
            degraded: false,
        };
        let inner = engine.service_manager.start_service();
        let step = engine.wrap(inner, Purpose::CreateWithFallback);
        (engine, step)
    }

    /// The port that the driver is, or will be, bound to.
    pub fn get_current_port(&self) -> (port: u16)
        ensures
            port == self@.manager.current_port,
    {
        self.service_manager.get_current_port()
    }

    /// The condition that the engine is in.
    pub fn state(&self) -> (state: EngineState)
        ensures
            state == self@.state(),
    {
        if self.session_open {
            if self.degraded {
                EngineState::Degraded
            } else {
                EngineState::Ready
            }
        } else if self.service_manager.process_id().is_some() {
            EngineState::ProcessOnly
        } else {
            EngineState::Uninitialized
        }
    }

    /// Whether the engine still owns a session or a process, so that
    /// dropping it now would leave them behind.
    pub fn needs_shutdown(&self) -> (needed: bool)
        ensures
            needed == (self@.state() != EngineState::Uninitialized),
    {
        self.session_open || self.service_manager.process_id().is_some()
    }

    /// Whether a task is one that an operation on this engine hands out.
    pub fn fits(&self, task: &EngineTask) -> (fitting: bool)
        ensures
            fitting == task@.fits(self@),
    {
        match task {
            EngineTask::Service { task, purpose } => {
                self.service_manager.fits(*task) && match purpose {
                    Purpose::Report => match task {
                        ServiceTask::CheckHealth => true,
                        _ => false,
                    },
                    Purpose::Shutdown => !self.session_open && match task {
                        ServiceTask::Stop => true,
                        _ => false,
                    },
                    _ => task.is_starting() && !self.session_open,
                }
            },
            EngineTask::Closing { .. } => !self.session_open,
            EngineTask::Abandoning { .. } => !self.session_open
                && self.service_manager.process_id().is_none(),
            EngineTask::Opening { .. } => !self.session_open
                && self.service_manager.process_id().is_some(),
            EngineTask::Navigating { .. } => self.session_open,
            EngineTask::Rendering { .. } => self.session_open,
            EngineTask::Reading { .. } => self.session_open,
            EngineTask::ClosingTab => self.session_open,
            EngineTask::Quitting => !self.session_open,
        }
    }

    fn open(&self, port: u16, goal: Goal) -> (step: EngineStep)
        ensures
            (self@, step@) == self@.open(port, goal@),
    {
        EngineStep::Ask(
            Request::OpenSession {
                server_url: server_url_text(self.service_manager.get_current_port()),
                browser_path: String::from_str(self.service_manager.browser_path()),
            },
            EngineTask::Opening { port, goal },
        )
    }

    fn navigate(&self, url: String, attempt: Attempt) -> (step: EngineStep)
        ensures
            (self@, step@) == self@.navigate(url@, attempt),
    {
        EngineStep::Ask(
            Request::Navigate { url: url.clone() },
            EngineTask::Navigating { url, attempt },
        )
    }

    fn give_up(&mut self, creating: bool, error: EngineError) -> (step: EngineStep)
        ensures
            (final(self)@, step@) == old(self)@.give_up(creating, error@),
    {
        if creating {
            match self.service_manager.give_up_process() {
                Some(pid) => EngineStep::Ask(
                    Request::KillProcess { pid },
                    EngineTask::Abandoning { error },
                ),
                None => failed(error),
            }
        } else {
            failed(error)
        }
    }

    fn started(&mut self, outcome: ServiceOutcome, purpose: Purpose) -> (step: EngineStep)
        ensures
            (final(self)@, step@) == old(self)@.started(outcome@, purpose@),
    {
        let creating = creates(&purpose);
        match outcome {
            ServiceOutcome::Status(status) => {
                if status.is_healthy {
                    self.open(status.port, goal_of(purpose))
                } else {
                    let error = unhealthy_error(purpose, status_message_text(status));
                    self.give_up(creating, error)
                }
            },
            ServiceOutcome::Failed(error) => self.give_up(creating, convert(error)),
            _ => self.give_up(creating, EngineError::UnexpectedReply),
        }
    }

    fn settle(&mut self, outcome: ServiceOutcome, purpose: Purpose) -> (step: EngineStep)
        ensures
            (final(self)@, step@) == old(self)@.settle(outcome@, purpose@),
        decreases purpose@.rank(), 0nat,
    {
        match purpose {
            Purpose::Create => self.started(outcome, purpose),
            Purpose::CreateWithFallback => {
                match outcome {
                    ServiceOutcome::Status(status) if status.is_healthy => self.open(
                        status.port,
                        Goal::Created,
                    ),
                    _ => {
                        let inner = self.service_manager.restart_service();
                        self.wrap(inner, Purpose::CreateAfterRestart)
                    },
                }
            },
            Purpose::CreateAfterRestart => self.started(outcome, purpose),
            Purpose::Restart(_) => self.started(outcome, purpose),
            Purpose::Report => match outcome {
                ServiceOutcome::Status(status) => {
                    self.degraded = self.session_open && !status.is_healthy;
                    EngineStep::Done(
                        EngineOutcome::Report(
                            BrowserEngineStatus::from_service(status, self.session_open),
                        ),
                    )
                },
                ServiceOutcome::Failed(error) => failed(convert(error)),
                _ => failed(EngineError::UnexpectedReply),
            },
            Purpose::Shutdown => match outcome {
                ServiceOutcome::Stopped => EngineStep::Done(EngineOutcome::ShutDown),
                ServiceOutcome::Failed(error) => failed(convert(error)),
                _ => failed(EngineError::UnexpectedReply),
            },
        }
    }

    fn wrap(&mut self, inner: ServiceStep, purpose: Purpose) -> (step: EngineStep)
        ensures
            (final(self)@, step@) == old(self)@.wrap((old(self)@.manager, inner@), purpose@),
        decreases purpose@.rank(), 1nat,
    {
        match inner {
            ServiceStep::Ask(request, task) => EngineStep::Ask(
                request,
                EngineTask::Service { task, purpose },
            ),
            ServiceStep::Done(outcome) => self.settle(outcome, purpose),
        }
    }

    fn restart(&mut self, goal: Goal) -> (step: EngineStep)
        ensures
            (final(self)@, step@) == old(self)@.restart(goal@),
    {
        if self.session_open {
            self.session_open = false;
            self.degraded = false;
            EngineStep::Ask(Request::QuitSession, EngineTask::Closing { goal })
        } else {
            let inner = self.service_manager.restart_service();
            self.wrap(inner, Purpose::Restart(goal))
        }
    }

    /// Begins a restart of service and session: the session is closed,
    /// the service restarted, and a fresh session opened once it is healthy.
    pub fn restart_with_fallback(&mut self) -> (step: EngineStep)
        ensures
            (final(self)@, step@) == old(self)@.restart_with_fallback(),
            old(self)@.well_formed() ==> final(self)@.well_formed(),
    {
        proof {
            if self@.well_formed() {
                lemma_engine_operations_fit(self@, Seq::empty());
            }
        }
        self.restart(Goal::Ready)
    }

    /// Begins a health report.
    pub fn check_service_status(&mut self) -> (step: EngineStep)
        ensures
            (final(self)@, step@) == old(self)@.check_service_status(),
            old(self)@.well_formed() ==> final(self)@.well_formed(),
    {
        proof {
            if self@.well_formed() {
                lemma_engine_operations_fit(self@, Seq::empty());
            }
        }
        let inner = self.service_manager.check_service_health();
        self.wrap(inner, Purpose::Report)
    }

    /// Begins the fetch of the rendered page at `url`: one navigation on
    /// the open session, and after a failure one restart and one more
    /// navigation on the fresh session.
    pub fn get_page_source(&mut self, url: &str) -> (step: EngineStep)
        ensures
            (final(self)@, step@) == old(self)@.get_page_source(url@),
            old(self)@.well_formed() ==> final(self)@.well_formed(),
    {
        proof {
            if self@.well_formed() {
                lemma_engine_operations_fit(self@, url@);
            }
        }
        let url = String::from_str(url);
        if self.session_open {
            self.navigate(url, Attempt::First)
        } else {
            self.restart(Goal::Fetch { url })
        }
    }

    /// Begins closing the active window of the session.
    pub fn close_current_tab(&self) -> (step: EngineStep)
        ensures
            (self@, step@) == self@.close_current_tab(),
    {
        if self.session_open {
            EngineStep::Ask(Request::CloseWindow, EngineTask::ClosingTab)
        } else {
            failed(EngineError::SessionClosed)
        }
    }

    /// Begins a shutdown: the session is ended, then the process. On an
    /// engine that owns neither, the shutdown is over at once.
    pub fn shutdown(&mut self) -> (step: EngineStep)
        ensures
            (final(self)@, step@) == old(self)@.shutdown(),
            old(self)@.well_formed() ==> final(self)@.well_formed(),
    {
        proof {
            if self@.well_formed() {
                lemma_engine_operations_fit(self@, Seq::empty());
            }
        }
        if self.session_open {
            self.session_open = false;
            self.degraded = false;
            EngineStep::Ask(Request::QuitSession, EngineTask::Quitting)
        } else {
            let inner = self.service_manager.stop_service();
            self.wrap(inner, Purpose::Shutdown)
        }
    }

    fn navigation_failed(&mut self, url: String, attempt: Attempt, reason: String) -> (step:
        EngineStep)
        ensures
            (final(self)@, step@) == old(self)@.navigation_failed(url@, attempt, reason@),
    {
        match attempt {
            Attempt::First => self.restart(Goal::Fetch { url }),
            Attempt::Retry => failed(EngineError::NavigationFailed { reason }),
        }
    }

    /// Takes the host's reply to the request that came with `task` and gives
    /// the next step of the operation.
    pub fn resume(&mut self, task: EngineTask, reply: Reply) -> (step: EngineStep)
        ensures
            (final(self)@, step@) == old(self)@.resume(task@, reply@),
            old(self)@.well_formed() ==> final(self)@.well_formed(),
    {
        if !self.fits(&task) {
            return failed(EngineError::StaleTask);
        }
        proof {
            if self@.well_formed() {
                lemma_engine_resume_fits(self@, task@, reply@);
            }
        }
        match task {
            EngineTask::Service { task, purpose } => {
                let inner = self.service_manager.resume(task, reply);
                self.wrap(inner, purpose)
            },
            EngineTask::Closing { goal } => match reply {
                Reply::Completed | Reply::Failed { .. } => {
                    let inner = self.service_manager.restart_service();
                    self.wrap(inner, Purpose::Restart(goal))
                },
                _ => failed(EngineError::UnexpectedReply),
            },
            EngineTask::Abandoning { error } => match reply {
                Reply::Completed | Reply::Failed { .. } => failed(error),
                _ => failed(EngineError::UnexpectedReply),
            },
            EngineTask::Opening { port, goal } => match reply {
                Reply::Completed => {
                    self.session_open = true;
                    self.degraded = false;
                    match goal {
                        Goal::Fetch { url } => self.navigate(url, Attempt::Retry),
                        _ => EngineStep::Done(EngineOutcome::Ready(ServiceStatus::healthy(port))),
                    }
                },
                Reply::Failed { reason } => {
                    let creating = is_created(&goal);
                    self.give_up(creating, EngineError::SessionOpenFailed { reason })
                },
                _ => {
                    let creating = is_created(&goal);
                    self.give_up(creating, EngineError::UnexpectedReply)
                },
            },
            EngineTask::Navigating { url, attempt } => match reply {
                Reply::Completed => EngineStep::Ask(
                    Request::Settle { seconds: RENDER_SETTLE_SECONDS },
                    EngineTask::Rendering { url, attempt },
                ),
                Reply::Failed { reason } => self.navigation_failed(url, attempt, reason),
                _ => failed(EngineError::UnexpectedReply),
            },
            EngineTask::Rendering { url, attempt } => match reply {
                Reply::Completed => EngineStep::Ask(
                    Request::ReadSource,
                    EngineTask::Reading { url, attempt },
                ),
                _ => failed(EngineError::UnexpectedReply),
            },
            EngineTask::Reading { url, attempt } => match reply {
                Reply::PageSource { html } => EngineStep::Done(EngineOutcome::Page(html)),
                Reply::Failed { reason } => self.navigation_failed(url, attempt, reason),
                _ => failed(EngineError::UnexpectedReply),
            },
            EngineTask::ClosingTab => match reply {
                Reply::Completed => EngineStep::Done(EngineOutcome::TabClosed),
                Reply::Failed { reason } => failed(EngineError::CloseFailed { reason }),
                _ => failed(EngineError::UnexpectedReply),
            },
            EngineTask::Quitting => match reply {
                Reply::Completed | Reply::Failed { .. } => {
                    let inner = self.service_manager.stop_service();
                    self.wrap(inner, Purpose::Shutdown)
                },
                _ => failed(EngineError::UnexpectedReply),
            },
        }
    }
}

impl EngineTaskView {
    /// The task is one that an operation on the engine `e` hands out.
    pub open spec fn fits(self, e: EngineView) -> bool {
        match self {
            EngineTaskView::Service { task, purpose } => {
                &&& task.fits(e.manager)
                &&& match purpose {
                    PurposeView::Report => task == ServiceTask::CheckHealth,
                    PurposeView::Shutdown => task == ServiceTask::Stop && !e.session_open,
                    _ => task.starts() && !e.session_open,
                }
            },
            EngineTaskView::Closing { .. } => !e.session_open,
            EngineTaskView::Abandoning { .. } => !e.session_open && e.manager.process is None,
            EngineTaskView::Opening { .. } => !e.session_open && e.manager.process is Some,
            EngineTaskView::Navigating { .. } => e.session_open,
            EngineTaskView::Rendering { .. } => e.session_open,
            EngineTaskView::Reading { .. } => e.session_open,
            EngineTaskView::ClosingTab => e.session_open,
            EngineTaskView::Quitting => !e.session_open,
        }
    }
}

/// The changes of condition that a single step may make. A session is
/// never gained without a process, a process never lost under a session,
/// and only an engine with a session can become degraded.
pub open spec fn legal_transition(from: EngineState, to: EngineState) -> bool {
    ||| from == to
    ||| from == EngineState::Uninitialized && to == EngineState::ProcessOnly
    ||| from == EngineState::ProcessOnly && to == EngineState::Uninitialized
    ||| from == EngineState::ProcessOnly && to == EngineState::Ready
    ||| from == EngineState::Ready && to == EngineState::Degraded
    ||| from == EngineState::Degraded && to == EngineState::Ready
    ||| from == EngineState::Ready && to == EngineState::ProcessOnly
    ||| from == EngineState::Degraded && to == EngineState::ProcessOnly
}

/// `next` is a step of an operation on a well-formed engine that was in
/// the condition `from`.
pub open spec fn engine_step_fits(from: EngineState, next: (EngineView, EngineStepView)) -> bool {
    &&& next.0.well_formed()
    &&& legal_transition(from, next.0.state())
    &&& next.1 matches EngineStepView::Ask(_, task) ==> task.fits(next.0)
}

/// A fresh engine is well formed and owns nothing.
pub proof fn lemma_fresh_engine(port: u16, driver_path: Seq<char>, browser_path: Seq<char>)
    requires
        port + PORT_RANGE_SPAN <= u16::MAX,
    ensures
        fresh_engine(new_manager(port, driver_path, browser_path)).well_formed(),
        fresh_engine(new_manager(port, driver_path, browser_path)).state()
            == EngineState::Uninitialized,
        engine_step_fits(
            EngineState::Uninitialized,
            fresh_engine(new_manager(port, driver_path, browser_path)).create(PurposeView::Create),
        ),
        engine_step_fits(
            EngineState::Uninitialized,
            fresh_engine(new_manager(port, driver_path, browser_path)).create(
                PurposeView::CreateWithFallback,
            ),
        ),
{
}

/// Every operation on a well-formed engine begins with a fitting step.
pub proof fn lemma_engine_operations_fit(e: EngineView, url: Seq<char>)
    requires
        e.well_formed(),
    ensures
        engine_step_fits(e.state(), e.restart_with_fallback()),
        engine_step_fits(e.state(), e.check_service_status()),
        engine_step_fits(e.state(), e.get_page_source(url)),
        engine_step_fits(e.state(), e.close_current_tab()),
        engine_step_fits(e.state(), e.shutdown()),
{
}

/// Resuming a task gives a fitting step. So at every moment of
/// every operation the engine is in exactly one of its four conditions,
/// a session has a process under it, and the condition changes only along
/// [`legal_transition`].
pub proof fn lemma_engine_resume_fits(e: EngineView, task: EngineTaskView, reply: ReplyView)
    requires
        e.well_formed(),
    ensures
        engine_step_fits(e.state(), e.resume(task, reply)),
{
    if task.fits(e) {
        match task {
            EngineTaskView::Service { task: inner, purpose } => {
                reveal_with_fuel(EngineView::wrap, 2);
                reveal_with_fuel(EngineView::settle, 2);
                lemma_resume_fits(e.manager, inner, reply);
                crate::browser_service_manager::lemma_exclusive_ownership(
                    e.manager,
                    inner,
                    reply,
                );
                if inner.starts() {
                    lemma_healthy_service_has_process(e.manager, inner, reply);
                }
            },
            _ => {},
        }
    }
}

impl EngineTaskView {
    /// The task is part of the creation of an engine.
    pub open spec fn creates(self) -> bool {
        match self {
            EngineTaskView::Service { purpose, .. } => purpose.goal() is Created,
            EngineTaskView::Opening { goal, .. } => goal is Created,
            EngineTaskView::Abandoning { .. } => true,
            _ => false,
        }
    }
}

/// Where a creation stands: still under way without a session, ended with
/// service and session up, or failed with nothing owned.
pub open spec fn creation_holds(next: (EngineView, EngineStepView)) -> bool {
    match next.1 {
        EngineStepView::Ask(_, task) => task.creates() && task.fits(next.0),
        EngineStepView::Done(EngineOutcomeView::Ready(status)) => status.is_healthy
            && next.0.state() == EngineState::Ready,
        EngineStepView::Done(EngineOutcomeView::Failed(_)) => next.0.state()
            == EngineState::Uninitialized,
        EngineStepView::Done(_) => false,
    }
}

/// Release on every error path of a creation. A creation begins without
/// anything owned, and each of its steps either goes on with the creation,
/// or ends it with service and session up, or fails it with neither a
/// session nor a process left: a process that was launched is let go of,
/// and its end asked for, before the failure is reported.
pub proof fn lemma_creation_step(e: EngineView, task: EngineTaskView, reply: ReplyView)
    requires
        e.well_formed(),
        task.creates(),
        task.fits(e),
    ensures
        creation_holds(e.resume(task, reply)),
        e.manager.process is Some && e.resume(task, reply).0.manager.process is None ==> ({
            &&& e.resume(task, reply).1 matches EngineStepView::Ask(request, _)
            &&& request == RequestView::KillProcess { pid: e.manager.process->0 }
        }),
{
    reveal_with_fuel(EngineView::wrap, 2);
    reveal_with_fuel(EngineView::settle, 2);
    lemma_engine_resume_fits(e, task, reply);
    match task {
        EngineTaskView::Service { task: inner, purpose } => {
            lemma_resume_fits(e.manager, inner, reply);
            crate::browser_service_manager::lemma_exclusive_ownership(e.manager, inner, reply);
            lemma_healthy_service_has_process(e.manager, inner, reply);
        },
        _ => {},
    }
}

/// A restart of an engine with a session begins by closing the session:
/// the first request is the farewell, and nothing is stopped, launched or
/// opened before it is acknowledged.
pub proof fn lemma_restart_closes_session_first(e: EngineView, goal: GoalView)
    requires
        e.session_open,
    ensures
        e.restart(goal) == (
            EngineView { session_open: false, degraded: false, ..e },
            EngineStepView::Ask(RequestView::QuitSession, EngineTaskView::Closing { goal }),
        ),
        e.restart_with_fallback().1 matches EngineStepView::Ask(RequestView::QuitSession, _),
{
}

} // verus!
