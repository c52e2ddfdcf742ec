//! Whole runs of engine operations: what holds of every sequence of replies
//! that a host may give.
//!
//! A run feeds replies to an operation one by one until the operation is
//! over or the replies are used up. The theorems here bound a run in length,
//! in navigations and in launches, whatever the host answers.

use vstd::prelude::*;
use crate::browser_service_manager::{
    healthy_status, launch_arguments, lemma_resume_keeps_configuration,
    lemma_resume_makes_progress, reassigned_message, restart_bound, server_url, status_url,
    new_manager, unhealthy_status, ManagerView, ScanPurpose, PORT_RANGE_SPAN,
    ServiceErrorView, ServiceOutcomeView, ServiceStepView, ServiceTask, LAUNCH_SETTLE_SECONDS,
    STATUS_TIMEOUT_SECONDS,
};
use crate::ports::{
    is_first_free, lemma_scan_finds_first_free, probes_left, scan_after, scan_first, scan_result,
    ScanStep,
};
use crate::host::{ReplyView, RequestView};
use crate::scraper_engine::{
    creation_holds, fresh_engine, lemma_creation_step, lemma_engine_resume_fits, lemma_fresh_engine,
    Attempt, EngineErrorView, EngineOutcomeView, EngineState, EngineStepView, EngineTaskView,
    EngineView, GoalView, PurposeView, NAVIGATION_BUDGET, RENDER_SETTLE_SECONDS, RESTART_BUDGET,
};

verus! {

/// Where a run stands, and every request that was made in it, in order.
pub struct Run {
    pub engine: EngineView,
    pub step: EngineStepView,
    pub requests: Seq<RequestView>,
}

/// The run that goes on from `step` with the replies from index `next` on,
/// after the requests `asked`.
pub open spec fn run_from(
    engine: EngineView,
    step: EngineStepView,
    replies: Seq<ReplyView>,
    next: nat,
    asked: Seq<RequestView>,
) -> Run
    decreases replies.len() - next,
{
    match step {
        EngineStepView::Ask(request, task) => if next >= replies.len() {
            Run { engine, step, requests: asked.push(request) }
        } else {
            let after = engine.resume(task, replies[next as int]);
            run_from(after.0, after.1, replies, next + 1, asked.push(request))
        },
        EngineStepView::Done(_) => Run { engine, step, requests: asked },
    }
}

/// The run of an operation that began with `start` when the host answers
/// its requests with `replies`, one after the other.
pub open spec fn run(start: (EngineView, EngineStepView), replies: Seq<ReplyView>) -> Run {
    run_from(start.0, start.1, replies, 0, Seq::empty())
}

/// Number of navigations among the requests.
pub open spec fn navigations(requests: Seq<RequestView>) -> nat
    decreases requests.len(),
{
    if requests.len() == 0 {
        0
    } else {
        navigations(requests.drop_last()) + if requests.last() is Navigate {
            1nat
        } else {
            0nat
        }
    }
}

/// Number of launches of the driver among the requests.
pub open spec fn launches(requests: Seq<RequestView>) -> nat
    decreases requests.len(),
{
    if requests.len() == 0 {
        0
    } else {
        launches(requests.drop_last()) + if requests.last() is SpawnDriver {
            1nat
        } else {
            0nat
        }
    }
}

/// Launches that the supervisor operation may still ask for.
pub open spec fn service_launches_left(task: ServiceTask) -> nat {
    match task {
        ServiceTask::Scanning { purpose, .. } => if purpose == ScanPurpose::Relocate {
            1
        } else {
            0
        },
        ServiceTask::StartProbe => 1,
        ServiceTask::StartClear => 1,
        ServiceTask::RestartStop => 1,
        ServiceTask::RestartProbe => 1,
        _ => 0,
    }
}

/// Navigations that the operation may still ask for once `task` is resumed.
pub open spec fn navigations_left(task: EngineTaskView) -> nat {
    match task {
        EngineTaskView::Service { purpose: PurposeView::Restart(GoalView::Fetch { .. }), .. } => 1,
        EngineTaskView::Closing { goal: GoalView::Fetch { .. } } => 1,
        EngineTaskView::Opening { goal: GoalView::Fetch { .. }, .. } => 1,
        EngineTaskView::Navigating { attempt: Attempt::First, .. } => 1,
        EngineTaskView::Rendering { attempt: Attempt::First, .. } => 1,
        EngineTaskView::Reading { attempt: Attempt::First, .. } => 1,
        _ => 0,
    }
}

/// Launches that the operation may still ask for once `task` is resumed.
pub open spec fn launches_left(task: EngineTaskView) -> nat {
    match task {
        EngineTaskView::Service { task, purpose } => service_launches_left(task) + if purpose
            == PurposeView::CreateWithFallback {
            1nat
        } else {
            0nat
        },
        EngineTaskView::Closing { .. } => 1,
        EngineTaskView::Navigating { attempt: Attempt::First, .. } => 1,
        EngineTaskView::Rendering { attempt: Attempt::First, .. } => 1,
        EngineTaskView::Reading { attempt: Attempt::First, .. } => 1,
        _ => 0,
    }
}

/// Navigations that an operation may still ask for at `step`, the one that
/// `step` itself asks for included.
pub open spec fn navigation_budget(step: EngineStepView) -> nat {
    match step {
        EngineStepView::Ask(request, task) => navigations_left(task) + if request is Navigate {
            1nat
        } else {
            0nat
        },
        EngineStepView::Done(_) => 0,
    }
}

/// Launches that an operation may still ask for at `step`, the one that
/// `step` itself asks for included.
pub open spec fn launch_budget(step: EngineStepView) -> nat {
    match step {
        EngineStepView::Ask(request, task) => launches_left(task) + if request is SpawnDriver {
            1nat
        } else {
            0nat
        },
        EngineStepView::Done(_) => 0,
    }
}

/// Replies that the opening of a session and what follows it take at most.
pub open spec fn opening_bound(goal: GoalView) -> nat {
    match goal {
        GoalView::Created => 2,
        GoalView::Ready => 1,
        GoalView::Fetch { .. } => 4,
    }
}

/// Replies that a restart of service and session takes at most, from the
/// closing of the session on.
pub open spec fn recovery_bound(m: ManagerView, goal: GoalView) -> nat {
    1 + restart_bound(m) + opening_bound(goal)
}

/// An upper bound on the replies that the operation still takes once
/// `task` is resumed.
pub open spec fn steps_left(task: EngineTaskView, e: EngineView) -> nat {
    match task {
        EngineTaskView::Service { task, purpose } => task.steps_left(e.manager) + match purpose {
            PurposeView::Create => 2,
            PurposeView::CreateWithFallback => 3 + restart_bound(e.manager),
            PurposeView::CreateAfterRestart => 2,
            PurposeView::Restart(goal) => opening_bound(goal),
            PurposeView::Report => 0,
            PurposeView::Shutdown => 0,
        },
        EngineTaskView::Closing { goal } => recovery_bound(e.manager, goal),
        EngineTaskView::Abandoning { .. } => 1,
        EngineTaskView::Opening { goal, .. } => opening_bound(goal),
        EngineTaskView::Navigating { url, attempt } => 3 + first_attempt_extra(e, url, attempt),
        EngineTaskView::Rendering { url, attempt } => 2 + first_attempt_extra(e, url, attempt),
        EngineTaskView::Reading { url, attempt } => 1 + first_attempt_extra(e, url, attempt),
        EngineTaskView::ClosingTab => 1,
        EngineTaskView::Quitting => 2,
    }
}

/// What the first attempt of a fetch may still cost beyond its own replies:
/// the recovery and the second attempt.
pub open spec fn first_attempt_extra(e: EngineView, url: Seq<char>, attempt: Attempt) -> nat {
    match attempt {
        Attempt::First => recovery_bound(e.manager, GoalView::Fetch { url }),
        Attempt::Retry => 0,
    }
}

/// Replies that a fetch takes at most.
pub open spec fn fetch_bound(e: EngineView) -> nat {
    8 + restart_bound(e.manager)
}

/// No step asks for more navigations or launches than the task before it
/// had left.
pub proof fn lemma_step_keeps_budgets(e: EngineView, task: EngineTaskView, reply: ReplyView)
    ensures
        navigation_budget(e.resume(task, reply).1) <= navigations_left(task),
        launch_budget(e.resume(task, reply).1) <= launches_left(task),
{
    reveal_with_fuel(EngineView::wrap, 2);
    reveal_with_fuel(EngineView::settle, 2);
}

/// Every reply brings an engine operation closer to its end.
pub proof fn lemma_step_makes_progress(e: EngineView, task: EngineTaskView, reply: ReplyView)
    ensures
        e.resume(task, reply).1 matches EngineStepView::Ask(_, next) ==> steps_left(
            next,
            e.resume(task, reply).0,
        ) < steps_left(task, e),
{
    reveal_with_fuel(EngineView::wrap, 2);
    reveal_with_fuel(EngineView::settle, 2);
    match task {
        EngineTaskView::Service { task: inner, purpose } => {
            lemma_resume_makes_progress(e.manager, inner, reply);
            lemma_resume_keeps_configuration(e.manager, inner, reply);
        },
        _ => {},
    }
}

proof fn lemma_count_push(requests: Seq<RequestView>, request: RequestView)
    ensures
        navigations(requests.push(request)) == navigations(requests) + if request is Navigate {
            1nat
        } else {
            0nat
        },
        launches(requests.push(request)) == launches(requests) + if request is SpawnDriver {
            1nat
        } else {
            0nat
        },
{
    assert(requests.push(request).drop_last() =~= requests);
}

/// A run asks for no more navigations and launches than its first step
/// had in its budgets.
pub proof fn lemma_run_keeps_budgets(
    engine: EngineView,
    step: EngineStepView,
    replies: Seq<ReplyView>,
    next: nat,
    asked: Seq<RequestView>,
)
    ensures
        navigations(run_from(engine, step, replies, next, asked).requests) <= navigations(asked)
            + navigation_budget(step),
        launches(run_from(engine, step, replies, next, asked).requests) <= launches(asked)
            + launch_budget(step),
    decreases replies.len() - next,
{
    match step {
        EngineStepView::Ask(request, task) => {
            lemma_count_push(asked, request);
            if next < replies.len() {
                let after = engine.resume(task, replies[next as int]);
                lemma_step_keeps_budgets(engine, task, replies[next as int]);
                lemma_run_keeps_budgets(after.0, after.1, replies, next + 1, asked.push(request));
            }
        },
        EngineStepView::Done(_) => {},
    }
}

/// A run is over once it has been given as many replies as its first step
/// had steps left.
pub proof fn lemma_run_ends(
    engine: EngineView,
    step: EngineStepView,
    replies: Seq<ReplyView>,
    next: nat,
    asked: Seq<RequestView>,
)
    requires
        step matches EngineStepView::Ask(_, task) ==> next + steps_left(task, engine)
            <= replies.len(),
    ensures
        run_from(engine, step, replies, next, asked).step is Done,
    decreases replies.len() - next,
{
    match step {
        EngineStepView::Ask(request, task) => {
            lemma_step_makes_progress(engine, task, replies[next as int]);
            let after = engine.resume(task, replies[next as int]);
            lemma_run_ends(after.0, after.1, replies, next + 1, asked.push(request));
        },
        EngineStepView::Done(_) => {},
    }
}

/// Bounded retry. Whatever the host answers, a fetch asks for at most two
/// navigations and at most one launch of the driver, and it is over after
/// [`fetch_bound`] replies at the latest.
pub proof fn lemma_fetch_is_bounded(e: EngineView, url: Seq<char>, replies: Seq<ReplyView>)
    ensures
        navigations(run(e.get_page_source(url), replies).requests) <= NAVIGATION_BUDGET,
        launches(run(e.get_page_source(url), replies).requests) <= RESTART_BUDGET,
        replies.len() >= fetch_bound(e) ==> run(e.get_page_source(url), replies).step is Done,
{
    let start = e.get_page_source(url);
    lemma_run_keeps_budgets(start.0, start.1, replies, 0, Seq::empty());
    if replies.len() >= fetch_bound(e) {
        lemma_run_ends(start.0, start.1, replies, 0, Seq::empty());
    }
}

/// A failure of the first attempt starts the recovery; a failure of the
/// second ends the fetch with a navigation error and leaves the engine as
/// it is, ready for the next call.
pub proof fn lemma_navigation_failure(e: EngineView, url: Seq<char>, reason: Seq<char>)
    requires
        e.session_open,
    ensures
        e.resume(
            EngineTaskView::Navigating { url, attempt: Attempt::First },
            ReplyView::Failed { reason },
        ) == e.restart(GoalView::Fetch { url }),
        e.resume(
            EngineTaskView::Reading { url, attempt: Attempt::First },
            ReplyView::Failed { reason },
        ) == e.restart(GoalView::Fetch { url }),
        e.resume(
            EngineTaskView::Navigating { url, attempt: Attempt::Retry },
            ReplyView::Failed { reason },
        ) == e.fail(EngineErrorView::NavigationFailed { reason }),
        e.resume(
            EngineTaskView::Reading { url, attempt: Attempt::Retry },
            ReplyView::Failed { reason },
        ) == e.fail(EngineErrorView::NavigationFailed { reason }),
{
}

/// Idempotent shutdown. Once the host has acknowledged the farewell to the
/// session and the end of the process, the engine owns nothing; and on an
/// engine that owns nothing a shutdown is over at once, with success and
/// without a request.
pub proof fn lemma_shutdown_is_idempotent(e: EngineView, farewell: ReplyView, kill: ReplyView)
    requires
        e.well_formed(),
        farewell.is_acknowledgement(),
        kill.is_acknowledgement(),
    ensures
        ({
            let first = run(e.shutdown(), seq![farewell, kill]);
            let second = run(first.engine.shutdown(), Seq::empty());
            &&& first.step == EngineStepView::Done(EngineOutcomeView::ShutDown)
            &&& first.engine.state() == EngineState::Uninitialized
            &&& second.step == EngineStepView::Done(EngineOutcomeView::ShutDown)
            &&& second.engine == first.engine
            &&& second.requests == Seq::<RequestView>::empty()
        }),
{
    reveal_with_fuel(run_from, 3);
    reveal_with_fuel(EngineView::wrap, 2);
    reveal_with_fuel(EngineView::settle, 2);
}

/// Where a port scan of the supervisor ends when each probe is answered
/// by membership in `free`: the step that follows the last probe.
pub open spec fn search(m: ManagerView, step: ServiceStepView, free: Set<u16>) -> (
    ManagerView,
    ServiceStepView,
)
    decreases search_steps(step),
{
    match step {
        ServiceStepView::Ask(
            RequestView::ProbePort { port },
            ServiceTask::Scanning { scan, purpose },
        ) => {
            let next = m.resume(
                ServiceTask::Scanning { scan, purpose },
                ReplyView::Port { available: free.contains(port) },
            );
            search(next.0, next.1, free)
        },
        _ => (m, step),
    }
}

/// Probes that a port scan may still make.
pub open spec fn search_steps(step: ServiceStepView) -> nat {
    match step {
        ServiceStepView::Ask(_, ServiceTask::Scanning { scan, .. }) => probes_left(
            ScanStep::Probe(scan),
        ),
        _ => 0,
    }
}

/// What a scan for `purpose` leads to: on the port it found, or without one.
pub open spec fn scan_end(m: ManagerView, found: Option<u16>, purpose: ScanPurpose) -> (
    ManagerView,
    ServiceStepView,
) {
    match found {
        Some(port) => m.scan(ScanStep::Found(port), purpose),
        None => m.scan(ScanStep::Exhausted, purpose),
    }
}

proof fn lemma_search_follows_scan(
    m: ManagerView,
    step: ScanStep,
    purpose: ScanPurpose,
    free: Set<u16>,
)
    requires
        step matches ScanStep::Probe(scan) ==> (ServiceTask::Scanning { scan, purpose }).fits(m),
    ensures
        search(m.scan(step, purpose).0, m.scan(step, purpose).1, free) == scan_end(
            m,
            scan_result(step, free),
            purpose,
        ),
    decreases probes_left(step),
{
    match step {
        ScanStep::Probe(scan) => {
            lemma_search_follows_scan(
                m,
                scan_after(scan, free.contains(scan.port)),
                purpose,
                free,
            );
        },
        _ => {},
    }
}

/// Port safety of the supervisor. With at least one free port in the range
/// the search ends on the lowest of them, a port of the range whose probe
/// succeeded. With none it fails with `NoPortAvailable`. Either way the
/// supervisor is left as it was.
pub proof fn lemma_search_finds_first_free(m: ManagerView, free: Set<u16>)
    ensures
        ({
            let start = m.find_available_port();
            let (after, step) = search(start.0, start.1, free);
            if exists|q: u16| m.min_port <= q <= m.max_port && free.contains(q) {
                &&& step matches ServiceStepView::Done(ServiceOutcomeView::PortFound(port))
                &&& is_first_free(port, m.min_port, m.max_port, free)
                &&& after == m
            } else {
                &&& step == ServiceStepView::Done(
                    ServiceOutcomeView::Failed(
                        ServiceErrorView::NoPortAvailable { min: m.min_port, max: m.max_port },
                    ),
                )
                &&& after == m
            }
        }),
{
    lemma_scan_finds_first_free(m.min_port, m.max_port, free);
    lemma_search_follows_scan(m, scan_first(m.min_port, m.max_port), ScanPurpose::Find, free);
}

/// A start that finds its port busy does not launch anything. It moves to
/// the lowest free port of the range and reports the reassignment with an
/// unhealthy snapshot for that port; whether to start there is for the
/// caller to decide. With no free port in the range it fails with
/// `NoPortAvailable`.
pub proof fn lemma_start_on_busy_port_reassigns(m: ManagerView, free: Set<u16>)
    requires
        !free.contains(m.current_port),
    ensures
        ({
            let busy = m.resume(ServiceTask::StartProbe, ReplyView::Port { available: false });
            let (after, step) = search(busy.0, busy.1, free);
            if exists|q: u16| m.min_port <= q <= m.max_port && free.contains(q) {
                &&& step matches ServiceStepView::Done(ServiceOutcomeView::Status(status))
                &&& is_first_free(status.port, m.min_port, m.max_port, free)
                &&& status == unhealthy_status(status.port, reassigned_message())
                &&& after == ManagerView { current_port: status.port, ..m }
            } else {
                &&& step == ServiceStepView::Done(
                    ServiceOutcomeView::Failed(
                        ServiceErrorView::NoPortAvailable { min: m.min_port, max: m.max_port },
                    ),
                )
                &&& after == m
            }
        }),
{
    lemma_scan_finds_first_free(m.min_port, m.max_port, free);
    lemma_search_follows_scan(m, scan_first(m.min_port, m.max_port), ScanPurpose::Reassign, free);
}

/// A restart that finds its port busy moves to the lowest free port of
/// the range and starts there. With no free port in the range it fails
/// with `NoPortAvailable`.
pub proof fn lemma_restart_on_busy_port_relocates(m: ManagerView, free: Set<u16>)
    requires
        m.process is None,
        !free.contains(m.current_port),
    ensures
        ({
            let busy = m.resume(ServiceTask::RestartProbe, ReplyView::Port { available: false });
            let (after, step) = search(busy.0, busy.1, free);
            if exists|q: u16| m.min_port <= q <= m.max_port && free.contains(q) {
                &&& is_first_free(after.current_port, m.min_port, m.max_port, free)
                &&& after == ManagerView { current_port: after.current_port, ..m }
                &&& (after, step) == after.start_service()
            } else {
                &&& step == ServiceStepView::Done(
                    ServiceOutcomeView::Failed(
                        ServiceErrorView::NoPortAvailable { min: m.min_port, max: m.max_port },
                    ),
                )
                &&& after == m
            }
        }),
{
    lemma_scan_finds_first_free(m.min_port, m.max_port, free);
    lemma_search_follows_scan(m, scan_first(m.min_port, m.max_port), ScanPurpose::Relocate, free);
}

/// Where a run of a supervisor operation stands, and every request that
/// was made in it, in order.
pub struct ServiceRun {
    pub manager: ManagerView,
    pub step: ServiceStepView,
    pub requests: Seq<RequestView>,
}

/// The run of a supervisor operation that goes on from `step` with the
/// replies from index `next` on, after the requests `asked`.
pub open spec fn service_run_from(
    manager: ManagerView,
    step: ServiceStepView,
    replies: Seq<ReplyView>,
    next: nat,
    asked: Seq<RequestView>,
) -> ServiceRun
    decreases replies.len() - next,
{
    match step {
        ServiceStepView::Ask(request, task) => if next >= replies.len() {
            ServiceRun { manager, step, requests: asked.push(request) }
        } else {
            let after = manager.resume(task, replies[next as int]);
            service_run_from(after.0, after.1, replies, next + 1, asked.push(request))
        },
        ServiceStepView::Done(_) => ServiceRun { manager, step, requests: asked },
    }
}

/// The run of a supervisor operation that began with `start` when the
/// host answers its requests with `replies`, one after the other.
pub open spec fn service_run(
    start: (ManagerView, ServiceStepView),
    replies: Seq<ReplyView>,
) -> ServiceRun {
    service_run_from(start.0, start.1, replies, 0, Seq::empty())
}

/// A run of a supervisor operation is over once it has been given as many
/// replies as its first step had steps left.
pub proof fn lemma_service_run_ends(
    manager: ManagerView,
    step: ServiceStepView,
    replies: Seq<ReplyView>,
    next: nat,
    asked: Seq<RequestView>,
)
    requires
        step matches ServiceStepView::Ask(_, task) ==> next + task.steps_left(manager)
            <= replies.len(),
    ensures
        service_run_from(manager, step, replies, next, asked).step is Done,
    decreases replies.len() - next,
{
    match step {
        ServiceStepView::Ask(request, task) => {
            lemma_resume_makes_progress(manager, task, replies[next as int]);
            let after = manager.resume(task, replies[next as int]);
            service_run_from_unfolds(manager, request, task, replies, next, asked);
            lemma_service_run_ends(after.0, after.1, replies, next + 1, asked.push(request));
        },
        ServiceStepView::Done(_) => {},
    }
}

proof fn service_run_from_unfolds(
    manager: ManagerView,
    request: RequestView,
    task: ServiceTask,
    replies: Seq<ReplyView>,
    next: nat,
    asked: Seq<RequestView>,
)
    requires
        next < replies.len(),
    ensures
        service_run_from(manager, ServiceStepView::Ask(request, task), replies, next, asked)
            == service_run_from(
            manager.resume(task, replies[next as int]).0,
            manager.resume(task, replies[next as int]).1,
            replies,
            next + 1,
            asked.push(request),
        ),
{
}

/// Every restart is over after [`restart_bound`] replies, whatever they are.
pub proof fn lemma_restart_is_bounded(m: ManagerView, replies: Seq<ReplyView>)
    requires
        replies.len() >= restart_bound(m),
    ensures
        service_run(m.restart_service(), replies).step is Done,
{
    let start = m.restart_service();
    lemma_service_run_ends(start.0, start.1, replies, 0, Seq::empty());
}

/// Exclusive ownership across a restart. A supervisor that owns a process
/// first lets go of it and asks for its end, then probes its port, and
/// only then asks for one launch. When the driver answers, the supervisor
/// owns the process that was launched and no other.
pub proof fn lemma_restart_replaces_process(
    m: ManagerView,
    stop: ReplyView,
    pid: u32,
    status: Seq<char>,
)
    requires
        m.process is Some,
        stop.is_acknowledgement(),
    ensures
        ({
            let replies = seq![
                stop,
                ReplyView::Port { available: true },
                ReplyView::Port { available: true },
                ReplyView::Spawned { pid },
                ReplyView::Completed,
                ReplyView::Status { success: true, status },
            ];
            let end = service_run(m.restart_service(), replies);
            &&& end.step == ServiceStepView::Done(
                ServiceOutcomeView::Status(healthy_status(m.current_port)),
            )
            &&& end.manager == ManagerView { process: Some(pid), ..m }
            &&& end.requests == seq![
                RequestView::KillProcess { pid: m.process->0 },
                RequestView::ProbePort { port: m.current_port },
                RequestView::ProbePort { port: m.current_port },
                RequestView::SpawnDriver {
                    program: m.driver_path,
                    arguments: launch_arguments(m.current_port),
                },
                RequestView::Settle { seconds: LAUNCH_SETTLE_SECONDS },
                RequestView::QueryStatus {
                    url: status_url(m.current_port),
                    timeout_seconds: STATUS_TIMEOUT_SECONDS,
                },
            ]
        }),
{
    let replies = seq![
        stop,
        ReplyView::Port { available: true },
        ReplyView::Port { available: true },
        ReplyView::Spawned { pid },
        ReplyView::Completed,
        ReplyView::Status { success: true, status },
    ];
    let port = m.current_port;
    let released = ManagerView { process: None, ..m };
    let owning = ManagerView { process: Some(pid), ..m };
    let kill = RequestView::KillProcess { pid: m.process->0 };
    let probe = RequestView::ProbePort { port };
    let spawn = RequestView::SpawnDriver {
        program: m.driver_path,
        arguments: launch_arguments(port),
    };
    let settle = RequestView::Settle { seconds: LAUNCH_SETTLE_SECONDS };
    let query = RequestView::QueryStatus {
        url: status_url(port),
        timeout_seconds: STATUS_TIMEOUT_SECONDS,
    };
    let a0 = Seq::<RequestView>::empty();
    assert(m.restart_service() == (released, ServiceStepView::Ask(kill, ServiceTask::RestartStop)));
    service_run_from_unfolds(released, kill, ServiceTask::RestartStop, replies, 0, a0);
    service_run_from_unfolds(released, probe, ServiceTask::RestartProbe, replies, 1, a0.push(kill));
    service_run_from_unfolds(
        released,
        probe,
        ServiceTask::StartProbe,
        replies,
        2,
        a0.push(kill).push(probe),
    );
    service_run_from_unfolds(
        released,
        spawn,
        ServiceTask::StartSpawn,
        replies,
        3,
        a0.push(kill).push(probe).push(probe),
    );
    service_run_from_unfolds(
        owning,
        settle,
        ServiceTask::StartSettle,
        replies,
        4,
        a0.push(kill).push(probe).push(probe).push(spawn),
    );
    service_run_from_unfolds(
        owning,
        query,
        ServiceTask::StartVerify,
        replies,
        5,
        a0.push(kill).push(probe).push(probe).push(spawn).push(settle),
    );
}

/// Exclusive ownership, over whole runs. However the host answers, an
/// operation on a well-formed engine leaves it well formed: in one of its
/// four conditions, and with a process under every session.
pub proof fn lemma_run_keeps_engine_well_formed(
    engine: EngineView,
    step: EngineStepView,
    replies: Seq<ReplyView>,
    next: nat,
    asked: Seq<RequestView>,
)
    requires
        engine.well_formed(),
        step matches EngineStepView::Ask(_, task) ==> task.fits(engine),
    ensures
        run_from(engine, step, replies, next, asked).engine.well_formed(),
        run_from(engine, step, replies, next, asked).step matches EngineStepView::Ask(_, task)
            ==> task.fits(run_from(engine, step, replies, next, asked).engine),
    decreases replies.len() - next,
{
    match step {
        EngineStepView::Ask(request, task) => {
            if next < replies.len() {
                lemma_engine_resume_fits(engine, task, replies[next as int]);
                let after = engine.resume(task, replies[next as int]);
                lemma_run_keeps_engine_well_formed(
                    after.0,
                    after.1,
                    replies,
                    next + 1,
                    asked.push(request),
                );
            }
        },
        EngineStepView::Done(_) => {},
    }
}

proof fn lemma_creation_run(
    engine: EngineView,
    step: EngineStepView,
    replies: Seq<ReplyView>,
    next: nat,
    asked: Seq<RequestView>,
)
    requires
        engine.well_formed(),
        creation_holds((engine, step)),
    ensures
        creation_holds(
            (
                run_from(engine, step, replies, next, asked).engine,
                run_from(engine, step, replies, next, asked).step,
            ),
        ),
    decreases replies.len() - next,
{
    match step {
        EngineStepView::Ask(request, task) => {
            if next < replies.len() {
                lemma_creation_step(engine, task, replies[next as int]);
                lemma_engine_resume_fits(engine, task, replies[next as int]);
                let after = engine.resume(task, replies[next as int]);
                lemma_creation_run(after.0, after.1, replies, next + 1, asked.push(request));
            }
        },
        EngineStepView::Done(_) => {},
    }
}

/// Release on every error path of a creation, over whole runs. Whatever
/// the host answers, a creation that is over has either succeeded, with a
/// healthy service and a session on it, or failed with nothing left
/// behind: the engine owns neither a session nor a process.
pub proof fn lemma_failed_creation_owns_nothing(
    port: u16,
    driver_path: Seq<char>,
    browser_path: Seq<char>,
    with_fallback: bool,
    replies: Seq<ReplyView>,
)
    requires
        port + PORT_RANGE_SPAN <= u16::MAX,
    ensures
        ({
            let fresh = fresh_engine(new_manager(port, driver_path, browser_path));
            let end = run(
                fresh.create(
                    if with_fallback {
                        PurposeView::CreateWithFallback
                    } else {
                        PurposeView::Create
                    },
                ),
                replies,
            );
            match end.step {
                EngineStepView::Done(EngineOutcomeView::Ready(status)) => status.is_healthy
                    && end.engine.state() == EngineState::Ready,
                EngineStepView::Done(_) => end.engine.state() == EngineState::Uninitialized,
                EngineStepView::Ask(_, _) => true,
            }
        }),
{
    lemma_fresh_engine(port, driver_path, browser_path);
    let fresh = fresh_engine(new_manager(port, driver_path, browser_path));
    let purpose = if with_fallback {
        PurposeView::CreateWithFallback
    } else {
        PurposeView::Create
    };
    let start = fresh.create(purpose);
    lemma_creation_run(start.0, start.1, replies, 0, Seq::empty());
}

/// The replies of a host on which the recovery works: the first navigation
/// fails, the farewell to the session and the end of the old process are
/// acknowledged, the current port is free, the driver is launched as `pid` and answers, and a session
/// can be opened.
pub open spec fn recovery_replies(
    reason: Seq<char>,
    farewell: ReplyView,
    kill: ReplyView,
    pid: u32,
    status: Seq<char>,
) -> Seq<ReplyView> {
    seq![
        ReplyView::Failed { reason },
        farewell,
        kill,
        ReplyView::Port { available: true },
        ReplyView::Port { available: true },
        ReplyView::Spawned { pid },
        ReplyView::Completed,
        ReplyView::Status { success: true, status },
        ReplyView::Completed,
    ]
}

/// The requests of a fetch up to the second navigation when the recovery works.
pub open spec fn recovery_requests(e: EngineView, url: Seq<char>) -> Seq<RequestView> {
    seq![
        RequestView::Navigate { url },
        RequestView::QuitSession,
        RequestView::KillProcess { pid: e.manager.process->0 },
        RequestView::ProbePort { port: e.manager.current_port },
        RequestView::ProbePort { port: e.manager.current_port },
        RequestView::SpawnDriver {
            program: e.manager.driver_path,
            arguments: launch_arguments(e.manager.current_port),
        },
        RequestView::Settle { seconds: LAUNCH_SETTLE_SECONDS },
        RequestView::QueryStatus {
            url: status_url(e.manager.current_port),
            timeout_seconds: STATUS_TIMEOUT_SECONDS,
        },
        RequestView::OpenSession {
            server_url: server_url(e.manager.current_port),
            browser_path: e.manager.browser_path,
        },
        RequestView::Navigate { url },
    ]
}

/// The engine after a recovery: ready, on the process that was launched.
pub open spec fn recovered(e: EngineView, pid: u32) -> EngineView {
    EngineView {
        manager: ManagerView { process: Some(pid), ..e.manager },
        session_open: true,
        degraded: false,
    }
}

proof fn lemma_recovery(
    e: EngineView,
    url: Seq<char>,
    reason: Seq<char>,
    farewell: ReplyView,
    kill: ReplyView,
    pid: u32,
    status: Seq<char>,
    more: Seq<ReplyView>,
)
    requires
        e.session_open,
        e.manager.process is Some,
        farewell.is_acknowledgement(),
        kill.is_acknowledgement(),
    ensures
        run(e.get_page_source(url), recovery_replies(reason, farewell, kill, pid, status) + more)
            == run_from(
            recovered(e, pid),
            EngineStepView::Ask(
                RequestView::Navigate { url },
                EngineTaskView::Navigating { url, attempt: Attempt::Retry },
            ),
            recovery_replies(reason, farewell, kill, pid, status) + more,
            9,
            recovery_requests(e, url).drop_last(),
        ),
{
    reveal_with_fuel(EngineView::wrap, 2);
    reveal_with_fuel(EngineView::settle, 2);
    let replies = recovery_replies(reason, farewell, kill, pid, status) + more;
    let fetch = GoalView::Fetch { url };
    let port = e.manager.current_port;
    assert(replies.len() >= 9);
    assert(replies[0] == ReplyView::Failed { reason });
    assert(replies[1] == farewell);
    assert(replies[2] == kill);
    assert(replies[3] == ReplyView::Port { available: true });
    assert(replies[4] == ReplyView::Port { available: true });
    assert(replies[5] == ReplyView::Spawned { pid });
    assert(replies[6] == ReplyView::Completed);
    assert(replies[7] == ReplyView::Status { success: true, status });
    assert(replies[8] == ReplyView::Completed);

    let t0 = EngineTaskView::Navigating { url, attempt: Attempt::First };
    let q0 = RequestView::Navigate { url };
    assert(e.get_page_source(url) == (e, EngineStepView::Ask(q0, t0)));
    let a0 = Seq::<RequestView>::empty();
    lemma_run_unfolds(e, q0, t0, replies, 0, a0);

    let e1 = EngineView { session_open: false, degraded: false, ..e };
    let t1 = EngineTaskView::Closing { goal: fetch };
    let q1 = RequestView::QuitSession;
    assert(e.resume(t0, replies[0]) == (e1, EngineStepView::Ask(q1, t1)));
    let a1 = a0.push(q0);
    lemma_run_unfolds(e1, q1, t1, replies, 1, a1);

    let e2 = EngineView { manager: ManagerView { process: None, ..e.manager }, ..e1 };
    let t2 = EngineTaskView::Service {
        task: ServiceTask::RestartStop,
        purpose: PurposeView::Restart(fetch),
    };
    let q2 = RequestView::KillProcess { pid: e.manager.process->0 };
    assert(e1.resume(t1, replies[1]) == (e2, EngineStepView::Ask(q2, t2)));
    let a2 = a1.push(q1);
    lemma_run_unfolds(e2, q2, t2, replies, 2, a2);

    let t3 = EngineTaskView::Service {
        task: ServiceTask::RestartProbe,
        purpose: PurposeView::Restart(fetch),
    };
    let q3 = RequestView::ProbePort { port };
    assert(e2.resume(t2, replies[2]) == (e2, EngineStepView::Ask(q3, t3)));
    let a3 = a2.push(q2);
    lemma_run_unfolds(e2, q3, t3, replies, 3, a3);

    let t4 = EngineTaskView::Service {
        task: ServiceTask::StartProbe,
        purpose: PurposeView::Restart(fetch),
    };
    assert(e2.resume(t3, replies[3]) == (e2, EngineStepView::Ask(q3, t4)));
    let a4 = a3.push(q3);
    lemma_run_unfolds(e2, q3, t4, replies, 4, a4);

    let t5 = EngineTaskView::Service {
        task: ServiceTask::StartSpawn,
        purpose: PurposeView::Restart(fetch),
    };
    let q5 = RequestView::SpawnDriver {
        program: e.manager.driver_path,
        arguments: launch_arguments(port),
    };
    assert(e2.resume(t4, replies[4]) == (e2, EngineStepView::Ask(q5, t5)));
    let a5 = a4.push(q3);
    lemma_run_unfolds(e2, q5, t5, replies, 5, a5);

    let e6 = EngineView { manager: ManagerView { process: Some(pid), ..e.manager }, ..e1 };
    let t6 = EngineTaskView::Service {
        task: ServiceTask::StartSettle,
        purpose: PurposeView::Restart(fetch),
    };
    let q6 = RequestView::Settle { seconds: LAUNCH_SETTLE_SECONDS };
    assert(e2.resume(t5, replies[5]) == (e6, EngineStepView::Ask(q6, t6)));
    let a6 = a5.push(q5);
    lemma_run_unfolds(e6, q6, t6, replies, 6, a6);

    let t7 = EngineTaskView::Service {
        task: ServiceTask::StartVerify,
        purpose: PurposeView::Restart(fetch),
    };
    let q7 = RequestView::QueryStatus {
        url: status_url(port),
        timeout_seconds: STATUS_TIMEOUT_SECONDS,
    };
    assert(e6.resume(t6, replies[6]) == (e6, EngineStepView::Ask(q7, t7)));
    let a7 = a6.push(q6);
    lemma_run_unfolds(e6, q7, t7, replies, 7, a7);

    let t8 = EngineTaskView::Opening { port, goal: fetch };
    let q8 = RequestView::OpenSession {
        server_url: server_url(port),
        browser_path: e.manager.browser_path,
    };
    assert(e6.resume(t7, replies[7]) == (e6, EngineStepView::Ask(q8, t8)));
    let a8 = a7.push(q7);
    lemma_run_unfolds(e6, q8, t8, replies, 8, a8);

    let t9 = EngineTaskView::Navigating { url, attempt: Attempt::Retry };
    assert(e6.resume(t8, replies[8]) == (recovered(e, pid), EngineStepView::Ask(q0, t9)));
    let a9 = a8.push(q8);
    assert(a9 =~= recovery_requests(e, url).drop_last());
}

proof fn lemma_run_unfolds(
    engine: EngineView,
    request: RequestView,
    task: EngineTaskView,
    replies: Seq<ReplyView>,
    next: nat,
    asked: Seq<RequestView>,
)
    requires
        next < replies.len(),
    ensures
        run_from(engine, EngineStepView::Ask(request, task), replies, next, asked) == run_from(
            engine.resume(task, replies[next as int]).0,
            engine.resume(task, replies[next as int]).1,
            replies,
            next + 1,
            asked.push(request),
        ),
{
}

/// State recovery. A ready engine whose first navigation fails, as it does
/// when the process under it has died, goes through one restart cycle: it
/// closes the session, ends the process, launches the driver once on the port
/// that is still free, opens a fresh session and loads the page again. If
/// that works the fetch gives the page, and the engine is ready on the new
/// process.
pub proof fn lemma_fetch_recovers(
    e: EngineView,
    url: Seq<char>,
    reason: Seq<char>,
    farewell: ReplyView,
    kill: ReplyView,
    pid: u32,
    status: Seq<char>,
    html: Seq<char>,
)
    requires
        e.session_open,
        e.manager.process is Some,
        farewell.is_acknowledgement(),
        kill.is_acknowledgement(),
    ensures
        ({
            let replies = recovery_replies(reason, farewell, kill, pid, status) + seq![
                ReplyView::Completed,
                ReplyView::Completed,
                ReplyView::PageSource { html },
            ];
            let end = run(e.get_page_source(url), replies);
            &&& end.step == EngineStepView::Done(EngineOutcomeView::Page(html))
            &&& end.engine == recovered(e, pid)
            &&& end.engine.state() == EngineState::Ready
            &&& end.requests == recovery_requests(e, url).push(
                RequestView::Settle { seconds: RENDER_SETTLE_SECONDS },
            ).push(RequestView::ReadSource)
        }),
{
    let more = seq![
        ReplyView::Completed,
        ReplyView::Completed,
        ReplyView::PageSource { html },
    ];
    let replies = recovery_replies(reason, farewell, kill, pid, status) + more;
    lemma_recovery(e, url, reason, farewell, kill, pid, status, more);
    reveal_with_fuel(run_from, 4);
    assert(replies.len() == 12);
    assert(replies[9] == ReplyView::Completed);
    assert(replies[10] == ReplyView::Completed);
    assert(replies[11] == ReplyView::PageSource { html });
    assert(recovery_requests(e, url).drop_last().push(RequestView::Navigate { url })
        =~= recovery_requests(e, url));
}

/// Bounded retry, on a host where navigation always fails. The fetch
/// navigates once, restarts once, navigates once more on the fresh
/// session, and then fails with `NavigationFailed`: two navigations and one
/// launch in all. The engine stays ready for the next call.
pub proof fn lemma_fetch_gives_up(
    e: EngineView,
    url: Seq<char>,
    reason: Seq<char>,
    farewell: ReplyView,
    kill: ReplyView,
    pid: u32,
    status: Seq<char>,
    last_reason: Seq<char>,
)
    requires
        e.session_open,
        e.manager.process is Some,
        farewell.is_acknowledgement(),
        kill.is_acknowledgement(),
    ensures
        ({
            let replies = recovery_replies(reason, farewell, kill, pid, status) + seq![
                ReplyView::Failed { reason: last_reason },
            ];
            let end = run(e.get_page_source(url), replies);
            &&& end.step == EngineStepView::Done(
                EngineOutcomeView::Failed(EngineErrorView::NavigationFailed { reason: last_reason }),
            )
            &&& end.engine == recovered(e, pid)
            &&& end.requests == recovery_requests(e, url)
        }),
{
    let more = seq![ReplyView::Failed { reason: last_reason }];
    let replies = recovery_replies(reason, farewell, kill, pid, status) + more;
    lemma_recovery(e, url, reason, farewell, kill, pid, status, more);
    reveal_with_fuel(run_from, 2);
    assert(replies.len() == 10);
    assert(replies[9] == ReplyView::Failed { reason: last_reason });
    assert(recovery_requests(e, url).drop_last().push(RequestView::Navigate { url })
        =~= recovery_requests(e, url));
}

} // verus!
