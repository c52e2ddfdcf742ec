use price_tracker::host::{Reply, Request};
use price_tracker::scraper_engine::{
    BrowserEngine, EngineError, EngineOutcome, EngineState, EngineStep, Phase,
};
use price_tracker::status::{BrowserEngineStatus, PriceEngineStatus, ServiceStatus};

const URL: &str = "https://www.amazon.in/dp/B0ABCDEFGH";

/// What a scripted host does with each kind of request.
struct Script {
    busy: Vec<u16>,
    pid: u32,
    spawn_works: bool,
    status_success: bool,
    session_opens: bool,
    /// How many navigations fail before they begin to work.
    failing_navigations: usize,
    reads_work: bool,
    navigations: usize,
    spawns: usize,
}

fn script() -> Script {
    Script {
        busy: vec![],
        pid: 100,
        spawn_works: true,
        status_success: true,
        session_opens: true,
        failing_navigations: 0,
        reads_work: true,
        navigations: 0,
        spawns: 0,
    }
}

fn answer(script: &mut Script, request: &Request) -> Reply {
    match request {
        Request::ProbePort { port } => Reply::Port { available: !script.busy.contains(port) },
        Request::KillProcess { .. } => Reply::Completed,
        Request::SpawnDriver { .. } => {
            script.spawns += 1;
            if script.spawn_works {
                script.pid += 1;
                Reply::Spawned { pid: script.pid }
            } else {
                Reply::Failed { reason: "No such file or directory".to_string() }
            }
        }
        Request::Settle { .. } => Reply::Completed,
        Request::QueryStatus { .. } => {
            Reply::Status { success: script.status_success, status: "503 Busy".to_string() }
        }
        Request::OpenSession { .. } => {
            if script.session_opens {
                Reply::Completed
            } else {
                Reply::Failed { reason: "session not created".to_string() }
            }
        }
        Request::QuitSession | Request::CloseWindow => Reply::Completed,
        Request::Navigate { .. } => {
            script.navigations += 1;
            if script.navigations <= script.failing_navigations {
                Reply::Failed { reason: format!("navigation {} failed", script.navigations) }
            } else {
                Reply::Completed
            }
        }
        Request::ReadSource => {
            if script.reads_work {
                Reply::PageSource { html: "<html></html>".to_string() }
            } else {
                Reply::Failed { reason: "no such window".to_string() }
            }
        }
    }
}

fn drive(
    engine: &mut BrowserEngine,
    first: EngineStep,
    script: &mut Script,
) -> (Vec<Request>, EngineOutcome) {
    let mut requests = Vec::new();
    let mut step = first;
    loop {
        match step {
            EngineStep::Ask(request, task) => {
                let reply = answer(script, &request);
                requests.push(request);
                step = engine.resume(task, reply);
            }
            EngineStep::Done(outcome) => return (requests, outcome),
        }
    }
}

fn ready_engine(script: &mut Script) -> BrowserEngine {
    let (mut engine, first) =
        BrowserEngine::new(9515, "/usr/bin/chromium", "/usr/bin/chromedriver");
    let (_, outcome) = drive(&mut engine, first, script);
    assert_eq!(
        outcome,
        EngineOutcome::Ready(ServiceStatus { is_healthy: true, port: 9515, error_message: None })
    );
    engine
}

fn spawn_request(port: u16) -> Request {
    Request::SpawnDriver {
        program: "/usr/bin/chromedriver".to_string(),
        arguments: vec![format!("--port={}", port), "--whitelisted-ips=".to_string()],
    }
}

fn open_request(port: u16) -> Request {
    Request::OpenSession {
        server_url: format!("http://localhost:{}", port),
        browser_path: "/usr/bin/chromium".to_string(),
    }
}

#[test]
fn new_engine_starts_the_service_and_opens_a_session() {
    let (mut engine, first) =
        BrowserEngine::new(9515, "/usr/bin/chromium", "/usr/bin/chromedriver");
    assert_eq!(engine.state(), EngineState::Uninitialized);
    let mut s = script();
    let (requests, outcome) = drive(&mut engine, first, &mut s);
    assert_eq!(
        requests,
        vec![
            Request::ProbePort { port: 9515 },
            spawn_request(9515),
            Request::Settle { seconds: 3 },
            Request::QueryStatus { url: "http://localhost:9515/status".to_string(), timeout_seconds: 5 },
            open_request(9515),
        ]
    );
    assert_eq!(
        outcome,
        EngineOutcome::Ready(ServiceStatus { is_healthy: true, port: 9515, error_message: None })
    );
    assert_eq!(engine.state(), EngineState::Ready);
    assert_eq!(engine.get_current_port(), 9515);
    assert!(engine.needs_shutdown());
}

#[test]
fn new_engine_fails_when_the_port_is_busy() {
    let (mut engine, first) =
        BrowserEngine::new(9515, "/usr/bin/chromium", "/usr/bin/chromedriver");
    let mut s = script();
    s.busy = vec![9515];
    let (_, outcome) = drive(&mut engine, first, &mut s);
    assert_eq!(
        outcome,
        EngineOutcome::Failed(EngineError::StartFailed {
            message: "port busy, reassigned".to_string()
        })
    );
    assert_eq!(engine.state(), EngineState::Uninitialized);
    assert_eq!(engine.get_current_port(), 9516);
}

#[test]
fn new_engine_fails_when_the_driver_cannot_be_launched() {
    let (mut engine, first) =
        BrowserEngine::new(9515, "/usr/bin/chromium", "/usr/bin/chromedriver");
    let mut s = script();
    s.spawn_works = false;
    let (_, outcome) = drive(&mut engine, first, &mut s);
    assert_eq!(
        outcome,
        EngineOutcome::Failed(EngineError::SpawnFailed {
            reason: "No such file or directory".to_string()
        })
    );
}

#[test]
fn new_engine_fails_when_no_session_opens() {
    let (mut engine, first) =
        BrowserEngine::new(9515, "/usr/bin/chromium", "/usr/bin/chromedriver");
    let mut s = script();
    s.session_opens = false;
    let (requests, outcome) = drive(&mut engine, first, &mut s);
    assert_eq!(
        outcome,
        EngineOutcome::Failed(EngineError::SessionOpenFailed {
            reason: "session not created".to_string()
        })
    );
    assert_eq!(requests.last(), Some(&Request::KillProcess { pid: 101 }));
    assert_eq!(engine.state(), EngineState::Uninitialized);
    assert!(!engine.needs_shutdown());
}

/// An engine with a process and without a session: its restart could not
/// open one.
fn engine_without_session(s: &mut Script) -> BrowserEngine {
    let mut engine = ready_engine(s);
    s.session_opens = false;
    let first = engine.restart_with_fallback();
    let (_, outcome) = drive(&mut engine, first, s);
    assert_eq!(
        outcome,
        EngineOutcome::Failed(EngineError::SessionOpenFailed {
            reason: "session not created".to_string()
        })
    );
    assert_eq!(engine.state(), EngineState::ProcessOnly);
    s.session_opens = true;
    engine
}

#[test]
fn new_with_fallback_moves_to_the_next_port() {
    let (mut engine, first) =
        BrowserEngine::new_with_fallback(9515, "/usr/bin/chromium", "/usr/bin/chromedriver");
    let mut s = script();
    s.busy = vec![9515];
    let (requests, outcome) = drive(&mut engine, first, &mut s);
    assert_eq!(
        requests,
        vec![
            Request::ProbePort { port: 9515 },
            Request::ProbePort { port: 9515 },
            Request::ProbePort { port: 9516 },
            Request::ProbePort { port: 9516 },
            Request::ProbePort { port: 9516 },
            spawn_request(9516),
            Request::Settle { seconds: 3 },
            Request::QueryStatus { url: "http://localhost:9516/status".to_string(), timeout_seconds: 5 },
            open_request(9516),
        ]
    );
    assert_eq!(
        outcome,
        EngineOutcome::Ready(ServiceStatus { is_healthy: true, port: 9516, error_message: None })
    );
    assert_eq!(engine.get_current_port(), 9516);
    assert_eq!(engine.state(), EngineState::Ready);
}

#[test]
fn new_with_fallback_gives_up_after_one_restart() {
    let (mut engine, first) =
        BrowserEngine::new_with_fallback(9515, "/usr/bin/chromium", "/usr/bin/chromedriver");
    let mut s = script();
    s.status_success = false;
    let (_, outcome) = drive(&mut engine, first, &mut s);
    assert_eq!(s.spawns, 2);
    assert_eq!(
        outcome,
        EngineOutcome::Failed(EngineError::FallbackFailed {
            message: "Service unhealthy on port 9515: HTTP 503 Busy".to_string()
        })
    );
}

#[test]
fn fetch_on_a_ready_engine_navigates_once() {
    let mut s = script();
    let mut engine = ready_engine(&mut s);
    let first = engine.get_page_source(URL);
    let (requests, outcome) = drive(&mut engine, first, &mut s);
    assert_eq!(
        requests,
        vec![
            Request::Navigate { url: URL.to_string() },
            Request::Settle { seconds: 2 },
            Request::ReadSource,
        ]
    );
    assert_eq!(outcome, EngineOutcome::Page("<html></html>".to_string()));
    assert_eq!(s.spawns, 1);
}

#[test]
fn fetch_recovers_from_a_dead_driver_with_one_restart() {
    let mut s = script();
    let mut engine = ready_engine(&mut s);
    s.navigations = 0;
    s.spawns = 0;
    s.failing_navigations = 1;
    let first = engine.get_page_source(URL);
    let (requests, outcome) = drive(&mut engine, first, &mut s);
    assert_eq!(
        requests,
        vec![
            Request::Navigate { url: URL.to_string() },
            Request::QuitSession,
            Request::KillProcess { pid: 101 },
            Request::ProbePort { port: 9515 },
            Request::ProbePort { port: 9515 },
            spawn_request(9515),
            Request::Settle { seconds: 3 },
            Request::QueryStatus { url: "http://localhost:9515/status".to_string(), timeout_seconds: 5 },
            open_request(9515),
            Request::Navigate { url: URL.to_string() },
            Request::Settle { seconds: 2 },
            Request::ReadSource,
        ]
    );
    assert_eq!(outcome, EngineOutcome::Page("<html></html>".to_string()));
    assert_eq!(s.spawns, 1);
    assert_eq!(s.navigations, 2);
    assert_eq!(engine.state(), EngineState::Ready);
}

#[test]
fn fetch_with_failing_navigation_restarts_once_and_gives_up() {
    let mut s = script();
    let mut engine = ready_engine(&mut s);
    s.navigations = 0;
    s.spawns = 0;
    s.failing_navigations = usize::MAX;
    let first = engine.get_page_source(URL);
    let (requests, outcome) = drive(&mut engine, first, &mut s);
    assert_eq!(s.navigations, 2);
    assert_eq!(s.spawns, 1);
    assert_eq!(requests.len(), 10);
    assert_eq!(
        outcome,
        EngineOutcome::Failed(EngineError::NavigationFailed {
            reason: "navigation 2 failed".to_string()
        })
    );
    assert_eq!(engine.state(), EngineState::Ready);

    // The engine stays usable: the next fetch goes through the same bounded cycle.
    s.navigations = 0;
    s.spawns = 0;
    s.failing_navigations = 0;
    let first = engine.get_page_source(URL);
    let (_, outcome) = drive(&mut engine, first, &mut s);
    assert_eq!(outcome, EngineOutcome::Page("<html></html>".to_string()));
}

#[test]
fn fetch_restarts_when_the_source_cannot_be_read() {
    let mut s = script();
    let mut engine = ready_engine(&mut s);
    s.navigations = 0;
    s.spawns = 0;
    s.reads_work = false;
    let first = engine.get_page_source(URL);
    let (_, outcome) = drive(&mut engine, first, &mut s);
    assert_eq!(s.navigations, 2);
    assert_eq!(s.spawns, 1);
    assert_eq!(
        outcome,
        EngineOutcome::Failed(EngineError::NavigationFailed {
            reason: "no such window".to_string()
        })
    );
}

#[test]
fn fetch_fails_when_the_restart_leaves_the_service_unhealthy() {
    let mut s = script();
    let mut engine = ready_engine(&mut s);
    s.navigations = 0;
    s.spawns = 0;
    s.failing_navigations = usize::MAX;
    s.status_success = false;
    let first = engine.get_page_source(URL);
    let (_, outcome) = drive(&mut engine, first, &mut s);
    assert_eq!(s.navigations, 1);
    assert_eq!(s.spawns, 1);
    assert_eq!(
        outcome,
        EngineOutcome::Failed(EngineError::ServiceUnavailable {
            message: "Service unhealthy on port 9515: HTTP 503 Busy".to_string()
        })
    );
    assert_eq!(engine.state(), EngineState::ProcessOnly);
}

#[test]
fn fetch_without_a_session_starts_with_the_restart() {
    let mut s = script();
    let mut engine = engine_without_session(&mut s);
    s.spawns = 0;
    let first = engine.get_page_source(URL);
    let (requests, outcome) = drive(&mut engine, first, &mut s);
    assert_eq!(requests[0], Request::KillProcess { pid: 102 });
    assert_eq!(s.navigations, 1);
    assert_eq!(s.spawns, 1);
    assert_eq!(outcome, EngineOutcome::Page("<html></html>".to_string()));
}

#[test]
fn restart_with_fallback_replaces_session_and_process() {
    let mut s = script();
    let mut engine = ready_engine(&mut s);
    let first = engine.restart_with_fallback();
    assert_eq!(engine.state(), EngineState::ProcessOnly);
    let (requests, outcome) = drive(&mut engine, first, &mut s);
    assert_eq!(requests[0], Request::QuitSession);
    assert_eq!(requests[1], Request::KillProcess { pid: 101 });
    assert_eq!(
        outcome,
        EngineOutcome::Ready(ServiceStatus { is_healthy: true, port: 9515, error_message: None })
    );
    assert_eq!(engine.state(), EngineState::Ready);
}

#[test]
fn restart_with_fallback_reports_a_session_that_does_not_open() {
    let mut s = script();
    let mut engine = ready_engine(&mut s);
    s.session_opens = false;
    let first = engine.restart_with_fallback();
    let (_, outcome) = drive(&mut engine, first, &mut s);
    assert_eq!(
        outcome,
        EngineOutcome::Failed(EngineError::SessionOpenFailed {
            reason: "session not created".to_string()
        })
    );
}

#[test]
fn status_of_a_ready_engine_is_running() {
    let mut s = script();
    let mut engine = ready_engine(&mut s);
    let first = engine.check_service_status();
    let (requests, outcome) = drive(&mut engine, first, &mut s);
    assert_eq!(
        requests,
        vec![Request::QueryStatus { url: "http://localhost:9515/status".to_string(), timeout_seconds: 5 }]
    );
    assert_eq!(
        outcome,
        EngineOutcome::Report(BrowserEngineStatus {
            is_running: true,
            current_port: 9515,
            message: "Service is healthy".to_string(),
            requires_restart: false,
        })
    );
    assert_eq!(engine.state(), EngineState::Ready);
}

#[test]
fn status_of_an_unhealthy_service_asks_for_a_restart() {
    let mut s = script();
    let mut engine = ready_engine(&mut s);
    s.status_success = false;
    let first = engine.check_service_status();
    let (_, outcome) = drive(&mut engine, first, &mut s);
    assert_eq!(
        outcome,
        EngineOutcome::Report(BrowserEngineStatus {
            is_running: false,
            current_port: 9515,
            message: "Service unhealthy on port 9515: HTTP 503 Busy".to_string(),
            requires_restart: true,
        })
    );
    assert_eq!(engine.state(), EngineState::Degraded);

    s.status_success = true;
    let first = engine.check_service_status();
    drive(&mut engine, first, &mut s);
    assert_eq!(engine.state(), EngineState::Ready);
}

#[test]
fn status_without_a_session_is_not_running() {
    let mut s = script();
    let mut engine = engine_without_session(&mut s);
    let first = engine.check_service_status();
    let (_, outcome) = drive(&mut engine, first, &mut s);
    assert_eq!(
        outcome,
        EngineOutcome::Report(BrowserEngineStatus {
            is_running: false,
            current_port: 9515,
            message: "Service is healthy".to_string(),
            requires_restart: false,
        })
    );
}

#[test]
fn close_current_tab_needs_a_session() {
    let (engine, _) = BrowserEngine::new(9515, "/usr/bin/chromium", "/usr/bin/chromedriver");
    assert_eq!(
        engine.close_current_tab(),
        EngineStep::Done(EngineOutcome::Failed(EngineError::SessionClosed))
    );
}

#[test]
fn close_current_tab_closes_the_window() {
    let mut s = script();
    let mut engine = ready_engine(&mut s);
    let first = engine.close_current_tab();
    let (requests, outcome) = drive(&mut engine, first, &mut s);
    assert_eq!(requests, vec![Request::CloseWindow]);
    assert_eq!(outcome, EngineOutcome::TabClosed);
}

#[test]
fn shutdown_ends_session_then_process() {
    let mut s = script();
    let mut engine = ready_engine(&mut s);
    let first = engine.shutdown();
    let (requests, outcome) = drive(&mut engine, first, &mut s);
    assert_eq!(requests, vec![Request::QuitSession, Request::KillProcess { pid: 101 }]);
    assert_eq!(outcome, EngineOutcome::ShutDown);
    assert_eq!(engine.state(), EngineState::Uninitialized);
    assert!(!engine.needs_shutdown());
}

#[test]
fn shutdown_twice_is_a_no_op() {
    let mut s = script();
    let mut engine = ready_engine(&mut s);
    let first = engine.shutdown();
    drive(&mut engine, first, &mut s);
    let second = engine.shutdown();
    assert_eq!(second, EngineStep::Done(EngineOutcome::ShutDown));
    assert_eq!(engine.state(), EngineState::Uninitialized);
    let third = engine.shutdown();
    assert_eq!(third, EngineStep::Done(EngineOutcome::ShutDown));
}

#[test]
fn a_reply_of_the_wrong_kind_fails_the_operation() {
    let mut s = script();
    let mut engine = ready_engine(&mut s);
    let first = engine.get_page_source(URL);
    let task = match first {
        EngineStep::Ask(_, task) => task,
        EngineStep::Done(_) => panic!("a fetch begins with a request"),
    };
    let step = engine.resume(task, Reply::Port { available: true });
    assert_eq!(step, EngineStep::Done(EngineOutcome::Failed(EngineError::UnexpectedReply)));
}

#[test]
fn stamped_status_carries_the_report() {
    let report = BrowserEngineStatus {
        is_running: true,
        current_port: 9515,
        message: "Service is healthy".to_string(),
        requires_restart: false,
    };
    assert_eq!(
        PriceEngineStatus::stamped(report, "2024-01-02 03:04:05 UTC".to_string()),
        PriceEngineStatus {
            is_healthy: true,
            current_port: 9515,
            message: "Service is healthy".to_string(),
            last_check: "2024-01-02 03:04:05 UTC".to_string(),
        }
    );
}

#[test]
fn report_from_service_status() {
    let status =
        ServiceStatus { is_healthy: false, port: 7, error_message: Some("down".to_string()) };
    assert_eq!(
        BrowserEngineStatus::from_service(status, true),
        BrowserEngineStatus {
            is_running: false,
            current_port: 7,
            message: "down".to_string(),
            requires_restart: true,
        }
    );
}

#[test]
fn new_engine_fails_when_no_port_is_free() {
    let (mut engine, first) =
        BrowserEngine::new(9515, "/usr/bin/chromium", "/usr/bin/chromedriver");
    let mut s = script();
    s.busy = (9515..=9615).collect();
    let (requests, outcome) = drive(&mut engine, first, &mut s);
    assert_eq!(requests.len(), 102);
    assert_eq!(
        outcome,
        EngineOutcome::Failed(EngineError::NoPortAvailable { min: 9515, max: 9615 })
    );
    assert_eq!(s.spawns, 0);
}

#[test]
fn close_current_tab_surfaces_a_failure() {
    let mut s = script();
    let mut engine = ready_engine(&mut s);
    let first = engine.close_current_tab();
    let task = match first {
        EngineStep::Ask(request, task) => {
            assert_eq!(request, Request::CloseWindow);
            task
        }
        EngineStep::Done(_) => panic!("closing a tab begins with a request"),
    };
    let step = engine.resume(task, Reply::Failed { reason: "no such window".to_string() });
    assert_eq!(
        step,
        EngineStep::Done(EngineOutcome::Failed(EngineError::CloseFailed {
            reason: "no such window".to_string()
        }))
    );
    assert_eq!(engine.state(), EngineState::Ready);
}

#[test]
fn errors_name_their_phase() {
    assert_eq!(EngineError::NoPortAvailable { min: 1, max: 2 }.phase(), Phase::PortAllocation);
    assert_eq!(EngineError::SpawnFailed { reason: String::new() }.phase(), Phase::ProcessStart);
    assert_eq!(EngineError::StartFailed { message: String::new() }.phase(), Phase::ProcessStart);
    assert_eq!(EngineError::FallbackFailed { message: String::new() }.phase(), Phase::ProcessStart);
    assert_eq!(
        EngineError::ServiceUnavailable { message: String::new() }.phase(),
        Phase::ProcessStart
    );
    assert_eq!(EngineError::SessionOpenFailed { reason: String::new() }.phase(), Phase::SessionOpen);
    assert_eq!(EngineError::SessionClosed.phase(), Phase::SessionOpen);
    assert_eq!(EngineError::NavigationFailed { reason: String::new() }.phase(), Phase::Navigation);
    assert_eq!(EngineError::CloseFailed { reason: String::new() }.phase(), Phase::Navigation);
    assert_eq!(EngineError::UnexpectedReply.phase(), Phase::Protocol);
}

#[test]
fn errors_describe_themselves() {
    assert_eq!(
        EngineError::NoPortAvailable { min: 9515, max: 9615 }.describe(),
        "No available ports found in range 9515-9615"
    );
    assert_eq!(
        EngineError::SpawnFailed { reason: "not found".to_string() }.describe(),
        "Failed to start chromedriver. Is it in your PATH? Error: not found"
    );
    assert_eq!(
        EngineError::StartFailed { message: "port busy, reassigned".to_string() }.describe(),
        "Failed to start browser service: port busy, reassigned"
    );
    assert_eq!(
        EngineError::FallbackFailed { message: "down".to_string() }.describe(),
        "Failed to start browser service after fallback: down"
    );
    assert_eq!(
        EngineError::ServiceUnavailable { message: "down".to_string() }.describe(),
        "Failed to restart service: down"
    );
    assert_eq!(
        EngineError::SessionOpenFailed { reason: "refused".to_string() }.describe(),
        "Failed to create WebDriver: refused"
    );
    assert_eq!(EngineError::NavigationFailed { reason: "timeout".to_string() }.describe(), "timeout");
    assert_eq!(
        EngineError::SessionClosed.describe(),
        "Browser has been shut down and is no longer available."
    );
    assert_eq!(EngineError::CloseFailed { reason: "gone".to_string() }.describe(), "gone");
    assert_eq!(
        EngineError::UnexpectedReply.describe(),
        "The host gave a reply that does not fit the request"
    );
}

#[test]
fn engine_conditions_follow_the_handles() {
    let (mut engine, first) =
        BrowserEngine::new(9515, "/usr/bin/chromium", "/usr/bin/chromedriver");
    let mut s = script();
    let mut step = first;
    let mut seen = vec![engine.state()];
    loop {
        match step {
            EngineStep::Ask(request, task) => {
                let reply = answer(&mut s, &request);
                step = engine.resume(task, reply);
                if seen.last() != Some(&engine.state()) {
                    seen.push(engine.state());
                }
            }
            EngineStep::Done(_) => break,
        }
    }
    assert_eq!(
        seen,
        vec![EngineState::Uninitialized, EngineState::ProcessOnly, EngineState::Ready]
    );
}

#[test]
fn failed_creation_leaves_nothing_behind() {
    // The service stays unhealthy: with and without fallback the process
    // that was launched last is ended before the failure is reported.
    let (mut engine, first) =
        BrowserEngine::new(9515, "/usr/bin/chromium", "/usr/bin/chromedriver");
    let mut s = script();
    s.status_success = false;
    let (requests, outcome) = drive(&mut engine, first, &mut s);
    assert_eq!(
        outcome,
        EngineOutcome::Failed(EngineError::StartFailed {
            message: "Service unhealthy on port 9515: HTTP 503 Busy".to_string()
        })
    );
    assert_eq!(requests.last(), Some(&Request::KillProcess { pid: 101 }));
    assert_eq!(engine.state(), EngineState::Uninitialized);

    let (mut engine, first) =
        BrowserEngine::new_with_fallback(9515, "/usr/bin/chromium", "/usr/bin/chromedriver");
    let mut s = script();
    s.status_success = false;
    let (requests, _) = drive(&mut engine, first, &mut s);
    let kills: Vec<&Request> =
        requests.iter().filter(|r| matches!(r, Request::KillProcess { .. })).collect();
    assert_eq!(
        kills,
        vec![&Request::KillProcess { pid: 101 }, &Request::KillProcess { pid: 102 }]
    );
    assert_eq!(engine.state(), EngineState::Uninitialized);
}

#[test]
fn restart_closes_the_session_before_anything_else() {
    let mut s = script();
    let mut engine = ready_engine(&mut s);
    let first = engine.restart_with_fallback();
    let (requests, _) = drive(&mut engine, first, &mut s);
    assert_eq!(
        requests,
        vec![
            Request::QuitSession,
            Request::KillProcess { pid: 101 },
            Request::ProbePort { port: 9515 },
            Request::ProbePort { port: 9515 },
            spawn_request(9515),
            Request::Settle { seconds: 3 },
            Request::QueryStatus {
                url: "http://localhost:9515/status".to_string(),
                timeout_seconds: 5
            },
            open_request(9515),
        ]
    );
}

#[test]
fn restart_goes_on_when_the_session_cannot_be_closed() {
    let mut s = script();
    let mut engine = ready_engine(&mut s);
    let first = engine.restart_with_fallback();
    let task = match first {
        EngineStep::Ask(request, task) => {
            assert_eq!(request, Request::QuitSession);
            task
        }
        EngineStep::Done(_) => panic!("a restart with a session begins with a request"),
    };
    let step = engine.resume(task, Reply::Failed { reason: "session is gone".to_string() });
    match step {
        EngineStep::Ask(request, _) => assert_eq!(request, Request::KillProcess { pid: 101 }),
        EngineStep::Done(_) => panic!("the restart goes on"),
    }
}

#[test]
fn a_task_that_does_not_fit_is_rejected() {
    // A task of a fetch on an engine that has been shut down meanwhile.
    let mut s = script();
    let mut engine = ready_engine(&mut s);
    let fetch = engine.get_page_source(URL);
    let task = match fetch {
        EngineStep::Ask(_, task) => task,
        EngineStep::Done(_) => panic!("a fetch begins with a request"),
    };
    let first = engine.shutdown();
    drive(&mut engine, first, &mut s);
    assert!(!engine.fits(&task));
    let step = engine.resume(task, Reply::Completed);
    assert_eq!(step, EngineStep::Done(EngineOutcome::Failed(EngineError::StaleTask)));
    assert_eq!(engine.state(), EngineState::Uninitialized);

    // A task of a creation on another engine, which owns nothing: no
    // session is taken for open without a process under it.
    let (mut other, first) =
        BrowserEngine::new(9515, "/usr/bin/chromium", "/usr/bin/chromedriver");
    let mut s = script();
    let mut step = first;
    let mut opening = None;
    loop {
        match step {
            EngineStep::Ask(request, task) => {
                if matches!(request, Request::OpenSession { .. }) {
                    opening = Some(task);
                    break;
                }
                let reply = answer(&mut s, &request);
                step = other.resume(task, reply);
            }
            EngineStep::Done(_) => break,
        }
    }
    let (mut fresh, _) = BrowserEngine::new(9515, "/usr/bin/chromium", "/usr/bin/chromedriver");
    let step = fresh.resume(opening.unwrap(), Reply::Completed);
    assert_eq!(step, EngineStep::Done(EngineOutcome::Failed(EngineError::StaleTask)));
    assert_eq!(fresh.state(), EngineState::Uninitialized);
    assert_eq!(EngineError::StaleTask.phase(), Phase::Protocol);
    assert_eq!(
        EngineError::StaleTask.describe(),
        "The task does not belong to the engine as it now is"
    );
}
