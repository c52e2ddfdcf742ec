//! The boundary between the state machines and their host.
//!
//! The machines in this crate never touch the network, the process table or
//! the clock. Whenever such work is due they hand a [`Request`] to the host,
//! which carries it out and answers with a [`Reply`].

use vstd::prelude::*;

verus! {

/// Outside work that a machine asks its host to carry out.
#[derive(Debug, PartialEq, Eq)]
pub enum Request {
    /// Try to bind the port on the loopback address and release it at once.
    ProbePort { port: u16 },
    /// Terminate the driver process with this id.
    KillProcess { pid: u32 },
    /// Launch the driver binary with these arguments, its output discarded.
    SpawnDriver { program: String, arguments: Vec<String> },
    /// Let this many seconds pass.
    Settle { seconds: u64 },
    /// Send a GET request to this address and give up after this many seconds.
    QueryStatus { url: String, timeout_seconds: u64 },
    /// Open a headless automation session for this browser binary against this server.
    OpenSession { server_url: String, browser_path: String },
    /// End the session gracefully, as well as that can be done.
    QuitSession,
    /// Load this address in the session.
    Navigate { url: String },
    /// Fetch the document source of the loaded page.
    ReadSource,
    /// Close the active window of the session.
    CloseWindow,
}

/// Mathematical value of a [`Request`].
pub enum RequestView {
    ProbePort { port: u16 },
    KillProcess { pid: u32 },
    SpawnDriver { program: Seq<char>, arguments: Seq<Seq<char>> },
    Settle { seconds: u64 },
    QueryStatus { url: Seq<char>, timeout_seconds: u64 },
    OpenSession { server_url: Seq<char>, browser_path: Seq<char> },
    QuitSession,
    Navigate { url: Seq<char> },
    ReadSource,
    CloseWindow,
}

impl View for Request {
    type V = RequestView;

    open spec fn view(&self) -> RequestView {
        match *self {
            Request::ProbePort { port } => RequestView::ProbePort { port },
            Request::KillProcess { pid } => RequestView::KillProcess { pid },
            Request::SpawnDriver { program, arguments } => RequestView::SpawnDriver {
                program: program@,
                arguments: arguments.deep_view(),
            },
            Request::Settle { seconds } => RequestView::Settle { seconds },
            Request::QueryStatus { url, timeout_seconds } => RequestView::QueryStatus {
                url: url@,
                timeout_seconds,
            },
            Request::OpenSession { server_url, browser_path } => RequestView::OpenSession {
                server_url: server_url@,
                browser_path: browser_path@,
            },
            Request::QuitSession => RequestView::QuitSession,
            Request::Navigate { url } => RequestView::Navigate { url: url@ },
            Request::ReadSource => RequestView::ReadSource,
            Request::CloseWindow => RequestView::CloseWindow,
        }
    }
}

/// What the host reports back after carrying out a [`Request`].
#[derive(Debug, PartialEq, Eq)]
pub enum Reply {
    /// Answer to a port probe.
    Port { available: bool },
    /// The driver process was launched.
    Spawned { pid: u32 },
    /// The status endpoint answered; `status` is the status line of the response.
    Status { success: bool, status: String },
    /// The document source of the loaded page.
    PageSource { html: String },
    /// The request was carried out and there is nothing to report.
    Completed,
    /// The request could not be carried out.
    Failed { reason: String },
}

/// Mathematical value of a [`Reply`].
pub enum ReplyView {
    Port { available: bool },
    Spawned { pid: u32 },
    Status { success: bool, status: Seq<char> },
    PageSource { html: Seq<char> },
    Completed,
    Failed { reason: Seq<char> },
}

impl View for Reply {
    type V = ReplyView;

    open spec fn view(&self) -> ReplyView {
        match *self {
            Reply::Port { available } => ReplyView::Port { available },
            Reply::Spawned { pid } => ReplyView::Spawned { pid },
            Reply::Status { success, status } => ReplyView::Status { success, status: status@ },
            Reply::PageSource { html } => ReplyView::PageSource { html: html@ },
            Reply::Completed => ReplyView::Completed,
            Reply::Failed { reason } => ReplyView::Failed { reason: reason@ },
        }
    }
}

impl ReplyView {
    /// An acknowledgement: the request ran its course, whether or not it worked.
    pub open spec fn is_acknowledgement(self) -> bool {
        self is Completed || self is Failed
    }
}

} // verus!
