//! The messages between clients, the supervisor and workers.
use crate::ids::ProcessId;
use crate::text;
use crate::types::{
    ProcessKind, SupervisorSnapshot, SupervisorSnapshotView, WorkPage, WorkPageView, WorkSection,
    WorkerStatus, WorkerStatusView,
};
use vstd::prelude::*;

verus! {

/// The version of the protocol that this library speaks.
pub const PROTOCOL_VERSION: u32 = 2;

/// A process asks to be managed.
#[derive(Debug, PartialEq, Eq)]
pub struct RegisterRequest {
    pub id: Option<ProcessId>,
    pub lease_token: Option<ProcessId>,
    pub pid: u32,
    pub parent_pid: Option<u32>,
    pub kind: ProcessKind,
    pub executable: String,
    pub argv: Vec<String>,
    pub cwd: String,
    pub thread_id: Option<String>,
    pub worker_endpoint: String,
    pub worker_token: String,
}

/// The view of [`RegisterRequest`].
#[verifier::ext_equal]
pub struct RegisterRequestView {
    pub id: Option<ProcessId>,
    pub lease_token: Option<ProcessId>,
    pub pid: u32,
    pub parent_pid: Option<u32>,
    pub kind: ProcessKind,
    pub executable: Seq<char>,
    pub argv: Seq<Seq<char>>,
    pub cwd: Seq<char>,
    pub thread_id: Option<Seq<char>>,
    pub worker_endpoint: Seq<char>,
    pub worker_token: Seq<char>,
}

impl View for RegisterRequest {
    type V = RegisterRequestView;

    open spec fn view(&self) -> RegisterRequestView {
        RegisterRequestView {
            id: self.id,
            lease_token: self.lease_token,
            pid: self.pid,
            parent_pid: self.parent_pid,
            kind: self.kind,
            executable: self.executable@,
            argv: text::texts(self.argv@),
            cwd: self.cwd@,
            thread_id: text::opt_text(self.thread_id),
            worker_endpoint: self.worker_endpoint@,
            worker_token: self.worker_token@,
        }
    }
}

/// A client asks for one page of a worker's content.
#[derive(Debug, PartialEq, Eq)]
pub struct WorkRequest {
    pub id: ProcessId,
    pub section: WorkSection,
    pub cursor: Option<String>,
    pub limit: u32,
}

/// The view of [`WorkRequest`].
#[verifier::ext_equal]
pub struct WorkRequestView {
    pub id: ProcessId,
    pub section: WorkSection,
    pub cursor: Option<Seq<char>>,
    pub limit: u32,
}

impl View for WorkRequest {
    type V = WorkRequestView;

    open spec fn view(&self) -> WorkRequestView {
        WorkRequestView {
            id: self.id,
            section: self.section,
            cursor: text::opt_text(self.cursor),
            limit: self.limit,
        }
    }
}

/// A client asks for a new worker.
#[derive(Debug, PartialEq, Eq)]
pub struct SpawnWorkerRequest {
    pub executable: String,
    pub args: Vec<String>,
    pub cwd: String,
    pub kind: ProcessKind,
    pub thread_id: Option<String>,
}

/// The view of [`SpawnWorkerRequest`].
#[verifier::ext_equal]
pub struct SpawnWorkerRequestView {
    pub executable: Seq<char>,
    pub args: Seq<Seq<char>>,
    pub cwd: Seq<char>,
    pub kind: ProcessKind,
    pub thread_id: Option<Seq<char>>,
}

impl View for SpawnWorkerRequest {
    type V = SpawnWorkerRequestView;

    open spec fn view(&self) -> SpawnWorkerRequestView {
        SpawnWorkerRequestView {
            executable: self.executable@,
            args: text::texts(self.args@),
            cwd: self.cwd@,
            kind: self.kind,
            thread_id: text::opt_text(self.thread_id),
        }
    }
}

/// What a client asks of the supervisor.
#[derive(Debug, PartialEq, Eq)]
pub enum Request {
    Ping,
    Register(RegisterRequest),
    Unregister { id: ProcessId, lease_token: ProcessId },
    List,
    ReadWork(WorkRequest),
    SpawnWorker(SpawnWorkerRequest),
    Terminate { id: ProcessId },
}

/// What the supervisor answers.
#[derive(Debug, PartialEq, Eq)]
pub enum Response {
    Pong,
    Registered { id: ProcessId, lease_token: ProcessId, protocol_version: Option<u32> },
    Spawned { id: ProcessId, pid: u32 },
    Snapshot(SupervisorSnapshot),
    WorkPage(WorkPage),
    Ack,
    Error { message: String },
}

/// The view of [`Response`].
#[verifier::ext_equal]
pub enum ResponseView {
    Pong,
    Registered { id: ProcessId, lease_token: ProcessId, protocol_version: Option<u32> },
    Spawned { id: ProcessId, pid: u32 },
    Snapshot(SupervisorSnapshotView),
    WorkPage(WorkPageView),
    Ack,
    Error { message: Seq<char> },
}

impl View for Response {
    type V = ResponseView;

    open spec fn view(&self) -> ResponseView {
        match self {
            Response::Pong => ResponseView::Pong,
            Response::Registered { id, lease_token, protocol_version } => ResponseView::Registered {
                id: *id,
                lease_token: *lease_token,
                protocol_version: *protocol_version,
            },
            Response::Spawned { id, pid } => ResponseView::Spawned { id: *id, pid: *pid },
            Response::Snapshot(snapshot) => ResponseView::Snapshot(snapshot@),
            Response::WorkPage(page) => ResponseView::WorkPage(page@),
            Response::Ack => ResponseView::Ack,
            Response::Error { message } => ResponseView::Error { message: message@ },
        }
    }
}

/// What the supervisor asks of a worker.
#[derive(Debug, PartialEq, Eq)]
pub enum WorkerRequest {
    ReadStatus,
    ReadWork(WorkRequest),
}

/// What a worker answers.
#[derive(Debug, PartialEq, Eq)]
pub enum WorkerResponse {
    Status(WorkerStatus),
    WorkPage(WorkPage),
    Error { message: String },
}

/// The view of [`WorkerResponse`].
#[verifier::ext_equal]
pub enum WorkerResponseView {
    Status(WorkerStatusView),
    WorkPage(WorkPageView),
    Error { message: Seq<char> },
}

impl View for WorkerResponse {
    type V = WorkerResponseView;

    open spec fn view(&self) -> WorkerResponseView {
        match self {
            WorkerResponse::Status(status) => WorkerResponseView::Status(status@),
            WorkerResponse::WorkPage(page) => WorkerResponseView::WorkPage(page@),
            WorkerResponse::Error { message } => WorkerResponseView::Error { message: message@ },
        }
    }
}

/// A request to the supervisor with the token that admits it.
#[derive(Debug, PartialEq, Eq)]
pub struct Envelope {
    pub token: String,
    pub request: Request,
}

/// A request to a worker with the token that admits it.
#[derive(Debug, PartialEq, Eq)]
pub struct WorkerEnvelope {
    pub token: String,
    pub request: WorkerRequest,
}

} // verus!
