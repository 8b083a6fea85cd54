//! The registry of managed processes: records, leases and the ways to reach workers.
//!
//! Every change is one step from a state to the next. A step that fails leaves the state as it is.
use crate::ids::ProcessId;
use crate::protocol::{
    RegisterRequest, RegisterRequestView, Response, ResponseView, SpawnWorkerRequest,
    SpawnWorkerRequestView, PROTOCOL_VERSION,
};
use crate::types::{
    ActivityStatus, ProcessMode, ProcessRecord, ProcessRecordView, ProcessStatus,
};
use crate::{clock, ids, text};
use std::collections::BTreeMap;
use std::collections::HashMap;
use vstd::prelude::*;

verus! {

broadcast use {
    vstd::std_specs::btree::group_btree_axioms,
    vstd::std_specs::hash::group_hash_axioms,
    vstd::laws_cmp::group_laws_cmp,
};

/// How a worker is reached. An empty endpoint or token means that the worker has not connected yet; a
/// worker that the supervisor started itself can be told to stop.
#[derive(Debug, PartialEq, Eq)]
pub struct WorkerControl {
    pub stoppable: bool,
    pub endpoint: String,
    pub token: String,
}

/// The view of [`WorkerControl`].
#[verifier::ext_equal]
pub struct WorkerControlView {
    pub stoppable: bool,
    pub endpoint: Seq<char>,
    pub token: Seq<char>,
}

impl View for WorkerControl {
    type V = WorkerControlView;

    open spec fn view(&self) -> WorkerControlView {
        WorkerControlView {
            stoppable: self.stoppable,
            endpoint: self.endpoint@,
            token: self.token@,
        }
    }
}

impl Clone for WorkerControl {
    fn clone(&self) -> (r: Self)
        ensures
            r@ == self@,
    {
        WorkerControl {
            stoppable: self.stoppable,
            endpoint: self.endpoint.clone(),
            token: self.token.clone(),
        }
    }
}

/// The lease of a process.
#[derive(Debug, Clone, Copy, PartialEq, Eq, Structural)]
pub struct LeaseEntry {
    pub lease_token: ProcessId,
}

/// All that the supervisor knows.
#[derive(Debug)]
pub struct SupervisorState {
    pub daemon_pid: u32,
    pub records: BTreeMap<ProcessId, ProcessRecord>,
    pub leases: HashMap<ProcessId, LeaseEntry>,
    pub workers: HashMap<ProcessId, WorkerControl>,
}

/// The view of [`SupervisorState`].
#[verifier::ext_equal]
pub struct SupervisorStateView {
    pub daemon_pid: u32,
    pub records: Map<ProcessId, ProcessRecordView>,
    pub leases: Map<ProcessId, ProcessId>,
    pub workers: Map<ProcessId, WorkerControlView>,
}

impl View for SupervisorState {
    type V = SupervisorStateView;

    open spec fn view(&self) -> SupervisorStateView {
        SupervisorStateView {
            daemon_pid: self.daemon_pid,
            records: self.records@.map_values(|record: ProcessRecord| record@),
            leases: self.leases@.map_values(|lease: LeaseEntry| lease.lease_token),
            workers: self.workers@.map_values(|worker: WorkerControl| worker@),
        }
    }
}

impl SupervisorStateView {
    /// Records and leases belong together, a way to reach a worker belongs to a record, and a record
    /// knows its own identity.
    pub open spec fn well_formed(self) -> bool {
        &&& self.leases.dom() == self.records.dom()
        &&& self.workers.dom().subset_of(self.records.dom())
        &&& forall|id: ProcessId| #[trigger]
            self.records.contains_key(id) ==> self.records[id].id == id
    }

    /// The state with one record replaced.
    pub open spec fn with_record(self, id: ProcessId, record: ProcessRecordView) -> Self {
        SupervisorStateView { records: self.records.insert(id, record), ..self }
    }

    /// The state without a process.
    pub open spec fn without(self, id: ProcessId) -> Self {
        SupervisorStateView {
            records: self.records.remove(id),
            leases: self.leases.remove(id),
            workers: self.workers.remove(id),
            ..self
        }
    }

    /// Whether a running process has this number.
    pub open spec fn runs_pid(self, pid: u32) -> bool {
        exists|id: ProcessId| #[trigger]
            self.records.contains_key(id) && self.records[id].pid == pid && self.records[id].status
                == ProcessStatus::Running
    }
}

/// The identity under which a request registers: its own, or a fresh one.
pub open spec fn or_fresh(own: Option<ProcessId>, fresh: ProcessId) -> ProcessId {
    match own {
        Some(id) => id,
        None => fresh,
    }
}

/// The status of a process that registers: running where a way to reach it is known or it is new,
/// and what it was otherwise.
pub open spec fn registered_status(state: SupervisorStateView, id: ProcessId) -> ProcessStatus {
    if state.workers.contains_key(id) || !state.records.contains_key(id) {
        ProcessStatus::Running
    } else {
        state.records[id].status
    }
}

/// The record of a process that registers. A process that registers again keeps its first time.
pub open spec fn registered_record(
    state: SupervisorStateView,
    request: RegisterRequestView,
    id: ProcessId,
    now: i64,
) -> ProcessRecordView {
    ProcessRecordView {
        id,
        pid: request.pid,
        parent_pid: request.parent_pid,
        kind: request.kind,
        status: registered_status(state, id),
        activity: ActivityStatus::Idle,
        mode: ProcessMode::Default,
        summary: None,
        error: None,
        executable: request.executable,
        argv: request.argv,
        cwd: request.cwd,
        thread_id: request.thread_id,
        created_at: if state.records.contains_key(id) {
            state.records[id].created_at
        } else {
            now
        },
        last_observed_at: now,
        last_state_update_at: now,
        exit_code: None,
    }
}

/// The state after a process registered.
pub open spec fn registered(
    state: SupervisorStateView,
    request: RegisterRequestView,
    id: ProcessId,
    lease_token: ProcessId,
    now: i64,
) -> SupervisorStateView {
    SupervisorStateView {
        daemon_pid: state.daemon_pid,
        records: state.records.insert(id, registered_record(state, request, id, now)),
        leases: state.leases.insert(id, lease_token),
        workers: state.workers.insert(
            id,
            WorkerControlView {
                stoppable: state.workers.contains_key(id) && state.workers[id].stoppable,
                endpoint: request.worker_endpoint,
                token: request.worker_token,
            },
        ),
    }
}

/// Why a registration is refused, if it is: the request lacks something, the identity belongs to
/// another lease, the process runs already under another identity, or the worker is reached elsewhere.
pub open spec fn register_refusal(
    state: SupervisorStateView,
    request: RegisterRequestView,
    id: ProcessId,
    lease_token: ProcessId,
) -> Option<Seq<char>> {
    if request.pid == 0 || request.executable.len() == 0 || request.worker_endpoint.len() == 0
        || request.worker_token.len() == 0 {
        Some("invalid process identity"@)
    } else if state.leases.contains_key(id) && state.leases[id] != lease_token {
        Some("process id "@ + ids::id_text(id) + " is already owned by another lease"@)
    } else if request.id is None && state.runs_pid(request.pid) {
        Some("process "@ + text::decimal(request.pid as nat) + " is already registered"@)
    } else if state.workers.contains_key(id) && state.workers[id].endpoint.len() > 0 && (
    state.workers[id].endpoint != request.worker_endpoint || state.workers[id].token
        != request.worker_token) {
        Some(
            "worker control endpoint for process "@ + ids::id_text(id) + " is already owned"@,
        )
    } else {
        None
    }
}

/// The view of a response or of the reason why there is none.
pub open spec fn response_view(result: Result<Response, String>) -> Result<ResponseView, Seq<char>> {
    match result {
        Ok(response) => Ok(response@),
        Err(message) => Err(message@),
    }
}

/// What a registration answers and what it leaves behind, for the identities and the time it drew.
pub open spec fn registration(
    before: SupervisorStateView,
    request: RegisterRequestView,
    fresh_id: ProcessId,
    fresh_token: ProcessId,
    now: i64,
    answer: Result<ResponseView, Seq<char>>,
    after: SupervisorStateView,
) -> bool {
    let id = or_fresh(request.id, fresh_id);
    let lease_token = or_fresh(request.lease_token, fresh_token);
    match register_refusal(before, request, id, lease_token) {
        Some(reason) => answer == Err::<ResponseView, Seq<char>>(reason) && after == before,
        None => answer == Ok::<ResponseView, Seq<char>>(
            ResponseView::Registered { id, lease_token, protocol_version: Some(PROTOCOL_VERSION) },
        ) && after == registered(before, request, id, lease_token, now),
    }
}

/// Why a process cannot leave, if it cannot.
pub open spec fn unregister_refusal(
    state: SupervisorStateView,
    id: ProcessId,
    lease_token: ProcessId,
) -> Option<Seq<char>> {
    if !state.leases.contains_key(id) {
        Some("supervisor lease "@ + ids::id_text(id) + " no longer exists"@)
    } else if state.leases[id] != lease_token {
        Some("supervisor lease token mismatch for "@ + ids::id_text(id))
    } else {
        None
    }
}

impl SupervisorState {
    /// A registry without processes.
    pub fn new(daemon_pid: u32) -> (r: Self)
        ensures
            r@ == (SupervisorStateView {
                daemon_pid,
                records: Map::empty(),
                leases: Map::empty(),
                workers: Map::empty(),
            }),
            r@.well_formed(),
    {
        let state = SupervisorState {
            daemon_pid,
            records: BTreeMap::new(),
            leases: HashMap::new(),
            workers: HashMap::new(),
        };
        assert(state@.records =~= Map::empty());
        assert(state@.leases =~= Map::empty());
        assert(state@.workers =~= Map::empty());
        state
    }

    /// Whether a running process has this number.
    fn pid_runs(&self, pid: u32) -> (r: bool)
        ensures
            r == self@.runs_pid(pid),
    {
        for id in it: self.records.keys()
            invariant
                it.seq().unref().to_set() == self.records@.dom(),
                forall|i: int|
                    0 <= i < it.index() ==> !(self@.records[*(#[trigger] it.seq()[i])].pid == pid
                        && self@.records[*it.seq()[i]].status == ProcessStatus::Running),
        {
            assert(it.seq().unref().to_set().contains(*id)) by {
                assert(it.seq().unref()[it.index() as int] == *id);
            }
            if let Some(record) = self.records.get(id) {
                if record.pid == pid && record.status == ProcessStatus::Running {
                    assert(self@.records.contains_key(*id));
                    return true;
                }
            }
        }
        proof {
            assert forall|id: ProcessId| #[trigger] self@.records.contains_key(id) implies !(
            self@.records[id].pid == pid && self@.records[id].status == ProcessStatus::Running) by {
            }
        }
        false
    }

    /// Registers a process. A request without an identity or a lease gets the fresh ones.
    pub fn register_process(
        &mut self,
        request: RegisterRequest,
        fresh_id: ProcessId,
        fresh_token: ProcessId,
        now: i64,
    ) -> (r: Result<Response, String>)
        ensures
            registration(
                old(self)@,
                request@,
                fresh_id,
                fresh_token,
                now,
                response_view(r),
                final(self)@,
            ),
            old(self)@.well_formed() ==> final(self)@.well_formed(),
            r is Err ==> final(self)@ == old(self)@,
    {
        if request.pid == 0 || text::is_empty(request.executable.as_str()) || text::is_empty(
            request.worker_endpoint.as_str(),
        ) || text::is_empty(request.worker_token.as_str()) {
            return Err("invalid process identity".to_owned());
        }
        let id = match request.id {
            Some(id) => id,
            None => fresh_id,
        };
        let lease_token = match request.lease_token {
            Some(lease_token) => lease_token,
            None => fresh_token,
        };
        if let Some(existing) = self.leases.get(&id) {
            if existing.lease_token != lease_token {
                return Err(
                    "process id ".to_owned().concat(ids::id_to_text(id).as_str()).concat(
                        " is already owned by another lease",
                    ),
                );
            }
        }
        if request.id.is_none() && self.pid_runs(request.pid) {
            return Err(
                "process ".to_owned().concat(
                    text::decimal_text(request.pid as u64).as_str(),
                ).concat(" is already registered"),
            );
        }
        let mut stoppable = false;
        if let Some(worker) = self.workers.get(&id) {
            if !text::is_empty(worker.endpoint.as_str()) && (worker.endpoint
                != request.worker_endpoint || worker.token != request.worker_token) {
                return Err(
                    "worker control endpoint for process ".to_owned().concat(
                        ids::id_to_text(id).as_str(),
                    ).concat(" is already owned"),
                );
            }
            stoppable = worker.stoppable;
        }
        let (status, created_at) = match self.records.get(&id) {
            Some(record) => (
                if self.workers.contains_key(&id) {
                    ProcessStatus::Running
                } else {
                    record.status
                },
                record.created_at,
            ),
            None => (ProcessStatus::Running, now),
        };
        let ghost before = self@;
        let ghost given = request@;
        let record = ProcessRecord {
            id,
            pid: request.pid,
            parent_pid: request.parent_pid,
            kind: request.kind,
            status,
            activity: ActivityStatus::Idle,
            mode: ProcessMode::Default,
            summary: None,
            error: None,
            executable: request.executable,
            argv: request.argv,
            cwd: request.cwd,
            thread_id: request.thread_id,
            created_at,
            last_observed_at: now,
            last_state_update_at: now,
            exit_code: None,
        };
        let worker = WorkerControl {
            stoppable,
            endpoint: request.worker_endpoint,
            token: request.worker_token,
        };
        assert(record@ =~= registered_record(before, given, id, now));
        self.records.insert(id, record);
        self.workers.insert(id, worker);
        self.leases.insert(id, LeaseEntry { lease_token });
        assert(self@.records =~= before.records.insert(id, record@));
        assert(self@.workers =~= before.workers.insert(id, worker@));
        assert(self@.leases =~= before.leases.insert(id, lease_token));
        assert(self@ =~= registered(before, given, id, lease_token, now));
        assert(before.well_formed() ==> self@.well_formed()) by {
            if before.well_formed() {
                assert(self@.leases.dom() =~= self@.records.dom());
            }
        }
        Ok(Response::Registered { id, lease_token, protocol_version: Some(PROTOCOL_VERSION) })
    }

    /// Registers a process now. A request without an identity or a lease gets a random one.
    pub fn register(&mut self, request: RegisterRequest) -> (r: Result<Response, String>)
        ensures
            exists|fresh_id: ProcessId, fresh_token: ProcessId, now: i64|
                #[trigger] registration(
                    old(self)@,
                    request@,
                    fresh_id,
                    fresh_token,
                    now,
                    response_view(r),
                    final(self)@,
                ),
            old(self)@.well_formed() ==> final(self)@.well_formed(),
    {
        let fresh_id = ids::fresh_id();
        let fresh_token = ids::fresh_id();
        let now: i64 = clock::unix_seconds();
        let ghost before = self@;
        let ghost given = request@;
        let result = self.register_process(request, fresh_id, fresh_token, now);
        assert(registration(
            before,
            given,
            fresh_id,
            fresh_token,
            now,
            response_view(result),
            self@,
        ));
        result
    }

    /// Lets a process leave. Only the holder of its lease can do that.
    pub fn unregister(&mut self, id: ProcessId, lease_token: ProcessId) -> (r: Result<
        Response,
        String,
    >)
        ensures
            match unregister_refusal(old(self)@, id, lease_token) {
                Some(reason) => r is Err && r->Err_0@ == reason && final(self)@ == old(self)@,
                None => r is Ok && r->Ok_0@ == ResponseView::Ack && final(self)@ == old(
                    self,
                )@.without(id),
            },
            old(self)@.well_formed() ==> final(self)@.well_formed(),
    {
        match self.leases.get(&id) {
            None => {
                return Err(
                    "supervisor lease ".to_owned().concat(ids::id_to_text(id).as_str()).concat(
                        " no longer exists",
                    ),
                );
            },
            Some(lease) => {
                if lease.lease_token != lease_token {
                    return Err(
                        "supervisor lease token mismatch for ".to_owned().concat(
                            ids::id_to_text(id).as_str(),
                        ),
                    );
                }
            },
        }
        let ghost before = self@;
        self.leases.remove(&id);
        self.records.remove(&id);
        self.workers.remove(&id);
        assert(self@.records =~= before.records.remove(id));
        assert(self@.workers =~= before.workers.remove(id));
        assert(self@.leases =~= before.leases.remove(id));
        assert(before.well_formed() ==> self@.well_formed()) by {
            if before.well_formed() {
                assert(self@.leases.dom() =~= self@.records.dom());
            }
        }
        Ok(Response::Ack)
    }

    /// Records a worker that the supervisor just started.
    pub fn record_spawned(
        &mut self,
        request: SpawnWorkerRequest,
        id: ProcessId,
        lease_token: ProcessId,
        pid: u32,
        now: i64,
    ) -> (r: Response)
        ensures
            r@ == (ResponseView::Spawned { id, pid }),
            final(self)@ == spawned(old(self)@, request@, id, lease_token, pid, now),
            old(self)@.well_formed() ==> final(self)@.well_formed(),
    {
        let ghost before = self@;
        let ghost given = request@;
        let record = ProcessRecord {
            id,
            pid,
            parent_pid: Some(self.daemon_pid),
            kind: request.kind,
            status: ProcessStatus::Starting,
            activity: ActivityStatus::Idle,
            mode: ProcessMode::Default,
            summary: None,
            error: None,
            executable: request.executable,
            argv: request.args,
            cwd: request.cwd,
            thread_id: request.thread_id,
            created_at: now,
            last_observed_at: now,
            last_state_update_at: now,
            exit_code: None,
        };
        let worker = WorkerControl { stoppable: true, endpoint: String::new(), token: String::new() };
        assert(worker@ =~= (WorkerControlView {
            stoppable: true,
            endpoint: Seq::empty(),
            token: Seq::empty(),
        }));
        self.records.insert(id, record);
        self.leases.insert(id, LeaseEntry { lease_token });
        self.workers.insert(id, worker);
        assert(self@.records =~= before.records.insert(id, record@));
        assert(self@.workers =~= before.workers.insert(id, worker@));
        assert(self@.leases =~= before.leases.insert(id, lease_token));
        assert(self@ =~= spawned(before, given, id, lease_token, pid, now));
        assert(before.well_formed() ==> self@.well_formed()) by {
            if before.well_formed() {
                assert(self@.leases.dom() =~= self@.records.dom());
            }
        }
        Response::Spawned { id, pid }
    }

    /// Notes that a worker which the supervisor started has ended.
    pub fn worker_exited(&mut self, id: ProcessId, exit_code: Option<i32>, now: i64)
        ensures
            final(self)@ == exited(old(self)@, id, exit_code, now),
            old(self)@.well_formed() ==> final(self)@.well_formed(),
    {
        let ghost before = self@;
        self.workers.remove(&id);
        assert(self@.workers =~= before.workers.remove(id));
        assert(self@.records =~= before.records);
        if let Some(mut record) = self.records.remove(&id) {
            record.status = ProcessStatus::Exited;
            record.exit_code = exit_code;
            record.last_observed_at = now;
            self.records.insert(id, record);
            assert(record@ =~= (ProcessRecordView {
                status: ProcessStatus::Exited,
                exit_code,
                last_observed_at: now,
                ..before.records[id]
            }));
            assert(self@.records =~= before.records.insert(id, record@));
        } else {
            assert(self@.records =~= before.records);
        }
        assert(self@ =~= exited(before, id, exit_code, now));
        assert(before.well_formed() ==> self@.well_formed()) by {
            if before.well_formed() {
                assert(self@.leases.dom() =~= self@.records.dom());
            }
        }
    }

    /// The record of a process, changed by its caller and put back.
    fn put_record(&mut self, id: ProcessId, record: ProcessRecord)
        ensures
            final(self)@ == old(self)@.with_record(id, record@),
    {
        let ghost before = self@;
        self.records.insert(id, record);
        assert(self@.records =~= before.records.insert(id, record@));
        assert(self@ =~= before.with_record(id, record@));
    }

    /// Starts to terminate a process: a worker that the supervisor started is told to stop; of any
    /// other process the caller first finds out whether it still lives.
    pub fn begin_termination(&mut self, id: ProcessId) -> (r: Result<TerminationStep, String>)
        ensures
            match termination_start(old(self)@, id) {
                Some(step) => r == Ok::<TerminationStep, String>(step) && final(self)@ == (if step
                    is Stop {
                    with_status(old(self)@, id, ProcessStatus::Stopping)
                } else {
                    old(self)@
                }),
                None => r is Err && r->Err_0@ == "supervisor process "@ + ids::id_text(id)
                    + " not found"@ && final(self)@ == old(self)@,
            },
            old(self)@.well_formed() ==> final(self)@.well_formed(),
    {
        let mut record = match self.records.get(&id) {
            None => {
                return Err(
                    "supervisor process ".to_owned().concat(ids::id_to_text(id).as_str()).concat(
                        " not found",
                    ),
                );
            },
            Some(record) => record.clone(),
        };
        let pid: u32 = record.pid;
        let stoppable = match self.workers.get(&id) {
            Some(worker) => worker.stoppable,
            None => false,
        };
        if stoppable {
            let ghost before = record@;
            record.status = ProcessStatus::Stopping;
            assert(record@ =~= (ProcessRecordView { status: ProcessStatus::Stopping, ..before }));
            self.put_record(id, record);
            proof {
                lemma_with_record_well_formed(old(self)@, id, record@);
            }
            Ok(TerminationStep::Stop)
        } else {
            Ok(TerminationStep::CheckAlive { pid })
        }
    }

    /// Notes that the process to be terminated lives no more.
    pub fn termination_found_exited(&mut self, id: ProcessId, pid: u32, now: i64) -> (r: Result<
        Response,
        String,
    >)
        ensures
            match changed_during_termination(old(self)@, id, pid) {
                Some(reason) => r is Err && r->Err_0@ == reason && final(self)@ == old(self)@,
                None => r is Ok && r->Ok_0@ == ResponseView::Ack && final(self)@ == found_exited(
                    old(self)@,
                    id,
                    now,
                ),
            },
            old(self)@.well_formed() ==> final(self)@.well_formed(),
    {
        let mut record = self.unchanged_record(id, pid)?;
        let ghost before = record@;
        record.status = ProcessStatus::Exited;
        record.last_observed_at = now;
        assert(record@ =~= (ProcessRecordView {
            status: ProcessStatus::Exited,
            last_observed_at: now,
            ..before
        }));
        self.put_record(id, record);
        proof {
            lemma_with_record_well_formed(old(self)@, id, record@);
        }
        Ok(Response::Ack)
    }

    /// Notes that the process to be terminated was reached and will be stopped.
    pub fn termination_verified(&mut self, id: ProcessId, pid: u32) -> (r: Result<(), String>)
        ensures
            match changed_during_termination(old(self)@, id, pid) {
                Some(reason) => r is Err && r->Err_0@ == reason && final(self)@ == old(self)@,
                None => r is Ok && final(self)@ == with_status(
                    old(self)@,
                    id,
                    ProcessStatus::Stopping,
                ),
            },
            old(self)@.well_formed() ==> final(self)@.well_formed(),
    {
        let mut record = self.unchanged_record(id, pid)?;
        let ghost before = record@;
        record.status = ProcessStatus::Stopping;
        assert(record@ =~= (ProcessRecordView { status: ProcessStatus::Stopping, ..before }));
        self.put_record(id, record);
        proof {
            lemma_with_record_well_formed(old(self)@, id, record@);
        }
        Ok(())
    }

    /// A copy of a record that still has the process number it had.
    fn unchanged_record(&self, id: ProcessId, pid: u32) -> (r: Result<ProcessRecord, String>)
        ensures
            match changed_during_termination(self@, id, pid) {
                Some(reason) => r is Err && r->Err_0@ == reason,
                None => r is Ok && self@.records.contains_key(id) && r->Ok_0@ == self@.records[id],
            },
    {
        match self.records.get(&id) {
            None => Err(
                "supervisor process ".to_owned().concat(ids::id_to_text(id).as_str()).concat(
                    " disappeared during termination",
                ),
            ),
            Some(record) => if record.pid != pid {
                Err(
                    "supervisor process ".to_owned().concat(ids::id_to_text(id).as_str()).concat(
                        " changed during termination",
                    ),
                )
            } else {
                Ok(record.clone())
            },
        }
    }
}

/// The next step of a termination.
#[derive(Debug, Clone, Copy, PartialEq, Eq, Structural)]
pub enum TerminationStep {
    /// Tell the worker to stop.
    Stop,
    /// Find out whether the process with this number lives.
    CheckAlive { pid: u32 },
}

/// The first step of a termination, if there is a process to terminate.
pub open spec fn termination_start(
    state: SupervisorStateView,
    id: ProcessId,
) -> Option<TerminationStep> {
    if !state.records.contains_key(id) {
        None
    } else if state.workers.contains_key(id) && state.workers[id].stoppable {
        Some(TerminationStep::Stop)
    } else {
        Some(TerminationStep::CheckAlive { pid: state.records[id].pid })
    }
}

/// Why a termination cannot go on, if it cannot: the process left or another one took its place.
pub open spec fn changed_during_termination(
    state: SupervisorStateView,
    id: ProcessId,
    pid: u32,
) -> Option<Seq<char>> {
    if !state.records.contains_key(id) {
        Some("supervisor process "@ + ids::id_text(id) + " disappeared during termination"@)
    } else if state.records[id].pid != pid {
        Some("supervisor process "@ + ids::id_text(id) + " changed during termination"@)
    } else {
        None
    }
}

/// The state with the status of one process replaced.
pub open spec fn with_status(
    state: SupervisorStateView,
    id: ProcessId,
    status: ProcessStatus,
) -> SupervisorStateView {
    state.with_record(id, ProcessRecordView { status, ..state.records[id] })
}

/// The state after a process was found to live no more.
pub open spec fn found_exited(
    state: SupervisorStateView,
    id: ProcessId,
    now: i64,
) -> SupervisorStateView {
    state.with_record(
        id,
        ProcessRecordView {
            status: ProcessStatus::Exited,
            last_observed_at: now,
            ..state.records[id]
        },
    )
}

/// The state after the supervisor started a worker.
pub open spec fn spawned(
    state: SupervisorStateView,
    request: SpawnWorkerRequestView,
    id: ProcessId,
    lease_token: ProcessId,
    pid: u32,
    now: i64,
) -> SupervisorStateView {
    SupervisorStateView {
        daemon_pid: state.daemon_pid,
        records: state.records.insert(
            id,
            ProcessRecordView {
                id,
                pid,
                parent_pid: Some(state.daemon_pid),
                kind: request.kind,
                status: ProcessStatus::Starting,
                activity: ActivityStatus::Idle,
                mode: ProcessMode::Default,
                summary: None,
                error: None,
                executable: request.executable,
                argv: request.args,
                cwd: request.cwd,
                thread_id: request.thread_id,
                created_at: now,
                last_observed_at: now,
                last_state_update_at: now,
                exit_code: None,
            },
        ),
        leases: state.leases.insert(id, lease_token),
        workers: state.workers.insert(
            id,
            WorkerControlView { stoppable: true, endpoint: Seq::empty(), token: Seq::empty() },
        ),
    }
}

/// The state after a worker ended.
pub open spec fn exited(
    state: SupervisorStateView,
    id: ProcessId,
    exit_code: Option<i32>,
    now: i64,
) -> SupervisorStateView {
    SupervisorStateView {
        daemon_pid: state.daemon_pid,
        records: if state.records.contains_key(id) {
            state.records.insert(
                id,
                ProcessRecordView {
                    status: ProcessStatus::Exited,
                    exit_code,
                    last_observed_at: now,
                    ..state.records[id]
                },
            )
        } else {
            state.records
        },
        leases: state.leases,
        workers: state.workers.remove(id),
    }
}

/// Replacing a record by one with the same identity keeps a state well-formed.
pub proof fn lemma_with_record_well_formed(
    state: SupervisorStateView,
    id: ProcessId,
    record: ProcessRecordView,
)
    ensures
        state.well_formed() && state.records.contains_key(id) && record.id == id
            ==> state.with_record(id, record).well_formed(),
        state.records.contains_key(id) && state.well_formed() ==> state.records[id].id == id,
{
    if state.well_formed() && state.records.contains_key(id) && record.id == id {
        assert(state.records.insert(id, record).dom() =~= state.records.dom());
    }
}

/// A process that registers and leaves again leaves no trace, if its identity was new.
pub proof fn law_unregister_undoes_register(
    state: SupervisorStateView,
    request: RegisterRequestView,
    id: ProcessId,
    lease_token: ProcessId,
    now: i64,
)
    requires
        state.well_formed(),
        !state.records.contains_key(id),
    ensures
        ({
            let after = registered(state, request, id, lease_token, now);
            &&& unregister_refusal(after, id, lease_token) is None
            &&& after.without(id) == state
        }),
{
    let after = registered(state, request, id, lease_token, now).without(id);
    assert(!state.leases.contains_key(id));
    assert(!state.workers.contains_key(id));
    assert(after.records =~= state.records);
    assert(after.leases =~= state.leases);
    assert(after.workers =~= state.workers);
}

/// A leased identity is safe from other leases: nobody else can register it or make it leave.
pub proof fn law_lease_protects_its_process(
    state: SupervisorStateView,
    request: RegisterRequestView,
    id: ProcessId,
    lease_token: ProcessId,
)
    requires
        state.leases.contains_key(id),
        state.leases[id] != lease_token,
    ensures
        register_refusal(state, request, id, lease_token) is Some,
        unregister_refusal(state, id, lease_token) is Some,
{
}

/// A process that registers again with its own lease and the same way to reach it is welcome. It
/// keeps the time of its first registration.
pub proof fn law_registering_again_keeps_the_first_time(
    state: SupervisorStateView,
    request: RegisterRequestView,
    id: ProcessId,
    lease_token: ProcessId,
    first: i64,
    second: i64,
)
    requires
        request.id == Some(id),
        register_refusal(state, request, id, lease_token) is None,
    ensures
        ({
            let once = registered(state, request, id, lease_token, first);
            let twice = registered(once, request, id, lease_token, second);
            &&& register_refusal(once, request, id, lease_token) is None
            &&& twice.records[id].created_at == once.records[id].created_at
            &&& twice.records[id].status == ProcessStatus::Running
        }),
{
}

/// Whether a step touched nothing but one process: every other record, lease and way to reach a
/// worker is there as before, and no other one is new.
pub open spec fn only_touches(
    before: SupervisorStateView,
    after: SupervisorStateView,
    id: ProcessId,
) -> bool {
    &&& after.daemon_pid == before.daemon_pid
    &&& forall|other: ProcessId|
        other != id ==> {
            &&& after.records.contains_key(other) == #[trigger] before.records.contains_key(other)
            &&& before.records.contains_key(other) ==> after.records[other]
                == before.records[other]
        }
    &&& forall|other: ProcessId|
        other != id ==> {
            &&& after.leases.contains_key(other) == #[trigger] before.leases.contains_key(other)
            &&& before.leases.contains_key(other) ==> after.leases[other] == before.leases[other]
        }
    &&& forall|other: ProcessId|
        other != id ==> {
            &&& after.workers.contains_key(other) == #[trigger] before.workers.contains_key(other)
            &&& before.workers.contains_key(other) ==> after.workers[other]
                == before.workers[other]
        }
}

/// An accepted registration answers with the identity and the lease that the request asked for, or
/// with the fresh ones where it asked for none. Under that identity it leaves a record that shows
/// what the request said of the process, the lease, and the way to reach the worker that the request
/// named. Nothing else changes.
pub proof fn law_registration_shows_the_request(
    before: SupervisorStateView,
    request: RegisterRequestView,
    fresh_id: ProcessId,
    fresh_token: ProcessId,
    now: i64,
    answer: Result<ResponseView, Seq<char>>,
    after: SupervisorStateView,
)
    requires
        registration(before, request, fresh_id, fresh_token, now, answer, after),
        answer is Ok,
    ensures
        answer->Ok_0 matches ResponseView::Registered { id, lease_token, protocol_version } && {
            let record = after.records[id];
            &&& request.id is Some ==> request.id == Some(id)
            &&& request.id is None ==> id == fresh_id
            &&& request.lease_token is Some ==> request.lease_token == Some(lease_token)
            &&& request.lease_token is None ==> lease_token == fresh_token
            &&& protocol_version == Some(2u32)
            &&& after.records.contains_key(id)
            &&& record.id == id
            &&& record.pid == request.pid
            &&& record.parent_pid == request.parent_pid
            &&& record.kind == request.kind
            &&& record.executable == request.executable
            &&& record.argv == request.argv
            &&& record.cwd == request.cwd
            &&& record.thread_id == request.thread_id
            &&& after.leases.contains_key(id) && after.leases[id] == lease_token
            &&& after.workers.contains_key(id)
            &&& after.workers[id].endpoint == request.worker_endpoint
            &&& after.workers[id].token == request.worker_token
            &&& only_touches(before, after, id)
        },
{
}

/// A process that registers has reported nothing yet: it is idle in the default mode, without a
/// summary, an error or an exit code. It was seen now, and one that is new was made now and runs. One
/// that was registered before keeps its first time, and runs if a way to reach it was known.
pub proof fn law_registered_process_starts_idle(
    before: SupervisorStateView,
    request: RegisterRequestView,
    fresh_id: ProcessId,
    fresh_token: ProcessId,
    now: i64,
    answer: Result<ResponseView, Seq<char>>,
    after: SupervisorStateView,
)
    requires
        registration(before, request, fresh_id, fresh_token, now, answer, after),
        answer is Ok,
    ensures
        answer->Ok_0 matches ResponseView::Registered { id, .. } && {
            let record = after.records[id];
            &&& record.activity == ActivityStatus::Idle
            &&& record.mode == ProcessMode::Default
            &&& record.summary is None
            &&& record.error is None
            &&& record.exit_code is None
            &&& record.last_observed_at == now
            &&& record.last_state_update_at == now
            &&& !before.records.contains_key(id) ==> record.created_at == now && record.status
                == ProcessStatus::Running
            &&& before.records.contains_key(id) ==> record.created_at
                == before.records[id].created_at
            &&& before.records.contains_key(id) && before.workers.contains_key(id)
                ==> record.status == ProcessStatus::Running
            &&& before.records.contains_key(id) && !before.workers.contains_key(id)
                ==> record.status == before.records[id].status
            &&& after.workers[id].stoppable == (before.workers.contains_key(id)
                && before.workers[id].stoppable)
        },
{
}

/// A registration that is refused changes nothing. It is refused where the request lacks a process
/// number, a program or a way to reach the worker, and where another lease, another running process or
/// another way to reach the worker stands against it; in every other case it is accepted.
pub proof fn law_registration_is_refused_for_a_reason(
    before: SupervisorStateView,
    request: RegisterRequestView,
    fresh_id: ProcessId,
    fresh_token: ProcessId,
    now: i64,
    answer: Result<ResponseView, Seq<char>>,
    after: SupervisorStateView,
)
    requires
        registration(before, request, fresh_id, fresh_token, now, answer, after),
    ensures
        answer is Err ==> after == before,
        request.pid == 0 ==> answer is Err,
        request.executable.len() == 0 ==> answer is Err,
        request.worker_endpoint.len() == 0 ==> answer is Err,
        request.worker_token.len() == 0 ==> answer is Err,
        answer is Err && request.pid > 0 && request.executable.len() > 0
            && request.worker_endpoint.len() > 0 && request.worker_token.len() > 0 ==> {
            let id = match request.id {
                Some(id) => id,
                None => fresh_id,
            };
            let token = match request.lease_token {
                Some(token) => token,
                None => fresh_token,
            };
            ||| before.leases.contains_key(id) && before.leases[id] != token
            ||| request.id is None && exists|other: ProcessId| #[trigger]
                before.records.contains_key(other) && before.records[other].pid == request.pid
                    && before.records[other].status == ProcessStatus::Running
            ||| before.workers.contains_key(id) && before.workers[id].endpoint.len() > 0 && (
            before.workers[id].endpoint != request.worker_endpoint || before.workers[id].token
                != request.worker_token)
        },
{
}

/// A process number that runs already is not registered a second time under a fresh identity.
pub proof fn law_running_process_is_not_registered_twice(
    before: SupervisorStateView,
    request: RegisterRequestView,
    fresh_id: ProcessId,
    fresh_token: ProcessId,
    now: i64,
    answer: Result<ResponseView, Seq<char>>,
    after: SupervisorStateView,
    other: ProcessId,
)
    requires
        registration(before, request, fresh_id, fresh_token, now, answer, after),
        request.id is None,
        before.records.contains_key(other),
        before.records[other].pid == request.pid,
        before.records[other].status == ProcessStatus::Running,
    ensures
        answer is Err,
{
}

/// A way to reach a worker is not taken over by another one.
pub proof fn law_worker_endpoint_is_not_taken_over(
    before: SupervisorStateView,
    request: RegisterRequestView,
    id: ProcessId,
    fresh_id: ProcessId,
    fresh_token: ProcessId,
    now: i64,
    answer: Result<ResponseView, Seq<char>>,
    after: SupervisorStateView,
)
    requires
        registration(before, request, fresh_id, fresh_token, now, answer, after),
        request.id == Some(id),
        before.workers.contains_key(id),
        before.workers[id].endpoint.len() > 0,
        before.workers[id].endpoint != request.worker_endpoint || before.workers[id].token
            != request.worker_token,
    ensures
        answer is Err,
{
}

/// What a process may not do is told by its identity or its number.
pub proof fn law_refusals_name_the_process(
    state: SupervisorStateView,
    request: RegisterRequestView,
    id: ProcessId,
    lease_token: ProcessId,
)
    ensures
        register_refusal(state, request, id, lease_token) matches Some(reason) ==> {
            ||| reason == "invalid process identity"@
            ||| reason == "process id "@ + ids::id_text(id) + " is already owned by another lease"@
            ||| reason == "process "@ + text::decimal(request.pid as nat)
                + " is already registered"@
            ||| reason == "worker control endpoint for process "@ + ids::id_text(id)
                + " is already owned"@
        },
        unregister_refusal(state, id, lease_token) matches Some(reason) ==> {
            ||| !state.leases.contains_key(id) && reason == "supervisor lease "@ + ids::id_text(id)
                + " no longer exists"@
            ||| state.leases.contains_key(id) && reason == "supervisor lease token mismatch for "@
                + ids::id_text(id)
        },
        changed_during_termination(state, id, request.pid) matches Some(reason) ==> {
            ||| !state.records.contains_key(id) && reason == "supervisor process "@ + ids::id_text(
                id,
            ) + " disappeared during termination"@
            ||| state.records.contains_key(id) && reason == "supervisor process "@ + ids::id_text(
                id,
            ) + " changed during termination"@
        },
{
}

/// The holder of a lease, and nobody else, can make its process leave. What leaves is gone from the
/// records, the leases and the ways to reach workers, and nothing else is.
pub proof fn law_holder_of_the_lease_leaves(
    state: SupervisorStateView,
    id: ProcessId,
    lease_token: ProcessId,
)
    ensures
        unregister_refusal(state, id, lease_token) is None <==> state.leases.contains_key(id)
            && state.leases[id] == lease_token,
        !state.without(id).records.contains_key(id),
        !state.without(id).leases.contains_key(id),
        !state.without(id).workers.contains_key(id),
        only_touches(state, state.without(id), id),
{
}

/// A worker that the supervisor started is recorded as what was asked for, as a child of the
/// supervisor that is starting. It can be told to stop, and is not reached before it registers.
/// Nothing else changes.
pub proof fn law_spawned_worker_is_recorded(
    state: SupervisorStateView,
    request: SpawnWorkerRequestView,
    id: ProcessId,
    lease_token: ProcessId,
    pid: u32,
    now: i64,
)
    ensures
        ({
            let after = spawned(state, request, id, lease_token, pid, now);
            let record = after.records[id];
            &&& after.records.contains_key(id)
            &&& record.id == id
            &&& record.pid == pid
            &&& record.parent_pid == Some(state.daemon_pid)
            &&& record.kind == request.kind
            &&& record.executable == request.executable
            &&& record.argv == request.args
            &&& record.cwd == request.cwd
            &&& record.thread_id == request.thread_id
            &&& record.status == ProcessStatus::Starting
            &&& record.activity == ActivityStatus::Idle
            &&& record.mode == ProcessMode::Default
            &&& record.summary is None
            &&& record.error is None
            &&& record.exit_code is None
            &&& record.created_at == now
            &&& record.last_observed_at == now
            &&& record.last_state_update_at == now
            &&& after.leases.contains_key(id) && after.leases[id] == lease_token
            &&& after.workers.contains_key(id) && after.workers[id].stoppable
            &&& after.workers[id].endpoint.len() == 0 && after.workers[id].token.len() == 0
            &&& only_touches(state, after, id)
        }),
{
}

/// A worker that was started registers under the identity and the lease that it was given: it is
/// accepted, runs from then on, can still be told to stop, and keeps the time at which it was started.
pub proof fn law_spawned_worker_can_register(
    state: SupervisorStateView,
    spawn: SpawnWorkerRequestView,
    request: RegisterRequestView,
    id: ProcessId,
    lease_token: ProcessId,
    pid: u32,
    start: i64,
    now: i64,
)
    requires
        request.id == Some(id),
        request.lease_token == Some(lease_token),
        request.pid > 0,
        request.executable.len() > 0,
        request.worker_endpoint.len() > 0,
        request.worker_token.len() > 0,
    ensures
        ({
            let started = spawned(state, spawn, id, lease_token, pid, start);
            let after = registered(started, request, id, lease_token, now);
            &&& register_refusal(started, request, id, lease_token) is None
            &&& after.records[id].status == ProcessStatus::Running
            &&& after.records[id].created_at == start
            &&& after.workers[id].stoppable
        }),
{
}

/// A worker that ended is recorded as exited with its exit code, seen now, and can no longer be
/// reached. All else that is known of it stays, and nothing else changes.
pub proof fn law_ended_worker_is_exited(
    state: SupervisorStateView,
    id: ProcessId,
    exit_code: Option<i32>,
    now: i64,
)
    ensures
        ({
            let after = exited(state, id, exit_code, now);
            &&& after.records.contains_key(id) == state.records.contains_key(id)
            &&& state.records.contains_key(id) ==> {
                let record = after.records[id];
                &&& record.status == ProcessStatus::Exited
                &&& record.exit_code == exit_code
                &&& record.last_observed_at == now
                &&& same_process(state.records[id], record)
                &&& same_report(state.records[id], record)
            }
            &&& after.leases == state.leases
            &&& !after.workers.contains_key(id)
            &&& only_touches(state, after, id)
        }),
{
}

/// Whether two records are of one process that was started in one way at one time.
pub open spec fn same_process(a: ProcessRecordView, b: ProcessRecordView) -> bool {
    &&& a.id == b.id
    &&& a.pid == b.pid
    &&& a.parent_pid == b.parent_pid
    &&& a.kind == b.kind
    &&& a.executable == b.executable
    &&& a.argv == b.argv
    &&& a.cwd == b.cwd
    &&& a.created_at == b.created_at
}

/// Whether two records show the same report.
pub open spec fn same_report(a: ProcessRecordView, b: ProcessRecordView) -> bool {
    &&& a.activity == b.activity
    &&& a.mode == b.mode
    &&& a.summary == b.summary
    &&& a.error == b.error
    &&& a.thread_id == b.thread_id
    &&& a.last_state_update_at == b.last_state_update_at
}

/// A process can be terminated exactly if it is registered. A worker that the supervisor started is
/// told to stop; of any other process it is first found out whether its own number still lives.
pub proof fn law_registered_processes_can_be_terminated(state: SupervisorStateView, id: ProcessId)
    ensures
        termination_start(state, id) is Some <==> state.records.contains_key(id),
        termination_start(state, id) == Some(TerminationStep::Stop) <==> state.records.contains_key(
            id,
        ) && state.workers.contains_key(id) && state.workers[id].stoppable,
        termination_start(state, id) matches Some(TerminationStep::CheckAlive { pid }) ==> pid
            == state.records[id].pid,
{
}

/// A termination goes on as long as the process is registered with the number that it had.
pub proof fn law_termination_hits_the_same_process(
    state: SupervisorStateView,
    id: ProcessId,
    pid: u32,
)
    ensures
        changed_during_termination(state, id, pid) is None <==> state.records.contains_key(id)
            && state.records[id].pid == pid,
{
}

/// A new status is the status of that process. All else that is known of it stays, and nothing else
/// changes.
pub proof fn law_new_status_changes_nothing_else(
    state: SupervisorStateView,
    id: ProcessId,
    status: ProcessStatus,
)
    requires
        state.records.contains_key(id),
    ensures
        ({
            let after = with_status(state, id, status);
            &&& after.records.contains_key(id)
            &&& after.records[id].status == status
            &&& after.records[id].exit_code == state.records[id].exit_code
            &&& after.records[id].last_observed_at == state.records[id].last_observed_at
            &&& same_process(state.records[id], after.records[id])
            &&& same_report(state.records[id], after.records[id])
            &&& after.leases == state.leases
            &&& after.workers == state.workers
            &&& only_touches(state, after, id)
        }),
{
}

/// A process that is found to live no more is exited and seen now. All else that is known of it stays,
/// and nothing else changes.
pub proof fn law_process_found_dead_is_exited(state: SupervisorStateView, id: ProcessId, now: i64)
    requires
        state.records.contains_key(id),
    ensures
        ({
            let after = found_exited(state, id, now);
            &&& after.records.contains_key(id)
            &&& after.records[id].status == ProcessStatus::Exited
            &&& after.records[id].last_observed_at == now
            &&& after.records[id].exit_code == state.records[id].exit_code
            &&& same_process(state.records[id], after.records[id])
            &&& same_report(state.records[id], after.records[id])
            &&& after.leases == state.leases
            &&& after.workers == state.workers
            &&& only_touches(state, after, id)
        }),
{
}

/// Each refusal of a registration has its own words, and the first reason that holds is told.
pub proof fn law_registration_refusals_are_told_in_words(
    state: SupervisorStateView,
    request: RegisterRequestView,
    id: ProcessId,
    lease_token: ProcessId,
)
    ensures
        ({
            let refusal = register_refusal(state, request, id, lease_token);
            let whole = request.pid > 0 && request.executable.len() > 0
                && request.worker_endpoint.len() > 0 && request.worker_token.len() > 0;
            let leased = state.leases.contains_key(id) && state.leases[id] != lease_token;
            let runs = request.id is None && state.runs_pid(request.pid);
            let elsewhere = state.workers.contains_key(id) && state.workers[id].endpoint.len() > 0
                && !(state.workers[id].endpoint == request.worker_endpoint
                && state.workers[id].token == request.worker_token);
            &&& !whole ==> refusal == Some("invalid process identity"@)
            &&& whole && leased ==> refusal == Some(
                "process id "@ + ids::id_text(id) + " is already owned by another lease"@,
            )
            &&& whole && !leased && runs ==> refusal == Some(
                "process "@ + text::decimal(request.pid as nat) + " is already registered"@,
            )
            &&& whole && !leased && !runs && elsewhere ==> refusal == Some(
                "worker control endpoint for process "@ + ids::id_text(id) + " is already owned"@,
            )
            &&& whole && !leased && !runs && !elsewhere ==> refusal is None
        }),
{
}

} // verus!
