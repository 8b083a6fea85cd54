//! Queries: what the registry asks workers and what it makes of their answers.
//!
//! Asking takes time, so a worker can be replaced meanwhile. An answer counts only for the process
//! that it was asked of.
use crate::ids::ProcessId;
use crate::protocol::{
    Response, ResponseView, WorkerResponse, WorkerResponseView, PROTOCOL_VERSION,
};
use crate::registry::{SupervisorState, SupervisorStateView, WorkerControl, WorkerControlView};
use crate::types::{
    ProcessRecord, ProcessRecordView, ProcessStatus, SupervisorSnapshot, SupervisorSnapshotView,
    WorkerStatus, WorkerStatusView,
};
use crate::{ids, registry, text};
use std::collections::BTreeMap;
use vstd::prelude::*;
use vstd::std_specs::iter::IteratorSpec;
use vstd::std_specs::cmp::OrdSpec;

verus! {

broadcast use {
    vstd::std_specs::btree::group_btree_axioms,
    vstd::std_specs::hash::group_hash_axioms,
    vstd::laws_cmp::group_laws_cmp,
};

/// The number of workers that are asked at the same time.
pub const MAX_CONCURRENT_STATUS_QUERIES: usize = 8;

/// The number of seconds after which a worker is taken to be silent.
pub const WORKER_STATUS_QUERY_SECONDS: u64 = 2;

/// Where a worker listens and what admits a request there.
#[derive(Debug, PartialEq, Eq)]
pub struct WorkerEndpoint {
    pub address: String,
    pub token: String,
}

/// The view of [`WorkerEndpoint`].
#[verifier::ext_equal]
pub struct WorkerEndpointView {
    pub address: Seq<char>,
    pub token: Seq<char>,
}

impl View for WorkerEndpoint {
    type V = WorkerEndpointView;

    open spec fn view(&self) -> WorkerEndpointView {
        WorkerEndpointView {
            address: self.address@,
            token: self.token@,
        }
    }
}

impl Clone for WorkerEndpoint {
    fn clone(&self) -> (r: Self)
        ensures
            r@ == self@,
    {
        WorkerEndpoint {
            address: self.address.clone(),
            token: self.token.clone(),
        }
    }
}

/// How a process can be asked.
#[derive(Debug, PartialEq, Eq)]
pub enum ControlTarget {
    Missing,
    Pending,
    Endpoint(WorkerEndpoint),
}

/// The view of [`ControlTarget`].
#[verifier::ext_equal]
pub enum ControlTargetView {
    Missing,
    Pending,
    Endpoint(WorkerEndpointView),
}

impl View for ControlTarget {
    type V = ControlTargetView;

    open spec fn view(&self) -> ControlTargetView {
        match self {
            ControlTarget::Missing => ControlTargetView::Missing,
            ControlTarget::Pending => ControlTargetView::Pending,
            ControlTarget::Endpoint(endpoint) => ControlTargetView::Endpoint(endpoint@),
        }
    }
}

impl Clone for ControlTarget {
    fn clone(&self) -> (r: Self)
        ensures
            r@ == self@,
    {
        match self {
            ControlTarget::Missing => ControlTarget::Missing,
            ControlTarget::Pending => ControlTarget::Pending,
            ControlTarget::Endpoint(endpoint) => ControlTarget::Endpoint(endpoint.clone()),
        }
    }
}

/// A process that is asked.
#[derive(Debug, PartialEq, Eq)]
pub struct ProcessQueryTarget {
    pub id: ProcessId,
    pub pid: u32,
    pub control: ControlTarget,
}

/// The view of [`ProcessQueryTarget`].
#[verifier::ext_equal]
pub struct ProcessQueryTargetView {
    pub id: ProcessId,
    pub pid: u32,
    pub control: ControlTargetView,
}

impl View for ProcessQueryTarget {
    type V = ProcessQueryTargetView;

    open spec fn view(&self) -> ProcessQueryTargetView {
        ProcessQueryTargetView { id: self.id, pid: self.pid, control: self.control@ }
    }
}

impl Clone for ProcessQueryTarget {
    fn clone(&self) -> (r: Self)
        ensures
            r@ == self@,
    {
        ProcessQueryTarget { id: self.id, pid: self.pid, control: self.control.clone() }
    }
}

/// What was found out about a process.
#[derive(Debug, PartialEq, Eq)]
pub enum WorkerObservation {
    Exited,
    Starting,
    Status(WorkerStatus),
    Unresponsive(String),
}

/// The view of [`WorkerObservation`].
#[verifier::ext_equal]
pub enum WorkerObservationView {
    Exited,
    Starting,
    Status(WorkerStatusView),
    Unresponsive(Seq<char>),
}

impl View for WorkerObservation {
    type V = WorkerObservationView;

    open spec fn view(&self) -> WorkerObservationView {
        match self {
            WorkerObservation::Exited => WorkerObservationView::Exited,
            WorkerObservation::Starting => WorkerObservationView::Starting,
            WorkerObservation::Status(status) => WorkerObservationView::Status(status@),
            WorkerObservation::Unresponsive(message) => WorkerObservationView::Unresponsive(
                message@,
            ),
        }
    }
}

/// How a process can be asked, given how it is reached.
pub open spec fn control_of(worker: Option<WorkerControlView>) -> ControlTargetView {
    match worker {
        None => ControlTargetView::Missing,
        Some(worker) => if worker.endpoint.len() == 0 || worker.token.len() == 0 {
            ControlTargetView::Pending
        } else {
            ControlTargetView::Endpoint(
                WorkerEndpointView { address: worker.endpoint, token: worker.token },
            )
        },
    }
}

/// How a registered process can be asked.
pub open spec fn control_in(state: SupervisorStateView, id: ProcessId) -> ControlTargetView {
    control_of(
        if state.workers.contains_key(id) {
            Some(state.workers[id])
        } else {
            None
        },
    )
}

/// A registered process as it is asked.
pub open spec fn target_in(state: SupervisorStateView, id: ProcessId) -> ProcessQueryTargetView {
    ProcessQueryTargetView {
        id,
        pid: state.records[id].pid,
        control: control_in(state, id),
    }
}

/// Whether the process that was asked is still the one that is registered.
pub open spec fn is_current(state: SupervisorStateView, target: ProcessQueryTargetView) -> bool {
    state.records.contains_key(target.id) && target_in(state, target.id) == target
}

/// The status after an observation. Stopping and exited processes do not come back.
pub open spec fn observed_status(
    status: ProcessStatus,
    observation: WorkerObservationView,
) -> ProcessStatus {
    match observation {
        WorkerObservationView::Exited => ProcessStatus::Exited,
        _ => if status == ProcessStatus::Stopping || status == ProcessStatus::Exited {
            status
        } else {
            match observation {
                WorkerObservationView::Starting => ProcessStatus::Starting,
                WorkerObservationView::Status(_) => ProcessStatus::Running,
                _ => ProcessStatus::Unresponsive,
            }
        },
    }
}

/// The later of two times.
pub open spec fn later(a: i64, b: i64) -> i64 {
    if a < b {
        b
    } else {
        a
    }
}

/// The record after an observation. Only a status report changes more than the lifecycle.
pub open spec fn observed_record(
    record: ProcessRecordView,
    observation: WorkerObservationView,
    observed_at: i64,
) -> ProcessRecordView {
    let record = ProcessRecordView {
        status: observed_status(record.status, observation),
        last_observed_at: observed_at,
        ..record
    };
    match observation {
        WorkerObservationView::Status(status) => ProcessRecordView {
            activity: status.activity,
            mode: status.mode,
            summary: status.summary,
            error: status.error,
            thread_id: status.thread_id,
            last_state_update_at: later(status.updated_at, observed_at),
            ..record
        },
        _ => record,
    }
}

/// The state after an observation of a process, which counts only if it is still the same one.
pub open spec fn observed(
    state: SupervisorStateView,
    target: ProcessQueryTargetView,
    observation: WorkerObservationView,
    observed_at: i64,
) -> SupervisorStateView {
    if is_current(state, target) {
        state.with_record(
            target.id,
            observed_record(state.records[target.id], observation, observed_at),
        )
    } else {
        state
    }
}

/// How a process can be asked.
pub fn control_target(worker: Option<&WorkerControl>) -> (r: ControlTarget)
    ensures
        r@ == control_of(
            match worker {
                Some(worker) => Some(worker@),
                None => None,
            },
        ),
{
    match worker {
        None => ControlTarget::Missing,
        Some(worker) => if text::is_empty(worker.endpoint.as_str()) || text::is_empty(
            worker.token.as_str(),
        ) {
            ControlTarget::Pending
        } else {
            ControlTarget::Endpoint(
                WorkerEndpoint { address: worker.endpoint.clone(), token: worker.token.clone() },
            )
        },
    }
}

/// Whether two processes are asked the same way.
fn same_control(a: &ControlTarget, b: &ControlTarget) -> (r: bool)
    ensures
        r == (a@ == b@),
{
    match (a, b) {
        (ControlTarget::Missing, ControlTarget::Missing) => true,
        (ControlTarget::Pending, ControlTarget::Pending) => true,
        (ControlTarget::Endpoint(x), ControlTarget::Endpoint(y)) => x.address == y.address
            && x.token == y.token,
        _ => false,
    }
}

/// A process as it is asked.
pub fn process_query_target(
    id: ProcessId,
    record: &ProcessRecord,
    worker: Option<&WorkerControl>,
) -> (r: ProcessQueryTarget)
    ensures
        r@ == (ProcessQueryTargetView {
            id,
            pid: record.pid,
            control: control_of(
                match worker {
                    Some(worker) => Some(worker@),
                    None => None,
                },
            ),
        }),
{
    ProcessQueryTarget { id, pid: record.pid, control: control_target(worker) }
}

/// Finds a registered process to ask.
pub fn target_for_process(state: &SupervisorState, id: ProcessId) -> (r: Result<
    ProcessQueryTarget,
    String,
>)
    ensures
        if state@.records.contains_key(id) {
            r is Ok && r->Ok_0@ == target_in(state@, id)
        } else {
            r is Err && r->Err_0@ == "supervisor process "@ + ids::id_text(id) + " not found"@
        },
{
    match state.records.get(&id) {
        None => Err(
            "supervisor process ".to_owned().concat(ids::id_to_text(id).as_str()).concat(
                " not found",
            ),
        ),
        Some(record) => Ok(process_query_target(id, record, state.workers.get(&id))),
    }
}

/// Whether the process that was asked is still the one that is registered.
pub fn target_is_current(state: &SupervisorState, target: &ProcessQueryTarget) -> (r: bool)
    ensures
        r == is_current(state@, target@),
{
    match target_for_process(state, target.id) {
        Ok(current) => current.pid == target.pid && same_control(&current.control, &target.control),
        Err(_) => false,
    }
}

/// Merges an observation into a record.
pub fn apply_observation(
    record: &mut ProcessRecord,
    observation: WorkerObservation,
    observed_at: i64,
)
    ensures
        final(record)@ == observed_record(old(record)@, observation@, observed_at),
{
    let settled = record.status == ProcessStatus::Stopping || record.status
        == ProcessStatus::Exited;
    record.last_observed_at = observed_at;
    match observation {
        WorkerObservation::Exited => {
            record.status = ProcessStatus::Exited;
        },
        WorkerObservation::Starting => {
            if !settled {
                record.status = ProcessStatus::Starting;
            }
        },
        WorkerObservation::Status(status) => {
            if !settled {
                record.status = ProcessStatus::Running;
            }
            record.activity = status.activity;
            record.mode = status.mode;
            record.summary = status.summary;
            record.error = status.error;
            record.thread_id = status.thread_id;
            record.last_state_update_at = if status.updated_at < observed_at {
                observed_at
            } else {
                status.updated_at
            };
        },
        WorkerObservation::Unresponsive(_) => {
            if !settled {
                record.status = ProcessStatus::Unresponsive;
            }
        },
    }
}

/// Notes an observation of a process, unless another one took its place.
pub fn apply_target_observation(
    state: &mut SupervisorState,
    target: &ProcessQueryTarget,
    observation: WorkerObservation,
    observed_at: i64,
)
    ensures
        final(state)@ == observed(old(state)@, target@, observation@, observed_at),
        old(state)@.well_formed() ==> final(state)@.well_formed(),
{
    if target_is_current(state, target) {
        let ghost before = state@;
        let ghost observation_view = observation@;
        if let Some(mut record) = state.records.remove(&target.id) {
            let ghost old_record = record@;
            apply_observation(&mut record, observation, observed_at);
            state.records.insert(target.id, record);
            proof {
                assert(old_record == before.records[target.id]);
                assert(state@.records =~= before.records.insert(target.id, record@));
                assert(state@ =~= before.with_record(target.id, record@));
                registry::lemma_with_record_well_formed(before, target.id, record@);
            }
        }
    }
}

/// An observation of a process that is no longer the registered one changes nothing.
pub proof fn law_stale_observation_is_dropped(
    state: SupervisorStateView,
    target: ProcessQueryTargetView,
    observation: WorkerObservationView,
    observed_at: i64,
)
    requires
        !state.records.contains_key(target.id) || state.records[target.id].pid != target.pid
            || control_in(state, target.id) != target.control,
    ensures
        observed(state, target, observation, observed_at) == state,
{
}

/// An exited process is exited whatever it was before, and stays exited.
pub proof fn law_exit_is_final(
    record: ProcessRecordView,
    first: i64,
    observation: WorkerObservationView,
    second: i64,
)
    ensures
        observed_record(record, WorkerObservationView::Exited, first).status
            == ProcessStatus::Exited,
        observed_record(
            observed_record(record, WorkerObservationView::Exited, first),
            observation,
            second,
        ).status == ProcessStatus::Exited,
{
}

/// A stopping process keeps stopping until it is seen to have exited.
pub proof fn law_stopping_waits_for_the_exit(
    record: ProcessRecordView,
    observation: WorkerObservationView,
    observed_at: i64,
)
    requires
        record.status == ProcessStatus::Stopping,
        !(observation is Exited),
    ensures
        observed_record(record, observation, observed_at).status == ProcessStatus::Stopping,
{
}

/// A silent worker keeps what it last reported.
pub proof fn law_silence_keeps_the_last_report(
    record: ProcessRecordView,
    message: Seq<char>,
    observed_at: i64,
)
    ensures
        observed_record(record, WorkerObservationView::Unresponsive(message), observed_at) == (
        ProcessRecordView {
            status: observed_status(record.status, WorkerObservationView::Unresponsive(message)),
            last_observed_at: observed_at,
            ..record
        }),
{
}

/// Some identities in ascending order.
pub open spec fn ascending(ids: Seq<ProcessId>) -> bool {
    forall|i: int, j: int| 0 <= i < j < ids.len() ==> ids[i] < ids[j]
}

/// All identities of a set in ascending order.
pub open spec fn lists_all(ids: Seq<ProcessId>, all: Set<ProcessId>) -> bool {
    ascending(ids) && ids.to_set() == all
}

/// The views of some targets.
pub open spec fn target_views(targets: Seq<ProcessQueryTarget>) -> Seq<ProcessQueryTargetView> {
    Seq::new(targets.len(), |i: int| targets[i]@)
}

/// What increases in the order of its type ascends as numbers.
proof fn lemma_increasing_ascends(refs: Seq<&ProcessId>)
    requires
        vstd::std_specs::btree::increasing_seq(refs),
    ensures
        ascending(refs.unref()),
{
    assert(vstd::laws_cmp::obeys_cmp::<ProcessId>());
    assert(vstd::laws_cmp::obeys_cmp::<&ProcessId>());
    vstd::std_specs::btree::axiom_increasing_seq_meaning(refs);
    assert forall|i: int, j: int| 0 <= i < j < refs.unref().len() implies refs.unref()[i]
        < refs.unref()[j] by {
        assert(OrdSpec::cmp_spec(&refs[i], &refs[j]) is Less);
        assert(OrdSpec::cmp_spec(refs[i], refs[j]) is Less);
    }
}

/// The registered identities in ascending order.
fn sorted_ids(state: &SupervisorState) -> (r: Vec<ProcessId>)
    ensures
        lists_all(r@, state@.records.dom()),
{
    let mut out: Vec<ProcessId> = Vec::new();
    let ghost refs = state.records.keys().remaining();
    for id in it: state.records.keys()
        invariant
            it.seq() == refs,
            refs.unref().to_set() == state.records@.dom(),
            vstd::std_specs::btree::increasing_seq(refs),
            out@ == refs.unref().take(it.index() as int),
    {
        out.push(*id);
        assert(out@ =~= refs.unref().take(it.index() + 1));
    }
    proof {
        assert(out@ =~= refs.unref());
        lemma_increasing_ascends(refs);
        assert(state@.records.dom() =~= state.records@.dom());
    }
    out
}

/// Whether some targets are all registered processes, in ascending order.
pub open spec fn asks_all(
    state: SupervisorStateView,
    targets: Seq<ProcessQueryTargetView>,
) -> bool {
    &&& lists_all(Seq::new(targets.len(), |i: int| targets[i].id), state.records.dom())
    &&& forall|i: int|
        0 <= i < targets.len() ==> (#[trigger] targets[i]) == target_in(state, targets[i].id)
}

/// All registered processes, to be asked.
pub fn query_targets(state: &SupervisorState) -> (r: Vec<ProcessQueryTarget>)
    ensures
        asks_all(state@, target_views(r@)),
{
    let ids = sorted_ids(state);
    let mut out: Vec<ProcessQueryTarget> = Vec::new();
    let mut i: usize = 0;
    while i < ids.len()
        invariant
            i <= ids@.len(),
            lists_all(ids@, state@.records.dom()),
            out@.len() == i,
            forall|j: int|
                0 <= j < i ==> (#[trigger] out@[j])@ == target_in(state@, ids@[j]),
        decreases ids@.len() - i,
    {
        let id = ids[i];
        assert(state@.records.contains_key(id)) by {
            assert(ids@.to_set().contains(ids@[i as int]));
        }
        if let Some(record) = state.records.get(&id) {
            out.push(process_query_target(id, record, state.workers.get(&id)));
        }
        i = i + 1;
    }
    proof {
        let views = target_views(out@);
        assert(Seq::new(views.len(), |i: int| views[i].id) =~= ids@);
    }
    out
}

/// A round of questions: which processes still have to be asked, how many are being asked, and what
/// was found out so far.
#[derive(Debug)]
pub struct QueryRound {
    pub targets: Vec<ProcessQueryTarget>,
    pub started: usize,
    pub finished: usize,
    pub observations: BTreeMap<ProcessId, WorkerObservation>,
}

/// The view of [`QueryRound`].
#[verifier::ext_equal]
pub struct QueryRoundView {
    pub targets: Seq<ProcessQueryTargetView>,
    pub started: nat,
    pub finished: nat,
    pub observations: Map<ProcessId, WorkerObservationView>,
}

impl View for QueryRound {
    type V = QueryRoundView;

    open spec fn view(&self) -> QueryRoundView {
        QueryRoundView {
            targets: target_views(self.targets@),
            started: self.started as nat,
            finished: self.finished as nat,
            observations: self.observations@.map_values(
                |observation: WorkerObservation| observation@,
            ),
        }
    }
}

impl QueryRoundView {
    /// No more than the allowed number of processes are being asked at a time.
    pub open spec fn well_formed(self) -> bool {
        &&& self.finished <= self.started <= self.targets.len()
        &&& self.started - self.finished <= MAX_CONCURRENT_STATUS_QUERIES
    }

    /// Whether another process can be asked now.
    pub open spec fn can_start(self) -> bool {
        self.started < self.targets.len() && self.started - self.finished
            < MAX_CONCURRENT_STATUS_QUERIES
    }

    /// The process that is asked next, if one can be asked now.
    pub open spec fn next_target(self) -> Option<ProcessQueryTargetView> {
        if self.can_start() {
            Some(self.targets[self.started as int])
        } else {
            None
        }
    }

    /// The round after a process was asked.
    pub open spec fn after_start(self) -> QueryRoundView {
        QueryRoundView { started: self.started + 1, ..self }
    }

    /// The round after something was found out about a process.
    pub open spec fn after_finish(
        self,
        id: ProcessId,
        observation: WorkerObservationView,
    ) -> QueryRoundView {
        QueryRoundView {
            finished: self.finished + 1,
            observations: self.observations.insert(id, observation),
            ..self
        }
    }

    /// Whether every process was asked and has answered.
    pub open spec fn is_complete(self) -> bool {
        self.finished == self.targets.len()
    }
}

impl QueryRound {
    /// A round in which nothing was asked yet.
    pub fn new(targets: Vec<ProcessQueryTarget>) -> (r: Self)
        ensures
            r@ == (QueryRoundView {
                targets: target_views(targets@),
                started: 0,
                finished: 0,
                observations: Map::empty(),
            }),
            r@.well_formed(),
    {
        let round = QueryRound { targets, started: 0, finished: 0, observations: BTreeMap::new() };
        assert(round@.observations =~= Map::empty());
        round
    }

    /// The next process to ask, if one can be asked now.
    pub fn start_next(&mut self) -> (r: Option<ProcessQueryTarget>)
        requires
            old(self)@.well_formed(),
        ensures
            final(self)@.well_formed(),
            match old(self)@.next_target() {
                Some(target) => r is Some && r->Some_0@ == target && final(self)@ == old(
                    self,
                )@.after_start(),
                None => r is None && final(self)@ == old(self)@,
            },
    {
        if self.started < self.targets.len() && self.started - self.finished
            < MAX_CONCURRENT_STATUS_QUERIES {
            let target = self.targets[self.started].clone();
            self.started = self.started + 1;
            Some(target)
        } else {
            None
        }
    }

    /// Notes what was found out about a process.
    pub fn finish(&mut self, id: ProcessId, observation: WorkerObservation)
        requires
            old(self)@.well_formed(),
            old(self)@.finished < old(self)@.started,
        ensures
            final(self)@.well_formed(),
            final(self)@ == old(self)@.after_finish(id, observation@),
    {
        let ghost before = self@;
        self.observations.insert(id, observation);
        self.finished = self.finished + 1;
        assert(self@.observations =~= before.observations.insert(id, observation@));
    }

    /// Whether every process was asked and has answered.
    pub fn is_complete(&self) -> (r: bool)
        ensures
            r == self@.is_complete(),
    {
        self.finished == self.targets.len()
    }
}

/// As long as a round is not complete, a process is being asked or can be asked.
pub proof fn law_round_never_stalls(round: QueryRoundView)
    requires
        round.well_formed(),
        !round.is_complete(),
    ensures
        round.finished < round.started || round.can_start(),
{
}

/// What is known after a round: what was found out, and silence of the rest if time ran out.
pub open spec fn known(
    observations: Map<ProcessId, WorkerObservationView>,
    timed_out: bool,
    id: ProcessId,
) -> Option<WorkerObservationView> {
    if observations.contains_key(id) {
        Some(observations[id])
    } else if timed_out {
        Some(WorkerObservationView::Unresponsive("snapshot query timed out"@))
    } else {
        None
    }
}

/// The state after a round, target by target.
pub open spec fn settled(
    state: SupervisorStateView,
    targets: Seq<ProcessQueryTargetView>,
    observations: Map<ProcessId, WorkerObservationView>,
    timed_out: bool,
    observed_at: i64,
) -> SupervisorStateView
    decreases targets.len(),
{
    if targets.len() == 0 {
        state
    } else {
        let before = settled(state, targets.drop_last(), observations, timed_out, observed_at);
        match known(observations, timed_out, targets.last().id) {
            Some(observation) => observed(before, targets.last(), observation, observed_at),
            None => before,
        }
    }
}

/// The record of a process after a round.
pub open spec fn settled_record(
    state: SupervisorStateView,
    observations: Map<ProcessId, WorkerObservationView>,
    timed_out: bool,
    observed_at: i64,
    id: ProcessId,
) -> ProcessRecordView {
    match known(observations, timed_out, id) {
        Some(observation) => observed_record(state.records[id], observation, observed_at),
        None => state.records[id],
    }
}

/// A round over some of the targets changes the records of these and of no others.
proof fn lemma_settled_prefix(
    state: SupervisorStateView,
    targets: Seq<ProcessQueryTargetView>,
    observations: Map<ProcessId, WorkerObservationView>,
    timed_out: bool,
    observed_at: i64,
    count: int,
)
    requires
        asks_all(state, targets),
        0 <= count <= targets.len(),
    ensures
        ({
            let after = settled(state, targets.take(count), observations, timed_out, observed_at);
            &&& after.workers == state.workers
            &&& after.leases == state.leases
            &&& after.daemon_pid == state.daemon_pid
            &&& after.records.dom() == state.records.dom()
            &&& forall|i: int|
                0 <= i < targets.len() ==> after.records[(#[trigger] targets[i]).id] == (if i
                    < count {
                    settled_record(state, observations, timed_out, observed_at, targets[i].id)
                } else {
                    state.records[targets[i].id]
                })
        }),
    decreases count,
{
    let ids = Seq::new(targets.len(), |i: int| targets[i].id);
    if count > 0 {
        lemma_settled_prefix(state, targets, observations, timed_out, observed_at, count - 1);
        let before = settled(state, targets.take(count - 1), observations, timed_out, observed_at);
        let target = targets[count - 1];
        assert(targets.take(count).drop_last() =~= targets.take(count - 1));
        assert(targets.take(count).last() == target);
        assert(ids.to_set().contains(ids[count - 1]));
        assert(is_current(before, target)) by {
            assert(state.records.contains_key(target.id));
            assert(before.records[target.id] == state.records[target.id]);
        }
        let after = settled(state, targets.take(count), observations, timed_out, observed_at);
        assert(after.records.dom() =~= state.records.dom());
        assert forall|i: int| 0 <= i < targets.len() implies after.records[(#[trigger] targets[i]).id]
            == (if i < count {
            settled_record(state, observations, timed_out, observed_at, targets[i].id)
        } else {
            state.records[targets[i].id]
        }) by {
            if i != count - 1 {
                assert(ids[i] != ids[count - 1]);
            }
        }
    } else {
        assert(targets.take(0) =~= Seq::empty());
    }
}

/// A round settles each process by what was found out about it alone: by its own observation, by
/// silence if it did not answer in time, and not at all otherwise.
pub proof fn law_round_settles_each_process(
    state: SupervisorStateView,
    targets: Seq<ProcessQueryTargetView>,
    observations: Map<ProcessId, WorkerObservationView>,
    timed_out: bool,
    observed_at: i64,
    id: ProcessId,
)
    requires
        asks_all(state, targets),
        state.records.contains_key(id),
    ensures
        ({
            let after = settled(state, targets, observations, timed_out, observed_at);
            &&& after.records.dom() == state.records.dom()
            &&& after.records[id] == settled_record(
                state,
                observations,
                timed_out,
                observed_at,
                id,
            )
        }),
{
    let ids = Seq::new(targets.len(), |i: int| targets[i].id);
    lemma_settled_prefix(
        state,
        targets,
        observations,
        timed_out,
        observed_at,
        targets.len() as int,
    );
    assert(targets.take(targets.len() as int) =~= targets);
    assert(ids.to_set().contains(id));
    let i = choose|i: int| 0 <= i < ids.len() && ids[i] == id;
    assert(targets[i].id == id);
}

/// Whether a snapshot shows all registered processes, in ascending order.
pub open spec fn is_snapshot(state: SupervisorStateView, snapshot: SupervisorSnapshotView) -> bool {
    &&& snapshot.protocol_version == PROTOCOL_VERSION
    &&& snapshot.daemon_pid == state.daemon_pid
    &&& exists|ids: Seq<ProcessId>| #[trigger]
        lists_all(ids, state.records.dom()) && snapshot.processes == Seq::new(
            ids.len(),
            |i: int| state.records[ids[i]],
        )
}

/// All registered processes as they are known.
pub fn take_snapshot(state: &SupervisorState) -> (r: SupervisorSnapshot)
    ensures
        is_snapshot(state@, r@),
{
    let ids = sorted_ids(state);
    let mut processes: Vec<ProcessRecord> = Vec::new();
    let mut i: usize = 0;
    while i < ids.len()
        invariant
            i <= ids@.len(),
            lists_all(ids@, state@.records.dom()),
            processes@.len() == i,
            forall|j: int|
                0 <= j < i ==> (#[trigger] processes@[j])@ == state@.records[ids@[j]],
        decreases ids@.len() - i,
    {
        let id = ids[i];
        assert(state@.records.contains_key(id)) by {
            assert(ids@.to_set().contains(ids@[i as int]));
        }
        if let Some(record) = state.records.get(&id) {
            processes.push(record.clone());
        }
        i = i + 1;
    }
    let snapshot = SupervisorSnapshot {
        protocol_version: PROTOCOL_VERSION,
        daemon_pid: state.daemon_pid,
        processes,
    };
    assert(snapshot@.processes =~= Seq::new(ids@.len(), |i: int| state@.records[ids@[i]]));
    snapshot
}

/// Notes what a round found out and shows all processes.
///
/// When time ran out, a process that did not answer counts as silent and not as what it was before.
pub fn settle_round(
    state: &mut SupervisorState,
    targets: &Vec<ProcessQueryTarget>,
    observations: &BTreeMap<ProcessId, WorkerObservation>,
    timed_out: bool,
    observed_at: i64,
) -> (r: SupervisorSnapshot)
    ensures
        final(state)@ == settled(
            old(state)@,
            target_views(targets@),
            observations@.map_values(|observation: WorkerObservation| observation@),
            timed_out,
            observed_at,
        ),
        is_snapshot(final(state)@, r@),
        old(state)@.well_formed() ==> final(state)@.well_formed(),
{
    let ghost before = state@;
    let ghost views = target_views(targets@);
    let ghost found = observations@.map_values(|observation: WorkerObservation| observation@);
    let mut i: usize = 0;
    assert(views.take(0) =~= Seq::empty());
    while i < targets.len()
        invariant
            i <= targets@.len(),
            views == target_views(targets@),
            found == observations@.map_values(|observation: WorkerObservation| observation@),
            state@ == settled(before, views.take(i as int), found, timed_out, observed_at),
            before.well_formed() ==> state@.well_formed(),
        decreases targets@.len() - i,
    {
        let target = &targets[i];
        proof {
            assert(views.take(i + 1).drop_last() =~= views.take(i as int));
            assert(views.take(i + 1).last() == target@);
        }
        match observations.get(&target.id) {
            Some(observation) => {
                apply_target_observation(state, target, observation.clone(), observed_at);
            },
            None => {
                if timed_out {
                    apply_target_observation(
                        state,
                        target,
                        WorkerObservation::Unresponsive("snapshot query timed out".to_owned()),
                        observed_at,
                    );
                }
            },
        }
        i = i + 1;
    }
    assert(views.take(views.len() as int) =~= views);
    take_snapshot(state)
}

impl Clone for WorkerObservation {
    fn clone(&self) -> (r: Self)
        ensures
            r@ == self@,
    {
        match self {
            WorkerObservation::Exited => WorkerObservation::Exited,
            WorkerObservation::Starting => WorkerObservation::Starting,
            WorkerObservation::Status(status) => WorkerObservation::Status(status.clone()),
            WorkerObservation::Unresponsive(message) => WorkerObservation::Unresponsive(
                message.clone(),
            ),
        }
    }
}

/// What came back from a worker that was asked.
#[derive(Debug, PartialEq, Eq)]
pub enum WorkerReply {
    Answer(WorkerResponse),
    Failed(String),
    TimedOut,
}

/// The view of [`WorkerReply`].
#[verifier::ext_equal]
pub enum WorkerReplyView {
    Answer(WorkerResponseView),
    Failed(Seq<char>),
    TimedOut,
}

impl View for WorkerReply {
    type V = WorkerReplyView;

    open spec fn view(&self) -> WorkerReplyView {
        match self {
            WorkerReply::Answer(response) => WorkerReplyView::Answer(response@),
            WorkerReply::Failed(message) => WorkerReplyView::Failed(message@),
            WorkerReply::TimedOut => WorkerReplyView::TimedOut,
        }
    }
}

/// How a process is observed.
#[derive(Debug, PartialEq, Eq)]
pub enum ObservationStep {
    /// It is known without asking.
    Known(WorkerObservation),
    /// It has to be asked for its status.
    Ask(WorkerEndpoint),
}

/// The view of [`ObservationStep`].
#[verifier::ext_equal]
pub enum ObservationStepView {
    Known(WorkerObservationView),
    Ask(WorkerEndpointView),
}

impl View for ObservationStep {
    type V = ObservationStepView;

    open spec fn view(&self) -> ObservationStepView {
        match self {
            ObservationStep::Known(observation) => ObservationStepView::Known(observation@),
            ObservationStep::Ask(endpoint) => ObservationStepView::Ask(endpoint@),
        }
    }
}

/// What can be said of a process before it is asked.
pub open spec fn first_step(alive: bool, control: ControlTargetView) -> ObservationStepView {
    if !alive {
        ObservationStepView::Known(WorkerObservationView::Exited)
    } else {
        match control {
            ControlTargetView::Missing => ObservationStepView::Known(
                WorkerObservationView::Unresponsive("worker control channel is missing"@),
            ),
            ControlTargetView::Pending => ObservationStepView::Known(
                WorkerObservationView::Starting,
            ),
            ControlTargetView::Endpoint(endpoint) => ObservationStepView::Ask(endpoint),
        }
    }
}

/// What a reply to a question for the status says.
pub open spec fn observation_of(reply: WorkerReplyView) -> WorkerObservationView {
    match reply {
        WorkerReplyView::Answer(WorkerResponseView::Status(status)) =>
            WorkerObservationView::Status(status),
        WorkerReplyView::Answer(WorkerResponseView::Error { message }) =>
            WorkerObservationView::Unresponsive("worker status query failed: "@ + message),
        WorkerReplyView::Answer(WorkerResponseView::WorkPage(_)) =>
            WorkerObservationView::Unresponsive(
            "worker returned an invalid status query response"@,
        ),
        WorkerReplyView::Failed(message) => WorkerObservationView::Unresponsive(
            "worker status query failed: "@ + message,
        ),
        WorkerReplyView::TimedOut => WorkerObservationView::Unresponsive(
            "worker status query timed out after "@ + text::decimal(
                WORKER_STATUS_QUERY_SECONDS as nat,
            ) + " seconds"@,
        ),
    }
}

/// Decides how a process is observed.
pub fn observe_process(alive: bool, control: &ControlTarget) -> (r: ObservationStep)
    ensures
        r@ == first_step(alive, control@),
{
    if !alive {
        return ObservationStep::Known(WorkerObservation::Exited);
    }
    match control {
        ControlTarget::Missing => ObservationStep::Known(
            WorkerObservation::Unresponsive("worker control channel is missing".to_owned()),
        ),
        ControlTarget::Pending => ObservationStep::Known(WorkerObservation::Starting),
        ControlTarget::Endpoint(endpoint) => ObservationStep::Ask(endpoint.clone()),
    }
}

/// Reads the reply to a question for the status.
pub fn observation_from_reply(reply: WorkerReply) -> (r: WorkerObservation)
    ensures
        r@ == observation_of(reply@),
{
    match reply {
        WorkerReply::Answer(WorkerResponse::Status(status)) => WorkerObservation::Status(status),
        WorkerReply::Answer(WorkerResponse::Error { message }) => WorkerObservation::Unresponsive(
            "worker status query failed: ".to_owned().concat(message.as_str()),
        ),
        WorkerReply::Answer(WorkerResponse::WorkPage(_)) => WorkerObservation::Unresponsive(
            "worker returned an invalid status query response".to_owned(),
        ),
        WorkerReply::Failed(message) => WorkerObservation::Unresponsive(
            "worker status query failed: ".to_owned().concat(message.as_str()),
        ),
        WorkerReply::TimedOut => WorkerObservation::Unresponsive(
            "worker status query timed out after ".to_owned().concat(
                text::decimal_text(WORKER_STATUS_QUERY_SECONDS).as_str(),
            ).concat(" seconds"),
        ),
    }
}

/// Why a process cannot be asked, if it cannot.
pub open spec fn unreachable_reason(
    alive: bool,
    target: ProcessQueryTargetView,
) -> Option<Seq<char>> {
    if !alive {
        Some("supervisor process "@ + ids::id_text(target.id) + " has exited"@)
    } else if !(target.control is Endpoint) {
        Some("worker "@ + ids::id_text(target.id) + " has not established its control channel"@)
    } else {
        None
    }
}

/// Where to ask a process. A process that lives no more is noted as exited.
pub fn reach_worker(
    state: &mut SupervisorState,
    target: &ProcessQueryTarget,
    alive: bool,
    now: i64,
) -> (r: Result<WorkerEndpoint, String>)
    ensures
        match unreachable_reason(alive, target@) {
            Some(reason) => r is Err && r->Err_0@ == reason,
            None => r is Ok && target@.control == ControlTargetView::Endpoint(r->Ok_0@),
        },
        final(state)@ == (if alive {
            old(state)@
        } else {
            observed(old(state)@, target@, WorkerObservationView::Exited, now)
        }),
        old(state)@.well_formed() ==> final(state)@.well_formed(),
{
    if !alive {
        apply_target_observation(state, target, WorkerObservation::Exited, now);
        return Err(
            "supervisor process ".to_owned().concat(ids::id_to_text(target.id).as_str()).concat(
                " has exited",
            ),
        );
    }
    match &target.control {
        ControlTarget::Endpoint(endpoint) => Ok(endpoint.clone()),
        _ => Err(
            "worker ".to_owned().concat(ids::id_to_text(target.id).as_str()).concat(
                " has not established its control channel",
            ),
        ),
    }
}

/// What a worker's answer to a question for content becomes.
pub open spec fn work_answer(response: WorkerResponseView) -> Result<ResponseView, Seq<char>> {
    match response {
        WorkerResponseView::WorkPage(page) => Ok(ResponseView::WorkPage(page)),
        WorkerResponseView::Error { message } => Err("worker work query failed: "@ + message),
        WorkerResponseView::Status(_) => Err("worker returned an invalid work query response"@),
    }
}

/// What a worker's answer to a question for content becomes.
pub fn read_work_response(response: WorkerResponse) -> (r: Result<Response, String>)
    ensures
        registry::response_view(r) == work_answer(response@),
{
    match response {
        WorkerResponse::WorkPage(page) => Ok(Response::WorkPage(page)),
        WorkerResponse::Error { message } => Err(
            "worker work query failed: ".to_owned().concat(message.as_str()),
        ),
        WorkerResponse::Status(_) => Err(
            "worker returned an invalid work query response".to_owned(),
        ),
    }
}

/// Why a worker's control channel is not verified by its answer, if it is not.
pub open spec fn verification_failure(response: WorkerResponseView) -> Option<Seq<char>> {
    match response {
        WorkerResponseView::Status(_) => None,
        WorkerResponseView::Error { message } => Some(
            "worker control verification failed: "@ + message,
        ),
        WorkerResponseView::WorkPage(_) => Some(
            "worker returned an invalid control verification response"@,
        ),
    }
}

/// What a worker's answer to a question for its status means for its control channel.
pub fn verify_worker_response(response: WorkerResponse) -> (r: Result<(), String>)
    ensures
        match verification_failure(response@) {
            None => r is Ok,
            Some(reason) => r is Err && r->Err_0@ == reason,
        },
{
    match response {
        WorkerResponse::Status(_) => Ok(()),
        WorkerResponse::Error { message } => Err(
            "worker control verification failed: ".to_owned().concat(message.as_str()),
        ),
        WorkerResponse::WorkPage(_) => Err(
            "worker returned an invalid control verification response".to_owned(),
        ),
    }
}

/// A worker that answers with its status is observed as exactly that status. Its process, unless it
/// stops or has exited, runs from then on, and its record shows what was reported.
pub proof fn law_status_answer_is_the_report(
    record: ProcessRecordView,
    status: WorkerStatusView,
    observed_at: i64,
)
    ensures
        ({
            let observation = observation_of(
                WorkerReplyView::Answer(WorkerResponseView::Status(status)),
            );
            let after = observed_record(record, observation, observed_at);
            &&& observation == WorkerObservationView::Status(status)
            &&& record.status != ProcessStatus::Stopping && record.status != ProcessStatus::Exited
                ==> after.status == ProcessStatus::Running
            &&& after.activity == status.activity
            &&& after.mode == status.mode
            &&& after.summary == status.summary
            &&& after.error == status.error
            &&& after.thread_id == status.thread_id
            &&& after.last_observed_at == observed_at
            &&& after.last_state_update_at >= observed_at
            &&& after.last_state_update_at >= status.updated_at
            &&& after.last_state_update_at == observed_at || after.last_state_update_at
                == status.updated_at
            &&& after.exit_code == record.exit_code
            &&& registry::same_process(record, after)
        }),
{
}

/// Two workers that report different things are observed as different.
pub proof fn law_different_reports_are_told_apart(a: WorkerStatusView, b: WorkerStatusView)
    requires
        observation_of(WorkerReplyView::Answer(WorkerResponseView::Status(a))) == observation_of(
            WorkerReplyView::Answer(WorkerResponseView::Status(b)),
        ),
    ensures
        a == b,
{
}

/// A worker that answers with anything else, that fails or that is silent is observed as
/// unresponsive, with what it answered or failed with at the end of the reason.
pub proof fn law_only_a_status_is_a_status(reply: WorkerReplyView)
    ensures
        observation_of(reply) is Status <==> reply is Answer && reply->Answer_0 is Status,
        !(observation_of(reply) is Status) ==> observation_of(reply) is Unresponsive,
        reply matches WorkerReplyView::Answer(WorkerResponseView::Error { message })
            ==> observation_of(reply)->Unresponsive_0 == "worker status query failed: "@ + message,
        reply matches WorkerReplyView::Failed(message) ==> observation_of(reply)->Unresponsive_0
            == "worker status query failed: "@ + message,
        reply is TimedOut ==> observation_of(reply)->Unresponsive_0
            == "worker status query timed out after "@ + text::decimal(2) + " seconds"@,
        reply matches WorkerReplyView::Answer(WorkerResponseView::WorkPage(_)) ==> observation_of(
            reply,
        )->Unresponsive_0 == "worker returned an invalid status query response"@,
{
}

/// An observation that is no report changes the lifecycle of a process and when it was seen, and
/// nothing that the worker reported. A process that neither stops nor has exited is taken to be what
/// it was observed to be.
pub proof fn law_observation_without_a_report_keeps_it(
    record: ProcessRecordView,
    observation: WorkerObservationView,
    observed_at: i64,
)
    requires
        !(observation is Status),
    ensures
        ({
            let after = observed_record(record, observation, observed_at);
            let settles = record.status == ProcessStatus::Stopping || record.status
                == ProcessStatus::Exited;
            &&& registry::same_report(record, after)
            &&& registry::same_process(record, after)
            &&& after.exit_code == record.exit_code
            &&& after.last_observed_at == observed_at
            &&& observation is Exited ==> after.status == ProcessStatus::Exited
            &&& observation is Starting && !settles ==> after.status == ProcessStatus::Starting
            &&& observation is Unresponsive && !settles ==> after.status
                == ProcessStatus::Unresponsive
            &&& !(observation is Exited) && settles ==> after.status == record.status
        }),
{
}

/// An observation of a registered process changes its record as it was observed, and no other one.
/// Leases and the ways to reach workers stay.
pub proof fn law_observation_touches_its_process_alone(
    state: SupervisorStateView,
    target: ProcessQueryTargetView,
    observation: WorkerObservationView,
    observed_at: i64,
)
    requires
        state.records.contains_key(target.id),
        state.records[target.id].pid == target.pid,
        control_in(state, target.id) == target.control,
    ensures
        ({
            let after = observed(state, target, observation, observed_at);
            &&& after.records.contains_key(target.id)
            &&& after.records[target.id].last_observed_at == observed_at
            &&& observation matches WorkerObservationView::Status(status) ==> after.records[target.id].activity
                == status.activity && after.records[target.id].summary == status.summary
            &&& observation is Exited ==> after.records[target.id].status == ProcessStatus::Exited
            &&& registry::same_process(state.records[target.id], after.records[target.id])
            &&& after.leases == state.leases
            &&& after.workers == state.workers
            &&& registry::only_touches(state, after, target.id)
        }),
{
}

/// A registered process is asked under its own identity and number, where it said that its worker
/// listens and with the token that it gave. A worker that is not known cannot be asked; one that has
/// not yet said where it listens is awaited.
pub proof fn law_process_is_asked_where_it_listens(state: SupervisorStateView, id: ProcessId)
    ensures
        target_in(state, id).id == id,
        target_in(state, id).pid == state.records[id].pid,
        target_in(state, id).control is Missing <==> !state.workers.contains_key(id),
        target_in(state, id).control is Pending <==> state.workers.contains_key(id) && (
        state.workers[id].endpoint.len() == 0 || state.workers[id].token.len() == 0),
        target_in(state, id).control matches ControlTargetView::Endpoint(endpoint)
            ==> endpoint.address == state.workers[id].endpoint && endpoint.token
            == state.workers[id].token,
{
}

/// A process that lives no more has exited, whatever is known of its worker. A living one is asked
/// where its worker listens; it is starting while that is not yet known, and unresponsive where its
/// worker is missing.
pub proof fn law_living_worker_is_asked(alive: bool, control: ControlTargetView)
    ensures
        !alive ==> first_step(alive, control) == ObservationStepView::Known(
            WorkerObservationView::Exited,
        ),
        alive && control is Endpoint ==> first_step(alive, control) == ObservationStepView::Ask(
            control->Endpoint_0,
        ),
        alive && control is Pending ==> first_step(alive, control) == ObservationStepView::Known(
            WorkerObservationView::Starting,
        ),
        alive && control is Missing ==> (first_step(alive, control)
            matches ObservationStepView::Known(observation) && observation is Unresponsive),
{
}

/// After a round a process is what was found out about it. Where nothing was found out, it is silent if
/// time ran out, and not judged otherwise.
pub proof fn law_silence_counts_only_when_time_ran_out(
    observations: Map<ProcessId, WorkerObservationView>,
    timed_out: bool,
    id: ProcessId,
)
    ensures
        observations.contains_key(id) ==> known(observations, timed_out, id) == Some(
            observations[id],
        ),
        !observations.contains_key(id) && timed_out ==> (known(observations, timed_out, id)
            matches Some(observation) && observation == WorkerObservationView::Unresponsive(
            "snapshot query timed out"@,
        )),
        !observations.contains_key(id) && !timed_out ==> known(observations, timed_out, id) is None,
{
}

/// After a round that asked every process, each one that reported runs with its report, each one that
/// did not answer in time is unresponsive with its last report, and no process is lost or made up.
pub proof fn law_round_shows_what_workers_reported(
    state: SupervisorStateView,
    targets: Seq<ProcessQueryTargetView>,
    observations: Map<ProcessId, WorkerObservationView>,
    timed_out: bool,
    observed_at: i64,
    id: ProcessId,
)
    requires
        asks_all(state, targets),
        state.records.contains_key(id),
        state.records[id].status != ProcessStatus::Stopping,
        state.records[id].status != ProcessStatus::Exited,
    ensures
        ({
            let after = settled(state, targets, observations, timed_out, observed_at);
            let record = after.records[id];
            &&& after.records.dom() == state.records.dom()
            &&& registry::same_process(state.records[id], record)
            &&& observations.contains_key(id) ==> (observations[id]
                matches WorkerObservationView::Status(status) ==> {
                &&& record.status == ProcessStatus::Running
                &&& record.activity == status.activity
                &&& record.mode == status.mode
                &&& record.summary == status.summary
                &&& record.error == status.error
                &&& record.thread_id == status.thread_id
            })
            &&& !observations.contains_key(id) && timed_out ==> record.status
                == ProcessStatus::Unresponsive && registry::same_report(state.records[id], record)
            &&& !observations.contains_key(id) && !timed_out ==> record == state.records[id]
        }),
{
    law_round_settles_each_process(state, targets, observations, timed_out, observed_at, id);
}

/// A snapshot lists each registered process once, with its record as it is, in the order of the
/// identities, and names the supervisor that made it.
pub proof fn law_snapshot_lists_every_process_once(
    state: SupervisorStateView,
    snapshot: SupervisorSnapshotView,
)
    requires
        state.well_formed(),
        is_snapshot(state, snapshot),
    ensures
        snapshot.daemon_pid == state.daemon_pid,
        snapshot.protocol_version == 2,
        forall|i: int|
            0 <= i < snapshot.processes.len() ==> state.records.contains_key(
                (#[trigger] snapshot.processes[i]).id,
            ) && state.records[snapshot.processes[i].id] == snapshot.processes[i],
        forall|i: int, j: int|
            0 <= i < j < snapshot.processes.len() ==> (#[trigger] snapshot.processes[i]).id
                < (#[trigger] snapshot.processes[j]).id,
        forall|id: ProcessId| #[trigger]
            state.records.contains_key(id) ==> exists|i: int|
                0 <= i < snapshot.processes.len() && (#[trigger] snapshot.processes[i])
                    == state.records[id],
{
    let ids = choose|ids: Seq<ProcessId>| #[trigger]
        lists_all(ids, state.records.dom()) && snapshot.processes == Seq::new(
            ids.len(),
            |i: int| state.records[ids[i]],
        );
    assert forall|i: int| 0 <= i < snapshot.processes.len() implies state.records.contains_key(
        ids[i],
    ) && (#[trigger] snapshot.processes[i]).id == ids[i] by {
        assert(ids.to_set().contains(ids[i]));
    }
    assert forall|id: ProcessId| #[trigger] state.records.contains_key(id) implies exists|i: int|
        0 <= i < snapshot.processes.len() && (#[trigger] snapshot.processes[i])
            == state.records[id] by {
        assert(ids.to_set().contains(id));
        let i = choose|i: int| 0 <= i < ids.len() && ids[i] == id;
        assert(snapshot.processes[i] == state.records[id]);
    }
}

/// A list asks each registered process once, in the order of the identities, and no other one.
pub proof fn law_list_asks_every_process_once(
    state: SupervisorStateView,
    targets: Seq<ProcessQueryTargetView>,
)
    requires
        asks_all(state, targets),
    ensures
        forall|i: int|
            0 <= i < targets.len() ==> state.records.contains_key((#[trigger] targets[i]).id)
                && targets[i].pid == state.records[targets[i].id].pid,
        forall|i: int, j: int|
            0 <= i < j < targets.len() ==> (#[trigger] targets[i]).id < (#[trigger] targets[j]).id,
        forall|id: ProcessId| #[trigger]
            state.records.contains_key(id) ==> exists|i: int|
                0 <= i < targets.len() && (#[trigger] targets[i]).id == id,
{
    let ids = Seq::new(targets.len(), |i: int| targets[i].id);
    assert forall|i: int| 0 <= i < targets.len() implies state.records.contains_key(
        (#[trigger] targets[i]).id,
    ) && targets[i].pid == state.records[targets[i].id].pid by {
        assert(ids.to_set().contains(ids[i]));
    }
    assert forall|i: int, j: int| 0 <= i < j < targets.len() implies (#[trigger] targets[i]).id < (
    #[trigger] targets[j]).id by {
        assert(ids[i] < ids[j]);
    }
    assert forall|id: ProcessId| #[trigger] state.records.contains_key(id) implies exists|i: int|
        0 <= i < targets.len() && (#[trigger] targets[i]).id == id by {
        assert(ids.to_set().contains(id));
        let i = choose|i: int| 0 <= i < ids.len() && ids[i] == id;
        assert(targets[i].id == id);
    }
}

/// A round asks its targets one after the other, at most eight at a time, and asks none twice. It is
/// complete when as many answers came as there are targets, and keeps every answer under the identity
/// that it is about.
pub proof fn law_round_asks_in_order(
    round: QueryRoundView,
    id: ProcessId,
    observation: WorkerObservationView,
)
    requires
        round.well_formed(),
    ensures
        round.started - round.finished <= 8,
        round.next_target() is Some <==> round.started < round.targets.len() && round.started
            - round.finished < 8,
        round.next_target() matches Some(target) ==> target == round.targets[round.started as int],
        round.after_start().started == round.started + 1,
        round.after_start().finished == round.finished,
        round.after_start().targets == round.targets,
        round.after_start().observations == round.observations,
        round.after_finish(id, observation).started == round.started,
        round.after_finish(id, observation).finished == round.finished + 1,
        round.after_finish(id, observation).targets == round.targets,
        round.after_finish(id, observation).observations.contains_key(id),
        round.after_finish(id, observation).observations[id] == observation,
        forall|other: ProcessId|
            other != id && #[trigger] round.observations.contains_key(other) ==> round.after_finish(
                id,
                observation,
            ).observations[other] == round.observations[other],
        round.is_complete() <==> round.finished == round.targets.len(),
{
}

/// A process can be asked for its content exactly if it lives and its worker has said where it listens.
/// Why it cannot be asked is told of that process.
pub proof fn law_living_worker_can_be_read(alive: bool, target: ProcessQueryTargetView)
    ensures
        unreachable_reason(alive, target) is None <==> alive && target.control is Endpoint,
        !alive ==> unreachable_reason(alive, target) == Some(
            "supervisor process "@ + ids::id_text(target.id) + " has exited"@,
        ),
        alive && !(target.control is Endpoint) ==> unreachable_reason(alive, target) == Some(
            "worker "@ + ids::id_text(target.id) + " has not established its control channel"@,
        ),
{
}

/// A page that a worker answers with is handed on as it is; any other answer is an error, and what the
/// worker complained of is told.
pub proof fn law_worker_page_is_handed_on(response: WorkerResponseView)
    ensures
        work_answer(response) is Ok <==> response is WorkPage,
        response matches WorkerResponseView::WorkPage(page) ==> work_answer(response) == Ok::<
            ResponseView,
            Seq<char>,
        >(ResponseView::WorkPage(page)),
        response matches WorkerResponseView::Error { message } ==> work_answer(response) == Err::<
            ResponseView,
            Seq<char>,
        >("worker work query failed: "@ + message),
        response is Status ==> work_answer(response) == Err::<ResponseView, Seq<char>>(
            "worker returned an invalid work query response"@,
        ),
{
}

/// A worker shows that it is reached by answering with its status, and in no other way.
pub proof fn law_status_verifies_the_control_channel(response: WorkerResponseView)
    ensures
        verification_failure(response) is None <==> response is Status,
        response matches WorkerResponseView::Error { message } ==> verification_failure(response)
            == Some("worker control verification failed: "@ + message),
        response is WorkPage ==> verification_failure(response) == Some(
            "worker returned an invalid control verification response"@,
        ),
{
}

} // verus!
