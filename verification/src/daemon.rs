//! What the supervisor does with a request.
//!
//! A request is answered at once, or becomes a step that needs the outside: asking workers, starting
//! one, or finding out whether a process lives. The outcome of that step leads to the answer.
use crate::ids::ProcessId;
use crate::protocol::{
    Envelope, Request, Response, ResponseView, SpawnWorkerRequest, SpawnWorkerRequestView,
    WorkRequest, WorkRequestView,
};
use crate::query::{ProcessQueryTarget, ProcessQueryTargetView};
use crate::registry::{SupervisorState, SupervisorStateView, TerminationStep};
use crate::types::ProcessStatus;
use crate::{ids, query, registry, text};
use vstd::prelude::*;

verus! {

/// What a request leads to.
#[derive(Debug, PartialEq, Eq)]
pub enum RequestStep {
    /// Answer.
    Reply(Response),
    /// Ask these processes for their status and show all processes.
    Observe(Vec<ProcessQueryTarget>),
    /// Ask this process for content.
    ReadWork { request: WorkRequest, target: ProcessQueryTarget },
    /// Start a worker.
    Spawn(SpawnWorkerRequest),
    /// Tell a worker of the supervisor to stop, and acknowledge.
    Stop { id: ProcessId },
    /// Find out whether a process lives, to terminate it.
    CheckAlive { id: ProcessId, pid: u32 },
}

/// The view of [`RequestStep`].
#[verifier::ext_equal]
pub enum RequestStepView {
    Reply(ResponseView),
    Observe(Seq<ProcessQueryTargetView>),
    ReadWork { request: WorkRequestView, target: ProcessQueryTargetView },
    Spawn(SpawnWorkerRequestView),
    Stop { id: ProcessId },
    CheckAlive { id: ProcessId, pid: u32 },
}

impl View for RequestStep {
    type V = RequestStepView;

    open spec fn view(&self) -> RequestStepView {
        match self {
            RequestStep::Reply(response) => RequestStepView::Reply(response@),
            RequestStep::Observe(targets) => RequestStepView::Observe(
                query::target_views(targets@),
            ),
            RequestStep::ReadWork { request, target } => RequestStepView::ReadWork {
                request: request@,
                target: target@,
            },
            RequestStep::Spawn(request) => RequestStepView::Spawn(request@),
            RequestStep::Stop { id } => RequestStepView::Stop { id: *id },
            RequestStep::CheckAlive { id, pid } => RequestStepView::CheckAlive {
                id: *id,
                pid: *pid,
            },
        }
    }
}

/// The response to an error.
pub open spec fn error_response(message: Seq<char>) -> ResponseView {
    ResponseView::Error { message }
}

/// The response that an outcome becomes.
pub open spec fn outcome_response(outcome: Result<ResponseView, Seq<char>>) -> ResponseView {
    match outcome {
        Ok(response) => response,
        Err(message) => error_response(message),
    }
}

/// What a request leads to and what it leaves behind.
pub open spec fn request_outcome(
    before: SupervisorStateView,
    request: Request,
    step: RequestStepView,
    after: SupervisorStateView,
) -> bool {
    match request {
        Request::Ping => step == RequestStepView::Reply(ResponseView::Pong) && after == before,
        Request::Register(request) => exists|
            fresh_id: ProcessId,
            fresh_token: ProcessId,
            now: i64,
            answer: Result<ResponseView, Seq<char>>,
        |
            #[trigger] registry::registration(
                before,
                request@,
                fresh_id,
                fresh_token,
                now,
                answer,
                after,
            ) && step == RequestStepView::Reply(outcome_response(answer)),
        Request::Unregister { id, lease_token } => match registry::unregister_refusal(
            before,
            id,
            lease_token,
        ) {
            Some(reason) => step == RequestStepView::Reply(error_response(reason)) && after
                == before,
            None => step == RequestStepView::Reply(ResponseView::Ack) && after == before.without(
                id,
            ),
        },
        Request::List => step is Observe && query::asks_all(before, step->Observe_0) && after
            == before,
        Request::ReadWork(request) => after == before && step == (if before.records.contains_key(
            request.id,
        ) {
            RequestStepView::ReadWork {
                request: request@,
                target: query::target_in(before, request.id),
            }
        } else {
            RequestStepView::Reply(
                error_response("supervisor process "@ + ids::id_text(request.id) + " not found"@),
            )
        }),
        Request::SpawnWorker(request) => step == RequestStepView::Spawn(request@) && after
            == before,
        Request::Terminate { id } => match registry::termination_start(before, id) {
            None => step == RequestStepView::Reply(
                error_response("supervisor process "@ + ids::id_text(id) + " not found"@),
            ) && after == before,
            Some(TerminationStep::Stop) => step == (RequestStepView::Stop { id }) && after
                == registry::with_status(before, id, ProcessStatus::Stopping),
            Some(TerminationStep::CheckAlive { pid }) => step == (RequestStepView::CheckAlive {
                id,
                pid,
            }) && after == before,
        },
    }
}

/// Turns an outcome into a response.
pub fn into_response(outcome: Result<Response, String>) -> (r: Response)
    ensures
        r@ == outcome_response(registry::response_view(outcome)),
{
    match outcome {
        Ok(response) => response,
        Err(message) => Response::Error { message },
    }
}

/// Lets a request in that carries the token of the supervisor, and answers any other.
pub fn authenticate(token: &str, envelope: Envelope) -> (r: Result<Request, Response>)
    ensures
        if envelope.token@ == token@ {
            r == Ok::<Request, Response>(envelope.request)
        } else {
            r is Err && r->Err_0@ == error_response("invalid supervisor token"@)
        },
{
    if text::text_eq(envelope.token.as_str(), token) {
        Ok(envelope.request)
    } else {
        Err(Response::Error { message: "invalid supervisor token".to_owned() })
    }
}

/// Handles a request as far as that goes without the outside.
pub fn handle_request(state: &mut SupervisorState, request: Request) -> (r: RequestStep)
    ensures
        request_outcome(old(state)@, request, r@, final(state)@),
        old(state)@.well_formed() ==> final(state)@.well_formed(),
{
    match request {
        Request::Ping => RequestStep::Reply(Response::Pong),
        Request::Register(request) => {
            let answer = state.register(request);
            RequestStep::Reply(into_response(answer))
        },
        Request::Unregister { id, lease_token } => {
            let answer = state.unregister(id, lease_token);
            RequestStep::Reply(into_response(answer))
        },
        Request::List => RequestStep::Observe(query::query_targets(state)),
        Request::ReadWork(request) => match query::target_for_process(state, request.id) {
            Ok(target) => RequestStep::ReadWork { request, target },
            Err(message) => RequestStep::Reply(Response::Error { message }),
        },
        Request::SpawnWorker(request) => RequestStep::Spawn(request),
        Request::Terminate { id } => match state.begin_termination(id) {
            Ok(TerminationStep::Stop) => RequestStep::Stop { id },
            Ok(TerminationStep::CheckAlive { pid }) => RequestStep::CheckAlive { id, pid },
            Err(message) => RequestStep::Reply(Response::Error { message }),
        },
    }
}

/// What a request asks for is done, and what it does not ask for is left alone: a question changes
/// nothing, a list asks every process, and content is asked of the process that was named.
pub proof fn law_questions_change_nothing(
    before: SupervisorStateView,
    request: Request,
    step: RequestStepView,
    after: SupervisorStateView,
)
    requires
        request_outcome(before, request, step, after),
    ensures
        request is Ping ==> step == RequestStepView::Reply(ResponseView::Pong) && after == before,
        request is List ==> step is Observe && after == before,
        request matches Request::SpawnWorker(spawn) ==> step is Spawn && after == before
            && step->Spawn_0.executable == spawn.executable@ && step->Spawn_0.cwd == spawn.cwd@
            && step->Spawn_0.args == text::texts(spawn.args@) && step->Spawn_0.kind == spawn.kind,
        request matches Request::ReadWork(read) ==> {
            &&& after == before
            &&& before.records.contains_key(read.id) ==> {
                &&& step is ReadWork
                &&& step->ReadWork_request.id == read.id
                &&& step->ReadWork_request.section == read.section
                &&& step->ReadWork_request.cursor == text::opt_text(read.cursor)
                &&& step->ReadWork_request.limit == read.limit
                &&& step->ReadWork_target.id == read.id
                &&& step->ReadWork_target.pid == before.records[read.id].pid
            }
            &&& !before.records.contains_key(read.id) ==> step == RequestStepView::Reply(
                ResponseView::Error {
                    message: "supervisor process "@ + ids::id_text(read.id) + " not found"@,
                },
            )
        },
{
}

/// A list asks each registered process once, and no other one.
pub proof fn law_list_asks_the_registered_processes(
    before: SupervisorStateView,
    step: RequestStepView,
    after: SupervisorStateView,
)
    requires
        request_outcome(before, Request::List, step, after),
    ensures
        step is Observe,
        forall|i: int|
            0 <= i < step->Observe_0.len() ==> before.records.contains_key(
                (#[trigger] step->Observe_0[i]).id,
            ),
        forall|id: ProcessId| #[trigger]
            before.records.contains_key(id) ==> exists|i: int|
                0 <= i < step->Observe_0.len() && (#[trigger] step->Observe_0[i]).id == id,
        forall|i: int, j: int|
            0 <= i < j < step->Observe_0.len() ==> (#[trigger] step->Observe_0[i]).id < (
            #[trigger] step->Observe_0[j]).id,
{
    query::law_list_asks_every_process_once(before, step->Observe_0);
}

/// A process that is to be terminated is marked as stopping where the supervisor tells its worker to
/// stop. Of any other registered process it is found out whether its own number lives, and nothing
/// changes before. A process that is not registered is not found.
pub proof fn law_termination_begins_with_the_process(
    before: SupervisorStateView,
    id: ProcessId,
    step: RequestStepView,
    after: SupervisorStateView,
)
    requires
        request_outcome(before, Request::Terminate { id }, step, after),
    ensures
        !before.records.contains_key(id) ==> after == before && step == RequestStepView::Reply(
            ResponseView::Error {
                message: "supervisor process "@ + ids::id_text(id) + " not found"@,
            },
        ),
        before.records.contains_key(id) && before.workers.contains_key(id)
            && before.workers[id].stoppable ==> step == (RequestStepView::Stop { id })
            && after.records[id].status == ProcessStatus::Stopping && registry::only_touches(
            before,
            after,
            id,
        ),
        before.records.contains_key(id) && !(before.workers.contains_key(id)
            && before.workers[id].stoppable) ==> step == (RequestStepView::CheckAlive {
            id,
            pid: before.records[id].pid,
        }) && after == before,
{
}

/// A lease that is given back by its holder is acknowledged, and its process is gone; any other one is
/// refused, and nothing changes.
pub proof fn law_lease_is_given_back(
    before: SupervisorStateView,
    id: ProcessId,
    lease_token: ProcessId,
    step: RequestStepView,
    after: SupervisorStateView,
)
    requires
        request_outcome(before, Request::Unregister { id, lease_token }, step, after),
    ensures
        before.leases.contains_key(id) && before.leases[id] == lease_token ==> step
            == RequestStepView::Reply(ResponseView::Ack) && !after.records.contains_key(id)
            && !after.leases.contains_key(id) && !after.workers.contains_key(id)
            && registry::only_touches(before, after, id),
        !(before.leases.contains_key(id) && before.leases[id] == lease_token) ==> step is Reply
            && step->Reply_0 is Error && after == before,
{
}

/// A registration is answered with what became of it: the identity and the lease, or the reason why it
/// was refused. A refused one changes nothing, and an accepted one leaves a record under its identity.
pub proof fn law_registration_is_answered(
    before: SupervisorStateView,
    request: crate::protocol::RegisterRequest,
    step: RequestStepView,
    after: SupervisorStateView,
)
    requires
        request_outcome(before, Request::Register(request), step, after),
    ensures
        step is Reply,
        step->Reply_0 is Registered || step->Reply_0 is Error,
        step->Reply_0 is Error ==> after == before,
        step->Reply_0 matches ResponseView::Registered { id, lease_token, .. } ==> {
            &&& after.records.contains_key(id)
            &&& after.records[id].pid == request.pid
            &&& after.records[id].executable == request.executable@
            &&& after.records[id].cwd == request.cwd@
            &&& after.leases[id] == lease_token
            &&& request.id is Some ==> request.id == Some(id)
            &&& request.lease_token is Some ==> request.lease_token == Some(lease_token)
        },
{
}

} // verus!
