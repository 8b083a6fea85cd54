//! What a worker answers the supervisor.
use crate::pages;
use crate::protocol::{
    WorkerEnvelope, WorkerRequest, WorkerResponse, WorkerResponseView,
};
use crate::reporter::{ReporterView, SupervisorReporter};
use crate::text;
use vstd::prelude::*;

verus! {

/// The answer to a request, given what the worker reported.
pub open spec fn worker_answer(state: ReporterView, request: WorkerRequest) -> WorkerResponseView {
    match request {
        WorkerRequest::ReadStatus => WorkerResponseView::Status(state.status),
        WorkerRequest::ReadWork(request) => match pages::page_result(
            state.details,
            request.id,
            request.section,
            text::opt_text(request.cursor),
            request.limit,
        ) {
            Ok(page) => WorkerResponseView::WorkPage(page),
            Err(message) => WorkerResponseView::Error { message },
        },
    }
}

/// Answers a request that carries the token of the worker, and refuses any other.
pub fn handle_worker_request(
    reporter: &SupervisorReporter,
    token: &str,
    envelope: WorkerEnvelope,
) -> (r: WorkerResponse)
    ensures
        r@ == (if envelope.token@ == token@ {
            worker_answer(reporter@, envelope.request)
        } else {
            WorkerResponseView::Error { message: "invalid worker control token"@ }
        }),
{
    if !text::text_eq(envelope.token.as_str(), token) {
        return WorkerResponse::Error { message: "invalid worker control token".to_owned() };
    }
    match envelope.request {
        WorkerRequest::ReadStatus => WorkerResponse::Status(reporter.status()),
        WorkerRequest::ReadWork(request) => {
            let cursor = match &request.cursor {
                Some(cursor) => Some(cursor.as_str()),
                None => None,
            };
            match reporter.page(request.id, request.section, cursor, request.limit) {
                Ok(page) => WorkerResponse::WorkPage(page),
                Err(message) => WorkerResponse::Error { message },
            }
        },
    }
}

/// A worker whose report is well-formed never answers with a page that does not fit into a frame.
pub proof fn law_worker_pages_fit_a_frame(state: ReporterView, request: WorkerRequest)
    requires
        state.well_formed(),
    ensures
        worker_answer(state, request) matches WorkerResponseView::WorkPage(page)
            ==> pages::wire_size(page) <= crate::MAX_FRAME_SIZE,
{
    if let WorkerRequest::ReadWork(request) = request {
        pages::law_every_page_fits_a_frame(
            state.details,
            request.id,
            request.section,
            text::opt_text(request.cursor),
            request.limit,
        );
    }
}

/// A worker that is asked for its status answers with what it reported, and one that is asked for
/// content answers with the page that was asked for, or with the reason why there is none.
pub proof fn law_worker_answers_what_it_reported(
    state: ReporterView,
    request: crate::protocol::WorkRequest,
)
    ensures
        worker_answer(state, WorkerRequest::ReadStatus) == WorkerResponseView::Status(state.status),
        ({
            let answer = worker_answer(state, WorkerRequest::ReadWork(request));
            let page = pages::page_result(
                state.details,
                request.id,
                request.section,
                text::opt_text(request.cursor),
                request.limit,
            );
            &&& answer is WorkPage <==> page is Ok
            &&& answer is Error <==> page is Err
            &&& answer is WorkPage ==> answer->WorkPage_0 == page->Ok_0
                && answer->WorkPage_0.process_id == request.id && answer->WorkPage_0.section
                == request.section
            &&& answer is Error ==> answer->Error_message == page->Err_0
        }),
{
}

/// What a worker reported arrives at the supervisor that asks for its status.
pub proof fn law_report_arrives_at_the_supervisor(
    state: ReporterView,
    record: crate::types::ProcessRecordView,
    observed_at: i64,
)
    ensures
        ({
            let answer = worker_answer(state, WorkerRequest::ReadStatus);
            let observation = crate::query::observation_of(
                crate::query::WorkerReplyView::Answer(answer),
            );
            let after = crate::query::observed_record(record, observation, observed_at);
            &&& after.activity == state.status.activity
            &&& after.mode == state.status.mode
            &&& after.summary == state.status.summary
            &&& after.error == state.status.error
            &&& after.thread_id == state.status.thread_id
        }),
{
    crate::query::law_status_answer_is_the_report(record, state.status, observed_at);
}

} // verus!
