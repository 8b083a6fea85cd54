//! The reporter of the current process.
//!
//! A process has at most one reporter. The first one installed stays; without one, reports go nowhere.
//! Whoever reports, or reads what was reported, does so through the one [`CurrentReporter`]: all of
//! them share its state.
use crate::reporter::{Report, ReporterView, SupervisorReporter};
use crate::types::{
    ActivityStatus, PlanStep, ProcessMode, ToolCallRecord, ToolCallRecordView, WorkMessage,
    WorkMessageView,
};
use crate::{clock, text, types};
use vstd::prelude::*;

verus! {

/// The place where a process keeps its reporter.
#[derive(Debug, PartialEq, Eq)]
pub struct CurrentReporter {
    pub reporter: Option<SupervisorReporter>,
}

impl View for CurrentReporter {
    type V = Option<ReporterView>;

    open spec fn view(&self) -> Option<ReporterView> {
        match self.reporter {
            Some(reporter) => Some(reporter@),
            None => None,
        }
    }
}

impl CurrentReporter {
    /// What the reporter keeps is well-formed, if there is a reporter.
    pub open spec fn well_formed(self) -> bool {
        self@ matches Some(state) ==> state.well_formed()
    }

    /// A place without a reporter.
    pub fn new() -> (r: Self)
        ensures
            r@ is None,
            r.well_formed(),
    {
        CurrentReporter { reporter: None }
    }
}

/// The place after a reporter was installed: one that is there stays.
pub open spec fn installed(slot: Option<ReporterView>, reporter: ReporterView) -> Option<
    ReporterView,
> {
    if slot is Some {
        slot
    } else {
        Some(reporter)
    }
}

/// The place after a report, which goes nowhere where no reporter is installed.
pub open spec fn reported(slot: Option<ReporterView>, report: Report) -> Option<ReporterView> {
    match slot {
        Some(state) => Some(state.after(report)),
        None => None,
    }
}

/// What happens to the place of a reporter.
pub enum SlotEvent {
    Installed(ReporterView),
    Reported(Report),
}

/// The place after something happened.
pub open spec fn slot_after(slot: Option<ReporterView>, event: SlotEvent) -> Option<ReporterView> {
    match event {
        SlotEvent::Installed(reporter) => installed(slot, reporter),
        SlotEvent::Reported(report) => reported(slot, report),
    }
}

/// The place after some things happened, in order.
pub open spec fn slot_after_all(slot: Option<ReporterView>, events: Seq<SlotEvent>) -> Option<
    ReporterView,
>
    decreases events.len(),
{
    if events.len() == 0 {
        slot
    } else {
        slot_after(slot_after_all(slot, events.drop_last()), events.last())
    }
}

/// The reports among some events.
pub open spec fn reports_in(events: Seq<SlotEvent>) -> Seq<Report>
    decreases events.len(),
{
    if events.len() == 0 {
        Seq::empty()
    } else {
        match events.last() {
            SlotEvent::Installed(_) => reports_in(events.drop_last()),
            SlotEvent::Reported(report) => reports_in(events.drop_last()).push(report),
        }
    }
}

/// Before any reporter is installed there is none, whatever is reported.
pub proof fn law_no_reporter_before_the_first_install(events: Seq<SlotEvent>)
    requires
        forall|i: int| 0 <= i < events.len() ==> (#[trigger] events[i]) is Reported,
    ensures
        slot_after_all(None, events) is None,
    decreases events.len(),
{
    if events.len() > 0 {
        law_no_reporter_before_the_first_install(events.drop_last());
        assert(events[events.len() - 1] is Reported);
    }
}

/// A place with a reporter keeps it: later installs change nothing, and every report reaches it.
pub proof fn law_reporter_stays_and_gets_every_report(state: ReporterView, events: Seq<SlotEvent>)
    ensures
        slot_after_all(Some(state), events) == Some(state.after_all(reports_in(events))),
    decreases events.len(),
{
    if events.len() > 0 {
        law_reporter_stays_and_gets_every_report(state, events.drop_last());
        if let SlotEvent::Reported(report) = events.last() {
            let before = reports_in(events.drop_last());
            assert(before.push(report).drop_last() =~= before);
        }
    }
}

/// All who report share one state: whatever is installed and reported, by whomever and in whatever
/// order, the place holds the reporter that was installed first, with every report that was made
/// since, in order. Reports made before it was installed are lost, and so are later reporters.
pub proof fn law_first_reporter_is_shared(events: Seq<SlotEvent>, first: int)
    requires
        0 <= first < events.len(),
        events[first] is Installed,
        forall|i: int| 0 <= i < first ==> (#[trigger] events[i]) is Reported,
    ensures
        slot_after_all(None, events) == Some(
            events[first]->Installed_0.after_all(reports_in(events.skip(first + 1))),
        ),
{
    let reporter = events[first]->Installed_0;
    let before = events.take(first);
    let rest = events.skip(first + 1);
    law_no_reporter_before_the_first_install(before);
    assert(events.take(first + 1).drop_last() =~= before);
    assert(slot_after_all(None, events.take(first + 1)) == Some(reporter));
    assert(events =~= events.take(first + 1) + rest);
    lemma_slot_after_concat(None, events.take(first + 1), rest);
    law_reporter_stays_and_gets_every_report(reporter, rest);
}

proof fn lemma_slot_after_concat(
    slot: Option<ReporterView>,
    a: Seq<SlotEvent>,
    b: Seq<SlotEvent>,
)
    ensures
        slot_after_all(slot, a + b) == slot_after_all(slot_after_all(slot, a), b),
    decreases b.len(),
{
    if b.len() == 0 {
        assert(a + b =~= a);
    } else {
        lemma_slot_after_concat(slot, a, b.drop_last());
        assert((a + b).drop_last() =~= a + b.drop_last());
    }
}

/// Installs a reporter, unless one is installed already.
pub fn install_current_reporter(slot: &mut CurrentReporter, reporter: SupervisorReporter)
    ensures
        final(slot)@ == installed(old(slot)@, reporter@),
        old(slot).well_formed() && reporter@.well_formed() ==> final(slot).well_formed(),
{
    if slot.reporter.is_none() {
        slot.reporter = Some(reporter);
    }
}

/// The reporter of the current process, if one is installed.
pub fn current_reporter(slot: &CurrentReporter) -> (r: Option<&SupervisorReporter>)
    ensures
        match r {
            Some(reporter) => slot@ == Some(reporter@),
            None => slot@ is None,
        },
{
    match &slot.reporter {
        Some(reporter) => Some(reporter),
        None => None,
    }
}

/// The reporter of the current process for those who report, if one is installed. What is reported
/// through it is in the place that it came from.
pub fn current_reporter_mut(slot: &mut CurrentReporter) -> (r: Option<&mut SupervisorReporter>)
    ensures
        match r {
            Some(reporter) => old(slot)@ == Some(reporter@) && final(slot)@ == Some(
                final(reporter)@,
            ),
            None => old(slot)@ is None && final(slot)@ is None,
        },
{
    match &mut slot.reporter {
        Some(reporter) => Some(reporter),
        None => None,
    }
}

/// Reports the thread of the current worker.
pub fn report_current_thread_id(slot: &mut CurrentReporter, thread_id: Option<String>)
    ensures
        exists|now: i64|
            final(slot)@ == #[trigger] reported(
                old(slot)@,
                Report::ThreadId { thread_id: text::opt_text(thread_id), now },
            ),
        old(slot).well_formed() ==> final(slot).well_formed(),
{
    let ghost before = slot@;
    if let Some(reporter) = current_reporter_mut(slot) {
        reporter.set_thread_id(thread_id);
    }
    proof {
        let now: i64 = match before {
            Some(state) => choose|now: i64|
                slot@ == Some(state.with_thread_id(text::opt_text(thread_id), now)),
            None => 0,
        };
        let report = Report::ThreadId { thread_id: text::opt_text(thread_id), now };
        assert(slot@ == reported(before, report));
    }
}

/// Reports what the current worker is doing.
pub fn report_current_activity(
    slot: &mut CurrentReporter,
    activity: ActivityStatus,
    mode: ProcessMode,
    summary: Option<String>,
)
    ensures
        exists|now: i64|
            final(slot)@ == #[trigger] reported(
                old(slot)@,
                Report::Activity { activity, mode, summary: text::opt_text(summary), now },
            ),
        old(slot).well_formed() ==> final(slot).well_formed(),
{
    let ghost before = slot@;
    if let Some(reporter) = current_reporter_mut(slot) {
        reporter.set_activity(activity, mode, summary);
    }
    proof {
        let now: i64 = match before {
            Some(state) => choose|now: i64|
                slot@ == Some(state.with_activity(activity, mode, text::opt_text(summary), now)),
            None => 0,
        };
        let report = Report::Activity { activity, mode, summary: text::opt_text(summary), now };
        assert(slot@ == reported(before, report));
    }
}

/// Reports an error of the current worker.
pub fn report_current_error(slot: &mut CurrentReporter, error: String)
    ensures
        exists|now: i64|
            final(slot)@ == #[trigger] reported(
                old(slot)@,
                Report::Error { error: error@, now },
            ),
        old(slot).well_formed() ==> final(slot).well_formed(),
{
    let ghost before = slot@;
    if let Some(reporter) = current_reporter_mut(slot) {
        reporter.set_error(error);
    }
    proof {
        let now: i64 = match before {
            Some(state) => choose|now: i64| slot@ == Some(state.with_error(error@, now)),
            None => 0,
        };
        let report = Report::Error { error: error@, now };
        assert(slot@ == reported(before, report));
    }
}

/// Records the prompt of the current worker.
pub fn record_current_prompt(slot: &mut CurrentReporter, prompt: String)
    ensures
        exists|now: i64|
            final(slot)@ == #[trigger] reported(
                old(slot)@,
                Report::Prompt { prompt: prompt@, now },
            ),
        old(slot).well_formed() ==> final(slot).well_formed(),
{
    let ghost before = slot@;
    if let Some(reporter) = current_reporter_mut(slot) {
        reporter.set_prompt(prompt);
    }
    proof {
        let now: i64 = match before {
            Some(state) => choose|now: i64| slot@ == Some(state.with_prompt(prompt@, now)),
            None => 0,
        };
        let report = Report::Prompt { prompt: prompt@, now };
        assert(slot@ == reported(before, report));
    }
}

/// Records the plan text of the current worker.
pub fn record_current_plan_text(slot: &mut CurrentReporter, plan_text: String)
    ensures
        exists|now: i64|
            final(slot)@ == #[trigger] reported(
                old(slot)@,
                Report::PlanText { plan_text: plan_text@, now },
            ),
        old(slot).well_formed() ==> final(slot).well_formed(),
{
    let ghost before = slot@;
    if let Some(reporter) = current_reporter_mut(slot) {
        reporter.set_plan_text(plan_text);
    }
    proof {
        let now: i64 = match before {
            Some(state) => choose|now: i64| slot@ == Some(state.with_plan_text(plan_text@, now)),
            None => 0,
        };
        let report = Report::PlanText { plan_text: plan_text@, now };
        assert(slot@ == reported(before, report));
    }
}

/// Adds a piece to the plan text of the current worker.
pub fn append_current_plan_delta(slot: &mut CurrentReporter, delta: String)
    ensures
        exists|now: i64|
            final(slot)@ == #[trigger] reported(
                old(slot)@,
                Report::PlanDelta { delta: delta@, now },
            ),
        old(slot).well_formed() ==> final(slot).well_formed(),
{
    let ghost before = slot@;
    if let Some(reporter) = current_reporter_mut(slot) {
        reporter.append_plan_delta(delta);
    }
    proof {
        let now: i64 = match before {
            Some(state) => choose|now: i64| slot@ == Some(state.with_plan_delta(delta@, now)),
            None => 0,
        };
        let report = Report::PlanDelta { delta: delta@, now };
        assert(slot@ == reported(before, report));
    }
}

/// Records the checklist of the current worker.
pub fn record_current_plan(slot: &mut CurrentReporter, plan: Vec<PlanStep>)
    ensures
        exists|now: i64|
            final(slot)@ == #[trigger] reported(
                old(slot)@,
                Report::Plan { plan: types::plan_views(plan@), now },
            ),
        old(slot).well_formed() ==> final(slot).well_formed(),
{
    let ghost before = slot@;
    if let Some(reporter) = current_reporter_mut(slot) {
        reporter.set_plan(plan);
    }
    proof {
        let now: i64 = match before {
            Some(state) => choose|now: i64|
                slot@ == Some(state.with_plan(types::plan_views(plan@), now)),
            None => 0,
        };
        let report = Report::Plan { plan: types::plan_views(plan@), now };
        assert(slot@ == reported(before, report));
    }
}

/// A message that was just created.
pub open spec fn new_message(role: Seq<char>, content: Seq<char>, created: i64) -> WorkMessageView {
    WorkMessageView { role, content, created_at: Some(created) }
}

/// Records a message of the current worker.
pub fn record_current_message(slot: &mut CurrentReporter, role: String, content: String)
    ensures
        exists|created: i64, now: i64|
            final(slot)@ == #[trigger] reported(
                old(slot)@,
                Report::Message {
                    message: new_message(role@, content@, created),
                    created,
                    now,
                },
            ),
        old(slot).well_formed() ==> final(slot).well_formed(),
{
    let ghost before = slot@;
    let created: i64 = clock::unix_seconds();
    let message = WorkMessage { role, content, created_at: Some(created) };
    if let Some(reporter) = current_reporter_mut(slot) {
        reporter.append_message(message);
    }
    proof {
        let view = new_message(role@, content@, created);
        assert(message@ == view);
        let now: i64 = match before {
            Some(state) => {
                let (other, now) = choose|other: i64, now: i64|
                    slot@ == Some(state.with_message(view, other, now));
                assert(state.with_message(view, other, now) == state.with_message(
                    view,
                    created,
                    now,
                ));
                now
            },
            None => 0,
        };
        assert(slot@ == reported(before, Report::Message { message: view, created, now }));
    }
}

/// A tool call that was just created.
pub open spec fn new_tool_call(
    id: Option<Seq<char>>,
    name: Seq<char>,
    input: Seq<char>,
    output: Option<Seq<char>>,
    status: Seq<char>,
    created: i64,
) -> ToolCallRecordView {
    ToolCallRecordView { id, name, input, output, status, created_at: Some(created) }
}

/// Records a tool call of the current worker, without an identifier.
pub fn record_current_tool_call(
    slot: &mut CurrentReporter,
    name: String,
    input: String,
    output: Option<String>,
    status: String,
)
    ensures
        exists|created: i64, now: i64|
            final(slot)@ == #[trigger] reported(
                old(slot)@,
                Report::ToolCall {
                    call: new_tool_call(
                        None,
                        name@,
                        input@,
                        text::opt_text(output),
                        status@,
                        created,
                    ),
                    created,
                    now,
                },
            ),
        old(slot).well_formed() ==> final(slot).well_formed(),
{
    record_tool_call(slot, None, name, input, output, status);
}

/// Records an event of a tool call of the current worker, under its identifier.
pub fn record_current_tool_call_with_id(
    slot: &mut CurrentReporter,
    id: String,
    name: String,
    input: String,
    output: Option<String>,
    status: String,
)
    ensures
        exists|created: i64, now: i64|
            final(slot)@ == #[trigger] reported(
                old(slot)@,
                Report::ToolCall {
                    call: new_tool_call(
                        Some(id@),
                        name@,
                        input@,
                        text::opt_text(output),
                        status@,
                        created,
                    ),
                    created,
                    now,
                },
            ),
        old(slot).well_formed() ==> final(slot).well_formed(),
{
    record_tool_call(slot, Some(id), name, input, output, status);
}

/// Records a tool call that was just created.
fn record_tool_call(
    slot: &mut CurrentReporter,
    id: Option<String>,
    name: String,
    input: String,
    output: Option<String>,
    status: String,
)
    ensures
        exists|created: i64, now: i64|
            final(slot)@ == #[trigger] reported(
                old(slot)@,
                Report::ToolCall {
                    call: new_tool_call(
                        text::opt_text(id),
                        name@,
                        input@,
                        text::opt_text(output),
                        status@,
                        created,
                    ),
                    created,
                    now,
                },
            ),
        old(slot).well_formed() ==> final(slot).well_formed(),
{
    let ghost before = slot@;
    let created: i64 = clock::unix_seconds();
    let ghost view = new_tool_call(
        text::opt_text(id),
        name@,
        input@,
        text::opt_text(output),
        status@,
        created,
    );
    let call = ToolCallRecord { id, name, input, output, status, created_at: Some(created) };
    if let Some(reporter) = current_reporter_mut(slot) {
        reporter.upsert_tool_call(call);
    }
    proof {
        assert(call@ == view);
        let now: i64 = match before {
            Some(state) => {
                let (other, now) = choose|other: i64, now: i64|
                    slot@ == Some(state.with_tool_call(view, other, now));
                assert(state.with_tool_call(view, other, now) == state.with_tool_call(
                    view,
                    created,
                    now,
                ));
                now
            },
            None => 0,
        };
        assert(slot@ == reported(before, Report::ToolCall { call: view, created, now }));
    }
}

/// The first reporter that is installed stays, and a report reaches the one that is there.
pub proof fn law_report_reaches_the_reporter(
    state: ReporterView,
    other: ReporterView,
    report: Report,
)
    ensures
        installed(None, state) == Some(state),
        installed(Some(state), other) == Some(state),
        reported(Some(state), report) == Some(state.after(report)),
        reported(None, report) is None,
{
}

/// A message and a tool call are recorded with what they were made of and with when they were made.
pub proof fn law_record_holds_what_was_told(
    role: Seq<char>,
    content: Seq<char>,
    id: Option<Seq<char>>,
    name: Seq<char>,
    input: Seq<char>,
    output: Option<Seq<char>>,
    status: Seq<char>,
    created: i64,
)
    ensures
        ({
            let message = new_message(role, content, created);
            &&& message.role == role
            &&& message.content == content
            &&& message.created_at == Some(created)
        }),
        ({
            let call = new_tool_call(id, name, input, output, status, created);
            &&& call.id == id
            &&& call.name == name
            &&& call.input == input
            &&& call.output == output
            &&& call.status == status
            &&& call.created_at == Some(created)
        }),
{
}

} // verus!
