//! Reading a worker's content page by page.
//!
//! A page is bounded twice: by a number of items and by the size of the frame that carries it.
use crate::ids::ProcessId;
use crate::types::{
    MAX_PAGE_LIMIT, WorkItem, WorkItemView, WorkPage, WorkPageView, WorkSection, WorkerDetails,
    WorkerDetailsView,
};
use crate::reporter::MAX_KEPT_BYTES;
use crate::{ids, json, text, MAX_FRAME_SIZE};
use vstd::prelude::*;

verus! {

/// The name of a section on the wire.
pub open spec fn section_name(section: WorkSection) -> Seq<char> {
    match section {
        WorkSection::Prompt => "prompt"@,
        WorkSection::Plan => "plan"@,
        WorkSection::Messages => "messages"@,
        WorkSection::ToolCalls => "toolCalls"@,
    }
}

/// An item on the wire.
pub open spec fn work_item_json(item: WorkItemView) -> Seq<char> {
    json::json_object_text(
        seq![
            ("content"@, json::json_quoted(item.content)),
            ("createdAt"@, json::json_optional_number(number(item.created_at))),
            ("id"@, json::json_optional(item.id)),
            ("index"@, json::json_number(item.index as int)),
            ("input"@, json::json_optional(item.input)),
            ("output"@, json::json_optional(item.output)),
            ("status"@, json::json_optional(item.status)),
            ("title"@, json::json_quoted(item.title)),
        ],
    )
}

/// An optional timestamp as a number.
pub open spec fn number(value: Option<i64>) -> Option<int> {
    match value {
        Some(n) => Some(n as int),
        None => None,
    }
}

/// A page on the wire.
pub open spec fn work_page_json(page: WorkPageView) -> Seq<char> {
    json::json_object_text(
        seq![
            (
                "items"@,
                json::json_array_text(
                    Seq::new(page.items.len(), |i: int| work_item_json(page.items[i])),
                ),
            ),
            ("nextCursor"@, json::json_optional(page.next_cursor)),
            ("planText"@, json::json_optional(page.plan_text)),
            ("processId"@, json::json_quoted(ids::id_text(page.process_id))),
            ("section"@, json::json_quoted(section_name(page.section))),
        ],
    )
}

/// The response that carries a page.
pub open spec fn page_response_json(page: WorkPageView) -> Seq<char> {
    json::json_object_text(seq![("WorkPage"@, work_page_json(page))])
}

/// The size of the response that carries a page. The order of an object's members does not matter to it.
pub open spec fn wire_size(page: WorkPageView) -> nat {
    text::byte_len(page_response_json(page))
}

/// All items of a section.
pub open spec fn section_items(details: WorkerDetailsView, section: WorkSection) -> Seq<WorkItemView> {
    match section {
        WorkSection::Prompt => match details.prompt {
            Some(prompt) => seq![
                WorkItemView {
                    index: 0,
                    title: "prompt"@,
                    content: prompt,
                    id: None,
                    status: None,
                    input: None,
                    output: None,
                    created_at: None,
                },
            ],
            None => Seq::empty(),
        },
        WorkSection::Plan => Seq::new(
            details.plan.len(),
            |i: int|
                WorkItemView {
                    index: i as usize,
                    title: "plan step"@,
                    content: details.plan[i].step,
                    id: None,
                    status: Some(details.plan[i].status),
                    input: None,
                    output: None,
                    created_at: None,
                },
        ),
        WorkSection::Messages => Seq::new(
            details.messages.len(),
            |i: int|
                WorkItemView {
                    index: i as usize,
                    title: details.messages[i].role,
                    content: details.messages[i].content,
                    id: None,
                    status: None,
                    input: None,
                    output: None,
                    created_at: details.messages[i].created_at,
                },
        ),
        WorkSection::ToolCalls => Seq::new(
            details.tool_calls.len(),
            |i: int|
                WorkItemView {
                    index: i as usize,
                    title: details.tool_calls[i].name,
                    content: Seq::empty(),
                    id: details.tool_calls[i].id,
                    status: Some(details.tool_calls[i].status),
                    input: Some(details.tool_calls[i].input),
                    output: details.tool_calls[i].output,
                    created_at: details.tool_calls[i].created_at,
                },
        ),
    }
}

/// The plan text that a page carries: the whole text, with the first page of the plan section.
pub open spec fn page_plan_text(
    details: WorkerDetailsView,
    section: WorkSection,
    offset: nat,
) -> Option<Seq<char>> {
    if section == WorkSection::Plan && offset == 0 {
        details.plan_text
    } else {
        None
    }
}

/// The page of `count` items from `offset` on. Its cursor is the position behind its last item.
pub open spec fn page_of(
    details: WorkerDetailsView,
    process_id: ProcessId,
    section: WorkSection,
    offset: nat,
    count: nat,
) -> WorkPageView {
    let items = section_items(details, section);
    WorkPageView {
        process_id,
        section,
        items: items.subrange(offset as int, (offset + count) as int),
        next_cursor: if offset + count < items.len() {
            Some(text::decimal(offset + count))
        } else {
            None
        },
        plan_text: page_plan_text(details, section, offset),
    }
}

/// How many items a page takes: one more as long as the limit is not reached, an item is left and
/// the larger page still fits into a frame.
pub open spec fn page_count(
    details: WorkerDetailsView,
    process_id: ProcessId,
    section: WorkSection,
    offset: nat,
    limit: nat,
    taken: nat,
) -> nat
    decreases limit - taken,
{
    if taken < limit && offset + taken < section_items(details, section).len() && wire_size(
        page_of(details, process_id, section, offset, taken + 1),
    ) <= MAX_FRAME_SIZE {
        page_count(details, process_id, section, offset, limit, taken + 1)
    } else {
        taken
    }
}

/// The number of items that a request may ask for: at least one, at most [`MAX_PAGE_LIMIT`].
pub open spec fn page_limit(limit: u32) -> nat {
    if limit < 1 {
        1
    } else if limit > MAX_PAGE_LIMIT {
        MAX_PAGE_LIMIT as nat
    } else {
        limit as nat
    }
}

/// Where a cursor points to, if it is a position. No cursor means the start.
pub open spec fn cursor_offset(cursor: Option<Seq<char>>) -> Option<nat> {
    match cursor {
        Some(cursor) => text::parsed_unsigned(cursor, usize::MAX as nat),
        None => Some(0),
    }
}

/// What a query for a page returns.
pub open spec fn page_result(
    details: WorkerDetailsView,
    process_id: ProcessId,
    section: WorkSection,
    cursor: Option<Seq<char>>,
    limit: u32,
) -> Result<WorkPageView, Seq<char>> {
    let total = section_items(details, section).len();
    match cursor_offset(cursor) {
        None => Err("invalid work page cursor `"@ + cursor.unwrap() + "`"@),
        Some(offset) => if offset > total {
            Err(
                "work page cursor "@ + text::decimal(offset) + " is past the end of "@
                    + text::decimal(total) + " items"@,
            )
        } else {
            let count = page_count(details, process_id, section, offset, page_limit(limit), 0);
            if count == 0 && offset < total {
                Err(
                    "work item at index "@ + text::decimal(offset)
                        + " exceeds supervisor frame limit"@,
                )
            } else {
                Ok(page_of(details, process_id, section, offset, count))
            }
        },
    }
}

/// The view of a page or of the reason why there is none.
pub open spec fn page_result_view(result: Result<WorkPage, String>) -> Result<WorkPageView, Seq<char>> {
    match result {
        Ok(page) => Ok(page@),
        Err(message) => Err(message@),
    }
}

/// The views of some items.
pub open spec fn item_views(items: Seq<WorkItem>) -> Seq<WorkItemView> {
    Seq::new(items.len(), |i: int| items[i]@)
}

proof fn lemma_work_item_keys_ascend()
    ensures
        json::keys_ascend(
            seq![
                "content"@,
                "createdAt"@,
                "id"@,
                "index"@,
                "input"@,
                "output"@,
                "status"@,
                "title"@,
            ],
        ),
{
    reveal_strlit("content");
    reveal_strlit("createdAt");
    reveal_strlit("id");
    reveal_strlit("index");
    reveal_strlit("input");
    reveal_strlit("output");
    reveal_strlit("status");
    reveal_strlit("title");
    reveal_with_fuel(json::key_less, 4);
}

proof fn lemma_work_page_keys_ascend()
    ensures
        json::keys_ascend(
            seq!["items"@, "nextCursor"@, "planText"@, "processId"@, "section"@],
        ),
{
    reveal_strlit("items");
    reveal_strlit("nextCursor");
    reveal_strlit("planText");
    reveal_strlit("processId");
    reveal_strlit("section");
    reveal_with_fuel(json::key_less, 3);
}

fn work_item_value(item: &WorkItem) -> (r: serde_json::Value)
    ensures
        json::json_text(r) == work_item_json(item@),
{
    let mut fields: Vec<(String, serde_json::Value)> = Vec::new();
    fields.push(("content".to_owned(), json::json_string(item.content.as_str())));
    fields.push(("createdAt".to_owned(), json::json_optional_integer(item.created_at)));
    fields.push(("id".to_owned(), json::json_optional_string(&item.id)));
    fields.push(("index".to_owned(), json::json_unsigned(item.index as u64)));
    fields.push(("input".to_owned(), json::json_optional_string(&item.input)));
    fields.push(("output".to_owned(), json::json_optional_string(&item.output)));
    fields.push(("status".to_owned(), json::json_optional_string(&item.status)));
    fields.push(("title".to_owned(), json::json_string(item.title.as_str())));
    proof {
        lemma_work_item_keys_ascend();
        assert(json::field_keys(fields@) =~= seq![
            "content"@,
            "createdAt"@,
            "id"@,
            "index"@,
            "input"@,
            "output"@,
            "status"@,
            "title"@,
        ]);
        assert(json::field_texts(fields@) =~= seq![
            ("content"@, json::json_quoted(item@.content)),
            ("createdAt"@, json::json_optional_number(number(item@.created_at))),
            ("id"@, json::json_optional(item@.id)),
            ("index"@, json::json_number(item@.index as int)),
            ("input"@, json::json_optional(item@.input)),
            ("output"@, json::json_optional(item@.output)),
            ("status"@, json::json_optional(item@.status)),
            ("title"@, json::json_quoted(item@.title)),
        ]);
    }
    json::json_object(fields)
}

fn work_page_value(page: &WorkPage) -> (r: serde_json::Value)
    ensures
        json::json_text(r) == page_response_json(page@),
{
    let mut items: Vec<serde_json::Value> = Vec::new();
    let mut i: usize = 0;
    while i < page.items.len()
        invariant
            i <= page.items@.len(),
            items@.len() == i,
            forall|j: int|
                0 <= j < i ==> json::json_text(#[trigger] items@[j]) == work_item_json(
                    page.items@[j]@,
                ),
        decreases page.items@.len() - i,
    {
        items.push(work_item_value(&page.items[i]));
        i = i + 1;
    }
    assert(json::value_texts(items@) =~= Seq::new(
        page@.items.len(),
        |i: int| work_item_json(page@.items[i]),
    ));
    let section = match page.section {
        WorkSection::Prompt => "prompt",
        WorkSection::Plan => "plan",
        WorkSection::Messages => "messages",
        WorkSection::ToolCalls => "toolCalls",
    };
    let mut fields: Vec<(String, serde_json::Value)> = Vec::new();
    fields.push(("items".to_owned(), json::json_array(items)));
    fields.push(("nextCursor".to_owned(), json::json_optional_string(&page.next_cursor)));
    fields.push(("planText".to_owned(), json::json_optional_string(&page.plan_text)));
    fields.push(
        ("processId".to_owned(), json::json_string(ids::id_to_text(page.process_id).as_str())),
    );
    fields.push(("section".to_owned(), json::json_string(section)));
    proof {
        lemma_work_page_keys_ascend();
        assert(json::field_keys(fields@) =~= seq![
            "items"@,
            "nextCursor"@,
            "planText"@,
            "processId"@,
            "section"@,
        ]);
        assert(json::field_texts(fields@) =~= seq![
            (
                "items"@,
                json::json_array_text(
                    Seq::new(page@.items.len(), |i: int| work_item_json(page@.items[i])),
                ),
            ),
            ("nextCursor"@, json::json_optional(page@.next_cursor)),
            ("planText"@, json::json_optional(page@.plan_text)),
            ("processId"@, json::json_quoted(ids::id_text(page@.process_id))),
            ("section"@, json::json_quoted(section_name(page@.section))),
        ]);
    }
    let body = json::json_object(fields);
    let mut response: Vec<(String, serde_json::Value)> = Vec::new();
    response.push(("WorkPage".to_owned(), body));
    assert(json::field_texts(response@) =~= seq![("WorkPage"@, work_page_json(page@))]);
    json::json_object(response)
}

/// The size of the response that carries a page, in bytes.
pub fn page_wire_size(page: &WorkPage) -> (r: usize)
    ensures
        r as nat == wire_size(page@),
{
    let value = work_page_value(page);
    json::json_print(&value).as_str().as_bytes().len()
}

/// Copies `count` items from `offset` on.
fn copy_items(items: &Vec<WorkItem>, offset: usize, count: usize) -> (r: Vec<WorkItem>)
    requires
        offset + count <= items@.len(),
    ensures
        item_views(r@) == item_views(items@).subrange(offset as int, offset + count),
{
    let mut out: Vec<WorkItem> = Vec::new();
    let mut i: usize = 0;
    while i < count
        invariant
            offset + count <= items.len(),
            i <= count,
            out@.len() == i,
            forall|j: int| 0 <= j < i ==> (#[trigger] out@[j])@ == items@[offset + j]@,
        decreases count - i,
    {
        out.push(items[offset + i].clone());
        i = i + 1;
    }
    assert(item_views(out@) =~= item_views(items@).subrange(offset as int, offset + count));
    out
}

impl WorkerDetails {
    /// All items of a section, in order.
    fn items(&self, section: WorkSection) -> (r: Vec<WorkItem>)
        ensures
            item_views(r@) == section_items(self@, section),
    {
        let mut out: Vec<WorkItem> = Vec::new();
        let mut i: usize = 0;
        match section {
            WorkSection::Prompt => {
                if let Some(prompt) = &self.prompt {
                    out.push(
                        WorkItem {
                            index: 0,
                            title: "prompt".to_owned(),
                            content: prompt.clone(),
                            id: None,
                            status: None,
                            input: None,
                            output: None,
                            created_at: None,
                        },
                    );
                }
            },
            WorkSection::Plan => {
                while i < self.plan.len()
                    invariant
                        i <= self.plan@.len(),
                        out@.len() == i,
                        forall|j: int|
                            0 <= j < i ==> (#[trigger] out@[j])@ == section_items(
                                self@,
                                WorkSection::Plan,
                            )[j],
                    decreases self.plan@.len() - i,
                {
                    let step = &self.plan[i];
                    out.push(
                        WorkItem {
                            index: i,
                            title: "plan step".to_owned(),
                            content: step.step.clone(),
                            id: None,
                            status: Some(step.status.clone()),
                            input: None,
                            output: None,
                            created_at: None,
                        },
                    );
                    i = i + 1;
                }
            },
            WorkSection::Messages => {
                while i < self.messages.len()
                    invariant
                        i <= self.messages@.len(),
                        out@.len() == i,
                        forall|j: int|
                            0 <= j < i ==> (#[trigger] out@[j])@ == section_items(
                                self@,
                                WorkSection::Messages,
                            )[j],
                    decreases self.messages@.len() - i,
                {
                    let message = &self.messages[i];
                    out.push(
                        WorkItem {
                            index: i,
                            title: message.role.clone(),
                            content: message.content.clone(),
                            id: None,
                            status: None,
                            input: None,
                            output: None,
                            created_at: message.created_at,
                        },
                    );
                    i = i + 1;
                }
            },
            WorkSection::ToolCalls => {
                while i < self.tool_calls.len()
                    invariant
                        i <= self.tool_calls@.len(),
                        out@.len() == i,
                        forall|j: int|
                            0 <= j < i ==> (#[trigger] out@[j])@ == section_items(
                                self@,
                                WorkSection::ToolCalls,
                            )[j],
                    decreases self.tool_calls@.len() - i,
                {
                    let call = &self.tool_calls[i];
                    out.push(
                        WorkItem {
                            index: i,
                            title: call.name.clone(),
                            content: String::new(),
                            id: text::clone_optional(&call.id),
                            status: Some(call.status.clone()),
                            input: Some(call.input.clone()),
                            output: text::clone_optional(&call.output),
                            created_at: call.created_at,
                        },
                    );
                    i = i + 1;
                }
            },
        }
        assert(item_views(out@) =~= section_items(self@, section));
        out
    }

    /// Reads one page of a section.
    ///
    /// The page starts at the cursor and takes as many items as the limit and the frame size allow.
    pub fn page(
        &self,
        process_id: ProcessId,
        section: WorkSection,
        cursor: Option<&str>,
        limit: u32,
    ) -> (r: Result<WorkPage, String>)
        ensures
            page_result_view(r) == page_result(
                self@,
                process_id,
                section,
                text::opt_str(cursor),
                limit,
            ),
    {
        let offset: usize = match cursor {
            None => 0,
            Some(cursor) => match text::parse_usize(cursor) {
                Some(offset) => offset,
                None => {
                    return Err(
                        "invalid work page cursor `".to_owned().concat(cursor).concat("`"),
                    );
                },
            },
        };
        let limit: usize = if limit < 1 {
            1
        } else if limit > MAX_PAGE_LIMIT {
            MAX_PAGE_LIMIT as usize
        } else {
            limit as usize
        };
        let items = self.items(section);
        if offset > items.len() {
            return Err(
                "work page cursor ".to_owned().concat(text::decimal_usize(offset).as_str()).concat(
                    " is past the end of ",
                ).concat(text::decimal_usize(items.len()).as_str()).concat(" items"),
            );
        }
        let plan_text = if section == WorkSection::Plan && offset == 0 {
            text::clone_optional(&self.plan_text)
        } else {
            None
        };
        let mut count: usize = 0;
        let mut full = false;
        let ghost all = section_items(self@, section);
        while !full && count < limit && count < items.len() - offset
            invariant
                all == section_items(self@, section),
                item_views(items@) == all,
                offset <= items@.len(),
                count <= limit,
                count <= items@.len() - offset,
                text::opt_text(plan_text) == page_plan_text(self@, section, offset as nat),
                page_count(self@, process_id, section, offset as nat, limit as nat, 0)
                    == page_count(
                    self@,
                    process_id,
                    section,
                    offset as nat,
                    limit as nat,
                    count as nat,
                ),
                full ==> page_count(
                    self@,
                    process_id,
                    section,
                    offset as nat,
                    limit as nat,
                    count as nat,
                ) == count,
            decreases limit - count, !full as int,
        {
            let end: usize = offset + count + 1;
            let candidate = WorkPage {
                process_id,
                section,
                items: copy_items(&items, offset, count + 1),
                next_cursor: if end < items.len() {
                    Some(text::decimal_usize(end))
                } else {
                    None
                },
                plan_text: text::clone_optional(&plan_text),
            };
            assert(candidate@.items =~= item_views(candidate.items@));
            assert(candidate@ =~= page_of(
                self@,
                process_id,
                section,
                offset as nat,
                (count + 1) as nat,
            ));
            if page_wire_size(&candidate) > MAX_FRAME_SIZE {
                full = true;
            } else {
                count = count + 1;
            }
        }
        if count == 0 && offset < items.len() {
            return Err(
                "work item at index ".to_owned().concat(
                    text::decimal_usize(offset).as_str(),
                ).concat(" exceeds supervisor frame limit"),
            );
        }
        let end: usize = offset + count;
        let page = WorkPage {
            process_id,
            section,
            items: copy_items(&items, offset, count),
            next_cursor: if end < items.len() {
                Some(text::decimal_usize(end))
            } else {
                None
            },
            plan_text,
        };
        assert(page@.items =~= item_views(page.items@));
        assert(page@ =~= page_of(self@, process_id, section, offset as nat, count as nat));
        Ok(page)
    }
}

/// The count of a page never exceeds the limit or the items that are left, and a page that took
/// more than was already taken fits into a frame.
proof fn lemma_page_count(
    details: WorkerDetailsView,
    process_id: ProcessId,
    section: WorkSection,
    offset: nat,
    limit: nat,
    taken: nat,
)
    requires
        taken <= limit,
        offset + taken <= section_items(details, section).len(),
    ensures
        ({
            let count = page_count(details, process_id, section, offset, limit, taken);
            &&& taken <= count <= limit
            &&& offset + count <= section_items(details, section).len()
            &&& count > taken ==> wire_size(page_of(details, process_id, section, offset, count))
                <= MAX_FRAME_SIZE
            &&& count == limit || offset + count == section_items(details, section).len()
                || wire_size(page_of(details, process_id, section, offset, count + 1))
                > MAX_FRAME_SIZE
        }),
    decreases limit - taken,
{
    if taken < limit && offset + taken < section_items(details, section).len() && wire_size(
        page_of(details, process_id, section, offset, taken + 1),
    ) <= MAX_FRAME_SIZE {
        lemma_page_count(details, process_id, section, offset, limit, taken + 1);
    }
}

/// A page without items is small next to its plan text.
proof fn lemma_empty_page_size(page: WorkPageView, plan_size: nat)
    requires
        page.items.len() == 0,
        page.next_cursor is None,
        page.plan_text matches Some(plan) ==> text::byte_len(plan) <= plan_size,
    ensures
        wire_size(page) <= 6 * plan_size + 4000,
{
    let items = json::json_array_text(
        Seq::new(page.items.len(), |i: int| work_item_json(page.items[i])),
    );
    let cursor = json::json_optional(page.next_cursor);
    let plan = json::json_optional(page.plan_text);
    let id = json::json_quoted(ids::id_text(page.process_id));
    let section = json::json_quoted(section_name(page.section));
    assert(text::byte_len(items) <= 8) by {
        assert(items =~= seq!['[', ']']);
        text::lemma_byte_len_le(items);
    }
    reveal_strlit("null");
    text::lemma_byte_len_le("null"@);
    assert(text::byte_len(plan) <= 6 * plan_size + 16) by {
        if let Some(t) = page.plan_text {
            json::lemma_quoted_size(t);
        }
    }
    assert(text::byte_len(id) <= 1000) by {
        ids::law_id_text_round_trip(page.process_id);
        text::lemma_byte_len_le(ids::id_text(page.process_id));
        json::lemma_quoted_size(ids::id_text(page.process_id));
    }
    assert(text::byte_len(section) <= 300) by {
        reveal_strlit("prompt");
        reveal_strlit("plan");
        reveal_strlit("messages");
        reveal_strlit("toolCalls");
        text::lemma_byte_len_le(section_name(page.section));
        json::lemma_quoted_size(section_name(page.section));
    }
    assert("items"@.len() <= 10 && "nextCursor"@.len() <= 10 && "planText"@.len() <= 10
        && "processId"@.len() <= 10 && "section"@.len() <= 10 && "WorkPage"@.len() <= 10) by {
        reveal_strlit("items");
        reveal_strlit("nextCursor");
        reveal_strlit("planText");
        reveal_strlit("processId");
        reveal_strlit("section");
        reveal_strlit("WorkPage");
    }
    let fields = seq![
        ("items"@, items),
        ("nextCursor"@, cursor),
        ("planText"@, plan),
        ("processId"@, id),
        ("section"@, section),
    ];
    json::lemma_object_size(fields);
    let one = fields.drop_last().drop_last().drop_last().drop_last();
    assert(one.drop_last() =~= Seq::empty());
    reveal_with_fuel(json::fields_size, 6);
    let wrapper = seq![("WorkPage"@, work_page_json(page))];
    json::lemma_object_size(wrapper);
    assert(wrapper.drop_last() =~= Seq::empty());
}

/// Every page fits into a frame and holds no more items than the largest limit, as long as the plan
/// text is no larger than a worker keeps it.
pub proof fn law_every_page_fits_a_frame(
    details: WorkerDetailsView,
    process_id: ProcessId,
    section: WorkSection,
    cursor: Option<Seq<char>>,
    limit: u32,
)
    requires
        details.plan_text matches Some(plan) ==> text::byte_len(plan) <= MAX_KEPT_BYTES,
    ensures
        page_result(details, process_id, section, cursor, limit) matches Ok(page) ==> wire_size(page)
            <= MAX_FRAME_SIZE && page.items.len() <= page_limit(limit) <= MAX_PAGE_LIMIT,
{
    if let Some(offset) = cursor_offset(cursor) {
        let total = section_items(details, section).len();
        if offset <= total {
            lemma_page_count(details, process_id, section, offset, page_limit(limit), 0);
            if offset == total {
                lemma_empty_page_size(page_of(details, process_id, section, offset, 0), MAX_KEPT_BYTES as nat);
            }
        }
    }
}

/// A page starts at its cursor, and its own cursor points right behind its last item. Without a
/// cursor nothing is left.
pub proof fn law_cursor_points_behind_the_page(
    details: WorkerDetailsView,
    process_id: ProcessId,
    section: WorkSection,
    cursor: Option<Seq<char>>,
    limit: u32,
)
    requires
        section_items(details, section).len() <= usize::MAX,
    ensures
        page_result(details, process_id, section, cursor, limit) matches Ok(page) ==> {
            let items = section_items(details, section);
            let offset = cursor_offset(cursor).unwrap();
            let end = offset + page.items.len();
            &&& offset <= end <= items.len()
            &&& page.items == items.subrange(offset as int, end as int)
            &&& page.next_cursor matches Some(next) ==> offset < end && cursor_offset(Some(next))
                == Some(end)
            &&& page.next_cursor is None ==> end == items.len()
        },
{
    if let Some(offset) = cursor_offset(cursor) {
        let total = section_items(details, section).len();
        if offset <= total {
            lemma_page_count(details, process_id, section, offset, page_limit(limit), 0);
            let count = page_count(details, process_id, section, offset, page_limit(limit), 0);
            if offset + count < total {
                text::lemma_decimal_round_trip(offset + count, usize::MAX as nat);
            }
        }
    }
}

/// What a reader collects that follows the cursors for at most `rounds` pages.
pub open spec fn read_all(
    details: WorkerDetailsView,
    process_id: ProcessId,
    section: WorkSection,
    limit: u32,
    cursor: Option<Seq<char>>,
    rounds: nat,
) -> Option<Seq<WorkItemView>>
    decreases rounds,
{
    if rounds == 0 {
        None
    } else {
        match page_result(details, process_id, section, cursor, limit) {
            Err(_) => None,
            Ok(page) => match page.next_cursor {
                None => Some(page.items),
                Some(next) => match read_all(
                    details,
                    process_id,
                    section,
                    limit,
                    Some(next),
                    (rounds - 1) as nat,
                ) {
                    Some(rest) => Some(page.items + rest),
                    None => None,
                },
            },
        }
    }
}

/// Whether each item of a section fits into a frame by itself.
pub open spec fn items_fit(
    details: WorkerDetailsView,
    process_id: ProcessId,
    section: WorkSection,
) -> bool {
    forall|i: nat|
        i < section_items(details, section).len() ==> #[trigger] wire_size(
            page_of(details, process_id, section, i, 1),
        ) <= MAX_FRAME_SIZE
}

/// A page that starts inside a section exists, if its first item fits into a frame.
proof fn lemma_page_exists(
    details: WorkerDetailsView,
    process_id: ProcessId,
    section: WorkSection,
    limit: u32,
    cursor: Option<Seq<char>>,
)
    requires
        items_fit(details, process_id, section),
        cursor_offset(cursor) matches Some(offset) && offset <= section_items(details, section).len(),
    ensures
        page_result(details, process_id, section, cursor, limit) is Ok,
{
    let offset = cursor_offset(cursor).unwrap();
    if offset < section_items(details, section).len() {
        assert(wire_size(page_of(details, process_id, section, offset, 1)) <= MAX_FRAME_SIZE);
        lemma_page_count(details, process_id, section, offset, page_limit(limit), 1);
    }
}

/// Following the cursors from a position collects everything from there on.
proof fn lemma_read_from(
    details: WorkerDetailsView,
    process_id: ProcessId,
    section: WorkSection,
    limit: u32,
    cursor: Option<Seq<char>>,
    rounds: nat,
)
    requires
        section_items(details, section).len() <= usize::MAX,
        items_fit(details, process_id, section),
        cursor_offset(cursor) matches Some(offset) && offset <= section_items(details, section).len()
            && rounds > section_items(details, section).len() - offset,
    ensures
        read_all(details, process_id, section, limit, cursor, rounds) == Some(
            section_items(details, section).skip(cursor_offset(cursor).unwrap() as int),
        ),
    decreases rounds,
{
    let items = section_items(details, section);
    let offset = cursor_offset(cursor).unwrap();
    law_cursor_points_behind_the_page(details, process_id, section, cursor, limit);
    lemma_page_exists(details, process_id, section, limit, cursor);
    let page = page_result(details, process_id, section, cursor, limit)->Ok_0;
    let end = offset + page.items.len();
    match page.next_cursor {
        None => {
            assert(page.items =~= items.skip(offset as int));
        },
        Some(next) => {
            lemma_read_from(details, process_id, section, limit, Some(next), (rounds - 1) as nat);
            assert(page.items + items.skip(end as int) =~= items.skip(offset as int));
        },
    }
}

/// Following the cursors from the first page collects every item of a section exactly once and in
/// order, as long as each item fits into a frame by itself.
pub proof fn law_cursors_reach_every_item(
    details: WorkerDetailsView,
    process_id: ProcessId,
    section: WorkSection,
    limit: u32,
    rounds: nat,
)
    requires
        section_items(details, section).len() <= usize::MAX,
        items_fit(details, process_id, section),
        rounds > section_items(details, section).len(),
    ensures
        read_all(details, process_id, section, limit, None, rounds) == Some(
            section_items(details, section),
        ),
{
    lemma_read_from(details, process_id, section, limit, None, rounds);
    assert(section_items(details, section).skip(0) =~= section_items(details, section));
}

/// A page is about the process and the section that were asked for. Its items are numbered one after
/// the other, from the start where no cursor was given. It holds an item at least, as long as one is
/// left, and never more than were asked for, nor more than fifty.
pub proof fn law_page_is_what_was_asked_for(
    details: WorkerDetailsView,
    process_id: ProcessId,
    section: WorkSection,
    cursor: Option<Seq<char>>,
    limit: u32,
)
    requires
        section_items(details, section).len() <= usize::MAX,
    ensures
        page_result(details, process_id, section, cursor, limit) matches Ok(page) ==> {
            &&& page.process_id == process_id
            &&& page.section == section
            &&& page.items.len() <= 50
            &&& limit >= 1 ==> page.items.len() <= limit
            &&& limit == 0 ==> page.items.len() <= 1
            &&& page.next_cursor is Some ==> page.items.len() > 0
            &&& cursor is None && page.items.len() > 0 ==> page.items[0].index == 0
            &&& forall|k: int|
                0 <= k < page.items.len() ==> (#[trigger] page.items[k]).index
                    == page.items[0].index + k
        },
{
    law_cursor_points_behind_the_page(details, process_id, section, cursor, limit);
    if let Some(offset) = cursor_offset(cursor) {
        let total = section_items(details, section).len();
        if offset <= total {
            lemma_page_count(details, process_id, section, offset, page_limit(limit), 0);
        }
    }
    if let Ok(page) = page_result(details, process_id, section, cursor, limit) {
        lemma_items_are_numbered(details, section);
        let offset = cursor_offset(cursor).unwrap();
        assert forall|k: int| 0 <= k < page.items.len() implies (#[trigger] page.items[k]).index
            == offset + k by {
            assert(page.items[k] == section_items(details, section)[offset + k]);
        }
    }
}

/// Each item of a section has its position as its number.
proof fn lemma_items_are_numbered(details: WorkerDetailsView, section: WorkSection)
    requires
        section_items(details, section).len() <= usize::MAX,
    ensures
        forall|i: int|
            0 <= i < section_items(details, section).len() ==> (#[trigger] section_items(
                details,
                section,
            )[i]).index == i,
{
}

/// Each item of a page of tool calls shows the call of its number: what it is called, its identifier,
/// its status, what it was called with, what came out and when. A page without a cursor ends with the
/// last call.
pub proof fn law_tool_call_page_shows_the_calls(
    details: WorkerDetailsView,
    process_id: ProcessId,
    cursor: Option<Seq<char>>,
    limit: u32,
)
    requires
        details.tool_calls.len() <= usize::MAX,
    ensures
        page_result(details, process_id, WorkSection::ToolCalls, cursor, limit) matches Ok(page)
            ==> {
            &&& forall|k: int|
                0 <= k < page.items.len() ==> {
                    let item = #[trigger] page.items[k];
                    let call = details.tool_calls[item.index as int];
                    &&& item.index < details.tool_calls.len()
                    &&& item.title == call.name
                    &&& item.id == call.id
                    &&& item.status == Some(call.status)
                    &&& item.input == Some(call.input)
                    &&& item.output == call.output
                    &&& item.created_at == call.created_at
                    &&& item.content.len() == 0
                }
            &&& page.next_cursor is None && page.items.len() > 0 ==> page.items.last().index + 1
                == details.tool_calls.len()
            &&& page.plan_text is None
        },
{
    lemma_page_items(details, process_id, WorkSection::ToolCalls, cursor, limit);
}

/// Each item of a page of messages shows the message of its number: who said it, what was said and
/// when. A page without a cursor ends with the last message.
pub proof fn law_message_page_shows_the_messages(
    details: WorkerDetailsView,
    process_id: ProcessId,
    cursor: Option<Seq<char>>,
    limit: u32,
)
    requires
        details.messages.len() <= usize::MAX,
    ensures
        page_result(details, process_id, WorkSection::Messages, cursor, limit) matches Ok(page)
            ==> {
            &&& forall|k: int|
                0 <= k < page.items.len() ==> {
                    let item = #[trigger] page.items[k];
                    let message = details.messages[item.index as int];
                    &&& item.index < details.messages.len()
                    &&& item.title == message.role
                    &&& item.content == message.content
                    &&& item.created_at == message.created_at
                    &&& item.id is None && item.status is None
                    &&& item.input is None && item.output is None
                }
            &&& page.next_cursor is None && page.items.len() > 0 ==> page.items.last().index + 1
                == details.messages.len()
            &&& page.plan_text is None
        },
{
    lemma_page_items(details, process_id, WorkSection::Messages, cursor, limit);
}

/// Each item of a page of the plan shows the step of its number with its status. The whole text of the
/// plan comes with the first page and with no other one. A page without a cursor ends with the last
/// step.
pub proof fn law_plan_page_shows_the_plan(
    details: WorkerDetailsView,
    process_id: ProcessId,
    cursor: Option<Seq<char>>,
    limit: u32,
)
    requires
        details.plan.len() <= usize::MAX,
    ensures
        page_result(details, process_id, WorkSection::Plan, cursor, limit) matches Ok(page) ==> {
            &&& forall|k: int|
                0 <= k < page.items.len() ==> {
                    let item = #[trigger] page.items[k];
                    let step = details.plan[item.index as int];
                    &&& item.index < details.plan.len()
                    &&& item.title == "plan step"@
                    &&& item.content == step.step
                    &&& item.status == Some(step.status)
                    &&& item.id is None && item.created_at is None
                    &&& item.input is None && item.output is None
                }
            &&& page.next_cursor is None && page.items.len() > 0 ==> page.items.last().index + 1
                == details.plan.len()
            &&& cursor is None ==> page.plan_text == details.plan_text
            &&& page.items.len() > 0 && page.items[0].index > 0 ==> page.plan_text is None
            &&& page.items.len() > 0 && page.items[0].index == 0 ==> page.plan_text
                == details.plan_text
        },
{
    lemma_page_items(details, process_id, WorkSection::Plan, cursor, limit);
}

/// The page of the prompt shows the prompt as it is, and is empty where there is none.
pub proof fn law_prompt_page_shows_the_prompt(
    details: WorkerDetailsView,
    process_id: ProcessId,
    limit: u32,
)
    ensures
        page_result(details, process_id, WorkSection::Prompt, None, limit) matches Ok(page) ==> {
            &&& page.next_cursor is None
            &&& page.plan_text is None
            &&& details.prompt is None ==> page.items.len() == 0
            &&& details.prompt matches Some(prompt) ==> {
                &&& page.items.len() == 1
                &&& page.items[0].title == "prompt"@
                &&& page.items[0].content == prompt
                &&& page.items[0].id is None && page.items[0].status is None
                &&& page.items[0].input is None && page.items[0].output is None
                &&& page.items[0].created_at is None
            }
        },
{
    lemma_page_items(details, process_id, WorkSection::Prompt, None, limit);
}

/// The items of a page are those of the section from its cursor on.
proof fn lemma_page_items(
    details: WorkerDetailsView,
    process_id: ProcessId,
    section: WorkSection,
    cursor: Option<Seq<char>>,
    limit: u32,
)
    requires
        section_items(details, section).len() <= usize::MAX,
    ensures
        page_result(details, process_id, section, cursor, limit) matches Ok(page) ==> {
            let offset = cursor_offset(cursor).unwrap();
            let items = section_items(details, section);
            &&& offset + page.items.len() <= items.len()
            &&& page.next_cursor is None ==> offset + page.items.len() == items.len()
            &&& page.next_cursor is Some ==> page.items.len() > 0
            &&& page.plan_text == page_plan_text(details, section, offset)
            &&& forall|k: int|
                0 <= k < page.items.len() ==> (#[trigger] page.items[k]) == items[offset + k]
                    && page.items[k].index == offset + k
        },
{
    law_cursor_points_behind_the_page(details, process_id, section, cursor, limit);
    lemma_items_are_numbered(details, section);
    if let Some(offset) = cursor_offset(cursor) {
        let total = section_items(details, section).len();
        if offset <= total {
            lemma_page_count(details, process_id, section, offset, page_limit(limit), 0);
        }
    }
    if let Ok(page) = page_result(details, process_id, section, cursor, limit) {
        let offset = cursor_offset(cursor).unwrap();
        let items = section_items(details, section);
        assert forall|k: int| 0 <= k < page.items.len() implies (#[trigger] page.items[k])
            == items[offset + k] && page.items[k].index == offset + k by {
            assert(page.items[k] == items.subrange(
                offset as int,
                (offset + page.items.len()) as int,
            )[k]);
        }
    }
}

/// Two workers whose tool calls, messages, steps or prompts differ give different pages: what the
/// pages from the start show alike is alike.
pub proof fn law_pages_tell_workers_apart(
    a: WorkerDetailsView,
    b: WorkerDetailsView,
    process_id: ProcessId,
    section: WorkSection,
    limit: u32,
    k: int,
)
    requires
        a.tool_calls.len() <= usize::MAX && b.tool_calls.len() <= usize::MAX,
        a.messages.len() <= usize::MAX && b.messages.len() <= usize::MAX,
        a.plan.len() <= usize::MAX && b.plan.len() <= usize::MAX,
        page_result(a, process_id, section, None, limit) is Ok,
        page_result(a, process_id, section, None, limit) == page_result(
            b,
            process_id,
            section,
            None,
            limit,
        ),
        0 <= k < page_result(a, process_id, section, None, limit)->Ok_0.items.len(),
    ensures
        section == WorkSection::ToolCalls ==> a.tool_calls[k] == b.tool_calls[k],
        section == WorkSection::Messages ==> a.messages[k] == b.messages[k],
        section == WorkSection::Plan ==> a.plan[k] == b.plan[k] && a.plan_text == b.plan_text,
        section == WorkSection::Prompt ==> a.prompt == b.prompt,
{
    let page = page_result(a, process_id, section, None, limit)->Ok_0;
    lemma_page_items(a, process_id, section, None, limit);
    lemma_page_items(b, process_id, section, None, limit);
    assert(page.items[k] == section_items(a, section)[k]);
    assert(page.items[k] == section_items(b, section)[k]);
}

/// A page stops only for a reason: as many items as were asked for are on it, no item is left, or with
/// one more it would not fit into a frame.
pub proof fn law_page_is_as_long_as_it_can_be(
    details: WorkerDetailsView,
    process_id: ProcessId,
    section: WorkSection,
    cursor: Option<Seq<char>>,
    limit: u32,
)
    requires
        section_items(details, section).len() <= usize::MAX,
        1 <= limit <= 50,
    ensures
        page_result(details, process_id, section, cursor, limit) matches Ok(page) ==> {
            ||| page.items.len() == limit
            ||| page.next_cursor is None
            ||| wire_size(
                page_of(
                    details,
                    process_id,
                    section,
                    page.items[0].index as nat,
                    page.items.len() + 1,
                ),
            ) > MAX_FRAME_SIZE
        },
{
    lemma_page_items(details, process_id, section, cursor, limit);
    if let Some(offset) = cursor_offset(cursor) {
        let total = section_items(details, section).len();
        if offset <= total {
            lemma_page_count(details, process_id, section, offset, limit as nat, 0);
        }
    }
}

/// A cursor that is no number, or a number behind the end of the section, is refused and named. The
/// first page is refused only where its first item does not fit into a frame.
pub proof fn law_bad_cursor_is_refused(
    details: WorkerDetailsView,
    process_id: ProcessId,
    section: WorkSection,
    cursor: Seq<char>,
    limit: u32,
)
    ensures
        text::parsed_unsigned(cursor, usize::MAX as nat) is None ==> page_result(
            details,
            process_id,
            section,
            Some(cursor),
            limit,
        ) == Err::<WorkPageView, Seq<char>>("invalid work page cursor `"@ + cursor + "`"@),
        text::parsed_unsigned(cursor, usize::MAX as nat) matches Some(offset) && offset
            > section_items(details, section).len() ==> page_result(
            details,
            process_id,
            section,
            Some(cursor),
            limit,
        ) == Err::<WorkPageView, Seq<char>>(
            "work page cursor "@ + text::decimal(
                text::parsed_unsigned(cursor, usize::MAX as nat).unwrap(),
            ) + " is past the end of "@ + text::decimal(section_items(details, section).len())
                + " items"@,
        ),
        section_items(details, section).len() == 0 ==> page_result(
            details,
            process_id,
            section,
            None,
            limit,
        ) is Ok,
        page_result(details, process_id, section, None, limit) is Err ==> wire_size(
            page_of(details, process_id, section, 0, 1),
        ) > MAX_FRAME_SIZE,
{
    lemma_page_count(details, process_id, section, 0, page_limit(limit), 0);
}

} // verus!
