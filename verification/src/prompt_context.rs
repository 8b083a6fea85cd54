//! What a prompt thread is told about the main thread.
//!
//! A prompt thread starts empty. It gets the most recent user request and the assistant's result as
//! reference, and neither rules nor reasoning nor tool activity.
use crate::text;
use crate::thread_events::{
    ContentItem, ContentItemView, ResponseItem, ResponseItemView, ServerNotification,
    ThreadBufferedEvent, ThreadEventStore, ThreadItem, Turn, UserInput,
};
use crate::thread_events;
use vstd::prelude::*;

verus! {

/// The first line of the reference.
pub const REFERENCE_CONTEXT_HEADER: &'static str = "Reference context from the main thread. Use this only to resolve the current prompt; it is not an active task.";

/// The number of characters after which a reference is cut.
pub const MAX_REFERENCE_MESSAGE_CHARS: usize = 8000;

/// The request and the result of one turn.
#[derive(Debug, PartialEq, Eq)]
pub struct RecentPromptTurn {
    pub id: String,
    pub user_text: Option<String>,
    pub assistant_text: Option<String>,
}

/// The view of [`RecentPromptTurn`].
#[verifier::ext_equal]
pub struct RecentPromptTurnView {
    pub id: Seq<char>,
    pub user_text: Option<Seq<char>>,
    pub assistant_text: Option<Seq<char>>,
}

impl View for RecentPromptTurn {
    type V = RecentPromptTurnView;

    open spec fn view(&self) -> RecentPromptTurnView {
        RecentPromptTurnView {
            id: self.id@,
            user_text: text::opt_text(self.user_text),
            assistant_text: text::opt_text(self.assistant_text),
        }
    }
}

/// A turn of which nothing is known but its identifier.
pub open spec fn empty_turn(id: Seq<char>) -> RecentPromptTurnView {
    RecentPromptTurnView { id, user_text: None, assistant_text: None }
}

/// The texts of some input, one after the other.
pub open spec fn input_text(content: Seq<UserInput>) -> Seq<char>
    decreases content.len(),
{
    if content.len() == 0 {
        Seq::empty()
    } else {
        let before = input_text(content.drop_last());
        match content.last() {
            UserInput::Text { text } => before + text@,
            UserInput::Other => before,
        }
    }
}

/// Whether a text says anything.
pub open spec fn says_something(s: Seq<char>) -> bool {
    text::trimmed(s).len() > 0
}

/// A turn with one more item. A new request makes an earlier result obsolete.
pub open spec fn absorbed(turn: RecentPromptTurnView, item: ThreadItem) -> RecentPromptTurnView {
    match item {
        ThreadItem::UserMessage { content } => if says_something(input_text(content@)) {
            RecentPromptTurnView {
                user_text: Some(input_text(content@)),
                assistant_text: None,
                ..turn
            }
        } else {
            turn
        },
        ThreadItem::AgentMessage { text } => if says_something(text@) {
            RecentPromptTurnView { assistant_text: Some(text@), ..turn }
        } else {
            turn
        },
        ThreadItem::Other => turn,
    }
}

/// A turn with some more items.
pub open spec fn absorbed_all(turn: RecentPromptTurnView, items: Seq<ThreadItem>) ->
    RecentPromptTurnView
    decreases items.len(),
{
    if items.len() == 0 {
        turn
    } else {
        absorbed(absorbed_all(turn, items.drop_last()), items.last())
    }
}

/// The request and the result of a turn.
pub open spec fn recent_turn(turn: Turn) -> RecentPromptTurnView {
    absorbed_all(empty_turn(turn.id@), turn.items@)
}

/// The last stored turn with a request.
pub open spec fn stored_turn(turns: Seq<Turn>) -> Option<RecentPromptTurnView>
    decreases turns.len(),
{
    if turns.len() == 0 {
        None
    } else if recent_turn(turns.last()).user_text is Some {
        Some(recent_turn(turns.last()))
    } else {
        stored_turn(turns.drop_last())
    }
}

/// The turn that the buffered events are about, if any. An item of another turn starts that turn
/// anew.
pub open spec fn buffered_turn(events: Seq<ThreadBufferedEvent>) -> Option<RecentPromptTurnView>
    decreases events.len(),
{
    if events.len() == 0 {
        None
    } else {
        let before = buffered_turn(events.drop_last());
        match events.last() {
            ThreadBufferedEvent::Notification(ServerNotification::TurnStarted { turn }) => Some(
                recent_turn(turn),
            ),
            ThreadBufferedEvent::Notification(
                ServerNotification::ItemCompleted { turn_id, item },
            ) => if item is Other {
                before
            } else {
                match before {
                    Some(turn) if turn.id == turn_id@ => Some(absorbed(turn, item)),
                    _ => Some(absorbed(empty_turn(turn_id@), item)),
                }
            },
            _ => before,
        }
    }
}

/// The turn that a prompt thread is told about: the buffered one if it has a request, and else the
/// last stored one that has.
pub open spec fn reference_turn(store: ThreadEventStore) -> Option<RecentPromptTurnView> {
    match buffered_turn(store.buffer@) {
        Some(turn) if turn.user_text is Some => Some(turn),
        _ => stored_turn(store.turns@),
    }
}

/// A reference of bounded length.
pub open spec fn cut_reference(s: Seq<char>) -> Seq<char> {
    if s.len() > MAX_REFERENCE_MESSAGE_CHARS {
        s.take(MAX_REFERENCE_MESSAGE_CHARS as int) + "...[truncated]"@
    } else {
        s
    }
}

/// The reference to a request.
pub open spec fn user_reference(user_text: Seq<char>) -> ResponseItemView {
    ResponseItemView {
        role: "user"@,
        content: ContentItemView::InputText {
            text: REFERENCE_CONTEXT_HEADER@ + "\n\nMost recent user request:\n"@ + cut_reference(
                user_text,
            ),
        },
    }
}

/// The reference to a result.
pub open spec fn assistant_reference(assistant_text: Seq<char>) -> ResponseItemView {
    ResponseItemView {
        role: "assistant"@,
        content: ContentItemView::OutputText {
            text: "Most recent assistant result (reference only):\n"@ + cut_reference(
                assistant_text,
            ),
        },
    }
}

/// The references that a prompt thread gets.
pub open spec fn references(turn: Option<RecentPromptTurnView>) -> Seq<ResponseItemView> {
    match turn {
        Some(turn) => match turn.user_text {
            Some(user_text) => match turn.assistant_text {
                Some(assistant_text) => seq![
                    user_reference(user_text),
                    assistant_reference(assistant_text),
                ],
                None => seq![user_reference(user_text)],
            },
            None => Seq::empty(),
        },
        None => Seq::empty(),
    }
}

/// The text of a user message, if it says anything.
pub fn user_message_text(content: &Vec<UserInput>) -> (r: Option<String>)
    ensures
        text::opt_text(r) == (if says_something(input_text(content@)) {
            Some(input_text(content@))
        } else {
            None
        }),
{
    let mut out = String::new();
    let mut i: usize = 0;
    assert(content@.take(0) =~= Seq::empty());
    while i < content.len()
        invariant
            i <= content@.len(),
            out@ == input_text(content@.take(i as int)),
        decreases content@.len() - i,
    {
        assert(content@.take(i + 1).drop_last() =~= content@.take(i as int));
        match &content[i] {
            UserInput::Text { text } => {
                out.append(text.as_str());
            },
            UserInput::Other => {},
        }
        i = i + 1;
    }
    assert(content@.take(content@.len() as int) =~= content@);
    if text::is_empty(text::trim(out.as_str())) {
        None
    } else {
        Some(out)
    }
}

impl RecentPromptTurn {
    /// A turn of which nothing is known but its identifier.
    fn empty(id: &String) -> (r: Self)
        ensures
            r@ == empty_turn(id@),
    {
        RecentPromptTurn { id: id.clone(), user_text: None, assistant_text: None }
    }

    /// The request and the result of a turn.
    pub fn from_turn(turn: &Turn) -> (r: Self)
        ensures
            r@ == recent_turn(*turn),
    {
        let mut snapshot = RecentPromptTurn::empty(&turn.id);
        let mut i: usize = 0;
        assert(turn.items@.take(0) =~= Seq::empty());
        while i < turn.items.len()
            invariant
                i <= turn.items@.len(),
                snapshot@ == absorbed_all(empty_turn(turn.id@), turn.items@.take(i as int)),
            decreases turn.items@.len() - i,
        {
            assert(turn.items@.take(i + 1).drop_last() =~= turn.items@.take(i as int));
            snapshot.absorb_item(&turn.items[i]);
            i = i + 1;
        }
        assert(turn.items@.take(turn.items@.len() as int) =~= turn.items@);
        snapshot
    }

    /// Adds an item.
    pub fn absorb_item(&mut self, item: &ThreadItem)
        ensures
            final(self)@ == absorbed(old(self)@, *item),
    {
        match item {
            ThreadItem::UserMessage { content } => {
                if let Some(text) = user_message_text(content) {
                    self.assistant_text = None;
                    self.user_text = Some(text);
                }
            },
            ThreadItem::AgentMessage { text } => {
                if !text::is_empty(text::trim(text.as_str())) {
                    self.assistant_text = Some(text.clone());
                }
            },
            ThreadItem::Other => {},
        }
    }

    /// Whether the turn has a request.
    pub fn has_user_message(&self) -> (r: bool)
        ensures
            r == (self@.user_text is Some),
    {
        self.user_text.is_some()
    }
}

/// Cuts a reference.
pub fn truncate_text(value: &str) -> (r: String)
    ensures
        r@ == cut_reference(value@),
{
    if value.unicode_len() > MAX_REFERENCE_MESSAGE_CHARS {
        let kept = value.substring_char(0, MAX_REFERENCE_MESSAGE_CHARS);
        assert(kept@ =~= value@.take(MAX_REFERENCE_MESSAGE_CHARS as int));
        kept.to_owned().concat("...[truncated]")
    } else {
        value.to_owned()
    }
}

/// The last stored turn with a request.
fn latest_stored(turns: &Vec<Turn>) -> (r: Option<RecentPromptTurn>)
    ensures
        match r {
            Some(turn) => stored_turn(turns@) == Some(turn@),
            None => stored_turn(turns@) is None,
        },
{
    let mut i: usize = turns.len();
    assert(turns@.take(turns@.len() as int) =~= turns@);
    while i > 0
        invariant
            i <= turns@.len(),
            stored_turn(turns@) == stored_turn(turns@.take(i as int)),
        decreases i,
    {
        assert(turns@.take(i as int).drop_last() =~= turns@.take(i - 1));
        let candidate = RecentPromptTurn::from_turn(&turns[i - 1]);
        if candidate.has_user_message() {
            return Some(candidate);
        }
        i = i - 1;
    }
    None
}

/// The view of an optional turn.
pub open spec fn opt_turn(turn: Option<RecentPromptTurn>) -> Option<RecentPromptTurnView> {
    match turn {
        Some(turn) => Some(turn@),
        None => None,
    }
}

/// The turn that the buffered events are about.
fn latest_buffered(events: &Vec<ThreadBufferedEvent>) -> (r: Option<RecentPromptTurn>)
    ensures
        opt_turn(r) == buffered_turn(events@),
{
    let mut latest: Option<RecentPromptTurn> = None;
    let mut i: usize = 0;
    assert(events@.take(0) =~= Seq::empty());
    while i < events.len()
        invariant
            i <= events@.len(),
            opt_turn(latest) == buffered_turn(events@.take(i as int)),
        decreases events@.len() - i,
    {
        assert(events@.take(i + 1).drop_last() =~= events@.take(i as int));
        match &events[i] {
            ThreadBufferedEvent::Notification(ServerNotification::TurnStarted { turn }) => {
                latest = Some(RecentPromptTurn::from_turn(turn));
            },
            ThreadBufferedEvent::Notification(
                ServerNotification::ItemCompleted { turn_id, item },
            ) => {
                if is_prompt_reference_item(item) {
                    let mut turn = match latest {
                        Some(turn) => if turn.id == *turn_id {
                            turn
                        } else {
                            RecentPromptTurn::empty(turn_id)
                        },
                        None => RecentPromptTurn::empty(turn_id),
                    };
                    turn.absorb_item(item);
                    latest = Some(turn);
                }
            },
            _ => {},
        }
        i = i + 1;
    }
    assert(events@.take(events@.len() as int) =~= events@);
    latest
}

/// Whether an item can be part of a reference.
pub fn is_prompt_reference_item(item: &ThreadItem) -> (r: bool)
    ensures
        r == !(item is Other),
{
    match item {
        ThreadItem::Other => false,
        _ => true,
    }
}

/// The references that a prompt thread gets about a thread.
pub fn reference_items(store: &ThreadEventStore) -> (r: Vec<ResponseItem>)
    ensures
        thread_events::message_views(r@) == references(reference_turn(*store)),
{
    let buffered = latest_buffered(&store.buffer);
    let candidate = match buffered {
        Some(turn) => if turn.has_user_message() {
            Some(turn)
        } else {
            latest_stored(&store.turns)
        },
        None => latest_stored(&store.turns),
    };
    let mut items: Vec<ResponseItem> = Vec::new();
    if let Some(candidate) = candidate {
        if let Some(user_text) = &candidate.user_text {
            items.push(
                ResponseItem {
                    role: "user".to_owned(),
                    content: ContentItem::InputText {
                        text: REFERENCE_CONTEXT_HEADER.to_owned().concat(
                            "\n\nMost recent user request:\n",
                        ).concat(truncate_text(user_text.as_str()).as_str()),
                    },
                },
            );
            if let Some(assistant_text) = &candidate.assistant_text {
                items.push(
                    ResponseItem {
                        role: "assistant".to_owned(),
                        content: ContentItem::OutputText {
                            text: "Most recent assistant result (reference only):\n".to_owned().concat(
                                truncate_text(assistant_text.as_str()).as_str(),
                            ),
                        },
                    },
                );
            }
        }
    }
    assert(thread_events::message_views(items@) =~= references(reference_turn(*store)));
    items
}

/// A prompt thread gets at most two references: a request as input, and then a result as output.
pub proof fn law_references_are_a_request_and_its_result(turn: Option<RecentPromptTurnView>)
    ensures
        references(turn).len() <= 2,
        references(turn).len() > 0 ==> references(turn)[0].role == "user"@
            && references(turn)[0].content is InputText,
        references(turn).len() > 1 ==> references(turn)[1].role == "assistant"@
            && references(turn)[1].content is OutputText,
{
}

/// A new request is never paired with an earlier result.
pub proof fn law_new_request_drops_the_old_result(
    turn: RecentPromptTurnView,
    content: Vec<UserInput>,
)
    requires
        says_something(input_text(content@)),
    ensures
        absorbed(turn, ThreadItem::UserMessage { content }) == (RecentPromptTurnView {
            id: turn.id,
            user_text: Some(input_text(content@)),
            assistant_text: None,
        }),
{
}

/// Items that are neither requests nor results leave no trace, wherever they stand.
pub proof fn law_internal_items_leave_no_trace(
    turn: RecentPromptTurnView,
    before: Seq<ThreadItem>,
    after: Seq<ThreadItem>,
)
    ensures
        absorbed_all(turn, before + seq![ThreadItem::Other] + after) == absorbed_all(
            turn,
            before + after,
        ),
    decreases after.len(),
{
    let with = before + seq![ThreadItem::Other] + after;
    if after.len() == 0 {
        assert(with.drop_last() =~= before);
        assert(before + after =~= before);
    } else {
        law_internal_items_leave_no_trace(turn, before, after.drop_last());
        assert(with.drop_last() =~= before + seq![ThreadItem::Other] + after.drop_last());
        assert((before + after).drop_last() =~= before + after.drop_last());
    }
}

/// A reference is never longer than the bound and its marker.
pub proof fn law_reference_is_bounded(s: Seq<char>)
    ensures
        cut_reference(s).len() <= MAX_REFERENCE_MESSAGE_CHARS + "...[truncated]"@.len(),
        s.len() <= MAX_REFERENCE_MESSAGE_CHARS ==> cut_reference(s) == s,
{
}

/// What some input says is the texts of it in order. What is no text says nothing.
pub proof fn law_input_is_its_texts_in_order(content: Seq<UserInput>, text: String)
    ensures
        input_text(Seq::empty()).len() == 0,
        input_text(content.push(UserInput::Text { text })) == input_text(content) + text@,
        input_text(content.push(UserInput::Other)) == input_text(content),
{
    assert(content.push(UserInput::Text { text }).drop_last() =~= content);
    assert(content.push(UserInput::Other).drop_last() =~= content);
}

/// A text says something exactly if it is not made of white space alone.
pub proof fn law_blank_text_says_nothing(s: Seq<char>)
    ensures
        says_something(s) <==> exists|i: int| 0 <= i < s.len() && !text::white_space(#[trigger] s[i]),
{
    text::law_trimming_takes_white_space_alone(s);
}

/// A result takes the place of an earlier one and keeps the request. What says nothing changes nothing.
pub proof fn law_result_belongs_to_the_request(
    turn: RecentPromptTurnView,
    text: String,
    content: Vec<UserInput>,
)
    ensures
        says_something(text@) ==> absorbed(turn, ThreadItem::AgentMessage { text }) == (
        RecentPromptTurnView {
            id: turn.id,
            user_text: turn.user_text,
            assistant_text: Some(text@),
        }),
        !says_something(text@) ==> absorbed(turn, ThreadItem::AgentMessage { text }) == turn,
        !says_something(input_text(content@)) ==> absorbed(
            turn,
            ThreadItem::UserMessage { content },
        ) == turn,
{
}

/// Whether an item is a request that says something.
pub open spec fn is_request(item: ThreadItem) -> bool {
    item matches ThreadItem::UserMessage { content } && says_something(input_text(content@))
}

/// Whether an item is a result that says something.
pub open spec fn is_result(item: ThreadItem) -> bool {
    item matches ThreadItem::AgentMessage { text } && says_something(text@)
}

proof fn lemma_absorbed_without_requests(
    turn: RecentPromptTurnView,
    items: Seq<ThreadItem>,
    last: Option<int>,
)
    requires
        forall|i: int| 0 <= i < items.len() ==> !is_request(#[trigger] items[i]),
        match last {
            Some(last) => 0 <= last < items.len() && is_result(items[last]) && forall|i: int|
                last < i < items.len() ==> !is_result(#[trigger] items[i]),
            None => forall|i: int| 0 <= i < items.len() ==> !is_result(#[trigger] items[i]),
        },
    ensures
        absorbed_all(turn, items).id == turn.id,
        absorbed_all(turn, items).user_text == turn.user_text,
        absorbed_all(turn, items).assistant_text == (match last {
            Some(last) => Some(items[last]->AgentMessage_text@),
            None => turn.assistant_text,
        }),
    decreases items.len(),
{
    if items.len() > 0 {
        let front = items.drop_last();
        assert(items[items.len() - 1] == items.last());
        assert(!is_request(items.last()));
        assert forall|i: int| 0 <= i < front.len() implies !is_request(#[trigger] front[i]) by {
            assert(front[i] == items[i]);
        }
        if last == Some(items.len() - 1) {
            lemma_request_stays(turn, front);
        } else {
            assert(!is_result(items.last()));
            match last {
                Some(at) => {
                    assert(front[at] == items[at]);
                    assert forall|i: int| at < i < front.len() implies !is_result(
                        #[trigger] front[i],
                    ) by {
                        assert(front[i] == items[i]);
                    }
                },
                None => {
                    assert forall|i: int| 0 <= i < front.len() implies !is_result(
                        #[trigger] front[i],
                    ) by {
                        assert(front[i] == items[i]);
                    }
                },
            }
            lemma_absorbed_without_requests(turn, front, last);
        }
    }
}

proof fn lemma_request_stays(turn: RecentPromptTurnView, items: Seq<ThreadItem>)
    requires
        forall|i: int| 0 <= i < items.len() ==> !is_request(#[trigger] items[i]),
    ensures
        absorbed_all(turn, items).id == turn.id,
        absorbed_all(turn, items).user_text == turn.user_text,
    decreases items.len(),
{
    if items.len() > 0 {
        let front = items.drop_last();
        assert(items[items.len() - 1] == items.last());
        assert(!is_request(items.last()));
        assert forall|i: int| 0 <= i < front.len() implies !is_request(#[trigger] front[i]) by {
            assert(front[i] == items[i]);
        }
        lemma_request_stays(turn, front);
    }
}

proof fn lemma_absorbed_concat(
    turn: RecentPromptTurnView,
    a: Seq<ThreadItem>,
    b: Seq<ThreadItem>,
)
    ensures
        absorbed_all(turn, a + b) == absorbed_all(absorbed_all(turn, a), b),
    decreases b.len(),
{
    if b.len() == 0 {
        assert(a + b =~= a);
    } else {
        lemma_absorbed_concat(turn, a, b.drop_last());
        assert((a + b).drop_last() =~= a + b.drop_last());
    }
}

proof fn lemma_id_stays(turn: RecentPromptTurnView, items: Seq<ThreadItem>)
    ensures
        absorbed_all(turn, items).id == turn.id,
    decreases items.len(),
{
    if items.len() > 0 {
        lemma_id_stays(turn, items.drop_last());
    }
}

/// The request of a turn is its last one that says something. Its result is the last one that says
/// something after that request, if there is one.
pub proof fn law_turn_is_its_last_request_and_result(
    turn: Turn,
    request: int,
    result: Option<int>,
)
    requires
        0 <= request < turn.items@.len(),
        is_request(turn.items@[request]),
        forall|i: int| request < i < turn.items@.len() ==> !is_request(#[trigger] turn.items@[i]),
        match result {
            Some(last) => request < last < turn.items@.len() && is_result(turn.items@[last])
                && forall|i: int|
                last < i < turn.items@.len() ==> !is_result(#[trigger] turn.items@[i]),
            None => forall|i: int|
                request < i < turn.items@.len() ==> !is_result(#[trigger] turn.items@[i]),
        },
    ensures
        recent_turn(turn).id == turn.id@,
        recent_turn(turn).user_text == Some(
            input_text(turn.items@[request]->UserMessage_content@),
        ),
        recent_turn(turn).assistant_text == (match result {
            Some(last) => Some(turn.items@[last]->AgentMessage_text@),
            None => None,
        }),
{
    let items = turn.items@;
    let front = items.take(request + 1);
    let rest = items.skip(request + 1);
    assert(items =~= front + rest);
    assert(front.last() == items[request]);
    lemma_absorbed_concat(empty_turn(turn.id@), front, rest);
    lemma_id_stays(empty_turn(turn.id@), front.drop_last());
    assert forall|i: int| 0 <= i < rest.len() implies !is_request(#[trigger] rest[i]) by {
        assert(rest[i] == items[i + request + 1]);
    }
    let last = match result {
        Some(last) => Some(last - request - 1),
        None => None,
    };
    assert forall|i: int|
        0 <= i < rest.len() && (last matches Some(at) ==> at < i) implies !is_result(
        #[trigger] rest[i],
    ) by {
        assert(rest[i] == items[i + request + 1]);
    }
    lemma_absorbed_without_requests(absorbed_all(empty_turn(turn.id@), front), rest, last);
}

/// A turn in which nothing was asked has no request.
pub proof fn law_turn_without_a_request_has_none(turn: Turn)
    requires
        forall|i: int| 0 <= i < turn.items@.len() ==> !is_request(#[trigger] turn.items@[i]),
    ensures
        recent_turn(turn).user_text is None,
        recent_turn(turn).id == turn.id@,
{
    lemma_request_stays(empty_turn(turn.id@), turn.items@);
}

/// Of the stored turns the last one with a request is told, and none if none has one.
pub proof fn law_last_turn_with_a_request_is_told(turns: Seq<Turn>)
    ensures
        stored_turn(turns) is None <==> forall|i: int|
            0 <= i < turns.len() ==> recent_turn(#[trigger] turns[i]).user_text is None,
        stored_turn(turns) matches Some(told) ==> exists|k: int|
            0 <= k < turns.len() && told == recent_turn(#[trigger] turns[k]) && told.user_text
                is Some && forall|i: int|
                k < i < turns.len() ==> recent_turn(#[trigger] turns[i]).user_text is None,
    decreases turns.len(),
{
    if turns.len() > 0 {
        let front = turns.drop_last();
        let end = turns.len() - 1;
        assert(turns[end] == turns.last());
        if recent_turn(turns.last()).user_text is None {
            law_last_turn_with_a_request_is_told(front);
            if stored_turn(turns) is Some {
                let told = stored_turn(turns).unwrap();
                let k = choose|k: int|
                    0 <= k < front.len() && told == recent_turn(#[trigger] front[k])
                        && told.user_text is Some && forall|i: int|
                        k < i < front.len() ==> recent_turn(#[trigger] front[i]).user_text is None;
                assert(turns[k] == front[k]);
                assert forall|i: int| k < i < turns.len() implies recent_turn(
                    #[trigger] turns[i],
                ).user_text is None by {
                    if i < end {
                        assert(front[i] == turns[i]);
                    }
                }
            } else {
                assert forall|i: int| 0 <= i < turns.len() implies recent_turn(
                    #[trigger] turns[i],
                ).user_text is None by {
                    if i < end {
                        assert(front[i] == turns[i]);
                    }
                }
            }
        }
    }
}

/// A turn that starts is the one that the events are about. An item joins its own turn, and one of another
/// turn starts that turn with nothing else in it. Any other event tells nothing of a turn.
pub proof fn law_events_are_about_their_turn(
    events: Seq<ThreadBufferedEvent>,
    event: ThreadBufferedEvent,
)
    ensures
        buffered_turn(Seq::empty()) is None,
        event matches ThreadBufferedEvent::Notification(ServerNotification::TurnStarted { turn })
            ==> buffered_turn(events.push(event)) == Some(recent_turn(turn)),
        event matches ThreadBufferedEvent::Notification(
            ServerNotification::ItemCompleted { turn_id, item },
        ) ==> {
            let before = buffered_turn(events);
            let after = buffered_turn(events.push(event));
            &&& item is Other ==> after == before
            &&& item !is Other && before is Some && before.unwrap().id == turn_id@ ==> after
                == Some(absorbed(before.unwrap(), item))
            &&& item !is Other && (before is None || before.unwrap().id != turn_id@) ==> after
                == Some(
                absorbed(
                    RecentPromptTurnView { id: turn_id@, user_text: None, assistant_text: None },
                    item,
                ),
            )
        },
        !(event matches ThreadBufferedEvent::Notification(notification) && (
        notification is TurnStarted || notification is ItemCompleted)) ==> buffered_turn(
            events.push(event),
        ) == buffered_turn(events),
{
    assert(events.push(event).drop_last() =~= events);
}

/// The buffered turn is told if it has a request, and else the stored one.
pub proof fn law_buffered_request_is_told_first(store: ThreadEventStore)
    ensures
        buffered_turn(store.buffer@) matches Some(turn) && turn.user_text is Some ==> reference_turn(
            store,
        ) == buffered_turn(store.buffer@),
        (buffered_turn(store.buffer@) is None || buffered_turn(store.buffer@).unwrap().user_text
            is None) ==> reference_turn(store) == stored_turn(store.turns@),
        reference_turn(store) matches Some(turn) ==> turn.user_text is Some,
{
    law_last_turn_with_a_request_is_told(store.turns@);
}

/// A request is told to its own text behind the header, and a result behind its own heading. Without a
/// request nothing is told, and without a result only the request.
pub proof fn law_references_tell_the_turn(
    id: Seq<char>,
    request: Seq<char>,
    result: Seq<char>,
    without: Option<Seq<char>>,
)
    ensures
        ({
            let told = references(
                Some(
                    RecentPromptTurnView {
                        id,
                        user_text: Some(request),
                        assistant_text: Some(result),
                    },
                ),
            );
            &&& told.len() == 2
            &&& told[0].role == "user"@
            &&& told[0].content == (ContentItemView::InputText {
                text: REFERENCE_CONTEXT_HEADER@ + "\n\nMost recent user request:\n"@
                    + cut_reference(request),
            })
            &&& told[1].role == "assistant"@
            &&& told[1].content == (ContentItemView::OutputText {
                text: "Most recent assistant result (reference only):\n"@ + cut_reference(result),
            })
        }),
        ({
            let told = references(
                Some(
                    RecentPromptTurnView { id, user_text: Some(request), assistant_text: None },
                ),
            );
            &&& told.len() == 1
            &&& told[0].role == "user"@
            &&& told[0].content == (ContentItemView::InputText {
                text: REFERENCE_CONTEXT_HEADER@ + "\n\nMost recent user request:\n"@
                    + cut_reference(request),
            })
        }),
        references(
            Some(RecentPromptTurnView { id, user_text: None, assistant_text: without }),
        ).len() == 0,
        references(None).len() == 0,
{
}

/// A reference of more than 8000 characters is its first 8000 and a marker, and a shorter one is whole.
pub proof fn law_long_reference_is_cut(s: Seq<char>)
    ensures
        s.len() > 8000 ==> cut_reference(s) == s.subrange(0, 8000) + "...[truncated]"@,
        s.len() <= 8000 ==> cut_reference(s) == s,
{
    if s.len() > 8000 {
        assert(s.take(8000) =~= s.subrange(0, 8000));
    }
}

} // verus!
