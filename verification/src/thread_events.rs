//! The turns of a thread and the notifications about them, with what the program reads of them.
use vstd::prelude::*;

verus! {

/// A piece of user input.
#[derive(Debug, PartialEq, Eq)]
pub enum UserInput {
    Text { text: String },
    Other,
}

/// An item of a turn.
#[derive(Debug, PartialEq, Eq)]
pub enum ThreadItem {
    UserMessage { content: Vec<UserInput> },
    AgentMessage { text: String },
    Other,
}

/// How far a turn has come.
#[derive(Debug, Clone, Copy, PartialEq, Eq, Structural)]
pub enum TurnStatus {
    Completed,
    Interrupted,
    Failed,
    InProgress,
}

/// A turn of a thread.
#[derive(Debug, PartialEq, Eq)]
pub struct Turn {
    pub id: String,
    pub items: Vec<ThreadItem>,
    pub status: TurnStatus,
}

/// What the server tells about a thread.
#[derive(Debug, PartialEq, Eq)]
pub enum ServerNotification {
    TurnStarted { turn: Turn },
    AgentMessageDelta { turn_id: String, delta: String },
    ItemCompleted { turn_id: String, item: ThreadItem },
    TurnCompleted { turn: Turn },
    ThreadClosed,
    Other,
}

/// An event that waits to be shown.
#[derive(Debug, PartialEq, Eq)]
pub enum ThreadBufferedEvent {
    Notification(ServerNotification),
    Request,
    HistoryEntryResponse,
    FeedbackSubmission,
}

/// What is known of a thread: its stored turns and the events since.
#[derive(Debug, PartialEq, Eq)]
pub struct ThreadEventStore {
    pub turns: Vec<Turn>,
    pub buffer: Vec<ThreadBufferedEvent>,
}

/// The content of a message to a model.
#[derive(Debug, PartialEq, Eq)]
pub enum ContentItem {
    InputText { text: String },
    OutputText { text: String },
}

/// The view of [`ContentItem`].
#[verifier::ext_equal]
pub enum ContentItemView {
    InputText { text: Seq<char> },
    OutputText { text: Seq<char> },
}

impl View for ContentItem {
    type V = ContentItemView;

    open spec fn view(&self) -> ContentItemView {
        match self {
            ContentItem::InputText { text } => ContentItemView::InputText { text: text@ },
            ContentItem::OutputText { text } => ContentItemView::OutputText { text: text@ },
        }
    }
}

/// A message to a model.
#[derive(Debug, PartialEq, Eq)]
pub struct ResponseItem {
    pub role: String,
    pub content: ContentItem,
}

/// The view of [`ResponseItem`].
#[verifier::ext_equal]
pub struct ResponseItemView {
    pub role: Seq<char>,
    pub content: ContentItemView,
}

impl View for ResponseItem {
    type V = ResponseItemView;

    open spec fn view(&self) -> ResponseItemView {
        ResponseItemView { role: self.role@, content: self.content@ }
    }
}

/// The views of some messages.
pub open spec fn message_views(items: Seq<ResponseItem>) -> Seq<ResponseItemView> {
    Seq::new(items.len(), |i: int| items[i]@)
}

} // verus!
