//! Side conversations: what the chat surface shows while one is active.
use vstd::prelude::*;

verus! {

/// The placeholder of the composer.
#[derive(Debug, Clone, Copy, PartialEq, Eq, Structural)]
pub enum Placeholder {
    Side,
    Normal,
}

/// What the chat surface knows of side conversations.
#[derive(Debug, Clone, Copy, PartialEq, Eq, Structural)]
pub struct SideState {
    pub active_side_conversation: bool,
    pub is_review_mode: bool,
    /// Whether the thread belongs to another one, which speaks for the user.
    pub blocks_direct_input: bool,
}

/// What a change asks of the bottom pane.
#[derive(Debug, Clone, Copy, PartialEq, Eq, Structural)]
pub struct SideChange {
    pub placeholder: Placeholder,
    pub side_active: bool,
    /// Prompts and side conversations exclude each other.
    pub prompt_mode_available: bool,
    /// The status line depends on the surface.
    pub refreshes_status_line: bool,
    /// The pane shows again that the thread is owned by another one.
    pub shows_parent_owned: bool,
}

impl SideState {
    /// Enters or leaves a side conversation.
    pub fn set_side_conversation_active(&mut self, active: bool) -> (r: SideChange)
        ensures
            *final(self) == (SideState { active_side_conversation: active, ..*old(self) }),
            r == (SideChange {
                placeholder: if active {
                    Placeholder::Side
                } else {
                    Placeholder::Normal
                },
                side_active: active,
                prompt_mode_available: !active,
                refreshes_status_line: old(self).active_side_conversation != active,
                shows_parent_owned: old(self).blocks_direct_input && !active,
            }),
    {
        let changed = self.active_side_conversation != active;
        self.active_side_conversation = active;
        SideChange {
            placeholder: if active {
                Placeholder::Side
            } else {
                Placeholder::Normal
            },
            side_active: active,
            prompt_mode_available: !active,
            refreshes_status_line: changed,
            shows_parent_owned: self.blocks_direct_input && !active,
        }
    }

    /// Whether a side conversation is active.
    pub fn side_conversation_active(&self) -> (r: bool)
        ensures
            r == self.active_side_conversation,
    {
        self.active_side_conversation
    }

    /// Whether a side conversation may start: not within another one, and not during a review.
    pub fn can_start_side_conversation(&self) -> (r: bool)
        ensures
            r == (!self.active_side_conversation && !self.is_review_mode),
    {
        !self.active_side_conversation && !self.is_review_mode
    }
}

} // verus!
