pub mod client;
pub mod clock;
pub mod current;
pub mod daemon;
pub mod dashboard;
pub mod dashboard_tool;
pub mod exit_messages;
pub mod geometry;
pub mod hook_calls;
pub mod identity;
pub mod ids;
pub mod json;
pub mod keys;
pub mod main_transcript;
pub mod mouse_capture;
pub mod pages;
pub mod panel;
pub mod process;
pub mod prompt;
pub mod prompt_args;
pub mod prompt_context;
pub mod protocol;
pub mod query;
pub mod reflow;
pub mod registry;
pub mod reporter;
pub mod rules_load;
pub mod session;
pub mod side;
pub mod sidebar;
pub mod surfaces;
pub mod terminal;
pub mod text;
pub mod thread_events;
pub mod transport;
pub mod types;
pub mod windows_path;
pub mod worker;

use vstd::prelude::*;

verus! {

/// The largest payload that one frame may carry, in bytes.
pub const MAX_FRAME_SIZE: usize = 1048576;

} // verus!
