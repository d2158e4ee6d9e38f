//! Keeps one "special" compositor window (for example a Picture-in-Picture
//! video) on the focused workspace: a matcher decides which window to follow,
//! and a tracker state machine turns compositor events into move commands.

use vstd::prelude::*;

pub mod cli;
pub mod matcher;
pub mod tracker;

verus! {

/// A window's matchable attributes at a point in time, as the compositor
/// reports them: an opaque numeric id, and optional title and application id.
pub struct WindowDescriptor {
    pub id: u64,
    pub title: Option<String>,
    pub app_id: Option<String>,
}

} // verus!
