use vstd::prelude::*;

verus! {

/// Milliseconds between two frames of an editor driven by the host's timer.
pub const FRAME_TIMER_MILLISECONDS: u64 = 16;

/// The editor of a plugin without a user interface: it shows nothing, cannot be resized,
/// and proposes no size of its own.
pub struct NoEditor;

impl NoEditor {
    pub fn new() -> (editor: Self) {
        NoEditor
    }

    pub fn can_resize(&self) -> (resizable: bool)
        ensures
            !resizable,
    {
        false
    }

    /// The size the editor would take instead of a requested one: none.
    pub fn check_window_size(&self, width: u32, height: u32) -> (size: Option<(u32, u32)>)
        ensures
            size is None,
    {
        None
    }
}

} // verus!
