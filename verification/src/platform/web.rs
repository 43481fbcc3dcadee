use vstd::prelude::*;

use crate::event::Event;
use crate::handle::{RawDisplayHandle, RawWindowHandle};

verus! {

/// Driver state for the animation-frame backend. The native side is a DOM
/// canvas element carrying a numeric id attribute; the id is the whole
/// native identity this driver keeps. The caller hands the id in at
/// construction (one registration per window, no process-wide counter).
pub struct WindowImpl {
    id: u32,
}

impl WindowImpl {
    pub closed spec fn spec_id(&self) -> u32 {
        self.id
    }

    /// Records the canvas id. Width, height and title are applied to the
    /// canvas element by the embedding side; this backend keeps no further
    /// state of them.
    #[allow(unused_variables)]
    pub fn new(width: i32, height: i32, title: &str, id: u32) -> (w: Self)
        requires
            width > 0,
            height > 0,
        ensures
            w.spec_id() == id,
    {
        Self { id }
    }

    /// Always exactly one `Paint`. In blocking mode the embedding side
    /// first awaits one animation-frame tick; in non-blocking mode no
    /// native non-blocking primitive exists, so the tick is yielded
    /// immediately — a deliberate approximation, not a native capability.
    #[allow(unused_variables)]
    pub fn next_events(&self, wait: bool) -> (r: Vec<Event>)
        ensures
            r@ =~= seq![Event::Paint],
    {
        let r: Vec<Event> = vec![Event::Paint];
        r
    }

    pub fn raw_window_handle(&self) -> (r: RawWindowHandle)
        ensures
            r == (RawWindowHandle::Web { id: self.spec_id() }),
    {
        RawWindowHandle::Web { id: self.id }
    }

    pub fn raw_display_handle(&self) -> (r: RawDisplayHandle)
        ensures
            r == RawDisplayHandle::Web,
    {
        RawDisplayHandle::Web
    }
}

} // verus!
