use vstd::prelude::*;

use crate::event::Event;
use crate::handle::{RawDisplayHandle, RawWindowHandle};

verus! {

/// Stub driver for the AppKit platform: no native window is created, every
/// poll yields a steady `Paint` tick, and the handle projection returns the
/// documented placeholder.
#[derive(Default)]
pub struct WindowImpl {}

impl WindowImpl {
    /// The construction parameters are accepted and ignored: this backend
    /// has no native side yet.
    #[allow(unused_variables)]
    pub fn new(width: i32, height: i32, title: &str) -> (w: Self)
        requires
            width > 0,
            height > 0,
    {
        Self {}
    }

    /// Always one `Paint`, in blocking and in non-blocking mode alike:
    /// with no native event source, the steady tick is all there is.
    #[allow(unused_variables)]
    pub fn next_events(&self, wait: bool) -> (r: Vec<Event>)
        ensures
            r@ =~= seq![Event::Paint],
    {
        let r: Vec<Event> = vec![Event::Paint];
        r
    }

    /// Placeholder projection: no native identity exists on this backend.
    pub fn raw_window_handle(&self) -> (r: RawWindowHandle)
        ensures
            r == RawWindowHandle::AppKit,
    {
        RawWindowHandle::AppKit
    }

    pub fn raw_display_handle(&self) -> (r: RawDisplayHandle)
        ensures
            r == RawDisplayHandle::AppKit,
    {
        RawDisplayHandle::AppKit
    }
}

} // verus!
