use vstd::prelude::*;

use crate::event::Event;
use crate::handle::{RawDisplayHandle, RawWindowHandle};
use crate::platform::wayland::{drain_spec, Action, NativeEvent};
use crate::platform::WindowImpl;

verus! {

/// The single public window type: one on-screen surface, delegating to the
/// backend driver selected for this build — the readiness-driven compositor
/// driver. The embedding side owns the native connection and the executor:
/// it decodes inbound protocol notifications into `NativeEvent` values,
/// hands them to `next_events` (after suspending on connection readiness
/// when the caller asked to block), and performs the returned actions
/// against the compositor.
pub struct Window {
    window_impl: WindowImpl,
}

impl Window {
    /// The cached dimensions, updated only by inbound configure
    /// notifications.
    pub closed spec fn spec_dimensions(&self) -> (u32, u32) {
        self.window_impl.spec_dimensions()
    }

    pub closed spec fn spec_title(&self) -> Seq<char> {
        self.window_impl.spec_title()
    }

    pub closed spec fn spec_surface(&self) -> usize {
        self.window_impl.spec_surface()
    }

    pub closed spec fn spec_display(&self) -> usize {
        self.window_impl.spec_display()
    }

    /// The cached dimensions, as last configured.
    pub fn dimensions(&self) -> (r: (u32, u32))
        ensures
            r == self.spec_dimensions(),
    {
        self.window_impl.dimensions()
    }

    /// Builds the window over the native identity the embedding side's
    /// compositor handshake established. Width and height are positive
    /// pixel counts; the title is advisory.
    pub fn new(width: i32, height: i32, title: &str, surface: usize, display: usize) -> (w: Self)
        requires
            width > 0,
            height > 0,
            surface != 0,
            display != 0,
        ensures
            w.spec_dimensions() == (width as u32, height as u32),
            w.spec_title() == title@,
            w.spec_surface() == surface,
            w.spec_display() == display,
    {
        Self { window_impl: WindowImpl::new(width, height, title, surface, display) }
    }

    /// Drains one already-available batch of notifications into normalized
    /// events, exactly as the active driver states it: in arrival order,
    /// a close truncating the batch, a single `Paint` as the default tick,
    /// and never an empty batch.
    pub fn next_events(&mut self, native: Vec<NativeEvent>) -> (r: (Vec<Event>, Vec<Action>))
        ensures
            ({
                let d = drain_spec(native@, old(self).spec_dimensions());
                &&& r.0@ =~= d.0
                &&& final(self).spec_dimensions() == d.1
                &&& r.1@ =~= d.2
            }),
            final(self).spec_title() == old(self).spec_title(),
            final(self).spec_surface() == old(self).spec_surface(),
            final(self).spec_display() == old(self).spec_display(),
    {
        self.window_impl.next_events(native)
    }

    /// The tagged projection of the current native identity, for external
    /// rendering code.
    pub fn raw_window_handle(&self) -> (r: RawWindowHandle)
        ensures
            r == (RawWindowHandle::Wayland { surface: self.spec_surface() }),
    {
        self.window_impl.raw_window_handle()
    }

    pub fn raw_display_handle(&self) -> (r: RawDisplayHandle)
        ensures
            r == (RawDisplayHandle::Wayland { display: self.spec_display() }),
    {
        self.window_impl.raw_display_handle()
    }
}

/// Raw-handle projection is idempotent: the handle is a function of the
/// current native identity alone, so two projections with no intervening
/// reconfiguration yield identical tagged handles.
pub proof fn lemma_raw_handle_idempotent(w: &Window, h1: RawWindowHandle, h2: RawWindowHandle)
    requires
        h1 == (RawWindowHandle::Wayland { surface: w.spec_surface() }),
        h2 == (RawWindowHandle::Wayland { surface: w.spec_surface() }),
    ensures
        h1 == h2,
{
}

} // verus!
