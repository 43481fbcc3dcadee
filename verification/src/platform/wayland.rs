use vstd::prelude::*;

use crate::event::Event;
use crate::handle::{RawDisplayHandle, RawWindowHandle};

verus! {

/// A protocol-level notification decoded from the compositor connection,
/// as the connection side hands it to the driver.
#[derive(Clone, Copy, Debug, PartialEq, Eq)]
pub enum NativeEvent {
    /// The surface content should be re-committed (housekeeping only; no
    /// caller-visible event comes of it).
    Refresh,
    /// The user or the compositor requested that the window be closed.
    Close,
    /// The compositor (re)configured the window, optionally with a new size.
    Configure { new_size: Option<(u32, u32)> },
}

/// A native call the driver asks its connection side to perform against the
/// compositor, in the order the actions are listed.
#[derive(Clone, Copy, Debug, PartialEq, Eq)]
pub enum Action {
    /// Resize the surface to the given size.
    Resize { width: u32, height: u32 },
    /// Redraw the window frame.
    Refresh,
    /// Commit the current surface content.
    Commit,
}

/// The native calls one notification asks for: a refresh re-commits the
/// surface, a configure resizes (when a size came along) and redraws, and a
/// close asks for nothing — teardown is the caller's.
pub open spec fn actions_of(e: NativeEvent) -> Seq<Action> {
    match e {
        NativeEvent::Refresh => seq![Action::Refresh, Action::Commit],
        NativeEvent::Close => Seq::<Action>::empty(),
        NativeEvent::Configure { new_size } => match new_size {
            Some(sz) => seq![Action::Resize { width: sz.0, height: sz.1 }, Action::Refresh],
            None => seq![Action::Refresh],
        },
    }
}

/// The cached dimensions after one notification: only a configure that
/// carries a size changes them.
pub open spec fn dims_after(e: NativeEvent, dims: (u32, u32)) -> (u32, u32) {
    match e {
        NativeEvent::Configure { new_size } => match new_size {
            Some(sz) => sz,
            None => dims,
        },
        _ => dims,
    }
}

/// What draining one batch of notifications produces: the caller-visible
/// events, the dimensions afterward, and the native actions performed, in
/// order. A close short-circuits: it is returned alone and the rest of the
/// batch is left unprocessed, since teardown should not be conflated with
/// subsequent draw work. When nothing in the batch maps to a caller-visible
/// event, a single `Paint` is the default tick.
pub open spec fn drain_spec(native: Seq<NativeEvent>, dims: (u32, u32)) -> (Seq<Event>, (u32, u32), Seq<Action>)
    decreases native.len(),
{
    if native.len() == 0 {
        (seq![Event::Paint], dims, Seq::<Action>::empty())
    } else if native[0] is Close {
        (seq![Event::Close], dims, Seq::<Action>::empty())
    } else {
        let rest = drain_spec(native.drop_first(), dims_after(native[0], dims));
        (rest.0, rest.1, actions_of(native[0]) + rest.2)
    }
}

/// Walks one decoded batch in arrival order, stopping at the first close
/// notification, and accumulates the translation that `drain_spec` states.
fn drain(native: &Vec<NativeEvent>, dims0: (u32, u32)) -> (r: (Vec<Event>, (u32, u32), Vec<Action>))
    ensures
        r.0@ =~= drain_spec(native@, dims0).0,
        r.1 == drain_spec(native@, dims0).1,
        r.2@ =~= drain_spec(native@, dims0).2,
{
    let mut dims: (u32, u32) = dims0;
    let mut actions: Vec<Action> = Vec::new();
    let mut i: usize = 0;

    proof {
        assert(native@.skip(0) =~= native@);
    }
    while i < native.len()
        invariant
            i <= native.len(),
            drain_spec(native@, dims0).0 == drain_spec(native@.skip(i as int), dims).0,
            drain_spec(native@, dims0).1 == drain_spec(native@.skip(i as int), dims).1,
            drain_spec(native@, dims0).2 =~= actions@ + drain_spec(native@.skip(i as int), dims).2,
        decreases native.len() - i,
    {
        proof {
            assert(native@.skip(i as int)[0] == native@[i as int]);
            assert(native@.skip(i as int).drop_first() =~= native@.skip(i + 1));
        }
        match native[i] {
            NativeEvent::Refresh => {
                actions.push(Action::Refresh);
                actions.push(Action::Commit);
            }
            NativeEvent::Close => {
                let events: Vec<Event> = vec![Event::Close];
                return (events, dims, actions);
            }
            NativeEvent::Configure { new_size } => {
                match new_size {
                    Some(sz) => {
                        actions.push(Action::Resize { width: sz.0, height: sz.1 });
                        dims = sz;
                    }
                    None => {}
                }
                actions.push(Action::Refresh);
            }
        }
        i = i + 1;
    }

    proof {
        assert(native@.skip(i as int) =~= Seq::<NativeEvent>::empty());
    }
    let events: Vec<Event> = vec![Event::Paint];
    (events, dims, actions)
}

/// Driver state for the readiness-driven compositor backend. The open
/// connection, its outbound buffer and the readiness wait live with the
/// connection side, which decodes inbound notifications into `NativeEvent`
/// values and performs the returned `Action`s; the driver owns the cached
/// dimensions and the native identity used for the handle projection.
pub struct WindowImpl {
    dimensions: (u32, u32),
    title: String,
    surface: usize,
    display: usize,
}

impl WindowImpl {
    /// The cached dimensions, updated only by inbound configure
    /// notifications, never set directly by the caller after construction.
    pub closed spec fn spec_dimensions(&self) -> (u32, u32) {
        self.dimensions
    }

    pub closed spec fn spec_title(&self) -> Seq<char> {
        self.title@
    }

    /// The address of the native surface object.
    pub closed spec fn spec_surface(&self) -> usize {
        self.surface
    }

    /// The address of the native compositor connection object.
    pub closed spec fn spec_display(&self) -> usize {
        self.display
    }

    /// The cached dimensions, as last configured.
    pub fn dimensions(&self) -> (r: (u32, u32))
        ensures
            r == self.spec_dimensions(),
    {
        self.dimensions
    }

    /// Builds the driver over an established native identity: the surface
    /// and connection addresses come from the connection side's compositor
    /// handshake, which aborts construction entirely when it fails — there
    /// is no partially-constructed window, and no null identity here.
    pub fn new(width: i32, height: i32, title: &str, surface: usize, display: usize) -> (w: Self)
        requires
            width > 0,
            height > 0,
            surface != 0,
            display != 0,
        ensures
            w.spec_dimensions() == (width as u32, height as u32),
            w.spec_title() == title@,
            w.spec_surface() == surface,
            w.spec_display() == display,
    {
        Self {
            dimensions: (width as u32, height as u32),
            title: title.to_owned(),
            surface,
            display,
        }
    }

    /// Drains one already-decoded batch of notifications: translates them
    /// in arrival order, updates the cached dimensions, and hands back the
    /// caller-visible events together with the native actions the
    /// connection side must perform. The batch returned is never empty.
    pub fn next_events(&mut self, native: Vec<NativeEvent>) -> (r: (Vec<Event>, Vec<Action>))
        ensures
            ({
                let d = drain_spec(native@, old(self).spec_dimensions());
                &&& r.0@ =~= d.0
                &&& final(self).spec_dimensions() == d.1
                &&& r.1@ =~= d.2
            }),
            final(self).spec_title() == old(self).spec_title(),
            final(self).spec_surface() == old(self).spec_surface(),
            final(self).spec_display() == old(self).spec_display(),
    {
        let r = drain(&native, self.dimensions);
        self.dimensions = r.1;
        (r.0, r.2)
    }

    /// Projects the current native identity into the tagged handle union.
    /// The identity is established at construction and does not change on
    /// this backend, so repeated calls yield identical handles.
    pub fn raw_window_handle(&self) -> (r: RawWindowHandle)
        ensures
            r == (RawWindowHandle::Wayland { surface: self.spec_surface() }),
    {
        RawWindowHandle::Wayland { surface: self.surface }
    }

    pub fn raw_display_handle(&self) -> (r: RawDisplayHandle)
        ensures
            r == (RawDisplayHandle::Wayland { display: self.spec_display() }),
    {
        RawDisplayHandle::Wayland { display: self.display }
    }
}

/// Every drained batch holds exactly one caller-visible event: blocking
/// callers always get a non-empty batch back.
pub proof fn lemma_batch_nonempty(native: Seq<NativeEvent>, dims: (u32, u32))
    ensures
        drain_spec(native, dims).0.len() == 1,
    decreases native.len(),
{
    if native.len() == 0 {
    } else if native[0] is Close {
    } else {
        lemma_batch_nonempty(native.drop_first(), dims_after(native[0], dims));
    }
}

/// This backend never reports `Created`: every caller-visible event it
/// produces is a `Paint` or a `Close`, so a `Created` observed on a window
/// (never, here) would trivially precede them all.
pub proof fn lemma_batch_no_created(native: Seq<NativeEvent>, dims: (u32, u32))
    ensures
        forall|k: int|
            0 <= k < drain_spec(native, dims).0.len() ==> drain_spec(native, dims).0[k] != Event::Created,
    decreases native.len(),
{
    if native.len() == 0 {
    } else if native[0] is Close {
    } else {
        lemma_batch_no_created(native.drop_first(), dims_after(native[0], dims));
    }
}

/// A close notification anywhere in the batch truncates it: the batch is
/// exactly `[Close]` when one is present, and exactly the default `[Paint]`
/// tick otherwise.
pub proof fn lemma_close_truncates(native: Seq<NativeEvent>, dims: (u32, u32))
    ensures
        (exists|k: int| 0 <= k < native.len() && native[k] is Close) ==> drain_spec(native, dims).0
            =~= seq![Event::Close],
        !(exists|k: int| 0 <= k < native.len() && native[k] is Close) ==> drain_spec(native, dims).0
            =~= seq![Event::Paint],
    decreases native.len(),
{
    if native.len() == 0 {
    } else if native[0] is Close {
    } else {
        lemma_close_truncates(native.drop_first(), dims_after(native[0], dims));
        assert forall|k: int| 0 <= k < native.len() && native[k] is Close implies exists|j: int|
            0 <= j < native.drop_first().len() && native.drop_first()[j] is Close by {
            assert(native.drop_first()[k - 1] == native[k]);
        }
        if exists|j: int| 0 <= j < native.drop_first().len() && native.drop_first()[j] is Close {
            let j = choose|j: int| 0 <= j < native.drop_first().len() && native.drop_first()[j] is Close;
            assert(native[j + 1] is Close);
        }
    }
}

} // verus!
