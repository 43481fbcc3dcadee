use vstd::prelude::*;

verus! {

/// A normalized window notification, independent of any native protocol.
///
/// `Created` is emitted at most once per window, before any other event of
/// the same window. `Close` means "begin shutdown": it is the last event a
/// caller should act on, though a stream is not guaranteed to stop producing
/// afterward.
#[derive(Clone, Copy, Debug, PartialEq, Eq, Structural)]
pub enum Event {
    /// The native window object has been assigned a live handle.
    Created,
    /// A frame should be (re)produced.
    Paint,
    /// The user or the system requested termination.
    Close,
}

} // verus!
