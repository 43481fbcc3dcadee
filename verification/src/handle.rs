use vstd::prelude::*;

verus! {

/// A non-owning, tagged reference to a native window identity, consumed by
/// external rendering code.
///
/// The driver retains exclusive ownership of the underlying native resource;
/// a handle must never outlive the window it was obtained from. Native
/// pointers are carried as plain addresses.
#[derive(Clone, Copy, Debug, PartialEq, Eq, Structural)]
pub enum RawWindowHandle {
    /// The address of a live compositor surface object.
    Wayland { surface: usize },
    /// An OS window handle together with the owning module handle.
    Win32 { hwnd: usize, hinstance: usize },
    /// The numeric id tagged onto a DOM canvas element.
    Web { id: u32 },
    /// Placeholder for a backend that is not wired to a native window
    /// object; a known gap, not a silent success.
    AppKit,
}

/// A non-owning, tagged reference to the native display or connection the
/// window lives on.
#[derive(Clone, Copy, Debug, PartialEq, Eq, Structural)]
pub enum RawDisplayHandle {
    /// The address of a live compositor connection object.
    Wayland { display: usize },
    Windows,
    Web,
    /// Placeholder, as for the window handle.
    AppKit,
}

} // verus!
