mod event;
mod handle;
mod platform;
mod window;

pub use event::Event;
pub use window::Window;
pub use handle::{RawDisplayHandle, RawWindowHandle};
pub use platform::macos;
pub use platform::wayland;
pub use platform::web;
pub use platform::windows;
