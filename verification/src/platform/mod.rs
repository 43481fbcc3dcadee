pub mod macos;
pub mod wayland;
pub mod web;
pub mod windows;

pub use self::wayland::WindowImpl;
