use windowing::{macos, web, Event, RawDisplayHandle, RawWindowHandle};

#[test]
fn web_backend_yields_one_paint_per_poll() {
    let w = web::WindowImpl::new(640, 480, "test", 7);
    assert_eq!(w.next_events(false), vec![Event::Paint]);
    assert_eq!(w.next_events(true), vec![Event::Paint]);
}

#[test]
fn web_handles_carry_the_canvas_id() {
    let w = web::WindowImpl::new(640, 480, "test", 7);
    assert_eq!(w.raw_window_handle(), RawWindowHandle::Web { id: 7 });
    assert_eq!(w.raw_display_handle(), RawDisplayHandle::Web);
    assert_eq!(w.raw_window_handle(), w.raw_window_handle());
}

#[test]
fn web_windows_keep_their_own_ids() {
    let a = web::WindowImpl::new(100, 100, "a", 1);
    let b = web::WindowImpl::new(100, 100, "b", 2);
    assert_ne!(a.raw_window_handle(), b.raw_window_handle());
}

#[test]
fn appkit_stub_yields_one_paint_per_poll() {
    let w = macos::WindowImpl::new(640, 480, "test");
    assert_eq!(w.next_events(false), vec![Event::Paint]);
    assert_eq!(w.next_events(true), vec![Event::Paint]);
}

#[test]
fn appkit_stub_returns_the_placeholder_handles() {
    let w = macos::WindowImpl::new(640, 480, "test");
    assert_eq!(w.raw_window_handle(), RawWindowHandle::AppKit);
    assert_eq!(w.raw_display_handle(), RawDisplayHandle::AppKit);
}
