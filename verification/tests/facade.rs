use windowing::wayland::{Action, NativeEvent};
use windowing::{Event, RawDisplayHandle, RawWindowHandle, Window};

fn test_window() -> Window {
    Window::new(640, 480, "test", 0x1000, 0x2000)
}

#[test]
fn idle_first_poll_is_one_paint() {
    let mut w = test_window();
    let (events, actions) = w.next_events(Vec::new());
    assert_eq!(events, vec![Event::Paint]);
    assert!(!events.contains(&Event::Close));
    assert_eq!(actions, Vec::new());
    assert_eq!(w.dimensions(), (640, 480));
}

#[test]
fn close_comes_back_alone() {
    let mut w = test_window();
    let (events, _) = w.next_events(vec![NativeEvent::Close]);
    assert_eq!(events, vec![Event::Close]);
}

#[test]
fn refresh_configure_refresh_ordering() {
    let mut w = test_window();
    let native = vec![
        NativeEvent::Refresh,
        NativeEvent::Configure { new_size: Some((200, 150)) },
        NativeEvent::Refresh,
    ];
    let (events, actions) = w.next_events(native);

    // The unmapped refresh notifications produce no caller-visible event:
    // the batch is the single default paint tick.
    assert_eq!(events, vec![Event::Paint]);

    // Exactly one dimension update, to (200, 150).
    let resizes: Vec<&Action> = actions
        .iter()
        .filter(|a| matches!(a, Action::Resize { .. }))
        .collect();
    assert_eq!(resizes, vec![&Action::Resize { width: 200, height: 150 }]);
    assert_eq!(w.dimensions(), (200, 150));

    assert_eq!(
        actions,
        vec![
            Action::Refresh,
            Action::Commit,
            Action::Resize { width: 200, height: 150 },
            Action::Refresh,
            Action::Refresh,
            Action::Commit,
        ]
    );
}

#[test]
fn configure_without_size_keeps_dimensions() {
    let mut w = test_window();
    let (events, actions) = w.next_events(vec![NativeEvent::Configure { new_size: None }]);
    assert_eq!(events, vec![Event::Paint]);
    assert_eq!(actions, vec![Action::Refresh]);
    assert_eq!(w.dimensions(), (640, 480));
}

#[test]
fn close_truncates_the_batch() {
    let mut w = test_window();
    let native = vec![
        NativeEvent::Configure { new_size: Some((300, 200)) },
        NativeEvent::Close,
        NativeEvent::Refresh,
    ];
    let (events, actions) = w.next_events(native);
    // The close is returned alone; the refresh after it was never processed.
    assert_eq!(events, vec![Event::Close]);
    assert_eq!(
        actions,
        vec![Action::Resize { width: 300, height: 200 }, Action::Refresh]
    );
    // The configure before the close still took effect.
    assert_eq!(w.dimensions(), (300, 200));
}

#[test]
fn batches_are_never_empty() {
    let mut w = test_window();
    let inputs = vec![
        Vec::new(),
        vec![NativeEvent::Refresh],
        vec![NativeEvent::Close],
        vec![NativeEvent::Configure { new_size: None }],
    ];
    for native in inputs {
        let (events, _) = w.next_events(native);
        assert!(!events.is_empty());
    }
}

#[test]
fn no_created_from_this_backend() {
    let mut w = test_window();
    let native = vec![
        NativeEvent::Refresh,
        NativeEvent::Configure { new_size: Some((10, 10)) },
    ];
    let (events, _) = w.next_events(native);
    assert!(!events.contains(&Event::Created));
}

#[test]
fn configure_to_the_largest_size() {
    let mut w = test_window();
    let native = vec![NativeEvent::Configure { new_size: Some((u32::MAX, u32::MAX)) }];
    let (events, actions) = w.next_events(native);
    assert_eq!(events, vec![Event::Paint]);
    assert_eq!(
        actions,
        vec![
            Action::Resize { width: u32::MAX, height: u32::MAX },
            Action::Refresh,
        ]
    );
    assert_eq!(w.dimensions(), (u32::MAX, u32::MAX));
}

#[test]
fn smallest_window_is_accepted() {
    let mut w = Window::new(1, 1, "", 0x1, 0x2);
    assert_eq!(w.dimensions(), (1, 1));
    let (events, _) = w.next_events(Vec::new());
    assert_eq!(events, vec![Event::Paint]);
}

#[test]
fn raw_handles_project_the_identity() {
    let w = test_window();
    assert_eq!(w.raw_window_handle(), RawWindowHandle::Wayland { surface: 0x1000 });
    assert_eq!(w.raw_display_handle(), RawDisplayHandle::Wayland { display: 0x2000 });
}

#[test]
fn raw_handle_projection_is_idempotent() {
    let mut w = test_window();
    let h1 = w.raw_window_handle();
    let h2 = w.raw_window_handle();
    assert_eq!(h1, h2);
    let d1 = w.raw_display_handle();
    let d2 = w.raw_display_handle();
    assert_eq!(d1, d2);

    // A reconfiguration does not move the native identity either, on this
    // backend.
    let _ = w.next_events(vec![NativeEvent::Configure { new_size: Some((5, 5)) }]);
    assert_eq!(w.raw_window_handle(), h1);
}
