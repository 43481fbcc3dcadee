use futures::channel::mpsc;
use futures::executor::block_on;
use futures::stream::StreamExt;

use windowing::windows::{
    EventTransport, MessageReply, WindowImpl, WindowImplInner, WM_CREATE, WM_DESTROY, WM_NCCREATE,
};
use windowing::{Event, RawDisplayHandle, RawWindowHandle};

#[test]
fn transport_accessors() {
    assert_eq!(EventTransport::Created(0x77).created(), 0x77);
    assert_eq!(EventTransport::Event(Event::Paint).event(), Event::Paint);
}

#[test]
fn handshake_delivers_the_handle() {
    let (tx, mut rx) = mpsc::unbounded();
    tx.unbounded_send(EventTransport::Created(0x11)).unwrap();
    let first = block_on(rx.next()).unwrap();
    let w = WindowImpl::new(0x500, first, rx);
    assert_eq!(
        w.raw_window_handle(),
        RawWindowHandle::Win32 { hwnd: 0x11, hinstance: 0x500 }
    );
    assert_eq!(w.raw_display_handle(), RawDisplayHandle::Windows);
}

#[test]
fn two_windows_do_not_cross_deliver() {
    let (tx1, mut rx1) = mpsc::unbounded();
    let (tx2, mut rx2) = mpsc::unbounded();
    tx1.unbounded_send(EventTransport::Created(0x11)).unwrap();
    tx2.unbounded_send(EventTransport::Created(0x22)).unwrap();

    let first2 = block_on(rx2.next()).unwrap();
    let first1 = block_on(rx1.next()).unwrap();
    let w1 = WindowImpl::new(0x500, first1, rx1);
    let w2 = WindowImpl::new(0x500, first2, rx2);

    assert_eq!(
        w1.raw_window_handle(),
        RawWindowHandle::Win32 { hwnd: 0x11, hinstance: 0x500 }
    );
    assert_eq!(
        w2.raw_window_handle(),
        RawWindowHandle::Win32 { hwnd: 0x22, hinstance: 0x500 }
    );
}

fn fresh_window() -> (mpsc::UnboundedSender<EventTransport>, WindowImpl) {
    let (tx, mut rx) = mpsc::unbounded();
    tx.unbounded_send(EventTransport::Created(0x11)).unwrap();
    let first = block_on(rx.next()).unwrap();
    (tx, WindowImpl::new(0x500, first, rx))
}

#[test]
fn nonblocking_poll_on_idle_pump_is_an_empty_batch() {
    let (_tx, mut w) = fresh_window();
    let batch = w.next_events(false).expect("pump thread is alive");
    assert_eq!(batch, Vec::new());
}

#[test]
fn nonblocking_poll_returns_one_queued_event() {
    let (tx, mut w) = fresh_window();
    tx.unbounded_send(EventTransport::Event(Event::Created)).unwrap();
    let batch = w.next_events(false).expect("pump thread is alive");
    assert_eq!(batch, vec![Event::Created]);
}

#[test]
fn blocking_poll_returns_a_nonempty_batch() {
    let (tx, mut w) = fresh_window();
    tx.unbounded_send(EventTransport::Event(Event::Created)).unwrap();
    let batch = w.next_events(true).expect("pump thread is alive");
    assert_eq!(batch.len(), 1);
    assert_eq!(batch, vec![Event::Created]);
}

#[test]
fn dead_pump_thread_is_fatal() {
    let (tx, mut w) = fresh_window();
    drop(tx);
    assert_eq!(w.next_events(false), None);
    assert_eq!(w.next_events(true), None);
}

#[test]
fn stray_handshake_item_is_fatal() {
    let (tx, mut w) = fresh_window();
    tx.unbounded_send(EventTransport::Created(0x99)).unwrap();
    assert_eq!(w.next_events(false), None);
}

#[test]
fn trampoline_sends_handshake_then_created() {
    let (tx, mut rx) = mpsc::unbounded();
    let mut inner = WindowImplInner::new(tx);

    assert_eq!(inner.wndproc_step(0x42, WM_NCCREATE), MessageReply::PassThrough);
    assert_eq!(inner.wndproc_step(0x42, WM_CREATE), MessageReply::Handled);
    assert_eq!(inner.wndproc_step(0x42, 4242), MessageReply::PassThrough);
    assert_eq!(inner.wndproc_step(0x42, WM_DESTROY), MessageReply::Quit);

    assert_eq!(rx.try_recv(), Ok(EventTransport::Created(0x42)));
    assert_eq!(rx.try_recv(), Ok(EventTransport::Event(Event::Created)));
    assert!(rx.try_recv().is_err());
}

#[test]
fn unregistered_trampoline_passes_everything_through() {
    let (tx, mut rx) = mpsc::unbounded();
    let mut inner = WindowImplInner::new(tx);
    assert_eq!(inner.wndproc_step(0x42, WM_DESTROY), MessageReply::PassThrough);
    assert_eq!(inner.wndproc_step(0x42, 4242), MessageReply::PassThrough);
    assert!(rx.try_recv().is_err());
}

#[test]
fn pump_run_stops_at_destroy() {
    let (tx, mut rx) = mpsc::unbounded();
    let mut inner = WindowImplInner::new(tx);
    let msgs = vec![WM_NCCREATE, WM_CREATE, WM_DESTROY, WM_CREATE];
    inner.run(0x42, &msgs);

    // The create after the destroy was never dispatched.
    assert_eq!(rx.try_recv(), Ok(EventTransport::Created(0x42)));
    assert_eq!(rx.try_recv(), Ok(EventTransport::Event(Event::Created)));
    assert!(rx.try_recv().is_err());
}
