use vstd::prelude::*;

use futures::channel::mpsc::{TryRecvError, UnboundedReceiver, UnboundedSender};

use crate::event::Event;
use crate::handle::{RawDisplayHandle, RawWindowHandle};

verus! {

// The native message pump of this platform is blocking-only and
// thread-affine, so the embedding side spawns a dedicated pump thread that
// owns every native call; the driver on the caller's side talks to it
// exclusively through a single-producer/single-consumer channel. The
// channel ends are the one piece of shared state, so they stand behind
// trusted declarations; everything decided about the messages themselves is
// verified.

#[verifier::external_type_specification]
#[verifier::external_body]
#[verifier::reject_recursive_types(T)]
pub struct ExUnboundedReceiver<T>(UnboundedReceiver<T>);

#[verifier::external_type_specification]
#[verifier::external_body]
#[verifier::reject_recursive_types(T)]
pub struct ExUnboundedSender<T>(UnboundedSender<T>);

/// What the pump thread pushes through the channel: first the native window
/// handle it created, then normalized events.
#[derive(Clone, Copy, Debug, PartialEq, Eq)]
pub enum EventTransport {
    /// The native window handle, sent once when the pump thread has
    /// created the window.
    Created(usize),
    /// A normalized event observed by the pump thread.
    Event(Event),
}

impl EventTransport {
    /// The handle of a `Created` item. Asking this of an `Event` item is a
    /// programmer error, so that case is excluded outright.
    pub fn created(self) -> (h: usize)
        requires
            self is Created,
        ensures
            h == self->Created_0,
    {
        match self {
            Self::Created(x) => x,
            Self::Event(_) => {
                proof {
                    assert(false);
                }
                0
            }
        }
    }

    /// The event of an `Event` item, under the same exclusion.
    pub fn event(self) -> (e: Event)
        requires
            self is Event,
        ensures
            e == self->Event_0,
    {
        match self {
            Self::Event(x) => x,
            Self::Created(_) => {
                proof {
                    assert(false);
                }
                Event::Paint
            }
        }
    }
}

/// The outcome of one non-suspending look at the channel.
#[derive(Clone, Copy, Debug, PartialEq, Eq)]
pub enum RecvPoll {
    /// The next queued item.
    Item(EventTransport),
    /// Nothing queued, but the pump thread still holds its sender: the
    /// transient empty read, not an error.
    Empty,
    /// Nothing queued and the pump thread's sender is gone.
    Closed,
}

/// Relies on futures::channel::mpsc::UnboundedReceiver::try_recv: a
/// non-suspending receive that yields the next queued item, or finds the
/// channel empty but open, or closed with nothing left. Which of the three
/// comes back depends on the pump thread, so nothing is promised of it.
#[verifier::external_body]
fn chan_try_recv(rx: &mut UnboundedReceiver<EventTransport>) -> (r: RecvPoll) {
    match rx.try_recv() {
        Ok(t) => RecvPoll::Item(t),
        Err(TryRecvError::Empty) => RecvPoll::Empty,
        Err(TryRecvError::Closed) => RecvPoll::Closed,
    }
}

/// Relies on futures::executor::block_on over futures' StreamExt::next:
/// suspends this thread until the pump thread queues an item (`Some`), or
/// until the pump thread's sender is dropped with the queue drained
/// (`None`). It does not return while neither has happened. Which of the
/// two comes back depends on the pump thread, so nothing is promised of it.
#[verifier::external_body]
fn chan_recv_blocking(rx: &mut UnboundedReceiver<EventTransport>) -> (r: Option<EventTransport>) {
    futures::executor::block_on(futures::stream::StreamExt::next(rx))
}

/// Relies on futures::channel::mpsc::UnboundedSender::unbounded_send:
/// queues the item unless the receiving driver is gone; `true` reports
/// acceptance.
#[verifier::external_body]
fn chan_send(tx: &UnboundedSender<EventTransport>, t: EventTransport) -> (r: bool) {
    tx.unbounded_send(t).is_ok()
}

/// The batch one blocking receive yields, for each possible outcome. An
/// event item becomes the singleton batch. A `Created` item here is a
/// protocol violation — the handshake was already consumed at construction
/// — and a closed channel means the pump thread died; both are fatal, and
/// `None` propagates them.
pub fn batch_from_received(t: Option<EventTransport>) -> (r: Option<Vec<Event>>)
    ensures
        ({
            match t {
                Some(EventTransport::Event(e)) => r matches Some(b) && b@ =~= seq![e],
                _ => r is None,
            }
        }),
{
    match t {
        Some(EventTransport::Event(e)) => {
            let b: Vec<Event> = vec![e];
            Some(b)
        }
        _ => None,
    }
}

/// The batch one non-suspending poll yields, for each possible outcome.
/// The transient empty read becomes the empty batch; a stray handshake
/// item or a dead pump thread is fatal, as in `batch_from_received`.
pub fn batch_from_poll(p: RecvPoll) -> (r: Option<Vec<Event>>)
    ensures
        ({
            match p {
                RecvPoll::Item(EventTransport::Event(e)) => r matches Some(b) && b@ =~= seq![e],
                RecvPoll::Empty => r matches Some(b) && b@ =~= Seq::<Event>::empty(),
                _ => r is None,
            }
        }),
{
    match p {
        RecvPoll::Item(EventTransport::Event(e)) => {
            let b: Vec<Event> = vec![e];
            Some(b)
        }
        RecvPoll::Empty => {
            let b: Vec<Event> = Vec::new();
            Some(b)
        }
        _ => None,
    }
}

/// Driver state for the pump-thread backend, living on the caller's
/// thread. It never touches the native window directly: the pump thread
/// owns it, and this side only drains the channel.
pub struct WindowImpl {
    hwnd: usize,
    hinstance: usize,
    rx: UnboundedReceiver<EventTransport>,
}

impl WindowImpl {
    /// The native window handle, as the handshake delivered it.
    pub closed spec fn spec_hwnd(&self) -> usize {
        self.hwnd
    }

    /// The native module handle of the process.
    pub closed spec fn spec_hinstance(&self) -> usize {
        self.hinstance
    }

    /// Completes construction after the pump-thread handshake: the
    /// embedding side has spawned the pump thread and awaited the first
    /// channel item, which must be the `Created` handshake — the window is
    /// not treated as live before that item has arrived.
    pub fn new(hinstance: usize, first: EventTransport, rx: UnboundedReceiver<EventTransport>) -> (w: Self)
        requires
            first is Created,
        ensures
            w.spec_hwnd() == first->Created_0,
            w.spec_hinstance() == hinstance,
    {
        let hwnd = first.created();
        Self { hwnd, hinstance, rx }
    }

    /// Drains the channel: in blocking mode, one suspending receive whose
    /// batch is never empty; in non-blocking mode, one non-suspending poll
    /// whose batch may be empty. `None` is the fatal case: the pump thread
    /// is gone, or broke the handshake protocol.
    pub fn next_events(&mut self, wait: bool) -> (r: Option<Vec<Event>>)
        ensures
            final(self).spec_hwnd() == old(self).spec_hwnd(),
            final(self).spec_hinstance() == old(self).spec_hinstance(),
            r matches Some(b) ==> b@.len() <= 1,
            wait ==> (r matches Some(b) ==> b@.len() == 1),
    {
        if wait {
            let t = chan_recv_blocking(&mut self.rx);
            batch_from_received(t)
        } else {
            let p = chan_try_recv(&mut self.rx);
            batch_from_poll(p)
        }
    }

    /// Projects the native identity the handshake established. It does not
    /// change afterward, so repeated calls yield identical handles.
    pub fn raw_window_handle(&self) -> (r: RawWindowHandle)
        ensures
            r == (RawWindowHandle::Win32 { hwnd: self.spec_hwnd(), hinstance: self.spec_hinstance() }),
    {
        RawWindowHandle::Win32 { hwnd: self.hwnd, hinstance: self.hinstance }
    }

    pub fn raw_display_handle(&self) -> (r: RawDisplayHandle)
        ensures
            r == RawDisplayHandle::Windows,
    {
        RawDisplayHandle::Windows
    }
}

/// Native message codes of the pump platform, as its headers define them.
pub const WM_CREATE: u32 = 1;

pub const WM_DESTROY: u32 = 2;

pub const WM_NCCREATE: u32 = 129;

/// What the trampoline tells the native layer to do with one message.
#[derive(Clone, Copy, Debug, PartialEq, Eq, Structural)]
pub enum MessageReply {
    /// The message was consumed.
    Handled,
    /// The message was consumed and the pump must quit.
    Quit,
    /// Hand the message to the platform's default handler.
    PassThrough,
}

/// The creation notifications the native subsystem delivers synchronously
/// while the window is being created, before anything else.
pub open spec fn is_create_msg(msg: u32) -> bool {
    msg == WM_NCCREATE || msg == WM_CREATE
}

/// What a dispatched message makes the trampoline send: only the create
/// notification is forwarded, as `Created`. A destroy quits the pump and is
/// not forwarded; unmodeled codes pass through, which is no error.
pub open spec fn handle_emits(msg: u32) -> Seq<EventTransport> {
    if msg == WM_CREATE {
        seq![EventTransport::Event(Event::Created)]
    } else {
        Seq::<EventTransport>::empty()
    }
}

pub open spec fn handle_reply(msg: u32) -> MessageReply {
    if msg == WM_CREATE {
        MessageReply::Handled
    } else if msg == WM_DESTROY {
        MessageReply::Quit
    } else {
        MessageReply::PassThrough
    }
}

/// Whether the one-shot registration slot is filled after one message.
pub open spec fn step_registered(registered: bool, msg: u32) -> bool {
    registered || is_create_msg(msg)
}

/// What one message makes the trampoline send: the first creation message
/// registers the trampoline and sends the `Created` handshake before any
/// dispatch; before registration nothing else is sent at all.
pub open spec fn step_emits(registered: bool, hwnd: usize, msg: u32) -> Seq<EventTransport> {
    if !registered && is_create_msg(msg) {
        seq![EventTransport::Created(hwnd)] + handle_emits(msg)
    } else if !registered {
        Seq::<EventTransport>::empty()
    } else {
        handle_emits(msg)
    }
}

pub open spec fn step_reply(registered: bool, msg: u32) -> MessageReply {
    if registered || is_create_msg(msg) {
        handle_reply(msg)
    } else {
        MessageReply::PassThrough
    }
}

/// What a whole pump run over a message trace sends: messages are
/// dispatched in order until one makes the trampoline quit.
pub open spec fn run_spec(registered: bool, hwnd: usize, msgs: Seq<u32>) -> (bool, Seq<EventTransport>)
    decreases msgs.len(),
{
    if msgs.len() == 0 {
        (registered, Seq::<EventTransport>::empty())
    } else {
        let em = step_emits(registered, hwnd, msgs[0]);
        let reg2 = step_registered(registered, msgs[0]);
        if step_reply(registered, msgs[0]) is Quit {
            (reg2, em)
        } else {
            let rest = run_spec(reg2, hwnd, msgs.drop_first());
            (rest.0, em + rest.1)
        }
    }
}

/// The pump thread's side of the channel: the trampoline that native
/// callbacks land on. The registration flag stands for the out-of-band
/// user-data slot on the native handle, written once at the first creation
/// callback and only read afterward.
pub struct WindowImplInner {
    tx: UnboundedSender<EventTransport>,
    registered: bool,
    sent: Ghost<Seq<EventTransport>>,
}

impl WindowImplInner {
    /// Whether the one-shot registration slot has been filled.
    pub closed spec fn spec_registered(&self) -> bool {
        self.registered
    }

    /// Every transport this trampoline has handed to the channel, oldest
    /// first.
    pub closed spec fn spec_sent(&self) -> Seq<EventTransport> {
        self.sent@
    }

    pub fn new(tx: UnboundedSender<EventTransport>) -> (inner: Self)
        ensures
            !inner.spec_registered(),
            inner.spec_sent() =~= Seq::<EventTransport>::empty(),
    {
        Self { tx, registered: false, sent: Ghost(Seq::<EventTransport>::empty()) }
    }

    /// Sends the `Created` handshake carrying the fresh native handle.
    /// Delivery can fail only when the receiving driver is already gone,
    /// which ends the pump soon after; the failure is not forwarded.
    fn init(&mut self, hwnd: usize)
        ensures
            final(self).spec_registered() == old(self).spec_registered(),
            final(self).spec_sent() =~= old(self).spec_sent() + seq![EventTransport::Created(hwnd)],
    {
        let _ = chan_send(&self.tx, EventTransport::Created(hwnd));
        proof {
            self.sent@ = self.sent@.push(EventTransport::Created(hwnd));
        }
    }

    /// Forwards one normalized event to the driver, under the same
    /// delivery note as `init`.
    fn send_event(&mut self, event: Event)
        ensures
            final(self).spec_registered() == old(self).spec_registered(),
            final(self).spec_sent() =~= old(self).spec_sent() + seq![EventTransport::Event(event)],
    {
        let _ = chan_send(&self.tx, EventTransport::Event(event));
        proof {
            self.sent@ = self.sent@.push(EventTransport::Event(event));
        }
    }

    /// Dispatches one message that reached a registered trampoline: the
    /// create notification is forwarded as `Created`, a destroy quits the
    /// pump, and everything else goes to the platform's default handler.
    pub fn handle_message(&mut self, msg: u32) -> (r: MessageReply)
        ensures
            final(self).spec_registered() == old(self).spec_registered(),
            final(self).spec_sent() =~= old(self).spec_sent() + handle_emits(msg),
            r == handle_reply(msg),
    {
        if msg == WM_CREATE {
            self.send_event(Event::Created);
            MessageReply::Handled
        } else if msg == WM_DESTROY {
            MessageReply::Quit
        } else {
            MessageReply::PassThrough
        }
    }

    /// One native callback: on the first creation message the trampoline
    /// stashes itself in the one-shot slot and sends the handshake, then
    /// dispatches the message; before registration everything else passes
    /// through untouched.
    pub fn wndproc_step(&mut self, hwnd: usize, msg: u32) -> (r: MessageReply)
        ensures
            final(self).spec_registered() == step_registered(old(self).spec_registered(), msg),
            final(self).spec_sent() =~= old(self).spec_sent() + step_emits(
                old(self).spec_registered(),
                hwnd,
                msg,
            ),
            r == step_reply(old(self).spec_registered(), msg),
    {
        if !self.registered && (msg == WM_NCCREATE || msg == WM_CREATE) {
            self.registered = true;
            self.init(hwnd);
            self.handle_message(msg)
        } else if !self.registered {
            MessageReply::PassThrough
        } else {
            self.handle_message(msg)
        }
    }

    fn run_from(&mut self, hwnd: usize, msgs: &Vec<u32>, i: usize)
        requires
            i <= msgs@.len(),
        ensures
            final(self).spec_registered() == run_spec(
                old(self).spec_registered(),
                hwnd,
                msgs@.skip(i as int),
            ).0,
            final(self).spec_sent() =~= old(self).spec_sent() + run_spec(
                old(self).spec_registered(),
                hwnd,
                msgs@.skip(i as int),
            ).1,
        decreases msgs@.len() - i,
    {
        if i == msgs.len() {
            proof {
                assert(msgs@.skip(i as int) =~= Seq::<u32>::empty());
            }
            return ;
        }
        proof {
            assert(msgs@.skip(i as int)[0] == msgs@[i as int]);
            assert(msgs@.skip(i as int).drop_first() =~= msgs@.skip(i + 1));
        }
        let r = self.wndproc_step(hwnd, msgs[i]);
        match r {
            MessageReply::Quit => {},
            _ => {
                self.run_from(hwnd, msgs, i + 1);
            }
        }
    }

    /// The pump loop over a trace of native messages: each one is
    /// dispatched through the trampoline in order, until a destroy makes
    /// the pump quit. The native loop that produces the trace is the
    /// embedding side's; this is everything it decides.
    pub fn run(&mut self, hwnd: usize, msgs: &Vec<u32>)
        ensures
            final(self).spec_registered() == run_spec(old(self).spec_registered(), hwnd, msgs@).0,
            final(self).spec_sent() =~= old(self).spec_sent() + run_spec(
                old(self).spec_registered(),
                hwnd,
                msgs@,
            ).1,
    {
        proof {
            assert(msgs@.skip(0) =~= msgs@);
        }
        self.run_from(hwnd, msgs, 0);
    }
}

/// From a registered trampoline on, every transport sent is the normalized
/// `Created` event: this backend forwards nothing else.
pub proof fn lemma_registered_emits(hwnd: usize, msgs: Seq<u32>)
    ensures
        forall|k: int|
            0 <= k < run_spec(true, hwnd, msgs).1.len() ==> run_spec(true, hwnd, msgs).1[k]
                == EventTransport::Event(Event::Created),
    decreases msgs.len(),
{
    if msgs.len() == 0 {
    } else {
        lemma_registered_emits(hwnd, msgs.drop_first());
    }
}

/// The creation handshake comes first. Over a fresh trampoline and a
/// message trace whose creation notifications stand before everything else
/// — the native subsystem delivers them synchronously while the window is
/// created — the first transport on the channel, if any, is the `Created`
/// handshake with the native handle, and every later one carries the
/// normalized `Created` event. No `Paint` or `Close` is ever forwarded by
/// this backend, so `Created` precedes any other caller-visible event.
pub proof fn lemma_handshake_first(hwnd: usize, msgs: Seq<u32>)
    requires
        forall|i: int, j: int|
            0 <= i < j < msgs.len() && is_create_msg(msgs[j]) ==> is_create_msg(msgs[i]),
    ensures
        run_spec(false, hwnd, msgs).1.len() > 0 ==> run_spec(false, hwnd, msgs).1[0]
            == EventTransport::Created(hwnd),
        forall|k: int|
            1 <= k < run_spec(false, hwnd, msgs).1.len() ==> run_spec(false, hwnd, msgs).1[k]
                == EventTransport::Event(Event::Created),
    decreases msgs.len(),
{
    if msgs.len() == 0 {
    } else if is_create_msg(msgs[0]) {
        lemma_registered_emits(hwnd, msgs.drop_first());
    } else {
        assert forall|i: int, j: int|
            0 <= i < j < msgs.drop_first().len() && is_create_msg(msgs.drop_first()[j])
                implies is_create_msg(msgs.drop_first()[i]) by {
            assert(msgs.drop_first()[j] == msgs[j + 1]);
            assert(msgs.drop_first()[i] == msgs[i + 1]);
        }
        assert forall|j: int| 0 <= j < msgs.drop_first().len()
            implies !is_create_msg(msgs.drop_first()[j]) by {
            assert(msgs.drop_first()[j] == msgs[j + 1]);
            if is_create_msg(msgs[j + 1]) {
                assert(is_create_msg(msgs[0]));
            }
        }
        lemma_handshake_first(hwnd, msgs.drop_first());
    }
}

} // verus!
