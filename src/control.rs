use vstd::prelude::*;

use std::sync::mpsc::{Receiver, TryRecvError};

use crate::audio::InternalAudioMessage;

verus! {

#[verifier::external_type_specification]
#[verifier::external_body]
#[verifier::reject_recursive_types(T)]
pub struct ExReceiver<T>(Receiver<T>);

/// What one non-blocking look at the channel found.
#[derive(Debug, Clone, Copy, PartialEq, Eq, Structural)]
pub enum Polled {
    Message(InternalAudioMessage),
    Empty,
    HungUp,
}

/// Relies on std's `Receiver::try_recv`: takes the oldest queued message
/// without blocking, or tells an empty queue from one whose senders are all
/// gone. What it finds depends on the other threads, so nothing is promised.
#[verifier::external_body]
fn poll(rx: &Receiver<InternalAudioMessage>) -> (r: Polled) {
    match rx.try_recv() {
        Ok(m) => Polled::Message(m),
        Err(TryRecvError::Empty) => Polled::Empty,
        Err(TryRecvError::Disconnected) => Polled::HungUp,
    }
}

/// Relies on std's `Receiver::recv`: blocks until a message arrives, and
/// fails only once every sender is gone. What arrives depends on the other
/// threads, so nothing is promised.
#[verifier::external_body]
fn wait(rx: &Receiver<InternalAudioMessage>) -> (r: Option<InternalAudioMessage>) {
    rx.recv().ok()
}

/// The batch that a blocking wait yields: the message that arrived, or an
/// empty batch and a false flag when the channel's senders are gone.
pub fn batch_of(w: Option<InternalAudioMessage>) -> (r: (Vec<InternalAudioMessage>, bool))
    ensures
        w is Some ==> r.0@ == seq![w->Some_0] && r.1,
        w is None ==> r.0@ == Seq::<InternalAudioMessage>::empty() && !r.1,
{
    match w {
        Some(m) => (vec![m], true),
        None => (Vec::new(), false),
    }
}

/// Takes one poll of the channel into the batch being drained. A message is
/// appended and the drain goes on (`None`); an empty queue ends the drain
/// with the channel still connected (`Some(true)`); a hang-up ends it with
/// the channel gone (`Some(false)`).
pub fn absorb(ret: &mut Vec<InternalAudioMessage>, p: Polled) -> (r: Option<bool>)
    ensures
        p is Message ==> final(ret)@ == old(ret)@.push(p->Message_0) && r is None,
        p is Empty ==> final(ret)@ == old(ret)@ && r == Some(true),
        p is HungUp ==> final(ret)@ == old(ret)@ && r == Some(false),
{
    match p {
        Polled::Message(m) => {
            ret.push(m);
            None
        },
        Polled::Empty => Some(true),
        Polled::HungUp => Some(false),
    }
}

/// Drains the control channel at a beat onset. While paused it blocks for
/// exactly one message (see `batch_of`), so that an idle scheduler spends no
/// time polling; while running it polls without blocking until the queue is
/// empty or hung up, taking each poll in with `absorb`, so that the whole
/// backlog comes back in arrival order. The flag is false when the channel's
/// senders are gone.
pub fn get_message(paused: bool, rx: &Receiver<InternalAudioMessage>) -> (r: (
    Vec<InternalAudioMessage>,
    bool,
))
    ensures
        paused ==> r.0@.len() <= 1 && (r.1 <==> r.0@.len() == 1),
{
    if paused {
        return batch_of(wait(rx));
    }
    let mut ret: Vec<InternalAudioMessage> = Vec::new();
    let mut should_continue = true;
    // A Vec holds at most usize::MAX items; anything beyond waits for the
    // next onset.
    while ret.len() < usize::MAX
        decreases usize::MAX - ret@.len(),
    {
        let polled = poll(rx);
        match absorb(&mut ret, polled) {
            None => {},
            Some(connected) => {
                should_continue = connected;
                break;
            },
        }
    }
    (ret, should_continue)
}

/// One shutdown request on a handle that owns a scheduler thread or not:
/// the handle's new state, and whether this request must stop and join the
/// thread.
pub open spec fn shutdown_model(owns_thread: bool) -> (bool, bool) {
    (false, owns_thread)
}

/// The engine handle's bookkeeping of its scheduler thread: whether one is
/// still owned and waits to be stopped and joined.
#[derive(Debug)]
pub struct Lifecycle {
    owns_thread: bool,
}

impl View for Lifecycle {
    type V = bool;

    closed spec fn view(&self) -> bool {
        self.owns_thread
    }
}

impl Lifecycle {
    /// The state of a handle that has just spawned its scheduler thread.
    pub fn started() -> (r: Lifecycle)
        ensures
            r@,
    {
        Lifecycle { owns_thread: true }
    }

    pub fn owns_thread(&self) -> (r: bool)
        ensures
            r == self@,
    {
        self.owns_thread
    }

    /// Begins a shutdown: true when this call must send the stop request and
    /// join the thread. The thread slot is cleared whatever the join brings.
    pub fn begin_shutdown(&mut self) -> (r: bool)
        ensures
            (final(self)@, r) == shutdown_model(old(self)@),
    {
        let owned = self.owns_thread;
        self.owns_thread = false;
        owned
    }
}

/// Shutting a handle down twice is safe: the second request has no thread to
/// stop or join, and leaves the handle as the first one left it.
pub proof fn lemma_shutdown_idempotent(owns_thread: bool)
    ensures
        shutdown_model(shutdown_model(owns_thread).0) == (shutdown_model(owns_thread).0, false),
{
}

} // verus!
