//! `poll_on`: a task on the target runtime pulls the upstream and forwards
//! each item through a bounded channel; the downstream end reads the channel
//! and, when dropped, signals the task to stop.
//!
//! The task alternates awaits and decisions. The decisions stand here, as the
//! state machine [`Forwarder`]; the caller performs the awaits and reports
//! what they gave.

use vstd::prelude::*;
use tokio::sync::{mpsc, oneshot};

verus! {

#[verifier::external_type_specification]
#[verifier::external_body]
#[verifier::reject_recursive_types(T)]
pub struct ExMpscSender<T>(tokio::sync::mpsc::Sender<T>);

#[verifier::external_type_specification]
#[verifier::external_body]
#[verifier::reject_recursive_types(T)]
pub struct ExMpscReceiver<T>(tokio::sync::mpsc::Receiver<T>);

#[verifier::external_type_specification]
#[verifier::external_body]
#[verifier::reject_recursive_types(T)]
pub struct ExOneshotSender<T>(tokio::sync::oneshot::Sender<T>);

#[verifier::external_type_specification]
#[verifier::external_body]
#[verifier::reject_recursive_types(T)]
pub struct ExOneshotReceiver<T>(tokio::sync::oneshot::Receiver<T>);

#[verifier::external_type_specification]
#[verifier::external_body]
pub struct ExOneshotRecvError(tokio::sync::oneshot::error::RecvError);

/// The largest capacity that a bounded Tokio channel accepts.
pub const MAX_CAPACITY: usize = usize::MAX / 8;

/// The sending end of a bounded item channel, with the channel it belongs to
/// and the capacity that the channel was opened with.
#[verifier::reject_recursive_types(T)]
pub struct ItemSender<T> {
    sender: mpsc::Sender<T>,
    chan: Ghost<int>,
    bound: Ghost<nat>,
}

impl<T> ItemSender<T> {
    /// The channel this end belongs to.
    pub closed spec fn chan(self) -> int {
        self.chan@
    }

    /// The capacity that the channel was opened with.
    pub closed spec fn bound(self) -> nat {
        self.bound@
    }

    /// The Tokio sender.
    pub closed spec fn inner(self) -> mpsc::Sender<T> {
        self.sender
    }

    /// The Tokio sender, for sending items.
    pub fn sender(&self) -> (r: &mpsc::Sender<T>)
        ensures
            *r == self.inner(),
    {
        &self.sender
    }

    /// Gives up the Tokio sender.
    pub fn into_inner(self) -> (r: mpsc::Sender<T>)
        ensures
            r == self.inner(),
    {
        self.sender
    }
}

/// The receiving end of a bounded item channel, with the channel it belongs to.
#[verifier::reject_recursive_types(T)]
pub struct ItemReceiver<T> {
    receiver: mpsc::Receiver<T>,
    chan: Ghost<int>,
}

impl<T> ItemReceiver<T> {
    /// The channel this end belongs to.
    pub closed spec fn chan(self) -> int {
        self.chan@
    }

    /// The Tokio receiver.
    pub closed spec fn inner(self) -> mpsc::Receiver<T> {
        self.receiver
    }

    /// Gives up the Tokio receiver.
    pub fn into_inner(self) -> (r: mpsc::Receiver<T>)
        ensures
            r == self.inner(),
    {
        self.receiver
    }
}

/// The receiving end of the stop signal, with the signal it belongs to.
pub struct StopReceiver {
    receiver: oneshot::Receiver<()>,
    chan: Ghost<int>,
}

impl StopReceiver {
    /// The signal this end belongs to.
    pub closed spec fn chan(self) -> int {
        self.chan@
    }

    /// The Tokio receiver.
    pub closed spec fn inner(self) -> oneshot::Receiver<()> {
        self.receiver
    }

    /// Gives up the Tokio receiver.
    pub fn into_inner(self) -> (r: oneshot::Receiver<()>)
        ensures
            r == self.inner(),
    {
        self.receiver
    }
}

/// Wraps `tokio::sync::mpsc::channel`, which panics unless
/// `0 < capacity <= usize::MAX >> 3`, and otherwise gives the two ends of one
/// new channel that holds at most `capacity` items.
#[verifier::external_body]
fn bounded_channel<T>(capacity: usize) -> (r: (ItemSender<T>, ItemReceiver<T>))
    requires
        0 < capacity <= MAX_CAPACITY,
    ensures
        r.0.chan() == r.1.chan(),
        r.0.bound() == capacity,
{
    let (tx, rx) = mpsc::channel(capacity);
    let id = Ghost(arbitrary());
    (ItemSender { sender: tx, chan: id, bound: Ghost(capacity as nat) }, ItemReceiver { receiver: rx, chan: id })
}

/// Wraps `tokio::sync::oneshot::channel`: the two ends of one new oneshot
/// channel, the sending end not used yet.
#[verifier::external_body]
fn oneshot_channel() -> (r: (CancelSignal, StopReceiver))
    ensures
        r.0.is_armed(),
        r.0.channel() == r.1.chan(),
{
    let (tx, rx) = oneshot::channel();
    let id = Ghost(arbitrary());
    (CancelSignal { sender: Some(tx), chan: id }, StopReceiver { receiver: rx, chan: id })
}

/// Wraps `oneshot::Sender::send`. Whether the value is taken depends on
/// whether the receiving end is still alive, so nothing is stated of the
/// result.
#[verifier::external_body]
fn oneshot_send(tx: oneshot::Sender<()>) -> (r: Result<(), ()>) {
    tx.send(())
}

/// The stop signal that the downstream end of `poll_on` holds. It is sent at
/// most once.
pub struct CancelSignal {
    sender: Option<oneshot::Sender<()>>,
    chan: Ghost<int>,
}

impl CancelSignal {
    /// The signal has not been sent yet.
    pub closed spec fn is_armed(self) -> bool {
        self.sender is Some
    }

    /// The oneshot channel that the signal is sent on.
    pub closed spec fn channel(self) -> int {
        self.chan@
    }

    /// Sends the stop signal if it has not been sent yet. Returns whether it
    /// was sent now. Whether the task was still there to receive it is not
    /// reported, as the downstream end does not care.
    pub fn fire(&mut self) -> (fired: bool)
        ensures
            fired == old(self).is_armed(),
            !final(self).is_armed(),
            final(self).channel() == old(self).channel(),
    {
        match self.sender.take() {
            Some(tx) => {
                let _ = oneshot_send(tx);
                true
            },
            None => false,
        }
    }

    /// Whether the signal has not been sent yet.
    pub fn armed(&self) -> (a: bool)
        ensures
            a == self.is_armed(),
    {
        self.sender.is_some()
    }
}

/// The channels that connect the forwarding task with the downstream end.
#[verifier::reject_recursive_types(T)]
pub struct PollOnChannels<T> {
    /// The task sends upstream items here.
    pub items_tx: ItemSender<T>,
    /// The downstream end reads the items here.
    pub items_rx: ItemReceiver<T>,
    /// The downstream end fires this when it is dropped.
    pub cancel: CancelSignal,
    /// The task stops pulling once this resolves.
    pub cancelled: StopReceiver,
}

/// Opens the item channel, bounded by `capacity`, and the stop signal: the
/// item ends belong to one channel, and the stop signal reaches the task's
/// end of it.
pub fn open_channels<T>(capacity: usize) -> (c: PollOnChannels<T>)
    requires
        0 < capacity <= MAX_CAPACITY,
    ensures
        c.items_tx.chan() == c.items_rx.chan(),
        c.items_tx.bound() == capacity,
        c.cancel.is_armed(),
        c.cancel.channel() == c.cancelled.chan(),
{
    let (items_tx, items_rx) = bounded_channel(capacity);
    let (cancel, cancelled) = oneshot_channel();
    PollOnChannels { items_tx, items_rx, cancel, cancelled }
}

/// What the forwarding task does next.
pub enum ForwardStep<T> {
    /// Send this item into the channel and report whether it was accepted.
    Send(T),
    /// Stop: the upstream is exhausted or cancelled, or the downstream is gone.
    Finish,
}

/// The abstract state of the forwarding task.
pub struct ForwardState<T> {
    pub finished: bool,
    /// An item was handed to the channel and the outcome is not known yet.
    pub awaiting_send: bool,
    /// The items handed to the channel so far, in order.
    pub forwarded: Seq<T>,
}

pub open spec fn initial_state<T>() -> ForwardState<T> {
    ForwardState { finished: false, awaiting_send: false, forwarded: Seq::empty() }
}

/// The step taken on pulling `next` from the upstream (`None`: the upstream
/// ended, or was cancelled).
pub open spec fn next_step<T>(s: ForwardState<T>, next: Option<T>) -> ForwardStep<T> {
    if s.finished {
        ForwardStep::Finish
    } else {
        match next {
            Some(x) => ForwardStep::Send(x),
            None => ForwardStep::Finish,
        }
    }
}

/// The state after pulling `next` from the upstream.
pub open spec fn after_next<T>(s: ForwardState<T>, next: Option<T>) -> ForwardState<T> {
    if s.finished {
        s
    } else {
        match next {
            Some(x) => ForwardState {
                finished: false,
                awaiting_send: true,
                forwarded: s.forwarded.push(x),
            },
            None => ForwardState { finished: true, awaiting_send: false, forwarded: s.forwarded },
        }
    }
}

/// The state after the channel accepted (or refused) the item last sent.
pub open spec fn after_send<T>(s: ForwardState<T>, accepted: bool) -> ForwardState<T> {
    ForwardState { finished: s.finished || !accepted, awaiting_send: false, forwarded: s.forwarded }
}

/// The state after pulling each of `nexts` in turn, every send accepted.
pub open spec fn pull_all<T>(s: ForwardState<T>, nexts: Seq<Option<T>>) -> ForwardState<T>
    decreases nexts.len(),
{
    if nexts.len() == 0 {
        s
    } else {
        pull_all(after_send(after_next(s, nexts[0]), true), nexts.drop_first())
    }
}

/// The decisions of the forwarding task of `poll_on`.
pub struct Forwarder<T> {
    finished: bool,
    awaiting_send: bool,
    forwarded: Ghost<Seq<T>>,
}

impl<T> View for Forwarder<T> {
    type V = ForwardState<T>;

    closed spec fn view(&self) -> ForwardState<T> {
        ForwardState {
            finished: self.finished,
            awaiting_send: self.awaiting_send,
            forwarded: self.forwarded@,
        }
    }
}

impl<T> Forwarder<T> {
    /// A task that has forwarded nothing yet.
    pub fn new() -> (f: Self)
        ensures
            f@ == initial_state::<T>(),
    {
        Forwarder { finished: false, awaiting_send: false, forwarded: Ghost(Seq::empty()) }
    }

    /// Decides what to do with `next`, the result of pulling the upstream.
    /// The upstream is pulled only once the item sent before is settled.
    pub fn on_next(&mut self, next: Option<T>) -> (step: ForwardStep<T>)
        requires
            !old(self)@.awaiting_send,
        ensures
            step == next_step(old(self)@, next),
            final(self)@ == after_next(old(self)@, next),
    {
        if self.finished {
            return ForwardStep::Finish;
        }
        match next {
            Some(x) => {
                self.forwarded = Ghost(self.forwarded@.push(x));
                self.awaiting_send = true;
                ForwardStep::Send(x)
            },
            None => {
                self.finished = true;
                ForwardStep::Finish
            },
        }
    }

    /// Takes note of whether the channel accepted the item last sent; a
    /// refusal means that the downstream end is gone.
    pub fn on_sent(&mut self, accepted: bool)
        requires
            old(self)@.awaiting_send,
        ensures
            final(self)@ == after_send(old(self)@, accepted),
    {
        self.awaiting_send = false;
        if !accepted {
            self.finished = true;
        }
    }

    /// Whether the task has stopped.
    pub fn is_finished(&self) -> (b: bool)
        ensures
            b == self@.finished,
    {
        self.finished
    }
}

/// Once stopped, the task stays stopped and forwards nothing more, whatever
/// it pulls.
pub proof fn lemma_finished_is_final<T>(s: ForwardState<T>, nexts: Seq<Option<T>>)
    requires
        s.finished,
        !s.awaiting_send,
    ensures
        pull_all(s, nexts) == s,
    decreases nexts.len(),
{
    if nexts.len() > 0 {
        lemma_finished_is_final(after_send(after_next(s, nexts[0]), true), nexts.drop_first());
    }
}

/// Pulling the items of an upstream and then its end forwards exactly those
/// items, in their order, and then stops: nothing pulled afterwards is
/// forwarded.
pub proof fn lemma_forwards_stream_in_order<T>(
    s: ForwardState<T>,
    items: Seq<T>,
    rest: Seq<Option<T>>,
)
    requires
        !s.finished,
        !s.awaiting_send,
    ensures
        pull_all(s, items.map_values(|x: T| Some(x)) + seq![None] + rest) == (ForwardState {
            finished: true,
            awaiting_send: false,
            forwarded: s.forwarded + items,
        }),
    decreases items.len(),
{
    let nexts = items.map_values(|x: T| Some(x)) + seq![None] + rest;
    if items.len() == 0 {
        assert(nexts[0] == None::<T>);
        assert(nexts.drop_first() =~= rest);
        lemma_finished_is_final(after_send(after_next(s, nexts[0]), true), rest);
        assert(s.forwarded + items =~= s.forwarded);
    } else {
        let s1 = after_send(after_next(s, nexts[0]), true);
        assert(nexts[0] == Some(items[0]));
        let tail = items.drop_first();
        assert(nexts.drop_first() =~= tail.map_values(|x: T| Some(x)) + seq![None] + rest);
        lemma_forwards_stream_in_order(s1, tail, rest);
        assert(s1.forwarded + tail =~= s.forwarded + items);
    }
}

/// Pulling any run of items, every send accepted, forwards exactly those
/// items in their order, after what was forwarded before, and the task goes
/// on: this holds at every moment of an upstream that has not ended,
/// endless ones included.
pub proof fn lemma_forwards_prefix_in_order<T>(s: ForwardState<T>, items: Seq<T>)
    requires
        !s.finished,
        !s.awaiting_send,
    ensures
        pull_all(s, items.map_values(|x: T| Some(x))) == (ForwardState {
            finished: false,
            awaiting_send: false,
            forwarded: s.forwarded + items,
        }),
    decreases items.len(),
{
    let nexts = items.map_values(|x: T| Some(x));
    if items.len() == 0 {
        assert(s.forwarded + items =~= s.forwarded);
    } else {
        let s1 = after_send(after_next(s, nexts[0]), true);
        let tail = items.drop_first();
        assert(nexts.drop_first() =~= tail.map_values(|x: T| Some(x)));
        lemma_forwards_prefix_in_order(s1, tail);
        assert(s1.forwarded + tail =~= s.forwarded + items);
    }
}

/// A refused send stops the task: it forwards nothing more.
pub proof fn lemma_refusal_stops<T>(s: ForwardState<T>, nexts: Seq<Option<T>>)
    ensures
        after_send(s, false).finished,
        pull_all(after_send(s, false), nexts) == after_send(s, false),
{
    lemma_finished_is_final(after_send(s, false), nexts);
}

} // verus!
