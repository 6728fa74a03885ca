//! Bounded multi-producer, multi-consumer channels, provided by
//! `crossbeam_channel`, and the two ways of sending into them.

use crate::display::DisplayMessage;
use crate::keyboard::KeyboardMessage;
use crossbeam_channel::{Receiver, Sender};
use vstd::prelude::*;

verus! {

/// Capacity of every channel between the simulation core and its
/// peripherals.
pub const CHANNEL_CAPACITY: usize = 128;

#[verifier::external_type_specification]
#[verifier::external_body]
#[verifier::reject_recursive_types(T)]
pub struct ExSender<T>(crossbeam_channel::Sender<T>);

#[verifier::external_type_specification]
#[verifier::external_body]
#[verifier::reject_recursive_types(T)]
pub struct ExReceiver<T>(crossbeam_channel::Receiver<T>);

/// How a non-blocking send ended.
#[derive(Debug, PartialEq, Eq)]
pub enum TrySend<T> {
    /// The message is in the channel.
    Sent,
    /// The channel was full; the message comes back, not sent.
    Full(T),
    /// Every receive-handle is gone; the message comes back, not sent.
    Disconnected(T),
}

/// Whether send-handle `a` belongs to the same channel as `b`, as
/// `crossbeam_channel::Sender::same_channel` answers.
pub uninterp spec fn same_display_channel(a: Sender<DisplayMessage>, b: Sender<DisplayMessage>) -> bool;

/// The capacity that `crossbeam_channel::Sender::capacity` reports for `s`.
pub uninterp spec fn display_capacity(s: Sender<DisplayMessage>) -> Option<usize>;

/// Whether receive-handle `a` belongs to the same channel as `b`, as
/// `crossbeam_channel::Receiver::same_channel` answers.
pub uninterp spec fn same_keyboard_channel(a: Receiver<KeyboardMessage>, b: Receiver<KeyboardMessage>) -> bool;

/// The capacity that `crossbeam_channel::Receiver::capacity` reports for `r`.
pub uninterp spec fn keyboard_capacity(r: Receiver<KeyboardMessage>) -> Option<usize>;

/// Whether send-handle `s` and receive-handle `r` are two ends of one
/// channel, as the pair that `crossbeam_channel::bounded` returns is.
pub uninterp spec fn display_ends(s: Sender<DisplayMessage>, r: Receiver<DisplayMessage>) -> bool;

/// Whether send-handle `s` and receive-handle `r` are two ends of one
/// channel, as the pair that `crossbeam_channel::bounded` returns is.
pub uninterp spec fn keyboard_ends(s: Sender<KeyboardMessage>, r: Receiver<KeyboardMessage>) -> bool;

/// Relies on `crossbeam_channel::bounded`: a fresh display channel whose
/// `Sender::capacity` is `Some(cap)`. It panics only for a capacity too
/// large to index, which `requires` rules out.
#[verifier::external_body]
pub(crate) fn display_channel(cap: usize) -> (r: (Sender<DisplayMessage>, Receiver<DisplayMessage>))
    requires
        cap <= 0x1_0000,
    ensures
        display_capacity(r.0) == Some(cap),
        display_ends(r.0, r.1),
{
    crossbeam_channel::bounded(cap)
}

/// Relies on `crossbeam_channel::bounded`: a fresh keyboard channel whose
/// `Receiver::capacity` is `Some(cap)`. It panics only for a capacity too
/// large to index, which `requires` rules out.
#[verifier::external_body]
pub(crate) fn keyboard_channel(cap: usize) -> (r: (Sender<KeyboardMessage>, Receiver<KeyboardMessage>))
    requires
        cap <= 0x1_0000,
    ensures
        keyboard_capacity(r.1) == Some(cap),
        keyboard_ends(r.0, r.1),
{
    crossbeam_channel::bounded(cap)
}

/// Relies on `Clone for crossbeam_channel::Sender`: one more send-handle of
/// the same channel, so `same_channel` holds and the capacity is the same.
#[verifier::external_body]
pub(crate) fn clone_display_sender(s: &Sender<DisplayMessage>) -> (r: Sender<DisplayMessage>)
    ensures
        same_display_channel(r, *s),
        display_capacity(r) == display_capacity(*s),
        forall|rx: Receiver<DisplayMessage>| #[trigger] display_ends(*s, rx) ==> display_ends(r, rx),
{
    s.clone()
}

/// Relies on `Clone for crossbeam_channel::Receiver`: one more
/// receive-handle of the same channel, competing for its messages, so
/// `same_channel` holds and the capacity is the same.
#[verifier::external_body]
pub(crate) fn clone_keyboard_receiver(r: &Receiver<KeyboardMessage>) -> (c: Receiver<KeyboardMessage>)
    ensures
        same_keyboard_channel(c, *r),
        keyboard_capacity(c) == keyboard_capacity(*r),
        forall|tx: Sender<KeyboardMessage>| #[trigger] keyboard_ends(tx, *r) ==> keyboard_ends(tx, c),
{
    r.clone()
}

/// Relies on `crossbeam_channel::Sender::send`: blocks while the channel is
/// full, and fails, handing the message back, only once every
/// receive-handle is gone.
#[verifier::external_body]
pub(crate) fn send<T>(s: &Sender<T>, msg: T) -> (r: Result<(), T>)
    ensures
        r matches Err(m) ==> m == msg,
{
    s.send(msg).map_err(|e| e.0)
}

/// Relies on `crossbeam_channel::Sender::try_send`: never blocks; a full or
/// disconnected channel hands the message back.
#[verifier::external_body]
fn try_send_raw<T>(s: &Sender<T>, msg: T) -> (r: TrySend<T>)
    ensures
        r matches TrySend::Full(m) ==> m == msg,
        r matches TrySend::Disconnected(m) ==> m == msg,
{
    match s.try_send(msg) {
        Ok(()) => TrySend::Sent,
        Err(crossbeam_channel::TrySendError::Full(m)) => TrySend::Full(m),
        Err(crossbeam_channel::TrySendError::Disconnected(m)) => TrySend::Disconnected(m),
    }
}

/// Relies on `crossbeam_channel::Receiver::recv`: blocks until a message
/// arrives, and yields `None` once the channel is empty and every
/// send-handle is gone.
#[verifier::external_body]
pub(crate) fn recv<T>(r: &Receiver<T>) -> Option<T> {
    r.recv().ok()
}

/// Offers `msg` to the channel without blocking; the ghost half of the
/// result is the message that was offered.
pub(crate) fn try_send<T>(s: &Sender<T>, msg: T) -> (r: (TrySend<T>, Ghost<T>))
    ensures
        r.1@ == msg,
        r.0 matches TrySend::Full(m) ==> m == msg,
        r.0 matches TrySend::Disconnected(m) ==> m == msg,
{
    let ghost offered = msg;
    let outcome = try_send_raw(s, msg);
    (outcome, Ghost(offered))
}

} // verus!
