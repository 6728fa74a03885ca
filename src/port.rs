//! Ports: typed capabilities to hand out one end of a channel, and the
//! connector that wires an output port to an input port.

use crate::channel::{recv, send};
use crossbeam_channel::{Receiver, Sender};
use vstd::prelude::*;

verus! {

/// A source of `M`: hands out a receive-handle to drain it.
pub trait OutputPort<M> {
    fn output(&self) -> Receiver<M>;
}

/// A sink for `M`: hands out a send-handle to feed it.
pub trait InputPort<M> {
    fn input(&self) -> Sender<M>;
}

/// The wiring between an output port and an input port: what leaves the
/// output side is relayed, in order, to the input side, until either side
/// is gone.
#[verifier::reject_recursive_types(M)]
pub struct Link<M> {
    source: Receiver<M>,
    sink: Sender<M>,
    open: bool,
}

/// Connects `output` to `input`: takes a receive-handle from the one and a
/// send-handle from the other. Nothing is sent or received here; the
/// returned link relays messages once driven.
pub fn connect<M, O: OutputPort<M>, I: InputPort<M>>(output: &O, input: &I) -> (l: Link<M>)
    ensures
        l.is_open(),
{
    Link { source: output.output(), sink: input.input(), open: true }
}

/// How one relay step ended.
#[derive(Clone, Copy, Debug, PartialEq, Eq, Structural)]
pub enum Relay {
    /// The message reached the input side; the link stays open.
    Delivered,
    /// Every send-handle of the output side is gone; the link closes.
    SourceEnded,
    /// The input side is gone; the message is dropped and the link closes.
    SinkGone,
    /// The link had already closed; nothing was received or sent.
    Closed,
}

impl<M> Link<M> {
    /// Whether the link still relays messages.
    pub closed spec fn is_open(&self) -> bool {
        self.open
    }

    /// Whether the link still relays messages.
    pub fn open(&self) -> (r: bool)
        ensures
            r == self.is_open(),
    {
        self.open
    }

    /// Takes what one receive yielded, `None` for the end of the source,
    /// and hands a message on with a blocking send, so that no message is
    /// lost while the input side lives.
    pub fn deliver(&mut self, received: Option<M>) -> (r: Relay)
        ensures
            !old(self).is_open() ==> r == Relay::Closed,
            old(self).is_open() && received is None ==> r == Relay::SourceEnded,
            old(self).is_open() && received is Some ==> (r == Relay::Delivered || r
                == Relay::SinkGone),
            final(self).is_open() <==> r == Relay::Delivered,
    {
        if !self.open {
            return Relay::Closed;
        }
        match received {
            None => {
                self.open = false;
                Relay::SourceEnded
            },
            Some(m) => {
                if send(&self.sink, m).is_err() {
                    self.open = false;
                    Relay::SinkGone
                } else {
                    Relay::Delivered
                }
            },
        }
    }

    /// Blocks for the next message of the output side and relays it; a
    /// closed link does nothing.
    pub fn relay_one(&mut self) -> (r: Relay)
        ensures
            !old(self).is_open() ==> r == Relay::Closed,
            old(self).is_open() ==> r != Relay::Closed,
            final(self).is_open() <==> r == Relay::Delivered,
    {
        if !self.open {
            return Relay::Closed;
        }
        let received = recv(&self.source);
        self.deliver(received)
    }
}

} // verus!
