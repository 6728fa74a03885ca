//! The forwarding worker: drains one display channel and turns each message
//! into an effect for a rendering surface. The thread that runs it performs
//! the effects; the worker decides what they are and when to stop.

use crate::channel::recv;
use crate::display::{render, renders, DisplayMessage, RenderEffect};
use crossbeam_channel::Receiver;
use vstd::prelude::*;

verus! {

/// One step of a worker: a running worker that receives a message renders
/// it and keeps running; the end of the stream stops it; a stopped worker
/// emits nothing and stays stopped.
pub open spec fn worker_step(
    running: bool,
    received: Option<DisplayMessage>,
    now_running: bool,
    effect: Option<RenderEffect>,
) -> bool {
    if !running {
        !now_running && effect is None
    } else {
        match received {
            None => !now_running && effect is None,
            Some(m) => now_running && (effect matches Some(e) && renders(m, e)),
        }
    }
}

/// `states[i]` is whether the worker ran before it was handed
/// `received[i]`, and `effects[i]` is what it emitted for it.
pub open spec fn worker_trace(
    states: Seq<bool>,
    received: Seq<Option<DisplayMessage>>,
    effects: Seq<Option<RenderEffect>>,
) -> bool {
    &&& states.len() == received.len() + 1
    &&& effects.len() == received.len()
    &&& forall|i: int|
        0 <= i < received.len() ==> #[trigger] worker_step(
            states[i],
            received[i],
            states[i + 1],
            effects[i],
        )
}

/// No end of stream among the first `j + 1` receives.
pub open spec fn open_through(received: Seq<Option<DisplayMessage>>, j: int) -> bool {
    forall|i: int| 0 <= i <= j ==> #[trigger] received[i] is Some
}

/// A worker that starts running forwards its messages one effect each, in
/// the order they arrived, for as long as the stream lasts; once the stream
/// has ended it emits nothing more and never runs again.
pub proof fn lemma_forwarding_order(
    states: Seq<bool>,
    received: Seq<Option<DisplayMessage>>,
    effects: Seq<Option<RenderEffect>>,
)
    requires
        worker_trace(states, received, effects),
        states[0],
    ensures
        forall|j: int|
            0 <= j < received.len() ==> (states[j + 1] <==> #[trigger] open_through(received, j)),
        forall|j: int|
            0 <= j < received.len() ==> (#[trigger] effects[j] is Some <==> open_through(
                received,
                j,
            )),
        forall|j: int|
            0 <= j < received.len() && #[trigger] effects[j] is Some ==> renders(
                received[j]->0,
                effects[j]->0,
            ),
{
    assert forall|j: int| 0 <= j < received.len() implies (states[j + 1] <==> #[trigger] open_through(
        received,
        j,
    )) by {
        lemma_state_after(states, received, effects, j);
    }
    assert forall|j: int| 0 <= j < received.len() implies (#[trigger] effects[j] is Some
        <==> open_through(received, j)) by {
        assert(worker_step(states[j], received[j], states[j + 1], effects[j]));
        lemma_state_after(states, received, effects, j);
        if j > 0 {
            lemma_state_after(states, received, effects, j - 1);
        }
    }
    assert forall|j: int| 0 <= j < received.len() && #[trigger] effects[j] is Some implies renders(
        received[j]->0,
        effects[j]->0,
    ) by {
        assert(worker_step(states[j], received[j], states[j + 1], effects[j]));
    }
}

proof fn lemma_state_after(
    states: Seq<bool>,
    received: Seq<Option<DisplayMessage>>,
    effects: Seq<Option<RenderEffect>>,
    j: int,
)
    requires
        worker_trace(states, received, effects),
        states[0],
        0 <= j < received.len(),
    ensures
        states[j + 1] <==> open_through(received, j),
    decreases j,
{
    assert(worker_step(states[j], received[j], states[j + 1], effects[j]));
    if j > 0 {
        lemma_state_after(states, received, effects, j - 1);
        if open_through(received, j - 1) && received[j] is Some {
            assert forall|i: int| 0 <= i <= j implies #[trigger] received[i] is Some by {
                if i < j {
                    assert(open_through(received, j - 1));
                }
            }
        }
    }
}

/// A worker bound to the receive-handle of a display channel.
pub struct ForwardingWorker {
    source: Receiver<DisplayMessage>,
    running: bool,
}

impl ForwardingWorker {
    /// Whether the worker still forwards messages.
    pub closed spec fn is_running(&self) -> bool {
        self.running
    }

    /// The receive-handle the worker drains.
    pub closed spec fn source(&self) -> Receiver<DisplayMessage> {
        self.source
    }

    /// A running worker that drains `source`.
    pub fn new(source: Receiver<DisplayMessage>) -> (w: Self)
        ensures
            w.is_running(),
            w.source() == source,
    {
        ForwardingWorker { source, running: true }
    }

    /// Whether the worker still forwards messages.
    pub fn running(&self) -> (r: bool)
        ensures
            r == self.is_running(),
    {
        self.running
    }

    /// Takes what one receive yielded, `None` for the end of the stream, and
    /// returns the effect to perform, if any.
    pub fn on_receive(&mut self, received: Option<DisplayMessage>) -> (r: Option<RenderEffect>)
        ensures
            worker_step(old(self).is_running(), received, final(self).is_running(), r),
            final(self).source() == old(self).source(),
    {
        if !self.running {
            return None;
        }
        match received {
            None => {
                self.running = false;
                None
            },
            Some(m) => Some(render(m)),
        }
    }

    /// Blocks for the next display message and returns the effect that
    /// renders it; `None` once the stream has ended or the worker stopped,
    /// and then for good.
    pub fn next_effect(&mut self) -> (r: Option<RenderEffect>)
        ensures
            !old(self).is_running() ==> r is None && !final(self).is_running(),
            r is None <==> !final(self).is_running(),
            exists|received: Option<DisplayMessage>|
                worker_step(old(self).is_running(), received, final(self).is_running(), r),
            final(self).source() == old(self).source(),
    {
        if !self.running {
            assert(worker_step(false, None, false, None));
            return None;
        }
        let received = recv(&self.source);
        let r = self.on_receive(received);
        assert(worker_step(old(self).is_running(), received, self.is_running(), r));
        r
    }

    /// Stops the worker, as when the rendering surface is gone; it then
    /// emits nothing more.
    pub fn stop(&mut self)
        ensures
            !final(self).is_running(),
            final(self).source() == old(self).source(),
    {
        self.running = false;
    }
}

} // verus!
