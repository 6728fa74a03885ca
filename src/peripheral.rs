//! The peripherals around the simulation core: the screen that a forwarding
//! worker drains, the keyboard source the core reads, and the input adapter
//! that turns host key events into keypad messages.

use crate::channel::{
    clone_display_sender, clone_keyboard_receiver, display_capacity, display_channel, display_ends,
    keyboard_capacity, keyboard_channel, keyboard_ends, same_display_channel, same_keyboard_channel, try_send,
    TrySend, CHANNEL_CAPACITY,
};
use crate::display::DisplayMessage;
use crate::keyboard::{layout_code, KeyMap, KeyboardMessage};
use crate::port::{InputPort, OutputPort};
use crate::worker::ForwardingWorker;
use crossbeam_channel::{Receiver, Sender};
use vstd::prelude::*;

verus! {

/// A display sink: what is sent to its input reaches the worker that the
/// screen was created with.
pub struct Screen {
    display_sender: Sender<DisplayMessage>,
}

impl Screen {
    /// The send-handle of the screen's channel.
    pub closed spec fn sender(&self) -> Sender<DisplayMessage> {
        self.display_sender
    }

    /// A screen and the forwarding worker that drains its channel, which
    /// buffers `CHANNEL_CAPACITY` messages. The worker is to run on a thread
    /// of its own.
    pub fn new() -> (r: (Screen, ForwardingWorker))
        ensures
            r.1.is_running(),
            display_capacity(r.0.sender()) == Some(CHANNEL_CAPACITY),
            display_ends(r.0.sender(), r.1.source()),
    {
        let (ds, dr) = display_channel(CHANNEL_CAPACITY);
        (Screen { display_sender: ds }, ForwardingWorker::new(dr))
    }
}

impl InputPort<DisplayMessage> for Screen {
    /// A send-handle of the screen's own channel.
    fn input(&self) -> (r: Sender<DisplayMessage>)
        ensures
            same_display_channel(r, self.sender()),
            display_capacity(r) == display_capacity(self.sender()),
            forall|rx: Receiver<DisplayMessage>|
                #[trigger] display_ends(self.sender(), rx) ==> display_ends(r, rx),
    {
        clone_display_sender(&self.display_sender)
    }
}

/// A source of keypad messages for the simulation core.
pub struct Keyboard {
    keyboard_receiver: Receiver<KeyboardMessage>,
}

impl Keyboard {
    /// The receive-handle the keyboard hands out clones of.
    pub closed spec fn receiver(&self) -> Receiver<KeyboardMessage> {
        self.keyboard_receiver
    }

    /// The keyboard that drains `keyboard_receiver`.
    pub fn new(keyboard_receiver: Receiver<KeyboardMessage>) -> (k: Self)
        ensures
            k.receiver() == keyboard_receiver,
    {
        Keyboard { keyboard_receiver }
    }
}

impl OutputPort<KeyboardMessage> for Keyboard {
    /// A receive-handle of the keyboard's own channel; every handle handed
    /// out competes for the same messages.
    fn output(&self) -> (r: Receiver<KeyboardMessage>)
        ensures
            same_keyboard_channel(r, self.receiver()),
            keyboard_capacity(r) == keyboard_capacity(self.receiver()),
            forall|tx: Sender<KeyboardMessage>|
                #[trigger] keyboard_ends(tx, self.receiver()) ==> keyboard_ends(tx, r),
    {
        clone_keyboard_receiver(&self.keyboard_receiver)
    }
}

/// The message for a key event whose label looked up to `code`: a press
/// gives `Down`, a release `Up`, and no code gives no message.
pub open spec fn key_event(code: Option<u8>, pressed: bool) -> Option<KeyboardMessage> {
    match code {
        None => None,
        Some(k) => Some(
            if pressed {
                KeyboardMessage::Down(k)
            } else {
                KeyboardMessage::Up(k)
            },
        ),
    }
}

/// Host key events in, keypad messages out: looks each label up and sends
/// without blocking, so a full channel drops the stale sample.
pub struct KeyInput {
    keyboard_sender: Sender<KeyboardMessage>,
    keyboard_map: KeyMap,
}

impl KeyInput {
    /// The key map in use.
    pub closed spec fn map(&self) -> KeyMap {
        self.keyboard_map
    }

    /// The send-handle the adapter offers messages to.
    pub closed spec fn sender(&self) -> Sender<KeyboardMessage> {
        self.keyboard_sender
    }

    /// An adapter with the standard key map, and the receive-handle of its
    /// channel, which buffers `CHANNEL_CAPACITY` messages.
    pub fn new() -> (r: (KeyInput, Receiver<KeyboardMessage>))
        ensures
            forall|c: char| #[trigger] r.0.map().code_of(c) == layout_code(c),
            keyboard_capacity(r.1) == Some(CHANNEL_CAPACITY),
            keyboard_ends(r.0.sender(), r.1),
    {
        let (ks, kr) = keyboard_channel(CHANNEL_CAPACITY);
        (KeyInput { keyboard_sender: ks, keyboard_map: KeyMap::new() }, kr)
    }

    /// The message for a key event on `label`, if the label is mapped.
    pub fn key_message(&self, label: &str, pressed: bool) -> (r: Option<KeyboardMessage>)
        ensures
            r == key_event(self.map().lookup(label@), pressed),
    {
        match self.keyboard_map.key(label) {
            None => None,
            Some(k) => {
                if pressed {
                    Some(KeyboardMessage::down(k))
                } else {
                    Some(KeyboardMessage::up(k))
                }
            },
        }
    }

    fn offer(&self, label: &str, pressed: bool) -> (r: (
        Option<TrySend<KeyboardMessage>>,
        Ghost<Option<KeyboardMessage>>,
    ))
        ensures
            r.1@ == key_event(self.map().lookup(label@), pressed),
            r.0 is None <==> r.1@ is None,
            r.0 matches Some(TrySend::Full(m)) ==> r.1@ == Some(m),
            r.0 matches Some(TrySend::Disconnected(m)) ==> r.1@ == Some(m),
    {
        match self.key_message(label, pressed) {
            None => (None, Ghost(None)),
            Some(msg) => {
                let (outcome, offered) = try_send(&self.keyboard_sender, msg);
                (Some(outcome), Ghost(Some(offered@)))
            },
        }
    }

    /// A key went down. An unmapped label offers nothing and yields `None`;
    /// otherwise exactly `Down` of its code is offered to the channel
    /// without blocking, and a message that did not fit comes back. The
    /// ghost half of the result is the message offered.
    pub fn key_down(&self, label: &str) -> (r: (
        Option<TrySend<KeyboardMessage>>,
        Ghost<Option<KeyboardMessage>>,
    ))
        ensures
            r.1@ == key_event(self.map().lookup(label@), true),
            r.0 is None <==> self.map().lookup(label@) is None,
            r.0 matches Some(TrySend::Full(m)) ==> m == KeyboardMessage::Down(
                self.map().lookup(label@)->0,
            ),
            r.0 matches Some(TrySend::Disconnected(m)) ==> m == KeyboardMessage::Down(
                self.map().lookup(label@)->0,
            ),
    {
        self.offer(label, true)
    }

    /// A key went up. An unmapped label offers nothing and yields `None`;
    /// otherwise exactly `Up` of its code is offered to the channel without
    /// blocking, and a message that did not fit comes back. The ghost half of
    /// the result is the message offered.
    pub fn key_up(&self, label: &str) -> (r: (
        Option<TrySend<KeyboardMessage>>,
        Ghost<Option<KeyboardMessage>>,
    ))
        ensures
            r.1@ == key_event(self.map().lookup(label@), false),
            r.0 is None <==> self.map().lookup(label@) is None,
            r.0 matches Some(TrySend::Full(m)) ==> m == KeyboardMessage::Up(
                self.map().lookup(label@)->0,
            ),
            r.0 matches Some(TrySend::Disconnected(m)) ==> m == KeyboardMessage::Up(
                self.map().lookup(label@)->0,
            ),
    {
        self.offer(label, false)
    }
}

} // verus!
