//! Virtual input devices and the keys held on them.
//!
//! A key is pressed on the wire once, however many holders ask for it, and
//! released once, when the last holder lets go. Holding is explicit: pressing
//! hands out an [`XPressedKey`], and giving that handle back to
//! [`XKeyboard::release`] is the only way to release the key.
use crate::injection::Message;
use crate::keyboard::{Key, MAX_KEY_CODE};
use vstd::prelude::*;

verus! {

/// The protocol id of an input device.
#[derive(Clone, Copy, Debug, PartialEq, Eq, Structural)]
pub struct XDeviceId {
    pub id: u16,
}

impl XDeviceId {
    /// Whether an event source that reports `xinput_id` is this device.
    /// A source without an input-extension id is never this device.
    pub fn is(&self, xinput_id: Option<u32>) -> (same: bool)
        ensures
            same == (xinput_id == Some(self.id as u32)),
    {
        match xinput_id {
            Some(id) => id == self.id as u32,
            None => false,
        }
    }
}

/// Anything with a device id.
pub trait Device {
    /// The protocol id of the device.
    spec fn device(&self) -> u16;

    /// Returns the id under which events of this device arrive.
    fn id(&self) -> (id: XDeviceId)
        ensures
            id.id == self.device(),
    ;
}

/// What a keyboard is, seen from outside: its id and, for every key, the
/// number of holders that currently keep it pressed.
pub struct KeyboardModel {
    pub device: u16,
    pub holders: Map<Key, nat>,
}

impl KeyboardModel {
    /// A keyboard on which no key is held.
    pub open spec fn idle(device: u16) -> KeyboardModel {
        KeyboardModel { device, holders: Map::total(|key: Key| 0nat) }
    }

    /// Whether the model accounts for every key.
    pub open spec fn wf(self) -> bool {
        forall|key: Key| #[trigger] self.holders.dom().contains(key)
    }

    /// Whether no key is held.
    pub open spec fn is_idle(self) -> bool {
        forall|key: Key| #[trigger] self.holders[key] == 0
    }

    /// The press message of `key` on this keyboard.
    pub open spec fn press_message(self, key: Key) -> Message {
        Message::KeyPress { id: self.device as u32, key: key.spec_code() }
    }

    /// The release message of `key` on this keyboard.
    pub open spec fn release_message(self, key: Key) -> Message {
        Message::KeyRelease { id: self.device as u32, key: key.spec_code() }
    }

    /// Pressing and releasing keep every key accounted for.
    pub proof fn lemma_steps_keep_wf(self, key: Key)
        requires
            self.wf(),
        ensures
            self.press(key).0.wf(),
            self.release(key).0.wf(),
            KeyboardModel::idle(self.device).wf(),
    {
    }

    /// One more holder of `key`. A message goes out only for the first.
    pub open spec fn press(self, key: Key) -> (KeyboardModel, Option<Message>) {
        (
            KeyboardModel { holders: self.holders.insert(key, self.holders[key] + 1), ..self },
            if self.holders[key] == 0 {
                Some(self.press_message(key))
            } else {
                None
            },
        )
    }

    /// One holder of `key` fewer. A message goes out only for the last, and
    /// nothing happens if nobody held the key.
    pub open spec fn release(self, key: Key) -> (KeyboardModel, Option<Message>) {
        if self.holders[key] == 0 {
            (self, None)
        } else {
            (
                KeyboardModel {
                    holders: self.holders.insert(key, (self.holders[key] - 1) as nat),
                    ..self
                },
                if self.holders[key] == 1 {
                    Some(self.release_message(key))
                } else {
                    None
                },
            )
        }
    }
}

/// One step of a test body on a keyboard: a holder arrives or leaves.
pub enum KeyOp {
    Press(Key),
    Release(Key),
}

impl KeyboardModel {
    /// The keyboard after `op`, and the message that `op` puts on the wire.
    pub open spec fn step(self, op: KeyOp) -> (KeyboardModel, Option<Message>) {
        match op {
            KeyOp::Press(key) => self.press(key),
            KeyOp::Release(key) => self.release(key),
        }
    }

    /// The messages that `ops`, done in order, put on the wire, in order.
    pub open spec fn trace(self, ops: Seq<KeyOp>) -> Seq<Message>
        decreases ops.len(),
    {
        if ops.len() == 0 {
            Seq::empty()
        } else {
            let (next, message) = self.step(ops[0]);
            let rest = next.trace(ops.skip(1));
            match message {
                Some(m) => seq![m] + rest,
                None => rest,
            }
        }
    }

    /// Pressing is idempotent while the key is held: of two presses in a row
    /// only the first sends a press, and the one release is sent only when
    /// the second of the two holders has let go. Afterwards the key is free
    /// again and no other key was touched.
    pub proof fn lemma_press_twice_release_once(self, key: Key)
        requires
            self.wf(),
            self.holders[key] == 0,
        ensures
            ({
                let (m1, first_press) = self.press(key);
                let (m2, second_press) = m1.press(key);
                let (m3, first_release) = m2.release(key);
                let (m4, second_release) = m3.release(key);
                &&& first_press == Some(self.press_message(key))
                &&& second_press.is_none()
                &&& first_release.is_none()
                &&& second_release == Some(self.release_message(key))
                &&& m4 == self
            }),
    {
        let (m1, _) = self.press(key);
        let (m2, _) = m1.press(key);
        let (m3, _) = m2.release(key);
        let (m4, _) = m3.release(key);
        assert(self.holders.dom().contains(key));
        assert(m4.holders =~= self.holders);
    }

    /// A release is sent exactly when the last holder lets go: with `n`
    /// holders, a release message appears if and only if `n` is one.
    pub proof fn lemma_release_only_by_last_holder(self, key: Key)
        requires
            self.wf(),
        ensures
            self.release(key).1.is_some() <==> self.holders[key] == 1,
            self.press(key).1.is_some() <==> self.holders[key] == 0,
    {
    }

    /// Nested holds of two free keys: press `outer`, press `inner`, let go
    /// of `inner`, let go of `outer`. The wire sees the same four events in
    /// the same order.
    pub proof fn lemma_nested_order(self, outer: Key, inner: Key)
        requires
            self.wf(),
            outer != inner,
            self.holders[outer] == 0,
            self.holders[inner] == 0,
        ensures
            self.trace(
                seq![
                    KeyOp::Press(outer),
                    KeyOp::Press(inner),
                    KeyOp::Release(inner),
                    KeyOp::Release(outer),
                ],
            ) == seq![
                self.press_message(outer),
                self.press_message(inner),
                self.release_message(inner),
                self.release_message(outer),
            ],
    {
        let ops = seq![
            KeyOp::Press(outer),
            KeyOp::Press(inner),
            KeyOp::Release(inner),
            KeyOp::Release(outer),
        ];
        self.lemma_trace_of_four(ops);
    }

    /// Overlapping holds of two free keys: press `first`, press `second`,
    /// let go of `first`, let go of `second`. The wire sees the same four
    /// events in the same order.
    pub proof fn lemma_overlapping_order(self, first: Key, second: Key)
        requires
            self.wf(),
            first != second,
            self.holders[first] == 0,
            self.holders[second] == 0,
        ensures
            self.trace(
                seq![
                    KeyOp::Press(first),
                    KeyOp::Press(second),
                    KeyOp::Release(first),
                    KeyOp::Release(second),
                ],
            ) == seq![
                self.press_message(first),
                self.press_message(second),
                self.release_message(first),
                self.release_message(second),
            ],
    {
        let ops = seq![
            KeyOp::Press(first),
            KeyOp::Press(second),
            KeyOp::Release(first),
            KeyOp::Release(second),
        ];
        self.lemma_trace_of_four(ops);
    }

    /// The trace of four steps, written out.
    proof fn lemma_trace_of_four(self, ops: Seq<KeyOp>)
        requires
            ops.len() == 4,
        ensures
            ({
                let (m1, a) = self.step(ops[0]);
                let (m2, b) = m1.step(ops[1]);
                let (m3, c) = m2.step(ops[2]);
                let (m4, d) = m3.step(ops[3]);
                self.trace(ops) == Self::sent(a) + Self::sent(b) + Self::sent(c) + Self::sent(d)
            }),
    {
        let (m1, a) = self.step(ops[0]);
        let (m2, b) = m1.step(ops[1]);
        let (m3, c) = m2.step(ops[2]);
        let (m4, d) = m3.step(ops[3]);
        let t1 = ops.skip(1);
        let t2 = t1.skip(1);
        let t3 = t2.skip(1);
        let t4 = t3.skip(1);
        assert(t1[0] == ops[1] && t2[0] == ops[2] && t3[0] == ops[3]);
        assert(t4.len() == 0);
        assert(m4.trace(t4) == Seq::<Message>::empty());
        assert(m3.trace(t3) =~= Self::sent(d));
        assert(m2.trace(t2) =~= Self::sent(c) + Self::sent(d));
        assert(m1.trace(t1) =~= Self::sent(b) + Self::sent(c) + Self::sent(d));
        assert(self.trace(ops) =~= Self::sent(a) + Self::sent(b) + Self::sent(c) + Self::sent(d));
    }

    /// What one step puts on the wire, as a sequence of zero or one message.
    pub open spec fn sent(message: Option<Message>) -> Seq<Message> {
        match message {
            Some(m) => seq![m],
            None => Seq::empty(),
        }
    }
}

/// Proof that a key is held. Only a press creates one, and it cannot be
/// copied.
#[derive(Debug, PartialEq, Eq)]
pub struct XPressedKey {
    device: u16,
    key: Key,
}

/// Marks the handles that keep a key pressed.
pub trait PressedKey {

}

impl PressedKey for XPressedKey {

}

impl XPressedKey {
    /// The key this handle keeps pressed.
    pub closed spec fn spec_key(&self) -> Key {
        self.key
    }

    /// The keyboard on which the key is pressed.
    pub closed spec fn spec_device(&self) -> u16 {
        self.device
    }

    /// Returns the key this handle keeps pressed.
    pub fn key(&self) -> (key: Key)
        ensures
            key == self.spec_key(),
    {
        self.key
    }

    /// Returns the id of the keyboard on which the key is pressed.
    pub fn device(&self) -> (device: u16)
        ensures
            device == self.spec_device(),
    {
        self.device
    }
}

/// A device that can press keys.
pub trait Keyboard: Device {
    /// The keyboard as its callers may reason about it.
    spec fn model(&self) -> KeyboardModel;

    /// Presses `key`, or joins the holders of an existing press.
    ///
    /// The returned message, if any, is to be sent on the injection channel.
    /// While the key is held, further presses send nothing.
    fn press(&mut self, key: Key) -> (pressed: (XPressedKey, Option<Message>))
        requires
            old(self).model().holders[key] < u64::MAX,
        ensures
            (final(self).model(), pressed.1) == old(self).model().press(key),
            pressed.0.spec_key() == key,
            pressed.0.spec_device() == old(self).model().device,
    ;
}

/// A device that moves a pointer.
pub trait Mouse: Device {

}

/// A virtual keyboard created through the injection channel.
pub struct XKeyboard {
    id: u16,
    /// Number of holders per scan code.
    held: Vec<u64>,
}

impl XKeyboard {
    #[verifier::type_invariant]
    closed spec fn well_formed(&self) -> bool {
        &&& self.held@.len() == MAX_KEY_CODE + 1
        &&& forall|slot: int|
            0 <= slot <= MAX_KEY_CODE && !Self::is_key_code(slot) ==> #[trigger] self.held@[slot]
                == 0
    }

    /// Whether some key has scan code `slot`.
    closed spec fn is_key_code(slot: int) -> bool {
        exists|key: Key| #[trigger] key.spec_code() == slot
    }

    /// The keyboard as a [`KeyboardModel`].
    pub closed spec fn spec_model(&self) -> KeyboardModel {
        KeyboardModel {
            device: self.id,
            holders: Map::total(|key: Key| self.held@[key.spec_code() as int] as nat),
        }
    }

    /// The model of a keyboard accounts for every key.
    pub proof fn lemma_model_wf(&self)
        ensures
            self.model().wf(),
    {
    }

    /// A keyboard with protocol id `id` on which no key is held.
    pub fn new(id: u16) -> (keyboard: XKeyboard)
        ensures
            keyboard.model() == KeyboardModel::idle(id),
    {
        let mut held: Vec<u64> = Vec::new();
        let mut i: u32 = 0;
        while i <= MAX_KEY_CODE
            invariant
                i <= MAX_KEY_CODE + 1,
                held@.len() == i,
                forall|j: int| 0 <= j < i ==> held@[j] == 0,
            decreases MAX_KEY_CODE + 1 - i,
        {
            held.push(0);
            i = i + 1;
        }
        let keyboard = XKeyboard { id, held };
        proof {
            assert forall|key: Key| #[trigger]
                keyboard.spec_model().holders[key] == KeyboardModel::idle(id).holders[key] by {
                Key::lemma_code_bounded(key);
            }
            assert(keyboard.spec_model().holders =~= KeyboardModel::idle(id).holders);
        }
        keyboard
    }

    /// Number of holders of `key`.
    pub fn holders(&self, key: Key) -> (count: u64)
        ensures
            count == self.model().holders[key],
    {
        proof {
            use_type_invariant(self);
        }
        self.held[key.code() as usize]
    }

    /// Whether no key is held.
    pub fn is_idle(&self) -> (idle: bool)
        ensures
            idle == self.model().is_idle(),
    {
        proof {
            use_type_invariant(self);
        }
        let mut i: usize = 0;
        while i < self.held.len()
            invariant
                i <= self.held@.len(),
                self.well_formed(),
                forall|j: int| 0 <= j < i ==> self.held@[j] == 0,
            decreases self.held@.len() - i,
        {
            if self.held[i] != 0 {
                proof {
                    // Slots without a key never leave zero, so this one
                    // belongs to a key, and that key is held.
                    assert(Self::is_key_code(i as int));
                    let key = choose|key: Key| #[trigger] key.spec_code() == i as int;
                    assert(self.spec_model().holders[key] != 0);
                }
                return false;
            }
            i = i + 1;
        }
        proof {
            assert forall|key: Key| #[trigger] self.spec_model().holders[key] == 0 by {
                Key::lemma_code_bounded(key);
            }
        }
        true
    }

    /// Lets go of the key that `handle` holds.
    ///
    /// The returned message, if any, is to be sent on the injection channel:
    /// it is the release, and it comes only when the last holder lets go. A
    /// handle of another keyboard changes nothing here.
    pub fn release(&mut self, handle: XPressedKey) -> (message: Option<Message>)
        ensures
            (final(self).model(), message) == if handle.spec_device() == old(self).model().device {
                old(self).model().release(handle.spec_key())
            } else {
                (old(self).model(), None)
            },
    {
        proof {
            use_type_invariant(&*self);
        }
        if handle.device != self.id {
            return None;
        }
        let key = handle.key;
        let code = key.code();
        let count: u64 = self.held[code as usize];
        if count == 0 {
            return None;
        }
        self.held[code as usize] = count - 1;
        proof {
            let before = old(self).spec_model();
            assert forall|other: Key| #[trigger]
                self.spec_model().holders[other] == before.release(key).0.holders[other] by {
                if other != key {
                    if other.spec_code() == key.spec_code() {
                        Key::lemma_code_injective(other, key);
                    }
                }
            }
            assert(self.spec_model().holders =~= before.release(key).0.holders);
        }
        if count == 1 {
            Some(Message::KeyRelease { id: self.id as u32, key: code })
        } else {
            None
        }
    }

    /// Tears the keyboard down.
    ///
    /// A keyboard lives as long as any of its keys is held: while one is, the
    /// keyboard is handed back untouched. Otherwise the removal message for
    /// the injection channel is returned, and, the keyboard being consumed,
    /// it cannot be sent twice.
    pub fn remove(self) -> (outcome: Result<Message, XKeyboard>)
        ensures
            self.model().is_idle() ==> outcome == Ok::<Message, XKeyboard>(
                Message::RemoveDevice { id: self.model().device as u32 },
            ),
            !self.model().is_idle() ==> outcome == Err::<Message, XKeyboard>(self),
    {
        if self.is_idle() {
            Ok(Message::RemoveDevice { id: self.id as u32 })
        } else {
            Err(self)
        }
    }

}

impl Device for XKeyboard {
    open spec fn device(&self) -> u16 {
        self.spec_model().device
    }

    fn id(&self) -> (id: XDeviceId) {
        XDeviceId { id: self.id }
    }
}

impl Keyboard for XKeyboard {
    open spec fn model(&self) -> KeyboardModel {
        self.spec_model()
    }

    fn press(&mut self, key: Key) -> (pressed: (XPressedKey, Option<Message>)) {
        proof {
            use_type_invariant(&*self);
        }
        let code = key.code();
        let count: u64 = self.held[code as usize];
        self.held[code as usize] = count + 1;
        proof {
            let before = old(self).spec_model();
            assert forall|other: Key| #[trigger]
                self.spec_model().holders[other] == before.press(key).0.holders[other] by {
                if other != key {
                    if other.spec_code() == key.spec_code() {
                        Key::lemma_code_injective(other, key);
                    }
                }
            }
            assert(self.spec_model().holders =~= before.press(key).0.holders);
        }
        let message = if count == 0 {
            Some(Message::KeyPress { id: self.id as u32, key: code })
        } else {
            None
        };
        (XPressedKey { device: self.id, key }, message)
    }
}

} // verus!
