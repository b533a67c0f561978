//! The control protocol spoken with the input-injection companion inside
//! the display server.
//!
//! Every message is one fixed-size record of three machine words: a type tag
//! followed by up to two operands. Only keyboard creation is answered; key
//! presses, key releases and device removal are fire-and-forget.
use vstd::prelude::*;

verus! {

/// Type tag of an empty message.
pub const MT_NONE: u32 = 0;

/// Type tag of a request to create a keyboard.
pub const MT_CREATE_KEYBOARD: u32 = 1;

/// Type tag of the reply to a keyboard creation.
pub const MT_CREATE_KEYBOARD_REPLY: u32 = 2;

/// Type tag of a key press.
pub const MT_KEY_PRESS: u32 = 3;

/// Type tag of a key release.
pub const MT_KEY_RELEASE: u32 = 4;

/// Type tag of a device removal.
pub const MT_REMOVE_DEVICE: u32 = 5;

/// Number of words in the wire form of a message.
pub const MESSAGE_WORDS: usize = 3;

/// A message of the injection channel.
#[derive(Clone, Copy, Debug, PartialEq, Eq, Structural)]
pub enum Message {
    /// Asks the companion for a new virtual keyboard.
    CreateKeyboard,
    /// Carries the id of the keyboard just created.
    CreateKeyboardReply { id: u32 },
    /// Presses the key with scan code `key` on device `id`.
    KeyPress { id: u32, key: u32 },
    /// Releases the key with scan code `key` on device `id`.
    KeyRelease { id: u32, key: u32 },
    /// Removes device `id`.
    RemoveDevice { id: u32 },
}

impl Message {
    /// The wire form: the type tag, then the operands, then zeros.
    pub open spec fn spec_encode(self) -> Seq<u32> {
        match self {
            Message::CreateKeyboard => seq![MT_CREATE_KEYBOARD, 0u32, 0u32],
            Message::CreateKeyboardReply { id } => seq![MT_CREATE_KEYBOARD_REPLY, id, 0u32],
            Message::KeyPress { id, key } => seq![MT_KEY_PRESS, id, key],
            Message::KeyRelease { id, key } => seq![MT_KEY_RELEASE, id, key],
            Message::RemoveDevice { id } => seq![MT_REMOVE_DEVICE, id, 0u32],
        }
    }

    /// The message a wire record stands for, if its tag names one. Words
    /// behind the operands of the tagged message are not looked at.
    pub open spec fn spec_decode(words: Seq<u32>) -> Option<Message>
        recommends
            words.len() == MESSAGE_WORDS,
    {
        if words[0] == MT_CREATE_KEYBOARD {
            Some(Message::CreateKeyboard)
        } else if words[0] == MT_CREATE_KEYBOARD_REPLY {
            Some(Message::CreateKeyboardReply { id: words[1] })
        } else if words[0] == MT_KEY_PRESS {
            Some(Message::KeyPress { id: words[1], key: words[2] })
        } else if words[0] == MT_KEY_RELEASE {
            Some(Message::KeyRelease { id: words[1], key: words[2] })
        } else if words[0] == MT_REMOVE_DEVICE {
            Some(Message::RemoveDevice { id: words[1] })
        } else {
            None
        }
    }

    /// Whether the companion answers this message.
    pub open spec fn spec_expects_reply(self) -> bool {
        self is CreateKeyboard
    }

    /// Encodes the message into its wire record.
    pub fn encode(&self) -> (words: [u32; 3])
        ensures
            words@ == self.spec_encode(),
    {
        let words: [u32; 3] = match *self {
            Message::CreateKeyboard => [MT_CREATE_KEYBOARD, 0, 0],
            Message::CreateKeyboardReply { id } => [MT_CREATE_KEYBOARD_REPLY, id, 0],
            Message::KeyPress { id, key } => [MT_KEY_PRESS, id, key],
            Message::KeyRelease { id, key } => [MT_KEY_RELEASE, id, key],
            Message::RemoveDevice { id } => [MT_REMOVE_DEVICE, id, 0],
        };
        assert(words@ =~= self.spec_encode());
        words
    }

    /// Decodes a wire record. Returns `None` exactly when the tag is not
    /// that of a message.
    pub fn decode(words: &[u32; 3]) -> (message: Option<Message>)
        ensures
            message == Message::spec_decode(words@),
    {
        let tag: u32 = words[0];
        if tag == MT_CREATE_KEYBOARD {
            Some(Message::CreateKeyboard)
        } else if tag == MT_CREATE_KEYBOARD_REPLY {
            Some(Message::CreateKeyboardReply { id: words[1] })
        } else if tag == MT_KEY_PRESS {
            Some(Message::KeyPress { id: words[1], key: words[2] })
        } else if tag == MT_KEY_RELEASE {
            Some(Message::KeyRelease { id: words[1], key: words[2] })
        } else if tag == MT_REMOVE_DEVICE {
            Some(Message::RemoveDevice { id: words[1] })
        } else {
            None
        }
    }

    /// Returns whether the sender must wait for a reply. Only keyboard
    /// creation is a synchronous exchange.
    pub fn expects_reply(&self) -> (expects: bool)
        ensures
            expects == self.spec_expects_reply(),
    {
        match self {
            Message::CreateKeyboard => true,
            _ => false,
        }
    }

    /// Decoding undoes encoding: what one end sends is what the other reads.
    pub proof fn lemma_decode_encode(message: Message)
        ensures
            message.spec_encode().len() == MESSAGE_WORDS,
            Message::spec_decode(message.spec_encode()) == Some(message),
    {
    }
}

} // verus!
