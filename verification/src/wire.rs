//! The requests this crate asks the wire connection to issue, the numbers of
//! the display protocol they are built from, and what a rejected request
//! means for the caller.
//!
//! Nothing here touches a socket. A [`Request`] is a value; whoever owns the
//! connection sends it in checked form and consults [`Request::on_failure`]
//! when the server rejects it.
use vstd::prelude::*;

verus! {

/// Event code of a create notification.
pub const CREATE_NOTIFY: u8 = 16;

/// Event code of a destroy notification.
pub const DESTROY_NOTIFY: u8 = 17;

/// Event code of an unmap notification.
pub const UNMAP_NOTIFY: u8 = 18;

/// Event code of a map notification.
pub const MAP_NOTIFY: u8 = 19;

/// Event code of a map request.
pub const MAP_REQUEST: u8 = 20;

/// Event code of a reparent notification.
pub const REPARENT_NOTIFY: u8 = 21;

/// Event code of a configure notification.
pub const CONFIGURE_NOTIFY: u8 = 22;

/// Event code of a configure request.
pub const CONFIGURE_REQUEST: u8 = 23;

/// Event code of a property notification.
pub const PROPERTY_NOTIFY: u8 = 28;

/// Event code of a client message.
pub const CLIENT_MESSAGE: u8 = 33;

/// Event code of a keyboard-mapping notification.
pub const MAPPING_NOTIFY: u8 = 34;

/// Event-mask bit: structural changes of children are reported.
pub const EVENT_MASK_SUBSTRUCTURE_NOTIFY: u32 = 0x0008_0000;

/// Event-mask bit: map and configure requests of children are redirected.
pub const EVENT_MASK_SUBSTRUCTURE_REDIRECT: u32 = 0x0010_0000;

/// Event-mask bit: property changes are reported.
pub const EVENT_MASK_PROPERTY_CHANGE: u32 = 0x0040_0000;

/// The mask the window manager selects on the root window.
pub const WM_EVENT_MASK: u32 = 0x0058_0000;

/// Configure-window mask bit for the x coordinate.
pub const CONFIG_WINDOW_X: u16 = 1;

/// Configure-window mask bit for the y coordinate.
pub const CONFIG_WINDOW_Y: u16 = 2;

/// Configure-window mask bit for the width.
pub const CONFIG_WINDOW_WIDTH: u16 = 4;

/// Configure-window mask bit for the height.
pub const CONFIG_WINDOW_HEIGHT: u16 = 8;

/// Configure-window mask bit for the border width.
pub const CONFIG_WINDOW_BORDER_WIDTH: u16 = 16;

/// Configure-window mask bit for the sibling.
pub const CONFIG_WINDOW_SIBLING: u16 = 32;

/// Configure-window mask bit for the stacking mode.
pub const CONFIG_WINDOW_STACK_MODE: u16 = 64;

/// The predefined atom `ATOM`.
pub const ATOM_ATOM: u32 = 4;

/// The predefined atom `CARDINAL`.
pub const ATOM_CARDINAL: u32 = 6;

/// The predefined atom `STRING`.
pub const ATOM_STRING: u32 = 31;

/// The predefined atom `WM_HINTS`.
pub const ATOM_WM_HINTS: u32 = 35;

/// The predefined atom `WM_SIZE_HINTS`.
pub const ATOM_WM_SIZE_HINTS: u32 = 41;

/// Hierarchy-change type that removes a master device.
pub const HIERARCHY_REMOVE_MASTER: u16 = 2;

/// Hierarchy-change type that attaches a slave to a master.
pub const HIERARCHY_ATTACH_SLAVE: u16 = 3;

/// Return mode of a removed master: its slaves are left floating.
pub const CHANGE_MODE_FLOAT: u8 = 2;

/// Device type of a master pointer in a device query.
pub const DEVICE_TYPE_MASTER_POINTER: u16 = 1;

/// The two's-complement encoding of a signed 32-bit value as the unsigned
/// word that travels in a request's value list.
pub open spec fn spec_wire_word(v: i32) -> u32 {
    if v >= 0 {
        v as u32
    } else {
        (v + 0x1_0000_0000) as u32
    }
}

/// Encodes a signed value as a value-list word.
pub fn wire_word(v: i32) -> (w: u32)
    ensures
        w == spec_wire_word(v),
{
    if v >= 0 {
        v as u32
    } else {
        (v as i64 + 0x1_0000_0000) as u32
    }
}

/// A 32-bit-format client message: its type atom and five data words.
#[derive(Clone, Copy, Debug, PartialEq, Eq)]
pub struct ClientMessage {
    /// The window the message is about.
    pub window: u32,
    /// The atom naming the kind of message.
    pub message_type: u32,
    /// The payload.
    pub data: [u32; 5],
}

/// Which keymap a device is given: the standard one, which holds both the
/// Qwerty and the Azerty group, or the one with swapped modifier keys.
#[derive(Clone, Copy, Debug, PartialEq, Eq, Structural)]
pub enum Keymap {
    Standard,
    Swapped,
}

/// The value list of a configure-window request, one field for each mask
/// bit. Only the fields whose bit is set in the mask are sent.
#[derive(Clone, Copy, Debug, PartialEq, Eq, Structural)]
pub struct ConfigureValues {
    pub x: i32,
    pub y: i32,
    pub width: u32,
    pub height: u32,
    pub border_width: u32,
    pub sibling: u32,
    pub stack_mode: u32,
}

/// `seq![word]` if `bit` is set in `mask`, the empty sequence otherwise.
pub open spec fn spec_selected(mask: u16, bit: u16, word: u32) -> Seq<u32> {
    if mask & bit != 0 {
        seq![word]
    } else {
        Seq::empty()
    }
}

impl ConfigureValues {
    /// A value list of zeros.
    pub open spec fn spec_zero() -> ConfigureValues {
        ConfigureValues {
            x: 0,
            y: 0,
            width: 0,
            height: 0,
            border_width: 0,
            sibling: 0,
            stack_mode: 0,
        }
    }

    /// The words that go on the wire for `mask`: one for each bit set among
    /// the seven the protocol defines, lowest bit first.
    pub open spec fn spec_pack(self, mask: u16) -> Seq<u32> {
        spec_selected(mask, CONFIG_WINDOW_X, spec_wire_word(self.x)) + spec_selected(
            mask,
            CONFIG_WINDOW_Y,
            spec_wire_word(self.y),
        ) + spec_selected(mask, CONFIG_WINDOW_WIDTH, self.width) + spec_selected(
            mask,
            CONFIG_WINDOW_HEIGHT,
            self.height,
        ) + spec_selected(mask, CONFIG_WINDOW_BORDER_WIDTH, self.border_width) + spec_selected(
            mask,
            CONFIG_WINDOW_SIBLING,
            self.sibling,
        ) + spec_selected(mask, CONFIG_WINDOW_STACK_MODE, self.stack_mode)
    }

    /// Returns a value list of zeros.
    pub fn zero() -> (values: ConfigureValues)
        ensures
            values == Self::spec_zero(),
    {
        ConfigureValues {
            x: 0,
            y: 0,
            width: 0,
            height: 0,
            border_width: 0,
            sibling: 0,
            stack_mode: 0,
        }
    }

    /// Packs the fields that `mask` selects into the words of the request.
    pub fn pack(&self, mask: u16) -> (words: Vec<u32>)
        ensures
            words@ == self.spec_pack(mask),
    {
        let mut words: Vec<u32> = Vec::new();
        if mask & CONFIG_WINDOW_X != 0 {
            words.push(wire_word(self.x));
        }
        let ghost packed = spec_selected(mask, CONFIG_WINDOW_X, spec_wire_word(self.x));
        assert(words@ =~= packed);
        if mask & CONFIG_WINDOW_Y != 0 {
            words.push(wire_word(self.y));
        }
        let ghost packed = packed + spec_selected(mask, CONFIG_WINDOW_Y, spec_wire_word(self.y));
        assert(words@ =~= packed);
        if mask & CONFIG_WINDOW_WIDTH != 0 {
            words.push(self.width);
        }
        let ghost packed = packed + spec_selected(mask, CONFIG_WINDOW_WIDTH, self.width);
        assert(words@ =~= packed);
        if mask & CONFIG_WINDOW_HEIGHT != 0 {
            words.push(self.height);
        }
        let ghost packed = packed + spec_selected(mask, CONFIG_WINDOW_HEIGHT, self.height);
        assert(words@ =~= packed);
        if mask & CONFIG_WINDOW_BORDER_WIDTH != 0 {
            words.push(self.border_width);
        }
        let ghost packed = packed + spec_selected(
            mask,
            CONFIG_WINDOW_BORDER_WIDTH,
            self.border_width,
        );
        assert(words@ =~= packed);
        if mask & CONFIG_WINDOW_SIBLING != 0 {
            words.push(self.sibling);
        }
        let ghost packed = packed + spec_selected(mask, CONFIG_WINDOW_SIBLING, self.sibling);
        assert(words@ =~= packed);
        if mask & CONFIG_WINDOW_STACK_MODE != 0 {
            words.push(self.stack_mode);
        }
        let ghost packed = packed + spec_selected(mask, CONFIG_WINDOW_STACK_MODE, self.stack_mode);
        assert(words@ =~= packed);
        words
    }
}

/// A request for the wire connection.
///
/// Every variant but the two marked fire-and-forget is sent in checked form:
/// the sender waits for the server's verdict.
#[derive(Clone, Copy, Debug, PartialEq, Eq)]
pub enum Request {
    /// Select `event_mask` on `window`.
    SelectEvents { window: u32, event_mask: u32 },
    /// Make `window` visible.
    MapWindow { window: u32 },
    /// Hide `window`.
    UnmapWindow { window: u32 },
    /// Change geometry or stacking of `window`: of `values`, the fields that
    /// `value_mask` selects.
    ConfigureWindow { window: u32, value_mask: u16, values: ConfigureValues },
    /// Set the background pixel of `window`.
    SetBackPixel { window: u32, pixel: u32 },
    /// Clear the whole of `window` to its background.
    ClearWindow { window: u32 },
    /// Deliver a client message to its window.
    SendClientMessage { message: ClientMessage },
    /// Deliver a client message to its window and flush, without waiting for
    /// a verdict (fire-and-forget).
    PostClientMessage { message: ClientMessage },
    /// Destroy `window`.
    DestroyWindow { window: u32 },
    /// Destroy `window` without waiting for a verdict (fire-and-forget).
    DiscardWindow { window: u32 },
    /// Set the `WM_STATE` property of `window` to the state with number
    /// `state` and no icon window.
    SetWmState { window: u32, state: u32 },
    /// Set the `_NET_FRAME_EXTENTS` property of `window`.
    SetFrameExtents { window: u32, left: u32, right: u32, top: u32, bottom: u32 },
    /// Give the keyboard focus of master `device` to `window`.
    SetFocus { window: u32, device: u16 },
    /// Attach `slave` to `master`.
    AttachSlave { slave: u16, master: u16 },
    /// Remove master `device`, leaving its slaves floating.
    RemoveMaster { device: u16 },
    /// Load `keymap` into `device`.
    SetKeymap { device: u16, keymap: Keymap },
    /// Load the level names into `device`.
    SetLevelNames { device: u16 },
    /// Lock `device` to keymap group `group`.
    LockGroup { device: u16, group: u8 },
}

/// What the sender of a checked request does when the server rejects it.
#[derive(Clone, Copy, Debug, PartialEq, Eq, Structural)]
pub enum FailurePolicy {
    /// The window table and the server no longer agree: stop loudly.
    Abort,
    /// Log the failure and carry on.
    Log,
    /// The request was never checked; there is no failure to see.
    Unchecked,
}

impl Request {
    /// The policy for a rejected request of this kind.
    ///
    /// Requests that only follow a client's wish (map, unmap, configure), and
    /// requests on teardown paths (deleting a window, removing a master), are
    /// logged and swallowed: the window may be gone already, and teardown
    /// must not fail. Fire-and-forget requests are never checked. Everything
    /// else aborts.
    pub open spec fn spec_on_failure(self) -> FailurePolicy {
        match self {
            Request::MapWindow { .. }
            | Request::UnmapWindow { .. }
            | Request::ConfigureWindow { .. }
            | Request::SendClientMessage { .. }
            | Request::DestroyWindow { .. }
            | Request::RemoveMaster { .. } => FailurePolicy::Log,
            Request::PostClientMessage { .. } | Request::DiscardWindow { .. } => {
                FailurePolicy::Unchecked
            },
            _ => FailurePolicy::Abort,
        }
    }

    /// Returns the policy for a rejected request of this kind.
    pub fn on_failure(&self) -> (policy: FailurePolicy)
        ensures
            policy == self.spec_on_failure(),
    {
        match self {
            Request::MapWindow { .. }
            | Request::UnmapWindow { .. }
            | Request::ConfigureWindow { .. }
            | Request::SendClientMessage { .. }
            | Request::DestroyWindow { .. }
            | Request::RemoveMaster { .. } => FailurePolicy::Log,
            Request::PostClientMessage { .. } | Request::DiscardWindow { .. } => {
                FailurePolicy::Unchecked
            },
            _ => FailurePolicy::Abort,
        }
    }

    /// The type code and the length, in units of four bytes, of the
    /// hierarchy change that the request carries, if it carries one.
    pub open spec fn spec_hierarchy_change(self) -> Option<(u16, u16)> {
        match self {
            Request::AttachSlave { .. } => Some((HIERARCHY_ATTACH_SLAVE, 2u16)),
            Request::RemoveMaster { .. } => Some((HIERARCHY_REMOVE_MASTER, 3u16)),
            _ => None,
        }
    }

    /// Returns the header of the hierarchy change that the request carries:
    /// its type code and its length in units of four bytes, header
    /// included. Attaching a slave takes two units, removing a master three.
    pub fn hierarchy_change(&self) -> (header: Option<(u16, u16)>)
        ensures
            header == self.spec_hierarchy_change(),
    {
        match self {
            Request::AttachSlave { .. } => Some((HIERARCHY_ATTACH_SLAVE, 2)),
            Request::RemoveMaster { .. } => Some((HIERARCHY_REMOVE_MASTER, 3)),
            _ => None,
        }
    }

    /// What becomes of the request given the server's verdict on it.
    pub open spec fn spec_judge(self, verdict: Result<(), ProtocolError>) -> Outcome {
        match verdict {
            Ok(()) => Outcome::Done,
            Err(error) => if self.spec_on_failure() == FailurePolicy::Abort {
                Outcome::Aborted(error)
            } else {
                Outcome::Logged(error)
            },
        }
    }

    /// Judges the server's verdict on the request. Nothing is ever retried:
    /// a rejection is either fatal for the current operation or logged and
    /// swallowed, as [`Request::on_failure`] says.
    pub fn judge(&self, verdict: Result<(), ProtocolError>) -> (outcome: Outcome)
        ensures
            outcome == self.spec_judge(verdict),
    {
        match verdict {
            Ok(()) => Outcome::Done,
            Err(error) => match self.on_failure() {
                FailurePolicy::Abort => Outcome::Aborted(error),
                _ => Outcome::Logged(error),
            },
        }
    }

    /// Whether the request is sent in checked form.
    pub fn is_checked(&self) -> (checked: bool)
        ensures
            checked == (self.spec_on_failure() != FailurePolicy::Unchecked),
    {
        match self {
            Request::PostClientMessage { .. } | Request::DiscardWindow { .. } => false,
            _ => true,
        }
    }
}

/// A checked request that the server rejected.
#[derive(Clone, Copy, Debug, PartialEq, Eq, Structural)]
pub struct ProtocolError {
    /// The protocol error code.
    pub code: u8,
    /// The sequence number of the rejected request.
    pub sequence: u32,
}

/// Why the connection to the display server is unusable. Any of these is
/// fatal for the instance that owns the connection.
#[derive(Clone, Copy, Debug, PartialEq, Eq, Structural)]
pub enum ConnectionError {
    /// A socket, pipe or stream error.
    Io,
    /// A request of an extension that the server does not support.
    UnsupportedExtension,
    /// Out of memory.
    OutOfMemory,
    /// A request that is too long for the server.
    MessageLength,
    /// The display name could not be parsed.
    DisplayString,
    /// The server has no screen with the number asked for.
    InvalidScreen,
    /// Passing a file descriptor failed.
    FileDescriptors,
    /// An error code without a name.
    Unknown(i32),
}

/// The state of a connection with error code `code`: zero is a healthy
/// connection, one to seven name a failure, anything else is unknown.
pub open spec fn spec_connection_state(code: i32) -> Result<(), ConnectionError> {
    if code == 0 {
        Ok(())
    } else if code == 1 {
        Err(ConnectionError::Io)
    } else if code == 2 {
        Err(ConnectionError::UnsupportedExtension)
    } else if code == 3 {
        Err(ConnectionError::OutOfMemory)
    } else if code == 4 {
        Err(ConnectionError::MessageLength)
    } else if code == 5 {
        Err(ConnectionError::DisplayString)
    } else if code == 6 {
        Err(ConnectionError::InvalidScreen)
    } else if code == 7 {
        Err(ConnectionError::FileDescriptors)
    } else {
        Err(ConnectionError::Unknown(code))
    }
}

/// Translates the error code of a connection into its state.
pub fn connection_state(code: i32) -> (state: Result<(), ConnectionError>)
    ensures
        state == spec_connection_state(code),
{
    if code == 0 {
        Ok(())
    } else if code == 1 {
        Err(ConnectionError::Io)
    } else if code == 2 {
        Err(ConnectionError::UnsupportedExtension)
    } else if code == 3 {
        Err(ConnectionError::OutOfMemory)
    } else if code == 4 {
        Err(ConnectionError::MessageLength)
    } else if code == 5 {
        Err(ConnectionError::DisplayString)
    } else if code == 6 {
        Err(ConnectionError::InvalidScreen)
    } else if code == 7 {
        Err(ConnectionError::FileDescriptors)
    } else {
        Err(ConnectionError::Unknown(code))
    }
}

/// What became of a request.
#[derive(Clone, Copy, Debug, PartialEq, Eq, Structural)]
pub enum Outcome {
    /// The server carried the request out, or was never asked for a verdict.
    Done,
    /// The server rejected the request; the failure is logged and swallowed.
    Logged(ProtocolError),
    /// The server rejected the request; the current operation is aborted.
    Aborted(ProtocolError),
}

/// How a server event is dispatched by its event code.
#[derive(Clone, Copy, Debug, PartialEq, Eq, Structural)]
pub enum EventClass {
    CreateNotify,
    DestroyNotify,
    UnmapNotify,
    MapNotify,
    MapRequest,
    ReparentNotify,
    ConfigureNotify,
    ConfigureRequest,
    PropertyNotify,
    ClientMessage,
    /// An event the window manager receives and deliberately ignores.
    Ignored,
    /// An event the window manager never asked for.
    Unexpected,
}

/// The event code with the sent-by-a-client marker (the top bit) cleared.
pub open spec fn spec_event_code(response_type: u8) -> u8 {
    response_type & 0x7f
}

/// The class an event code is dispatched to.
pub open spec fn spec_classify(response_type: u8) -> EventClass {
    let code = spec_event_code(response_type);
    if code == CREATE_NOTIFY {
        EventClass::CreateNotify
    } else if code == DESTROY_NOTIFY {
        EventClass::DestroyNotify
    } else if code == UNMAP_NOTIFY {
        EventClass::UnmapNotify
    } else if code == MAP_NOTIFY {
        EventClass::MapNotify
    } else if code == MAP_REQUEST {
        EventClass::MapRequest
    } else if code == REPARENT_NOTIFY {
        EventClass::ReparentNotify
    } else if code == CONFIGURE_NOTIFY {
        EventClass::ConfigureNotify
    } else if code == CONFIGURE_REQUEST {
        EventClass::ConfigureRequest
    } else if code == PROPERTY_NOTIFY {
        EventClass::PropertyNotify
    } else if code == CLIENT_MESSAGE {
        EventClass::ClientMessage
    } else if code == MAPPING_NOTIFY {
        EventClass::Ignored
    } else {
        EventClass::Unexpected
    }
}

/// Dispatches an event by the first byte of its wire form.
///
/// The top bit only says that another client sent the event; it does not
/// take part in the dispatch.
pub fn classify(response_type: u8) -> (class: EventClass)
    ensures
        class == spec_classify(response_type),
{
    let code: u8 = response_type & 0x7f;
    if code == CREATE_NOTIFY {
        EventClass::CreateNotify
    } else if code == DESTROY_NOTIFY {
        EventClass::DestroyNotify
    } else if code == UNMAP_NOTIFY {
        EventClass::UnmapNotify
    } else if code == MAP_NOTIFY {
        EventClass::MapNotify
    } else if code == MAP_REQUEST {
        EventClass::MapRequest
    } else if code == REPARENT_NOTIFY {
        EventClass::ReparentNotify
    } else if code == CONFIGURE_NOTIFY {
        EventClass::ConfigureNotify
    } else if code == CONFIGURE_REQUEST {
        EventClass::ConfigureRequest
    } else if code == PROPERTY_NOTIFY {
        EventClass::PropertyNotify
    } else if code == CLIENT_MESSAGE {
        EventClass::ClientMessage
    } else if code == MAPPING_NOTIFY {
        EventClass::Ignored
    } else {
        EventClass::Unexpected
    }
}

/// The event mask of the window manager is exactly the three bits it needs.
pub proof fn lemma_wm_event_mask()
    ensures
        WM_EVENT_MASK == EVENT_MASK_SUBSTRUCTURE_REDIRECT | EVENT_MASK_SUBSTRUCTURE_NOTIFY
            | EVENT_MASK_PROPERTY_CHANGE,
{
    assert(0x0058_0000u32 == 0x0010_0000u32 | 0x0008_0000u32 | 0x0040_0000u32) by (bit_vector);
}

} // verus!
