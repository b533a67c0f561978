//! Seats: a master pointer and keyboard pair, the keyboard layout that is
//! active on it, and the virtual keyboards attached to it.
use crate::device::{Keyboard, KeyboardModel, XKeyboard};
use crate::injection::Message;
use crate::keyboard::Layout;
use crate::wire::{Keymap, Request, DEVICE_TYPE_MASTER_POINTER};
use vstd::prelude::*;

verus! {

impl Layout {
    /// The keymap group that shows this layout.
    pub open spec fn spec_group(self) -> u8 {
        match self {
            Layout::Qwerty => 0,
            Layout::Azerty => 1,
            Layout::QwertySwapped => 0,
        }
    }

    /// The keymap that holds this layout.
    pub open spec fn spec_keymap(self) -> Keymap {
        match self {
            Layout::Qwerty => Keymap::Standard,
            Layout::Azerty => Keymap::Standard,
            Layout::QwertySwapped => Keymap::Swapped,
        }
    }

    /// Returns the keymap group that shows this layout.
    pub fn group(self) -> (group: u8)
        ensures
            group == self.spec_group(),
    {
        match self {
            Layout::Qwerty => 0,
            Layout::Azerty => 1,
            Layout::QwertySwapped => 0,
        }
    }

    /// Returns the keymap that holds this layout.
    pub fn keymap(self) -> (keymap: Keymap)
        ensures
            keymap == self.spec_keymap(),
    {
        match self {
            Layout::Qwerty => Keymap::Standard,
            Layout::Azerty => Keymap::Standard,
            Layout::QwertySwapped => Keymap::Swapped,
        }
    }
}

/// When a layout change reloads the keymap.
///
/// Reloading is expensive, and most changes only switch the group. Both
/// policies leave the device showing the requested layout; they differ in
/// how often they pay for a reload.
#[derive(Clone, Copy, Debug, PartialEq, Eq, Structural)]
pub enum RemapPolicy {
    /// Reload on every change.
    Always,
    /// Reload unless the change is between two layouts that are not swapped,
    /// and always when the previous layout is unknown.
    SwappedTransitions,
}

/// Whether a change to `layout` from `previous` reloads the keymap.
pub open spec fn spec_needs_remap(
    policy: RemapPolicy,
    layout: Layout,
    previous: Option<Layout>,
) -> bool {
    match policy {
        RemapPolicy::Always => true,
        RemapPolicy::SwappedTransitions => previous.is_none() || layout == Layout::QwertySwapped
            || previous == Some(Layout::QwertySwapped),
    }
}

/// Returns whether a change to `layout` from `previous` reloads the keymap.
pub fn needs_remap(policy: RemapPolicy, layout: Layout, previous: Option<Layout>) -> (remap: bool)
    ensures
        remap == spec_needs_remap(policy, layout, previous),
{
    match policy {
        RemapPolicy::Always => true,
        RemapPolicy::SwappedTransitions => match (layout, previous) {
            (_, None) => true,
            (Layout::QwertySwapped, _) => true,
            (_, Some(Layout::QwertySwapped)) => true,
            _ => false,
        },
    }
}

/// The requests that switch `device` to `layout`: keymap and level names if
/// the change needs a reload, and then, always, the group lock.
pub open spec fn spec_layout_requests(
    policy: RemapPolicy,
    device: u16,
    layout: Layout,
    previous: Option<Layout>,
) -> Seq<Request> {
    let lock = Request::LockGroup { device, group: layout.spec_group() };
    if spec_needs_remap(policy, layout, previous) {
        seq![
            Request::SetKeymap { device, keymap: layout.spec_keymap() },
            Request::SetLevelNames { device },
            lock,
        ]
    } else {
        seq![lock]
    }
}

/// Plans the switch of `device` to `layout`, coming from `previous` (`None`
/// if the device has never been given a layout).
///
/// The requests are to be issued in order.
pub fn layout_requests(
    policy: RemapPolicy,
    device: u16,
    layout: Layout,
    previous: Option<Layout>,
) -> (requests: Vec<Request>)
    ensures
        requests@ == spec_layout_requests(policy, device, layout, previous),
{
    let mut requests: Vec<Request> = Vec::new();
    if needs_remap(policy, layout, previous) {
        requests.push(Request::SetKeymap { device, keymap: layout.keymap() });
        requests.push(Request::SetLevelNames { device });
    }
    requests.push(Request::LockGroup { device, group: layout.group() });
    assert(requests@ =~= spec_layout_requests(policy, device, layout, previous));
    requests
}

/// What a keyboard device has loaded: its keymap, if any was ever loaded by
/// this crate, and the group it is locked to.
pub struct KeymapState {
    pub keymap: Option<Keymap>,
    pub group: u8,
}

impl KeymapState {
    /// The state after the server has carried out `request`. Requests for
    /// other devices, and requests that are not about keymaps, change nothing.
    pub open spec fn apply(self, device: u16, request: Request) -> KeymapState {
        match request {
            Request::SetKeymap { device: d, keymap } if d == device => KeymapState {
                keymap: Some(keymap),
                ..self
            },
            Request::LockGroup { device: d, group } if d == device => KeymapState {
                group,
                ..self
            },
            _ => self,
        }
    }

    /// The state after the server has carried out `requests` in order.
    pub open spec fn apply_all(self, device: u16, requests: Seq<Request>) -> KeymapState
        decreases requests.len(),
    {
        if requests.len() == 0 {
            self
        } else {
            self.apply(device, requests[0]).apply_all(device, requests.skip(1))
        }
    }

    /// Whether keys typed on the device come out as `layout` says: the right
    /// keymap is loaded and the right group is locked.
    pub open spec fn shows(self, layout: Layout) -> bool {
        self.keymap == Some(layout.spec_keymap()) && self.group == layout.spec_group()
    }
}

/// Under either policy a layout change takes effect: if the device showed
/// the previous layout (or the previous layout is unknown, in which case
/// nothing is assumed of the device), then after the planned requests it
/// shows the new one.
pub proof fn lemma_layout_takes_effect(
    policy: RemapPolicy,
    device: u16,
    layout: Layout,
    previous: Option<Layout>,
    before: KeymapState,
)
    requires
        previous matches Some(p) ==> before.shows(p),
    ensures
        before.apply_all(device, spec_layout_requests(policy, device, layout, previous)).shows(
            layout,
        ),
{
    let requests = spec_layout_requests(policy, device, layout, previous);
    lemma_apply_all_unfold(before, device, requests);
}

/// Switching to another layout and straight back restores the device: it
/// shows the second layout in between, and ends in the state it started in.
pub proof fn lemma_layout_round_trip(
    policy: RemapPolicy,
    device: u16,
    home: Layout,
    other: Layout,
    before: KeymapState,
)
    requires
        before.shows(home),
    ensures
        ({
            let there = before.apply_all(
                device,
                spec_layout_requests(policy, device, other, Some(home)),
            );
            let back = there.apply_all(
                device,
                spec_layout_requests(policy, device, home, Some(other)),
            );
            there.shows(other) && back == before
        }),
{
    let there = before.apply_all(
        device,
        spec_layout_requests(policy, device, other, Some(home)),
    );
    lemma_layout_takes_effect(policy, device, other, Some(home), before);
    lemma_layout_takes_effect(policy, device, home, Some(other), there);
}

/// Between two layouts that are not swapped, the sparing policy only locks
/// the group: no keymap is reloaded.
pub proof fn lemma_plain_switch_locks_group_only(device: u16, layout: Layout, previous: Layout)
    requires
        layout != Layout::QwertySwapped,
        previous != Layout::QwertySwapped,
    ensures
        spec_layout_requests(RemapPolicy::SwappedTransitions, device, layout, Some(previous))
            == seq![Request::LockGroup { device, group: layout.spec_group() }],
{
}

/// `apply_all` on the one or three requests of a layout plan, written out.
proof fn lemma_apply_all_unfold(state: KeymapState, device: u16, requests: Seq<Request>)
    requires
        requests.len() == 1 || requests.len() == 3,
    ensures
        requests.len() == 1 ==> state.apply_all(device, requests) == state.apply(
            device,
            requests[0],
        ),
        requests.len() == 3 ==> state.apply_all(device, requests) == state.apply(
            device,
            requests[0],
        ).apply(device, requests[1]).apply(device, requests[2]),
{
    let t1 = requests.skip(1);
    if requests.len() == 1 {
        assert(t1.len() == 0);
        assert(state.apply(device, requests[0]).apply_all(device, t1) == state.apply(
            device,
            requests[0],
        ));
    } else {
        let t2 = t1.skip(1);
        let t3 = t2.skip(1);
        assert(t1[0] == requests[1] && t2[0] == requests[2]);
        assert(t3.len() == 0);
        let s1 = state.apply(device, requests[0]);
        let s2 = s1.apply(device, requests[1]);
        let s3 = s2.apply(device, requests[2]);
        assert(s3.apply_all(device, t3) == s3);
        assert(s2.apply_all(device, t2) == s3);
        assert(s1.apply_all(device, t1) == s3);
    }
}

/// One entry of a query for all master devices.
#[derive(Clone, Copy, Debug, PartialEq, Eq, Structural)]
pub struct DeviceInfo {
    /// The id of the device.
    pub deviceid: u16,
    /// The device type code.
    pub kind: u16,
    /// For a master, the id of the master it is paired with.
    pub attachment: u16,
}

impl DeviceInfo {
    /// Whether the entry describes a master pointer.
    pub open spec fn is_master_pointer(self) -> bool {
        self.kind == DEVICE_TYPE_MASTER_POINTER
    }
}

/// Why the core devices could not be told from a device query.
#[derive(Clone, Copy, Debug, PartialEq, Eq, Structural)]
pub enum CoreDeviceError {
    /// The query names no master pointer.
    NoMasterPointer,
    /// The query names more than one master pointer.
    SeveralMasterPointers,
}

/// Number of master pointers among `infos`.
pub open spec fn spec_master_pointers(infos: Seq<DeviceInfo>) -> nat {
    infos.filter(|info: DeviceInfo| info.is_master_pointer()).len()
}

/// Finds the core pointer and the core keyboard of a freshly started server
/// among its master devices.
///
/// A fresh server has exactly one master pointer; its attachment is the core
/// keyboard. Returns the pair `(pointer, keyboard)` if and only if exactly
/// one entry is a master pointer.
pub fn find_core_devices(infos: &Vec<DeviceInfo>) -> (core: Result<(u16, u16), CoreDeviceError>)
    ensures
        spec_master_pointers(infos@) == 0 <==> core == Err::<(u16, u16), CoreDeviceError>(
            CoreDeviceError::NoMasterPointer,
        ),
        spec_master_pointers(infos@) > 1 <==> core == Err::<(u16, u16), CoreDeviceError>(
            CoreDeviceError::SeveralMasterPointers,
        ),
        spec_master_pointers(infos@) == 1 <==> core.is_ok(),
        core matches Ok((pointer, keyboard)) ==> exists|i: int|
            0 <= i < infos@.len() && infos@[i].is_master_pointer() && infos@[i].deviceid == pointer
                && infos@[i].attachment == keyboard,
{
    let ghost is_mp = |info: DeviceInfo| info.is_master_pointer();
    let mut found: Option<(u16, u16)> = None;
    let mut i: usize = 0;
    assert(infos@.take(0) =~= Seq::<DeviceInfo>::empty());
    while i < infos.len()
        invariant
            i <= infos@.len(),
            is_mp == |info: DeviceInfo| info.is_master_pointer(),
            found.is_none() <==> infos@.take(i as int).filter(is_mp).len() == 0,
            found.is_some() <==> infos@.take(i as int).filter(is_mp).len() == 1,
            found matches Some((pointer, keyboard)) ==> exists|j: int|
                0 <= j < i && infos@[j].is_master_pointer() && infos@[j].deviceid == pointer
                    && infos@[j].attachment == keyboard,
        decreases infos@.len() - i,
    {
        let info = infos[i];
        proof {
            let prefix = infos@.take(i as int);
            assert(infos@.take(i + 1) =~= prefix.push(info));
            lemma_filter_push(prefix, info);
        }
        if info.kind == DEVICE_TYPE_MASTER_POINTER {
            if found.is_some() {
                proof {
                    lemma_filter_len_monotone(infos@, i + 1);
                }
                return Err(CoreDeviceError::SeveralMasterPointers);
            }
            found = Some((info.deviceid, info.attachment));
        }
        i = i + 1;
    }
    assert(infos@.take(i as int) =~= infos@);
    match found {
        Some(pair) => Ok(pair),
        None => Err(CoreDeviceError::NoMasterPointer),
    }
}

/// Filtering a sequence with one more element keeps the element or not.
proof fn lemma_filter_push(prefix: Seq<DeviceInfo>, info: DeviceInfo)
    ensures
        ({
            let is_mp = |info: DeviceInfo| info.is_master_pointer();
            prefix.push(info).filter(is_mp) == if info.is_master_pointer() {
                prefix.filter(is_mp).push(info)
            } else {
                prefix.filter(is_mp)
            }
        }),
{
    let is_mp = |info: DeviceInfo| info.is_master_pointer();
    reveal(Seq::filter);
    assert(prefix.push(info).drop_last() =~= prefix);
}

/// A prefix holds no more master pointers than the whole.
proof fn lemma_filter_len_monotone(infos: Seq<DeviceInfo>, n: int)
    requires
        0 <= n <= infos.len(),
    ensures
        infos.take(n).filter(|info: DeviceInfo| info.is_master_pointer()).len()
            <= spec_master_pointers(infos),
    decreases infos.len() - n,
{
    let is_mp = |info: DeviceInfo| info.is_master_pointer();
    if n == infos.len() {
        assert(infos.take(n) =~= infos);
    } else {
        lemma_filter_len_monotone(infos, n + 1);
        assert(infos.take(n + 1) =~= infos.take(n).push(infos[n]));
        lemma_filter_push(infos.take(n), infos[n]);
    }
}

/// A seat: a master pointer and keyboard, and the layout active on them.
#[derive(Clone, Copy, Debug, PartialEq, Eq, Structural)]
pub struct XSeat {
    /// The master pointer of the seat.
    pub pointer: u16,
    /// The master keyboard of the seat.
    pub keyboard: u16,
    /// The master keyboard of the server's core seat.
    pub core_keyboard: u16,
    /// The layout the seat was last switched to.
    pub layout: Layout,
    /// When a layout change reloads the keymap.
    pub policy: RemapPolicy,
}

impl XSeat {
    /// The server's core seat, with the layout a fresh server starts in.
    pub fn default_seat(pointer: u16, keyboard: u16, policy: RemapPolicy) -> (seat: XSeat)
        ensures
            seat == (XSeat {
                pointer,
                keyboard,
                core_keyboard: keyboard,
                layout: Layout::Qwerty,
                policy,
            }),
    {
        XSeat { pointer, keyboard, core_keyboard: keyboard, layout: Layout::Qwerty, policy }
    }

    /// Whether this is the server's core seat.
    pub open spec fn is_core(self) -> bool {
        self.keyboard == self.core_keyboard
    }

    /// The device id that a keyboard-creation reply announces: the low 16
    /// bits of the id word.
    pub open spec fn spec_new_device(reply: Seq<u32>) -> Option<u16> {
        match Message::spec_decode(reply) {
            Some(Message::CreateKeyboardReply { id }) => Some((id % 0x1_0000) as u16),
            _ => None,
        }
    }

    /// The requests that bring a new slave keyboard `slave` into the seat:
    /// attach it to the master keyboard, then give the seat's layout to the
    /// slave and, so that no stale state is shared, to the master.
    pub open spec fn spec_adopt_requests(self, slave: u16) -> Seq<Request> {
        seq![Request::AttachSlave { slave, master: self.keyboard }] + spec_layout_requests(
            self.policy,
            slave,
            self.layout,
            None,
        ) + spec_layout_requests(self.policy, self.keyboard, self.layout, None)
    }

    /// Completes the creation of a virtual keyboard.
    ///
    /// `reply` is the record read from the injection channel in answer to
    /// [`Message::CreateKeyboard`]. If it is a creation reply, the new
    /// keyboard is returned, idle, together with the requests that bring it
    /// into the seat, to be issued in order. Any other record yields `None`.
    pub fn add_keyboard(&self, reply: &[u32; 3]) -> (added: Option<(XKeyboard, Vec<Request>)>)
        ensures
            added.is_some() <==> Self::spec_new_device(reply@).is_some(),
            added matches Some((keyboard, requests)) ==> {
                let slave = Self::spec_new_device(reply@).unwrap();
                &&& keyboard.model() == KeyboardModel::idle(slave)
                &&& requests@ == self.spec_adopt_requests(slave)
            },
    {
        match Message::decode(reply) {
            Some(Message::CreateKeyboardReply { id }) => {
                let slave: u16 = (id % 0x1_0000) as u16;
                let mut requests: Vec<Request> = Vec::new();
                requests.push(Request::AttachSlave { slave, master: self.keyboard });
                let mut for_slave = layout_requests(self.policy, slave, self.layout, None);
                let mut for_master = layout_requests(
                    self.policy,
                    self.keyboard,
                    self.layout,
                    None,
                );
                requests.append(&mut for_slave);
                requests.append(&mut for_master);
                assert(requests@ =~= self.spec_adopt_requests(slave));
                Some((XKeyboard::new(slave), requests))
            },
            _ => None,
        }
    }

    /// The request that gives the seat's keyboard focus to `window`.
    pub fn focus(&self, window: u32) -> (request: Request)
        ensures
            request == (Request::SetFocus { window, device: self.keyboard }),
    {
        Request::SetFocus { window, device: self.keyboard }
    }

    /// Switches the seat to `layout` and returns the requests that do so on
    /// the master keyboard, to be issued in order.
    pub fn set_layout(&mut self, layout: Layout) -> (requests: Vec<Request>)
        ensures
            requests@ == spec_layout_requests(
                old(self).policy,
                old(self).keyboard,
                layout,
                Some(old(self).layout),
            ),
            *final(self) == (XSeat { layout, ..*old(self) }),
    {
        let requests = layout_requests(self.policy, self.keyboard, layout, Some(self.layout));
        self.layout = layout;
        requests
    }

    /// Tears the seat down. The core seat stays; any other master is
    /// removed from the device hierarchy and its slaves are left floating.
    pub fn remove(self) -> (request: Option<Request>)
        ensures
            request == if self.is_core() {
                None
            } else {
                Some(Request::RemoveMaster { device: self.keyboard })
            },
    {
        if self.keyboard == self.core_keyboard {
            None
        } else {
            Some(Request::RemoveMaster { device: self.keyboard })
        }
    }
}

} // verus!
