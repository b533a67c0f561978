//! The window-manager reactor: the one writer of the window table.
//!
//! The reactor is a state machine. An event comes in from the server; the
//! table changes; out come the requests to issue and the properties to read,
//! and the word whether anybody waiting on the table has to be woken. Reading
//! a property is I/O, so it is asked for as an action and its result comes
//! back as another event.
use crate::atoms::Atoms;
use crate::props::{property_kind, spec_property_kind, PropertyKind, PropertyValue};
use crate::window::{
    ping_request, spec_ping_message, DirectFormat, WindowModel, WindowRecord, WindowState,
};
use crate::wire::{ClientMessage, ConfigureValues, Request, WM_EVENT_MASK};
use std::collections::HashMap;
use std::collections::HashSet;
use vstd::prelude::*;

verus! {

/// A window's request to change its geometry or stacking.
#[derive(Clone, Copy, Debug, PartialEq, Eq, Structural)]
pub struct ConfigureRequest {
    pub window: u32,
    /// Which of the fields below the window set.
    pub value_mask: u16,
    pub x: i16,
    pub y: i16,
    pub width: u16,
    pub height: u16,
    pub border_width: u16,
    pub sibling: u32,
    pub stack_mode: u8,
}

impl ConfigureRequest {
    /// The request that grants the window exactly what it asked for: the
    /// same fields, selected by the same mask.
    pub open spec fn spec_honored(self) -> Request {
        Request::ConfigureWindow {
            window: self.window,
            value_mask: self.value_mask,
            values: ConfigureValues {
                x: self.x as i32,
                y: self.y as i32,
                width: self.width as u32,
                height: self.height as u32,
                border_width: self.border_width as u32,
                sibling: self.sibling,
                stack_mode: self.stack_mode as u32,
            },
        }
    }

    /// Returns the request that grants the window exactly what it asked for.
    pub fn honored(&self) -> (request: Request)
        ensures
            request == self.spec_honored(),
    {
        Request::ConfigureWindow {
            window: self.window,
            value_mask: self.value_mask,
            values: ConfigureValues {
                x: self.x as i32,
                y: self.y as i32,
                width: self.width as u32,
                height: self.height as u32,
                border_width: self.border_width as u32,
                sibling: self.sibling,
                stack_mode: self.stack_mode as u32,
            },
        }
    }
}

/// What the reactor reacts to.
#[derive(Clone, Debug, PartialEq, Eq)]
pub enum WmEvent {
    /// The server announced a new window.
    CreateNotify { window: u32 },
    /// A window asked to become visible.
    MapRequest { window: u32 },
    /// A window asked for new geometry or stacking.
    ConfigureRequest(ConfigureRequest),
    /// The geometry of a window changed.
    ConfigureNotify { window: u32, x: i16, y: i16, width: u16, height: u16, border_width: u16 },
    /// A window was put into a container.
    ReparentNotify { window: u32, parent: u32 },
    /// A window became visible.
    MapNotify { window: u32 },
    /// A window stopped being visible.
    UnmapNotify { window: u32 },
    /// A window was destroyed.
    DestroyNotify { window: u32 },
    /// The property `atom` of a window changed.
    PropertyNotify { window: u32, atom: u32 },
    /// A property was read, as a [`WmAction::ReadProperty`] had asked.
    PropertyRead { window: u32, kind: PropertyKind, value: PropertyValue },
    /// A client sent a message.
    ClientMessage(ClientMessage),
}

/// What the reactor wants done.
#[derive(Clone, Copy, Debug, PartialEq, Eq)]
pub enum WmAction {
    /// Issue the request.
    Send(Request),
    /// Read property `kind` of `window` and hand the value back as a
    /// [`WmEvent::PropertyRead`].
    ReadProperty { window: u32, kind: PropertyKind },
}

/// The state of the reactor as plain values.
pub struct WmModel<W> {
    /// The atoms of the connection.
    pub atoms: Atoms,
    /// Whoever waits for the table to change, in order of arrival.
    pub wakers: Seq<W>,
    /// The window table.
    pub windows: Map<u32, WindowModel>,
    /// The window inside each container.
    pub parents: Map<u32, u32>,
    /// The windows whose answer to a ping has arrived and was not yet
    /// consumed.
    pub pongs: Set<u32>,
}

/// One step of the reactor at the level of plain values.
pub struct Step<W> {
    /// The state afterwards.
    pub next: WmModel<W>,
    /// What the reactor wants done, in order.
    pub actions: Seq<WmAction>,
    /// Whether those who wait on the table are to be woken.
    pub changed: bool,
}

impl DirectFormat {
    /// The format of a window whose pixels nothing is known of.
    pub open spec fn spec_unknown() -> DirectFormat {
        DirectFormat {
            red_shift: 0,
            red_mask: 0,
            green_shift: 0,
            green_mask: 0,
            blue_shift: 0,
            blue_mask: 0,
            alpha_shift: 0,
            alpha_mask: 0,
        }
    }

    /// Returns the format of a window whose pixels nothing is known of.
    pub fn unknown() -> (format: DirectFormat)
        ensures
            format == Self::spec_unknown(),
    {
        DirectFormat {
            red_shift: 0,
            red_mask: 0,
            green_shift: 0,
            green_mask: 0,
            blue_shift: 0,
            blue_mask: 0,
            alpha_shift: 0,
            alpha_mask: 0,
        }
    }
}

/// Whether a client message is the answer to a ping: a protocols message
/// whose first word is the ping atom.
pub open spec fn spec_is_pong(atoms: Atoms, message: ClientMessage) -> bool {
    message.message_type == atoms.wm_protocols && message.data[0] == atoms.net_wm_ping
}

/// Whether a client message asks for its window to be iconified.
pub open spec fn spec_is_iconify(atoms: Atoms, message: ClientMessage) -> bool {
    message.message_type == atoms.wm_change_state && message.data[0]
        == WindowState::Iconic.spec_wm_state()
}

impl<W> WmModel<W> {
    /// A reactor that manages no window.
    pub open spec fn empty(atoms: Atoms) -> WmModel<W> {
        WmModel {
            atoms,
            wakers: Seq::empty(),
            windows: Map::empty(),
            parents: Map::empty(),
            pongs: Set::empty(),
        }
    }

    /// The state with the record of `window` replaced.
    pub open spec fn with_window(self, window: u32, record: WindowModel) -> WmModel<W> {
        WmModel { windows: self.windows.insert(window, record), ..self }
    }

    /// A step that does nothing.
    pub open spec fn idle(self) -> Step<W> {
        Step { next: self, actions: Seq::empty(), changed: false }
    }

    /// A new window: its record is marked as announced, or, if the window
    /// is not in the table yet, a fresh withdrawn record is inserted. Those
    /// who wait are woken.
    pub open spec fn on_create(self, window: u32) -> Step<W> {
        let record = if self.windows.contains_key(window) {
            self.windows[window]
        } else {
            WindowModel::fresh(window, DirectFormat::spec_unknown())
        };
        Step {
            next: self.with_window(window, record.announced()),
            actions: Seq::empty(),
            changed: true,
        }
    }

    /// A map request is always honoured, at once. For a window in the table
    /// the wish is recorded and the frame extents are reported.
    pub open spec fn on_map_request(self, window: u32) -> Step<W> {
        let map = WmAction::Send(Request::MapWindow { window });
        if self.windows.contains_key(window) {
            let record = self.windows[window].map_requested();
            Step {
                next: self.with_window(window, record),
                actions: seq![map, WmAction::Send(record.frame_extents_request())],
                changed: false,
            }
        } else {
            Step { next: self, actions: seq![map], changed: false }
        }
    }

    /// A configure request is passed through verbatim.
    pub open spec fn on_configure_request(self, request: ConfigureRequest) -> Step<W> {
        Step {
            next: self,
            actions: seq![WmAction::Send(request.spec_honored())],
            changed: false,
        }
    }

    /// New geometry is recorded.
    pub open spec fn on_configure(
        self,
        window: u32,
        x: i16,
        y: i16,
        width: u16,
        height: u16,
        border_width: u16,
    ) -> Step<W> {
        if self.windows.contains_key(window) {
            Step {
                next: self.with_window(
                    window,
                    self.windows[window].configured(x, y, width, height, border_width),
                ),
                actions: Seq::empty(),
                changed: true,
            }
        } else {
            self.idle()
        }
    }

    /// The container of a window is recorded.
    pub open spec fn on_reparent(self, window: u32, parent: u32) -> Step<W> {
        if self.windows.contains_key(window) {
            Step {
                next: WmModel {
                    windows: self.windows.insert(window, self.windows[window].reparented(parent)),
                    parents: self.parents.insert(parent, window),
                    ..self
                },
                actions: Seq::empty(),
                changed: true,
            }
        } else {
            self.idle()
        }
    }

    /// A window was mapped: the record says so, and the `WM_STATE` property
    /// is set to mirror the record.
    pub open spec fn on_map(self, window: u32) -> Step<W> {
        if self.windows.contains_key(window) {
            let record = self.windows[window].mapped_now();
            Step {
                next: self.with_window(window, record),
                actions: seq![
                    WmAction::Send(
                        Request::SetWmState { window, state: record.current_state.spec_wm_state() },
                    ),
                ],
                changed: true,
            }
        } else {
            self.idle()
        }
    }

    /// A window was unmapped: the record says so, and the `WM_STATE`
    /// property is set to mirror the record.
    pub open spec fn on_unmap(self, window: u32) -> Step<W> {
        if self.windows.contains_key(window) {
            let record = self.windows[window].unmapped_now();
            Step {
                next: self.with_window(window, record),
                actions: seq![
                    WmAction::Send(
                        Request::SetWmState { window, state: record.current_state.spec_wm_state() },
                    ),
                ],
                changed: true,
            }
        } else {
            self.idle()
        }
    }

    /// A window was destroyed: its record leaves the table, and its
    /// container, if it had one, is destroyed too.
    pub open spec fn on_destroy(self, window: u32) -> Step<W> {
        if self.windows.contains_key(window) {
            match self.windows[window].parent_id {
                Some(parent) => Step {
                    next: WmModel {
                        windows: self.windows.remove(window),
                        parents: self.parents.remove(parent),
                        ..self
                    },
                    actions: seq![WmAction::Send(Request::DestroyWindow { window: parent })],
                    changed: true,
                },
                None => Step {
                    next: WmModel { windows: self.windows.remove(window), ..self },
                    actions: Seq::empty(),
                    changed: true,
                },
            }
        } else {
            self.idle()
        }
    }

    /// A property changed: if it is one the reactor follows, on a window in
    /// the table, it is read again. Nothing changes until the value is in.
    pub open spec fn on_property(self, window: u32, atom: u32) -> Step<W> {
        match spec_property_kind(self.atoms, atom) {
            Some(kind) if self.windows.contains_key(window) => Step {
                next: self,
                actions: seq![WmAction::ReadProperty { window, kind }],
                changed: false,
            },
            _ => self.idle(),
        }
    }

    /// The value of a property is in: the record takes it over. A change of
    /// the decorations is answered with new frame extents.
    pub open spec fn on_property_read(
        self,
        window: u32,
        kind: PropertyKind,
        value: PropertyValue,
    ) -> Step<W> {
        if self.windows.contains_key(window) {
            let record = self.windows[window].with_property(self.atoms, kind, value);
            Step {
                next: self.with_window(window, record),
                actions: if kind == PropertyKind::MotifHints {
                    seq![WmAction::Send(record.frame_extents_request())]
                } else {
                    Seq::empty()
                },
                changed: true,
            }
        } else {
            self.idle()
        }
    }

    /// A client message: the answer to a ping is noted under the window id
    /// that the ping carried; a wish to be iconified is recorded and the
    /// window unmapped. Everything else is ignored.
    pub open spec fn on_client_message(self, message: ClientMessage) -> Step<W> {
        if spec_is_pong(self.atoms, message) {
            Step {
                next: WmModel { pongs: self.pongs.insert(message.data[2]), ..self },
                actions: Seq::empty(),
                changed: true,
            }
        } else if spec_is_iconify(self.atoms, message) && self.windows.contains_key(
            message.window,
        ) {
            Step {
                next: self.with_window(
                    message.window,
                    self.windows[message.window].iconify_requested(),
                ),
                actions: seq![WmAction::Send(Request::UnmapWindow { window: message.window })],
                changed: false,
            }
        } else {
            self.idle()
        }
    }

    /// What the reactor does on `event`.
    pub open spec fn step(self, event: WmEvent) -> Step<W> {
        match event {
            WmEvent::CreateNotify { window } => self.on_create(window),
            WmEvent::MapRequest { window } => self.on_map_request(window),
            WmEvent::ConfigureRequest(request) => self.on_configure_request(request),
            WmEvent::ConfigureNotify { window, x, y, width, height, border_width } => self.on_configure(
                window,
                x,
                y,
                width,
                height,
                border_width,
            ),
            WmEvent::ReparentNotify { window, parent } => self.on_reparent(window, parent),
            WmEvent::MapNotify { window } => self.on_map(window),
            WmEvent::UnmapNotify { window } => self.on_unmap(window),
            WmEvent::DestroyNotify { window } => self.on_destroy(window),
            WmEvent::PropertyNotify { window, atom } => self.on_property(window, atom),
            WmEvent::PropertyRead { window, kind, value } => self.on_property_read(
                window,
                kind,
                value,
            ),
            WmEvent::ClientMessage(message) => self.on_client_message(message),
        }
    }

    /// What the reactor does on `events`, taken in order: the state after
    /// the last, all actions in order, and whether any step asked for a
    /// wake-up.
    pub open spec fn run(self, events: Seq<WmEvent>) -> Step<W>
        decreases events.len(),
    {
        if events.len() == 0 {
            self.idle()
        } else {
            let before = self.run(events.drop_last());
            let last = before.next.step(events.last());
            Step {
                next: last.next,
                actions: before.actions + last.actions,
                changed: before.changed || last.changed,
            }
        }
    }

    /// The state after those who wait were woken: nobody waits any more.
    pub open spec fn woken(self) -> WmModel<W> {
        WmModel { wakers: Seq::empty(), ..self }
    }

    /// Whether a waiter that saw generation `seen` of `window` has something
    /// new to look at: the window changed since, or is gone.
    pub open spec fn has_changed(self, window: u32, seen: u32) -> bool {
        !self.windows.contains_key(window) || self.windows[window].property_generation != seen
    }
}

/// What a batch of events leaves to do.
pub struct Batch<W> {
    /// What the reactor wants done, in order.
    pub actions: Vec<WmAction>,
    /// Whom to wake.
    pub wake: Vec<W>,
}

/// What one event leaves to do.
pub struct Reaction {
    /// What the reactor wants done, in order.
    pub actions: Vec<WmAction>,
    /// Whether those who wait on the table are to be woken.
    pub changed: bool,
}

/// The state of the window manager: the window table, the pending ping
/// answers and those who wait for either to change.
pub struct WmData<W> {
    atoms: Atoms,
    wakers: Vec<W>,
    windows: HashMap<u32, WindowRecord>,
    parents: HashMap<u32, u32>,
    pongs: HashSet<u32>,
}

impl<W> View for WmData<W> {
    type V = WmModel<W>;

    closed spec fn view(&self) -> WmModel<W> {
        WmModel {
            atoms: self.atoms,
            wakers: self.wakers@,
            windows: self.windows@.map_values(|record: WindowRecord| record@),
            parents: self.parents@,
            pongs: self.pongs@,
        }
    }
}

/// The request with which the window manager subscribes to the events of the
/// top-level windows: redirected requests, structural changes and property
/// changes below `root`.
pub fn select_events(root: u32) -> (request: Request)
    ensures
        request == (Request::SelectEvents { window: root, event_mask: WM_EVENT_MASK }),
{
    Request::SelectEvents { window: root, event_mask: WM_EVENT_MASK }
}

impl<W> WmData<W> {
    /// A window manager that manages no window yet.
    pub fn new(atoms: Atoms) -> (wm: WmData<W>)
        ensures
            wm@ == WmModel::<W>::empty(atoms),
    {
        let wm = WmData {
            atoms,
            wakers: Vec::new(),
            windows: HashMap::new(),
            parents: HashMap::new(),
            pongs: HashSet::new(),
        };
        assert(wm@.windows =~= Map::<u32, WindowModel>::empty());
        wm
    }

    /// Returns the atoms of the connection.
    pub fn atoms(&self) -> (atoms: &Atoms)
        ensures
            *atoms == self@.atoms,
    {
        &self.atoms
    }

    /// Takes the record of `window` out of the table.
    fn take(&mut self, window: u32) -> (record: Option<WindowRecord>)
        ensures
            record.is_some() == old(self)@.windows.contains_key(window),
            record matches Some(r) ==> r@ == old(self)@.windows[window],
            final(self)@ == (WmModel {
                windows: old(self)@.windows.remove(window),
                ..old(self)@
            }),
    {
        let record = self.windows.remove(&window);
        assert(self@.windows =~= old(self)@.windows.remove(window));
        record
    }

    /// Puts `record` into the table under `window`.
    fn put(&mut self, window: u32, record: WindowRecord)
        ensures
            final(self)@ == old(self)@.with_window(window, record@),
    {
        self.windows.insert(window, record);
        assert(self@.windows =~= old(self)@.windows.insert(window, record@));
    }

    /// Looks up the record of `window`.
    pub fn window(&self, window: u32) -> (record: Option<&WindowRecord>)
        ensures
            record.is_some() == self@.windows.contains_key(window),
            record matches Some(r) ==> r@ == self@.windows[window],
    {
        self.windows.get(&window)
    }

    /// Looks up the record of the window inside container `parent`.
    pub fn parent(&self, parent: u32) -> (record: Option<&WindowRecord>)
        ensures
            record.is_some() == (self@.parents.contains_key(parent)
                && self@.windows.contains_key(self@.parents[parent])),
            record matches Some(r) ==> r@ == self@.windows[self@.parents[parent]],
    {
        match self.parents.get(&parent) {
            Some(window) => self.windows.get(window),
            None => None,
        }
    }

    /// Enters the record of a window that test code has just created, in
    /// place of any record under the same id.
    pub fn register(&mut self, record: WindowRecord)
        ensures
            final(self)@ == old(self)@.with_window(record@.id, record@),
    {
        let window = record.id;
        self.put(window, record);
    }

    /// Drops the record of `window` because its handle is gone. Returns the
    /// request that destroys the container, if the window had one; it is
    /// sent without waiting for a verdict.
    pub fn forget(&mut self, window: u32) -> (request: Option<Request>)
        ensures
            final(self)@ == (WmModel {
                windows: old(self)@.windows.remove(window),
                ..old(self)@
            }),
            request == if old(self)@.windows.contains_key(window) {
                match old(self)@.windows[window].parent_id {
                    Some(parent) => Some(Request::DiscardWindow { window: parent }),
                    None => None,
                }
            } else {
                None
            },
    {
        match self.take(window) {
            Some(record) => match record.parent_id {
                Some(parent) => Some(Request::DiscardWindow { window: parent }),
                None => None,
            },
            None => None,
        }
    }

    /// Wakes everybody: hands out those who wait and forgets them.
    pub fn changed(&mut self) -> (wake: Vec<W>)
        ensures
            wake@ == old(self)@.wakers,
            final(self)@ == old(self)@.woken(),
    {
        let mut wake: Vec<W> = Vec::new();
        std::mem::swap(&mut wake, &mut self.wakers);
        wake
    }

    /// Lets `waiter` join those to be woken at the next change.
    pub fn wait(&mut self, waiter: W)
        ensures
            final(self)@ == (WmModel { wakers: old(self)@.wakers.push(waiter), ..old(self)@ }),
    {
        self.wakers.push(waiter);
    }

    /// Returns the generation of `window`, to be shown again when waiting
    /// for the next change.
    pub fn property_generation(&self, window: u32) -> (generation: Option<u32>)
        ensures
            generation == if self@.windows.contains_key(window) {
                Some(self@.windows[window].property_generation)
            } else {
                None
            },
    {
        match self.windows.get(&window) {
            Some(record) => Some(record.property_generation),
            None => None,
        }
    }

    /// One poll of somebody who waits for `window` to change and last saw
    /// generation `seen`.
    ///
    /// Returns `true` if there is something new: the window changed since,
    /// or it is gone. Otherwise `waiter` joins those to be woken at the next
    /// change.
    pub fn poll_properties_changed(&mut self, window: u32, seen: u32, waiter: W) -> (ready: bool)
        ensures
            ready == old(self)@.has_changed(window, seen),
            final(self)@ == if ready {
                old(self)@
            } else {
                WmModel { wakers: old(self)@.wakers.push(waiter), ..old(self)@ }
            },
    {
        let changed = match self.windows.get(&window) {
            Some(record) => record.property_generation != seen,
            None => true,
        };
        if !changed {
            self.wakers.push(waiter);
        }
        changed
    }

    /// Starts a ping of `window`: an answer left over from an earlier ping
    /// is thrown away, and the ping request is returned.
    pub fn ping(&mut self, window: u32) -> (request: Request)
        ensures
            request == (Request::PostClientMessage {
                message: spec_ping_message(old(self)@.atoms, window),
            }),
            final(self)@ == (WmModel { pongs: old(self)@.pongs.remove(window), ..old(self)@ }),
    {
        self.pongs.remove(&window);
        ping_request(&self.atoms, window)
    }

    /// One poll of somebody who waits for the answer to a ping of `window`.
    ///
    /// Returns `true`, and consumes the answer, if and only if the answer
    /// has arrived. Otherwise `waiter` joins those to be woken at the next
    /// change. There is no other way out: without an answer, every poll
    /// returns `false`.
    pub fn poll_ping(&mut self, window: u32, waiter: W) -> (ready: bool)
        ensures
            ready == old(self)@.pongs.contains(window),
            final(self)@ == if ready {
                WmModel { pongs: old(self)@.pongs.remove(window), ..old(self)@ }
            } else {
                WmModel { wakers: old(self)@.wakers.push(waiter), ..old(self)@ }
            },
    {
        if self.pongs.remove(&window) {
            true
        } else {
            assert(self@.pongs =~= old(self)@.pongs);
            self.wakers.push(waiter);
            false
        }
    }

    /// Reacts to the announcement of a new window.
    pub fn handle_create_notify(&mut self, window: u32) -> (reaction: Reaction)
        ensures
            final(self)@ == old(self)@.on_create(window).next,
            reaction.actions@ == old(self)@.on_create(window).actions,
            reaction.changed == old(self)@.on_create(window).changed,
    {
        let mut record = match self.take(window) {
            Some(record) => record,
            None => WindowRecord::new(window, DirectFormat::unknown()),
        };
        record.created = true;
        self.put(window, record);
        assert(self@.windows =~= old(self)@.on_create(window).next.windows);
        Reaction { actions: Vec::new(), changed: true }
    }

    /// Reacts to a window asking to become visible.
    pub fn handle_map_request(&mut self, window: u32) -> (reaction: Reaction)
        ensures
            final(self)@ == old(self)@.on_map_request(window).next,
            reaction.actions@ == old(self)@.on_map_request(window).actions,
            reaction.changed == old(self)@.on_map_request(window).changed,
    {
        let mut actions: Vec<WmAction> = Vec::new();
        actions.push(WmAction::Send(Request::MapWindow { window }));
        match self.take(window) {
            Some(mut record) => {
                record.desired_state = WindowState::Normal;
                actions.push(WmAction::Send(record.frame_extents_request()));
                self.put(window, record);
                assert(self@.windows =~= old(self)@.on_map_request(window).next.windows);
            },
            None => {
                assert(self@.windows =~= old(self)@.windows);
            },
        }
        assert(actions@ =~= old(self)@.on_map_request(window).actions);
        Reaction { actions, changed: false }
    }

    /// Reacts to a window asking for new geometry or stacking.
    pub fn handle_configure_request(&mut self, request: ConfigureRequest) -> (reaction: Reaction)
        ensures
            final(self)@ == old(self)@.on_configure_request(request).next,
            reaction.actions@ == old(self)@.on_configure_request(request).actions,
            reaction.changed == old(self)@.on_configure_request(request).changed,
    {
        let mut actions: Vec<WmAction> = Vec::new();
        actions.push(WmAction::Send(request.honored()));
        assert(actions@ =~= old(self)@.on_configure_request(request).actions);
        Reaction { actions, changed: false }
    }

    /// Reacts to the geometry of a window having changed.
    pub fn handle_configure_notify(
        &mut self,
        window: u32,
        x: i16,
        y: i16,
        width: u16,
        height: u16,
        border_width: u16,
    ) -> (reaction: Reaction)
        ensures
            final(self)@ == old(self)@.on_configure(window, x, y, width, height, border_width).next,
            reaction.actions@ == old(self)@.on_configure(
                window,
                x,
                y,
                width,
                height,
                border_width,
            ).actions,
            reaction.changed == old(self)@.on_configure(
                window,
                x,
                y,
                width,
                height,
                border_width,
            ).changed,
    {
        match self.take(window) {
            Some(mut record) => {
                record.x = x as i32;
                record.y = y as i32;
                record.width = width as u32;
                record.height = height as u32;
                record.border = border_width as u32;
                record.upgrade();
                self.put(window, record);
                assert(self@.windows =~= old(self)@.on_configure(
                    window,
                    x,
                    y,
                    width,
                    height,
                    border_width,
                ).next.windows);
                Reaction { actions: Vec::new(), changed: true }
            },
            None => {
                assert(self@.windows =~= old(self)@.windows);
                Reaction { actions: Vec::new(), changed: false }
            },
        }
    }

    /// Reacts to a window having been put into a container.
    pub fn handle_reparent_notify(&mut self, window: u32, parent: u32) -> (reaction: Reaction)
        ensures
            final(self)@ == old(self)@.on_reparent(window, parent).next,
            reaction.actions@ == old(self)@.on_reparent(window, parent).actions,
            reaction.changed == old(self)@.on_reparent(window, parent).changed,
    {
        match self.take(window) {
            Some(mut record) => {
                record.parent_id = Some(parent);
                record.upgrade();
                self.put(window, record);
                self.parents.insert(parent, window);
                assert(self@.windows =~= old(self)@.on_reparent(window, parent).next.windows);
                Reaction { actions: Vec::new(), changed: true }
            },
            None => {
                assert(self@.windows =~= old(self)@.windows);
                Reaction { actions: Vec::new(), changed: false }
            },
        }
    }

    /// Reacts to a window having become visible.
    pub fn handle_map_notify(&mut self, window: u32) -> (reaction: Reaction)
        ensures
            final(self)@ == old(self)@.on_map(window).next,
            reaction.actions@ == old(self)@.on_map(window).actions,
            reaction.changed == old(self)@.on_map(window).changed,
    {
        let mut actions: Vec<WmAction> = Vec::new();
        match self.take(window) {
            Some(mut record) => {
                record.mapped = true;
                record.current_state = WindowState::Normal;
                record.upgrade();
                actions.push(
                    WmAction::Send(
                        Request::SetWmState { window, state: record.current_state.wm_state() },
                    ),
                );
                self.put(window, record);
                assert(self@.windows =~= old(self)@.on_map(window).next.windows);
                assert(actions@ =~= old(self)@.on_map(window).actions);
                Reaction { actions, changed: true }
            },
            None => {
                assert(self@.windows =~= old(self)@.windows);
                Reaction { actions, changed: false }
            },
        }
    }

    /// Reacts to a window having stopped being visible.
    pub fn handle_unmap_notify(&mut self, window: u32) -> (reaction: Reaction)
        ensures
            final(self)@ == old(self)@.on_unmap(window).next,
            reaction.actions@ == old(self)@.on_unmap(window).actions,
            reaction.changed == old(self)@.on_unmap(window).changed,
    {
        let mut actions: Vec<WmAction> = Vec::new();
        match self.take(window) {
            Some(mut record) => {
                record.mapped = false;
                record.current_state = match record.desired_state {
                    WindowState::Iconic => WindowState::Iconic,
                    _ => WindowState::Withdrawn,
                };
                record.upgrade();
                actions.push(
                    WmAction::Send(
                        Request::SetWmState { window, state: record.current_state.wm_state() },
                    ),
                );
                self.put(window, record);
                assert(self@.windows =~= old(self)@.on_unmap(window).next.windows);
                assert(actions@ =~= old(self)@.on_unmap(window).actions);
                Reaction { actions, changed: true }
            },
            None => {
                assert(self@.windows =~= old(self)@.windows);
                Reaction { actions, changed: false }
            },
        }
    }

    /// Reacts to a window having been destroyed.
    pub fn handle_destroy_notify(&mut self, window: u32) -> (reaction: Reaction)
        ensures
            final(self)@ == old(self)@.on_destroy(window).next,
            reaction.actions@ == old(self)@.on_destroy(window).actions,
            reaction.changed == old(self)@.on_destroy(window).changed,
    {
        let mut actions: Vec<WmAction> = Vec::new();
        match self.take(window) {
            Some(record) => {
                match record.parent_id {
                    Some(parent) => {
                        self.parents.remove(&parent);
                        actions.push(WmAction::Send(Request::DestroyWindow { window: parent }));
                    },
                    None => {},
                }
                assert(actions@ =~= old(self)@.on_destroy(window).actions);
                Reaction { actions, changed: true }
            },
            None => {
                assert(self@.windows =~= old(self)@.windows);
                Reaction { actions, changed: false }
            },
        }
    }

    /// Reacts to a property of a window having changed.
    pub fn handle_property_notify(&mut self, window: u32, atom: u32) -> (reaction: Reaction)
        ensures
            final(self)@ == old(self)@.on_property(window, atom).next,
            reaction.actions@ == old(self)@.on_property(window, atom).actions,
            reaction.changed == old(self)@.on_property(window, atom).changed,
    {
        let mut actions: Vec<WmAction> = Vec::new();
        match property_kind(&self.atoms, atom) {
            Some(kind) => {
                if self.windows.contains_key(&window) {
                    actions.push(WmAction::ReadProperty { window, kind });
                }
            },
            None => {},
        }
        assert(actions@ =~= old(self)@.on_property(window, atom).actions);
        Reaction { actions, changed: false }
    }

    /// Takes over the value of a property that was read on the reactor's
    /// behalf.
    pub fn handle_property_read(
        &mut self,
        window: u32,
        kind: PropertyKind,
        value: PropertyValue,
    ) -> (reaction: Reaction)
        ensures
            final(self)@ == old(self)@.on_property_read(window, kind, value).next,
            reaction.actions@ == old(self)@.on_property_read(window, kind, value).actions,
            reaction.changed == old(self)@.on_property_read(window, kind, value).changed,
    {
        let mut actions: Vec<WmAction> = Vec::new();
        match self.take(window) {
            Some(mut record) => {
                record.apply_property(&self.atoms, kind, value);
                match kind {
                    PropertyKind::MotifHints => {
                        actions.push(WmAction::Send(record.frame_extents_request()));
                    },
                    _ => {},
                }
                self.put(window, record);
                assert(self@.windows =~= old(self)@.on_property_read(
                    window,
                    kind,
                    value,
                ).next.windows);
                assert(actions@ =~= old(self)@.on_property_read(window, kind, value).actions);
                Reaction { actions, changed: true }
            },
            None => {
                assert(self@.windows =~= old(self)@.windows);
                Reaction { actions, changed: false }
            },
        }
    }

    /// Reacts to a message that a client sent.
    pub fn handle_client_message(&mut self, message: ClientMessage) -> (reaction: Reaction)
        ensures
            final(self)@ == old(self)@.on_client_message(message).next,
            reaction.actions@ == old(self)@.on_client_message(message).actions,
            reaction.changed == old(self)@.on_client_message(message).changed,
    {
        let mut actions: Vec<WmAction> = Vec::new();
        if message.message_type == self.atoms.wm_protocols && message.data[0]
            == self.atoms.net_wm_ping {
            self.pongs.insert(message.data[2]);
            return Reaction { actions, changed: true };
        }
        if message.message_type == self.atoms.wm_change_state && message.data[0]
            == WindowState::Iconic.wm_state() {
            match self.take(message.window) {
                Some(mut record) => {
                    record.desired_state = WindowState::Iconic;
                    self.put(message.window, record);
                    assert(self@.windows =~= old(self)@.on_client_message(message).next.windows);
                    actions.push(WmAction::Send(Request::UnmapWindow { window: message.window }));
                    assert(actions@ =~= old(self)@.on_client_message(message).actions);
                },
                None => {
                    assert(self@.windows =~= old(self)@.windows);
                },
            }
        }
        Reaction { actions, changed: false }
    }

    /// Reacts to one event.
    ///
    /// The table changes as [`WmModel::step`] says; the returned actions are
    /// to be carried out in order. Those who wait are not woken here: see
    /// [`WmData::changed`] and [`WmData::handle_events`].
    pub fn handle_event(&mut self, event: WmEvent) -> (reaction: Reaction)
        ensures
            final(self)@ == old(self)@.step(event).next,
            reaction.actions@ == old(self)@.step(event).actions,
            reaction.changed == old(self)@.step(event).changed,
    {
        match event {
            WmEvent::CreateNotify { window } => self.handle_create_notify(window),
            WmEvent::MapRequest { window } => self.handle_map_request(window),
            WmEvent::ConfigureRequest(request) => self.handle_configure_request(request),
            WmEvent::ConfigureNotify {
                window,
                x,
                y,
                width,
                height,
                border_width,
            } => self.handle_configure_notify(window, x, y, width, height, border_width),
            WmEvent::ReparentNotify { window, parent } => self.handle_reparent_notify(window, parent),
            WmEvent::MapNotify { window } => self.handle_map_notify(window),
            WmEvent::UnmapNotify { window } => self.handle_unmap_notify(window),
            WmEvent::DestroyNotify { window } => self.handle_destroy_notify(window),
            WmEvent::PropertyNotify { window, atom } => self.handle_property_notify(window, atom),
            WmEvent::PropertyRead { window, kind, value } => self.handle_property_read(
                window,
                kind,
                value,
            ),
            WmEvent::ClientMessage(message) => self.handle_client_message(message),
        }
    }
    /// Reacts to all events of one wake-up of the reactor, in order.
    ///
    /// The table changes as [`WmModel::run`] says and the actions of all
    /// events are returned in order. Those who wait are woken once for the
    /// whole batch, and only if some event asked for it.
    pub fn handle_events(&mut self, events: Vec<WmEvent>) -> (batch: Batch<W>)
        ensures
            batch.actions@ == old(self)@.run(events@).actions,
            batch.wake@ == if old(self)@.run(events@).changed {
                old(self)@.wakers
            } else {
                Seq::empty()
            },
            final(self)@ == if old(self)@.run(events@).changed {
                old(self)@.run(events@).next.woken()
            } else {
                old(self)@.run(events@).next
            },
    {
        let ghost all = events@;
        let ghost start = self@;
        let mut actions: Vec<WmAction> = Vec::new();
        let mut changed = false;
        assert(all.take(0) =~= Seq::<WmEvent>::empty());
        for event in it: events
            invariant
                it.seq() == all,
                self@ == start.run(all.take(it.index() as int)).next,
                actions@ == start.run(all.take(it.index() as int)).actions,
                changed == start.run(all.take(it.index() as int)).changed,
        {
            proof {
                let done = all.take(it.index() as int);
                let more = all.take(it.index() as int + 1);
                assert(more.drop_last() =~= done);
                assert(more.last() == event);
            }
            let mut reaction = self.handle_event(event);
            actions.append(&mut reaction.actions);
            changed = changed || reaction.changed;
        }
        assert(all.take(all.len() as int) =~= all);
        proof {
            start.lemma_run_keeps_wakers(all);
        }
        let wake = if changed {
            self.changed()
        } else {
            Vec::new()
        };
        Batch { actions, wake }
    }
}

impl<W> WmModel<W> {
    /// No event touches the list of those who wait, or the atoms.
    pub proof fn lemma_run_keeps_wakers(self, events: Seq<WmEvent>)
        ensures
            self.run(events).next.wakers == self.wakers,
            self.run(events).next.atoms == self.atoms,
        decreases events.len(),
    {
        if events.len() > 0 {
            self.lemma_run_keeps_wakers(events.drop_last());
        }
    }

    /// Mapping a window writes the normal state, unmapping it writes the
    /// withdrawn or the iconic state, and either way the change can be seen
    /// by whoever saw the generation before: the generation has moved.
    pub proof fn lemma_map_state_mirrors(self, window: u32)
        requires
            self.windows.contains_key(window),
        ensures
            self.on_map(window).actions == seq![
                WmAction::Send(
                    Request::SetWmState { window, state: WindowState::Normal.spec_wm_state() },
                ),
            ],
            self.on_map(window).next.windows[window].mapped,
            self.on_map(window).next.windows[window].current_state == WindowState::Normal,
            self.on_map(window).next.has_changed(window, self.windows[window].property_generation),
            self.on_unmap(window).actions == seq![
                WmAction::Send(
                    Request::SetWmState {
                        window,
                        state: self.windows[window].unmapped_state().spec_wm_state(),
                    },
                ),
            ],
            self.windows[window].unmapped_state() == WindowState::Withdrawn
                || self.windows[window].unmapped_state() == WindowState::Iconic,
            !self.on_unmap(window).next.windows[window].mapped,
            self.on_unmap(window).next.windows[window].current_state
                == self.windows[window].unmapped_state(),
            self.on_unmap(window).next.has_changed(
                window,
                self.windows[window].property_generation,
            ),
    {
        lemma_generation_moves(self.windows[window].property_generation);
    }

    /// The `WM_STATE` values that a run of map and unmap notifications of
    /// one window writes, in order. `maps[i]` says whether the notification
    /// number `i` is a map.
    pub open spec fn states_written(self, window: u32, maps: Seq<bool>) -> Seq<u32>
        decreases maps.len(),
    {
        if maps.len() == 0 {
            Seq::empty()
        } else {
            let before = self.after_maps(window, maps.drop_last());
            self.states_written(window, maps.drop_last()).push(
                if maps.last() {
                    before.windows[window].mapped_now().current_state.spec_wm_state()
                } else {
                    before.windows[window].unmapped_now().current_state.spec_wm_state()
                },
            )
        }
    }

    /// The state after a run of map and unmap notifications of one window.
    pub open spec fn after_maps(self, window: u32, maps: Seq<bool>) -> WmModel<W>
        decreases maps.len(),
    {
        if maps.len() == 0 {
            self
        } else {
            let before = self.after_maps(window, maps.drop_last());
            if maps.last() {
                before.on_map(window).next
            } else {
                before.on_unmap(window).next
            }
        }
    }

    /// Map and unmap notifications never take a window out of the table.
    pub proof fn lemma_after_maps_keeps_window(self, window: u32, maps: Seq<bool>)
        requires
            self.windows.contains_key(window),
        ensures
            self.after_maps(window, maps).windows.contains_key(window),
        decreases maps.len(),
    {
        if maps.len() > 0 {
            self.lemma_after_maps_keeps_window(window, maps.drop_last());
        }
    }

    /// However a window is mapped and unmapped in turn, `WM_STATE` mirrors
    /// it strictly: every map writes the normal state (1), every unmap
    /// writes the withdrawn (0) or the iconic state (3).
    pub proof fn lemma_map_unmap_alternates(self, window: u32, maps: Seq<bool>)
        requires
            self.windows.contains_key(window),
        ensures
            self.states_written(window, maps).len() == maps.len(),
            forall|i: int|
                0 <= i < maps.len() ==> if maps[i] {
                    #[trigger] self.states_written(window, maps)[i] == 1
                } else {
                    self.states_written(window, maps)[i] == 0 || self.states_written(
                        window,
                        maps,
                    )[i] == 3
                },
        decreases maps.len(),
    {
        if maps.len() > 0 {
            let front = maps.drop_last();
            self.lemma_map_unmap_alternates(window, front);
            self.lemma_after_maps_keeps_window(window, front);
            let before = self.after_maps(window, front);
            before.lemma_map_state_mirrors(window);
            let written = self.states_written(window, maps);
            let earlier = self.states_written(window, front);
            assert forall|i: int| 0 <= i < maps.len() implies if maps[i] {
                #[trigger] written[i] == 1
            } else {
                written[i] == 0 || written[i] == 3
            } by {
                if i < maps.len() - 1 {
                    assert(written[i] == earlier[i]);
                    assert(front[i] == maps[i]);
                }
            }
        }
    }

    /// In a run of map and unmap notifications, every single one can be
    /// seen before the next is dealt with: after notification number `i` the
    /// generation of the window differs from the one before it.
    pub proof fn lemma_each_notification_shows(self, window: u32, maps: Seq<bool>, i: int)
        requires
            self.windows.contains_key(window),
            0 <= i < maps.len(),
        ensures
            self.after_maps(window, maps.take(i)).windows.contains_key(window),
            self.after_maps(window, maps.take(i + 1)).has_changed(
                window,
                self.after_maps(window, maps.take(i)).windows[window].property_generation,
            ),
    {
        let upto = maps.take(i + 1);
        assert(upto.drop_last() =~= maps.take(i));
        self.lemma_after_maps_keeps_window(window, maps.take(i));
        self.after_maps(window, maps.take(i)).lemma_map_state_mirrors(window);
    }

    /// The answer to a ping arrives only as a client message that is a ping
    /// answer for that very window: no other event makes a pending ping
    /// ready.
    pub proof fn lemma_only_pong_answers(self, event: WmEvent, window: u32)
        requires
            !self.pongs.contains(window),
            !(event matches WmEvent::ClientMessage(message) && spec_is_pong(self.atoms, message)
                && message.data[2] == window),
        ensures
            !self.step(event).next.pongs.contains(window),
            self.step(event).next.atoms == self.atoms,
    {
    }

    /// Whether none of `events` is a ping answer for `window`.
    pub open spec fn no_pong_among(self, events: Seq<WmEvent>, window: u32) -> bool {
        forall|i: int|
            0 <= i < events.len() ==> !(#[trigger] events[i] matches WmEvent::ClientMessage(message)
                && spec_is_pong(self.atoms, message) && message.data[2] == window)
    }

    /// A ping of a window that never answers stays pending: whatever else
    /// happens, for however long, the answer is not there.
    pub proof fn lemma_ping_stays_pending(self, events: Seq<WmEvent>, window: u32)
        requires
            !self.pongs.contains(window),
            self.no_pong_among(events, window),
        ensures
            !self.run(events).next.pongs.contains(window),
        decreases events.len(),
    {
        if events.len() > 0 {
            let front = events.drop_last();
            assert forall|i: int| 0 <= i < front.len() implies !(#[trigger] front[i] matches WmEvent::ClientMessage(
                message,
            ) && spec_is_pong(self.atoms, message) && message.data[2] == window) by {
                assert(front[i] == events[i]);
            }
            self.lemma_ping_stays_pending(front, window);
            self.lemma_run_keeps_wakers(front);
            self.run(front).next.lemma_only_pong_answers(events.last(), window);
        }
    }
}

/// Counting one more change always gives another generation, and the next
/// higher one unless the counter wraps around.
pub proof fn lemma_generation_moves(generation: u32)
    ensures
        generation.wrapping_add(1) != generation,
        generation < u32::MAX ==> generation.wrapping_add(1) == generation + 1,
{
}

} // verus!
