//! The events that the toolkit under test produces, as test code consumes
//! them.
//!
//! Events are opaque to this crate but for their kind: what a key event or a
//! mouse event carries is the payload `P`, which is handed through untouched.
use vstd::prelude::*;

verus! {

/// An event that test code injected itself.
#[derive(Clone, Copy, Debug, PartialEq, Eq, Structural)]
pub struct UserEvent(pub usize);

/// What happened to a window.
#[derive(Clone, Debug, PartialEq, Eq)]
pub enum WindowEvent<P> {
    Destroyed,
    Focused(bool),
    Moved { x: i32, y: i32 },
    Resized { width: u32, height: u32 },
    CloseRequested,
    KeyboardInput(P),
    /// The bits of the modifiers that are now active.
    ModifiersChanged(u32),
    MouseInput(P),
    CursorLeft(P),
    CursorEntered(P),
    CursorMoved(P),
    MouseWheel(P),
}

/// A window event and the window it happened to.
#[derive(Clone, Debug, PartialEq, Eq)]
pub struct WindowEventExt<P> {
    pub window_id: u64,
    pub event: WindowEvent<P>,
}

/// What happened on a device.
#[derive(Clone, Debug, PartialEq, Eq)]
pub enum DeviceEvent<P> {
    Added,
    Removed,
    Key(P),
    MouseMotion(P),
    MouseWheel(P),
    Button(P),
}

/// A device event and the device it happened on.
#[derive(Clone, Debug, PartialEq, Eq)]
pub struct DeviceEventExt<P> {
    pub device_id: u64,
    pub event: DeviceEvent<P>,
}

/// An event of the toolkit, normalized.
#[derive(Clone, Debug, PartialEq, Eq)]
pub enum Event<P> {
    UserEvent(UserEvent),
    WindowEvent(WindowEventExt<P>),
    DeviceEvent(DeviceEventExt<P>),
}

/// The kinds of event that test code waits for.
#[derive(Clone, Copy, Debug, PartialEq, Eq, Structural)]
pub enum EventFilter {
    User,
    Window,
    Device,
    DeviceAdded,
    DeviceRemoved,
    DeviceMouseMotion,
    DeviceMouseWheel,
    DeviceKey,
    DeviceButton,
    WindowDestroyed,
    WindowMouseInput,
    WindowCursorLeft,
    WindowCursorEntered,
    WindowCursorMoved,
    WindowMouseWheel,
    WindowFocus,
    WindowMove,
    WindowResize,
    WindowCloseRequested,
    WindowKeyboardInput,
    WindowModifiers,
}

impl EventFilter {
    /// Whether `event` is of the kind that the filter waits for.
    pub open spec fn spec_accepts<P>(self, event: Event<P>) -> bool {
        match self {
            EventFilter::User => event is UserEvent,
            EventFilter::Window => event is WindowEvent,
            EventFilter::Device => event is DeviceEvent,
            EventFilter::DeviceAdded => event matches Event::DeviceEvent(e) && e.event is Added,
            EventFilter::DeviceRemoved => event matches Event::DeviceEvent(e) && e.event is Removed,
            EventFilter::DeviceMouseMotion => event matches Event::DeviceEvent(e)
                && e.event is MouseMotion,
            EventFilter::DeviceMouseWheel => event matches Event::DeviceEvent(e)
                && e.event is MouseWheel,
            EventFilter::DeviceKey => event matches Event::DeviceEvent(e) && e.event is Key,
            EventFilter::DeviceButton => event matches Event::DeviceEvent(e) && e.event is Button,
            EventFilter::WindowDestroyed => event matches Event::WindowEvent(e)
                && e.event is Destroyed,
            EventFilter::WindowMouseInput => event matches Event::WindowEvent(e)
                && e.event is MouseInput,
            EventFilter::WindowCursorLeft => event matches Event::WindowEvent(e)
                && e.event is CursorLeft,
            EventFilter::WindowCursorEntered => event matches Event::WindowEvent(e)
                && e.event is CursorEntered,
            EventFilter::WindowCursorMoved => event matches Event::WindowEvent(e)
                && e.event is CursorMoved,
            EventFilter::WindowMouseWheel => event matches Event::WindowEvent(e)
                && e.event is MouseWheel,
            EventFilter::WindowFocus => event matches Event::WindowEvent(e) && e.event is Focused,
            EventFilter::WindowMove => event matches Event::WindowEvent(e) && e.event is Moved,
            EventFilter::WindowResize => event matches Event::WindowEvent(e) && e.event is Resized,
            EventFilter::WindowCloseRequested => event matches Event::WindowEvent(e)
                && e.event is CloseRequested,
            EventFilter::WindowKeyboardInput => event matches Event::WindowEvent(e)
                && e.event is KeyboardInput,
            EventFilter::WindowModifiers => event matches Event::WindowEvent(e)
                && e.event is ModifiersChanged,
        }
    }

    /// Returns whether `event` is of the kind that the filter waits for.
    pub fn accepts<P>(self, event: &Event<P>) -> (accepted: bool)
        ensures
            accepted == self.spec_accepts(*event),
    {
        match event {
            Event::UserEvent(_) => match self {
                EventFilter::User => true,
                _ => false,
            },
            Event::DeviceEvent(e) => match (self, &e.event) {
                (EventFilter::Device, _) => true,
                (EventFilter::DeviceAdded, DeviceEvent::Added) => true,
                (EventFilter::DeviceRemoved, DeviceEvent::Removed) => true,
                (EventFilter::DeviceMouseMotion, DeviceEvent::MouseMotion(_)) => true,
                (EventFilter::DeviceMouseWheel, DeviceEvent::MouseWheel(_)) => true,
                (EventFilter::DeviceKey, DeviceEvent::Key(_)) => true,
                (EventFilter::DeviceButton, DeviceEvent::Button(_)) => true,
                _ => false,
            },
            Event::WindowEvent(e) => match (self, &e.event) {
                (EventFilter::Window, _) => true,
                (EventFilter::WindowDestroyed, WindowEvent::Destroyed) => true,
                (EventFilter::WindowMouseInput, WindowEvent::MouseInput(_)) => true,
                (EventFilter::WindowCursorLeft, WindowEvent::CursorLeft(_)) => true,
                (EventFilter::WindowCursorEntered, WindowEvent::CursorEntered(_)) => true,
                (EventFilter::WindowCursorMoved, WindowEvent::CursorMoved(_)) => true,
                (EventFilter::WindowMouseWheel, WindowEvent::MouseWheel(_)) => true,
                (EventFilter::WindowFocus, WindowEvent::Focused(_)) => true,
                (EventFilter::WindowMove, WindowEvent::Moved { .. }) => true,
                (EventFilter::WindowResize, WindowEvent::Resized { .. }) => true,
                (EventFilter::WindowCloseRequested, WindowEvent::CloseRequested) => true,
                (EventFilter::WindowKeyboardInput, WindowEvent::KeyboardInput(_)) => true,
                (EventFilter::WindowModifiers, WindowEvent::ModifiersChanged(_)) => true,
                _ => false,
            },
        }
    }
}

/// Index of the first event at or after `from` that `filter` accepts, or
/// the number of events if there is none.
pub open spec fn spec_first_accepted<P>(
    events: Seq<Event<P>>,
    filter: EventFilter,
    from: int,
) -> int
    decreases events.len() - from,
{
    if from >= events.len() {
        events.len() as int
    } else if from < 0 {
        from
    } else if filter.spec_accepts(events[from]) {
        from
    } else {
        spec_first_accepted(events, filter, from + 1)
    }
}

/// The first accepted event lies within the sequence, nothing before it is
/// accepted, and it is accepted itself.
pub proof fn lemma_first_accepted<P>(events: Seq<Event<P>>, filter: EventFilter, from: int)
    requires
        0 <= from <= events.len(),
    ensures
        from <= spec_first_accepted(events, filter, from) <= events.len(),
        forall|i: int|
            from <= i < spec_first_accepted(events, filter, from) ==> !filter.spec_accepts(
                #[trigger] events[i],
            ),
        spec_first_accepted(events, filter, from) < events.len() ==> filter.spec_accepts(
            events[spec_first_accepted(events, filter, from)],
        ),
    decreases events.len() - from,
{
    if from < events.len() && !filter.spec_accepts(events[from]) {
        lemma_first_accepted(events, filter, from + 1);
    }
}

/// What waiting for `filter` does to pending `events`: the first accepted
/// event is taken, everything up to and including it is consumed. With no
/// accepted event, everything is consumed and nothing is taken.
pub open spec fn spec_next<P>(events: Seq<Event<P>>, filter: EventFilter) -> (
    Option<Event<P>>,
    Seq<Event<P>>,
) {
    let first = spec_first_accepted(events, filter, 0);
    if first < events.len() {
        (Some(events[first]), events.skip(first + 1))
    } else {
        (None, Seq::empty())
    }
}

/// A user event, seen as an event.
pub open spec fn spec_user<P>(event: Option<UserEvent>) -> Option<Event<P>> {
    match event {
        Some(e) => Some(Event::UserEvent(e)),
        None => None,
    }
}

/// A window event, seen as an event.
pub open spec fn spec_window<P>(event: Option<WindowEventExt<P>>) -> Option<Event<P>> {
    match event {
        Some(e) => Some(Event::WindowEvent(e)),
        None => None,
    }
}

/// A device event, seen as an event.
pub open spec fn spec_device<P>(event: Option<DeviceEventExt<P>>) -> Option<Event<P>> {
    match event {
        Some(e) => Some(Event::DeviceEvent(e)),
        None => None,
    }
}

impl EventFilter {
    /// Whether the filter accepts window events only.
    pub open spec fn is_window_filter(self) -> bool {
        match self {
            EventFilter::Window
            | EventFilter::WindowDestroyed
            | EventFilter::WindowMouseInput
            | EventFilter::WindowCursorLeft
            | EventFilter::WindowCursorEntered
            | EventFilter::WindowCursorMoved
            | EventFilter::WindowMouseWheel
            | EventFilter::WindowFocus
            | EventFilter::WindowMove
            | EventFilter::WindowResize
            | EventFilter::WindowCloseRequested
            | EventFilter::WindowKeyboardInput
            | EventFilter::WindowModifiers => true,
            _ => false,
        }
    }

    /// Whether the filter accepts device events only.
    pub open spec fn is_device_filter(self) -> bool {
        match self {
            EventFilter::Device
            | EventFilter::DeviceAdded
            | EventFilter::DeviceRemoved
            | EventFilter::DeviceMouseMotion
            | EventFilter::DeviceMouseWheel
            | EventFilter::DeviceKey
            | EventFilter::DeviceButton => true,
            _ => false,
        }
    }
}

/// A source of events that hands them out one by one, oldest first.
pub trait EventStream<P> {
    /// The events that have arrived and were not handed out yet, oldest
    /// first.
    spec fn pending(&self) -> Seq<Event<P>>;

    /// Takes the oldest pending event, or returns `None` if nothing is
    /// pending. An event is handed out once: taking it removes it.
    fn event(&mut self) -> (event: Option<Event<P>>)
        ensures
            ({
                let events = old(self).pending();
                if events.len() == 0 {
                    event.is_none() && final(self).pending() == events
                } else {
                    event == Some(events[0]) && final(self).pending() == events.skip(1)
                }
            }),
    ;

    /// Returns whether the stream may still produce events.
    ///
    /// A stream is fed by a source that can always run again, so it never
    /// runs dry for good: the answer is always yes, and a wait on a stream
    /// with nothing pending may always end.
    fn has_more(&self) -> (more: bool)
        ensures
            more,
    {
        true
    }

    /// Takes events until one is of the kind that `filter` waits for, and
    /// returns that one. Events of other kinds that are older are dropped.
    /// If no pending event is accepted, all are dropped and `None` is
    /// returned: the caller has to wait for more.
    fn next_accepted(&mut self, filter: EventFilter) -> (event: Option<Event<P>>)
        ensures
            event == spec_next(old(self).pending(), filter).0,
            final(self).pending() == spec_next(old(self).pending(), filter).1,
    {
        let ghost events = self.pending();
        let ghost mut taken: int = 0;
        proof {
            lemma_first_accepted(events, filter, 0);
            assert(events.skip(0) =~= events);
        }
        loop
            invariant
                events == old(self).pending(),
                0 <= taken <= events.len(),
                self.pending() == events.skip(taken),
                spec_first_accepted(events, filter, 0) == spec_first_accepted(
                    events,
                    filter,
                    taken,
                ),
            decreases events.len() - taken,
        {
            match self.event() {
                Some(event) => {
                    proof {
                        assert(events.skip(taken)[0] == events[taken]);
                        assert(events.skip(taken).skip(1) =~= events.skip(taken + 1));
                    }
                    if filter.accepts(&event) {
                        proof {
                            lemma_first_accepted(events, filter, taken);
                        }
                        return Some(event);
                    }
                    proof {
                        taken = taken + 1;
                    }
                },
                None => {
                    proof {
                        assert(events.skip(taken).len() == 0);
                        assert(taken == events.len());
                    }
                    return None;
                },
            }
        }
    }

    /// Waits for an event that test code injected itself; see
    /// [`EventStream::next_accepted`] for what becomes of older events.
    fn user_event(&mut self) -> (event: Option<UserEvent>)
        ensures
            spec_user::<P>(event) == spec_next(old(self).pending(), EventFilter::User).0,
            final(self).pending() == spec_next(old(self).pending(), EventFilter::User).1,
    {
        proof {
            lemma_first_accepted(self.pending(), EventFilter::User, 0);
        }
        match self.next_accepted(EventFilter::User) {
            Some(Event::UserEvent(event)) => Some(event),
            _ => None,
        }
    }

    /// Waits for a window event that `filter` accepts. `filter` must be one
    /// of the filters for window events.
    fn next_window_event(&mut self, filter: EventFilter) -> (event: Option<WindowEventExt<P>>)
        requires
            filter.is_window_filter(),
        ensures
            spec_window(event) == spec_next(old(self).pending(), filter).0,
            final(self).pending() == spec_next(old(self).pending(), filter).1,
    {
        proof {
            lemma_first_accepted(self.pending(), filter, 0);
        }
        match self.next_accepted(filter) {
            Some(Event::WindowEvent(event)) => Some(event),
            _ => None,
        }
    }

    /// Waits for a device event that `filter` accepts. `filter` must be one
    /// of the filters for device events.
    fn next_device_event(&mut self, filter: EventFilter) -> (event: Option<DeviceEventExt<P>>)
        requires
            filter.is_device_filter(),
        ensures
            spec_device(event) == spec_next(old(self).pending(), filter).0,
            final(self).pending() == spec_next(old(self).pending(), filter).1,
    {
        proof {
            lemma_first_accepted(self.pending(), filter, 0);
        }
        match self.next_accepted(filter) {
            Some(Event::DeviceEvent(event)) => Some(event),
            _ => None,
        }
    }

    /// Waits for a window event.
    fn window_event(&mut self) -> (event: Option<WindowEventExt<P>>)
        ensures
            spec_window(event) == spec_next(old(self).pending(), EventFilter::Window).0,
            final(self).pending() == spec_next(old(self).pending(), EventFilter::Window).1,
    {
        self.next_window_event(EventFilter::Window)
    }

    /// Waits for the destruction of a window.
    fn window_destroyed_event(&mut self) -> (event: Option<WindowEventExt<P>>)
        ensures
            spec_window(event) == spec_next(old(self).pending(), EventFilter::WindowDestroyed).0,
            final(self).pending() == spec_next(old(self).pending(), EventFilter::WindowDestroyed).1,
    {
        self.next_window_event(EventFilter::WindowDestroyed)
    }

    /// Waits for mouse input on a window.
    fn window_mouse_input_event(&mut self) -> (event: Option<WindowEventExt<P>>)
        ensures
            spec_window(event) == spec_next(old(self).pending(), EventFilter::WindowMouseInput).0,
            final(self).pending() == spec_next(old(self).pending(), EventFilter::WindowMouseInput).1,
    {
        self.next_window_event(EventFilter::WindowMouseInput)
    }

    /// Waits for the cursor leaving a window.
    fn window_cursor_left(&mut self) -> (event: Option<WindowEventExt<P>>)
        ensures
            spec_window(event) == spec_next(old(self).pending(), EventFilter::WindowCursorLeft).0,
            final(self).pending() == spec_next(old(self).pending(), EventFilter::WindowCursorLeft).1,
    {
        self.next_window_event(EventFilter::WindowCursorLeft)
    }

    /// Waits for the cursor entering a window.
    fn window_cursor_entered(&mut self) -> (event: Option<WindowEventExt<P>>)
        ensures
            spec_window(event) == spec_next(old(self).pending(), EventFilter::WindowCursorEntered).0,
            final(self).pending() == spec_next(old(self).pending(), EventFilter::WindowCursorEntered).1,
    {
        self.next_window_event(EventFilter::WindowCursorEntered)
    }

    /// Waits for the cursor moving in a window.
    fn window_cursor_moved(&mut self) -> (event: Option<WindowEventExt<P>>)
        ensures
            spec_window(event) == spec_next(old(self).pending(), EventFilter::WindowCursorMoved).0,
            final(self).pending() == spec_next(old(self).pending(), EventFilter::WindowCursorMoved).1,
    {
        self.next_window_event(EventFilter::WindowCursorMoved)
    }

    /// Waits for the mouse wheel turning over a window.
    fn window_mouse_wheel(&mut self) -> (event: Option<WindowEventExt<P>>)
        ensures
            spec_window(event) == spec_next(old(self).pending(), EventFilter::WindowMouseWheel).0,
            final(self).pending() == spec_next(old(self).pending(), EventFilter::WindowMouseWheel).1,
    {
        self.next_window_event(EventFilter::WindowMouseWheel)
    }

    /// Waits for a window gaining or losing the focus.
    fn window_focus_event(&mut self) -> (event: Option<WindowEventExt<P>>)
        ensures
            spec_window(event) == spec_next(old(self).pending(), EventFilter::WindowFocus).0,
            final(self).pending() == spec_next(old(self).pending(), EventFilter::WindowFocus).1,
    {
        self.next_window_event(EventFilter::WindowFocus)
    }

    /// Waits for a window moving.
    fn window_move_event(&mut self) -> (event: Option<WindowEventExt<P>>)
        ensures
            spec_window(event) == spec_next(old(self).pending(), EventFilter::WindowMove).0,
            final(self).pending() == spec_next(old(self).pending(), EventFilter::WindowMove).1,
    {
        self.next_window_event(EventFilter::WindowMove)
    }

    /// Waits for a window changing its size.
    fn window_resize_event(&mut self) -> (event: Option<WindowEventExt<P>>)
        ensures
            spec_window(event) == spec_next(old(self).pending(), EventFilter::WindowResize).0,
            final(self).pending() == spec_next(old(self).pending(), EventFilter::WindowResize).1,
    {
        self.next_window_event(EventFilter::WindowResize)
    }

    /// Waits for a window being asked to close.
    fn window_close_requested(&mut self) -> (event: Option<WindowEventExt<P>>)
        ensures
            spec_window(event) == spec_next(old(self).pending(), EventFilter::WindowCloseRequested).0,
            final(self).pending() == spec_next(old(self).pending(), EventFilter::WindowCloseRequested).1,
    {
        self.next_window_event(EventFilter::WindowCloseRequested)
    }

    /// Waits for keyboard input on a window.
    fn window_keyboard_input(&mut self) -> (event: Option<WindowEventExt<P>>)
        ensures
            spec_window(event) == spec_next(old(self).pending(), EventFilter::WindowKeyboardInput).0,
            final(self).pending() == spec_next(old(self).pending(), EventFilter::WindowKeyboardInput).1,
    {
        self.next_window_event(EventFilter::WindowKeyboardInput)
    }

    /// Waits for a change of the active modifiers.
    fn window_modifiers(&mut self) -> (event: Option<WindowEventExt<P>>)
        ensures
            spec_window(event) == spec_next(old(self).pending(), EventFilter::WindowModifiers).0,
            final(self).pending() == spec_next(old(self).pending(), EventFilter::WindowModifiers).1,
    {
        self.next_window_event(EventFilter::WindowModifiers)
    }

    /// Waits for a device event.
    fn device_event(&mut self) -> (event: Option<DeviceEventExt<P>>)
        ensures
            spec_device(event) == spec_next(old(self).pending(), EventFilter::Device).0,
            final(self).pending() == spec_next(old(self).pending(), EventFilter::Device).1,
    {
        self.next_device_event(EventFilter::Device)
    }

    /// Waits for a device being added.
    fn device_added_event(&mut self) -> (event: Option<DeviceEventExt<P>>)
        ensures
            spec_device(event) == spec_next(old(self).pending(), EventFilter::DeviceAdded).0,
            final(self).pending() == spec_next(old(self).pending(), EventFilter::DeviceAdded).1,
    {
        self.next_device_event(EventFilter::DeviceAdded)
    }

    /// Waits for a device being removed.
    fn device_removed_event(&mut self) -> (event: Option<DeviceEventExt<P>>)
        ensures
            spec_device(event) == spec_next(old(self).pending(), EventFilter::DeviceRemoved).0,
            final(self).pending() == spec_next(old(self).pending(), EventFilter::DeviceRemoved).1,
    {
        self.next_device_event(EventFilter::DeviceRemoved)
    }

    /// Waits for mouse motion on a device.
    fn device_mouse_motion_event(&mut self) -> (event: Option<DeviceEventExt<P>>)
        ensures
            spec_device(event) == spec_next(old(self).pending(), EventFilter::DeviceMouseMotion).0,
            final(self).pending() == spec_next(old(self).pending(), EventFilter::DeviceMouseMotion).1,
    {
        self.next_device_event(EventFilter::DeviceMouseMotion)
    }

    /// Waits for the mouse wheel of a device turning.
    fn device_mouse_wheel_event(&mut self) -> (event: Option<DeviceEventExt<P>>)
        ensures
            spec_device(event) == spec_next(old(self).pending(), EventFilter::DeviceMouseWheel).0,
            final(self).pending() == spec_next(old(self).pending(), EventFilter::DeviceMouseWheel).1,
    {
        self.next_device_event(EventFilter::DeviceMouseWheel)
    }

    /// Waits for a key event of a device.
    fn device_key_event(&mut self) -> (event: Option<DeviceEventExt<P>>)
        ensures
            spec_device(event) == spec_next(old(self).pending(), EventFilter::DeviceKey).0,
            final(self).pending() == spec_next(old(self).pending(), EventFilter::DeviceKey).1,
    {
        self.next_device_event(EventFilter::DeviceKey)
    }

    /// Waits for a button event of a device.
    fn device_button_event(&mut self) -> (event: Option<DeviceEventExt<P>>)
        ensures
            spec_device(event) == spec_next(old(self).pending(), EventFilter::DeviceButton).0,
            final(self).pending() == spec_next(old(self).pending(), EventFilter::DeviceButton).1,
    {
        self.next_device_event(EventFilter::DeviceButton)
    }
}

} // verus!
