//! Waiting for a window to reach a state.
//!
//! Test code names what it waits for; a poll checks the window table and, if
//! the goal is not met, leaves the waiter with the window manager to be
//! woken at the next change. Nothing here blocks and nothing times out.
use crate::window::{
    spec_icon_view, spec_text, BackendIcon, WindowModel, WindowProperties, WindowRecord,
};
use crate::wm::{WmData, WmModel};
use vstd::prelude::*;

verus! {

/// A state of a window that test code waits for.
#[derive(Clone, Debug, PartialEq, Eq)]
pub enum PropertyGoal {
    Mapped(bool),
    AlwaysOnTop(bool),
    Decorations(bool),
    Title(String),
    InnerSize { width: u32, height: u32 },
    Icon(Option<BackendIcon>),
    OuterPosition { x: i32, y: i32 },
    Maximized(bool),
    Minimized(bool),
    MinSize(Option<(u32, u32)>),
    MaxSize(Option<(u32, u32)>),
    Attention(bool),
    Class(String),
    Instance(String),
    Resizable(bool),
}

impl PropertyGoal {
    /// Whether `window` is in the state that the goal names.
    ///
    /// A title that is not known for certain meets no title goal, and a
    /// window whose maximize flags disagree meets no maximize goal.
    pub open spec fn spec_met(self, window: WindowModel) -> bool {
        match self {
            PropertyGoal::Mapped(mapped) => window.mapped == mapped,
            PropertyGoal::AlwaysOnTop(above) => window.always_on_top == above,
            PropertyGoal::Decorations(decorations) => window.decorations == decorations,
            PropertyGoal::Title(title) => window.title() == Some(title@),
            PropertyGoal::InnerSize { width, height } => window.width == width && window.height
                == height,
            PropertyGoal::Icon(icon) => window.icon == spec_icon_view(icon),
            PropertyGoal::OuterPosition { x, y } => window.x == x && window.y == y,
            PropertyGoal::Maximized(maximized) => window.maximized() == Some(maximized),
            PropertyGoal::Minimized(minimized) => window.minimized() == minimized,
            PropertyGoal::MinSize(size) => window.min_size == size,
            PropertyGoal::MaxSize(size) => window.max_size == size,
            PropertyGoal::Attention(attention) => window.urgency == attention,
            PropertyGoal::Class(class) => window.class == Some(class@),
            PropertyGoal::Instance(instance) => window.instance == Some(instance@),
            PropertyGoal::Resizable(resizable) => window.resizable() == resizable,
        }
    }

    /// Returns whether `window` is in the state that the goal names.
    pub fn met(&self, window: &WindowRecord) -> (met: bool)
        ensures
            met == self.spec_met(window@),
    {
        match self {
            PropertyGoal::Mapped(mapped) => window.mapped() == *mapped,
            PropertyGoal::AlwaysOnTop(above) => window.always_on_top() == *above,
            PropertyGoal::Decorations(decorations) => window.decorations() == *decorations,
            PropertyGoal::Title(title) => same_text(&window.title(), title),
            PropertyGoal::InnerSize { width, height } => window.width() == *width
                && window.height() == *height,
            PropertyGoal::Icon(icon) => same_icon(&window.icon, icon),
            PropertyGoal::OuterPosition { x, y } => window.x() == *x && window.y() == *y,
            PropertyGoal::Maximized(maximized) => match window.maximized() {
                Some(is) => is == *maximized,
                None => false,
            },
            PropertyGoal::Minimized(minimized) => match window.minimized() {
                Some(is) => is == *minimized,
                None => false,
            },
            PropertyGoal::MinSize(size) => same_size(window.min_size(), *size),
            PropertyGoal::MaxSize(size) => same_size(window.max_size(), *size),
            PropertyGoal::Attention(attention) => window.attention() == *attention,
            PropertyGoal::Class(class) => same_text(&window.class, class),
            PropertyGoal::Instance(instance) => same_text(&window.instance, instance),
            PropertyGoal::Resizable(resizable) => match window.resizable() {
                Some(is) => is == *resizable,
                None => false,
            },
        }
    }
}

fn same_text(text: &Option<String>, wanted: &String) -> (same: bool)
    ensures
        same == (spec_text(*text) == Some(wanted@)),
{
    match text {
        Some(text) => *text == *wanted,
        None => false,
    }
}

fn same_size(size: Option<(u32, u32)>, wanted: Option<(u32, u32)>) -> (same: bool)
    ensures
        same == (size == wanted),
{
    match (size, wanted) {
        (Some((w, h)), Some((ww, wh))) => w == ww && h == wh,
        (None, None) => true,
        _ => false,
    }
}

fn same_icon(icon: &Option<BackendIcon>, wanted: &Option<BackendIcon>) -> (same: bool)
    ensures
        same == (spec_icon_view(*icon) == spec_icon_view(*wanted)),
{
    match (icon, wanted) {
        (Some(icon), Some(wanted)) => icon.same_as(wanted),
        (None, None) => true,
        _ => false,
    }
}

/// How a wait for a window state stands.
#[derive(Clone, Copy, Debug, PartialEq, Eq, Structural)]
pub enum PropertyWait {
    /// The window is in the state waited for.
    Met,
    /// The window is not in that state yet.
    Pending,
    /// The window is not in the table; it may yet be announced.
    Gone,
}

impl<W> WmModel<W> {
    /// How a wait for `goal` on `window` stands.
    pub open spec fn wait_state(self, window: u32, goal: PropertyGoal) -> PropertyWait {
        if !self.windows.contains_key(window) {
            PropertyWait::Gone
        } else if goal.spec_met(self.windows[window]) {
            PropertyWait::Met
        } else {
            PropertyWait::Pending
        }
    }
}

impl<W> WmData<W> {
    /// One poll of somebody who waits for `window` to reach `goal`.
    ///
    /// Unless the goal is met, `waiter` joins those to be woken at the next
    /// change. The table itself is never changed by a poll.
    pub fn poll_property(&mut self, window: u32, goal: &PropertyGoal, waiter: W) -> (wait:
        PropertyWait)
        ensures
            wait == old(self)@.wait_state(window, *goal),
            final(self)@ == if wait == PropertyWait::Met {
                old(self)@
            } else {
                WmModel { wakers: old(self)@.wakers.push(waiter), ..old(self)@ }
            },
    {
        let wait = match self.window(window) {
            Some(record) => if goal.met(record) {
                PropertyWait::Met
            } else {
                PropertyWait::Pending
            },
            None => PropertyWait::Gone,
        };
        match wait {
            PropertyWait::Met => {},
            _ => {
                self.wait(waiter);
            },
        }
        wait
    }
}

/// Whether the toolkit reports the inner size `width` by `height` and an
/// outer size that is larger by exactly the frame: `inner` and `outer` are
/// the sizes it reports, `extents` the frame extents (left, right, top,
/// bottom).
pub open spec fn spec_inner_size_settled(
    inner: (u32, u32),
    outer: (u32, u32),
    extents: (u32, u32, u32, u32),
    width: u32,
    height: u32,
) -> bool {
    inner.0 == width && inner.1 == height && outer.0 == width + extents.0 + extents.1 && outer.1
        == height + extents.2 + extents.3
}

/// Returns whether the toolkit has caught up with a resize.
pub fn inner_size_settled(
    inner: (u32, u32),
    outer: (u32, u32),
    extents: (u32, u32, u32, u32),
    width: u32,
    height: u32,
) -> (settled: bool)
    ensures
        settled == spec_inner_size_settled(inner, outer, extents, width, height),
{
    inner.0 == width && inner.1 == height && outer.0 as u64 == width as u64 + extents.0 as u64
        + extents.1 as u64 && outer.1 as u64 == height as u64 + extents.2 as u64
        + extents.3 as u64
}

/// Whether the toolkit reports the outer position `x`, `y` and an inner
/// position that is further in by exactly `offset`.
pub open spec fn spec_outer_position_settled(
    outer: (i32, i32),
    inner: (i32, i32),
    offset: (i32, i32),
    x: i32,
    y: i32,
) -> bool {
    outer.0 == x && outer.1 == y && inner.0 == x + offset.0 && inner.1 == y + offset.1
}

/// Returns whether the toolkit has caught up with a move.
pub fn outer_position_settled(
    outer: (i32, i32),
    inner: (i32, i32),
    offset: (i32, i32),
    x: i32,
    y: i32,
) -> (settled: bool)
    ensures
        settled == spec_outer_position_settled(outer, inner, offset, x, y),
{
    outer.0 == x && outer.1 == y && inner.0 as i64 == x as i64 + offset.0 as i64 && inner.1 as i64
        == y as i64 + offset.1 as i64
}

} // verus!
