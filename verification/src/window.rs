//! The record the window manager keeps of one top-level window, what test
//! code may read from it, and the requests a window handle can make.
use crate::atoms::Atoms;
use crate::wire::{
    ClientMessage, ConfigureValues, Request, CONFIG_WINDOW_HEIGHT, CONFIG_WINDOW_WIDTH,
    CONFIG_WINDOW_X, CONFIG_WINDOW_Y,
};
use vstd::prelude::*;

verus! {

/// Width of the border that the window manager allows for around a
/// decorated window.
pub const BORDER_WIDTH: u32 = 3;

/// Height of the title bar that the window manager allows for above a
/// decorated window.
pub const TITLE_HEIGHT: u32 = 20;

/// Protocol bit: the window wants to be asked before it is closed.
pub const PROTOCOL_DELETE_WINDOW: u32 = 1;

/// Protocol bit: the window answers liveness pings.
pub const PROTOCOL_PING: u32 = 2;

/// The three ICCCM window states.
#[derive(Clone, Copy, Debug, PartialEq, Eq, Structural)]
pub enum WindowState {
    Withdrawn,
    Normal,
    Iconic,
}

impl WindowState {
    /// The number that stands for the state in the `WM_STATE` property.
    pub open spec fn spec_wm_state(self) -> u32 {
        match self {
            WindowState::Withdrawn => 0,
            WindowState::Normal => 1,
            WindowState::Iconic => 3,
        }
    }

    /// Returns the number that stands for the state in the `WM_STATE`
    /// property.
    pub fn wm_state(self) -> (number: u32)
        ensures
            number == self.spec_wm_state(),
    {
        match self {
            WindowState::Withdrawn => 0,
            WindowState::Normal => 1,
            WindowState::Iconic => 3,
        }
    }

    /// Reads a state number. Numbers that stand for no state yield `None`.
    pub fn from_wm_state(number: u32) -> (state: Option<WindowState>)
        ensures
            state matches Some(s) ==> s.spec_wm_state() == number,
            state.is_none() <==> number != 0 && number != 1 && number != 3,
    {
        if number == 0 {
            Some(WindowState::Withdrawn)
        } else if number == 1 {
            Some(WindowState::Normal)
        } else if number == 3 {
            Some(WindowState::Iconic)
        } else {
            None
        }
    }
}

/// The set of window-manager protocols a window takes part in.
#[derive(Clone, Copy, Debug, PartialEq, Eq, Structural)]
pub struct Protocols {
    pub bits: u32,
}

impl Protocols {
    /// Whether every protocol of `flags` is in the set.
    pub open spec fn spec_contains(self, flags: u32) -> bool {
        self.bits & flags == flags
    }

    /// The empty set.
    pub fn empty() -> (protocols: Protocols)
        ensures
            protocols.bits == 0,
    {
        Protocols { bits: 0 }
    }

    /// Returns whether every protocol of `flags` is in the set.
    pub fn contains(self, flags: u32) -> (contained: bool)
        ensures
            contained == self.spec_contains(flags),
    {
        self.bits & flags == flags
    }

    /// The set with the protocols of `flags` added.
    pub fn with(self, flags: u32) -> (protocols: Protocols)
        ensures
            protocols.bits == self.bits | flags,
    {
        Protocols { bits: self.bits | flags }
    }

    /// Adding a protocol makes it a member and removes none; the empty set
    /// has neither protocol.
    pub proof fn lemma_with_contains(bits: u32, flags: u32, other: u32)
        ensures
            (Protocols { bits: bits | flags }).spec_contains(flags),
            (Protocols { bits }).spec_contains(other) ==> (Protocols {
                bits: bits | flags,
            }).spec_contains(other),
            !(Protocols { bits: 0 }).spec_contains(PROTOCOL_DELETE_WINDOW),
            !(Protocols { bits: 0 }).spec_contains(PROTOCOL_PING),
            !(Protocols { bits: PROTOCOL_PING }).spec_contains(PROTOCOL_DELETE_WINDOW),
            !(Protocols { bits: PROTOCOL_DELETE_WINDOW }).spec_contains(PROTOCOL_PING),
    {
        assert((bits | flags) & flags == flags) by (bit_vector);
        assert(bits & other == other ==> (bits | flags) & other == other) by (bit_vector);
        assert(0u32 & 1u32 != 1u32) by (bit_vector);
        assert(0u32 & 2u32 != 2u32) by (bit_vector);
        assert(2u32 & 1u32 != 1u32) by (bit_vector);
        assert(1u32 & 2u32 != 2u32) by (bit_vector);
    }
}

/// How the pixels of a window are laid out: shift and mask of each channel.
#[derive(Clone, Copy, Debug, PartialEq, Eq, Structural)]
pub struct DirectFormat {
    pub red_shift: u16,
    pub red_mask: u16,
    pub green_shift: u16,
    pub green_mask: u16,
    pub blue_shift: u16,
    pub blue_mask: u16,
    pub alpha_shift: u16,
    pub alpha_mask: u16,
}

/// An icon as test code supplies and reads it: 32-bit RGBA pixels, row by
/// row.
#[derive(Clone, Debug, Eq, PartialEq)]
pub struct BackendIcon {
    pub rgba: Vec<u8>,
    pub width: u32,
    pub height: u32,
}

/// A [`BackendIcon`] as plain values.
pub struct IconView {
    pub rgba: Seq<u8>,
    pub width: u32,
    pub height: u32,
}

impl View for BackendIcon {
    type V = IconView;

    open spec fn view(&self) -> IconView {
        IconView { rgba: self.rgba@, width: self.width, height: self.height }
    }
}

impl IconView {
    /// Whether the pixel data is exactly `width * height` pixels of four
    /// bytes.
    pub open spec fn is_consistent(self) -> bool {
        self.rgba.len() == 4 * (self.width * self.height)
    }
}

impl BackendIcon {
    /// Returns whether the pixel data is exactly `width * height` pixels of
    /// four bytes.
    pub fn is_consistent(&self) -> (consistent: bool)
        ensures
            consistent == self@.is_consistent(),
    {
        assert(self.width * self.height <= 0xffff_ffff * 0xffff_ffff) by (nonlinear_arith)
            requires
                0 <= self.width <= 0xffff_ffff,
                0 <= self.height <= 0xffff_ffff,
        ;
        let pixels: u64 = self.width as u64 * self.height as u64;
        let len: u128 = self.rgba.len() as u128;
        len == 4 * (pixels as u128)
    }

    /// Returns whether the two icons have the same size and pixels.
    pub fn same_as(&self, other: &BackendIcon) -> (same: bool)
        ensures
            same == (self@ == other@),
    {
        if self.width != other.width || self.height != other.height || self.rgba.len()
            != other.rgba.len() {
            return false;
        }
        let mut i: usize = 0;
        while i < self.rgba.len()
            invariant
                i <= self.rgba@.len(),
                self.rgba@.len() == other.rgba@.len(),
                forall|j: int| 0 <= j < i ==> self.rgba@[j] == other.rgba@[j],
            decreases self.rgba@.len() - i,
        {
            if self.rgba[i] != other.rgba[i] {
                return false;
            }
            i = i + 1;
        }
        assert(self.rgba@ =~= other.rgba@);
        true
    }

    /// Returns a copy of the icon.
    pub fn duplicate(&self) -> (copy: BackendIcon)
        ensures
            copy@ == self@,
    {
        BackendIcon { rgba: self.rgba.clone(), width: self.width, height: self.height }
    }
}

/// Everything the window manager knows of one top-level window.
pub struct WindowRecord {
    /// The protocol id of the window.
    pub id: u32,
    /// The container the window was reparented into, if any.
    pub parent_id: Option<u32>,
    /// The pixel format of the window.
    pub format: DirectFormat,
    /// Counts the changes of this record; wraps around.
    pub property_generation: u32,
    /// Whether the server has announced the window.
    pub created: bool,
    pub mapped: bool,
    pub always_on_top: bool,
    pub maximized_vert: bool,
    pub maximized_horz: bool,
    pub decorations: bool,
    /// The border width of the window itself.
    pub border: u32,
    pub x: i32,
    pub y: i32,
    pub width: u32,
    pub height: u32,
    pub min_size: Option<(u32, u32)>,
    pub max_size: Option<(u32, u32)>,
    /// The title as the legacy name property gives it.
    pub wm_name: Option<String>,
    /// The title as the UTF-8 name property gives it.
    pub utf8_title: Option<String>,
    pub urgency: bool,
    pub class: Option<String>,
    pub instance: Option<String>,
    pub protocols: Protocols,
    /// The state the window asked to start in.
    pub initial_state: WindowState,
    /// The state the window was last asked to go to.
    pub desired_state: WindowState,
    /// The state the window is in.
    pub current_state: WindowState,
    pub icon: Option<BackendIcon>,
}

/// A [`WindowRecord`] as plain values: the state that contracts speak of.
pub struct WindowModel {
    /// The protocol id of the window.
    pub id: u32,
    /// The container the window was reparented into, if any.
    pub parent_id: Option<u32>,
    /// The pixel format of the window.
    pub format: DirectFormat,
    /// Counts the changes of this record; wraps around.
    pub property_generation: u32,
    /// Whether the server has announced the window.
    pub created: bool,
    pub mapped: bool,
    pub always_on_top: bool,
    pub maximized_vert: bool,
    pub maximized_horz: bool,
    pub decorations: bool,
    /// The border width of the window itself.
    pub border: u32,
    pub x: i32,
    pub y: i32,
    pub width: u32,
    pub height: u32,
    pub min_size: Option<(u32, u32)>,
    pub max_size: Option<(u32, u32)>,
    /// The title as the legacy name property gives it.
    pub wm_name: Option<Seq<char>>,
    /// The title as the UTF-8 name property gives it.
    pub utf8_title: Option<Seq<char>>,
    pub urgency: bool,
    pub class: Option<Seq<char>>,
    pub instance: Option<Seq<char>>,
    pub protocols: Protocols,
    /// The state the window asked to start in.
    pub initial_state: WindowState,
    /// The state the window was last asked to go to.
    pub desired_state: WindowState,
    /// The state the window is in.
    pub current_state: WindowState,
    pub icon: Option<IconView>,
}

/// The characters of a text that may be missing.
pub open spec fn spec_text(text: Option<String>) -> Option<Seq<char>> {
    match text {
        Some(t) => Some(t@),
        None => None,
    }
}

/// The plain values of an icon that may be missing.
pub open spec fn spec_icon_view(icon: Option<BackendIcon>) -> Option<IconView> {
    match icon {
        Some(i) => Some(i@),
        None => None,
    }
}

impl View for WindowRecord {
    type V = WindowModel;

    open spec fn view(&self) -> WindowModel {
        WindowModel {
            id: self.id,
            parent_id: self.parent_id,
            format: self.format,
            property_generation: self.property_generation,
            created: self.created,
            mapped: self.mapped,
            always_on_top: self.always_on_top,
            maximized_vert: self.maximized_vert,
            maximized_horz: self.maximized_horz,
            decorations: self.decorations,
            border: self.border,
            x: self.x,
            y: self.y,
            width: self.width,
            height: self.height,
            min_size: self.min_size,
            max_size: self.max_size,
            wm_name: spec_text(self.wm_name),
            utf8_title: spec_text(self.utf8_title),
            urgency: self.urgency,
            class: spec_text(self.class),
            instance: spec_text(self.instance),
            protocols: self.protocols,
            initial_state: self.initial_state,
            desired_state: self.desired_state,
            current_state: self.current_state,
            icon: spec_icon_view(self.icon),
        }
    }
}

impl WindowModel {
    /// The record of window `id` when nothing is known of it yet: withdrawn,
    /// unmapped, decorated, with empty titles and no bounds.
    pub open spec fn fresh(id: u32, format: DirectFormat) -> WindowModel {
        WindowModel {
            id,
            parent_id: None,
            format,
            property_generation: 0,
            created: false,
            mapped: false,
            always_on_top: false,
            maximized_vert: false,
            maximized_horz: false,
            decorations: true,
            border: 0,
            x: 0,
            y: 0,
            width: 0,
            height: 0,
            min_size: None,
            max_size: None,
            wm_name: Some(Seq::empty()),
            utf8_title: Some(Seq::empty()),
            urgency: false,
            class: None,
            instance: None,
            protocols: Protocols { bits: 0 },
            initial_state: WindowState::Withdrawn,
            desired_state: WindowState::Withdrawn,
            current_state: WindowState::Withdrawn,
            icon: None,
        }
    }

    /// The title: known only when both name properties are present and say
    /// the same.
    pub open spec fn title(self) -> Option<Seq<char>> {
        match (self.wm_name, self.utf8_title) {
            (Some(name), Some(title)) => if name == title {
                Some(name)
            } else {
                None
            },
            _ => None,
        }
    }

    /// Whether the window is maximized: known only when the horizontal and
    /// the vertical flag agree.
    pub open spec fn maximized(self) -> Option<bool> {
        if self.maximized_vert == self.maximized_horz {
            Some(self.maximized_vert)
        } else {
            None
        }
    }

    /// Whether the window is minimized.
    pub open spec fn minimized(self) -> bool {
        self.current_state == WindowState::Iconic
    }

    /// Whether the window can be resized: it can unless its size bounds
    /// coincide and pin it to its current size.
    pub open spec fn resizable(self) -> bool {
        self.max_size != Some((self.width, self.height)) || self.max_size != self.min_size
    }

    /// The room the window manager allows for around the window: left,
    /// right, top, bottom. An undecorated window gets none.
    pub open spec fn frame_extents(self) -> (u32, u32, u32, u32) {
        if self.decorations {
            (BORDER_WIDTH, BORDER_WIDTH, (BORDER_WIDTH + TITLE_HEIGHT) as u32, BORDER_WIDTH)
        } else {
            (0, 0, 0, 0)
        }
    }

    /// The request that reports the frame extents to the window.
    pub open spec fn frame_extents_request(self) -> Request {
        let (left, right, top, bottom) = self.frame_extents();
        Request::SetFrameExtents { window: self.id, left, right, top, bottom }
    }

    /// The window whose position is the outer position: the container, or
    /// the window itself if it has none.
    pub open spec fn outer_window(self) -> u32 {
        match self.parent_id {
            Some(parent) => parent,
            None => self.id,
        }
    }

    /// The record after one more change was counted.
    pub open spec fn bumped(self) -> WindowModel {
        WindowModel { property_generation: self.property_generation.wrapping_add(1), ..self }
    }

    /// The client message that asks the window to close itself.
    pub open spec fn delete_message(self, atoms: Atoms) -> ClientMessage {
        ClientMessage {
            window: self.id,
            message_type: atoms.wm_protocols,
            data: [atoms.wm_delete_window, 0u32, 0u32, 0u32, 0u32],
        }
    }

    /// The request that closes the window: a window that takes part in the
    /// delete protocol is asked to close itself, any other is destroyed.
    pub open spec fn delete_request(self, atoms: Atoms) -> Request {
        if self.protocols.spec_contains(PROTOCOL_DELETE_WINDOW) {
            Request::SendClientMessage { message: self.delete_message(atoms) }
        } else {
            Request::DestroyWindow { window: self.id }
        }
    }

    /// The record after the server has announced the window.
    pub open spec fn announced(self) -> WindowModel {
        WindowModel { created: true, ..self }
    }

    /// The record after the window asked to be mapped.
    pub open spec fn map_requested(self) -> WindowModel {
        WindowModel { desired_state: WindowState::Normal, ..self }
    }

    /// The record after the window asked to be iconified.
    pub open spec fn iconify_requested(self) -> WindowModel {
        WindowModel { desired_state: WindowState::Iconic, ..self }
    }

    /// The record after the window was mapped: it is mapped and in the
    /// normal state, and one more change is counted.
    pub open spec fn mapped_now(self) -> WindowModel {
        WindowModel { mapped: true, current_state: WindowState::Normal, ..self }.bumped()
    }

    /// The state an unmapped window goes to: iconic if that is what was last
    /// asked of it, withdrawn otherwise.
    pub open spec fn unmapped_state(self) -> WindowState {
        if self.desired_state == WindowState::Iconic {
            WindowState::Iconic
        } else {
            WindowState::Withdrawn
        }
    }

    /// The record after the window was unmapped, with one more change
    /// counted.
    pub open spec fn unmapped_now(self) -> WindowModel {
        WindowModel { mapped: false, current_state: self.unmapped_state(), ..self }.bumped()
    }

    /// The record after the window's geometry changed, with one more change
    /// counted.
    pub open spec fn configured(
        self,
        x: i16,
        y: i16,
        width: u16,
        height: u16,
        border_width: u16,
    ) -> WindowModel {
        WindowModel {
            x: x as i32,
            y: y as i32,
            width: width as u32,
            height: height as u32,
            border: border_width as u32,
            ..self
        }.bumped()
    }

    /// The record after the window was put into container `parent`, with
    /// one more change counted.
    pub open spec fn reparented(self, parent: u32) -> WindowModel {
        WindowModel { parent_id: Some(parent), ..self }.bumped()
    }
}

/// The client message that asks window `window` to prove it is alive. The
/// window's id travels as payload and comes back in the answer.
pub open spec fn spec_ping_message(atoms: Atoms, window: u32) -> ClientMessage {
    ClientMessage {
        window,
        message_type: atoms.wm_protocols,
        data: [atoms.net_wm_ping, 0u32, window, 0u32, 0u32],
    }
}

/// Returns the request that pings `window`. It is sent without waiting for
/// a verdict.
pub fn ping_request(atoms: &Atoms, window: u32) -> (request: Request)
    ensures
        request == (Request::PostClientMessage { message: spec_ping_message(*atoms, window) }),
{
    Request::PostClientMessage {
        message: ClientMessage {
            window,
            message_type: atoms.wm_protocols,
            data: [atoms.net_wm_ping, 0, window, 0, 0],
        },
    }
}

/// What test code may read of a window.
pub trait WindowProperties {
    /// The window as plain values.
    spec fn properties(&self) -> WindowModel;

    /// Whether the window is mapped.
    fn mapped(&self) -> (mapped: bool)
        ensures
            mapped == self.properties().mapped,
    ;

    /// Whether the window is kept above others.
    fn always_on_top(&self) -> (above: bool)
        ensures
            above == self.properties().always_on_top,
    ;

    /// Whether the window is decorated.
    fn decorations(&self) -> (decorations: bool)
        ensures
            decorations == self.properties().decorations,
    ;

    fn x(&self) -> (x: i32)
        ensures
            x == self.properties().x,
    ;

    fn y(&self) -> (y: i32)
        ensures
            y == self.properties().y,
    ;

    fn width(&self) -> (width: u32)
        ensures
            width == self.properties().width,
    ;

    fn height(&self) -> (height: u32)
        ensures
            height == self.properties().height,
    ;

    fn min_size(&self) -> (size: Option<(u32, u32)>)
        ensures
            size == self.properties().min_size,
    ;

    fn max_size(&self) -> (size: Option<(u32, u32)>)
        ensures
            size == self.properties().max_size,
    ;

    /// The title, or `None` if it is not known for certain: the two name
    /// properties must both be present and say the same.
    fn title(&self) -> (title: Option<String>)
        ensures
            spec_text(title) == self.properties().title(),
    ;

    /// Whether the window is maximized, or `None` if that is ambiguous: the
    /// horizontal and the vertical flag must agree.
    fn maximized(&self) -> (maximized: Option<bool>)
        ensures
            maximized == self.properties().maximized(),
    ;

    /// Whether the window is minimized.
    fn minimized(&self) -> (minimized: Option<bool>)
        ensures
            minimized == Some(self.properties().minimized()),
    ;

    /// Whether the window can be resized: it cannot exactly when its
    /// minimum size equals its maximum size and both equal its current size.
    fn resizable(&self) -> (resizable: Option<bool>)
        ensures
            resizable == Some(self.properties().resizable()),
    ;

    /// The icon of the window.
    fn icon(&self) -> (icon: Option<BackendIcon>)
        ensures
            spec_icon_view(icon) == self.properties().icon,
    ;

    /// Whether the window asks for attention.
    fn attention(&self) -> (attention: bool)
        ensures
            attention == self.properties().urgency,
    ;

    /// Whether the pixel format of the window has an alpha channel.
    fn supports_transparency(&self) -> (transparent: bool)
        ensures
            transparent == (self.properties().format.alpha_mask != 0),
    ;

    /// The class name of the window.
    fn class(&self) -> (class: Option<String>)
        ensures
            spec_text(class) == self.properties().class,
    ;

    /// The instance name of the window.
    fn instance(&self) -> (instance: Option<String>)
        ensures
            spec_text(instance) == self.properties().instance,
    ;
}

impl WindowRecord {
    /// Creates the record of a window that nothing is known of yet.
    pub fn new(id: u32, format: DirectFormat) -> (record: WindowRecord)
        ensures
            record@ == WindowModel::fresh(id, format),
    {
        WindowRecord {
            id,
            parent_id: None,
            format,
            property_generation: 0,
            created: false,
            mapped: false,
            always_on_top: false,
            maximized_vert: false,
            maximized_horz: false,
            decorations: true,
            border: 0,
            x: 0,
            y: 0,
            width: 0,
            height: 0,
            min_size: None,
            max_size: None,
            wm_name: Some(String::new()),
            utf8_title: Some(String::new()),
            urgency: false,
            class: None,
            instance: None,
            protocols: Protocols::empty(),
            initial_state: WindowState::Withdrawn,
            desired_state: WindowState::Withdrawn,
            current_state: WindowState::Withdrawn,
            icon: None,
        }
    }

    /// Counts one more change.
    pub fn upgrade(&mut self)
        ensures
            final(self)@ == old(self)@.bumped(),
    {
        self.property_generation = self.property_generation.wrapping_add(1);
    }

    /// Returns the room the window manager allows for around the window:
    /// left, right, top, bottom.
    pub fn frame_extents(&self) -> (extents: (u32, u32, u32, u32))
        ensures
            extents == self@.frame_extents(),
    {
        if self.decorations {
            (BORDER_WIDTH, BORDER_WIDTH, BORDER_WIDTH + TITLE_HEIGHT, BORDER_WIDTH)
        } else {
            (0, 0, 0, 0)
        }
    }

    /// Returns the request that reports the frame extents to the window.
    pub fn frame_extents_request(&self) -> (request: Request)
        ensures
            request == self@.frame_extents_request(),
    {
        let (left, right, top, bottom) = self.frame_extents();
        Request::SetFrameExtents { window: self.id, left, right, top, bottom }
    }

    /// Returns where the window's own area starts inside its frame: the left
    /// and the top extent.
    pub fn inner_offset(&self) -> (offset: (i32, i32))
        ensures
            offset.0 == self@.frame_extents().0,
            offset.1 == self@.frame_extents().2,
    {
        let (left, _, top, _) = self.frame_extents();
        (left as i32, top as i32)
    }

    /// The request that resizes the window's own area.
    pub fn set_inner_size(&self, width: u32, height: u32) -> (request: Request)
        ensures
            request == (Request::ConfigureWindow {
                window: self.id,
                value_mask: CONFIG_WINDOW_WIDTH | CONFIG_WINDOW_HEIGHT,
                values: ConfigureValues { width, height, ..ConfigureValues::spec_zero() },
            }),
    {
        let mut values = ConfigureValues::zero();
        values.width = width;
        values.height = height;
        Request::ConfigureWindow {
            window: self.id,
            value_mask: CONFIG_WINDOW_WIDTH | CONFIG_WINDOW_HEIGHT,
            values,
        }
    }

    /// The request that moves the window, frame included.
    pub fn set_outer_position(&self, x: i32, y: i32) -> (request: Request)
        ensures
            request == (Request::ConfigureWindow {
                window: self@.outer_window(),
                value_mask: CONFIG_WINDOW_X | CONFIG_WINDOW_Y,
                values: ConfigureValues { x, y, ..ConfigureValues::spec_zero() },
            }),
    {
        let window = match self.parent_id {
            Some(parent) => parent,
            None => self.id,
        };
        let mut values = ConfigureValues::zero();
        values.x = x;
        values.y = y;
        Request::ConfigureWindow { window, value_mask: CONFIG_WINDOW_X | CONFIG_WINDOW_Y, values }
    }

    /// The two requests, to be issued in order, that paint the window in
    /// one colour: set the background pixel, then clear the window to it.
    pub fn set_background_color(&self, r: u8, g: u8, b: u8) -> (requests: (Request, Request))
        ensures
            requests.0 == (Request::SetBackPixel { window: self.id, pixel: spec_pixel(r, g, b) }),
            requests.1 == (Request::ClearWindow { window: self.id }),
    {
        (
            Request::SetBackPixel { window: self.id, pixel: pixel(r, g, b) },
            Request::ClearWindow { window: self.id },
        )
    }

    /// The request that closes the window.
    ///
    /// A window that takes part in the delete protocol is asked to close
    /// itself and may stay alive as long as it likes; any other window is
    /// destroyed. Either way this is one request, sent once: whether the
    /// window went away shows in the event stream only.
    pub fn delete(&self, atoms: &Atoms) -> (request: Request)
        ensures
            request == self@.delete_request(*atoms),
    {
        if self.protocols.contains(PROTOCOL_DELETE_WINDOW) {
            Request::SendClientMessage {
                message: ClientMessage {
                    window: self.id,
                    message_type: atoms.wm_protocols,
                    data: [atoms.wm_delete_window, 0, 0, 0, 0],
                },
            }
        } else {
            Request::DestroyWindow { window: self.id }
        }
    }
}

/// The background pixel of a colour: blue in the low byte, then green, then
/// red.
pub open spec fn spec_pixel(r: u8, g: u8, b: u8) -> u32 {
    (b as u32) | ((g as u32) << 8) | ((r as u32) << 16)
}

/// Returns the background pixel of a colour.
pub fn pixel(r: u8, g: u8, b: u8) -> (p: u32)
    ensures
        p == spec_pixel(r, g, b),
{
    (b as u32) | ((g as u32) << 8) | ((r as u32) << 16)
}

/// The pixel of a colour is the number `r * 65536 + g * 256 + b`, and each
/// channel can be read back from it.
pub proof fn lemma_pixel_channels(r: u8, g: u8, b: u8)
    ensures
        spec_pixel(r, g, b) == r * 0x1_0000 + g * 0x100 + b,
        spec_pixel(r, g, b) & 0xff == b,
        (spec_pixel(r, g, b) >> 8) & 0xff == g,
        (spec_pixel(r, g, b) >> 16) & 0xff == r,
{
    let p = (b as u32) | ((g as u32) << 8) | ((r as u32) << 16);
    assert(p == r * 0x1_0000 + g * 0x100 + b) by (bit_vector)
        requires
            p == (b as u32) | ((g as u32) << 8) | ((r as u32) << 16),
    ;
    assert(p & 0xff == b && (p >> 8) & 0xff == g && (p >> 16) & 0xff == r) by (bit_vector)
        requires
            p == (b as u32) | ((g as u32) << 8) | ((r as u32) << 16),
    ;
}

/// `maximized` is ambiguous exactly when the two maximize flags disagree,
/// and a window is not resizable exactly when its minimum size equals its
/// maximum size and both equal its current size.
pub proof fn lemma_derived_properties(window: WindowModel)
    ensures
        window.maximized().is_none() <==> window.maximized_horz != window.maximized_vert,
        window.maximized() == Some(true) <==> window.maximized_horz && window.maximized_vert,
        window.maximized() == Some(false) <==> !window.maximized_horz && !window.maximized_vert,
        !window.resizable() <==> window.min_size == window.max_size && window.max_size == Some(
            (window.width, window.height),
        ),
{
}

impl WindowProperties for WindowRecord {
    open spec fn properties(&self) -> WindowModel {
        self@
    }

    fn mapped(&self) -> (mapped: bool)
    {
        self.mapped
    }

    fn always_on_top(&self) -> (above: bool)
    {
        self.always_on_top
    }

    fn decorations(&self) -> (decorations: bool)
    {
        self.decorations
    }

    fn x(&self) -> (x: i32)
    {
        self.x
    }

    fn y(&self) -> (y: i32)
    {
        self.y
    }

    fn width(&self) -> (width: u32)
    {
        self.width
    }

    fn height(&self) -> (height: u32)
    {
        self.height
    }

    fn min_size(&self) -> (size: Option<(u32, u32)>)
    {
        self.min_size
    }

    fn max_size(&self) -> (size: Option<(u32, u32)>)
    {
        self.max_size
    }

    fn title(&self) -> (title: Option<String>)
    {
        match (&self.wm_name, &self.utf8_title) {
            (Some(name), Some(title)) => {
                if *name == *title {
                    Some(name.clone())
                } else {
                    None
                }
            },
            _ => None,
        }
    }

    fn maximized(&self) -> (maximized: Option<bool>)
    {
        if self.maximized_vert == self.maximized_horz {
            Some(self.maximized_vert)
        } else {
            None
        }
    }

    fn minimized(&self) -> (minimized: Option<bool>)
    {
        match self.current_state {
            WindowState::Iconic => Some(true),
            _ => Some(false),
        }
    }

    fn resizable(&self) -> (resizable: Option<bool>)
    {
        let pinned = match (self.min_size, self.max_size) {
            (Some((min_w, min_h)), Some((max_w, max_h))) => min_w == max_w && min_h == max_h
                && max_w == self.width && max_h == self.height,
            _ => false,
        };
        Some(!pinned)
    }

    fn icon(&self) -> (icon: Option<BackendIcon>)
    {
        match &self.icon {
            Some(icon) => Some(icon.duplicate()),
            None => None,
        }
    }

    fn attention(&self) -> (attention: bool)
    {
        self.urgency
    }

    fn supports_transparency(&self) -> (transparent: bool)
    {
        self.format.alpha_mask != 0
    }

    fn class(&self) -> (class: Option<String>)
    {
        match &self.class {
            Some(class) => Some(class.clone()),
            None => None,
        }
    }

    fn instance(&self) -> (instance: Option<String>)
    {
        match &self.instance {
            Some(instance) => Some(instance.clone()),
            None => None,
        }
    }
}

} // verus!
