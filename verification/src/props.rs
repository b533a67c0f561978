//! Window properties: which of them the window manager follows, and what
//! their values mean.
//!
//! Reading a property is I/O and happens elsewhere. This module names the
//! property that a changed atom stands for, and turns the value that was
//! read into the fields of a window record.
use crate::atoms::Atoms;
use crate::hints::{size_bounds, spec_size_bounds, spec_wm_hints, wm_hints};
use crate::wire::{ATOM_ATOM, ATOM_CARDINAL, ATOM_STRING, ATOM_WM_HINTS, ATOM_WM_SIZE_HINTS};
use crate::window::{
    spec_text, BackendIcon, IconView, Protocols, WindowModel, WindowRecord,
    PROTOCOL_DELETE_WINDOW, PROTOCOL_PING,
};
use vstd::prelude::*;
use vstd::string::{StrSliceExecFns, StringExecFns};

verus! {

/// The properties of a client window that the window manager follows.
#[derive(Clone, Copy, Debug, PartialEq, Eq, Structural)]
pub enum PropertyKind {
    /// `WM_NAME`: the title, legacy encoding.
    WmName,
    /// `_NET_WM_NAME`: the title, UTF-8.
    NetWmName,
    /// `WM_NORMAL_HINTS`: size bounds.
    NormalHints,
    /// `WM_HINTS`: urgency and initial state.
    Hints,
    /// `_MOTIF_WM_HINTS`: decorations.
    MotifHints,
    /// `WM_CLASS`: instance and class.
    Class,
    /// `WM_PROTOCOLS`: the protocols the window takes part in.
    Protocols,
    /// `_NET_WM_STATE`: the states the window asks for.
    NetWmState,
    /// `_NET_WM_ICON`: the icon.
    NetWmIcon,
}

impl PropertyKind {
    /// Whether the value of the property is text. All others are lists of
    /// 32-bit words.
    pub open spec fn spec_is_text(self) -> bool {
        self == PropertyKind::WmName || self == PropertyKind::NetWmName || self
            == PropertyKind::Class
    }

    /// Returns whether the value of the property is text.
    pub fn is_text(self) -> (text: bool)
        ensures
            text == self.spec_is_text(),
    {
        match self {
            PropertyKind::WmName | PropertyKind::NetWmName | PropertyKind::Class => true,
            _ => false,
        }
    }

    /// The types under which the value of the property is asked for, in
    /// order of preference: the UTF-8 title is UTF-8, other text is a plain
    /// string or else UTF-8, the hints have types of their own, the icon is
    /// a list of cardinals, and protocols and states are lists of atoms.
    pub open spec fn spec_value_types(self, atoms: Atoms) -> Seq<u32> {
        match self {
            PropertyKind::NetWmName => seq![atoms.utf8_string],
            PropertyKind::WmName | PropertyKind::Class => seq![ATOM_STRING, atoms.utf8_string],
            PropertyKind::NormalHints => seq![ATOM_WM_SIZE_HINTS],
            PropertyKind::Hints => seq![ATOM_WM_HINTS],
            PropertyKind::MotifHints => seq![atoms.motif_wm_hints],
            PropertyKind::NetWmIcon => seq![ATOM_CARDINAL],
            PropertyKind::Protocols | PropertyKind::NetWmState => seq![ATOM_ATOM],
        }
    }

    /// Returns the types under which the value of the property is asked
    /// for, in order of preference. There is always at least one.
    pub fn value_types(self, atoms: &Atoms) -> (types: Vec<u32>)
        ensures
            types@ == self.spec_value_types(*atoms),
            types@.len() > 0,
    {
        let mut types: Vec<u32> = Vec::new();
        match self {
            PropertyKind::NetWmName => {
                types.push(atoms.utf8_string);
            },
            PropertyKind::WmName | PropertyKind::Class => {
                types.push(ATOM_STRING);
                types.push(atoms.utf8_string);
            },
            PropertyKind::NormalHints => {
                types.push(ATOM_WM_SIZE_HINTS);
            },
            PropertyKind::Hints => {
                types.push(ATOM_WM_HINTS);
            },
            PropertyKind::MotifHints => {
                types.push(atoms.motif_wm_hints);
            },
            PropertyKind::NetWmIcon => {
                types.push(ATOM_CARDINAL);
            },
            PropertyKind::Protocols | PropertyKind::NetWmState => {
                types.push(ATOM_ATOM);
            },
        }
        assert(types@ =~= self.spec_value_types(*atoms));
        types
    }

    /// The atom of the property.
    pub open spec fn spec_atom(self, atoms: Atoms) -> u32 {
        match self {
            PropertyKind::WmName => atoms.wm_name,
            PropertyKind::NetWmName => atoms.net_wm_name,
            PropertyKind::NormalHints => atoms.wm_normal_hints,
            PropertyKind::Hints => atoms.wm_hints,
            PropertyKind::MotifHints => atoms.motif_wm_hints,
            PropertyKind::Class => atoms.wm_class,
            PropertyKind::Protocols => atoms.wm_protocols,
            PropertyKind::NetWmState => atoms.net_wm_state,
            PropertyKind::NetWmIcon => atoms.net_wm_icon,
        }
    }

    /// Returns the atom of the property.
    pub fn atom(self, atoms: &Atoms) -> (atom: u32)
        ensures
            atom == self.spec_atom(*atoms),
    {
        match self {
            PropertyKind::WmName => atoms.wm_name,
            PropertyKind::NetWmName => atoms.net_wm_name,
            PropertyKind::NormalHints => atoms.wm_normal_hints,
            PropertyKind::Hints => atoms.wm_hints,
            PropertyKind::MotifHints => atoms.motif_wm_hints,
            PropertyKind::Class => atoms.wm_class,
            PropertyKind::Protocols => atoms.wm_protocols,
            PropertyKind::NetWmState => atoms.net_wm_state,
            PropertyKind::NetWmIcon => atoms.net_wm_icon,
        }
    }
}

/// The property that `atom` stands for, if the window manager follows it.
pub open spec fn spec_property_kind(atoms: Atoms, atom: u32) -> Option<PropertyKind> {
    if atom == atoms.wm_name {
        Some(PropertyKind::WmName)
    } else if atom == atoms.net_wm_name {
        Some(PropertyKind::NetWmName)
    } else if atom == atoms.wm_normal_hints {
        Some(PropertyKind::NormalHints)
    } else if atom == atoms.wm_hints {
        Some(PropertyKind::Hints)
    } else if atom == atoms.motif_wm_hints {
        Some(PropertyKind::MotifHints)
    } else if atom == atoms.wm_class {
        Some(PropertyKind::Class)
    } else if atom == atoms.wm_protocols {
        Some(PropertyKind::Protocols)
    } else if atom == atoms.net_wm_state {
        Some(PropertyKind::NetWmState)
    } else if atom == atoms.net_wm_icon {
        Some(PropertyKind::NetWmIcon)
    } else {
        None
    }
}

/// Names the property that changed, given the atom of the notification.
/// Returns `None` for the atoms the window manager does not follow.
pub fn property_kind(atoms: &Atoms, atom: u32) -> (kind: Option<PropertyKind>)
    ensures
        kind == spec_property_kind(*atoms, atom),
{
    if atom == atoms.wm_name {
        Some(PropertyKind::WmName)
    } else if atom == atoms.net_wm_name {
        Some(PropertyKind::NetWmName)
    } else if atom == atoms.wm_normal_hints {
        Some(PropertyKind::NormalHints)
    } else if atom == atoms.wm_hints {
        Some(PropertyKind::Hints)
    } else if atom == atoms.motif_wm_hints {
        Some(PropertyKind::MotifHints)
    } else if atom == atoms.wm_class {
        Some(PropertyKind::Class)
    } else if atom == atoms.wm_protocols {
        Some(PropertyKind::Protocols)
    } else if atom == atoms.net_wm_state {
        Some(PropertyKind::NetWmState)
    } else if atom == atoms.net_wm_icon {
        Some(PropertyKind::NetWmIcon)
    } else {
        None
    }
}

/// A property's atom names the property: where the atoms of the followed
/// properties are pairwise distinct, looking up the atom of a kind gives
/// that kind back.
pub proof fn lemma_property_kind_of_atom(atoms: Atoms, kind: PropertyKind)
    requires
        forall|a: PropertyKind, b: PropertyKind|
            a != b ==> #[trigger] a.spec_atom(atoms) != #[trigger] b.spec_atom(atoms),
    ensures
        spec_property_kind(atoms, kind.spec_atom(atoms)) == Some(kind),
{
    assert(PropertyKind::WmName.spec_atom(atoms) == atoms.wm_name);
    assert(PropertyKind::NetWmName.spec_atom(atoms) == atoms.net_wm_name);
    assert(PropertyKind::NormalHints.spec_atom(atoms) == atoms.wm_normal_hints);
    assert(PropertyKind::Hints.spec_atom(atoms) == atoms.wm_hints);
    assert(PropertyKind::MotifHints.spec_atom(atoms) == atoms.motif_wm_hints);
    assert(PropertyKind::Class.spec_atom(atoms) == atoms.wm_class);
    assert(PropertyKind::Protocols.spec_atom(atoms) == atoms.wm_protocols);
    assert(PropertyKind::NetWmState.spec_atom(atoms) == atoms.net_wm_state);
    assert(PropertyKind::NetWmIcon.spec_atom(atoms) == atoms.net_wm_icon);
}

/// The value of a property as it was read.
#[derive(Clone, Debug, PartialEq, Eq)]
pub enum PropertyValue {
    /// The property is not set.
    Absent,
    /// The value of a text property.
    Text(String),
    /// The value of a property of 32-bit words.
    Words(Vec<u32>),
}

impl PropertyValue {
    /// The words of the value. A value that is absent, or is text, has none.
    pub open spec fn spec_words(self) -> Seq<u32> {
        match self {
            PropertyValue::Words(words) => words@,
            _ => Seq::empty(),
        }
    }

    /// The characters of the value, if it is text.
    pub open spec fn spec_chars(self) -> Option<Seq<char>> {
        match self {
            PropertyValue::Text(text) => Some(text@),
            _ => None,
        }
    }
}

/// Returns whether `word` occurs in `words`.
pub fn contains_word(words: &Vec<u32>, word: u32) -> (found: bool)
    ensures
        found == words@.contains(word),
{
    let mut i: usize = 0;
    while i < words.len()
        invariant
            i <= words@.len(),
            forall|j: int| 0 <= j < i ==> words@[j] != word,
        decreases words@.len() - i,
    {
        if words[i] == word {
            return true;
        }
        i = i + 1;
    }
    false
}

/// The protocols that a `WM_PROTOCOLS` list names.
pub open spec fn spec_protocols(atoms: Atoms, words: Seq<u32>) -> Protocols {
    Protocols {
        bits: (if words.contains(atoms.wm_delete_window) {
            PROTOCOL_DELETE_WINDOW
        } else {
            0
        }) | (if words.contains(atoms.net_wm_ping) {
            PROTOCOL_PING
        } else {
            0
        }),
    }
}

/// Reads the protocols a window takes part in from its `WM_PROTOCOLS` list.
pub fn parse_protocols(atoms: &Atoms, words: &Vec<u32>) -> (protocols: Protocols)
    ensures
        protocols == spec_protocols(*atoms, words@),
        protocols.spec_contains(PROTOCOL_DELETE_WINDOW) == words@.contains(
            atoms.wm_delete_window,
        ),
        protocols.spec_contains(PROTOCOL_PING) == words@.contains(atoms.net_wm_ping),
{
    let delete: u32 = if contains_word(words, atoms.wm_delete_window) {
        PROTOCOL_DELETE_WINDOW
    } else {
        0
    };
    let ping: u32 = if contains_word(words, atoms.net_wm_ping) {
        PROTOCOL_PING
    } else {
        0
    };
    assert((delete | ping) & 1 == 1 <==> delete == 1) by (bit_vector)
        requires
            delete == 0 || delete == 1,
            ping == 0 || ping == 2,
    ;
    assert((delete | ping) & 2 == 2 <==> ping == 2) by (bit_vector)
        requires
            delete == 0 || delete == 1,
            ping == 0 || ping == 2,
    ;
    Protocols { bits: delete | ping }
}

/// The states a window asks for in `_NET_WM_STATE`.
#[derive(Clone, Copy, Debug, PartialEq, Eq, Structural)]
pub struct NetWmState {
    pub always_on_top: bool,
    pub maximized_horz: bool,
    pub maximized_vert: bool,
}

/// The states that a `_NET_WM_STATE` list names.
pub open spec fn spec_net_wm_state(atoms: Atoms, words: Seq<u32>) -> NetWmState {
    NetWmState {
        always_on_top: words.contains(atoms.net_wm_state_above),
        maximized_horz: words.contains(atoms.net_wm_state_maximized_horz),
        maximized_vert: words.contains(atoms.net_wm_state_maximized_vert),
    }
}

/// Reads the states a window asks for from its `_NET_WM_STATE` list.
pub fn parse_net_wm_state(atoms: &Atoms, words: &Vec<u32>) -> (state: NetWmState)
    ensures
        state == spec_net_wm_state(*atoms, words@),
{
    NetWmState {
        always_on_top: contains_word(words, atoms.net_wm_state_above),
        maximized_horz: contains_word(words, atoms.net_wm_state_maximized_horz),
        maximized_vert: contains_word(words, atoms.net_wm_state_maximized_vert),
    }
}

/// Motif hint flag: the decorations field is given.
pub const MOTIF_HINTS_DECORATIONS: u32 = 2;

/// Whether a window with these `_MOTIF_WM_HINTS` words wants decorations.
///
/// It does unless the hints give a decorations field and that field is zero.
pub open spec fn spec_motif_decorations(words: Seq<u32>) -> bool {
    !(words.len() >= 3 && words[0] & MOTIF_HINTS_DECORATIONS != 0 && words[2] == 0)
}

/// Reads from its `_MOTIF_WM_HINTS` words whether a window wants
/// decorations.
pub fn parse_motif_decorations(words: &Vec<u32>) -> (decorations: bool)
    ensures
        decorations == spec_motif_decorations(words@),
{
    if words.len() >= 3 {
        !(words[0] & MOTIF_HINTS_DECORATIONS != 0 && words[2] == 0)
    } else {
        true
    }
}

/// Index of the first NUL character of `text` at or after `from`, or the
/// length of `text` if there is none.
pub open spec fn spec_nul_index(text: Seq<char>, from: int) -> int
    decreases text.len() - from,
{
    if from >= text.len() {
        text.len() as int
    } else if from < 0 {
        from
    } else if text[from] == '\0' {
        from
    } else {
        spec_nul_index(text, from + 1)
    }
}

/// The instance name in a `WM_CLASS` value: everything before the first NUL.
pub open spec fn spec_class_instance(text: Seq<char>) -> Seq<char> {
    text.subrange(0, spec_nul_index(text, 0))
}

/// The class name in a `WM_CLASS` value: what stands between the first NUL
/// and the second. A value without NUL has no class name.
pub open spec fn spec_class_class(text: Seq<char>) -> Option<Seq<char>> {
    let first = spec_nul_index(text, 0);
    if first < text.len() {
        Some(text.subrange(first + 1, spec_nul_index(text, first + 1)))
    } else {
        None
    }
}

/// The first NUL lies within the text, at or after `from`.
pub proof fn lemma_nul_index_bounds(text: Seq<char>, from: int)
    requires
        0 <= from <= text.len(),
    ensures
        from <= spec_nul_index(text, from) <= text.len(),
    decreases text.len() - from,
{
    if from < text.len() && text[from] != '\0' {
        lemma_nul_index_bounds(text, from + 1);
    }
}

fn nul_index(text: &str, from: usize, len: usize) -> (index: usize)
    requires
        from <= len,
        len == text@.len(),
    ensures
        index == spec_nul_index(text@, from as int),
        from <= index <= len,
{
    let mut i: usize = from;
    while i < len
        invariant
            from <= i <= len,
            len == text@.len(),
            spec_nul_index(text@, from as int) == spec_nul_index(text@, i as int),
        decreases len - i,
    {
        if text.get_char(i) == '\0' {
            return i;
        }
        i = i + 1;
    }
    i
}

/// Splits a `WM_CLASS` value into the instance name and the class name.
pub fn parse_class(text: &str) -> (names: (String, Option<String>))
    ensures
        names.0@ == spec_class_instance(text@),
        names.1.is_some() == spec_class_class(text@).is_some(),
        names.1 matches Some(class) ==> Some(class@) == spec_class_class(text@),
{
    let len = text.unicode_len();
    let first = nul_index(text, 0, len);
    let instance = String::from_str(text.substring_char(0, first));
    if first < len {
        let second = nul_index(text, first + 1, len);
        let class = String::from_str(text.substring_char(first + 1, second));
        (instance, Some(class))
    } else {
        (instance, None)
    }
}

/// The red channel of an ARGB pixel.
pub open spec fn spec_red(argb: u32) -> u8 {
    ((argb >> 16) & 0xff) as u8
}

/// The green channel of an ARGB pixel.
pub open spec fn spec_green(argb: u32) -> u8 {
    ((argb >> 8) & 0xff) as u8
}

/// The blue channel of an ARGB pixel.
pub open spec fn spec_blue(argb: u32) -> u8 {
    (argb & 0xff) as u8
}

/// The alpha channel of an ARGB pixel.
pub open spec fn spec_alpha(argb: u32) -> u8 {
    ((argb >> 24) & 0xff) as u8
}

/// Byte `channel` (0 red, 1 green, 2 blue, 3 alpha) of an ARGB pixel in
/// RGBA order.
pub open spec fn spec_channel(argb: u32, channel: int) -> u8 {
    if channel == 0 {
        spec_red(argb)
    } else if channel == 1 {
        spec_green(argb)
    } else if channel == 2 {
        spec_blue(argb)
    } else {
        spec_alpha(argb)
    }
}

/// The longest `_NET_WM_ICON` property that is read: its pixels, as bytes,
/// must fit the address space of any target.
pub const MAX_ICON_WORDS: usize = 0x3fff_ffff;

/// The first icon in the words of a `_NET_WM_ICON` property.
///
/// The property starts with width and height, followed by one ARGB word for
/// each pixel, row by row. There is an icon if both sizes are positive and
/// all its pixels are there; what follows them is not looked at. A property
/// of more than [`MAX_ICON_WORDS`] words holds no icon.
pub open spec fn spec_icon(words: Seq<u32>) -> Option<IconView> {
    if 2 <= words.len() <= MAX_ICON_WORDS && words[0] > 0 && words[1] > 0 && words.len() - 2
        >= words[0] * words[1] {
        Some(
            IconView {
                rgba: Seq::new(
                    (4 * (words[0] * words[1])) as nat,
                    |k: int| spec_channel(words[2 + k / 4], k % 4),
                ),
                width: words[0],
                height: words[1],
            },
        )
    } else {
        None
    }
}

/// Reads the first icon from the words of a `_NET_WM_ICON` property.
pub fn parse_icon(words: &Vec<u32>) -> (icon: Option<BackendIcon>)
    ensures
        icon.is_some() == spec_icon(words@).is_some(),
        icon matches Some(i) ==> Some(i@) == spec_icon(words@),
{
    if words.len() < 2 || words.len() > MAX_ICON_WORDS {
        return None;
    }
    let width = words[0];
    let height = words[1];
    if width == 0 || height == 0 {
        return None;
    }
    assert(width * height <= 0xffff_ffff * 0xffff_ffff) by (nonlinear_arith)
        requires
            0 <= width <= 0xffff_ffff,
            0 <= height <= 0xffff_ffff,
    ;
    let pixels: u64 = width as u64 * height as u64;
    if ((words.len() - 2) as u64) < pixels {
        return None;
    }
    let count: usize = pixels as usize;
    let mut rgba: Vec<u8> = Vec::new();
    let mut i: usize = 0;
    while i < count
        invariant
            i <= count,
            count + 2 <= words@.len(),
            words@.len() <= MAX_ICON_WORDS,
            rgba@.len() == 4 * i,
            forall|k: int|
                0 <= k < 4 * i ==> #[trigger] rgba@[k] == spec_channel(words@[2 + k / 4], k % 4),
        decreases count - i,
    {
        let argb = words[i + 2];
        assert((argb >> 16) & 0xff <= 0xff && (argb >> 8) & 0xff <= 0xff && argb & 0xff <= 0xff
            && (argb >> 24) & 0xff <= 0xff) by (bit_vector);
        rgba.push(((argb >> 16) & 0xff) as u8);
        rgba.push(((argb >> 8) & 0xff) as u8);
        rgba.push((argb & 0xff) as u8);
        rgba.push(((argb >> 24) & 0xff) as u8);
        i = i + 1;
    }
    let icon = BackendIcon { rgba, width, height };
    assert(icon@.rgba =~= spec_icon(words@).unwrap().rgba);
    Some(icon)
}

impl WindowModel {
    /// The record with the legacy title replaced.
    pub open spec fn with_wm_name(self, chars: Option<Seq<char>>) -> WindowModel {
        WindowModel { wm_name: chars, ..self }
    }

    /// The record with the UTF-8 title replaced.
    pub open spec fn with_utf8_title(self, chars: Option<Seq<char>>) -> WindowModel {
        WindowModel { utf8_title: chars, ..self }
    }

    /// The record with the size bounds that `WM_NORMAL_HINTS` words give.
    pub open spec fn with_size_bounds(self, words: Seq<u32>) -> WindowModel {
        WindowModel {
            min_size: spec_size_bounds(words).min_size,
            max_size: spec_size_bounds(words).max_size,
            ..self
        }
    }

    /// The record with urgency and initial state as `WM_HINTS` words give
    /// them.
    pub open spec fn with_hints(self, words: Seq<u32>) -> WindowModel {
        WindowModel {
            urgency: spec_wm_hints(words).urgency,
            initial_state: spec_wm_hints(words).initial_state,
            ..self
        }
    }

    /// The record with decorations as `_MOTIF_WM_HINTS` words ask for them.
    pub open spec fn with_motif_hints(self, words: Seq<u32>) -> WindowModel {
        WindowModel { decorations: spec_motif_decorations(words), ..self }
    }

    /// The record with instance and class as a `WM_CLASS` value gives them.
    pub open spec fn with_class(self, chars: Option<Seq<char>>) -> WindowModel {
        match chars {
            Some(text) => WindowModel {
                instance: Some(spec_class_instance(text)),
                class: spec_class_class(text),
                ..self
            },
            None => WindowModel { instance: None, class: None, ..self },
        }
    }

    /// The record with the protocols that a `WM_PROTOCOLS` list names.
    pub open spec fn with_protocols(self, atoms: Atoms, words: Seq<u32>) -> WindowModel {
        WindowModel { protocols: spec_protocols(atoms, words), ..self }
    }

    /// The record with the states that a `_NET_WM_STATE` list names.
    pub open spec fn with_net_wm_state(self, atoms: Atoms, words: Seq<u32>) -> WindowModel {
        WindowModel {
            always_on_top: spec_net_wm_state(atoms, words).always_on_top,
            maximized_horz: spec_net_wm_state(atoms, words).maximized_horz,
            maximized_vert: spec_net_wm_state(atoms, words).maximized_vert,
            ..self
        }
    }

    /// The record with the first icon of `_NET_WM_ICON` words.
    pub open spec fn with_icon(self, words: Seq<u32>) -> WindowModel {
        WindowModel { icon: spec_icon(words), ..self }
    }

    /// The record after property `kind` was read as `value`, with one more
    /// change counted.
    ///
    /// A property that is absent, or whose value has the wrong form, is read
    /// as saying nothing: no title, no bounds, no urgency, decorations, no
    /// class, no protocols, no states, no icon.
    pub open spec fn with_property(
        self,
        atoms: Atoms,
        kind: PropertyKind,
        value: PropertyValue,
    ) -> WindowModel {
        let words = value.spec_words();
        let chars = value.spec_chars();
        match kind {
            PropertyKind::WmName => self.with_wm_name(chars),
            PropertyKind::NetWmName => self.with_utf8_title(chars),
            PropertyKind::NormalHints => self.with_size_bounds(words),
            PropertyKind::Hints => self.with_hints(words),
            PropertyKind::MotifHints => self.with_motif_hints(words),
            PropertyKind::Class => self.with_class(chars),
            PropertyKind::Protocols => self.with_protocols(atoms, words),
            PropertyKind::NetWmState => self.with_net_wm_state(atoms, words),
            PropertyKind::NetWmIcon => self.with_icon(words),
        }.bumped()
    }
}

impl WindowRecord {
    fn set_wm_name(&mut self, text: Option<String>)
        ensures
            final(self)@ == old(self)@.with_wm_name(spec_text(text)),
    {
        self.wm_name = text;
    }

    fn set_utf8_title(&mut self, text: Option<String>)
        ensures
            final(self)@ == old(self)@.with_utf8_title(spec_text(text)),
    {
        self.utf8_title = text;
    }

    fn set_size_bounds(&mut self, words: &Vec<u32>)
        ensures
            final(self)@ == old(self)@.with_size_bounds(words@),
    {
        let bounds = size_bounds(words);
        self.min_size = bounds.min_size;
        self.max_size = bounds.max_size;
    }

    fn set_hints(&mut self, words: &Vec<u32>)
        ensures
            final(self)@ == old(self)@.with_hints(words@),
    {
        let hints = wm_hints(words);
        self.urgency = hints.urgency;
        self.initial_state = hints.initial_state;
    }

    fn set_motif_hints(&mut self, words: &Vec<u32>)
        ensures
            final(self)@ == old(self)@.with_motif_hints(words@),
    {
        self.decorations = parse_motif_decorations(words);
    }

    fn set_class(&mut self, text: Option<String>)
        ensures
            final(self)@ == old(self)@.with_class(spec_text(text)),
    {
        match text {
            Some(text) => {
                let (instance, class) = parse_class(text.as_str());
                self.instance = Some(instance);
                self.class = class;
            },
            None => {
                self.instance = None;
                self.class = None;
            },
        }
    }

    fn set_protocols(&mut self, atoms: &Atoms, words: &Vec<u32>)
        ensures
            final(self)@ == old(self)@.with_protocols(*atoms, words@),
    {
        self.protocols = parse_protocols(atoms, words);
    }

    fn set_net_wm_state(&mut self, atoms: &Atoms, words: &Vec<u32>)
        ensures
            final(self)@ == old(self)@.with_net_wm_state(*atoms, words@),
    {
        let state = parse_net_wm_state(atoms, words);
        self.always_on_top = state.always_on_top;
        self.maximized_horz = state.maximized_horz;
        self.maximized_vert = state.maximized_vert;
    }

    fn set_icon(&mut self, words: &Vec<u32>)
        ensures
            final(self)@ == old(self)@.with_icon(words@),
    {
        self.icon = parse_icon(words);
    }

    /// Takes over what property `kind`, read as `value`, says of the window,
    /// and counts one change, however many fields the property fills.
    pub fn apply_property(&mut self, atoms: &Atoms, kind: PropertyKind, value: PropertyValue)
        ensures
            final(self)@ == old(self)@.with_property(*atoms, kind, value),
    {
        let ghost chars = value.spec_chars();
        let (text, words): (Option<String>, Vec<u32>) = match value {
            PropertyValue::Absent => (None, Vec::new()),
            PropertyValue::Text(text) => (Some(text), Vec::new()),
            PropertyValue::Words(words) => (None, words),
        };
        assert(words@ == value.spec_words());
        assert(spec_text(text) == chars);
        match kind {
            PropertyKind::WmName => self.set_wm_name(text),
            PropertyKind::NetWmName => self.set_utf8_title(text),
            PropertyKind::NormalHints => self.set_size_bounds(&words),
            PropertyKind::Hints => self.set_hints(&words),
            PropertyKind::MotifHints => self.set_motif_hints(&words),
            PropertyKind::Class => self.set_class(text),
            PropertyKind::Protocols => self.set_protocols(atoms, &words),
            PropertyKind::NetWmState => self.set_net_wm_state(atoms, &words),
            PropertyKind::NetWmIcon => self.set_icon(&words),
        }
        self.upgrade();
    }
}

} // verus!
