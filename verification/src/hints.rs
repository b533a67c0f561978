//! The two hint properties a client sets on its window, `WM_NORMAL_HINTS`
//! and `WM_HINTS`, read from their 32-bit words.
//!
//! Cutting the words into fields is left to `xcb_dl_util`; what the fields
//! mean for the window manager is decided here.
use crate::window::WindowState;
use vstd::prelude::*;
use xcb_dl_util::hint::{XcbHints, XcbSizeHints};

verus! {

/// Number of words in a `WM_NORMAL_HINTS` property.
pub const SIZE_HINTS_WORDS: usize = 18;

/// Number of words in a `WM_HINTS` property.
pub const WM_HINTS_WORDS: usize = 9;

/// Size-hint flag: the minimum size is given.
pub const SIZE_HINT_P_MIN_SIZE: u32 = 16;

/// Size-hint flag: the maximum size is given.
pub const SIZE_HINT_P_MAX_SIZE: u32 = 32;

/// Hint flag: the initial state is given.
pub const WM_HINT_STATE: u32 = 2;

/// Hint flag: the window asks for attention.
pub const WM_HINT_URGENCY: u32 = 256;

/// The fields of a `WM_NORMAL_HINTS` property that the window manager reads.
#[derive(Clone, Copy, Debug, PartialEq, Eq, Structural)]
pub struct SizeHintFields {
    pub flags: u32,
    pub min_width: u32,
    pub min_height: u32,
    pub max_width: u32,
    pub max_height: u32,
}

/// The fields of a `WM_HINTS` property that the window manager reads.
#[derive(Clone, Copy, Debug, PartialEq, Eq, Structural)]
pub struct WmHintFields {
    pub flags: u32,
    pub initial_state: u32,
}

/// Cuts the words of a `WM_NORMAL_HINTS` property into fields with
/// `XcbSizeHints::try_from`.
///
/// Trusted: the conversion succeeds exactly for eighteen words and lays them
/// over the structure in order, so that the flags are word 0, the minimum
/// size words 5 and 6, the maximum size words 7 and 8.
#[verifier::external_body]
fn size_hint_fields(words: &[u32]) -> (fields: Option<SizeHintFields>)
    ensures
        fields.is_some() <==> words@.len() == SIZE_HINTS_WORDS,
        fields matches Some(f) ==> f.flags == words@[0] && f.min_width == words@[5]
            && f.min_height == words@[6] && f.max_width == words@[7] && f.max_height == words@[8],
{
    match XcbSizeHints::try_from(words) {
        Ok(hints) => Some(
            SizeHintFields {
                flags: hints.flags.bits(),
                min_width: hints.min_width,
                min_height: hints.min_height,
                max_width: hints.max_width,
                max_height: hints.max_height,
            },
        ),
        Err(_) => None,
    }
}

/// Cuts the words of a `WM_HINTS` property into fields with
/// `XcbHints::try_from`.
///
/// Trusted: the conversion succeeds exactly for nine words and lays them
/// over the structure in order, so that the flags are word 0 and the initial
/// state is word 2.
#[verifier::external_body]
fn wm_hint_fields(words: &[u32]) -> (fields: Option<WmHintFields>)
    ensures
        fields.is_some() <==> words@.len() == WM_HINTS_WORDS,
        fields matches Some(f) ==> f.flags == words@[0] && f.initial_state == words@[2],
{
    match XcbHints::try_from(words) {
        Ok(hints) => Some(
            WmHintFields { flags: hints.flags.bits(), initial_state: hints.initial_state },
        ),
        Err(_) => None,
    }
}

/// The size bounds a client asks for.
#[derive(Clone, Copy, Debug, PartialEq, Eq)]
pub struct SizeBounds {
    pub min_size: Option<(u32, u32)>,
    pub max_size: Option<(u32, u32)>,
}

/// What a client says of itself in `WM_HINTS`.
#[derive(Clone, Copy, Debug, PartialEq, Eq, Structural)]
pub struct WmHints {
    /// Whether the window asks for attention.
    pub urgency: bool,
    /// The state the window wants to start in.
    pub initial_state: WindowState,
}

/// The size bounds that the words of a `WM_NORMAL_HINTS` property give.
///
/// A bound is there only if its flag is set. A property of the wrong length
/// gives no bounds at all.
pub open spec fn spec_size_bounds(words: Seq<u32>) -> SizeBounds {
    if words.len() == SIZE_HINTS_WORDS {
        SizeBounds {
            min_size: if words[0] & SIZE_HINT_P_MIN_SIZE != 0 {
                Some((words[5], words[6]))
            } else {
                None
            },
            max_size: if words[0] & SIZE_HINT_P_MAX_SIZE != 0 {
                Some((words[7], words[8]))
            } else {
                None
            },
        }
    } else {
        SizeBounds { min_size: None, max_size: None }
    }
}

/// Reads the size bounds from the words of a `WM_NORMAL_HINTS` property.
pub fn size_bounds(words: &Vec<u32>) -> (bounds: SizeBounds)
    ensures
        bounds == spec_size_bounds(words@),
{
    match size_hint_fields(words.as_slice()) {
        Some(fields) => SizeBounds {
            min_size: if fields.flags & SIZE_HINT_P_MIN_SIZE != 0 {
                Some((fields.min_width, fields.min_height))
            } else {
                None
            },
            max_size: if fields.flags & SIZE_HINT_P_MAX_SIZE != 0 {
                Some((fields.max_width, fields.max_height))
            } else {
                None
            },
        },
        None => SizeBounds { min_size: None, max_size: None },
    }
}

/// What the words of a `WM_HINTS` property say.
///
/// The window asks for attention if the urgency flag is set. It starts in
/// the state it names, if the state flag is set and the number names a
/// state, and in the normal state otherwise. A property of the wrong length
/// says nothing: no urgency, normal state.
pub open spec fn spec_wm_hints(words: Seq<u32>) -> WmHints {
    if words.len() == WM_HINTS_WORDS {
        WmHints {
            urgency: words[0] & WM_HINT_URGENCY != 0,
            initial_state: if words[0] & WM_HINT_STATE != 0 && words[2] == 0 {
                WindowState::Withdrawn
            } else if words[0] & WM_HINT_STATE != 0 && words[2] == 3 {
                WindowState::Iconic
            } else {
                WindowState::Normal
            },
        }
    } else {
        WmHints { urgency: false, initial_state: WindowState::Normal }
    }
}

/// Reads urgency and initial state from the words of a `WM_HINTS` property.
pub fn wm_hints(words: &Vec<u32>) -> (hints: WmHints)
    ensures
        hints == spec_wm_hints(words@),
{
    match wm_hint_fields(words.as_slice()) {
        Some(fields) => {
            let stated = fields.flags & WM_HINT_STATE != 0;
            let initial_state = if stated {
                match WindowState::from_wm_state(fields.initial_state) {
                    Some(state) => state,
                    None => WindowState::Normal,
                }
            } else {
                WindowState::Normal
            };
            WmHints { urgency: fields.flags & WM_HINT_URGENCY != 0, initial_state }
        },
        None => WmHints { urgency: false, initial_state: WindowState::Normal },
    }
}

} // verus!
