//! Finding the pixel format of a window among the picture formats that the
//! render extension reports.
//!
//! The reply to a format query lists the formats, and, for every screen and
//! depth, the visuals with the id of the format each one uses. The format of
//! a window is the format of its visual.
use crate::window::DirectFormat;
use vstd::prelude::*;

verus! {

/// A visual and the id of the picture format it uses.
#[derive(Clone, Copy, Debug, PartialEq, Eq, Structural)]
pub struct PictVisual {
    pub visual: u32,
    pub format: u32,
}

/// The visuals of one depth of a screen.
#[derive(Clone, Debug, PartialEq, Eq)]
pub struct PictDepth {
    pub depth: u8,
    pub visuals: Vec<PictVisual>,
}

/// The depths of one screen.
#[derive(Clone, Debug, PartialEq, Eq)]
pub struct PictScreen {
    pub depths: Vec<PictDepth>,
}

/// A picture format: its id and the layout of its channels.
#[derive(Clone, Copy, Debug, PartialEq, Eq, Structural)]
pub struct PictFormat {
    pub id: u32,
    pub direct: DirectFormat,
}

/// The layout of the first format, at or after `from`, with id `id`.
pub open spec fn spec_format_of(formats: Seq<PictFormat>, id: u32, from: int) -> Option<
    DirectFormat,
>
    decreases formats.len() - from,
{
    if from < 0 || from >= formats.len() {
        None
    } else if formats[from].id == id {
        Some(formats[from].direct)
    } else {
        spec_format_of(formats, id, from + 1)
    }
}

/// The format of the first visual, at or after `from`, that is the visual
/// `visual` and whose format is listed.
pub open spec fn spec_search_visuals(
    visuals: Seq<PictVisual>,
    formats: Seq<PictFormat>,
    visual: u32,
    from: int,
) -> Option<DirectFormat>
    decreases visuals.len() - from,
{
    if from < 0 || from >= visuals.len() {
        None
    } else if visuals[from].visual == visual && spec_format_of(formats, visuals[from].format, 0)
        is Some {
        spec_format_of(formats, visuals[from].format, 0)
    } else {
        spec_search_visuals(visuals, formats, visual, from + 1)
    }
}

/// The first hit among the depths at or after `from`.
pub open spec fn spec_search_depths(
    depths: Seq<PictDepth>,
    formats: Seq<PictFormat>,
    visual: u32,
    from: int,
) -> Option<DirectFormat>
    decreases depths.len() - from,
{
    if from < 0 || from >= depths.len() {
        None
    } else if spec_search_visuals(depths[from].visuals@, formats, visual, 0) is Some {
        spec_search_visuals(depths[from].visuals@, formats, visual, 0)
    } else {
        spec_search_depths(depths, formats, visual, from + 1)
    }
}

/// The first hit among the screens at or after `from`.
pub open spec fn spec_search_screens(
    screens: Seq<PictScreen>,
    formats: Seq<PictFormat>,
    visual: u32,
    from: int,
) -> Option<DirectFormat>
    decreases screens.len() - from,
{
    if from < 0 || from >= screens.len() {
        None
    } else if spec_search_depths(screens[from].depths@, formats, visual, 0) is Some {
        spec_search_depths(screens[from].depths@, formats, visual, 0)
    } else {
        spec_search_screens(screens, formats, visual, from + 1)
    }
}

/// Looks up the layout of the first format with id `id`.
pub fn format_of(formats: &Vec<PictFormat>, id: u32) -> (direct: Option<DirectFormat>)
    ensures
        direct == spec_format_of(formats@, id, 0),
{
    let mut i: usize = 0;
    while i < formats.len()
        invariant
            i <= formats@.len(),
            spec_format_of(formats@, id, 0) == spec_format_of(formats@, id, i as int),
        decreases formats@.len() - i,
    {
        if formats[i].id == id {
            return Some(formats[i].direct);
        }
        i = i + 1;
    }
    None
}

fn search_visuals(visuals: &Vec<PictVisual>, formats: &Vec<PictFormat>, visual: u32) -> (direct:
    Option<DirectFormat>)
    ensures
        direct == spec_search_visuals(visuals@, formats@, visual, 0),
{
    let mut i: usize = 0;
    while i < visuals.len()
        invariant
            i <= visuals@.len(),
            spec_search_visuals(visuals@, formats@, visual, 0) == spec_search_visuals(
                visuals@,
                formats@,
                visual,
                i as int,
            ),
        decreases visuals@.len() - i,
    {
        if visuals[i].visual == visual {
            let direct = format_of(formats, visuals[i].format);
            if direct.is_some() {
                return direct;
            }
        }
        i = i + 1;
    }
    None
}

fn search_depths(depths: &Vec<PictDepth>, formats: &Vec<PictFormat>, visual: u32) -> (direct:
    Option<DirectFormat>)
    ensures
        direct == spec_search_depths(depths@, formats@, visual, 0),
{
    let mut i: usize = 0;
    while i < depths.len()
        invariant
            i <= depths@.len(),
            spec_search_depths(depths@, formats@, visual, 0) == spec_search_depths(
                depths@,
                formats@,
                visual,
                i as int,
            ),
        decreases depths@.len() - i,
    {
        let direct = search_visuals(&depths[i].visuals, formats, visual);
        if direct.is_some() {
            return direct;
        }
        i = i + 1;
    }
    None
}

/// Finds the pixel format of a window with visual `visual`.
///
/// Screens, depths and visuals are gone through in the order of the reply.
/// The result is the format of the first visual that is the window's and
/// whose format is among `formats`; `None` if there is no such visual.
pub fn get_window_format(
    screens: &Vec<PictScreen>,
    formats: &Vec<PictFormat>,
    visual: u32,
) -> (direct: Option<DirectFormat>)
    ensures
        direct == spec_search_screens(screens@, formats@, visual, 0),
{
    let mut i: usize = 0;
    while i < screens.len()
        invariant
            i <= screens@.len(),
            spec_search_screens(screens@, formats@, visual, 0) == spec_search_screens(
                screens@,
                formats@,
                visual,
                i as int,
            ),
        decreases screens@.len() - i,
    {
        let direct = search_depths(&screens[i].depths, formats, visual);
        if direct.is_some() {
            return direct;
        }
        i = i + 1;
    }
    None
}

/// Whatever the search returns is the layout of a listed format that a
/// visual of the window refers to.
pub proof fn lemma_found_format_is_listed(
    screens: Seq<PictScreen>,
    formats: Seq<PictFormat>,
    visual: u32,
    from: int,
)
    requires
        0 <= from,
        spec_search_screens(screens, formats, visual, from) is Some,
    ensures
        exists|s: int, d: int, v: int, f: int|
            from <= s < screens.len() && 0 <= d < screens[s].depths@.len() && 0 <= v
                < screens[s].depths@[d].visuals@.len() && 0 <= f < formats.len()
                && screens[s].depths@[d].visuals@[v].visual == visual
                && #[trigger] formats[f].id == #[trigger] screens[s].depths@[d].visuals@[v].format
                && spec_search_screens(screens, formats, visual, from) == Some(formats[f].direct),
    decreases screens.len() - from,
{
    if from < screens.len() {
        let depths = screens[from].depths@;
        if spec_search_depths(depths, formats, visual, 0) is Some {
            lemma_found_in_depths(depths, formats, visual, 0);
            let (d, v, f) = choose|d: int, v: int, f: int|
                0 <= d < depths.len() && 0 <= v < depths[d].visuals@.len() && 0 <= f
                    < formats.len() && depths[d].visuals@[v].visual == visual
                    && #[trigger] formats[f].id == #[trigger] depths[d].visuals@[v].format
                    && spec_search_depths(depths, formats, visual, 0) == Some(formats[f].direct);
            assert(formats[f].id == screens[from].depths@[d].visuals@[v].format);
        } else {
            lemma_found_format_is_listed(screens, formats, visual, from + 1);
        }
    }
}

proof fn lemma_found_in_depths(
    depths: Seq<PictDepth>,
    formats: Seq<PictFormat>,
    visual: u32,
    from: int,
)
    requires
        0 <= from,
        spec_search_depths(depths, formats, visual, from) is Some,
    ensures
        exists|d: int, v: int, f: int|
            from <= d < depths.len() && 0 <= v < depths[d].visuals@.len() && 0 <= f
                < formats.len() && depths[d].visuals@[v].visual == visual
                && #[trigger] formats[f].id == #[trigger] depths[d].visuals@[v].format
                && spec_search_depths(depths, formats, visual, from) == Some(formats[f].direct),
    decreases depths.len() - from,
{
    if from < depths.len() {
        let visuals = depths[from].visuals@;
        if spec_search_visuals(visuals, formats, visual, 0) is Some {
            lemma_found_in_visuals(visuals, formats, visual, 0);
            let (v, f) = choose|v: int, f: int|
                0 <= v < visuals.len() && 0 <= f < formats.len() && visuals[v].visual == visual
                    && #[trigger] formats[f].id == #[trigger] visuals[v].format
                    && spec_search_visuals(visuals, formats, visual, 0) == Some(formats[f].direct);
            assert(formats[f].id == depths[from].visuals@[v].format);
        } else {
            lemma_found_in_depths(depths, formats, visual, from + 1);
        }
    }
}

proof fn lemma_found_in_visuals(
    visuals: Seq<PictVisual>,
    formats: Seq<PictFormat>,
    visual: u32,
    from: int,
)
    requires
        0 <= from,
        spec_search_visuals(visuals, formats, visual, from) is Some,
    ensures
        exists|v: int, f: int|
            from <= v < visuals.len() && 0 <= f < formats.len() && visuals[v].visual == visual
                && #[trigger] formats[f].id == #[trigger] visuals[v].format
                && spec_search_visuals(visuals, formats, visual, from) == Some(formats[f].direct),
    decreases visuals.len() - from,
{
    if from < visuals.len() {
        if visuals[from].visual == visual && spec_format_of(formats, visuals[from].format, 0)
            is Some {
            lemma_format_found(formats, visuals[from].format, 0);
            let f = choose|f: int|
                0 <= f < formats.len() && #[trigger] formats[f].id == visuals[from].format
                    && spec_format_of(formats, visuals[from].format, 0) == Some(formats[f].direct);
            assert(formats[f].id == visuals[from].format);
        } else {
            lemma_found_in_visuals(visuals, formats, visual, from + 1);
        }
    }
}

proof fn lemma_format_found(formats: Seq<PictFormat>, id: u32, from: int)
    requires
        0 <= from,
        spec_format_of(formats, id, from) is Some,
    ensures
        exists|f: int|
            from <= f < formats.len() && #[trigger] formats[f].id == id && spec_format_of(
                formats,
                id,
                from,
            ) == Some(formats[f].direct),
    decreases formats.len() - from,
{
    if from < formats.len() {
        if formats[from].id == id {
            assert(formats[from].id == id);
        } else {
            lemma_format_found(formats, id, from + 1);
        }
    }
}

} // verus!
