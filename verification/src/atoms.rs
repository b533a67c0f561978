//! The atoms the window manager works with.
//!
//! Atoms are interned once, when the connection comes up, in the order of
//! [`atom_names`]; [`Atoms::from_ids`] turns the ids that came back into the
//! table the rest of the crate reads.
use vstd::prelude::*;

verus! {

/// Number of atoms in the table.
pub const ATOM_COUNT: usize = 23;

/// The ids of the atoms the window manager works with, each field named
/// after its atom.
#[derive(Clone, Copy, Debug, Default, PartialEq, Eq, Structural)]
pub struct Atoms {
    /// `_NET_WM_STATE`
    pub net_wm_state: u32,
    /// `WM_CHANGE_STATE`
    pub wm_change_state: u32,
    /// `WM_STATE`
    pub wm_state: u32,
    /// `_NET_WM_NAME`
    pub net_wm_name: u32,
    /// `_NET_WM_ICON`
    pub net_wm_icon: u32,
    /// `WM_DELETE_WINDOW`
    pub wm_delete_window: u32,
    /// `_NET_WM_PING`
    pub net_wm_ping: u32,
    /// `UTF8_STRING`
    pub utf8_string: u32,
    /// `_NET_WM_STATE_ABOVE`
    pub net_wm_state_above: u32,
    /// `_NET_FRAME_EXTENTS`
    pub net_frame_extents: u32,
    /// `_NET_WM_STATE_MAXIMIZED_HORZ`
    pub net_wm_state_maximized_horz: u32,
    /// `_NET_WM_STATE_MAXIMIZED_VERT`
    pub net_wm_state_maximized_vert: u32,
    /// `_MOTIF_WM_HINTS`
    pub motif_wm_hints: u32,
    /// `WM_NAME`
    pub wm_name: u32,
    /// `WM_NORMAL_HINTS`
    pub wm_normal_hints: u32,
    /// `WM_HINTS`
    pub wm_hints: u32,
    /// `WM_CLASS`
    pub wm_class: u32,
    /// `WM_PROTOCOLS`
    pub wm_protocols: u32,
    /// `_NET_ACTIVE_WINDOW`
    pub net_active_window: u32,
    /// `_NET_SUPPORTED`
    pub net_supported: u32,
    /// `_NET_CLIENT_LIST`
    pub net_client_list: u32,
    /// `_NET_CLIENT_LIST_STACKING`
    pub net_client_list_stacking: u32,
    /// `_NET_SUPPORTING_WM_CHECK`
    pub net_supporting_wm_check: u32,
}

/// The names of the atoms, in the order of the fields of [`Atoms`].
pub open spec fn spec_atom_names() -> Seq<Seq<char>> {
    seq![
            "_NET_WM_STATE"@,
            "WM_CHANGE_STATE"@,
            "WM_STATE"@,
            "_NET_WM_NAME"@,
            "_NET_WM_ICON"@,
            "WM_DELETE_WINDOW"@,
            "_NET_WM_PING"@,
            "UTF8_STRING"@,
            "_NET_WM_STATE_ABOVE"@,
            "_NET_FRAME_EXTENTS"@,
            "_NET_WM_STATE_MAXIMIZED_HORZ"@,
            "_NET_WM_STATE_MAXIMIZED_VERT"@,
            "_MOTIF_WM_HINTS"@,
            "WM_NAME"@,
            "WM_NORMAL_HINTS"@,
            "WM_HINTS"@,
            "WM_CLASS"@,
            "WM_PROTOCOLS"@,
            "_NET_ACTIVE_WINDOW"@,
            "_NET_SUPPORTED"@,
            "_NET_CLIENT_LIST"@,
            "_NET_CLIENT_LIST_STACKING"@,
            "_NET_SUPPORTING_WM_CHECK"@,
    ]
}

/// Returns the names of the atoms to intern, in the order in which
/// [`Atoms::from_ids`] expects their ids.
pub fn atom_names() -> (names: Vec<&'static str>)
    ensures
        names@.len() == ATOM_COUNT,
        names@.map_values(|name: &'static str| name@) == spec_atom_names(),
{
    let mut names: Vec<&'static str> = Vec::new();
    names.push("_NET_WM_STATE");
    names.push("WM_CHANGE_STATE");
    names.push("WM_STATE");
    names.push("_NET_WM_NAME");
    names.push("_NET_WM_ICON");
    names.push("WM_DELETE_WINDOW");
    names.push("_NET_WM_PING");
    names.push("UTF8_STRING");
    names.push("_NET_WM_STATE_ABOVE");
    names.push("_NET_FRAME_EXTENTS");
    names.push("_NET_WM_STATE_MAXIMIZED_HORZ");
    names.push("_NET_WM_STATE_MAXIMIZED_VERT");
    names.push("_MOTIF_WM_HINTS");
    names.push("WM_NAME");
    names.push("WM_NORMAL_HINTS");
    names.push("WM_HINTS");
    names.push("WM_CLASS");
    names.push("WM_PROTOCOLS");
    names.push("_NET_ACTIVE_WINDOW");
    names.push("_NET_SUPPORTED");
    names.push("_NET_CLIENT_LIST");
    names.push("_NET_CLIENT_LIST_STACKING");
    names.push("_NET_SUPPORTING_WM_CHECK");
    assert(names@.map_values(|name: &'static str| name@) =~= spec_atom_names());
    names
}

impl Atoms {
    /// The table whose fields are `ids`, in order.
    pub open spec fn spec_from_ids(ids: Seq<u32>) -> Atoms
        recommends
            ids.len() == ATOM_COUNT,
    {
        Atoms {
            net_wm_state: ids[0],
            wm_change_state: ids[1],
            wm_state: ids[2],
            net_wm_name: ids[3],
            net_wm_icon: ids[4],
            wm_delete_window: ids[5],
            net_wm_ping: ids[6],
            utf8_string: ids[7],
            net_wm_state_above: ids[8],
            net_frame_extents: ids[9],
            net_wm_state_maximized_horz: ids[10],
            net_wm_state_maximized_vert: ids[11],
            motif_wm_hints: ids[12],
            wm_name: ids[13],
            wm_normal_hints: ids[14],
            wm_hints: ids[15],
            wm_class: ids[16],
            wm_protocols: ids[17],
            net_active_window: ids[18],
            net_supported: ids[19],
            net_client_list: ids[20],
            net_client_list_stacking: ids[21],
            net_supporting_wm_check: ids[22],
        }
    }

    /// Builds the table from the ids that interning [`atom_names`] gave, in
    /// the same order. Returns `None` unless there is exactly one id for
    /// each name.
    pub fn from_ids(ids: &Vec<u32>) -> (atoms: Option<Atoms>)
        ensures
            atoms == if ids@.len() == ATOM_COUNT {
                Some(Atoms::spec_from_ids(ids@))
            } else {
                None
            },
    {
        if ids.len() != ATOM_COUNT {
            return None;
        }
        Some(
            Atoms {
                net_wm_state: ids[0],
                wm_change_state: ids[1],
                wm_state: ids[2],
                net_wm_name: ids[3],
                net_wm_icon: ids[4],
                wm_delete_window: ids[5],
                net_wm_ping: ids[6],
                utf8_string: ids[7],
                net_wm_state_above: ids[8],
                net_frame_extents: ids[9],
                net_wm_state_maximized_horz: ids[10],
                net_wm_state_maximized_vert: ids[11],
                motif_wm_hints: ids[12],
                wm_name: ids[13],
                wm_normal_hints: ids[14],
                wm_hints: ids[15],
                wm_class: ids[16],
                wm_protocols: ids[17],
                net_active_window: ids[18],
                net_supported: ids[19],
                net_client_list: ids[20],
                net_client_list_stacking: ids[21],
                net_supporting_wm_check: ids[22],
            },
        )
    }
}

/// The first id remembered for `name` among `entries`, at or after `from`.
pub open spec fn spec_cached(entries: Seq<(Seq<char>, u32)>, name: Seq<char>, from: int) -> Option<
    u32,
>
    decreases entries.len() - from,
{
    if from < 0 || from >= entries.len() {
        None
    } else if entries[from].0 == name {
        Some(entries[from].1)
    } else {
        spec_cached(entries, name, from + 1)
    }
}

/// Looking at one more entry at the end changes nothing for a name that
/// was found, and finds the new entry for a name that was not.
pub proof fn lemma_cached_push(
    entries: Seq<(Seq<char>, u32)>,
    name: Seq<char>,
    entry: (Seq<char>, u32),
    from: int,
)
    requires
        0 <= from <= entries.len(),
    ensures
        spec_cached(entries.push(entry), name, from) == match spec_cached(entries, name, from) {
            Some(id) => Some(id),
            None => if entry.0 == name {
                Some(entry.1)
            } else {
                None
            },
        },
    decreases entries.len() - from,
{
    let longer = entries.push(entry);
    if from < entries.len() {
        assert(longer[from] == entries[from]);
        if entries[from].0 != name {
            lemma_cached_push(entries, name, entry, from + 1);
        }
    } else {
        assert(longer[from] == entry);
        assert(spec_cached(longer, name, from + 1) is None);
        assert(spec_cached(entries, name, from) is None);
    }
}

/// An atom that was interned.
pub struct AtomEntry {
    pub name: String,
    pub id: u32,
}

/// Remembers the ids of the atoms that were interned, so that each name is
/// asked of the server once.
pub struct AtomCache {
    entries: Vec<AtomEntry>,
}

impl View for AtomCache {
    type V = Seq<(Seq<char>, u32)>;

    closed spec fn view(&self) -> Seq<(Seq<char>, u32)> {
        self.entries@.map_values(|entry: AtomEntry| (entry.name@, entry.id))
    }
}

impl AtomCache {
    /// A cache that remembers nothing yet.
    pub fn new() -> (cache: AtomCache)
        ensures
            cache@ == Seq::<(Seq<char>, u32)>::empty(),
    {
        let cache = AtomCache { entries: Vec::new() };
        assert(cache@ =~= Seq::<(Seq<char>, u32)>::empty());
        cache
    }

    /// Returns the id remembered for `name`, if there is one.
    pub fn lookup(&self, name: &str) -> (id: Option<u32>)
        ensures
            id == spec_cached(self@, name@, 0),
    {
        let mut i: usize = 0;
        while i < self.entries.len()
            invariant
                i <= self.entries@.len(),
                self@.len() == self.entries@.len(),
                spec_cached(self@, name@, 0) == spec_cached(self@, name@, i as int),
            decreases self.entries@.len() - i,
        {
            assert(self@[i as int] == (self.entries@[i as int].name@, self.entries@[i as int].id));
            if same_name(&self.entries[i].name, name) {
                return Some(self.entries[i].id);
            }
            i = i + 1;
        }
        None
    }

    /// Remembers that interning `name` gave `id`, and returns the id that
    /// stands for `name` from now on.
    ///
    /// Interning is idempotent: a name that is remembered already keeps its
    /// id, whatever `id` says, and no other name is touched.
    pub fn remember(&mut self, name: &str, id: u32) -> (known: u32)
        ensures
            known == match spec_cached(old(self)@, name@, 0) {
                Some(first) => first,
                None => id,
            },
            spec_cached(final(self)@, name@, 0) == Some(known),
            forall|other: Seq<char>|
                other != name@ ==> spec_cached(final(self)@, other, 0) == spec_cached(
                    old(self)@,
                    other,
                    0,
                ),
    {
        match self.lookup(name) {
            Some(first) => first,
            None => {
                let ghost before = self@;
                let owned = name.to_owned();
                self.entries.push(AtomEntry { name: owned, id });
                proof {
                    assert(self@ =~= before.push((name@, id)));
                    lemma_cached_push(before, name@, (name@, id), 0);
                    assert forall|other: Seq<char>| other != name@ implies spec_cached(
                        self@,
                        other,
                        0,
                    ) == spec_cached(before, other, 0) by {
                        lemma_cached_push(before, other, (name@, id), 0);
                    }
                }
                id
            },
        }
    }
}

fn same_name(known: &String, name: &str) -> (same: bool)
    ensures
        same == (known@ == name@),
{
    let wanted = name.to_owned();
    *known == wanted
}

} // verus!
