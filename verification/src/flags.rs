//! The optional behaviours that a backend supports and a test requires.
//!
//! A test runs on a backend only if every behaviour it requires is among
//! those the backend supports. Nothing else in this crate branches on the
//! backend.
use vstd::prelude::*;

verus! {

/// Instances of the backend may run on several threads at once.
pub const MT_SAFE: u32 = 0x1;

/// The toolkit can set: always on top.
pub const WINIT_SET_ALWAYS_ON_TOP: u32 = 0x2;

/// The toolkit can set: decorations.
pub const WINIT_SET_DECORATIONS: u32 = 0x4;

/// The toolkit can set: inner size.
pub const WINIT_SET_INNER_SIZE: u32 = 0x8;

/// The toolkit can set: outer position.
pub const WINIT_SET_OUTER_POSITION: u32 = 0x10;

/// The toolkit can set: title.
pub const WINIT_SET_TITLE: u32 = 0x20;

/// The toolkit can set: maximized.
pub const WINIT_SET_MAXIMIZED: u32 = 0x40;

/// The toolkit can set: size bounds.
pub const WINIT_SET_SIZE_BOUNDS: u32 = 0x80;

/// The toolkit can set: attention.
pub const WINIT_SET_ATTENTION: u32 = 0x100;

/// The backend talks to an X11 server.
pub const X11: u32 = 0x200;

/// The toolkit can set: minimized.
pub const WINIT_SET_MINIMIZED: u32 = 0x400;

/// The toolkit can set: visible.
pub const WINIT_SET_VISIBLE: u32 = 0x800;

/// The toolkit can set: resizable.
pub const WINIT_SET_RESIZABLE: u32 = 0x1000;

/// Windows of the toolkit can be transparent.
pub const WINIT_TRANSPARENCY: u32 = 0x2000;

/// The toolkit can set: icon.
pub const WINIT_SET_ICON: u32 = 0x4000;

/// The backend itself can move a window.
pub const SET_OUTER_POSITION: u32 = 0x8000;

/// The backend itself can resize a window.
pub const SET_INNER_SIZE: u32 = 0x10000;

/// Adding a device is reported.
pub const DEVICE_ADDED: u32 = 0x20000;

/// Removing a device is reported.
pub const DEVICE_REMOVED: u32 = 0x40000;

/// The backend can create seats.
pub const CREATE_SEAT: u32 = 0x80000;

/// The backend can switch a second monitor on and off.
pub const SECOND_MONITOR: u32 = 0x100000;

/// Monitors have names.
pub const MONITOR_NAMES: u32 = 0x200000;

/// Marks a test that must not run beside others. It asks nothing of the backend.
pub const SINGLE_THREADED: u32 = 0x400000;

/// All flags that have a meaning.
pub const ALL_FLAGS: u32 = 0x7fffff;

/// The flags of a test that ask nothing of the backend.
pub const NON_REQUIREMENT_FLAGS: u32 = SINGLE_THREADED;

/// The flags of the X11 backend.
pub const X11_FLAGS: u32 = 0x7dfff;

/// A set of flags.
#[derive(Clone, Copy, Debug, PartialEq, Eq, Structural)]
pub struct BackendFlags {
    pub bits: u32,
}

impl BackendFlags {
    /// Whether every flag of `other` is in the set.
    pub open spec fn spec_contains(self, other: BackendFlags) -> bool {
        self.bits & other.bits == other.bits
    }

    /// Whether no flag is in the set.
    pub open spec fn spec_is_empty(self) -> bool {
        self.bits == 0
    }

    /// The flags of `self` that are not in `other`.
    pub open spec fn spec_difference(self, other: BackendFlags) -> BackendFlags {
        BackendFlags { bits: self.bits & !other.bits }
    }

    /// The flags that a test with flags `self` requires of a backend.
    pub open spec fn spec_required(self) -> BackendFlags {
        BackendFlags { bits: self.bits & !NON_REQUIREMENT_FLAGS }
    }

    /// The empty set.
    pub fn empty() -> (flags: BackendFlags)
        ensures
            flags.bits == 0,
    {
        BackendFlags { bits: 0 }
    }

    /// The set of the flags whose bits are set in `bits`. Bits without a
    /// meaning are dropped.
    pub fn from_bits_truncate(bits: u32) -> (flags: BackendFlags)
        ensures
            flags.bits == bits & ALL_FLAGS,
    {
        BackendFlags { bits: bits & ALL_FLAGS }
    }

    /// Returns the bits of the set.
    pub fn bits(self) -> (bits: u32)
        ensures
            bits == self.bits,
    {
        self.bits
    }

    /// Returns whether no flag is in the set.
    pub fn is_empty(self) -> (empty: bool)
        ensures
            empty == self.spec_is_empty(),
    {
        self.bits == 0
    }

    /// Returns whether every flag of `other` is in the set.
    pub fn contains(self, other: BackendFlags) -> (contained: bool)
        ensures
            contained == self.spec_contains(other),
    {
        self.bits & other.bits == other.bits
    }

    /// The flags that are in either set.
    pub fn union(self, other: BackendFlags) -> (flags: BackendFlags)
        ensures
            flags.bits == self.bits | other.bits,
    {
        BackendFlags { bits: self.bits | other.bits }
    }

    /// The flags that are in both sets.
    pub fn intersection(self, other: BackendFlags) -> (flags: BackendFlags)
        ensures
            flags.bits == self.bits & other.bits,
    {
        BackendFlags { bits: self.bits & other.bits }
    }

    /// The flags of `self` that are not in `other`.
    pub fn difference(self, other: BackendFlags) -> (flags: BackendFlags)
        ensures
            flags == self.spec_difference(other),
    {
        BackendFlags { bits: self.bits & !other.bits }
    }

    /// The flags that a test with flags `self` requires of a backend: all
    /// but those that only say how the test is to be run.
    pub fn required_flags(self) -> (flags: BackendFlags)
        ensures
            flags == self.spec_required(),
    {
        BackendFlags { bits: self.bits & !NON_REQUIREMENT_FLAGS }
    }

    /// The flags that a test requiring `self` misses on a backend that
    /// supports `supported`.
    pub fn missing_flags(self, supported: BackendFlags) -> (missing: BackendFlags)
        ensures
            missing == self.spec_difference(supported),
    {
        self.difference(supported)
    }

    /// Whether a test requiring `self` runs on a backend that supports
    /// `supported`: if and only if it misses nothing, which is to say that
    /// the required flags are a subset of the supported ones.
    pub fn is_supported_by(self, supported: BackendFlags) -> (runs: bool)
        ensures
            runs == self.spec_difference(supported).spec_is_empty(),
            runs == supported.spec_contains(self),
    {
        proof {
            Self::lemma_missing_nothing_is_subset(self, supported);
        }
        self.missing_flags(supported).is_empty()
    }

    /// Whether the tests of a backend with these flags may run in parallel.
    pub fn allows_parallel_tests(self) -> (parallel: bool)
        ensures
            parallel == self.spec_contains(BackendFlags { bits: MT_SAFE }),
    {
        self.contains(BackendFlags { bits: MT_SAFE })
    }

    /// A test misses nothing on a backend exactly when what it requires is
    /// a subset of what the backend supports.
    pub proof fn lemma_missing_nothing_is_subset(required: BackendFlags, supported: BackendFlags)
        ensures
            required.spec_difference(supported).spec_is_empty() <==> supported.spec_contains(
                required,
            ),
    {
        let r = required.bits;
        let s = supported.bits;
        assert((r & !s == 0) <==> (s & r == r)) by (bit_vector);
    }

    /// Containment is an order on flag sets: every set contains itself and
    /// the empty set, containment is transitive, and a union contains both
    /// its parts.
    pub proof fn lemma_contains_is_an_order(a: BackendFlags, b: BackendFlags, c: BackendFlags)
        ensures
            a.spec_contains(a),
            a.spec_contains(BackendFlags { bits: 0 }),
            a.spec_contains(b) && b.spec_contains(c) ==> a.spec_contains(c),
            a.spec_contains(b) && b.spec_contains(a) ==> a == b,
            (BackendFlags { bits: a.bits | b.bits }).spec_contains(a),
            (BackendFlags { bits: a.bits | b.bits }).spec_contains(b),
    {
        let x = a.bits;
        let y = b.bits;
        let z = c.bits;
        assert(x & x == x) by (bit_vector);
        assert(x & 0 == 0) by (bit_vector);
        assert((x & y == y) && (y & z == z) ==> (x & z == z)) by (bit_vector);
        assert((x & y == y) && (y & x == x) ==> x == y) by (bit_vector);
        assert((x | y) & x == x) by (bit_vector);
        assert((x | y) & y == y) by (bit_vector);
    }
}

/// What the runner does with a test on a backend.
#[derive(Clone, Copy, Debug, PartialEq, Eq, Structural)]
pub enum TestDecision {
    /// The backend supports everything the test requires.
    Run,
    /// The backend lacks the given flags: the test is skipped, which is no
    /// failure.
    Skip(BackendFlags),
}

/// Decides whether a test with flags `test` runs on a backend with flags
/// `backend`.
pub fn decide(test: BackendFlags, backend: BackendFlags) -> (decision: TestDecision)
    ensures
        decision == if backend.spec_contains(test.spec_required()) {
            TestDecision::Run
        } else {
            TestDecision::Skip(test.spec_required().spec_difference(backend))
        },
{
    let required = test.required_flags();
    proof {
        BackendFlags::lemma_missing_nothing_is_subset(required, backend);
    }
    let missing = required.missing_flags(backend);
    if missing.is_empty() {
        TestDecision::Run
    } else {
        TestDecision::Skip(missing)
    }
}

/// Whether a test counts as failed: `Some(failed)` is what a test that ran
/// to its end says of itself, `None` stands for a test that panicked, and
/// that is a failure.
pub fn counts_as_failed(outcome: Option<bool>) -> (failed: bool)
    ensures
        failed == (outcome != Some(false)),
{
    match outcome {
        Some(failed) => failed,
        None => true,
    }
}

/// Returns the flags of the X11 backend: everything the toolkit can set on
/// X11 but transparency, moving and resizing by the backend itself, device
/// hot-plugging, and parallel instances.
pub fn x11_flags() -> (flags: BackendFlags)
    ensures
        flags.bits == X11_FLAGS,
        flags.bits == MT_SAFE | WINIT_SET_ALWAYS_ON_TOP | WINIT_SET_DECORATIONS | WINIT_SET_INNER_SIZE | WINIT_SET_OUTER_POSITION | WINIT_SET_TITLE | WINIT_SET_VISIBLE | WINIT_SET_MAXIMIZED | WINIT_SET_MINIMIZED | WINIT_SET_SIZE_BOUNDS | WINIT_SET_ATTENTION | WINIT_SET_RESIZABLE | WINIT_SET_ICON | X11 | SET_OUTER_POSITION | SET_INNER_SIZE | DEVICE_ADDED | DEVICE_REMOVED,
{
    assert(0x7dfffu32 == 0x1u32 | 0x2u32 | 0x4u32 | 0x8u32 | 0x10u32 | 0x20u32 | 0x800u32 | 0x40u32 | 0x400u32 | 0x80u32 | 0x100u32 | 0x1000u32 | 0x4000u32 | 0x200u32 | 0x8000u32 | 0x10000u32 | 0x20000u32 | 0x40000u32) by (bit_vector);
    BackendFlags { bits: X11_FLAGS }
}

} // verus!
