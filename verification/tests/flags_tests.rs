use winit_it::flags::{
    counts_as_failed, decide, x11_flags, BackendFlags, TestDecision, ALL_FLAGS, CREATE_SEAT,
    DEVICE_ADDED, DEVICE_REMOVED, MONITOR_NAMES, MT_SAFE, NON_REQUIREMENT_FLAGS, SECOND_MONITOR,
    SET_INNER_SIZE, SET_OUTER_POSITION, SINGLE_THREADED, WINIT_SET_ALWAYS_ON_TOP,
    WINIT_SET_ATTENTION, WINIT_SET_DECORATIONS, WINIT_SET_ICON, WINIT_SET_INNER_SIZE,
    WINIT_SET_MAXIMIZED, WINIT_SET_MINIMIZED, WINIT_SET_OUTER_POSITION, WINIT_SET_RESIZABLE,
    WINIT_SET_SIZE_BOUNDS, WINIT_SET_TITLE, WINIT_SET_VISIBLE, WINIT_TRANSPARENCY, X11, X11_FLAGS,
};

fn flags(bits: u32) -> BackendFlags {
    BackendFlags { bits }
}

#[test]
fn flag_bits() {
    let bits = [
        MT_SAFE,
        WINIT_SET_ALWAYS_ON_TOP,
        WINIT_SET_DECORATIONS,
        WINIT_SET_INNER_SIZE,
        WINIT_SET_OUTER_POSITION,
        WINIT_SET_TITLE,
        WINIT_SET_MAXIMIZED,
        WINIT_SET_SIZE_BOUNDS,
        WINIT_SET_ATTENTION,
        X11,
        WINIT_SET_MINIMIZED,
        WINIT_SET_VISIBLE,
        WINIT_SET_RESIZABLE,
        WINIT_TRANSPARENCY,
        WINIT_SET_ICON,
        SET_OUTER_POSITION,
        SET_INNER_SIZE,
        DEVICE_ADDED,
        DEVICE_REMOVED,
        CREATE_SEAT,
        SECOND_MONITOR,
        MONITOR_NAMES,
        SINGLE_THREADED,
    ];
    for (i, bit) in bits.iter().enumerate() {
        assert_eq!(*bit, 1 << i);
    }
    assert_eq!(ALL_FLAGS, (1 << 23) - 1);
    assert_eq!(NON_REQUIREMENT_FLAGS, SINGLE_THREADED);
}

#[test]
fn the_x11_backend_flags() {
    let expected = MT_SAFE
        | WINIT_SET_ALWAYS_ON_TOP
        | WINIT_SET_DECORATIONS
        | WINIT_SET_INNER_SIZE
        | WINIT_SET_OUTER_POSITION
        | WINIT_SET_TITLE
        | WINIT_SET_VISIBLE
        | WINIT_SET_MAXIMIZED
        | WINIT_SET_MINIMIZED
        | WINIT_SET_SIZE_BOUNDS
        | WINIT_SET_ATTENTION
        | WINIT_SET_RESIZABLE
        | WINIT_SET_ICON
        | X11
        | SET_OUTER_POSITION
        | SET_INNER_SIZE
        | DEVICE_ADDED
        | DEVICE_REMOVED;
    assert_eq!(x11_flags().bits(), expected);
    assert_eq!(X11_FLAGS, expected);
    assert!(!x11_flags().contains(flags(WINIT_TRANSPARENCY)));
    assert!(!x11_flags().contains(flags(CREATE_SEAT)));
    assert!(!x11_flags().contains(flags(SECOND_MONITOR)));
    assert!(x11_flags().allows_parallel_tests());
    assert!(!flags(X11).allows_parallel_tests());
}

#[test]
fn set_operations() {
    let a = flags(0b0110);
    let b = flags(0b0011);
    assert_eq!(a.union(b), flags(0b0111));
    assert_eq!(a.intersection(b), flags(0b0010));
    assert_eq!(a.difference(b), flags(0b0100));
    assert_eq!(b.difference(a), flags(0b0001));
    assert!(BackendFlags::empty().is_empty());
    assert!(!a.is_empty());
    assert!(a.contains(flags(0b0100)));
    assert!(a.contains(a));
    assert!(a.contains(BackendFlags::empty()));
    assert!(!a.contains(b));
    assert!(a.union(b).contains(a));
    assert!(a.union(b).contains(b));
    assert_eq!(BackendFlags::from_bits_truncate(u32::MAX), flags(ALL_FLAGS));
    assert_eq!(BackendFlags::from_bits_truncate(X11 | (1 << 30)), flags(X11));
}

#[test]
fn a_test_runs_if_and_only_if_it_misses_nothing() {
    for required in 0..16u32 {
        for supported in 0..16u32 {
            let subset = required & supported == required;
            assert_eq!(flags(required).is_supported_by(flags(supported)), subset);
            assert_eq!(flags(required).missing_flags(flags(supported)).is_empty(), subset);
            assert_eq!(flags(supported).contains(flags(required)), subset);
        }
    }
}

#[test]
fn missing_flags_are_named() {
    assert_eq!(
        flags(WINIT_SET_MINIMIZED | SECOND_MONITOR | X11).missing_flags(x11_flags()),
        flags(SECOND_MONITOR)
    );
    assert_eq!(flags(X11).missing_flags(x11_flags()), BackendFlags::empty());
}

#[test]
fn running_single_threaded_asks_nothing_of_the_backend() {
    assert_eq!(flags(SINGLE_THREADED | X11).required_flags(), flags(X11));
    assert_eq!(decide(flags(SINGLE_THREADED), flags(0)), TestDecision::Run);
    assert_eq!(decide(flags(SINGLE_THREADED | X11), x11_flags()), TestDecision::Run);
}

#[test]
fn unsupported_tests_are_skipped() {
    assert_eq!(decide(BackendFlags::empty(), BackendFlags::empty()), TestDecision::Run);
    assert_eq!(decide(flags(WINIT_SET_MINIMIZED), x11_flags()), TestDecision::Run);
    assert_eq!(
        decide(flags(SECOND_MONITOR), x11_flags()),
        TestDecision::Skip(flags(SECOND_MONITOR))
    );
    assert_eq!(
        decide(flags(CREATE_SEAT | X11 | SINGLE_THREADED | MONITOR_NAMES), x11_flags()),
        TestDecision::Skip(flags(CREATE_SEAT | MONITOR_NAMES))
    );
}

#[test]
fn a_panic_counts_as_a_failure() {
    assert!(counts_as_failed(None));
    assert!(counts_as_failed(Some(true)));
    assert!(!counts_as_failed(Some(false)));
}
