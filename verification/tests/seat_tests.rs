use winit_it::device::{Device, Keyboard};
use winit_it::keyboard::{Key, Layout};
use winit_it::seat::{
    find_core_devices, layout_requests, needs_remap, CoreDeviceError, DeviceInfo, RemapPolicy,
    XSeat,
};
use winit_it::wire::{Keymap, Request};

fn policies() -> [RemapPolicy; 2] {
    [RemapPolicy::Always, RemapPolicy::SwappedTransitions]
}

fn layouts() -> [Layout; 3] {
    [Layout::Qwerty, Layout::Azerty, Layout::QwertySwapped]
}

/// What a device has loaded after `requests`, starting from `state`.
fn apply(
    mut state: (Option<Keymap>, u8),
    device: u16,
    requests: &[Request],
) -> (Option<Keymap>, u8) {
    for request in requests {
        match *request {
            Request::SetKeymap { device: d, keymap } if d == device => state.0 = Some(keymap),
            Request::LockGroup { device: d, group } if d == device => state.1 = group,
            _ => {}
        }
    }
    state
}

fn shows(state: (Option<Keymap>, u8), layout: Layout) -> bool {
    state == (Some(layout.keymap()), layout.group())
}

#[test]
fn remap_table_of_the_sparing_policy() {
    let p = RemapPolicy::SwappedTransitions;
    for layout in layouts() {
        assert!(needs_remap(p, layout, None));
    }
    assert!(!needs_remap(p, Layout::Qwerty, Some(Layout::Qwerty)));
    assert!(!needs_remap(p, Layout::Qwerty, Some(Layout::Azerty)));
    assert!(!needs_remap(p, Layout::Azerty, Some(Layout::Qwerty)));
    assert!(!needs_remap(p, Layout::Azerty, Some(Layout::Azerty)));
    assert!(needs_remap(p, Layout::QwertySwapped, Some(Layout::Qwerty)));
    assert!(needs_remap(p, Layout::QwertySwapped, Some(Layout::Azerty)));
    assert!(needs_remap(p, Layout::QwertySwapped, Some(Layout::QwertySwapped)));
    assert!(needs_remap(p, Layout::Qwerty, Some(Layout::QwertySwapped)));
    assert!(needs_remap(p, Layout::Azerty, Some(Layout::QwertySwapped)));
}

#[test]
fn the_eager_policy_always_remaps() {
    for layout in layouts() {
        assert!(needs_remap(RemapPolicy::Always, layout, None));
        for previous in layouts() {
            assert!(needs_remap(RemapPolicy::Always, layout, Some(previous)));
        }
    }
}

#[test]
fn a_plain_switch_only_locks_the_group() {
    assert_eq!(
        layout_requests(RemapPolicy::SwappedTransitions, 5, Layout::Azerty, Some(Layout::Qwerty)),
        vec![Request::LockGroup { device: 5, group: 1 }]
    );
    assert_eq!(
        layout_requests(RemapPolicy::SwappedTransitions, 5, Layout::Qwerty, Some(Layout::Azerty)),
        vec![Request::LockGroup { device: 5, group: 0 }]
    );
}

#[test]
fn a_switch_to_the_swapped_layout_reloads_the_keymap() {
    assert_eq!(
        layout_requests(
            RemapPolicy::SwappedTransitions,
            5,
            Layout::QwertySwapped,
            Some(Layout::Azerty)
        ),
        vec![
            Request::SetKeymap { device: 5, keymap: Keymap::Swapped },
            Request::SetLevelNames { device: 5 },
            Request::LockGroup { device: 5, group: 0 },
        ]
    );
}

#[test]
fn a_first_layout_reloads_the_keymap() {
    assert_eq!(
        layout_requests(RemapPolicy::SwappedTransitions, 9, Layout::Azerty, None),
        vec![
            Request::SetKeymap { device: 9, keymap: Keymap::Standard },
            Request::SetLevelNames { device: 9 },
            Request::LockGroup { device: 9, group: 1 },
        ]
    );
}

#[test]
fn the_group_is_always_locked_last() {
    for policy in policies() {
        for layout in layouts() {
            for previous in [None, Some(Layout::Qwerty), Some(Layout::Azerty), Some(Layout::QwertySwapped)] {
                let requests = layout_requests(policy, 3, layout, previous);
                assert_eq!(
                    requests.last(),
                    Some(&Request::LockGroup { device: 3, group: layout.group() })
                );
            }
        }
    }
}

#[test]
fn every_layout_change_takes_effect() {
    for policy in policies() {
        for previous in layouts() {
            for layout in layouts() {
                let before = (Some(previous.keymap()), previous.group());
                let requests = layout_requests(policy, 3, layout, Some(previous));
                assert!(shows(apply(before, 3, &requests), layout));
            }
        }
        // Nothing is assumed of a device without a previous layout.
        for layout in layouts() {
            for before in [(None, 0), (Some(Keymap::Swapped), 1), (Some(Keymap::Standard), 3)] {
                let requests = layout_requests(policy, 3, layout, None);
                assert!(shows(apply(before, 3, &requests), layout));
            }
        }
    }
}

#[test]
fn switching_there_and_back_restores_the_device() {
    for policy in policies() {
        for home in layouts() {
            for other in layouts() {
                let before = (Some(home.keymap()), home.group());
                let there = apply(before, 3, &layout_requests(policy, 3, other, Some(home)));
                assert!(shows(there, other));
                let back = apply(there, 3, &layout_requests(policy, 3, home, Some(other)));
                assert_eq!(back, before);
            }
        }
    }
}

#[test]
fn requests_for_another_device_change_nothing() {
    let before = (Some(Keymap::Standard), 0);
    let requests = layout_requests(RemapPolicy::Always, 4, Layout::QwertySwapped, None);
    assert_eq!(apply(before, 3, &requests), before);
}

#[test]
fn seat_set_layout_plans_from_the_current_layout() {
    let mut seat = XSeat::default_seat(2, 3, RemapPolicy::SwappedTransitions);
    assert_eq!(seat.layout, Layout::Qwerty);
    assert_eq!(seat.set_layout(Layout::Azerty), vec![Request::LockGroup { device: 3, group: 1 }]);
    assert_eq!(seat.layout, Layout::Azerty);
    assert_eq!(
        seat.set_layout(Layout::QwertySwapped),
        vec![
            Request::SetKeymap { device: 3, keymap: Keymap::Swapped },
            Request::SetLevelNames { device: 3 },
            Request::LockGroup { device: 3, group: 0 },
        ]
    );
    assert_eq!(
        seat.set_layout(Layout::Qwerty),
        vec![
            Request::SetKeymap { device: 3, keymap: Keymap::Standard },
            Request::SetLevelNames { device: 3 },
            Request::LockGroup { device: 3, group: 0 },
        ]
    );
    assert_eq!(seat.layout, Layout::Qwerty);
    assert_eq!(seat.pointer, 2);
    assert_eq!(seat.keyboard, 3);
}

#[test]
fn setting_the_same_layout_still_locks_the_group() {
    let mut seat = XSeat::default_seat(2, 3, RemapPolicy::SwappedTransitions);
    assert_eq!(seat.set_layout(Layout::Qwerty), vec![Request::LockGroup { device: 3, group: 0 }]);
}

#[test]
fn add_keyboard_attaches_and_gives_the_layout_to_slave_and_master() {
    let mut seat = XSeat::default_seat(2, 3, RemapPolicy::SwappedTransitions);
    seat.set_layout(Layout::Azerty);
    let (mut keyboard, requests) = seat.add_keyboard(&[2, 12, 0]).unwrap();
    assert_eq!(keyboard.id().id, 12);
    assert!(keyboard.is_idle());
    assert_eq!(
        requests,
        vec![
            Request::AttachSlave { slave: 12, master: 3 },
            Request::SetKeymap { device: 12, keymap: Keymap::Standard },
            Request::SetLevelNames { device: 12 },
            Request::LockGroup { device: 12, group: 1 },
            Request::SetKeymap { device: 3, keymap: Keymap::Standard },
            Request::SetLevelNames { device: 3 },
            Request::LockGroup { device: 3, group: 1 },
        ]
    );
    let (_, message) = keyboard.press(Key::KeyQ);
    assert_eq!(
        message,
        Some(winit_it::injection::Message::KeyPress { id: 12, key: 16 })
    );
}

#[test]
fn add_keyboard_needs_a_creation_reply() {
    let seat = XSeat::default_seat(2, 3, RemapPolicy::Always);
    assert!(seat.add_keyboard(&[1, 12, 0]).is_none());
    assert!(seat.add_keyboard(&[3, 12, 38]).is_none());
    assert!(seat.add_keyboard(&[0, 0, 0]).is_none());
    assert!(seat.add_keyboard(&[77, 0, 0]).is_none());
}

#[test]
fn add_keyboard_keeps_the_low_sixteen_bits_of_the_id() {
    let seat = XSeat::default_seat(2, 3, RemapPolicy::Always);
    let (keyboard, requests) = seat.add_keyboard(&[2, 0x0001_0005, 0]).unwrap();
    assert_eq!(keyboard.id().id, 5);
    assert_eq!(requests[0], Request::AttachSlave { slave: 5, master: 3 });
}

#[test]
fn focus_goes_to_the_master_keyboard() {
    let seat = XSeat::default_seat(2, 3, RemapPolicy::Always);
    assert_eq!(seat.focus(0x600001), Request::SetFocus { window: 0x600001, device: 3 });
}

#[test]
fn the_core_seat_is_never_removed() {
    let seat = XSeat::default_seat(2, 3, RemapPolicy::Always);
    assert_eq!(seat.remove(), None);
}

#[test]
fn another_seat_has_its_master_removed() {
    let seat = XSeat {
        pointer: 10,
        keyboard: 11,
        core_keyboard: 3,
        layout: Layout::Qwerty,
        policy: RemapPolicy::Always,
    };
    assert_eq!(seat.remove(), Some(Request::RemoveMaster { device: 11 }));
}

#[test]
fn core_devices_are_the_one_master_pointer_and_its_attachment() {
    let infos = vec![
        DeviceInfo { deviceid: 3, kind: 2, attachment: 2 },
        DeviceInfo { deviceid: 2, kind: 1, attachment: 3 },
        DeviceInfo { deviceid: 4, kind: 3, attachment: 2 },
    ];
    assert_eq!(find_core_devices(&infos), Ok((2, 3)));
}

#[test]
fn no_master_pointer_is_an_error() {
    assert_eq!(find_core_devices(&vec![]), Err(CoreDeviceError::NoMasterPointer));
    let infos = vec![
        DeviceInfo { deviceid: 3, kind: 2, attachment: 2 },
        DeviceInfo { deviceid: 4, kind: 4, attachment: 3 },
    ];
    assert_eq!(find_core_devices(&infos), Err(CoreDeviceError::NoMasterPointer));
}

#[test]
fn several_master_pointers_are_an_error() {
    let infos = vec![
        DeviceInfo { deviceid: 2, kind: 1, attachment: 3 },
        DeviceInfo { deviceid: 3, kind: 2, attachment: 2 },
        DeviceInfo { deviceid: 8, kind: 1, attachment: 9 },
    ];
    assert_eq!(find_core_devices(&infos), Err(CoreDeviceError::SeveralMasterPointers));
}
