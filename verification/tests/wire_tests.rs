use winit_it::wire::{
    classify, connection_state, wire_word, ClientMessage, ConfigureValues, EventClass, ConnectionError, FailurePolicy, Keymap,
    Outcome, ProtocolError, Request, ATOM_ATOM, ATOM_CARDINAL, CHANGE_MODE_FLOAT, CLIENT_MESSAGE, CONFIGURE_NOTIFY,
    CONFIGURE_REQUEST, CONFIG_WINDOW_BORDER_WIDTH, CONFIG_WINDOW_HEIGHT, CONFIG_WINDOW_SIBLING,
    CONFIG_WINDOW_STACK_MODE, CONFIG_WINDOW_WIDTH, CONFIG_WINDOW_X, CONFIG_WINDOW_Y,
    CREATE_NOTIFY, DESTROY_NOTIFY, DEVICE_TYPE_MASTER_POINTER, EVENT_MASK_PROPERTY_CHANGE,
    EVENT_MASK_SUBSTRUCTURE_NOTIFY, EVENT_MASK_SUBSTRUCTURE_REDIRECT, HIERARCHY_ATTACH_SLAVE,
    HIERARCHY_REMOVE_MASTER, MAPPING_NOTIFY, MAP_NOTIFY, MAP_REQUEST, PROPERTY_NOTIFY,
    REPARENT_NOTIFY, UNMAP_NOTIFY, WM_EVENT_MASK,
};
use xcb_dl::ffi;
use xcb_dl_util::error::XcbConnectionError;

fn values() -> ConfigureValues {
    ConfigureValues { x: -1, y: 2, width: 3, height: 4, border_width: 5, sibling: 6, stack_mode: 7 }
}

fn message() -> ClientMessage {
    ClientMessage { window: 1, message_type: 2, data: [3, 4, 5, 6, 7] }
}

#[test]
fn protocol_numbers_are_those_of_the_bindings() {
    assert_eq!(CREATE_NOTIFY, ffi::XCB_CREATE_NOTIFY);
    assert_eq!(DESTROY_NOTIFY, ffi::XCB_DESTROY_NOTIFY);
    assert_eq!(UNMAP_NOTIFY, ffi::XCB_UNMAP_NOTIFY);
    assert_eq!(MAP_NOTIFY, ffi::XCB_MAP_NOTIFY);
    assert_eq!(MAP_REQUEST, ffi::XCB_MAP_REQUEST);
    assert_eq!(REPARENT_NOTIFY, ffi::XCB_REPARENT_NOTIFY);
    assert_eq!(CONFIGURE_NOTIFY, ffi::XCB_CONFIGURE_NOTIFY);
    assert_eq!(CONFIGURE_REQUEST, ffi::XCB_CONFIGURE_REQUEST);
    assert_eq!(PROPERTY_NOTIFY, ffi::XCB_PROPERTY_NOTIFY);
    assert_eq!(CLIENT_MESSAGE, ffi::XCB_CLIENT_MESSAGE);
    assert_eq!(MAPPING_NOTIFY, ffi::XCB_MAPPING_NOTIFY);
    assert_eq!(EVENT_MASK_SUBSTRUCTURE_NOTIFY, ffi::XCB_EVENT_MASK_SUBSTRUCTURE_NOTIFY);
    assert_eq!(EVENT_MASK_SUBSTRUCTURE_REDIRECT, ffi::XCB_EVENT_MASK_SUBSTRUCTURE_REDIRECT);
    assert_eq!(EVENT_MASK_PROPERTY_CHANGE, ffi::XCB_EVENT_MASK_PROPERTY_CHANGE);
    assert_eq!(
        WM_EVENT_MASK,
        ffi::XCB_EVENT_MASK_SUBSTRUCTURE_REDIRECT
            | ffi::XCB_EVENT_MASK_SUBSTRUCTURE_NOTIFY
            | ffi::XCB_EVENT_MASK_PROPERTY_CHANGE
    );
    assert_eq!(u32::from(CONFIG_WINDOW_X), ffi::XCB_CONFIG_WINDOW_X);
    assert_eq!(u32::from(CONFIG_WINDOW_Y), ffi::XCB_CONFIG_WINDOW_Y);
    assert_eq!(u32::from(CONFIG_WINDOW_WIDTH), ffi::XCB_CONFIG_WINDOW_WIDTH);
    assert_eq!(u32::from(CONFIG_WINDOW_HEIGHT), ffi::XCB_CONFIG_WINDOW_HEIGHT);
    assert_eq!(u32::from(CONFIG_WINDOW_BORDER_WIDTH), ffi::XCB_CONFIG_WINDOW_BORDER_WIDTH);
    assert_eq!(u32::from(CONFIG_WINDOW_SIBLING), ffi::XCB_CONFIG_WINDOW_SIBLING);
    assert_eq!(u32::from(CONFIG_WINDOW_STACK_MODE), ffi::XCB_CONFIG_WINDOW_STACK_MODE);
    assert_eq!(ATOM_ATOM, ffi::XCB_ATOM_ATOM);
    assert_eq!(ATOM_CARDINAL, ffi::XCB_ATOM_CARDINAL);
    assert_eq!(winit_it::wire::ATOM_STRING, ffi::XCB_ATOM_STRING);
    assert_eq!(winit_it::wire::ATOM_WM_HINTS, ffi::XCB_ATOM_WM_HINTS);
    assert_eq!(winit_it::wire::ATOM_WM_SIZE_HINTS, ffi::XCB_ATOM_WM_SIZE_HINTS);
    assert_eq!(u32::from(HIERARCHY_REMOVE_MASTER), ffi::XCB_INPUT_HIERARCHY_CHANGE_TYPE_REMOVE_MASTER);
    assert_eq!(u32::from(HIERARCHY_ATTACH_SLAVE), ffi::XCB_INPUT_HIERARCHY_CHANGE_TYPE_ATTACH_SLAVE);
    assert_eq!(u32::from(CHANGE_MODE_FLOAT), ffi::XCB_INPUT_CHANGE_MODE_FLOAT);
    assert_eq!(u32::from(DEVICE_TYPE_MASTER_POINTER), ffi::XCB_INPUT_DEVICE_TYPE_MASTER_POINTER);
}

#[test]
fn hierarchy_changes_have_the_size_of_their_wire_structures() {
    let attach = std::mem::size_of::<ffi::xcb_input_hierarchy_change_t>()
        + std::mem::size_of::<ffi::xcb_input_hierarchy_change_data_t__attach_slave>();
    let remove = std::mem::size_of::<ffi::xcb_input_hierarchy_change_t>()
        + std::mem::size_of::<ffi::xcb_input_hierarchy_change_data_t__remove_master>();
    assert_eq!(
        Request::AttachSlave { slave: 1, master: 2 }.hierarchy_change(),
        Some((3, (attach / 4) as u16))
    );
    assert_eq!(
        Request::RemoveMaster { device: 1 }.hierarchy_change(),
        Some((2, (remove / 4) as u16))
    );
    assert_eq!(Request::AttachSlave { slave: 1, master: 2 }.hierarchy_change(), Some((3, 2)));
    assert_eq!(Request::RemoveMaster { device: 1 }.hierarchy_change(), Some((2, 3)));
    assert_eq!(Request::MapWindow { window: 1 }.hierarchy_change(), None);
}

#[test]
fn signed_values_travel_in_twos_complement() {
    assert_eq!(wire_word(0), 0);
    assert_eq!(wire_word(1), 1);
    assert_eq!(wire_word(i32::MAX), 0x7fff_ffff);
    assert_eq!(wire_word(-1), 0xffff_ffff);
    assert_eq!(wire_word(-2), 0xffff_fffe);
    assert_eq!(wire_word(i32::MIN), 0x8000_0000);
    for v in [-100, -5, 7, 1000] {
        assert_eq!(wire_word(v), v as u32);
    }
}

#[test]
fn only_the_selected_values_are_packed() {
    let v = values();
    assert_eq!(v.pack(0), Vec::<u32>::new());
    assert_eq!(v.pack(1), vec![0xffff_ffff]);
    assert_eq!(v.pack(2), vec![2]);
    assert_eq!(v.pack(4 | 8), vec![3, 4]);
    assert_eq!(v.pack(1 | 64), vec![0xffff_ffff, 7]);
    assert_eq!(v.pack(0x7f), vec![0xffff_ffff, 2, 3, 4, 5, 6, 7]);
    assert_eq!(v.pack(0xff80), Vec::<u32>::new());
    assert_eq!(v.pack(0xffff), vec![0xffff_ffff, 2, 3, 4, 5, 6, 7]);
    assert_eq!(v.pack(16 | 32), vec![5, 6]);
    assert_eq!(ConfigureValues::zero().pack(0x7f), vec![0; 7]);
}

#[test]
fn events_are_dispatched_by_their_code() {
    assert_eq!(classify(16), EventClass::CreateNotify);
    assert_eq!(classify(17), EventClass::DestroyNotify);
    assert_eq!(classify(18), EventClass::UnmapNotify);
    assert_eq!(classify(19), EventClass::MapNotify);
    assert_eq!(classify(20), EventClass::MapRequest);
    assert_eq!(classify(21), EventClass::ReparentNotify);
    assert_eq!(classify(22), EventClass::ConfigureNotify);
    assert_eq!(classify(23), EventClass::ConfigureRequest);
    assert_eq!(classify(28), EventClass::PropertyNotify);
    assert_eq!(classify(33), EventClass::ClientMessage);
    assert_eq!(classify(34), EventClass::Ignored);
    for code in [0u8, 1, 2, 15, 24, 27, 29, 32, 35, 127] {
        assert_eq!(classify(code), EventClass::Unexpected);
    }
}

#[test]
fn the_sent_marker_takes_no_part_in_the_dispatch() {
    assert_eq!(classify(33 | 0x80), EventClass::ClientMessage);
    assert_eq!(classify(19 | 0x80), EventClass::MapNotify);
    assert_eq!(classify(0x80), EventClass::Unexpected);
    for code in 0..128u8 {
        assert_eq!(classify(code), classify(code | 0x80));
    }
}

#[test]
fn what_a_rejected_request_means() {
    let log = [
        Request::MapWindow { window: 1 },
        Request::UnmapWindow { window: 1 },
        Request::ConfigureWindow { window: 1, value_mask: 1, values: values() },
        Request::SendClientMessage { message: message() },
        Request::DestroyWindow { window: 1 },
        Request::RemoveMaster { device: 1 },
    ];
    let abort = [
        Request::SelectEvents { window: 1, event_mask: 1 },
        Request::SetBackPixel { window: 1, pixel: 1 },
        Request::ClearWindow { window: 1 },
        Request::SetWmState { window: 1, state: 1 },
        Request::SetFrameExtents { window: 1, left: 0, right: 0, top: 0, bottom: 0 },
        Request::SetFocus { window: 1, device: 1 },
        Request::AttachSlave { slave: 1, master: 2 },
        Request::SetKeymap { device: 1, keymap: Keymap::Standard },
        Request::SetLevelNames { device: 1 },
        Request::LockGroup { device: 1, group: 0 },
    ];
    let unchecked = [
        Request::PostClientMessage { message: message() },
        Request::DiscardWindow { window: 1 },
    ];
    for request in log {
        assert_eq!(request.on_failure(), FailurePolicy::Log);
        assert!(request.is_checked());
    }
    for request in abort {
        assert_eq!(request.on_failure(), FailurePolicy::Abort);
        assert!(request.is_checked());
    }
    for request in unchecked {
        assert_eq!(request.on_failure(), FailurePolicy::Unchecked);
        assert!(!request.is_checked());
    }
}

#[test]
fn a_verdict_is_judged_by_the_policy_of_the_request() {
    let error = ProtocolError { code: 3, sequence: 70000 };
    assert_eq!(Request::MapWindow { window: 1 }.judge(Ok(())), Outcome::Done);
    assert_eq!(Request::SetFocus { window: 1, device: 2 }.judge(Ok(())), Outcome::Done);
    assert_eq!(Request::MapWindow { window: 1 }.judge(Err(error)), Outcome::Logged(error));
    assert_eq!(Request::DestroyWindow { window: 1 }.judge(Err(error)), Outcome::Logged(error));
    assert_eq!(Request::RemoveMaster { device: 1 }.judge(Err(error)), Outcome::Logged(error));
    assert_eq!(
        Request::SetFocus { window: 1, device: 2 }.judge(Err(error)),
        Outcome::Aborted(error)
    );
    assert_eq!(
        Request::AttachSlave { slave: 1, master: 2 }.judge(Err(error)),
        Outcome::Aborted(error)
    );
    assert_eq!(Request::DiscardWindow { window: 1 }.judge(Err(error)), Outcome::Logged(error));
}

#[test]
fn connection_errors_by_code() {
    assert_eq!(connection_state(0), Ok(()));
    assert_eq!(connection_state(ffi::XCB_CONN_ERROR), Err(ConnectionError::Io));
    assert_eq!(
        connection_state(ffi::XCB_CONN_CLOSED_EXT_NOTSUPPORTED),
        Err(ConnectionError::UnsupportedExtension)
    );
    assert_eq!(
        connection_state(ffi::XCB_CONN_CLOSED_MEM_INSUFFICIENT),
        Err(ConnectionError::OutOfMemory)
    );
    assert_eq!(
        connection_state(ffi::XCB_CONN_CLOSED_REQ_LEN_EXCEED),
        Err(ConnectionError::MessageLength)
    );
    assert_eq!(
        connection_state(ffi::XCB_CONN_CLOSED_PARSE_ERR),
        Err(ConnectionError::DisplayString)
    );
    assert_eq!(
        connection_state(ffi::XCB_CONN_CLOSED_INVALID_SCREEN),
        Err(ConnectionError::InvalidScreen)
    );
    assert_eq!(
        connection_state(ffi::XCB_CONN_CLOSED_FDPASSING_FAILED),
        Err(ConnectionError::FileDescriptors)
    );
    assert_eq!(connection_state(8), Err(ConnectionError::Unknown(8)));
    assert_eq!(connection_state(-1), Err(ConnectionError::Unknown(-1)));
}

#[test]
fn connection_errors_are_named_as_the_bindings_name_them() {
    for code in 1..12 {
        let ours = connection_state(code).unwrap_err();
        let theirs = XcbConnectionError::from(code);
        assert_eq!(format!("{:?}", ours), format!("{:?}", theirs));
    }
}
