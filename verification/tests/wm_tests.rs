use winit_it::atoms::Atoms;
use winit_it::props::{PropertyKind, PropertyValue};
use winit_it::wait::{PropertyGoal, PropertyWait};
use winit_it::window::{DirectFormat, WindowProperties, WindowRecord, WindowState};
use winit_it::wire::{ClientMessage, ConfigureValues, Request, WM_EVENT_MASK};
use winit_it::wm::{select_events, ConfigureRequest, WmAction, WmData, WmEvent};

fn wm_atoms() -> Atoms {
    Atoms {
        net_wm_state: 100,
        wm_change_state: 101,
        wm_state: 102,
        net_wm_name: 103,
        net_wm_icon: 104,
        wm_delete_window: 105,
        net_wm_ping: 106,
        utf8_string: 107,
        net_wm_state_above: 108,
        net_frame_extents: 109,
        net_wm_state_maximized_horz: 110,
        net_wm_state_maximized_vert: 111,
        motif_wm_hints: 112,
        wm_name: 113,
        wm_normal_hints: 114,
        wm_hints: 115,
        wm_class: 116,
        wm_protocols: 117,
        net_active_window: 118,
        net_supported: 119,
        net_client_list: 120,
        net_client_list_stacking: 121,
        net_supporting_wm_check: 122,
    }
}

fn new_wm() -> WmData<u32> {
    WmData::new(wm_atoms())
}

fn wm_with_window(window: u32) -> WmData<u32> {
    let mut wm = new_wm();
    wm.register(WindowRecord::new(window, DirectFormat::unknown()));
    wm.handle_event(WmEvent::CreateNotify { window });
    wm
}

fn set_state(window: u32, state: u32) -> WmAction {
    WmAction::Send(Request::SetWmState { window, state })
}

fn pong(window: u32) -> WmEvent {
    WmEvent::ClientMessage(ClientMessage {
        window: 1,
        message_type: 117,
        data: [106, 0, window, 0, 0],
    })
}

#[test]
fn the_wm_selects_redirect_notify_and_property_events() {
    assert_eq!(WM_EVENT_MASK, 0x100000 | 0x80000 | 0x400000);
    assert_eq!(select_events(5), Request::SelectEvents { window: 5, event_mask: WM_EVENT_MASK });
}

#[test]
fn create_inserts_a_withdrawn_record_and_wakes() {
    let mut wm = new_wm();
    assert!(wm.window(5).is_none());
    let reaction = wm.handle_event(WmEvent::CreateNotify { window: 5 });
    assert!(reaction.changed);
    assert!(reaction.actions.is_empty());
    let record = wm.window(5).unwrap();
    assert_eq!(record.id, 5);
    assert!(record.created);
    assert!(!record.mapped());
    assert_eq!(record.current_state, WindowState::Withdrawn);
    assert_eq!(record.property_generation, 0);
}

#[test]
fn create_keeps_a_registered_record() {
    let mut wm = new_wm();
    let mut record = WindowRecord::new(5, DirectFormat { alpha_mask: 0xff, ..DirectFormat::unknown() });
    record.width = 17;
    wm.register(record);
    assert!(!wm.window(5).unwrap().created);
    wm.handle_event(WmEvent::CreateNotify { window: 5 });
    let record = wm.window(5).unwrap();
    assert!(record.created);
    assert_eq!(record.width, 17);
    assert!(record.supports_transparency());
}

#[test]
fn map_request_is_always_honoured() {
    let mut wm = new_wm();
    let reaction = wm.handle_event(WmEvent::MapRequest { window: 9 });
    assert_eq!(reaction.actions, vec![WmAction::Send(Request::MapWindow { window: 9 })]);
    assert!(!reaction.changed);
    assert!(wm.window(9).is_none());

    let mut wm = wm_with_window(5);
    let reaction = wm.handle_event(WmEvent::MapRequest { window: 5 });
    assert_eq!(
        reaction.actions,
        vec![
            WmAction::Send(Request::MapWindow { window: 5 }),
            WmAction::Send(Request::SetFrameExtents {
                window: 5,
                left: 3,
                right: 3,
                top: 23,
                bottom: 3
            }),
        ]
    );
    assert!(!reaction.changed);
    assert_eq!(wm.window(5).unwrap().desired_state, WindowState::Normal);
    assert_eq!(wm.window(5).unwrap().property_generation, 0);
}

#[test]
fn configure_request_is_passed_through_verbatim() {
    let mut wm = new_wm();
    let request = ConfigureRequest {
        window: 5,
        value_mask: 0b100_1101,
        x: -3,
        y: 4,
        width: 640,
        height: 480,
        border_width: 2,
        sibling: 77,
        stack_mode: 1,
    };
    let reaction = wm.handle_event(WmEvent::ConfigureRequest(request));
    assert!(!reaction.changed);
    assert_eq!(
        reaction.actions,
        vec![WmAction::Send(Request::ConfigureWindow {
            window: 5,
            value_mask: 0b100_1101,
            values: ConfigureValues {
                x: -3,
                y: 4,
                width: 640,
                height: 480,
                border_width: 2,
                sibling: 77,
                stack_mode: 1,
            },
        })]
    );
    assert_eq!(request.honored(), match reaction.actions[0] {
        WmAction::Send(request) => request,
        _ => unreachable!(),
    });
}

#[test]
fn map_unmap_map_alternates_the_wm_state() {
    let mut wm = wm_with_window(5);
    let mut seen = wm.property_generation(5).unwrap();
    let mut written = vec![];
    for (i, map) in [true, false, true, false, true].into_iter().enumerate() {
        let event = if map {
            WmEvent::MapNotify { window: 5 }
        } else {
            WmEvent::UnmapNotify { window: 5 }
        };
        let reaction = wm.handle_event(event);
        assert!(reaction.changed);
        assert_eq!(reaction.actions.len(), 1);
        written.extend(reaction.actions);
        // The transition can be seen before the next operation is issued.
        assert!(wm.poll_properties_changed(5, seen, i as u32));
        assert_eq!(wm.poll_property(5, &PropertyGoal::Mapped(map), 0), PropertyWait::Met);
        assert_eq!(wm.window(5).unwrap().mapped(), map);
        seen = wm.property_generation(5).unwrap();
        assert_eq!(seen, i as u32 + 1);
    }
    assert_eq!(
        written,
        vec![set_state(5, 1), set_state(5, 0), set_state(5, 1), set_state(5, 0), set_state(5, 1)]
    );
    assert!(wm.changed().is_empty());
}

#[test]
fn an_iconified_window_unmaps_to_iconic() {
    let mut wm = wm_with_window(5);
    wm.handle_event(WmEvent::MapRequest { window: 5 });
    wm.handle_event(WmEvent::MapNotify { window: 5 });
    let reaction = wm.handle_event(WmEvent::ClientMessage(ClientMessage {
        window: 5,
        message_type: 101,
        data: [3, 0, 0, 0, 0],
    }));
    assert_eq!(reaction.actions, vec![WmAction::Send(Request::UnmapWindow { window: 5 })]);
    assert!(!reaction.changed);
    assert_eq!(wm.window(5).unwrap().desired_state, WindowState::Iconic);
    assert_eq!(wm.window(5).unwrap().minimized(), Some(false));
    let reaction = wm.handle_event(WmEvent::UnmapNotify { window: 5 });
    assert_eq!(reaction.actions, vec![set_state(5, 3)]);
    assert_eq!(wm.window(5).unwrap().minimized(), Some(true));
    assert_eq!(wm.window(5).unwrap().current_state, WindowState::Iconic);
    // Back to normal.
    wm.handle_event(WmEvent::MapRequest { window: 5 });
    let reaction = wm.handle_event(WmEvent::MapNotify { window: 5 });
    assert_eq!(reaction.actions, vec![set_state(5, 1)]);
    assert_eq!(wm.window(5).unwrap().minimized(), Some(false));
    let reaction = wm.handle_event(WmEvent::UnmapNotify { window: 5 });
    assert_eq!(reaction.actions, vec![set_state(5, 0)]);
}

#[test]
fn a_change_state_message_that_does_not_iconify_is_ignored() {
    let mut wm = wm_with_window(5);
    for data0 in [0, 1, 2, 4] {
        let reaction = wm.handle_event(WmEvent::ClientMessage(ClientMessage {
            window: 5,
            message_type: 101,
            data: [data0, 0, 0, 0, 0],
        }));
        assert!(reaction.actions.is_empty());
        assert!(!reaction.changed);
    }
    // An unknown window.
    let reaction = wm.handle_event(WmEvent::ClientMessage(ClientMessage {
        window: 6,
        message_type: 101,
        data: [3, 0, 0, 0, 0],
    }));
    assert!(reaction.actions.is_empty());
    assert_eq!(wm.window(5).unwrap().desired_state, WindowState::Withdrawn);
}

#[test]
fn notifications_for_unknown_windows_change_nothing() {
    let mut wm = wm_with_window(5);
    for event in [
        WmEvent::MapNotify { window: 6 },
        WmEvent::UnmapNotify { window: 6 },
        WmEvent::DestroyNotify { window: 6 },
        WmEvent::ConfigureNotify { window: 6, x: 1, y: 1, width: 1, height: 1, border_width: 1 },
        WmEvent::ReparentNotify { window: 6, parent: 7 },
        WmEvent::PropertyNotify { window: 6, atom: 113 },
        WmEvent::PropertyRead {
            window: 6,
            kind: PropertyKind::WmName,
            value: PropertyValue::Text("x".to_string()),
        },
    ] {
        let reaction = wm.handle_event(event);
        assert!(reaction.actions.is_empty());
        assert!(!reaction.changed);
    }
    assert!(wm.window(6).is_none());
    assert!(wm.parent(7).is_none());
    assert_eq!(wm.window(5).unwrap().property_generation, 0);
}

#[test]
fn configure_notify_records_the_geometry() {
    let mut wm = wm_with_window(5);
    let reaction = wm.handle_event(WmEvent::ConfigureNotify {
        window: 5,
        x: -10,
        y: 20,
        width: 300,
        height: 200,
        border_width: 1,
    });
    assert!(reaction.changed);
    assert!(reaction.actions.is_empty());
    let record = wm.window(5).unwrap();
    assert_eq!((record.x(), record.y(), record.width(), record.height()), (-10, 20, 300, 200));
    assert_eq!(record.border, 1);
    assert_eq!(record.property_generation, 1);
    assert_eq!(
        wm.poll_property(5, &PropertyGoal::InnerSize { width: 300, height: 200 }, 1),
        PropertyWait::Met
    );
    assert_eq!(
        wm.poll_property(5, &PropertyGoal::OuterPosition { x: -10, y: 20 }, 1),
        PropertyWait::Met
    );
}

#[test]
fn destroy_removes_the_record_and_the_container() {
    let mut wm = wm_with_window(5);
    let reaction = wm.handle_event(WmEvent::ReparentNotify { window: 5, parent: 50 });
    assert!(reaction.changed);
    assert_eq!(wm.window(5).unwrap().parent_id, Some(50));
    assert_eq!(wm.parent(50).unwrap().id, 5);
    let seen = wm.property_generation(5).unwrap();
    let reaction = wm.handle_event(WmEvent::DestroyNotify { window: 5 });
    assert!(reaction.changed);
    assert_eq!(reaction.actions, vec![WmAction::Send(Request::DestroyWindow { window: 50 })]);
    assert!(wm.window(5).is_none());
    assert!(wm.parent(50).is_none());
    assert_eq!(wm.property_generation(5), None);
    // Whoever waited for the window sees that something happened.
    assert!(wm.poll_properties_changed(5, seen, 1));
    assert_eq!(wm.poll_property(5, &PropertyGoal::Mapped(true), 1), PropertyWait::Gone);
    assert_eq!(wm.changed(), vec![1]);
}

#[test]
fn destroy_of_an_unframed_window_destroys_nothing_else() {
    let mut wm = wm_with_window(5);
    let reaction = wm.handle_event(WmEvent::DestroyNotify { window: 5 });
    assert!(reaction.changed);
    assert!(reaction.actions.is_empty());
    assert!(wm.window(5).is_none());
}

#[test]
fn forgetting_a_window_discards_its_container() {
    let mut wm = wm_with_window(5);
    wm.handle_event(WmEvent::ReparentNotify { window: 5, parent: 50 });
    assert_eq!(wm.forget(5), Some(Request::DiscardWindow { window: 50 }));
    assert!(wm.window(5).is_none());
    assert_eq!(wm.forget(5), None);
    let mut wm = wm_with_window(6);
    assert_eq!(wm.forget(6), None);
    assert!(wm.window(6).is_none());
}

#[test]
fn a_followed_property_is_read_again() {
    let mut wm = wm_with_window(5);
    for (atom, kind) in [
        (113, PropertyKind::WmName),
        (103, PropertyKind::NetWmName),
        (114, PropertyKind::NormalHints),
        (115, PropertyKind::Hints),
        (112, PropertyKind::MotifHints),
        (116, PropertyKind::Class),
        (117, PropertyKind::Protocols),
        (100, PropertyKind::NetWmState),
        (104, PropertyKind::NetWmIcon),
    ] {
        let reaction = wm.handle_event(WmEvent::PropertyNotify { window: 5, atom });
        assert_eq!(reaction.actions, vec![WmAction::ReadProperty { window: 5, kind }]);
        assert!(!reaction.changed);
        assert_eq!(kind.atom(&wm_atoms()), atom);
    }
    assert_eq!(wm.window(5).unwrap().property_generation, 0);
    for atom in [0, 102, 105, 106, 109, 999] {
        let reaction = wm.handle_event(WmEvent::PropertyNotify { window: 5, atom });
        assert!(reaction.actions.is_empty());
    }
}

#[test]
fn a_property_read_counts_exactly_one_change() {
    let mut wm = wm_with_window(5);
    let mut hints = vec![0u32; 18];
    hints[0] = 16 | 32;
    hints[5] = 10;
    hints[6] = 20;
    hints[7] = 30;
    hints[8] = 40;
    let reaction = wm.handle_event(WmEvent::PropertyRead {
        window: 5,
        kind: PropertyKind::NormalHints,
        value: PropertyValue::Words(hints),
    });
    assert!(reaction.changed);
    assert!(reaction.actions.is_empty());
    let record = wm.window(5).unwrap();
    assert_eq!(record.min_size(), Some((10, 20)));
    assert_eq!(record.max_size(), Some((30, 40)));
    assert_eq!(record.property_generation, 1);
}

#[test]
fn titles_are_read_from_both_name_properties() {
    let mut wm = wm_with_window(5);
    wm.handle_event(WmEvent::PropertyRead {
        window: 5,
        kind: PropertyKind::WmName,
        value: PropertyValue::Text("hello".to_string()),
    });
    assert_eq!(wm.window(5).unwrap().title(), None);
    assert_eq!(
        wm.poll_property(5, &PropertyGoal::Title("hello".to_string()), 9),
        PropertyWait::Pending
    );
    let reaction = wm.handle_event(WmEvent::PropertyRead {
        window: 5,
        kind: PropertyKind::NetWmName,
        value: PropertyValue::Text("hello".to_string()),
    });
    assert!(reaction.changed);
    assert_eq!(wm.changed(), vec![9]);
    assert_eq!(wm.window(5).unwrap().title(), Some("hello".to_string()));
    assert_eq!(
        wm.poll_property(5, &PropertyGoal::Title("hello".to_string()), 9),
        PropertyWait::Met
    );
    assert_eq!(wm.window(5).unwrap().property_generation, 2);
    wm.handle_event(WmEvent::PropertyRead {
        window: 5,
        kind: PropertyKind::NetWmName,
        value: PropertyValue::Absent,
    });
    assert_eq!(wm.window(5).unwrap().title(), None);
}

#[test]
fn a_change_of_decorations_reports_new_frame_extents() {
    let mut wm = wm_with_window(5);
    let reaction = wm.handle_event(WmEvent::PropertyRead {
        window: 5,
        kind: PropertyKind::MotifHints,
        value: PropertyValue::Words(vec![2, 0, 0, 0, 0]),
    });
    assert!(reaction.changed);
    assert_eq!(
        reaction.actions,
        vec![WmAction::Send(Request::SetFrameExtents {
            window: 5,
            left: 0,
            right: 0,
            top: 0,
            bottom: 0
        })]
    );
    assert!(!wm.window(5).unwrap().decorations());
    assert_eq!(wm.poll_property(5, &PropertyGoal::Decorations(false), 1), PropertyWait::Met);
    let reaction = wm.handle_event(WmEvent::PropertyRead {
        window: 5,
        kind: PropertyKind::MotifHints,
        value: PropertyValue::Words(vec![2, 0, 1, 0, 0]),
    });
    assert_eq!(
        reaction.actions,
        vec![WmAction::Send(Request::SetFrameExtents {
            window: 5,
            left: 3,
            right: 3,
            top: 23,
            bottom: 3
        })]
    );
    assert!(wm.window(5).unwrap().decorations());
}

#[test]
fn delete_depends_on_the_protocols_the_window_advertised() {
    // A window that did not advertise the delete protocol is destroyed.
    let mut wm = wm_with_window(5);
    wm.handle_event(WmEvent::MapRequest { window: 5 });
    wm.handle_event(WmEvent::MapNotify { window: 5 });
    assert_eq!(wm.poll_property(5, &PropertyGoal::Mapped(true), 1), PropertyWait::Met);
    assert_eq!(
        wm.window(5).unwrap().delete(&wm_atoms()),
        Request::DestroyWindow { window: 5 }
    );
    // One that did is asked, and stays in the table until it goes by itself.
    wm.handle_event(WmEvent::PropertyRead {
        window: 5,
        kind: PropertyKind::Protocols,
        value: PropertyValue::Words(vec![105, 106]),
    });
    assert_eq!(
        wm.window(5).unwrap().delete(&wm_atoms()),
        Request::SendClientMessage {
            message: ClientMessage { window: 5, message_type: 117, data: [105, 0, 0, 0, 0] }
        }
    );
    assert!(wm.window(5).unwrap().mapped());
    wm.handle_event(WmEvent::DestroyNotify { window: 5 });
    assert!(wm.window(5).is_none());
}

#[test]
fn a_ping_without_answer_never_resolves() {
    let mut wm = wm_with_window(5);
    assert_eq!(
        wm.ping(5),
        Request::PostClientMessage {
            message: ClientMessage { window: 5, message_type: 117, data: [106, 0, 5, 0, 0] }
        }
    );
    for round in 0..100 {
        assert!(!wm.poll_ping(5, round));
        // Anything may happen in between, but for the answer.
        wm.handle_event(WmEvent::MapNotify { window: 5 });
        wm.handle_event(pong(6));
        wm.handle_event(WmEvent::ClientMessage(ClientMessage {
            window: 5,
            message_type: 117,
            data: [105, 0, 5, 0, 0],
        }));
        wm.handle_event(WmEvent::ClientMessage(ClientMessage {
            window: 5,
            message_type: 116,
            data: [106, 0, 5, 0, 0],
        }));
        let woken = wm.changed();
        assert_eq!(woken, vec![round]);
    }
    assert!(!wm.poll_ping(5, 0));
}

#[test]
fn a_ping_resolves_once_when_the_answer_arrives() {
    let mut wm = wm_with_window(5);
    wm.ping(5);
    assert!(!wm.poll_ping(5, 1));
    let reaction = wm.handle_event(pong(5));
    assert!(reaction.changed);
    assert!(reaction.actions.is_empty());
    assert_eq!(wm.changed(), vec![1]);
    assert!(wm.poll_ping(5, 1));
    // The answer was consumed.
    assert!(!wm.poll_ping(5, 2));
    assert_eq!(wm.changed(), vec![2]);
}

#[test]
fn a_new_ping_throws_a_stale_answer_away() {
    let mut wm = wm_with_window(5);
    wm.handle_event(pong(5));
    wm.ping(5);
    assert!(!wm.poll_ping(5, 1));
}

#[test]
fn waiters_are_woken_in_order_and_once() {
    let mut wm = wm_with_window(5);
    assert!(!wm.poll_properties_changed(5, 0, 10));
    assert!(!wm.poll_ping(5, 11));
    assert_eq!(wm.poll_property(5, &PropertyGoal::Mapped(true), 12), PropertyWait::Pending);
    wm.wait(13);
    assert_eq!(wm.changed(), vec![10, 11, 12, 13]);
    assert!(wm.changed().is_empty());
}

#[test]
fn a_poll_that_is_ready_registers_nobody() {
    let mut wm = wm_with_window(5);
    assert!(wm.poll_properties_changed(5, 7, 10));
    assert!(wm.poll_properties_changed(99, 0, 10));
    assert_eq!(wm.poll_property(5, &PropertyGoal::Mapped(false), 10), PropertyWait::Met);
    assert!(wm.changed().is_empty());
    // A window that is not in the table may yet be announced.
    assert_eq!(wm.poll_property(99, &PropertyGoal::Mapped(false), 10), PropertyWait::Gone);
    assert_eq!(wm.changed(), vec![10]);
}

#[test]
fn a_batch_wakes_once_for_all_its_events() {
    let mut wm = wm_with_window(5);
    assert!(!wm.poll_properties_changed(5, 0, 1));
    assert!(!wm.poll_ping(5, 2));
    let batch = wm.handle_events(vec![
        WmEvent::MapRequest { window: 5 },
        WmEvent::MapNotify { window: 5 },
        WmEvent::PropertyNotify { window: 5, atom: 113 },
        WmEvent::ConfigureNotify { window: 5, x: 0, y: 0, width: 8, height: 9, border_width: 0 },
    ]);
    assert_eq!(
        batch.actions,
        vec![
            WmAction::Send(Request::MapWindow { window: 5 }),
            WmAction::Send(Request::SetFrameExtents {
                window: 5,
                left: 3,
                right: 3,
                top: 23,
                bottom: 3
            }),
            set_state(5, 1),
            WmAction::ReadProperty { window: 5, kind: PropertyKind::WmName },
        ]
    );
    assert_eq!(batch.wake, vec![1, 2]);
    assert_eq!(wm.window(5).unwrap().property_generation, 2);
    assert!(wm.changed().is_empty());
}

#[test]
fn a_batch_that_changes_nothing_wakes_nobody() {
    let mut wm = wm_with_window(5);
    assert!(!wm.poll_ping(5, 2));
    let batch = wm.handle_events(vec![
        WmEvent::MapRequest { window: 5 },
        WmEvent::PropertyNotify { window: 5, atom: 113 },
        WmEvent::MapNotify { window: 6 },
    ]);
    assert_eq!(batch.actions.len(), 3);
    assert!(batch.wake.is_empty());
    let batch = wm.handle_events(vec![]);
    assert!(batch.actions.is_empty());
    assert!(batch.wake.is_empty());
    assert_eq!(wm.changed(), vec![2]);
}

#[test]
fn goals_are_checked_against_the_record() {
    let mut wm = wm_with_window(5);
    wm.handle_event(WmEvent::PropertyRead {
        window: 5,
        kind: PropertyKind::Class,
        value: PropertyValue::Text("inst\0Class\0".to_string()),
    });
    wm.handle_event(WmEvent::PropertyRead {
        window: 5,
        kind: PropertyKind::NetWmState,
        value: PropertyValue::Words(vec![110, 108]),
    });
    wm.handle_event(WmEvent::PropertyRead {
        window: 5,
        kind: PropertyKind::Hints,
        value: PropertyValue::Words(vec![256 | 2, 0, 3, 0, 0, 0, 0, 0, 0]),
    });
    let met = |wm: &mut WmData<u32>, goal: PropertyGoal| wm.poll_property(5, &goal, 0) == PropertyWait::Met;
    assert!(met(&mut wm, PropertyGoal::Class("Class".to_string())));
    assert!(!met(&mut wm, PropertyGoal::Class("inst".to_string())));
    assert!(met(&mut wm, PropertyGoal::Instance("inst".to_string())));
    assert!(met(&mut wm, PropertyGoal::AlwaysOnTop(true)));
    assert!(!met(&mut wm, PropertyGoal::Maximized(true)));
    assert!(!met(&mut wm, PropertyGoal::Maximized(false)));
    assert!(met(&mut wm, PropertyGoal::Attention(true)));
    assert!(met(&mut wm, PropertyGoal::Minimized(false)));
    assert!(met(&mut wm, PropertyGoal::Resizable(true)));
    assert!(met(&mut wm, PropertyGoal::MinSize(None)));
    assert!(!met(&mut wm, PropertyGoal::MaxSize(Some((1, 1)))));
    assert!(met(&mut wm, PropertyGoal::Icon(None)));
    assert_eq!(wm.window(5).unwrap().initial_state, WindowState::Iconic);
    wm.handle_event(WmEvent::PropertyRead {
        window: 5,
        kind: PropertyKind::NetWmState,
        value: PropertyValue::Words(vec![110, 111]),
    });
    assert!(met(&mut wm, PropertyGoal::Maximized(true)));
    assert!(met(&mut wm, PropertyGoal::AlwaysOnTop(false)));
}
