use winit_it::atoms::Atoms;
use winit_it::window::{
    pixel, ping_request, BackendIcon, DirectFormat, Protocols, WindowProperties, WindowRecord,
    WindowState, BORDER_WIDTH, PROTOCOL_DELETE_WINDOW, PROTOCOL_PING, TITLE_HEIGHT,
};
use winit_it::wire::{ClientMessage, ConfigureValues, Request};

fn format(alpha_mask: u16) -> DirectFormat {
    DirectFormat {
        red_shift: 16,
        red_mask: 0xff,
        green_shift: 8,
        green_mask: 0xff,
        blue_shift: 0,
        blue_mask: 0xff,
        alpha_shift: 24,
        alpha_mask,
    }
}

fn atoms() -> Atoms {
    Atoms { wm_protocols: 300, wm_delete_window: 301, net_wm_ping: 302, ..Atoms::default() }
}

fn zero_values() -> ConfigureValues {
    ConfigureValues { x: 0, y: 0, width: 0, height: 0, border_width: 0, sibling: 0, stack_mode: 0 }
}

#[test]
fn a_new_record_is_withdrawn_and_decorated() {
    let w = WindowRecord::new(42, format(0));
    assert_eq!(w.id, 42);
    assert_eq!(w.parent_id, None);
    assert_eq!(w.property_generation, 0);
    assert!(!w.created);
    assert!(!w.mapped());
    assert!(!w.always_on_top());
    assert!(w.decorations());
    assert_eq!((w.x(), w.y(), w.width(), w.height()), (0, 0, 0, 0));
    assert_eq!(w.border, 0);
    assert_eq!(w.min_size(), None);
    assert_eq!(w.max_size(), None);
    assert_eq!(w.title(), Some(String::new()));
    assert!(!w.attention());
    assert_eq!(w.class(), None);
    assert_eq!(w.instance(), None);
    assert_eq!(w.protocols, Protocols { bits: 0 });
    assert_eq!(w.initial_state, WindowState::Withdrawn);
    assert_eq!(w.desired_state, WindowState::Withdrawn);
    assert_eq!(w.current_state, WindowState::Withdrawn);
    assert_eq!(w.maximized(), Some(false));
    assert_eq!(w.minimized(), Some(false));
    assert_eq!(w.icon(), None);
}

#[test]
fn wm_state_numbers() {
    assert_eq!(WindowState::Withdrawn.wm_state(), 0);
    assert_eq!(WindowState::Normal.wm_state(), 1);
    assert_eq!(WindowState::Iconic.wm_state(), 3);
    assert_eq!(WindowState::from_wm_state(0), Some(WindowState::Withdrawn));
    assert_eq!(WindowState::from_wm_state(1), Some(WindowState::Normal));
    assert_eq!(WindowState::from_wm_state(3), Some(WindowState::Iconic));
    assert_eq!(WindowState::from_wm_state(2), None);
    assert_eq!(WindowState::from_wm_state(4), None);
}

#[test]
fn maximized_is_ambiguous_when_the_flags_disagree() {
    let mut w = WindowRecord::new(1, format(0));
    for (horz, vert, expected) in [
        (false, false, Some(false)),
        (true, true, Some(true)),
        (true, false, None),
        (false, true, None),
    ] {
        w.maximized_horz = horz;
        w.maximized_vert = vert;
        assert_eq!(w.maximized(), expected);
    }
}

#[test]
fn resizable_is_false_only_when_pinned_to_the_current_size() {
    let mut w = WindowRecord::new(1, format(0));
    w.width = 100;
    w.height = 50;
    assert_eq!(w.resizable(), Some(true));
    w.min_size = Some((100, 50));
    w.max_size = Some((100, 50));
    assert_eq!(w.resizable(), Some(false));
    // Bounds that coincide but are not the current size.
    w.width = 101;
    assert_eq!(w.resizable(), Some(true));
    w.width = 100;
    w.height = 49;
    assert_eq!(w.resizable(), Some(true));
    w.height = 50;
    // Bounds that differ.
    w.min_size = Some((99, 50));
    assert_eq!(w.resizable(), Some(true));
    w.min_size = None;
    assert_eq!(w.resizable(), Some(true));
    w.min_size = Some((100, 50));
    w.max_size = None;
    assert_eq!(w.resizable(), Some(true));
    w.max_size = Some((100, 51));
    assert_eq!(w.resizable(), Some(true));
    w.min_size = None;
    w.max_size = None;
    assert_eq!(w.resizable(), Some(true));
}

#[test]
fn minimized_follows_the_current_state() {
    let mut w = WindowRecord::new(1, format(0));
    w.current_state = WindowState::Normal;
    assert_eq!(w.minimized(), Some(false));
    w.current_state = WindowState::Iconic;
    assert_eq!(w.minimized(), Some(true));
    w.current_state = WindowState::Withdrawn;
    assert_eq!(w.minimized(), Some(false));
}

#[test]
fn the_title_is_known_only_when_both_names_agree() {
    let mut w = WindowRecord::new(1, format(0));
    w.wm_name = Some("a".to_string());
    w.utf8_title = Some("a".to_string());
    assert_eq!(w.title(), Some("a".to_string()));
    w.utf8_title = Some("b".to_string());
    assert_eq!(w.title(), None);
    w.utf8_title = None;
    assert_eq!(w.title(), None);
    w.wm_name = None;
    assert_eq!(w.title(), None);
    w.utf8_title = Some("a".to_string());
    assert_eq!(w.title(), None);
}

#[test]
fn transparency_needs_an_alpha_channel() {
    assert!(!WindowRecord::new(1, format(0)).supports_transparency());
    assert!(WindowRecord::new(1, format(0xff)).supports_transparency());
    assert!(WindowRecord::new(1, format(1)).supports_transparency());
}

#[test]
fn frame_extents_allow_for_border_and_title() {
    let mut w = WindowRecord::new(7, format(0));
    assert_eq!(BORDER_WIDTH, 3);
    assert_eq!(TITLE_HEIGHT, 20);
    assert_eq!(w.frame_extents(), (3, 3, 23, 3));
    assert_eq!(w.inner_offset(), (3, 23));
    assert_eq!(
        w.frame_extents_request(),
        Request::SetFrameExtents { window: 7, left: 3, right: 3, top: 23, bottom: 3 }
    );
    w.decorations = false;
    assert_eq!(w.frame_extents(), (0, 0, 0, 0));
    assert_eq!(w.inner_offset(), (0, 0));
    assert_eq!(
        w.frame_extents_request(),
        Request::SetFrameExtents { window: 7, left: 0, right: 0, top: 0, bottom: 0 }
    );
}

#[test]
fn upgrade_counts_one_change_and_wraps() {
    let mut w = WindowRecord::new(7, format(0));
    w.upgrade();
    assert_eq!(w.property_generation, 1);
    w.upgrade();
    assert_eq!(w.property_generation, 2);
    w.property_generation = u32::MAX;
    w.upgrade();
    assert_eq!(w.property_generation, 0);
}

#[test]
fn pixel_packs_red_green_blue() {
    assert_eq!(pixel(0, 0, 0), 0);
    assert_eq!(pixel(0x12, 0x34, 0x56), 0x0012_3456);
    assert_eq!(pixel(255, 0, 0), 0x00ff_0000);
    assert_eq!(pixel(0, 255, 0), 0x0000_ff00);
    assert_eq!(pixel(0, 0, 255), 0x0000_00ff);
    assert_eq!(pixel(255, 255, 255), 0x00ff_ffff);
}

#[test]
fn background_color_sets_the_pixel_then_clears() {
    let w = WindowRecord::new(7, format(0));
    assert_eq!(
        w.set_background_color(1, 2, 3),
        (
            Request::SetBackPixel { window: 7, pixel: 0x0001_0203 },
            Request::ClearWindow { window: 7 }
        )
    );
}

#[test]
fn set_inner_size_configures_width_and_height_of_the_window() {
    let mut w = WindowRecord::new(7, format(0));
    w.parent_id = Some(99);
    assert_eq!(
        w.set_inner_size(640, 480),
        Request::ConfigureWindow {
            window: 7,
            value_mask: 4 | 8,
            values: ConfigureValues { width: 640, height: 480, ..zero_values() },
        }
    );
}

#[test]
fn set_outer_position_configures_the_container() {
    let mut w = WindowRecord::new(7, format(0));
    assert_eq!(
        w.set_outer_position(-5, 10),
        Request::ConfigureWindow {
            window: 7,
            value_mask: 1 | 2,
            values: ConfigureValues { x: -5, y: 10, ..zero_values() },
        }
    );
    w.parent_id = Some(99);
    assert_eq!(
        w.set_outer_position(100, 100),
        Request::ConfigureWindow {
            window: 99,
            value_mask: 1 | 2,
            values: ConfigureValues { x: 100, y: 100, ..zero_values() },
        }
    );
}

#[test]
fn delete_asks_a_window_that_takes_part_in_the_protocol() {
    let mut w = WindowRecord::new(7, format(0));
    w.protocols = Protocols { bits: PROTOCOL_DELETE_WINDOW };
    assert_eq!(
        w.delete(&atoms()),
        Request::SendClientMessage {
            message: ClientMessage { window: 7, message_type: 300, data: [301, 0, 0, 0, 0] }
        }
    );
    w.protocols = Protocols { bits: PROTOCOL_DELETE_WINDOW | PROTOCOL_PING };
    assert!(matches!(w.delete(&atoms()), Request::SendClientMessage { .. }));
}

#[test]
fn delete_destroys_a_window_that_does_not() {
    let mut w = WindowRecord::new(7, format(0));
    assert_eq!(w.delete(&atoms()), Request::DestroyWindow { window: 7 });
    w.protocols = Protocols { bits: PROTOCOL_PING };
    assert_eq!(w.delete(&atoms()), Request::DestroyWindow { window: 7 });
}

#[test]
fn ping_carries_the_window_id_as_payload() {
    assert_eq!(
        ping_request(&atoms(), 7),
        Request::PostClientMessage {
            message: ClientMessage { window: 7, message_type: 300, data: [302, 0, 7, 0, 0] }
        }
    );
}

#[test]
fn protocol_sets() {
    let none = Protocols::empty();
    assert!(!none.contains(PROTOCOL_DELETE_WINDOW));
    assert!(!none.contains(PROTOCOL_PING));
    let delete = none.with(PROTOCOL_DELETE_WINDOW);
    assert!(delete.contains(PROTOCOL_DELETE_WINDOW));
    assert!(!delete.contains(PROTOCOL_PING));
    let both = delete.with(PROTOCOL_PING);
    assert!(both.contains(PROTOCOL_DELETE_WINDOW));
    assert!(both.contains(PROTOCOL_PING));
    assert!(both.contains(PROTOCOL_DELETE_WINDOW | PROTOCOL_PING));
    assert_eq!(both.bits, 3);
}

#[test]
fn icons_compare_by_size_and_pixels() {
    let a = BackendIcon { rgba: vec![1, 2, 3, 4, 5, 6, 7, 8], width: 2, height: 1 };
    let b = BackendIcon { rgba: vec![1, 2, 3, 4, 5, 6, 7, 8], width: 1, height: 2 };
    let c = BackendIcon { rgba: vec![1, 2, 3, 4, 5, 6, 7, 9], width: 2, height: 1 };
    let d = BackendIcon { rgba: vec![1, 2, 3, 4], width: 2, height: 1 };
    assert!(a.same_as(&a.duplicate()));
    assert_eq!(a.duplicate(), a);
    assert!(!a.same_as(&b));
    assert!(!a.same_as(&c));
    assert!(!a.same_as(&d));
    assert!(a.is_consistent());
    assert!(b.is_consistent());
    assert!(!d.is_consistent());
    assert!(BackendIcon { rgba: vec![], width: 0, height: 5 }.is_consistent());
    assert!(!BackendIcon { rgba: vec![0; 4], width: 65536, height: 65536 }.is_consistent());
}
