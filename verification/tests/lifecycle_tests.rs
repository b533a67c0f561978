use winit_it::lifecycle::{
    decimal, display_name, environment, is_space, module_search_path, parse_display, ServerSetup,
    CONFIG, DEFAULT_X_PATH,
};

#[test]
fn decimal_numerals() {
    assert_eq!(decimal(0), "0");
    assert_eq!(decimal(7), "7");
    assert_eq!(decimal(10), "10");
    assert_eq!(decimal(99), "99");
    assert_eq!(decimal(100), "100");
    assert_eq!(decimal(1234567890), "1234567890");
    assert_eq!(decimal(u32::MAX), "4294967295");
    for n in [1u32, 9, 11, 101, 1000, 65535, 4000000000] {
        assert_eq!(decimal(n), n.to_string());
    }
}

#[test]
fn display_names() {
    assert_eq!(display_name(0), ":0");
    assert_eq!(display_name(17), ":17");
}

#[test]
fn the_module_search_path_lists_the_injection_module() {
    assert_eq!(
        module_search_path("/usr/lib/xorg/modules", "/src/it"),
        "/usr/lib/xorg/modules,/src/it/x11-module/install"
    );
    assert_eq!(module_search_path("", ""), ",/x11-module/install");
}

#[test]
fn server_arguments_in_order() {
    let setup = ServerSetup {
        x_path: "/usr/lib/Xorg".to_string(),
        config_file: "/tmp/t/config.conf".to_string(),
        config_dir: "/tmp/t/conf".to_string(),
        modules: "/m,/r/x11-module/install".to_string(),
        log_file: "/tmp/t/log".to_string(),
        display_fd: 12,
    };
    assert_eq!(
        setup.arguments(),
        vec![
            "/usr/lib/Xorg",
            "-config",
            "/tmp/t/config.conf",
            "-configdir",
            "/tmp/t/conf",
            "-modulepath",
            "/m,/r/x11-module/install",
            "-seat",
            "winit-seat",
            "-logfile",
            "/tmp/t/log",
            "-noreset",
            "-displayfd",
            "12",
        ]
    );
}

#[test]
fn server_environment_in_order() {
    assert_eq!(
        environment("/home/u", "/bin:/usr/bin", 5),
        vec!["HOME=/home/u", "PATH=/bin:/usr/bin", "WINIT_IT_SOCKET=5"]
    );
}

#[test]
fn the_configuration_names_the_injection_driver() {
    assert_eq!(DEFAULT_X_PATH, "/usr/lib/Xorg");
    assert!(CONFIG.starts_with("\nSection \"Device\"\n"));
    assert!(CONFIG.contains("    Driver      \"winit\"\n"));
    assert!(CONFIG.contains("Section \"Screen\"\n    Identifier  \"winit screen\"\n    Device      \"winit device\"\nEndSection\n"));
    assert!(CONFIG.ends_with("Section \"Serverlayout\"\n    Identifier  \"winit layout\"\n    Screen      \"winit screen\"\nEndSection\n"));
    assert_eq!(CONFIG.lines().count(), 15);
}

#[test]
fn display_numbers_are_parsed() {
    assert_eq!(parse_display(b"0\n"), Some(0));
    assert_eq!(parse_display(b"7"), Some(7));
    assert_eq!(parse_display(b"  12\r\n"), Some(12));
    assert_eq!(parse_display(b"\t+5 "), Some(5));
    assert_eq!(parse_display(b"007"), Some(7));
    assert_eq!(parse_display(b"4294967295"), Some(u32::MAX));
    assert_eq!(parse_display(b"0000000004294967295\n"), Some(u32::MAX));
}

#[test]
fn what_is_no_display_number() {
    assert_eq!(parse_display(b""), None);
    assert_eq!(parse_display(b"\n"), None);
    assert_eq!(parse_display(b"   "), None);
    assert_eq!(parse_display(b"+"), None);
    assert_eq!(parse_display(b"-1"), None);
    assert_eq!(parse_display(b"++1"), None);
    assert_eq!(parse_display(b"1 2"), None);
    assert_eq!(parse_display(b"12a"), None);
    assert_eq!(parse_display(b"a12"), None);
    assert_eq!(parse_display(b":0"), None);
    assert_eq!(parse_display(b"4294967296"), None);
    assert_eq!(parse_display(b"42949672950"), None);
    assert_eq!(parse_display(b"99999999999999999999999"), None);
    assert_eq!(parse_display(b"4294967296x"), None);
    assert_eq!(parse_display(b"1\0"), None);
}

#[test]
fn parsing_agrees_with_the_standard_library() {
    for text in ["0", "1", " 42 ", "+9", "\n123\n", "x", "", "4294967295", "4294967296", "-0"] {
        assert_eq!(parse_display(text.as_bytes()), text.trim().parse::<u32>().ok());
    }
}

#[test]
fn white_space_bytes() {
    for byte in [b' ', b'\t', b'\n', 0x0b, 0x0c, b'\r'] {
        assert!(is_space(byte));
    }
    for byte in [0u8, 8, 14, b'0', b'a', 0x1f, 0x21, 0x85, 0xa0, 255] {
        assert!(!is_space(byte));
    }
}
