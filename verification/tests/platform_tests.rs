use autoclicker::geometry::{Point, Rect};
use autoclicker::platform::linux::{read_u32, ByteOrder, LinuxPlatform, X11Listing};
use autoclicker::platform::macos::MacOSPlatform;
use autoclicker::platform::unsupported::UnsupportedPlatform;
use autoclicker::platform::windows::WindowsPlatform;
use autoclicker::platform::{cursor_in_titled_window, keep_nonempty, title_matches, PlatformOps, WindowProbe};

fn utf16(s: &str) -> Vec<u16> {
    let mut v: Vec<u16> = s.encode_utf16().collect();
    v.resize(512, 0);
    v
}

#[test]
fn unsupported_platform_has_no_windows() {
    assert_eq!(
        UnsupportedPlatform::get_windows(),
        Err("Window enumeration is not supported on this platform".to_string())
    );
    assert!(!UnsupportedPlatform::is_window_focused("x"));
    assert!(!UnsupportedPlatform::is_cursor_in_window(""));
}

#[test]
fn windows_list_skips_hidden_untitled_and_shell_windows() {
    let t = |s: &str| Some(s.to_string());
    assert_eq!(WindowsPlatform::listed_title(true, t("Notepad")), t("Notepad"));
    assert_eq!(WindowsPlatform::listed_title(false, t("Notepad")), None);
    assert_eq!(WindowsPlatform::listed_title(true, t("")), None);
    assert_eq!(WindowsPlatform::listed_title(true, t("Program Manager")), None);
    assert_eq!(WindowsPlatform::listed_title(true, t("Program Manager 2")), t("Program Manager 2"));
    assert_eq!(WindowsPlatform::listed_title(true, None), None);
}

#[test]
fn windows_title_buffer_is_read_up_to_its_length() {
    let buf = utf16("Paint - image.png");
    assert_eq!(WindowsPlatform::title_from_buffer(&buf, 5), Some("Paint".to_string()));
    assert_eq!(WindowsPlatform::title_from_buffer(&buf, 0), None);
}

#[test]
fn windows_focus_checks_the_title() {
    let buf = utf16("Paint - image.png");
    assert!(WindowsPlatform::focused_title_matches(&buf, 17, "image"));
    assert!(!WindowsPlatform::focused_title_matches(&buf, 5, "image"));
    assert!(!WindowsPlatform::focused_title_matches(&buf, 0, ""));
    assert!(WindowsPlatform::focused_title_matches(&buf, 1, ""));
}

#[test]
fn linux_window_ids_are_native_words() {
    let a: u32 = 0x0420_0001;
    let b: u32 = 0x0000_00ff;
    let mut bytes = Vec::new();
    bytes.extend_from_slice(&a.to_ne_bytes());
    bytes.extend_from_slice(&b.to_ne_bytes());
    bytes.extend_from_slice(&[9, 9]);
    assert_eq!(LinuxPlatform::window_ids_from_property(&bytes), vec![a, b]);
    assert_eq!(LinuxPlatform::window_ids_from_property(&vec![1, 2, 3]), Vec::<u32>::new());
}

#[test]
fn linux_active_window_needs_four_bytes() {
    let w: u32 = 0x0123_4567;
    let mut bytes = w.to_ne_bytes().to_vec();
    bytes.push(0xAA);
    assert_eq!(LinuxPlatform::active_window_from_property(&bytes), Some(w));
    assert_eq!(LinuxPlatform::active_window_from_property(&vec![1, 2, 3]), None);
}

#[test]
fn linux_titles_keep_valid_nonempty_utf8() {
    let values = vec![
        Some("Terminal".as_bytes().to_vec()),
        None,
        Some(vec![0xff, 0xfe]),
        Some(Vec::new()),
        Some("Éditeur".as_bytes().to_vec()),
    ];
    assert_eq!(
        LinuxPlatform::titles_from_properties(&values),
        vec!["Terminal".to_string(), "Éditeur".to_string()]
    );
}

#[test]
fn linux_listing_reports_each_failure() {
    assert_eq!(
        LinuxPlatform::list_windows(&X11Listing::NoServer),
        Err("Failed to connect to X11 server. Wayland is not yet supported.".to_string())
    );
    assert_eq!(
        LinuxPlatform::list_windows(&X11Listing::NoClientList),
        Err("Failed to enumerate X11 windows".to_string())
    );
    assert_eq!(
        LinuxPlatform::list_windows(&X11Listing::Clients(vec![Some(b"xterm".to_vec())])),
        Ok(vec!["xterm".to_string()])
    );
    assert_eq!(LinuxPlatform::list_windows(&X11Listing::Clients(vec![])), Ok(vec![]));
}

#[test]
fn linux_focus_needs_a_readable_title() {
    assert!(LinuxPlatform::focused_title_matches(&Some(b"Firefox - Page".to_vec()), "Firefox"));
    assert!(!LinuxPlatform::focused_title_matches(&Some(b"Firefox".to_vec()), "Chrome"));
    assert!(!LinuxPlatform::focused_title_matches(&Some(vec![0xC3]), ""));
    assert!(!LinuxPlatform::focused_title_matches(&None, ""));
    assert_eq!(LinuxPlatform::decode_title(&Some(vec![0xC3, 0xA9])), Some("é".to_string()));
}

#[test]
fn macos_names_keep_readable_nonempty_ones() {
    let names = vec![Some(b"Finder".to_vec()), None, Some(Vec::new()), Some(b"Safari".to_vec())];
    assert_eq!(MacOSPlatform::app_names(&names), vec!["Finder".to_string(), "Safari".to_string()]);
    assert_eq!(keep_nonempty(&vec![]), Vec::<String>::new());
}

#[test]
fn macos_names_are_decoded_lossily() {
    assert_eq!(MacOSPlatform::name_from_bytes(&Some(vec![0x4D, 0xC3, 0xA4, 0x6C])), Some("Mäl".to_string()));
    assert_eq!(MacOSPlatform::name_from_bytes(&Some(vec![0x41, 0xFF, 0x42])), Some("A\u{FFFD}B".to_string()));
    assert_eq!(MacOSPlatform::name_from_bytes(&None), None);
    assert_eq!(MacOSPlatform::app_names(&vec![Some(vec![0xFF])]), vec!["\u{FFFD}".to_string()]);
}

#[test]
fn macos_cursor_check_is_the_focus_check() {
    let front = Some(b"Safari".to_vec());
    assert!(MacOSPlatform::frontmost_matches(&front, "Saf"));
    assert!(MacOSPlatform::cursor_over_target(&front, "Saf"));
    assert!(!MacOSPlatform::cursor_over_target(&None, ""));
    assert!(!title_matches(&Some("Safari".to_string()), "Finder"));
}

#[test]
fn bytes_are_read_in_the_given_order() {
    assert_eq!(read_u32(0x01, 0x02, 0x03, 0x04, ByteOrder::Little), 0x0403_0201);
    assert_eq!(read_u32(0x01, 0x02, 0x03, 0x04, ByteOrder::Big), 0x0102_0304);
    assert_eq!(read_u32(0xff, 0xff, 0xff, 0xff, ByteOrder::Big), u32::MAX);
    let bytes = vec![1, 0, 0, 0, 0, 0, 0, 2, 7];
    assert_eq!(LinuxPlatform::window_ids_in_order(&bytes, ByteOrder::Little), vec![1, 0x0200_0000]);
    assert_eq!(LinuxPlatform::window_ids_in_order(&bytes, ByteOrder::Big), vec![0x0100_0000, 2]);
    assert_eq!(LinuxPlatform::active_window_in_order(&bytes, ByteOrder::Big), Some(0x0100_0000));
    assert_eq!(LinuxPlatform::active_window_in_order(&vec![1, 2], ByteOrder::Little), None);
}

#[test]
fn native_byte_order_is_the_machines() {
    let expected = if u32::from_ne_bytes([1, 0, 0, 0]) == 1 { ByteOrder::Little } else { ByteOrder::Big };
    assert_eq!(LinuxPlatform::native_byte_order(), expected);
}

#[test]
fn cursor_must_be_inside_a_window_with_the_title() {
    let r = Rect { left: 0, top: 0, right: 100, bottom: 100 };
    let far = Rect { left: 500, top: 500, right: 600, bottom: 600 };
    let windows = vec![
        WindowProbe { title: Some("Game".to_string()), bounds: Some(far) },
        WindowProbe { title: Some("Notes".to_string()), bounds: Some(r) },
        WindowProbe { title: None, bounds: Some(r) },
        WindowProbe { title: Some("Game 2".to_string()), bounds: None },
    ];
    assert!(!cursor_in_titled_window(Point { x: 50, y: 50 }, &windows, "Game"));
    assert!(cursor_in_titled_window(Point { x: 550, y: 500 }, &windows, "Game"));
    assert!(cursor_in_titled_window(Point { x: 100, y: 0 }, &windows, "Note"));
    assert!(!cursor_in_titled_window(Point { x: 101, y: 0 }, &windows, "Note"));
    assert!(!cursor_in_titled_window(Point { x: 0, y: 0 }, &vec![], ""));
}
