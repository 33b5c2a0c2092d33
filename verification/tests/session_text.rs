use boba_cat::session::{is_gnome_wayland_session, window_state_is_focused, wm_class_app_name};
use boba_cat::text::{chars_of, has_field_ignore_ascii_case, last_nonempty_field_string, trim_whitespace};

#[test]
fn trims_unicode_whitespace() {
    assert_eq!(trim_whitespace("  a b \n"), "a b");
    assert_eq!(trim_whitespace("\u{2003}x\u{85}"), "x");
    assert_eq!(trim_whitespace(" \t "), "");
    assert_eq!(trim_whitespace("abc"), "abc");
    assert_eq!(trim_whitespace(&trim_whitespace(" q ")), "q");
}

#[test]
fn finds_fields_ignoring_ascii_case() {
    let s = chars_of("ubuntu:GNOME");
    assert!(has_field_ignore_ascii_case(&s, ':', &chars_of("gnome")));
    assert!(!has_field_ignore_ascii_case(&s, ':', &chars_of("gnom")));
    assert!(has_field_ignore_ascii_case(&chars_of("a::b"), ':', &chars_of("")));
    assert!(!has_field_ignore_ascii_case(&chars_of("ab"), ':', &chars_of("")));
}

#[test]
fn last_nonempty_field_skips_trailing_separators() {
    assert_eq!(last_nonempty_field_string(&chars_of("a\0b\0\0"), '\0'), "b");
    assert_eq!(last_nonempty_field_string(&chars_of("\0\0"), '\0'), "");
    assert_eq!(last_nonempty_field_string(&chars_of("solo"), '\0'), "solo");
}

#[test]
fn detects_gnome_on_wayland() {
    assert!(is_gnome_wayland_session(Some("wayland"), Some("ubuntu:GNOME")));
    assert!(is_gnome_wayland_session(Some("Wayland"), Some("gnome")));
    assert!(!is_gnome_wayland_session(Some("x11"), Some("GNOME")));
    assert!(!is_gnome_wayland_session(Some("wayland"), Some("KDE")));
    assert!(!is_gnome_wayland_session(Some("wayland"), Some("gnome-classic")));
    assert!(!is_gnome_wayland_session(None, Some("GNOME")));
    assert!(!is_gnome_wayland_session(Some("wayland"), None));
}

#[test]
fn reads_the_class_from_wm_class() {
    assert_eq!(wm_class_app_name(b"code\0Code\0"), "Code");
    assert_eq!(wm_class_app_name(b"jetbrains-idea-ce\0"), "jetbrains-idea-ce");
    assert_eq!(wm_class_app_name(b""), "");
    assert_eq!(wm_class_app_name(b"\0\0"), "");
    assert_eq!(wm_class_app_name(b"a\0\xff\0"), "\u{fffd}");
    assert_eq!(wm_class_app_name("z\0caf\u{e9}\0".as_bytes()), "caf\u{e9}");
}

#[test]
fn focus_requires_the_focused_state_atom() {
    assert!(window_state_is_focused(&[3, 7, 9], 7));
    assert!(!window_state_is_focused(&[3, 9], 7));
    assert!(!window_state_is_focused(&[], 7));
}
