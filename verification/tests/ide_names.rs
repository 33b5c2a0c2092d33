use boba_cat::ide::{is_ide, IdeMatcher};

#[test]
fn identifies_current_ide_app_identities_case_insensitively() {
    for app_name in [
        "code",
        "Code - Insiders",
        "Code - OSS",
        "Visual Studio Code",
        "VSCodium.exe",
        "jetbrains-idea-ce",
        "PyCharm",
        "Android Studio",
        "Cursor",
        "Windsurf-next",
        "dev.zed.Zed",
        "Positron",
        "devenv.exe",
        "Microsoft Visual Studio 2022",
        "org.gnome.Builder",
        "QtCreator",
        "DBeaver",
        "Godot Engine",
    ] {
        assert!(is_ide(app_name), "expected {app_name:?} to be an IDE");
    }
}

#[test]
fn rejects_apps_that_only_contain_a_short_ide_name() {
    for app_name in [
        "Decode",
        "Barcode Studio",
        "IdeaBoard",
        "Rider Logistics",
        "Air",
        "Firefox",
        "ChatGPT",
    ] {
        assert!(!is_ide(app_name), "expected {app_name:?} not to be an IDE");
    }
}

#[test]
fn ide_names_are_recognised_through_surrounding_whitespace() {
    assert!(is_ide("  code\n"));
    assert!(is_ide("\u{3000}PyCharm\t"));
    assert!(!is_ide("  Firefox  "));
    assert!(!is_ide(""));
    assert!(!is_ide("   "));
}

#[test]
fn ide_matcher_agrees_with_is_ide() {
    let matcher = match IdeMatcher::new() {
        Ok(m) => m,
        Err(_) => panic!("the IDE patterns must build"),
    };
    for name in ["emacs", "EMACS", "Xcode", "rustrover64", "Slack", "jetbrains air", "air"] {
        assert_eq!(matcher.matches(name), is_ide(name));
    }
    assert!(matcher.matches("jetbrains air"));
    assert!(!matcher.matches("air"));
}
