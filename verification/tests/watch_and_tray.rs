use boba_cat::tray::{
    autostart_after_toggle, tray_action, tray_follow_up, visibility_label, TrayAction, TrayCommand,
    TrayFollowUp,
};
use boba_cat::watch::{IdeWatch, IDE_RESYNC_INTERVAL_MS};

#[test]
fn reports_first_observation_and_changes() {
    let mut watch = IdeWatch::new();
    assert_eq!(watch.last_ide(), None);
    assert!(watch.observe(false, 0));
    assert_eq!(watch.last_ide(), Some(false));
    assert!(!watch.observe(false, 500));
    assert!(watch.observe(true, 1000));
    assert!(!watch.observe(true, 1500));
    assert!(!watch.observe(true, 2999));
    assert!(watch.observe(true, 1000 + IDE_RESYNC_INTERVAL_MS));
    assert_eq!(watch.last_ide(), Some(true));
}

#[test]
fn resynchronises_after_the_interval() {
    let mut watch = IdeWatch::new();
    assert!(watch.observe(true, 100));
    assert!(!watch.observe(true, 2099));
    assert!(watch.observe(true, 2100));
    assert!(!watch.observe(true, 50));
}

#[test]
fn menu_ids_map_to_commands() {
    for command in [
        TrayCommand::ToggleVisibility,
        TrayCommand::ResetPosition,
        TrayCommand::ToggleAutostart,
        TrayCommand::Quit,
    ] {
        assert_eq!(TrayCommand::from_menu_id(command.menu_id()), Some(command));
    }
    assert_eq!(TrayCommand::from_menu_id("quit"), Some(TrayCommand::Quit));
    assert_eq!(TrayCommand::from_menu_id("autostart"), Some(TrayCommand::ToggleAutostart));
    assert_eq!(TrayCommand::from_menu_id("settings"), None);
    assert_eq!(TrayCommand::from_menu_id("Quit"), None);
}

#[test]
fn labels_and_autostart_state() {
    assert_eq!(visibility_label(true), "Hide cat");
    assert_eq!(visibility_label(false), "Show cat");
    assert!(autostart_after_toggle(false, true));
    assert!(!autostart_after_toggle(true, true));
    assert!(autostart_after_toggle(true, false));
    assert!(!autostart_after_toggle(false, false));
}

#[test]
fn tray_commands_choose_actions() {
    assert_eq!(tray_action(TrayCommand::ToggleVisibility, Some(true), false), TrayAction::HideWindow);
    assert_eq!(tray_action(TrayCommand::ToggleVisibility, Some(false), true), TrayAction::ShowWindow);
    assert_eq!(tray_action(TrayCommand::ResetPosition, Some(true), true), TrayAction::MoveToRightEdge);
    assert_eq!(tray_action(TrayCommand::ToggleAutostart, None, true), TrayAction::DisableAutostart);
    assert_eq!(tray_action(TrayCommand::ToggleAutostart, Some(true), false), TrayAction::EnableAutostart);
    assert_eq!(tray_action(TrayCommand::Quit, None, false), TrayAction::Exit);
    assert_eq!(tray_action(TrayCommand::ToggleVisibility, None, false), TrayAction::Ignore);
    assert_eq!(tray_action(TrayCommand::ResetPosition, None, true), TrayAction::Ignore);
}

#[test]
fn tray_follow_ups_depend_on_success() {
    assert_eq!(
        tray_follow_up(TrayAction::HideWindow, true),
        TrayFollowUp::SetVisibilityLabel { visible: false }
    );
    assert_eq!(
        tray_follow_up(TrayAction::ShowWindow, true),
        TrayFollowUp::SetVisibilityLabel { visible: true }
    );
    assert_eq!(tray_follow_up(TrayAction::ShowWindow, false), TrayFollowUp::Nothing);
    assert_eq!(tray_follow_up(TrayAction::MoveToRightEdge, true), TrayFollowUp::SaveRightEdge);
    assert_eq!(tray_follow_up(TrayAction::MoveToRightEdge, false), TrayFollowUp::Nothing);
    assert_eq!(
        tray_follow_up(TrayAction::EnableAutostart, true),
        TrayFollowUp::SetAutostartChecked { enabled: true }
    );
    assert_eq!(
        tray_follow_up(TrayAction::EnableAutostart, false),
        TrayFollowUp::SetAutostartChecked { enabled: false }
    );
    assert_eq!(
        tray_follow_up(TrayAction::DisableAutostart, true),
        TrayFollowUp::SetAutostartChecked { enabled: false }
    );
    assert_eq!(
        tray_follow_up(TrayAction::DisableAutostart, false),
        TrayFollowUp::SetAutostartChecked { enabled: true }
    );
    assert_eq!(tray_follow_up(TrayAction::Exit, true), TrayFollowUp::Nothing);
    assert_eq!(tray_follow_up(TrayAction::Ignore, true), TrayFollowUp::Nothing);
    assert_eq!(tray_follow_up(TrayAction::Ignore, false), TrayFollowUp::Nothing);
}

#[test]
fn stops_after_an_undelivered_report() {
    let mut watch = IdeWatch::new();
    assert!(watch.is_running());
    assert!(watch.observe(true, 0));
    assert!(watch.report_delivered(true));
    assert!(watch.observe(false, 500));
    assert!(!watch.report_delivered(false));
    assert!(!watch.is_running());
    assert!(!watch.observe(true, 600));
    assert!(!watch.observe(false, 10_000));
    assert_eq!(watch.last_ide(), Some(false));
    assert!(!watch.report_delivered(true));
}
