//! The tray menu: its commands and the identifiers they are bound to, the
//! label of the show/hide entry, and the autostart check mark.

use vstd::prelude::*;

verus! {

/// A command of the tray menu.
#[derive(PartialEq, Eq, Structural, Clone, Copy, Debug)]
pub enum TrayCommand {
    /// Show the cat if hidden, hide it if shown.
    ToggleVisibility,
    /// Move the cat back to the bottom-right corner.
    ResetPosition,
    /// Enable or disable starting with the system.
    ToggleAutostart,
    /// Quit the application.
    Quit,
}

impl TrayCommand {
    /// The menu identifier the command is bound to.
    pub open spec fn spec_menu_id(self) -> Seq<char> {
        match self {
            TrayCommand::ToggleVisibility => "toggle-visibility"@,
            TrayCommand::ResetPosition => "reset-position"@,
            TrayCommand::ToggleAutostart => "autostart"@,
            TrayCommand::Quit => "quit"@,
        }
    }

    /// The command bound to a menu identifier, if any.
    pub open spec fn spec_from_menu_id(id: Seq<char>) -> Option<TrayCommand> {
        if id == "toggle-visibility"@ {
            Some(TrayCommand::ToggleVisibility)
        } else if id == "reset-position"@ {
            Some(TrayCommand::ResetPosition)
        } else if id == "autostart"@ {
            Some(TrayCommand::ToggleAutostart)
        } else if id == "quit"@ {
            Some(TrayCommand::Quit)
        } else {
            None
        }
    }

    /// The menu identifier the command is bound to.
    pub fn menu_id(&self) -> (r: &'static str)
        ensures
            r@ == self.spec_menu_id(),
    {
        match self {
            TrayCommand::ToggleVisibility => "toggle-visibility",
            TrayCommand::ResetPosition => "reset-position",
            TrayCommand::ToggleAutostart => "autostart",
            TrayCommand::Quit => "quit",
        }
    }

    /// The command that a menu event with this identifier asks for; `None`
    /// for identifiers the menu does not know, which are ignored.
    pub fn from_menu_id(id: &str) -> (r: Option<TrayCommand>)
        ensures
            r == Self::spec_from_menu_id(id@),
    {
        let id: String = id.to_owned();
        if id == "toggle-visibility".to_owned() {
            Some(TrayCommand::ToggleVisibility)
        } else if id == "reset-position".to_owned() {
            Some(TrayCommand::ResetPosition)
        } else if id == "autostart".to_owned() {
            Some(TrayCommand::ToggleAutostart)
        } else if id == "quit".to_owned() {
            Some(TrayCommand::Quit)
        } else {
            None
        }
    }
}

/// The label of the show/hide entry while the cat is visible or hidden.
pub open spec fn spec_visibility_label(visible: bool) -> Seq<char> {
    if visible {
        "Hide cat"@
    } else {
        "Show cat"@
    }
}

/// The label of the show/hide entry: it offers to hide a visible cat and to
/// show a hidden one.
pub fn visibility_label(visible: bool) -> (r: &'static str)
    ensures
        r@ == spec_visibility_label(visible),
{
    if visible {
        "Hide cat"
    } else {
        "Show cat"
    }
}

/// Whether autostart is on after an attempt to toggle it.
pub open spec fn spec_autostart_after_toggle(was_enabled: bool, toggle_succeeded: bool) -> bool {
    if toggle_succeeded {
        !was_enabled
    } else {
        was_enabled
    }
}

/// Whether autostart is on after an attempt to toggle it: flipped when the
/// attempt succeeded, unchanged when it failed. The check mark shows this.
pub fn autostart_after_toggle(was_enabled: bool, toggle_succeeded: bool) -> (r: bool)
    ensures
        r == spec_autostart_after_toggle(was_enabled, toggle_succeeded),
{
    if toggle_succeeded {
        !was_enabled
    } else {
        was_enabled
    }
}

/// What the host does for a tray command.
#[derive(PartialEq, Eq, Structural, Clone, Copy, Debug)]
pub enum TrayAction {
    /// Hide the visible window.
    HideWindow,
    /// Show the hidden window, applying the desktop window state again.
    ShowWindow,
    /// Move the window to the bottom-right corner.
    MoveToRightEdge,
    /// Turn starting with the system off.
    DisableAutostart,
    /// Turn starting with the system on.
    EnableAutostart,
    /// Quit the application.
    Exit,
    /// Do nothing: the command needs the main window and there is none.
    Ignore,
}

/// What the host does once an action has been attempted.
#[derive(PartialEq, Eq, Structural, Clone, Copy, Debug)]
pub enum TrayFollowUp {
    /// Set the show/hide entry's label for a window that is now visible or not.
    SetVisibilityLabel { visible: bool },
    /// Save the right edge (fraction one) as the stored position.
    SaveRightEdge,
    /// Set the autostart check mark.
    SetAutostartChecked { enabled: bool },
    /// Nothing more to do.
    Nothing,
}

/// The action for a command, given the main window (`None` when there is
/// none, else whether it is visible) and whether autostart is on.
pub open spec fn spec_tray_action(
    command: TrayCommand,
    main_window: Option<bool>,
    autostart_enabled: bool,
) -> TrayAction {
    match command {
        TrayCommand::ToggleVisibility => match main_window {
            Some(true) => TrayAction::HideWindow,
            Some(false) => TrayAction::ShowWindow,
            None => TrayAction::Ignore,
        },
        TrayCommand::ResetPosition => match main_window {
            Some(_) => TrayAction::MoveToRightEdge,
            None => TrayAction::Ignore,
        },
        TrayCommand::ToggleAutostart => if autostart_enabled {
            TrayAction::DisableAutostart
        } else {
            TrayAction::EnableAutostart
        },
        TrayCommand::Quit => TrayAction::Exit,
    }
}

/// The follow-up to an action that succeeded or failed.
pub open spec fn spec_tray_follow_up(action: TrayAction, succeeded: bool) -> TrayFollowUp {
    match action {
        TrayAction::HideWindow => if succeeded {
            TrayFollowUp::SetVisibilityLabel { visible: false }
        } else {
            TrayFollowUp::Nothing
        },
        TrayAction::ShowWindow => if succeeded {
            TrayFollowUp::SetVisibilityLabel { visible: true }
        } else {
            TrayFollowUp::Nothing
        },
        TrayAction::MoveToRightEdge => if succeeded {
            TrayFollowUp::SaveRightEdge
        } else {
            TrayFollowUp::Nothing
        },
        TrayAction::DisableAutostart => TrayFollowUp::SetAutostartChecked {
            enabled: spec_autostart_after_toggle(true, succeeded),
        },
        TrayAction::EnableAutostart => TrayFollowUp::SetAutostartChecked {
            enabled: spec_autostart_after_toggle(false, succeeded),
        },
        TrayAction::Exit => TrayFollowUp::Nothing,
        TrayAction::Ignore => TrayFollowUp::Nothing,
    }
}

/// Decides what a tray command does, given whether there is a main window
/// (`None` when there is none, else whether it is visible): the show/hide
/// entry hides a visible window and shows a hidden one, the reset entry moves
/// the window to the right edge, both do nothing without a main window, the autostart entry turns autostart off when it is on and on
/// when it is off, and quit exits.
pub fn tray_action(command: TrayCommand, main_window: Option<bool>, autostart_enabled: bool) -> (r:
    TrayAction)
    ensures
        r == spec_tray_action(command, main_window, autostart_enabled),
{
    match command {
        TrayCommand::ToggleVisibility => match main_window {
            Some(true) => TrayAction::HideWindow,
            Some(false) => TrayAction::ShowWindow,
            None => TrayAction::Ignore,
        },
        TrayCommand::ResetPosition => match main_window {
            Some(_) => TrayAction::MoveToRightEdge,
            None => TrayAction::Ignore,
        },
        TrayCommand::ToggleAutostart => if autostart_enabled {
            TrayAction::DisableAutostart
        } else {
            TrayAction::EnableAutostart
        },
        TrayCommand::Quit => TrayAction::Exit,
    }
}

/// Decides what follows an attempted action: a successful hide or show
/// relabels the show/hide entry for the new visibility, a successful move to
/// the right edge saves that position, an autostart change always sets the
/// check mark to the state after the attempt, and failures change nothing
/// else.
pub fn tray_follow_up(action: TrayAction, succeeded: bool) -> (r: TrayFollowUp)
    ensures
        r == spec_tray_follow_up(action, succeeded),
{
    match action {
        TrayAction::HideWindow => if succeeded {
            TrayFollowUp::SetVisibilityLabel { visible: false }
        } else {
            TrayFollowUp::Nothing
        },
        TrayAction::ShowWindow => if succeeded {
            TrayFollowUp::SetVisibilityLabel { visible: true }
        } else {
            TrayFollowUp::Nothing
        },
        TrayAction::MoveToRightEdge => if succeeded {
            TrayFollowUp::SaveRightEdge
        } else {
            TrayFollowUp::Nothing
        },
        TrayAction::DisableAutostart => TrayFollowUp::SetAutostartChecked {
            enabled: autostart_after_toggle(true, succeeded),
        },
        TrayAction::EnableAutostart => TrayFollowUp::SetAutostartChecked {
            enabled: autostart_after_toggle(false, succeeded),
        },
        TrayAction::Exit => TrayFollowUp::Nothing,
        TrayAction::Ignore => TrayFollowUp::Nothing,
    }
}

/// A successful show/hide relabels the entry for the opposite of the
/// visibility before it, so that the entry offers to undo what was done.
pub proof fn lemma_visibility_label_offers_reverse(window_visible: bool, autostart_enabled: bool)
    ensures
        ({
            let action = spec_tray_action(
                TrayCommand::ToggleVisibility,
                Some(window_visible),
                autostart_enabled,
            );
            &&& spec_tray_follow_up(action, true) matches TrayFollowUp::SetVisibilityLabel {
                visible,
            }
            &&& visible == !window_visible
        }),
{
}

/// The autostart check mark always shows the state after the attempt: the
/// opposite of the state before when the change succeeded, the same when it
/// failed.
pub proof fn lemma_autostart_check_mark_tracks_state(
    autostart_enabled: bool,
    main_window: Option<bool>,
    succeeded: bool,
)
    ensures
        spec_tray_follow_up(
            spec_tray_action(TrayCommand::ToggleAutostart, main_window, autostart_enabled),
            succeeded,
        ) == (TrayFollowUp::SetAutostartChecked {
            enabled: if succeeded {
                !autostart_enabled
            } else {
                autostart_enabled
            },
        }),
{
}

/// Without a main window the show/hide and reset entries do nothing at all:
/// no window change, no label change, nothing saved.
pub proof fn lemma_window_commands_need_main_window(
    command: TrayCommand,
    autostart_enabled: bool,
    succeeded: bool,
)
    requires
        command == TrayCommand::ToggleVisibility || command == TrayCommand::ResetPosition,
    ensures
        spec_tray_action(command, None, autostart_enabled) == TrayAction::Ignore,
        spec_tray_follow_up(TrayAction::Ignore, succeeded) == TrayFollowUp::Nothing,
{
}

/// With a main window present no command is ignored: show/hide hides a
/// visible window and shows a hidden one, reset moves the window to the right
/// edge whether or not it is visible, and the autostart and quit entries do
/// not depend on the window at all.
pub proof fn lemma_main_window_commands_act(
    window_visible: bool,
    other_window: Option<bool>,
    autostart_enabled: bool,
)
    ensures
        forall|command: TrayCommand|
            spec_tray_action(command, Some(window_visible), autostart_enabled)
                != TrayAction::Ignore,
        spec_tray_action(TrayCommand::ResetPosition, Some(window_visible), autostart_enabled)
            == TrayAction::MoveToRightEdge,
        (spec_tray_action(TrayCommand::ToggleVisibility, Some(window_visible), autostart_enabled)
            == TrayAction::HideWindow) == window_visible,
        (spec_tray_action(TrayCommand::ToggleVisibility, Some(window_visible), autostart_enabled)
            == TrayAction::ShowWindow) == !window_visible,
        spec_tray_action(TrayCommand::ToggleAutostart, Some(window_visible), autostart_enabled)
            == spec_tray_action(TrayCommand::ToggleAutostart, other_window, autostart_enabled),
        spec_tray_action(TrayCommand::Quit, Some(window_visible), autostart_enabled)
            == spec_tray_action(TrayCommand::Quit, other_window, autostart_enabled),
{
}

/// Each command is found again from its menu identifier.
pub proof fn lemma_menu_id_round_trip(command: TrayCommand)
    ensures
        TrayCommand::spec_from_menu_id(command.spec_menu_id()) == Some(command),
{
    reveal_strlit("toggle-visibility");
    reveal_strlit("reset-position");
    reveal_strlit("autostart");
    reveal_strlit("quit");
    assert("reset-position"@[0] != "toggle-visibility"@[0]);
    assert("autostart"@[0] != "toggle-visibility"@[0]);
    assert("autostart"@ != "reset-position"@);
    assert("quit"@ != "toggle-visibility"@);
    assert("quit"@ != "reset-position"@);
    assert("quit"@ != "autostart"@);
}

/// Two successful toggles of autostart give back the state before them.
pub proof fn lemma_autostart_toggle_twice(was_enabled: bool)
    ensures
        spec_autostart_after_toggle(spec_autostart_after_toggle(was_enabled, true), true)
            == was_enabled,
{
}

} // verus!
