//! The two input surfaces, global hotkeys and the tray menu, and the closed
//! set of actions that either of them can ask for.

use vstd::prelude::*;
use vstd::string::*;
use crate::mode::ModeId;
use crate::text::same_text;

verus! {

/// The label of the window that the window actions address.
pub const MAIN_WINDOW: &'static str = "main";

/// The status with which the quit action ends the process.
pub const QUIT_STATUS: i32 = 0;

/// What an input asks the controller to do. Inputs that are not bound to
/// anything map to `Ignore`.
#[derive(Clone, Copy, Debug, PartialEq, Eq, Structural)]
pub enum Action {
    /// Show the main window and give it the focus.
    ShowWindow,
    /// Hide the main window if it is visible, show and focus it otherwise.
    ToggleWindow,
    /// Run the toggle pathway of a mode.
    Toggle(ModeId),
    /// End the process at once, without any cleanup.
    Quit,
    /// Do nothing.
    Ignore,
}

/// Whether a key went down or came up.
#[derive(Clone, Copy, Debug, PartialEq, Eq, Structural)]
pub enum KeyState {
    Pressed,
    Released,
}

/// The keys that a binding can name; every other key is `Other`.
#[derive(Clone, Copy, Debug, PartialEq, Eq, Structural)]
pub enum Key {
    L,
    Q,
    Other,
}

/// A key together with the modifiers held while it is struck. `extra` says
/// that some modifier besides the four named ones is held.
#[derive(Clone, Copy, Debug, PartialEq, Eq, Structural)]
pub struct Chord {
    pub super_key: bool,
    pub shift: bool,
    pub alt: bool,
    pub control: bool,
    pub extra: bool,
    pub key: Key,
}

/// A chord bound to an action, with the accelerator text under which the
/// shell registers it.
#[derive(Clone, Copy, Debug, PartialEq, Eq)]
pub struct ShortcutBinding {
    pub accelerator: &'static str,
    pub chord: Chord,
    pub action: Action,
}

/// An item of the tray menu.
#[derive(Clone, Copy, Debug, PartialEq, Eq)]
pub struct MenuEntry {
    pub id: &'static str,
    pub label: &'static str,
    pub enabled: bool,
}

/// An event from either surface.
#[derive(Clone, Debug, PartialEq, Eq)]
pub enum InputEvent {
    Hotkey(KeyState, Chord),
    Menu(String),
}

/// An input event as a plain value.
pub enum InputModel {
    Hotkey(KeyState, Chord),
    Menu(Seq<char>),
}

impl View for InputEvent {
    type V = InputModel;

    open spec fn view(&self) -> InputModel {
        match self {
            InputEvent::Hotkey(state, chord) => InputModel::Hotkey(*state, *chord),
            InputEvent::Menu(id) => InputModel::Menu(id@),
        }
    }
}

/// Super+Shift+L: shows or hides the main window.
pub open spec fn window_chord() -> Chord {
    Chord { super_key: true, shift: true, alt: false, control: false, extra: false, key: Key::L }
}

/// Super+Alt+Q: toggles silence.
pub open spec fn silence_chord() -> Chord {
    Chord { super_key: true, shift: false, alt: true, control: false, extra: false, key: Key::Q }
}

/// The action bound to a hotkey event. Only the press counts, and only an
/// exact match of key and modifiers.
pub open spec fn hotkey_action_of(state: KeyState, chord: Chord) -> Action {
    if state != KeyState::Pressed {
        Action::Ignore
    } else if chord == window_chord() {
        Action::ToggleWindow
    } else if chord == silence_chord() {
        Action::Toggle(ModeId::Silence)
    } else {
        Action::Ignore
    }
}

/// The action bound to a menu item's id.
pub open spec fn menu_action_of(id: Seq<char>) -> Action {
    if id == "show"@ {
        Action::ShowWindow
    } else if id == "silence"@ {
        Action::Toggle(ModeId::Silence)
    } else if id == "toggle_maintenance"@ {
        Action::Toggle(ModeId::Maintenance)
    } else if id == "quit"@ {
        Action::Quit
    } else {
        Action::Ignore
    }
}

/// The action that an event of either surface asks for.
pub open spec fn action_of(event: InputModel) -> Action {
    match event {
        InputModel::Hotkey(state, chord) => hotkey_action_of(state, chord),
        InputModel::Menu(id) => menu_action_of(id),
    }
}

/// Maps a hotkey event to its action.
pub fn hotkey_action(state: KeyState, chord: Chord) -> (action: Action)
    ensures
        action == hotkey_action_of(state, chord),
{
    match state {
        KeyState::Released => Action::Ignore,
        KeyState::Pressed => {
            let plain = !chord.control && !chord.extra && chord.super_key;
            match chord.key {
                Key::L => if plain && chord.shift && !chord.alt {
                    Action::ToggleWindow
                } else {
                    Action::Ignore
                },
                Key::Q => if plain && chord.alt && !chord.shift {
                    Action::Toggle(ModeId::Silence)
                } else {
                    Action::Ignore
                },
                Key::Other => Action::Ignore,
            }
        },
    }
}

/// Maps the id of a selected menu item to its action.
pub fn menu_action(id: &str) -> (action: Action)
    ensures
        action == menu_action_of(id@),
{
    if same_text(id, "show") {
        Action::ShowWindow
    } else if same_text(id, "silence") {
        Action::Toggle(ModeId::Silence)
    } else if same_text(id, "toggle_maintenance") {
        Action::Toggle(ModeId::Maintenance)
    } else if same_text(id, "quit") {
        Action::Quit
    } else {
        Action::Ignore
    }
}

/// Maps an event of either surface to its action. Both surfaces end in the
/// same set of actions, so what follows cannot depend on the surface.
pub fn dispatch(event: &InputEvent) -> (action: Action)
    ensures
        action == action_of(event@),
{
    match event {
        InputEvent::Hotkey(state, chord) => hotkey_action(*state, *chord),
        InputEvent::Menu(id) => menu_action(id.as_str()),
    }
}

/// The hotkeys to register, in registration order.
pub fn shortcut_bindings() -> (bindings: Vec<ShortcutBinding>)
    ensures
        bindings@.len() == 2,
        bindings@[0].accelerator@ == "super+shift+KeyL"@,
        bindings@[0].chord == window_chord(),
        bindings@[1].accelerator@ == "super+alt+KeyQ"@,
        bindings@[1].chord == silence_chord(),
        forall|i: int|
            0 <= i < bindings@.len() ==> #[trigger] bindings@[i].action == hotkey_action_of(
                KeyState::Pressed,
                bindings@[i].chord,
            ) && bindings@[i].action != Action::Ignore,
{
    let window = ShortcutBinding {
        accelerator: "super+shift+KeyL",
        chord: Chord {
            super_key: true,
            shift: true,
            alt: false,
            control: false,
            extra: false,
            key: Key::L,
        },
        action: Action::ToggleWindow,
    };
    let silence = ShortcutBinding {
        accelerator: "super+alt+KeyQ",
        chord: Chord {
            super_key: true,
            shift: false,
            alt: true,
            control: false,
            extra: false,
            key: Key::Q,
        },
        action: Action::Toggle(ModeId::Silence),
    };
    let mut bindings: Vec<ShortcutBinding> = Vec::new();
    bindings.push(window);
    bindings.push(silence);
    bindings
}

/// The tray menu, top to bottom. Every item is enabled.
pub fn menu_definition() -> (menu: Vec<MenuEntry>)
    ensures
        menu@.len() == 4,
        menu@[0].id@ == "show"@ && menu@[0].label@ == "Show"@,
        menu@[1].id@ == "silence"@ && menu@[1].label@ == "Enter Silence"@,
        menu@[2].id@ == "toggle_maintenance"@ && menu@[2].label@ == "Toggle Maintenance Mode"@,
        menu@[3].id@ == "quit"@ && menu@[3].label@ == "Quit"@,
        forall|i: int| 0 <= i < menu@.len() ==> (#[trigger] menu@[i]).enabled,
{
    let mut menu: Vec<MenuEntry> = Vec::new();
    menu.push(MenuEntry { id: "show", label: "Show", enabled: true });
    menu.push(MenuEntry { id: "silence", label: "Enter Silence", enabled: true });
    menu.push(
        MenuEntry { id: "toggle_maintenance", label: "Toggle Maintenance Mode", enabled: true },
    );
    menu.push(MenuEntry { id: "quit", label: "Quit", enabled: true });
    menu
}

/// What to do to the main window.
#[derive(Clone, Copy, Debug, PartialEq, Eq, Structural)]
pub enum WindowCommand {
    ShowAndFocus,
    Hide,
    Leave,
}

/// The window command that an action amounts to. `visible` is the window's
/// visibility as far as the shell could find it out; a window whose
/// visibility is unknown is taken to be visible.
pub open spec fn window_command_of(action: Action, visible: Option<bool>) -> WindowCommand {
    match action {
        Action::ShowWindow => WindowCommand::ShowAndFocus,
        Action::ToggleWindow => if visible != Some(false) {
            WindowCommand::Hide
        } else {
            WindowCommand::ShowAndFocus
        },
        _ => WindowCommand::Leave,
    }
}

/// Decides what happens to the main window on `action`. Actions that are not
/// about the window leave it alone.
pub fn window_command(action: Action, visible: Option<bool>) -> (command: WindowCommand)
    ensures
        command == window_command_of(action, visible),
{
    match action {
        Action::ShowWindow => WindowCommand::ShowAndFocus,
        Action::ToggleWindow => match visible {
            Some(false) => WindowCommand::ShowAndFocus,
            _ => WindowCommand::Hide,
        },
        _ => WindowCommand::Leave,
    }
}

/// The four menu ids are different texts, and each selects its own action.
pub proof fn lemma_menu_ids_select_their_actions()
    ensures
        menu_action_of("show"@) == Action::ShowWindow,
        menu_action_of("silence"@) == Action::Toggle(ModeId::Silence),
        menu_action_of("toggle_maintenance"@) == Action::Toggle(ModeId::Maintenance),
        menu_action_of("quit"@) == Action::Quit,
{
    reveal_strlit("show");
    reveal_strlit("silence");
    reveal_strlit("toggle_maintenance");
    reveal_strlit("quit");
    assert("show"@.len() == 4 && "silence"@.len() == 7 && "toggle_maintenance"@.len() == 18
        && "quit"@.len() == 4);
    assert("show"@[0] == 's' && "quit"@[0] == 'q');
}

/// A key that comes up never triggers anything.
pub proof fn lemma_release_is_ignored(chord: Chord)
    ensures
        hotkey_action_of(KeyState::Released, chord) == Action::Ignore,
{
}

/// Silence can be toggled from either surface, maintenance from the menu
/// only, and both surfaces name the same action for silence.
pub proof fn lemma_surfaces_agree_on_silence()
    ensures
        action_of(InputModel::Hotkey(KeyState::Pressed, silence_chord())) == action_of(
            InputModel::Menu("silence"@),
        ),
        forall|state: KeyState, chord: Chord| #[trigger]
            hotkey_action_of(state, chord) != Action::Toggle(ModeId::Maintenance),
{
    lemma_menu_ids_select_their_actions();
}

} // verus!
