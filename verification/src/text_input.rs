//! The context menu of a text input: its four entries (Cut, Copy, Paste,
//! Select All), when each of them can be chosen, how a right-click opens the
//! menu, and the keyboard shortcut that carries a chosen entry out.

use crate::context_menu::{entry_views, spec_opened, Entry, EntryView, State};
use crate::keyboard::{command_modifiers, CTRL, LOGO};
use iced_core::Point;
use vstd::prelude::*;

verus! {

/// A single entry of the menu of a text input.
#[derive(Debug, Clone, Copy, PartialEq, Eq, Structural)]
pub enum Action {
    Cut,
    Copy,
    Paste,
    SelectAll,
}

/// The number of entries of the menu.
pub const ACTION_COUNT: usize = 4;

/// The entry at `index` of the menu, in the order Cut, Copy, Paste,
/// Select All.
pub open spec fn spec_action_at(index: int) -> Option<Action> {
    if index == 0 {
        Some(Action::Cut)
    } else if index == 1 {
        Some(Action::Copy)
    } else if index == 2 {
        Some(Action::Paste)
    } else if index == 3 {
        Some(Action::SelectAll)
    } else {
        None
    }
}

/// The physical key of a shortcut.
#[derive(Debug, Clone, Copy, PartialEq, Eq, Structural)]
pub enum KeyCode {
    KeyX,
    KeyC,
    KeyV,
    KeyA,
}

impl Action {
    /// The label shown for the entry.
    pub open spec fn spec_label(self) -> Seq<char> {
        match self {
            Action::Cut => "Cut"@,
            Action::Copy => "Copy"@,
            Action::Paste => "Paste"@,
            Action::SelectAll => "Select All"@,
        }
    }

    /// The latin character of the shortcut that carries the entry out.
    pub open spec fn spec_character(self) -> Seq<char> {
        match self {
            Action::Cut => "x"@,
            Action::Copy => "c"@,
            Action::Paste => "v"@,
            Action::SelectAll => "a"@,
        }
    }

    /// The physical key of that shortcut.
    pub open spec fn spec_code(self) -> KeyCode {
        match self {
            Action::Cut => KeyCode::KeyX,
            Action::Copy => KeyCode::KeyC,
            Action::Paste => KeyCode::KeyV,
            Action::SelectAll => KeyCode::KeyA,
        }
    }

    /// Whether the entry can be chosen for an input holding `value`: nothing
    /// can be cut, copied or selected in an empty input, and a secure input
    /// refuses to be cut or copied; pasting is always possible.
    pub open spec fn spec_is_enabled(self, value: Seq<char>, is_secure: bool) -> bool {
        match self {
            Action::Cut => value.len() > 0 && !is_secure,
            Action::Copy => value.len() > 0 && !is_secure,
            Action::Paste => true,
            Action::SelectAll => value.len() > 0,
        }
    }

    /// Returns the entry at `index` of the menu, if there is one.
    pub fn at(index: usize) -> (action: Option<Action>)
        ensures
            action == spec_action_at(index as int),
    {
        match index {
            0 => Some(Action::Cut),
            1 => Some(Action::Copy),
            2 => Some(Action::Paste),
            3 => Some(Action::SelectAll),
            _ => None,
        }
    }

    /// Returns the label of the entry.
    pub fn label(self) -> (label: &'static str)
        ensures
            label@ == self.spec_label(),
    {
        match self {
            Action::Cut => "Cut",
            Action::Copy => "Copy",
            Action::Paste => "Paste",
            Action::SelectAll => "Select All",
        }
    }

    /// Returns the latin character of the shortcut that triggers the entry in
    /// the wrapped input.
    pub fn character(self) -> (character: &'static str)
        ensures
            character@ == self.spec_character(),
    {
        match self {
            Action::Cut => "x",
            Action::Copy => "c",
            Action::Paste => "v",
            Action::SelectAll => "a",
        }
    }

    /// Returns the physical key of that shortcut.
    pub fn code(self) -> (code: KeyCode)
        ensures
            code == self.spec_code(),
    {
        match self {
            Action::Cut => KeyCode::KeyX,
            Action::Copy => KeyCode::KeyC,
            Action::Paste => KeyCode::KeyV,
            Action::SelectAll => KeyCode::KeyA,
        }
    }

    /// Returns whether the entry can be chosen for an input holding `value`.
    pub fn is_enabled(self, value: &str, is_secure: bool) -> (is_enabled: bool)
        ensures
            is_enabled == self.spec_is_enabled(value@, is_secure),
    {
        match self {
            Action::Cut | Action::Copy => !value.is_empty() && !is_secure,
            Action::Paste => true,
            Action::SelectAll => !value.is_empty(),
        }
    }
}

/// The entry at `index` of the menu of an input holding `value`.
pub open spec fn spec_menu_entry(index: int, value: Seq<char>, is_secure: bool) -> EntryView {
    let action = spec_action_at(index).unwrap();
    EntryView {
        label: action.spec_label(),
        is_enabled: action.spec_is_enabled(value, is_secure),
        is_dispatch: true,
    }
}

/// The menu of an input holding `value`: one entry per action, in order,
/// each handed back to the input when chosen.
pub open spec fn spec_menu_entries(value: Seq<char>, is_secure: bool) -> Seq<EntryView> {
    Seq::new(ACTION_COUNT as nat, |index: int| spec_menu_entry(index, value, is_secure))
}

/// Builds the menu of an input holding `value`.
pub fn menu_entries<'a, Message>(value: &str, is_secure: bool) -> (entries: Vec<Entry<'a, Message>>)
    ensures
        entries@.len() == ACTION_COUNT,
        entry_views(entries@) == spec_menu_entries(value@, is_secure),
{
    let mut entries: Vec<Entry<'a, Message>> = Vec::new();
    let mut index: usize = 0;
    while index < ACTION_COUNT
        invariant
            index <= ACTION_COUNT,
            entries@.len() == index,
            forall|i: int|
                0 <= i < index ==> #[trigger] entries@[i]@ == spec_menu_entry(i, value@, is_secure),
        decreases ACTION_COUNT - index,
    {
        let action = Action::at(index);
        if let Some(action) = action {
            let entry = Entry::dispatch(action.label()).enabled(action.is_enabled(value, is_secure));
            entries.push(entry);
        }
        index = index + 1;
    }
    assert(entry_views(entries@) =~= spec_menu_entries(value@, is_secure));
    entries
}

/// The settings of a text input that its menu depends on.
pub struct InputConfig {
    /// The value the input holds.
    pub value: String,
    /// Whether the input accepts input; an input that does not has no menu
    /// either.
    pub is_enabled: bool,
    /// Whether the input hides its value, as a password input does.
    pub is_secure: bool,
    /// Whether a right-click opens the menu.
    pub has_context_menu: bool,
}

impl InputConfig {
    /// Creates the settings of an input holding `value`: it does not accept
    /// input until [`InputConfig::on_input`] is called, is not secure, and
    /// has its menu enabled.
    pub fn new(value: &str) -> (config: Self)
        ensures
            config.value@ == value@,
            !config.is_enabled,
            !config.is_secure,
            config.has_context_menu,
    {
        InputConfig {
            value: value.to_owned(),
            is_enabled: false,
            is_secure: false,
            has_context_menu: true,
        }
    }

    /// Makes the input accept input, which enables its menu too.
    pub fn on_input(self) -> (config: Self)
        ensures
            config == (InputConfig { is_enabled: true, ..self }),
    {
        let mut config = self;
        config.is_enabled = true;
        config
    }

    /// Makes the input secure or not; a secure input offers neither Cut nor
    /// Copy.
    pub fn secure(self, is_secure: bool) -> (config: Self)
        ensures
            config == (InputConfig { is_secure, ..self }),
    {
        let mut config = self;
        config.is_secure = is_secure;
        config
    }

    /// Enables or disables the menu.
    pub fn context_menu(self, has_context_menu: bool) -> (config: Self)
        ensures
            config == (InputConfig { has_context_menu, ..self }),
    {
        let mut config = self;
        config.has_context_menu = has_context_menu;
        config
    }
}

/// The persistent state of a text input with a context menu.
pub struct InputState {
    /// The state of the menu.
    pub menu: State,
    /// The modifiers the user holds, as the bits of `iced`'s modifiers; a
    /// chosen entry gives them back after faking its own shortcut.
    pub keyboard_modifiers: u32,
    /// The bit of the command key of the platform, read once when the state
    /// is created; a chosen entry holds it while it presses its key.
    pub command_key: u32,
}

impl InputState {
    /// Creates the state of an input whose menu is closed and with no
    /// modifier held; the command key is the one `iced` names for the
    /// platform.
    pub fn new() -> (state: Self)
        ensures
            state.menu@ is None,
            state.keyboard_modifiers == 0,
            state.command_key == CTRL || state.command_key == LOGO,
    {
        InputState { menu: State::new(), keyboard_modifiers: 0, command_key: command_modifiers() }
    }
}

impl Default for InputState {
    fn default() -> (state: Self)
        ensures
            state.menu@ is None,
            state.keyboard_modifiers == 0,
            state.command_key == CTRL || state.command_key == LOGO,
    {
        InputState::new()
    }
}

/// An event, as the menu of a text input sees it.
pub enum InputEvent {
    /// The keyboard modifiers changed to these bits.
    ModifiersChanged(u32),
    /// The right button was pressed; the pointer's position is given when it
    /// is over the input.
    RightPressed(Option<Point>),
    /// Anything else.
    Other,
}

/// What a text input does with an event.
#[verifier::reject_recursive_types(Message)]
pub enum InputReaction<Message> {
    /// Hand the event to the wrapped input.
    Forward,
    /// Open the menu with these entries, capture the event and ask for a
    /// redraw. When `replay_click` is set, the wrapped input first receives a
    /// left click at the pointer, which focuses it and places the caret.
    OpenMenu { replay_click: bool, entries: Vec<Entry<'static, Message>> },
}

/// Whether a right-click at `over` opens the menu: the menu must be enabled,
/// the input must accept input, and the pointer must be over the input.
pub open spec fn spec_opens_menu(has_context_menu: bool, is_enabled: bool, over: Option<Point>) -> bool {
    has_context_menu && is_enabled && over is Some
}

/// Answers an event. The modifiers are remembered; a right-click over an
/// input that accepts input and has its menu enabled opens the menu, with a
/// click replayed first on an unfocused input (a focused one keeps its
/// selection); every other event is left to the wrapped input.
pub fn update<Message>(
    state: &mut InputState,
    event: InputEvent,
    config: &InputConfig,
    is_focused: bool,
) -> (reaction: InputReaction<Message>)
    ensures
        final(state).command_key == old(state).command_key,
        match event {
            InputEvent::ModifiersChanged(bits) => {
                &&& final(state).keyboard_modifiers == bits
                &&& final(state).menu@ == old(state).menu@
                &&& reaction is Forward
            },
            InputEvent::RightPressed(over) => {
                &&& final(state).keyboard_modifiers == old(state).keyboard_modifiers
                &&& if spec_opens_menu(config.has_context_menu, config.is_enabled, over) {
                    &&& final(state).menu@ == spec_opened(over.unwrap())
                    &&& reaction matches InputReaction::OpenMenu { replay_click, entries } && {
                        &&& replay_click == !is_focused
                        &&& entry_views(entries@) == spec_menu_entries(
                            config.value@,
                            config.is_secure,
                        )
                    }
                } else {
                    &&& final(state).menu@ == old(state).menu@
                    &&& reaction is Forward
                }
            },
            InputEvent::Other => {
                &&& final(state).keyboard_modifiers == old(state).keyboard_modifiers
                &&& final(state).menu@ == old(state).menu@
                &&& reaction is Forward
            },
        },
{
    match event {
        InputEvent::ModifiersChanged(bits) => {
            state.keyboard_modifiers = bits;
            InputReaction::Forward
        },
        InputEvent::RightPressed(over) => {
            if config.has_context_menu && config.is_enabled {
                if let Some(position) = over {
                    let entries = menu_entries(config.value.as_str(), config.is_secure);
                    state.menu.open(position);
                    return InputReaction::OpenMenu { replay_click: !is_focused, entries };
                }
            }
            InputReaction::Forward
        },
        InputEvent::Other => InputReaction::Forward,
    }
}

/// The keyboard shortcut that carries out a chosen entry: press the command
/// modifiers, press the key of `action` with them, then give the user their
/// own modifiers back.
pub struct Shortcut {
    pub action: Action,
    /// The modifiers held while the key is pressed.
    pub modifiers: u32,
    /// The modifiers given back afterwards.
    pub restore: u32,
}

/// Returns the shortcut of the entry at `index`, if there is one, for a user
/// holding the modifiers `user_modifiers` on a platform whose command key is
/// `command_key`.
pub fn shortcut(index: usize, user_modifiers: u32, command_key: u32) -> (shortcut: Option<Shortcut>)
    ensures
        match spec_action_at(index as int) {
            None => shortcut is None,
            Some(action) => shortcut matches Some(s) && {
                &&& s.action == action
                &&& s.modifiers == command_key
                &&& s.restore == user_modifiers
            },
        },
{
    match Action::at(index) {
        None => None,
        Some(action) => Some(
            Shortcut { action, modifiers: command_key, restore: user_modifiers },
        ),
    }
}

/// A secure input never offers to cut or copy its value, whatever it holds.
pub proof fn secure_input_offers_neither_cut_nor_copy(value: Seq<char>)
    ensures
        !spec_menu_entries(value, true)[0].is_enabled,
        !spec_menu_entries(value, true)[1].is_enabled,
{
}

/// Pasting is always offered, and an empty input offers nothing else.
pub proof fn an_empty_input_only_offers_paste(value: Seq<char>, is_secure: bool, index: int)
    requires
        0 <= index < ACTION_COUNT,
    ensures
        spec_menu_entries(value, is_secure)[2].is_enabled,
        value.len() == 0 ==> (spec_menu_entries(value, is_secure)[index].is_enabled <==> index
            == 2),
{
}

/// An input that does not accept input has no menu: a right-click on it is
/// left to the input, wherever it lands.
pub proof fn a_disabled_input_has_no_menu(has_context_menu: bool, over: Option<Point>)
    ensures
        !spec_opens_menu(has_context_menu, false, over),
{
}

/// Choosing the entry at `index` carries out the shortcut of the very action
/// whose label that entry shows.
pub proof fn entries_and_shortcuts_agree(value: Seq<char>, is_secure: bool, index: int)
    requires
        0 <= index < ACTION_COUNT,
    ensures
        spec_action_at(index) is Some,
        spec_menu_entries(value, is_secure)[index].label == spec_action_at(index).unwrap().spec_label(),
{
}

} // verus!
