//! The interaction of a piece of selectable text: focus, dragging, the
//! keyboard shortcuts that select and copy, and the right-click menu.
//!
//! The text only ever asks its editor for selection and copying, never for
//! an edit, which is what keeps it read-only.

use crate::context_menu::{entry_views, spec_opened, Entry, EntryView, State, StateView};
use crate::keyboard::{command_modifiers, holds, CTRL, LOGO};
use iced_core::Point;
use vstd::prelude::*;

verus! {

/// How many clicks in a row a press completes.
#[derive(Debug, Clone, Copy, PartialEq, Eq, Structural)]
pub enum ClickKind {
    Single,
    Double,
    Triple,
}

/// What the text asks of its editor.
#[derive(Debug, Clone, Copy, PartialEq, Eq, Structural)]
pub enum EditorCommand {
    /// Nothing.
    Nothing,
    /// Place the cursor where the pointer is.
    Click,
    /// Select the word under the pointer.
    SelectWord,
    /// Select the line under the pointer.
    SelectLine,
    /// Extend the selection to where the pointer is.
    Drag,
    /// Select everything.
    SelectAll,
    /// Copy the selection, if any, to the clipboard.
    Copy,
}

/// The editor command of a press with the given number of clicks.
pub open spec fn spec_click_command(kind: ClickKind) -> EditorCommand {
    match kind {
        ClickKind::Single => EditorCommand::Click,
        ClickKind::Double => EditorCommand::SelectWord,
        ClickKind::Triple => EditorCommand::SelectLine,
    }
}

/// An event, as the selectable text sees it.
pub enum TextEvent {
    /// The keyboard modifiers changed to these bits.
    ModifiersChanged(u32),
    /// The right button was pressed. The pointer's position is given when it
    /// is over the text; `has_selection` and `has_text` tell whether
    /// something is selected and whether there is any text at all.
    RightPressed { over: Option<Point>, has_selection: bool, has_text: bool },
    /// The left button was pressed or the screen touched: on the text, with
    /// the kind of click it completes, or elsewhere.
    Pressed(Option<ClickKind>),
    /// The pointer or the finger moved.
    Moved,
    /// The left button was released or the finger lifted or lost.
    Released,
    /// A key was pressed: its latin character, if any, and whether it is the
    /// escape key.
    KeyPressed { latin: Option<char>, escape: bool },
    /// The window lost the focus.
    WindowUnfocused,
    /// Anything else.
    Other,
}

/// The persistent state of a selectable text.
pub struct TextState {
    pub is_focused: bool,
    pub is_dragging: bool,
    /// The modifiers the user holds, as the bits of `iced`'s modifiers.
    pub keyboard_modifiers: u32,
    /// The bit of the command key of the platform, read once when the state
    /// is created.
    pub command_key: u32,
    /// The state of the context menu.
    pub menu: State,
}

/// A [`TextState`], as a value.
pub struct TextStateView {
    pub is_focused: bool,
    pub is_dragging: bool,
    pub keyboard_modifiers: u32,
    pub command_key: u32,
    pub menu: StateView,
}

impl View for TextState {
    type V = TextStateView;

    open spec fn view(&self) -> TextStateView {
        TextStateView {
            is_focused: self.is_focused,
            is_dragging: self.is_dragging,
            keyboard_modifiers: self.keyboard_modifiers,
            command_key: self.command_key,
            menu: self.menu@,
        }
    }
}

impl TextState {
    /// Creates the state of an unfocused text, with no modifier held and its
    /// menu closed; the command key is the one `iced` names for the platform.
    pub fn new() -> (state: Self)
        ensures
            !state@.is_focused,
            !state@.is_dragging,
            state@.keyboard_modifiers == 0,
            state@.command_key == CTRL || state@.command_key == LOGO,
            state@.menu is None,
    {
        TextState {
            is_focused: false,
            is_dragging: false,
            keyboard_modifiers: 0,
            command_key: command_modifiers(),
            menu: State::new(),
        }
    }
}

impl Default for TextState {
    fn default() -> (state: Self)
        ensures
            !state@.is_focused,
            !state@.is_dragging,
            state@.keyboard_modifiers == 0,
            state@.command_key == CTRL || state@.command_key == LOGO,
            state@.menu is None,
    {
        TextState::new()
    }
}

/// The menu of a selectable text: Copy, which needs a selection, and
/// Select All, which needs some text; both are handed back to the text.
pub open spec fn spec_menu_entries(has_selection: bool, has_text: bool) -> Seq<EntryView> {
    seq![
        EntryView { label: "Copy"@, is_enabled: has_selection, is_dispatch: true },
        EntryView { label: "Select All"@, is_enabled: has_text, is_dispatch: true },
    ]
}

/// Builds the menu of a selectable text.
pub fn menu_entries<'a, Message>(has_selection: bool, has_text: bool) -> (entries: Vec<Entry<'a, Message>>)
    ensures
        entries@.len() == 2,
        entry_views(entries@) == spec_menu_entries(has_selection, has_text),
{
    let mut entries: Vec<Entry<'a, Message>> = Vec::new();
    entries.push(Entry::dispatch("Copy").enabled(has_selection));
    entries.push(Entry::dispatch("Select All").enabled(has_text));
    assert(entry_views(entries@) =~= spec_menu_entries(has_selection, has_text));
    entries
}

/// The editor command carried out by the menu entry at `index`.
pub open spec fn spec_dispatched(index: usize) -> EditorCommand {
    if index == 0 {
        EditorCommand::Copy
    } else if index == 1 {
        EditorCommand::SelectAll
    } else {
        EditorCommand::Nothing
    }
}

/// Returns the editor command carried out by the menu entry at `index`.
pub fn dispatched(index: usize) -> (command: EditorCommand)
    ensures
        command == spec_dispatched(index),
{
    match index {
        0 => EditorCommand::Copy,
        1 => EditorCommand::SelectAll,
        _ => EditorCommand::Nothing,
    }
}

/// What an event does to a selectable text, as values.
pub struct TextStep {
    pub state: TextStateView,
    pub editor: EditorCommand,
    pub capture: bool,
    pub redraw: bool,
    /// The entries of the menu, when the event opens it.
    pub menu_entries: Option<Seq<EntryView>>,
}

/// The answer of a text in state `s` to `event`, with its menu enabled or
/// not, and with the command key held or not.
pub open spec fn spec_text_step(s: TextStateView, event: TextEvent, context_menu: bool, command: bool) -> TextStep {
    let unchanged = TextStep {
        state: s,
        editor: EditorCommand::Nothing,
        capture: false,
        redraw: false,
        menu_entries: None,
    };
    match event {
        TextEvent::ModifiersChanged(bits) => TextStep {
            state: TextStateView { keyboard_modifiers: bits, ..s },
            ..unchanged
        },
        TextEvent::RightPressed { over, has_selection, has_text } => {
            if context_menu && over is Some {
                TextStep {
                    state: TextStateView { menu: spec_opened(over.unwrap()), ..s },
                    capture: true,
                    redraw: true,
                    menu_entries: Some(spec_menu_entries(has_selection, has_text)),
                    ..unchanged
                }
            } else {
                unchanged
            }
        },
        // A press elsewhere takes the focus away but keeps the selection.
        TextEvent::Pressed(None) => TextStep {
            state: TextStateView { is_focused: false, is_dragging: false, ..s },
            ..unchanged
        },
        TextEvent::Pressed(Some(kind)) => TextStep {
            state: TextStateView { is_focused: true, is_dragging: true, menu: None, ..s },
            editor: spec_click_command(kind),
            capture: true,
            redraw: true,
            menu_entries: None,
        },
        TextEvent::Moved => if s.is_dragging {
            TextStep { editor: EditorCommand::Drag, capture: true, redraw: true, ..unchanged }
        } else {
            unchanged
        },
        TextEvent::Released => TextStep {
            state: TextStateView { is_dragging: false, ..s },
            ..unchanged
        },
        TextEvent::KeyPressed { latin, escape } => {
            if !s.is_focused {
                unchanged
            } else if command {
                if latin == Some('c') {
                    TextStep { editor: EditorCommand::Copy, capture: true, ..unchanged }
                } else if latin == Some('a') {
                    TextStep {
                        editor: EditorCommand::SelectAll,
                        capture: true,
                        redraw: true,
                        ..unchanged
                    }
                } else {
                    unchanged
                }
            } else if escape {
                TextStep {
                    state: TextStateView { is_focused: false, ..s },
                    redraw: true,
                    ..unchanged
                }
            } else {
                unchanged
            }
        },
        TextEvent::WindowUnfocused => TextStep {
            state: TextStateView { is_focused: false, ..s },
            ..unchanged
        },
        TextEvent::Other => unchanged,
    }
}

/// What an event does to a selectable text.
#[verifier::reject_recursive_types(Message)]
pub struct TextResponse<Message> {
    /// What to ask of the editor; a click, a word, a line or a drag is taken
    /// at the pointer.
    pub editor: EditorCommand,
    /// Whether the event stops at the text.
    pub capture: bool,
    /// Whether the text has to be drawn again.
    pub redraw: bool,
    /// The entries of the menu, when the event opens it.
    pub menu_entries: Option<Vec<Entry<'static, Message>>>,
}

/// Whether `state` and `response` are what `step` describes.
pub open spec fn follows<Message>(state: TextStateView, response: TextResponse<Message>, step: TextStep) -> bool {
    &&& state == step.state
    &&& response.editor == step.editor
    &&& response.capture == step.capture
    &&& response.redraw == step.redraw
    &&& match (response.menu_entries, step.menu_entries) {
        (None, None) => true,
        (Some(entries), Some(views)) => entry_views(entries@) == views,
        _ => false,
    }
}

/// Answers an event, knowing whether the command key is held.
pub fn update_with<Message>(state: &mut TextState, event: TextEvent, context_menu: bool, command: bool) -> (response:
    TextResponse<Message>)
    ensures
        follows(final(state)@, response, spec_text_step(old(state)@, event, context_menu, command)),
{
    let mut response = TextResponse {
        editor: EditorCommand::Nothing,
        capture: false,
        redraw: false,
        menu_entries: None,
    };
    match event {
        TextEvent::ModifiersChanged(bits) => {
            state.keyboard_modifiers = bits;
        },
        TextEvent::RightPressed { over, has_selection, has_text } => {
            if context_menu {
                if let Some(position) = over {
                    response.menu_entries = Some(menu_entries(has_selection, has_text));
                    state.menu.open(position);
                    response.capture = true;
                    response.redraw = true;
                }
            }
        },
        TextEvent::Pressed(None) => {
            state.is_focused = false;
            state.is_dragging = false;
        },
        TextEvent::Pressed(Some(kind)) => {
            state.is_focused = true;
            state.is_dragging = true;
            state.menu.close();
            response.editor =
                match kind {
                    ClickKind::Single => EditorCommand::Click,
                    ClickKind::Double => EditorCommand::SelectWord,
                    ClickKind::Triple => EditorCommand::SelectLine,
                };
            response.capture = true;
            response.redraw = true;
        },
        TextEvent::Moved => {
            if state.is_dragging {
                response.editor = EditorCommand::Drag;
                response.capture = true;
                response.redraw = true;
            }
        },
        TextEvent::Released => {
            state.is_dragging = false;
        },
        TextEvent::KeyPressed { latin, escape } => {
            if state.is_focused {
                if command {
                    if latin == Some('c') {
                        response.editor = EditorCommand::Copy;
                        response.capture = true;
                    } else if latin == Some('a') {
                        response.editor = EditorCommand::SelectAll;
                        response.capture = true;
                        response.redraw = true;
                    }
                } else if escape {
                    state.is_focused = false;
                    response.redraw = true;
                }
            }
        },
        TextEvent::WindowUnfocused => {
            state.is_focused = false;
        },
        TextEvent::Other => {},
    }
    response
}

/// Answers an event, the command key being held when its bit is among the
/// remembered modifiers.
pub fn update<Message>(state: &mut TextState, event: TextEvent, context_menu: bool) -> (response:
    TextResponse<Message>)
    ensures
        follows(
            final(state)@,
            response,
            spec_text_step(
                old(state)@,
                event,
                context_menu,
                holds(old(state).keyboard_modifiers, old(state).command_key),
            ),
        ),
{
    let command = state.keyboard_modifiers & state.command_key != 0;
    update_with(state, event, context_menu, command)
}

/// The text reacts to the keyboard only while it is focused: an unfocused
/// text lets every key through and changes nothing.
pub proof fn an_unfocused_text_ignores_keys(
    s: TextStateView,
    latin: Option<char>,
    escape: bool,
    context_menu: bool,
    command: bool,
)
    requires
        !s.is_focused,
    ensures
        spec_text_step(s, TextEvent::KeyPressed { latin, escape }, context_menu, command) == (TextStep {
            state: s,
            editor: EditorCommand::Nothing,
            capture: false,
            redraw: false,
            menu_entries: None,
        }),
{
}

/// A press elsewhere takes the focus away but keeps the selection: the editor
/// is left alone and the press goes on to whatever is under it.
pub proof fn a_press_elsewhere_keeps_the_selection(s: TextStateView, context_menu: bool, command: bool)
    ensures
        ({
            let step = spec_text_step(s, TextEvent::Pressed(None), context_menu, command);
            &&& !step.state.is_focused
            &&& !step.state.is_dragging
            &&& step.editor == EditorCommand::Nothing
            &&& !step.capture
        }),
{
}

/// A press on the text focuses it, closes its menu and is kept by the text.
pub proof fn a_press_on_the_text_focuses_it(s: TextStateView, kind: ClickKind, context_menu: bool, command: bool)
    ensures
        ({
            let step = spec_text_step(s, TextEvent::Pressed(Some(kind)), context_menu, command);
            &&& step.state.is_focused
            &&& step.state.menu is None
            &&& step.capture
        }),
{
}

/// With its menu disabled, the text lets a right-click through untouched.
pub proof fn a_disabled_menu_never_opens(
    s: TextStateView,
    over: Option<Point>,
    has_selection: bool,
    has_text: bool,
    command: bool,
)
    ensures
        spec_text_step(
            s,
            TextEvent::RightPressed { over, has_selection, has_text },
            false,
            command,
        ).state == s,
        !spec_text_step(
            s,
            TextEvent::RightPressed { over, has_selection, has_text },
            false,
            command,
        ).capture,
{
}

/// A right-click on the text, with its menu enabled, opens a menu of two
/// entries handed back to the text: Copy, which can be chosen exactly when
/// something is selected, and Select All, which can be chosen exactly when
/// there is some text.
pub proof fn copy_needs_a_selection_and_select_all_some_text(
    s: TextStateView,
    over: Point,
    has_selection: bool,
    has_text: bool,
    command: bool,
)
    ensures
        ({
            let step = spec_text_step(
                s,
                TextEvent::RightPressed { over: Some(over), has_selection, has_text },
                true,
                command,
            );
            &&& step.capture
            &&& step.menu_entries matches Some(menu) && {
                &&& menu.len() == 2
                &&& menu[0].label == "Copy"@
                &&& menu[0].is_enabled == has_selection
                &&& menu[0].is_dispatch
                &&& menu[1].label == "Select All"@
                &&& menu[1].is_enabled == has_text
                &&& menu[1].is_dispatch
            }
        }),
{
}

} // verus!
