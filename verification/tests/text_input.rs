use iced_component::context_menu::{self, MenuEvent, Outcome, Hit};
use iced_component::keyboard::{CTRL, LOGO};
use iced_component::text_input::{
    self, Action, InputConfig, InputEvent, InputReaction, InputState, KeyCode, ACTION_COUNT,
};
use iced_core::Point;

const SHIFT: u32 = 0b100;

fn config(value: &str, has_context_menu: bool, is_enabled: bool, is_secure: bool) -> InputConfig {
    let config = InputConfig::new(value)
        .context_menu(has_context_menu)
        .secure(is_secure);

    if is_enabled {
        config.on_input()
    } else {
        config
    }
}

#[test]
fn a_new_input_is_disabled_until_it_accepts_input() {
    let config = InputConfig::new("hello");

    assert_eq!(config.value, "hello");
    assert!(!config.is_enabled);
    assert!(!config.is_secure);
    assert!(config.has_context_menu);

    let mut state = InputState::new();
    let reaction: InputReaction<()> = text_input::update(
        &mut state,
        InputEvent::RightPressed(Some(Point::new(1.0, 1.0))),
        &config,
        false,
    );

    assert!(matches!(reaction, InputReaction::Forward));
    assert!(config.on_input().is_enabled);
}

fn labels_and_flags(value: &str, is_secure: bool) -> Vec<(String, bool)> {
    text_input::menu_entries::<()>(value, is_secure)
        .iter()
        .map(|entry| (entry.label().to_string(), entry.is_enabled()))
        .collect()
}

#[test]
fn actions_come_in_menu_order() {
    assert_eq!(Action::at(0), Some(Action::Cut));
    assert_eq!(Action::at(1), Some(Action::Copy));
    assert_eq!(Action::at(2), Some(Action::Paste));
    assert_eq!(Action::at(3), Some(Action::SelectAll));
    assert_eq!(Action::at(ACTION_COUNT), None);
}

#[test]
fn actions_have_labels_characters_and_keys() {
    assert_eq!(Action::Cut.label(), "Cut");
    assert_eq!(Action::SelectAll.label(), "Select All");
    assert_eq!(Action::Cut.character(), "x");
    assert_eq!(Action::Copy.character(), "c");
    assert_eq!(Action::Paste.character(), "v");
    assert_eq!(Action::SelectAll.character(), "a");
    assert_eq!(Action::Cut.code(), KeyCode::KeyX);
    assert_eq!(Action::Paste.code(), KeyCode::KeyV);
}

#[test]
fn the_menu_of_a_filled_input_offers_everything() {
    assert_eq!(
        labels_and_flags("hello world", false),
        vec![
            ("Cut".to_string(), true),
            ("Copy".to_string(), true),
            ("Paste".to_string(), true),
            ("Select All".to_string(), true),
        ]
    );
}

#[test]
fn a_secure_input_offers_neither_cut_nor_copy() {
    assert_eq!(
        labels_and_flags("hunter2", true),
        vec![
            ("Cut".to_string(), false),
            ("Copy".to_string(), false),
            ("Paste".to_string(), true),
            ("Select All".to_string(), true),
        ]
    );
}

#[test]
fn an_empty_input_only_offers_paste() {
    let flags: Vec<bool> =
        labels_and_flags("", false).into_iter().map(|(_, f)| f).collect();

    assert_eq!(flags, vec![false, false, true, false]);
}

#[test]
fn cutting_a_secure_value_through_the_menu_does_nothing() {
    let mut state = InputState::new();

    let reaction: InputReaction<()> = text_input::update(
        &mut state,
        InputEvent::RightPressed(Some(Point::new(10.0, 10.0))),
        &config("hunter2", true, true, true),
        false,
    );

    let InputReaction::OpenMenu { entries, .. } = reaction else {
        panic!("a right-click should open the menu");
    };

    let response = context_menu::update(
        &mut state.menu,
        &entries,
        MenuEvent::LeftPressed(Some(Hit { inside: true, row: 0 })),
    );

    assert!(matches!(response.outcome, Outcome::Nothing));
}

#[test]
fn a_right_click_opens_the_menu_and_replays_a_click_on_an_unfocused_input() {
    let mut state = InputState::new();
    let at = Point::new(10.0, 10.0);

    let reaction: InputReaction<()> = text_input::update(
        &mut state,
        InputEvent::RightPressed(Some(at)),
        &config("hello", true, true, false),
        false,
    );

    match reaction {
        InputReaction::OpenMenu {
            replay_click,
            entries,
        } => {
            assert!(replay_click);
            assert_eq!(entries.len(), 4);
        }
        InputReaction::Forward => panic!("the menu should open"),
    }

    assert_eq!(state.menu.position(), Some(at));
}

#[test]
fn a_focused_input_keeps_its_selection() {
    let mut state = InputState::new();

    let reaction: InputReaction<()> = text_input::update(
        &mut state,
        InputEvent::RightPressed(Some(Point::new(1.0, 1.0))),
        &config("hello", true, true, false),
        true,
    );

    assert!(matches!(
        reaction,
        InputReaction::OpenMenu {
            replay_click: false,
            ..
        }
    ));
}

#[test]
fn a_disabled_menu_or_input_forwards_the_right_click() {
    for (has_menu, is_enabled) in [(false, true), (true, false)] {
        let mut state = InputState::new();

        let reaction: InputReaction<()> = text_input::update(
            &mut state,
            InputEvent::RightPressed(Some(Point::new(1.0, 1.0))),
            &config("hello", has_menu, is_enabled, false),
            false,
        );

        assert!(matches!(reaction, InputReaction::Forward));
        assert!(!state.menu.is_open());
    }

    let mut state = InputState::new();
    let reaction: InputReaction<()> = text_input::update(
        &mut state,
        InputEvent::RightPressed(None),
        &config("hello", true, true, false),
        false,
    );

    assert!(matches!(reaction, InputReaction::Forward));
}

#[test]
fn modifiers_are_remembered_and_given_back() {
    let mut state = InputState::default();

    let reaction: InputReaction<()> = text_input::update(
        &mut state,
        InputEvent::ModifiersChanged(SHIFT),
        &config("", true, true, false),
        false,
    );

    assert!(matches!(reaction, InputReaction::Forward));
    assert_eq!(state.keyboard_modifiers, SHIFT);

    let shortcut = text_input::shortcut(0, state.keyboard_modifiers, state.command_key).expect("Cut has a shortcut");

    assert_eq!(shortcut.action, Action::Cut);
    assert_eq!(shortcut.restore, SHIFT);
    assert!(shortcut.modifiers == CTRL || shortcut.modifiers == LOGO);
    assert_eq!(shortcut.modifiers, state.command_key);
    assert_eq!(
        shortcut.modifiers,
        iced_core::keyboard::Modifiers::COMMAND.bits()
    );

    assert_eq!(text_input::shortcut(3, 0, CTRL).map(|s| s.action), Some(Action::SelectAll));
    assert_eq!(text_input::shortcut(3, 0, CTRL).map(|s| s.restore), Some(0));
    assert!(text_input::shortcut(4, SHIFT, CTRL).is_none());
}

#[test]
fn each_entry_replays_the_shortcut_of_its_own_action() {
    let entries = text_input::menu_entries::<()>("hello", false);

    for (index, entry) in entries.iter().enumerate() {
        let shortcut = text_input::shortcut(index, 0, LOGO).expect("every entry has a shortcut");

        assert_eq!(entry.label(), shortcut.action.label());
        assert_eq!(shortcut.modifiers, LOGO);
    }
}

#[test]
fn a_secure_input_disables_cut_and_copy() {
    let config = InputConfig::new("hunter2").secure(true).on_input();
    let mut state = InputState::new();
    let inside = Point::new(10.0, 10.0);

    // Select All is handed back to the input, which replays its shortcut.
    let InputReaction::<()>::OpenMenu { entries, .. } =
        text_input::update(&mut state, InputEvent::RightPressed(Some(inside)), &config, false)
    else {
        panic!("a right-click should open the context menu");
    };

    let response = context_menu::update(
        &mut state.menu,
        &entries,
        MenuEvent::LeftPressed(Some(Hit { inside: true, row: 3 })),
    );

    assert!(matches!(response.outcome, Outcome::Dispatch(3)));
    assert!(!state.menu.is_open());

    // Cut is disabled: choosing it does nothing.
    let InputReaction::<()>::OpenMenu { entries, .. } =
        text_input::update(&mut state, InputEvent::RightPressed(Some(inside)), &config, true)
    else {
        panic!("a right-click should open the context menu");
    };

    let response = context_menu::update(
        &mut state.menu,
        &entries,
        MenuEvent::LeftPressed(Some(Hit { inside: true, row: 0 })),
    );

    assert!(
        matches!(response.outcome, Outcome::Nothing),
        "cutting a secure value should do nothing"
    );
}

#[test]
fn context_menu_the_context_menu_can_be_disabled() {
    let config = InputConfig::new("hello").context_menu(false).on_input();
    let mut state = InputState::new();

    let reaction: InputReaction<()> = text_input::update(
        &mut state,
        InputEvent::RightPressed(Some(Point::new(10.0, 10.0))),
        &config,
        false,
    );

    assert!(
        matches!(reaction, InputReaction::Forward),
        "a disabled context menu should not capture the right-click"
    );
    assert!(!state.menu.is_open());

    // Nothing was opened, so clicking where a menu item would be does nothing.
    let entries = text_input::menu_entries::<()>("hello", false);
    let response = context_menu::update(
        &mut state.menu,
        &entries,
        MenuEvent::LeftPressed(Some(Hit { inside: true, row: 0 })),
    );

    assert!(!response.capture);
    assert!(
        matches!(response.outcome, Outcome::Nothing),
        "a disabled context menu should not produce messages"
    );
}

/// Right-clicks the input at (10, 10) and returns the entries of the menu.
fn open_menu(
    state: &mut InputState,
    config: &InputConfig,
    is_focused: bool,
) -> Vec<iced_component::Entry<'static, ()>> {
    match text_input::update(
        state,
        InputEvent::RightPressed(Some(Point::new(10.0, 10.0))),
        config,
        is_focused,
    ) {
        InputReaction::OpenMenu { replay_click, entries } => {
            assert_eq!(replay_click, !is_focused);
            entries
        }
        InputReaction::Forward => panic!("a right-click should open the context menu"),
    }
}

/// Clicks the entry in `row` of the open menu and returns the shortcut it
/// replays.
fn choose_row(state: &mut InputState, entries: &[iced_component::Entry<'static, ()>], row: usize) -> Action {
    let response = context_menu::update(
        &mut state.menu,
        entries,
        MenuEvent::LeftPressed(Some(Hit { inside: true, row })),
    );

    assert!(response.capture);
    assert!(!state.menu.is_open());

    let Outcome::Dispatch(index) = response.outcome else {
        panic!("the entries of a text input are handed back to it");
    };

    let shortcut = text_input::shortcut(index, state.keyboard_modifiers, state.command_key)
        .expect("every entry has a shortcut");

    assert_eq!(shortcut.modifiers, state.command_key);
    assert_eq!(shortcut.restore, state.keyboard_modifiers);

    shortcut.action
}

#[test]
fn selecting_all_then_cutting_clears_the_input() {
    let config = InputConfig::new("hello world").on_input();
    let mut state = InputState::new();

    // "Select All" is the fourth entry; choosing it focuses the input.
    let entries = open_menu(&mut state, &config, false);
    assert_eq!(choose_row(&mut state, &entries, 3), Action::SelectAll);

    // The second right-click keeps the selection; "Cut" is the first entry.
    let entries = open_menu(&mut state, &config, true);
    assert_eq!(choose_row(&mut state, &entries, 0), Action::Cut);
}

#[test]
fn copy_does_not_change_the_value() {
    let config = InputConfig::new("hello world").on_input();
    let mut state = InputState::new();

    let entries = open_menu(&mut state, &config, false);
    assert_eq!(choose_row(&mut state, &entries, 3), Action::SelectAll);

    let entries = open_menu(&mut state, &config, true);
    assert_eq!(choose_row(&mut state, &entries, 1), Action::Copy);
    assert_eq!(config.value, "hello world");
}

#[test]
fn context_menu_clicking_outside_the_menu_closes_it() {
    let config = InputConfig::new("hello world").on_input();
    let mut state = InputState::new();

    let entries = open_menu(&mut state, &config, false);

    // A click far away dismisses the menu and reaches the input.
    let response = context_menu::update(
        &mut state.menu,
        &entries,
        MenuEvent::LeftPressed(Some(Hit { inside: false, row: 0 })),
    );

    assert!(!response.capture);
    assert!(matches!(response.outcome, Outcome::Nothing));
    assert!(!state.menu.is_open());

    // The menu opens again, and Select All then Cut still work.
    let entries = open_menu(&mut state, &config, false);
    assert_eq!(choose_row(&mut state, &entries, 3), Action::SelectAll);

    let entries = open_menu(&mut state, &config, true);
    assert_eq!(choose_row(&mut state, &entries, 0), Action::Cut);
}

#[test]
fn the_input_keeps_working_like_the_built_in_one() {
    let config = InputConfig::new("").on_input();
    let mut state = InputState::new();

    // Clicks, typing and modifier changes all go to the wrapped input.
    for event in [InputEvent::Other, InputEvent::ModifiersChanged(SHIFT), InputEvent::Other] {
        let reaction: InputReaction<()> = text_input::update(&mut state, event, &config, true);

        assert!(matches!(reaction, InputReaction::Forward));
    }

    assert!(!state.menu.is_open());
    assert_eq!(state.keyboard_modifiers, SHIFT);
}
