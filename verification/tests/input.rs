use todo_tui::config::{toggle, UiConfig};
use todo_tui::input::{action_of, dispatch, Action, Event, Flow, Key};
use todo_tui::todo::TodoList;

fn press(key: Key, config: &mut UiConfig, list: &mut TodoList) -> Flow {
    dispatch(Event::Key(key), config, list)
}

#[test]
fn toggle_flips_a_flag() {
    assert!(!toggle(true));
    assert!(toggle(false));
}

#[test]
fn config_starts_with_both_panels_shown() {
    assert_eq!(UiConfig::default(), UiConfig { projects: true, typebox: true });
}

#[test]
fn toggles_are_independent() {
    let mut config = UiConfig::default();
    config.toggle_projects();
    assert_eq!(config, UiConfig { projects: false, typebox: true });
    config.toggle_typebox();
    assert_eq!(config, UiConfig { projects: false, typebox: false });
    config.toggle_projects();
    assert_eq!(config, UiConfig { projects: true, typebox: false });
    config.toggle_typebox();
    assert_eq!(config, UiConfig { projects: true, typebox: true });
}

#[test]
fn each_key_has_its_action() {
    assert_eq!(action_of(Event::Key(Key::Esc)), Action::Quit);
    assert_eq!(action_of(Event::Key(Key::End)), Action::ToggleProjects);
    assert_eq!(action_of(Event::Key(Key::Home)), Action::ToggleTypebox);
    assert_eq!(action_of(Event::Key(Key::Down)), Action::Next);
    assert_eq!(action_of(Event::Key(Key::Up)), Action::Previous);
    assert_eq!(action_of(Event::Key(Key::Left)), Action::Unselect);
    assert_eq!(action_of(Event::Key(Key::Other)), Action::Ignore);
    assert_eq!(action_of(Event::Other), Action::Ignore);
}

#[test]
fn scenario_down_down_down_up_left_down() {
    let mut config = UiConfig::default();
    let mut list = TodoList::default();
    assert_eq!(list.len(), 6);
    assert_eq!(list.selected(), None);
    for _ in 0..3 {
        assert_eq!(press(Key::Down, &mut config, &mut list), Flow::Continue);
    }
    assert_eq!(list.selected(), Some(2));
    assert_eq!(press(Key::Up, &mut config, &mut list), Flow::Continue);
    assert_eq!(list.selected(), Some(1));
    assert_eq!(press(Key::Left, &mut config, &mut list), Flow::Continue);
    assert_eq!(list.selected(), None);
    assert_eq!(press(Key::Down, &mut config, &mut list), Flow::Continue);
    assert_eq!(list.selected(), Some(0));
    assert_eq!(config, UiConfig::default());
}

#[test]
fn scenario_end_twice_restores_side_panel() {
    let mut config = UiConfig::default();
    let mut list = TodoList::default();
    assert_eq!(press(Key::End, &mut config, &mut list), Flow::Continue);
    assert_eq!(config, UiConfig { projects: false, typebox: true });
    assert_eq!(press(Key::End, &mut config, &mut list), Flow::Continue);
    assert_eq!(config, UiConfig { projects: true, typebox: true });
    assert_eq!(list, TodoList::default());
}

#[test]
fn home_toggles_the_input_box_only() {
    let mut config = UiConfig::default();
    let mut list = TodoList::default();
    assert_eq!(press(Key::Home, &mut config, &mut list), Flow::Continue);
    assert_eq!(config, UiConfig { projects: true, typebox: false });
    assert_eq!(list, TodoList::default());
}

#[test]
fn escape_quits_and_changes_nothing() {
    let mut config = UiConfig { projects: false, typebox: true };
    let mut list = TodoList::default();
    list.next();
    let before = list.clone();
    assert_eq!(press(Key::Esc, &mut config, &mut list), Flow::Quit);
    assert_eq!(config, UiConfig { projects: false, typebox: true });
    assert_eq!(list, before);
}

#[test]
fn unbound_key_and_other_events_are_ignored() {
    let mut config = UiConfig::default();
    let mut list = TodoList::default();
    list.next();
    let before = list.clone();
    assert_eq!(press(Key::Other, &mut config, &mut list), Flow::Continue);
    assert_eq!(dispatch(Event::Other, &mut config, &mut list), Flow::Continue);
    assert_eq!(config, UiConfig::default());
    assert_eq!(list, before);
}

#[test]
fn up_from_first_wraps_to_last_of_seed() {
    let mut config = UiConfig::default();
    let mut list = TodoList::default();
    press(Key::Down, &mut config, &mut list);
    press(Key::Up, &mut config, &mut list);
    assert_eq!(list.selected(), Some(5));
}

#[test]
fn keys_on_empty_list_leave_nothing_selected() {
    let mut config = UiConfig::default();
    let mut list = TodoList::new(Vec::new());
    assert_eq!(press(Key::Down, &mut config, &mut list), Flow::Continue);
    assert_eq!(list.selected(), None);
    assert_eq!(press(Key::Up, &mut config, &mut list), Flow::Continue);
    assert_eq!(list.selected(), None);
}
