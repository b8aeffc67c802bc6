//! The dispatch of input: one event in, at most one change of state out,
//! and the word on whether the program goes on.

use vstd::prelude::*;
use crate::config::UiConfig;
use crate::selection::{cleared, next_index, previous_index};
use crate::todo::{TodoList, TodoListView};

verus! {

/// A key, as far as the program tells keys apart.
#[derive(Clone, Copy, Debug, PartialEq, Eq, Structural)]
pub enum Key {
    Esc,
    End,
    Home,
    Down,
    Up,
    Left,
    /// Any other key.
    Other,
}

/// One input event.
#[derive(Clone, Copy, Debug, PartialEq, Eq, Structural)]
pub enum Event {
    /// A key was pressed.
    Key(Key),
    /// Anything else: the mouse, a resize, a paste.
    Other,
}

/// What an event asks for.
#[derive(Clone, Copy, Debug, PartialEq, Eq, Structural)]
pub enum Action {
    /// Leave the program.
    Quit,
    /// Show or hide the side panel.
    ToggleProjects,
    /// Show or hide the input box.
    ToggleTypebox,
    /// Select the next entry.
    Next,
    /// Select the previous entry.
    Previous,
    /// Deselect.
    Unselect,
    /// Nothing.
    Ignore,
}

/// Whether the program goes on after an event.
#[derive(Clone, Copy, Debug, PartialEq, Eq, Structural)]
pub enum Flow {
    Continue,
    Quit,
}

/// The action that `event` asks for. Only key presses ask for anything, and
/// of those only the six bound keys.
pub open spec fn action_for(event: Event) -> Action {
    match event {
        Event::Key(Key::Esc) => Action::Quit,
        Event::Key(Key::End) => Action::ToggleProjects,
        Event::Key(Key::Home) => Action::ToggleTypebox,
        Event::Key(Key::Down) => Action::Next,
        Event::Key(Key::Up) => Action::Previous,
        Event::Key(Key::Left) => Action::Unselect,
        Event::Key(Key::Other) => Action::Ignore,
        Event::Other => Action::Ignore,
    }
}

/// The display toggles after `action`.
pub open spec fn config_after(action: Action, config: UiConfig) -> UiConfig {
    match action {
        Action::ToggleProjects => UiConfig {
            projects: !config.projects,
            typebox: config.typebox,
        },
        Action::ToggleTypebox => UiConfig { projects: config.projects, typebox: !config.typebox },
        _ => config,
    }
}

/// The checklist after `action`: the entries stay, the selection moves.
pub open spec fn list_after(action: Action, data: TodoListView) -> TodoListView {
    match action {
        Action::Next => TodoListView {
            items: data.items,
            selected: next_index(data.selected, data.items.len()),
        },
        Action::Previous => TodoListView {
            items: data.items,
            selected: previous_index(data.selected, data.items.len()),
        },
        Action::Unselect => TodoListView { items: data.items, selected: cleared(data.selected) },
        _ => data,
    }
}

/// Whether the program goes on after `action`.
pub open spec fn flow_after(action: Action) -> Flow {
    if action == Action::Quit {
        Flow::Quit
    } else {
        Flow::Continue
    }
}

/// The action that `event` asks for.
pub fn action_of(event: Event) -> (action: Action)
    ensures
        action == action_for(event),
{
    match event {
        Event::Key(Key::Esc) => Action::Quit,
        Event::Key(Key::End) => Action::ToggleProjects,
        Event::Key(Key::Home) => Action::ToggleTypebox,
        Event::Key(Key::Down) => Action::Next,
        Event::Key(Key::Up) => Action::Previous,
        Event::Key(Key::Left) => Action::Unselect,
        Event::Key(Key::Other) => Action::Ignore,
        Event::Other => Action::Ignore,
    }
}

/// Carries out what `event` asks for on the display toggles and the
/// checklist, and says whether the program goes on. An event changes at most
/// one of the two, and an event that asks for nothing changes neither.
pub fn dispatch(event: Event, config: &mut UiConfig, data: &mut TodoList) -> (flow: Flow)
    ensures
        flow == flow_after(action_for(event)),
        *final(config) == config_after(action_for(event), *old(config)),
        final(data)@ == list_after(action_for(event), old(data)@),
        old(data)@.wf() ==> final(data)@.wf(),
{
    match action_of(event) {
        Action::Quit => {
            return Flow::Quit;
        },
        Action::ToggleProjects => config.toggle_projects(),
        Action::ToggleTypebox => config.toggle_typebox(),
        Action::Next => data.next(),
        Action::Previous => data.previous(),
        Action::Unselect => data.unselec(),
        Action::Ignore => {},
    }
    Flow::Continue
}

} // verus!
