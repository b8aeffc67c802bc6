//! The checklist: an ordered sequence of entries with a selection cursor
//! over it.

use vstd::prelude::*;
use vstd::string::StringExecFns;
use crate::selection::{cleared, in_range, next_index, previous_index, ListSelection};

verus! {

/// What a checklist entry is: a done flag and the characters of its title.
pub struct TodoItemView {
    pub is_done: bool,
    pub title: Seq<char>,
}

/// What a checklist is: its entries in order and the selected position.
pub struct TodoListView {
    pub items: Seq<TodoItemView>,
    pub selected: Option<nat>,
}

impl TodoListView {
    /// The selected position, when there is one, is the position of an entry.
    /// An empty checklist has nothing selected.
    pub open spec fn wf(self) -> bool {
        in_range(self.selected, self.items.len())
    }
}

/// The line shown for an entry: the status marker, a space, and the title as
/// it stands, line breaks included. The marker is `[ ]` for an entry that is
/// done and `[x]` for one that is not.
pub open spec fn rendered(item: TodoItemView) -> Seq<char> {
    if item.is_done {
        seq!['[', ' ', ']', ' '] + item.title
    } else {
        seq!['[', 'x', ']', ' '] + item.title
    }
}

/// The entries of `items`, each as what it is.
pub open spec fn item_views(items: Seq<TodoItem>) -> Seq<TodoItemView> {
    items.map_values(|item: TodoItem| item@)
}

/// The selection after the entry at `pos` is removed: cleared where it was
/// on that entry, one lower where it was behind it, unchanged where it was
/// in front of it.
pub open spec fn selected_after_remove(selected: Option<nat>, pos: nat) -> Option<nat> {
    match selected {
        None => None,
        Some(i) => if i == pos {
            None
        } else if i > pos {
            Some((i - 1) as nat)
        } else {
            Some(i)
        },
    }
}

/// The checklist that the program starts with.
pub open spec fn seed() -> TodoListView {
    TodoListView {
        items: seq![
            TodoItemView { is_done: false, title: "Hello world"@ },
            TodoItemView { is_done: true, title: "Hello again"@ },
            TodoItemView { is_done: true, title: "Bye!!"@ },
            TodoItemView { is_done: false, title: "A line here..."@ },
            TodoItemView { is_done: true, title: "What should i do?? \nthis?"@ },
            TodoItemView { is_done: true, title: "Uno\nDos\nTres!"@ },
        ],
        selected: None,
    }
}

/// One entry of the checklist.
#[derive(Clone, Debug, PartialEq, Eq)]
pub struct TodoItem {
    pub is_done: bool,
    pub title: String,
}

impl View for TodoItem {
    type V = TodoItemView;

    open spec fn view(&self) -> TodoItemView {
        TodoItemView { is_done: self.is_done, title: self.title@ }
    }
}

impl TodoItem {
    /// Flips the done flag and leaves the title alone.
    pub fn toggle_done(&mut self)
        ensures
            final(self)@.is_done == !old(self)@.is_done,
            final(self)@.title == old(self)@.title,
    {
        self.is_done = crate::config::toggle(self.is_done);
    }

    /// The line shown for this entry.
    pub fn to_string(&self) -> (line: String)
        ensures
            line@ == rendered(self@),
    {
        proof {
            reveal_strlit("[ ] ");
            reveal_strlit("[x] ");
        }
        let marker: &str = if self.is_done {
            "[ ] "
        } else {
            "[x] "
        };
        let mut line: String = String::from_str(marker);
        line.append(self.title.as_str());
        assert(marker@ =~= if self.is_done {
            seq!['[', ' ', ']', ' ']
        } else {
            seq!['[', 'x', ']', ' ']
        });
        line
    }
}

/// A position that is not the position of an entry.
#[derive(Clone, Copy, Debug, PartialEq, Eq, Structural)]
pub struct OutOfRange {
    /// The position that was asked for.
    pub pos: usize,
    /// The number of entries at that moment.
    pub len: usize,
}

/// The checklist.
#[derive(Clone, Debug, PartialEq, Eq)]
pub struct TodoList {
    state: ListSelection,
    items: Vec<TodoItem>,
}

impl View for TodoList {
    type V = TodoListView;

    closed spec fn view(&self) -> TodoListView {
        TodoListView { items: item_views(self.items@), selected: self.state@ }
    }
}

impl TodoList {
    /// A checklist of `items` with nothing selected.
    pub fn new(items: Vec<TodoItem>) -> (list: TodoList)
        ensures
            list@.items == item_views(items@),
            list@.selected is None,
            list@.wf(),
    {
        TodoList { state: ListSelection::new(), items }
    }

    /// The number of entries.
    pub fn len(&self) -> (len: usize)
        ensures
            len == self@.items.len(),
    {
        self.items.len()
    }

    /// The entries in order.
    pub fn items(&self) -> (items: &Vec<TodoItem>)
        ensures
            item_views(items@) == self@.items,
    {
        &self.items
    }

    /// The selected position, if any.
    pub fn selected(&self) -> (index: Option<usize>)
        ensures
            match index {
                None => self@.selected is None,
                Some(i) => self@.selected == Some(i as nat),
            },
    {
        self.state.selected()
    }

    /// Appends `item` behind the last entry and hands the checklist back for
    /// the next call. The selection stays where it is.
    pub fn add(&mut self, item: TodoItem) -> (list: &mut TodoList)
        ensures
            list@.items == old(self)@.items.push(item@),
            list@.selected == old(self)@.selected,
            old(self)@.wf() ==> list@.wf(),
            *final(self) == *final(list),
    {
        self.items.push(item);
        assert(item_views(self.items@) =~= item_views(old(self).items@).push(item@));
        self
    }

    /// Removes the entry at `pos` and hands the checklist back for the next
    /// call, or reports that there is no such entry and changes nothing. A
    /// selection on the removed entry is cleared; one behind it moves down by
    /// one and so stays on the same entry; one in front of it stays.
    pub fn remove(&mut self, pos: usize) -> (result: Result<&mut TodoList, OutOfRange>)
        ensures
            match result {
                Ok(list) => {
                    &&& pos < old(self)@.items.len()
                    &&& list@.items == old(self)@.items.remove(pos as int)
                    &&& list@.selected == selected_after_remove(old(self)@.selected, pos as nat)
                    &&& old(self)@.wf() ==> list@.wf()
                    &&& *final(self) == *final(list)
                },
                Err(error) => {
                    &&& pos >= old(self)@.items.len()
                    &&& error.pos == pos
                    &&& error.len == old(self)@.items.len()
                    &&& *final(self) == *old(self)
                },
            },
    {
        let len: usize = self.items.len();
        if pos >= len {
            return Err(OutOfRange { pos, len });
        }
        match self.state.selected() {
            Some(i) => {
                if i == pos {
                    self.state.clear();
                } else if i > pos {
                    self.state = ListSelection { index: Some(i - 1) };
                }
            },
            None => {},
        }
        let _ = self.items.remove(pos);
        assert(item_views(self.items@) =~= item_views(old(self).items@).remove(pos as int));
        Ok(self)
    }

    /// Moves the selection one entry forward, wrapping past the last entry.
    pub fn next(&mut self)
        ensures
            final(self)@.items == old(self)@.items,
            final(self)@.selected == next_index(old(self)@.selected, old(self)@.items.len()),
            old(self)@.wf() ==> final(self)@.wf(),
    {
        self.state.next(self.items.len());
    }

    /// Moves the selection one entry backward, wrapping before the first
    /// entry.
    pub fn previous(&mut self)
        ensures
            final(self)@.items == old(self)@.items,
            final(self)@.selected == previous_index(
                old(self)@.selected,
                old(self)@.items.len(),
            ),
            old(self)@.wf() ==> final(self)@.wf(),
    {
        self.state.previous(self.items.len());
    }

    /// Deselects.
    pub fn unselec(&mut self)
        ensures
            final(self)@.items == old(self)@.items,
            final(self)@.selected == cleared(old(self)@.selected),
            final(self)@.wf(),
    {
        self.state.clear();
    }
}

/// Removing the selected entry clears the selection; removing an entry in
/// front of the selected one lowers the selection by exactly one; removing an
/// entry behind it leaves the selection as it is.
pub proof fn lemma_selection_after_remove(selected: nat, pos: nat)
    ensures
        pos == selected ==> selected_after_remove(Some(selected), pos) is None,
        pos < selected ==> selected_after_remove(Some(selected), pos) == Some(
            (selected - 1) as nat,
        ),
        pos > selected ==> selected_after_remove(Some(selected), pos) == Some(selected),
{
}

/// A selection that fits a checklist of `len` entries fits the checklist
/// that is left when one of the entries is removed.
pub proof fn lemma_remove_keeps_selection_in_range(selected: Option<nat>, pos: nat, len: nat)
    requires
        in_range(selected, len),
        pos < len,
    ensures
        in_range(selected_after_remove(selected, pos), (len - 1) as nat),
{
}

impl Default for TodoList {
    /// The checklist that the program starts with: six entries, nothing
    /// selected.
    fn default() -> (list: TodoList)
        ensures
            list@ == seed(),
            list@.wf(),
    {
        let mut items: Vec<TodoItem> = Vec::new();
        items.push(TodoItem { is_done: false, title: String::from_str("Hello world") });
        items.push(TodoItem { is_done: true, title: String::from_str("Hello again") });
        items.push(TodoItem { is_done: true, title: String::from_str("Bye!!") });
        items.push(TodoItem { is_done: false, title: String::from_str("A line here...") });
        items.push(
            TodoItem { is_done: true, title: String::from_str("What should i do?? \nthis?") },
        );
        items.push(TodoItem { is_done: true, title: String::from_str("Uno\nDos\nTres!") });
        assert(item_views(items@) =~= seed().items);
        TodoList { state: ListSelection::new(), items }
    }
}

} // verus!
