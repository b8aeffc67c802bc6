//! The selection cursor: an optional index into a sequence that the cursor
//! does not own. The length of the sequence is handed in with every move.

use vstd::prelude::*;
use vstd::arithmetic::div_mod::{
    lemma_add_mod_noop_right, lemma_mod_add_multiples_vanish, lemma_mod_self_0, lemma_small_mod,
};

verus! {

/// Whether a selection fits a sequence of `length` entries: nothing is
/// selected, or the selected index is below `length`.
pub open spec fn in_range(current: Option<nat>, length: nat) -> bool {
    match current {
        None => true,
        Some(i) => i < length,
    }
}

/// The selection after one step forward over `length` entries. With no
/// entries nothing changes; from "none" the first entry is selected;
/// otherwise the index advances and wraps to 0 past the last entry.
pub open spec fn next_index(current: Option<nat>, length: nat) -> Option<nat> {
    if length == 0 {
        current
    } else {
        match current {
            None => Some(0),
            Some(i) => Some((i + 1) % length),
        }
    }
}

/// The selection after one step backward over `length` entries. With no
/// entries nothing changes; from "none" the first entry is selected;
/// otherwise the index retreats and wraps from 0 to the last entry.
pub open spec fn previous_index(current: Option<nat>, length: nat) -> Option<nat> {
    if length == 0 {
        current
    } else {
        match current {
            None => Some(0),
            Some(i) => Some(((i - 1 + length) % (length as int)) as nat),
        }
    }
}

/// The selection after a clear: none, whatever was selected.
pub open spec fn cleared(current: Option<nat>) -> Option<nat> {
    None
}

/// The selection after `times` steps forward over `length` entries.
pub open spec fn next_times(current: Option<nat>, length: nat, times: nat) -> Option<nat>
    decreases times,
{
    if times == 0 {
        current
    } else {
        next_index(next_times(current, length, (times - 1) as nat), length)
    }
}

/// A cursor over an ordered sequence.
#[derive(Clone, Copy, Debug, PartialEq, Eq)]
pub struct ListSelection {
    /// The selected position, if any.
    pub index: Option<usize>,
}

impl View for ListSelection {
    type V = Option<nat>;

    open spec fn view(&self) -> Option<nat> {
        match self.index {
            None => None,
            Some(i) => Some(i as nat),
        }
    }
}

impl ListSelection {
    /// A cursor with nothing selected.
    pub fn new() -> (selection: ListSelection)
        ensures
            selection@ is None,
    {
        ListSelection { index: None }
    }

    /// The selected position, if any.
    pub fn selected(&self) -> (index: Option<usize>)
        ensures
            index == self.index,
    {
        self.index
    }

    /// Moves one entry forward over a sequence of `length` entries.
    pub fn next(&mut self, length: usize)
        ensures
            final(self)@ == next_index(old(self)@, length as nat),
            length > 0 ==> in_range(final(self)@, length as nat),
    {
        if length == 0 {
            return ;
        }
        let i: usize = match self.index {
            Some(i) => {
                proof {
                    lemma_add_mod_noop_right(1, i as int, length as int);
                }
                (i % length + 1) % length
            },
            None => 0,
        };
        self.index = Some(i);
    }

    /// Moves one entry backward over a sequence of `length` entries.
    pub fn previous(&mut self, length: usize)
        ensures
            final(self)@ == previous_index(old(self)@, length as nat),
            length > 0 ==> in_range(final(self)@, length as nat),
    {
        if length == 0 {
            return ;
        }
        let i: usize = match self.index {
            Some(i) => {
                if i == 0 {
                    proof {
                        lemma_small_mod((length - 1) as nat, length as nat);
                    }
                    length - 1
                } else {
                    proof {
                        lemma_mod_add_multiples_vanish(i - 1, length as int);
                    }
                    (i - 1) % length
                }
            },
            None => 0,
        };
        self.index = Some(i);
    }

    /// Deselects.
    pub fn clear(&mut self)
        ensures
            final(self)@ == cleared(old(self)@),
    {
        self.index = None;
    }
}

/// A step in either direction over a non-empty sequence lands inside it.
pub proof fn lemma_step_in_range(current: Option<nat>, length: nat)
    requires
        length > 0,
    ensures
        in_range(next_index(current, length), length),
        in_range(previous_index(current, length), length),
{
}

/// From a selected entry, `times` steps forward advance the index by `times`
/// modulo the length.
proof fn lemma_next_times_offset(index: nat, length: nat, times: nat)
    requires
        index < length,
    ensures
        next_times(Some(index), length, times) == Some((index + times) % length),
    decreases times,
{
    if times == 0 {
        lemma_small_mod(index, length);
    } else {
        lemma_next_times_offset(index, length, (times - 1) as nat);
        lemma_add_mod_noop_right(1, index + times - 1, length as int);
    }
}

/// Moving forward as many times as there are entries comes back to the entry
/// that was selected at the start.
pub proof fn lemma_next_full_cycle(index: nat, length: nat)
    requires
        index < length,
    ensures
        next_times(Some(index), length, length) == Some(index),
{
    lemma_next_times_offset(index, length, length);
    lemma_mod_add_multiples_vanish(index as int, length as int);
    lemma_small_mod(index, length);
}

/// A step forward and a step back, in either order, come back to the entry
/// that was selected at the start.
pub proof fn lemma_next_previous_inverse(index: nat, length: nat)
    requires
        index < length,
    ensures
        previous_index(next_index(Some(index), length), length) == Some(index),
        next_index(previous_index(Some(index), length), length) == Some(index),
{
    let n = length as int;
    lemma_small_mod(index, length);
    lemma_mod_self_0(n);
    lemma_small_mod((length - 1) as nat, length);
    if index + 1 < length {
        lemma_small_mod(index + 1, length);
    }
    if index >= 1 {
        lemma_small_mod((index - 1) as nat, length);
    }
    lemma_mod_add_multiples_vanish(index as int, n);
    lemma_mod_add_multiples_vanish(index - 1, n);
}

/// Stepping back from the first entry selects the last one, and stepping
/// forward from the last entry selects the first.
pub proof fn lemma_wrap_around(length: nat)
    requires
        length >= 1,
    ensures
        previous_index(Some(0), length) == Some((length - 1) as nat),
        next_index(Some((length - 1) as nat), length) == Some(0nat),
{
    lemma_small_mod((length - 1) as nat, length);
    lemma_mod_self_0(length as int);
}

/// After a clear, a step forward over a non-empty sequence selects the first
/// entry, whatever was selected before the clear.
pub proof fn lemma_clear_then_next(before: Option<nat>, length: nat)
    requires
        length >= 1,
    ensures
        next_index(cleared(before), length) == Some(0nat),
{
}

/// Over an empty sequence a step in either direction changes nothing, so a
/// selection of "none" stays "none".
pub proof fn lemma_empty_sequence_is_fixed(current: Option<nat>)
    ensures
        next_index(current, 0) == current,
        previous_index(current, 0) == current,
        next_index(None, 0) is None,
        previous_index(None, 0) is None,
{
}

} // verus!
