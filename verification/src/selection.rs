//! The cursor over the hierarchy of row groups and column chunks.
//!
//! A `SelectionState` says which pane is active and which row group and
//! column chunk are selected. The movement keys walk the list of the active
//! pane in a circle: one step past the last item leads to the first, one step
//! before the first leads to the last. Selecting another row group selects its
//! first column chunk, since the row groups need not hold equally many.

use vstd::prelude::*;
use vstd::arithmetic::div_mod::{
    lemma_add_mod_noop, lemma_fundamental_div_mod, lemma_mod_multiples_vanish, lemma_small_mod,
};
use crate::metadata::{shape_is_browsable, MetadataModel};
use crate::pane::ActivePane;

verus! {

/// The index one step after `i` in a circular list of `n` items.
pub open spec fn next_index(i: int, n: int) -> int
    recommends
        0 <= i < n,
{
    (i + 1) % n
}

/// The index one step before `i` in a circular list of `n` items.
pub open spec fn prev_index(i: int, n: int) -> int
    recommends
        0 <= i < n,
{
    (i + n - 1) % n
}

/// The index `k` steps after `i` in a circular list of `n` items.
pub open spec fn advanced(i: int, n: int, k: nat) -> int
    decreases k,
{
    if k == 0 {
        i
    } else {
        next_index(advanced(i, n, (k - 1) as nat), n)
    }
}

/// The index `k` steps before `i` in a circular list of `n` items.
pub open spec fn retreated(i: int, n: int, k: nat) -> int
    decreases k,
{
    if k == 0 {
        i
    } else {
        prev_index(retreated(i, n, (k - 1) as nat), n)
    }
}

/// One step forward is the next index, except from the last item, where it
/// is the first.
pub proof fn lemma_next_index(i: int, n: int)
    requires
        0 <= i < n,
    ensures
        0 <= next_index(i, n) < n,
        i + 1 < n ==> next_index(i, n) == i + 1,
        i + 1 == n ==> next_index(i, n) == 0,
{
    if i + 1 < n {
        lemma_small_mod((i + 1) as nat, n as nat);
    } else {
        lemma_mod_multiples_vanish(1, 0, n);
        lemma_small_mod(0, n as nat);
    }
}

/// One step back is the previous index, except from the first item, where it
/// is the last.
pub proof fn lemma_prev_index(i: int, n: int)
    requires
        0 <= i < n,
    ensures
        0 <= prev_index(i, n) < n,
        i > 0 ==> prev_index(i, n) == i - 1,
        i == 0 ==> prev_index(i, n) == n - 1,
{
    if i > 0 {
        lemma_mod_multiples_vanish(1, i - 1, n);
        lemma_small_mod((i - 1) as nat, n as nat);
    } else {
        lemma_small_mod((n - 1) as nat, n as nat);
    }
}

/// A step back undoes a step forward, and a step forward undoes a step back.
pub proof fn lemma_prev_inverts_next(i: int, n: int)
    requires
        0 <= i < n,
    ensures
        prev_index(next_index(i, n), n) == i,
        next_index(prev_index(i, n), n) == i,
{
    lemma_next_index(i, n);
    lemma_prev_index(i, n);
    lemma_prev_index(next_index(i, n), n);
    lemma_next_index(prev_index(i, n), n);
}

/// In a list of one item a step in either direction stays on that item; in a
/// longer list it always leads to another item.
pub proof fn lemma_step_moves_unless_single(i: int, n: int)
    requires
        0 <= i < n,
    ensures
        n == 1 ==> next_index(i, n) == i && prev_index(i, n) == i,
        n > 1 ==> next_index(i, n) != i && prev_index(i, n) != i,
{
    lemma_next_index(i, n);
    lemma_prev_index(i, n);
}

/// `k` steps back stay inside the list.
pub proof fn lemma_retreated_in_range(i: int, n: int, k: nat)
    requires
        0 <= i < n,
    ensures
        0 <= retreated(i, n, k) < n,
    decreases k,
{
    if k > 0 {
        lemma_retreated_in_range(i, n, (k - 1) as nat);
        lemma_prev_index(retreated(i, n, (k - 1) as nat), n);
    }
}

/// `k` steps forward from `i` lead to the remainder of `i + k` by the length
/// of the list.
pub proof fn lemma_advanced_is_sum_modulo(i: int, n: int, k: nat)
    requires
        0 <= i < n,
    ensures
        advanced(i, n, k) == (i + k) % n,
    decreases k,
{
    if k == 0 {
        lemma_small_mod(i as nat, n as nat);
    } else {
        lemma_advanced_is_sum_modulo(i, n, (k - 1) as nat);
        let before = i + k - 1;
        lemma_add_mod_noop(before, 1, n);
        if n == 1 {
            lemma_fundamental_div_mod(before, n);
            lemma_fundamental_div_mod(before + 1, n);
            lemma_fundamental_div_mod((before % n) + 1, n);
        } else {
            lemma_small_mod(1, n as nat);
        }
    }
}

/// `k` steps back from `i`, followed by `k` steps forward, lead to `i` again.
pub proof fn lemma_advanced_inverts_retreated(i: int, n: int, k: nat)
    requires
        0 <= i < n,
    ensures
        advanced(retreated(i, n, k), n, k) == i,
    decreases k,
{
    if k > 0 {
        let r = retreated(i, n, (k - 1) as nat);
        lemma_retreated_in_range(i, n, (k - 1) as nat);
        lemma_prev_index(r, n);
        lemma_advanced_shifts(prev_index(r, n), n, (k - 1) as nat);
        lemma_prev_inverts_next(r, n);
        lemma_advanced_inverts_retreated(i, n, (k - 1) as nat);
    }
}

/// Taking the first of `k + 1` steps forward apart gives the same index as
/// taking the last one apart.
pub proof fn lemma_advanced_shifts(i: int, n: int, k: nat)
    requires
        0 <= i < n,
    ensures
        advanced(i, n, k + 1) == advanced(next_index(i, n), n, k),
    decreases k,
{
    reveal_with_fuel(advanced, 2);
    if k > 0 {
        lemma_advanced_shifts(i, n, (k - 1) as nat);
    }
}

/// Wraparound: in a list of `n` items, `n` steps forward from any index lead
/// back to it, and so do `n` steps back.
pub proof fn lemma_full_circle(i: int, n: int)
    requires
        0 <= i < n,
    ensures
        advanced(i, n, n as nat) == i,
        retreated(i, n, n as nat) == i,
{
    lemma_advanced_is_sum_modulo(i, n, n as nat);
    lemma_mod_multiples_vanish(1, i, n);
    lemma_small_mod(i as nat, n as nat);
    let r = retreated(i, n, n as nat);
    lemma_retreated_in_range(i, n, n as nat);
    lemma_advanced_inverts_retreated(i, n, n as nat);
    lemma_advanced_is_sum_modulo(r, n, n as nat);
    lemma_mod_multiples_vanish(1, r, n);
    lemma_small_mod(r as nat, n as nat);
}

/// Steps one item forward in a circular list of `n` items.
pub fn step_forward(i: usize, n: usize) -> (next: usize)
    requires
        i < n,
    ensures
        next == next_index(i as int, n as int),
        next < n,
{
    proof {
        lemma_next_index(i as int, n as int);
    }
    if i == n - 1 {
        0
    } else {
        i + 1
    }
}

/// Steps one item back in a circular list of `n` items.
pub fn step_back(i: usize, n: usize) -> (prev: usize)
    requires
        i < n,
    ensures
        prev == prev_index(i as int, n as int),
        prev < n,
{
    proof {
        lemma_prev_index(i as int, n as int);
    }
    if i == 0 {
        n - 1
    } else {
        i - 1
    }
}

/// Which pane is active, and which row group and column chunk are selected.
#[derive(Debug, Clone, Copy, PartialEq, Eq, Structural, Hash)]
pub struct SelectionState {
    pub active_pane: ActivePane,
    pub row_group_index: usize,
    pub column_index: usize,
}

impl SelectionState {
    /// The state in which a session starts: the row-group browser is active,
    /// and the first column chunk of the first row group is selected.
    pub open spec fn initial() -> SelectionState {
        SelectionState {
            active_pane: ActivePane::RowGroupBrowser,
            row_group_index: 0,
            column_index: 0,
        }
    }

    /// Whether both indices select something in a file whose row groups hold
    /// `counts[0]`, `counts[1]`, ... column chunks.
    pub open spec fn valid_for(self, counts: Seq<nat>) -> bool {
        &&& self.row_group_index < counts.len()
        &&& self.column_index < counts[self.row_group_index as int]
    }

    /// The state with the row group at `target` selected. Where that is
    /// another row group than before, its first column chunk is selected;
    /// where it is the same, nothing changes.
    pub open spec fn with_row_group(self, target: int) -> SelectionState {
        if target == self.row_group_index {
            self
        } else {
            SelectionState {
                active_pane: self.active_pane,
                row_group_index: target as usize,
                column_index: 0,
            }
        }
    }

    /// The state with the column chunk at `target` selected.
    pub open spec fn with_column(self, target: int) -> SelectionState {
        SelectionState {
            active_pane: self.active_pane,
            row_group_index: self.row_group_index,
            column_index: target as usize,
        }
    }

    /// The state after one step forward in the list of the active pane.
    pub open spec fn after_move_next(self, counts: Seq<nat>) -> SelectionState {
        match self.active_pane {
            ActivePane::RowGroupBrowser => self.with_row_group(
                next_index(self.row_group_index as int, counts.len() as int),
            ),
            ActivePane::ColumnBrowser => self.with_column(
                next_index(self.column_index as int, counts[self.row_group_index as int] as int),
            ),
            ActivePane::ColumnChunkDetail => self,
        }
    }

    /// The state after one step back in the list of the active pane.
    pub open spec fn after_move_prev(self, counts: Seq<nat>) -> SelectionState {
        match self.active_pane {
            ActivePane::RowGroupBrowser => self.with_row_group(
                prev_index(self.row_group_index as int, counts.len() as int),
            ),
            ActivePane::ColumnBrowser => self.with_column(
                prev_index(self.column_index as int, counts[self.row_group_index as int] as int),
            ),
            ActivePane::ColumnChunkDetail => self,
        }
    }

    /// The state after `k` steps forward.
    pub open spec fn after_moves_next(self, counts: Seq<nat>, k: nat) -> SelectionState
        decreases k,
    {
        if k == 0 {
            self
        } else {
            self.after_moves_next(counts, (k - 1) as nat).after_move_next(counts)
        }
    }

    /// The state after `k` steps back.
    pub open spec fn after_moves_prev(self, counts: Seq<nat>, k: nat) -> SelectionState
        decreases k,
    {
        if k == 0 {
            self
        } else {
            self.after_moves_prev(counts, (k - 1) as nat).after_move_prev(counts)
        }
    }

    /// The state with the next pane of the cycle active.
    pub open spec fn after_toggle_pane(self) -> SelectionState {
        SelectionState {
            active_pane: self.active_pane.successor(),
            row_group_index: self.row_group_index,
            column_index: self.column_index,
        }
    }

    /// The index that the movement keys change in the active pane; the detail
    /// pane has none.
    pub open spec fn active_index(self) -> Option<usize> {
        match self.active_pane {
            ActivePane::RowGroupBrowser => Some(self.row_group_index),
            ActivePane::ColumnBrowser => Some(self.column_index),
            ActivePane::ColumnChunkDetail => None,
        }
    }

    /// The length of the list of the active pane; the detail pane has none.
    pub open spec fn active_len(self, counts: Seq<nat>) -> Option<nat> {
        match self.active_pane {
            ActivePane::RowGroupBrowser => Some(counts.len()),
            ActivePane::ColumnBrowser => Some(counts[self.row_group_index as int]),
            ActivePane::ColumnChunkDetail => None,
        }
    }

    /// The state in which a session starts.
    pub fn new() -> (state: SelectionState)
        ensures
            state == SelectionState::initial(),
    {
        SelectionState {
            active_pane: ActivePane::RowGroupBrowser,
            row_group_index: 0,
            column_index: 0,
        }
    }

    /// Whether both indices select something in `metadata`.
    pub fn is_valid_for(&self, metadata: &MetadataModel) -> (valid: bool)
        ensures
            valid == self.valid_for(metadata.column_counts()),
    {
        self.row_group_index < metadata.num_row_groups() && self.column_index
            < metadata.num_column_chunks(self.row_group_index)
    }

    /// Moves one step forward in the list of the active pane, from the last
    /// item to the first.
    pub fn move_next(&mut self, metadata: &MetadataModel)
        requires
            metadata.well_formed(),
            old(self).valid_for(metadata.column_counts()),
        ensures
            *final(self) == old(self).after_move_next(metadata.column_counts()),
            final(self).valid_for(metadata.column_counts()),
    {
        match self.active_pane {
            ActivePane::RowGroupBrowser => {
                let target = step_forward(self.row_group_index, metadata.num_row_groups());
                if target != self.row_group_index {
                    self.row_group_index = target;
                    self.column_index = 0;
                }
            },
            ActivePane::ColumnBrowser => {
                let count = metadata.num_column_chunks(self.row_group_index);
                self.column_index = step_forward(self.column_index, count);
            },
            ActivePane::ColumnChunkDetail => {},
        }
    }

    /// Moves one step back in the list of the active pane, from the first
    /// item to the last.
    pub fn move_prev(&mut self, metadata: &MetadataModel)
        requires
            metadata.well_formed(),
            old(self).valid_for(metadata.column_counts()),
        ensures
            *final(self) == old(self).after_move_prev(metadata.column_counts()),
            final(self).valid_for(metadata.column_counts()),
    {
        match self.active_pane {
            ActivePane::RowGroupBrowser => {
                let target = step_back(self.row_group_index, metadata.num_row_groups());
                if target != self.row_group_index {
                    self.row_group_index = target;
                    self.column_index = 0;
                }
            },
            ActivePane::ColumnBrowser => {
                let count = metadata.num_column_chunks(self.row_group_index);
                self.column_index = step_back(self.column_index, count);
            },
            ActivePane::ColumnChunkDetail => {},
        }
    }

    /// Makes the next pane of the cycle active; both indices stay.
    pub fn toggle_pane(&mut self)
        ensures
            *final(self) == old(self).after_toggle_pane(),
    {
        self.active_pane.toggle();
    }
}

/// A step in either direction leads from a valid state to a valid state.
pub proof fn lemma_moves_keep_validity(state: SelectionState, counts: Seq<nat>)
    requires
        shape_is_browsable(counts),
        state.valid_for(counts),
    ensures
        state.after_move_next(counts).valid_for(counts),
        state.after_move_prev(counts).valid_for(counts),
        state.after_toggle_pane().valid_for(counts),
{
    lemma_next_index(state.row_group_index as int, counts.len() as int);
    lemma_prev_index(state.row_group_index as int, counts.len() as int);
    let columns = counts[state.row_group_index as int] as int;
    lemma_next_index(state.column_index as int, columns);
    lemma_prev_index(state.column_index as int, columns);
}

/// A step in the row-group browser that selects another row group selects
/// the first column chunk of that row group.
pub proof fn lemma_row_group_switch_resets_column(state: SelectionState, counts: Seq<nat>)
    requires
        state.active_pane is RowGroupBrowser,
    ensures
        state.after_move_next(counts).row_group_index != state.row_group_index
            ==> state.after_move_next(counts).column_index == 0,
        state.after_move_prev(counts).row_group_index != state.row_group_index
            ==> state.after_move_prev(counts).column_index == 0,
{
}

/// A step in the column browser leaves the selected row group as it is, and a
/// step in the detail pane changes nothing.
pub proof fn lemma_moves_outside_row_group_browser(state: SelectionState, counts: Seq<nat>)
    ensures
        state.active_pane is ColumnBrowser ==> {
            &&& state.after_move_next(counts).row_group_index == state.row_group_index
            &&& state.after_move_prev(counts).row_group_index == state.row_group_index
        },
        state.active_pane is ColumnChunkDetail ==> {
            &&& state.after_move_next(counts) == state
            &&& state.after_move_prev(counts) == state
        },
        state.after_move_next(counts).active_pane == state.active_pane,
        state.after_move_prev(counts).active_pane == state.active_pane,
{
}

/// Where the list of the active pane has one item, a step in either
/// direction changes nothing.
pub proof fn lemma_single_item_moves_change_nothing(state: SelectionState, counts: Seq<nat>)
    requires
        state.valid_for(counts),
        state.active_len(counts) == Some(1nat),
    ensures
        state.after_move_next(counts) == state,
        state.after_move_prev(counts) == state,
{
    lemma_step_moves_unless_single(state.row_group_index as int, counts.len() as int);
    lemma_step_moves_unless_single(
        state.column_index as int,
        counts[state.row_group_index as int] as int,
    );
}

/// After `k` steps forward the active pane is the same, the index of its list
/// is `k` steps further in the circle, and the state is valid.
pub proof fn lemma_moves_next_advance(state: SelectionState, counts: Seq<nat>, k: nat)
    requires
        shape_is_browsable(counts),
        state.valid_for(counts),
    ensures
        state.after_moves_next(counts, k).valid_for(counts),
        state.after_moves_next(counts, k).active_pane == state.active_pane,
        state.active_pane is RowGroupBrowser ==> {
            let after = state.after_moves_next(counts, k);
            &&& after.row_group_index == advanced(
                state.row_group_index as int,
                counts.len() as int,
                k,
            )
            &&& after.column_index == if k == 0 || counts.len() == 1 {
                state.column_index
            } else {
                0
            }
        },
        state.active_pane is ColumnBrowser ==> state.after_moves_next(counts, k)
            == state.with_column(
            advanced(state.column_index as int, counts[state.row_group_index as int] as int, k),
        ),
        state.active_pane is ColumnChunkDetail ==> state.after_moves_next(counts, k) == state,
    decreases k,
{
    if k > 0 {
        let before = state.after_moves_next(counts, (k - 1) as nat);
        lemma_moves_next_advance(state, counts, (k - 1) as nat);
        lemma_moves_keep_validity(before, counts);
        lemma_next_index(before.row_group_index as int, counts.len() as int);
        lemma_next_index(before.column_index as int, counts[before.row_group_index as int] as int);
    }
}

/// After `k` steps back the active pane is the same, the index of its list is
/// `k` steps back in the circle, and the state is valid.
pub proof fn lemma_moves_prev_retreat(state: SelectionState, counts: Seq<nat>, k: nat)
    requires
        shape_is_browsable(counts),
        state.valid_for(counts),
    ensures
        state.after_moves_prev(counts, k).valid_for(counts),
        state.after_moves_prev(counts, k).active_pane == state.active_pane,
        state.active_pane is RowGroupBrowser ==> {
            let after = state.after_moves_prev(counts, k);
            &&& after.row_group_index == retreated(
                state.row_group_index as int,
                counts.len() as int,
                k,
            )
            &&& after.column_index == if k == 0 || counts.len() == 1 {
                state.column_index
            } else {
                0
            }
        },
        state.active_pane is ColumnBrowser ==> state.after_moves_prev(counts, k)
            == state.with_column(
            retreated(state.column_index as int, counts[state.row_group_index as int] as int, k),
        ),
        state.active_pane is ColumnChunkDetail ==> state.after_moves_prev(counts, k) == state,
    decreases k,
{
    if k > 0 {
        let before = state.after_moves_prev(counts, (k - 1) as nat);
        lemma_moves_prev_retreat(state, counts, (k - 1) as nat);
        lemma_moves_keep_validity(before, counts);
        lemma_prev_index(before.row_group_index as int, counts.len() as int);
        lemma_prev_index(before.column_index as int, counts[before.row_group_index as int] as int);
    }
}

/// Wraparound: as many steps forward, or back, as the list of the active pane
/// has items lead back to the index from which they started.
pub proof fn lemma_full_circle_restores_active_index(state: SelectionState, counts: Seq<nat>)
    requires
        shape_is_browsable(counts),
        state.valid_for(counts),
        state.active_len(counts) is Some,
    ensures
        state.after_moves_next(counts, state.active_len(counts)->0).active_index()
            == state.active_index(),
        state.after_moves_prev(counts, state.active_len(counts)->0).active_index()
            == state.active_index(),
{
    let n = state.active_len(counts)->0;
    lemma_moves_next_advance(state, counts, n);
    lemma_moves_prev_retreat(state, counts, n);
    lemma_full_circle(state.row_group_index as int, counts.len() as int);
    lemma_full_circle(state.column_index as int, counts[state.row_group_index as int] as int);
}

/// In the column browser a full circle restores the whole state.
pub proof fn lemma_full_circle_of_columns_restores_state(
    state: SelectionState,
    counts: Seq<nat>,
)
    requires
        shape_is_browsable(counts),
        state.valid_for(counts),
        state.active_pane is ColumnBrowser,
    ensures
        state.after_moves_next(counts, counts[state.row_group_index as int]) == state,
        state.after_moves_prev(counts, counts[state.row_group_index as int]) == state,
{
    let n = counts[state.row_group_index as int];
    lemma_moves_next_advance(state, counts, n);
    lemma_moves_prev_retreat(state, counts, n);
    lemma_full_circle(state.column_index as int, n as int);
}

/// In the row-group browser a full circle restores the selected row group. It
/// restores the whole state where the first column chunk was selected, or
/// where the file has one row group only; in every other case it leaves the
/// first column chunk of the row group selected.
pub proof fn lemma_full_circle_of_row_groups(state: SelectionState, counts: Seq<nat>)
    requires
        shape_is_browsable(counts),
        state.valid_for(counts),
        state.active_pane is RowGroupBrowser,
    ensures
        state.after_moves_next(counts, counts.len()) == state.with_column(
            if counts.len() == 1 {
                state.column_index as int
            } else {
                0
            },
        ),
        state.after_moves_prev(counts, counts.len()) == state.with_column(
            if counts.len() == 1 {
                state.column_index as int
            } else {
                0
            },
        ),
{
    lemma_moves_next_advance(state, counts, counts.len());
    lemma_moves_prev_retreat(state, counts, counts.len());
    lemma_full_circle(state.row_group_index as int, counts.len() as int);
}

/// A step back undoes a step forward, and a step forward undoes a step back,
/// on the index of the active list. Outside the row-group browser, and in it
/// where the first column chunk is selected, the whole state is restored.
pub proof fn lemma_move_prev_inverts_move_next(state: SelectionState, counts: Seq<nat>)
    requires
        shape_is_browsable(counts),
        state.valid_for(counts),
    ensures
        state.after_move_next(counts).after_move_prev(counts).active_index()
            == state.active_index(),
        state.after_move_prev(counts).after_move_next(counts).active_index()
            == state.active_index(),
        !(state.active_pane is RowGroupBrowser) || state.column_index == 0 ==> {
            &&& state.after_move_next(counts).after_move_prev(counts) == state
            &&& state.after_move_prev(counts).after_move_next(counts) == state
        },
{
    let rows = counts.len() as int;
    let columns = counts[state.row_group_index as int] as int;
    lemma_prev_inverts_next(state.row_group_index as int, rows);
    lemma_prev_inverts_next(state.column_index as int, columns);
    lemma_next_index(state.row_group_index as int, rows);
    lemma_prev_index(state.row_group_index as int, rows);
    lemma_next_index(state.column_index as int, columns);
    lemma_prev_index(state.column_index as int, columns);
}

/// Three toggles lead back to the state from which they started, and neither
/// index changes on the way.
pub proof fn lemma_three_toggles_restore_state(state: SelectionState)
    ensures
        state.after_toggle_pane().after_toggle_pane().after_toggle_pane() == state,
        state.after_toggle_pane().row_group_index == state.row_group_index,
        state.after_toggle_pane().column_index == state.column_index,
{
}

} // verus!
