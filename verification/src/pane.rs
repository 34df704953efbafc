//! The three panes of the browser and the order in which `Tab` visits them.

use vstd::prelude::*;

verus! {

/// The pane that currently receives the movement keys.
#[derive(Debug, Copy, Clone, PartialEq, Eq, Structural, Hash)]
pub enum ActivePane {
    RowGroupBrowser,
    ColumnBrowser,
    ColumnChunkDetail,
}

impl ActivePane {
    /// The pane that follows `self` in the cycle
    /// row groups, columns, column detail, row groups.
    pub open spec fn successor(self) -> ActivePane {
        match self {
            ActivePane::RowGroupBrowser => ActivePane::ColumnBrowser,
            ActivePane::ColumnBrowser => ActivePane::ColumnChunkDetail,
            ActivePane::ColumnChunkDetail => ActivePane::RowGroupBrowser,
        }
    }

    /// Moves to the next pane of the cycle.
    pub fn toggle(&mut self)
        ensures
            *final(self) == old(self).successor(),
    {
        *self = match *self {
            ActivePane::RowGroupBrowser => ActivePane::ColumnBrowser,
            ActivePane::ColumnBrowser => ActivePane::ColumnChunkDetail,
            ActivePane::ColumnChunkDetail => ActivePane::RowGroupBrowser,
        };
    }
}

impl Default for ActivePane {
    /// A session starts in the row-group browser.
    fn default() -> (pane: ActivePane)
        ensures
            pane == ActivePane::RowGroupBrowser,
    {
        ActivePane::RowGroupBrowser
    }
}

/// The cycle of panes closes after three steps: from every pane, three
/// toggles lead back to it, and fewer do not.
pub proof fn lemma_pane_cycle_closes(pane: ActivePane)
    ensures
        pane.successor().successor().successor() == pane,
        pane.successor() != pane,
        pane.successor().successor() != pane,
{
}

} // verus!
