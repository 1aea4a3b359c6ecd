//! The authoritative repaint: every cell's palette derived from selection and
//! hover, correcting cells that the interaction pass did not touch.

use vstd::prelude::*;
use crate::components::{GridCoordinate, IconComponent};
use crate::events::ResetInventoryIcons;
use crate::state::InventoryState;
use crate::style::Palette;

verus! {

/// A cell of the grid and the palette it shows.
#[derive(Clone, Copy, Debug, PartialEq, Eq, Structural)]
pub struct IconCell {
    pub icon: IconComponent,
    pub palette: Palette,
}

/// Selection dominates hover, which dominates the normal look.
pub open spec fn palette_for(s: InventoryState, c: GridCoordinate) -> Palette {
    if s.selected_icon == Some(c) {
        Palette::Selected
    } else if s.hovered_icon == Some(c) {
        Palette::Hover
    } else {
        Palette::Normal
    }
}

/// Every cell repainted from `s`.
pub open spec fn reconciled(s: InventoryState, cells: Seq<IconCell>) -> Seq<IconCell> {
    cells.map_values(|c: IconCell| IconCell { palette: palette_for(s, c.icon.position()), ..c })
}

/// No two cells stand for the same coordinate.
pub open spec fn distinct_positions(cells: Seq<IconCell>) -> bool {
    forall|i: int, j: int|
        0 <= i < cells.len() && 0 <= j < cells.len() && i != j ==> cells[i].icon.position()
            != cells[j].icon.position()
}

/// Repaints every cell from the current selection and hover.
pub fn repaint_all(inv_state: &InventoryState, icons: &mut Vec<IconCell>)
    ensures
        final(icons)@ == reconciled(*inv_state, old(icons)@),
{
    let ghost old_icons = icons@;
    let n = icons.len();
    let mut i: usize = 0;
    while i < n
        invariant
            n == old_icons.len(),
            icons@.len() == n,
            0 <= i <= n,
            forall|j: int| 0 <= j < i ==> #[trigger] icons@[j] == reconciled(*inv_state, old_icons)[j],
            forall|j: int| i <= j < n ==> #[trigger] icons@[j] == old_icons[j],
        decreases n - i,
    {
        let cell = icons[i];
        let v = cell.icon.get_grid_position();
        let palette = if inv_state.selected_icon == Some(v) {
            Palette::Selected
        } else if inv_state.hovered_icon == Some(v) {
            Palette::Hover
        } else {
            Palette::Normal
        };
        icons.set(i, IconCell { palette, ..cell });
        i = i + 1;
    }
    assert(icons@ =~= reconciled(*inv_state, old_icons));
}

/// Runs one full repaint per reset request of this pass.
pub fn reset_icons_events(
    resets: &Vec<ResetInventoryIcons>,
    inv_state: &InventoryState,
    icons: &mut Vec<IconCell>,
)
    ensures
        final(icons)@ == if resets@.len() > 0 {
            reconciled(*inv_state, old(icons)@)
        } else {
            old(icons)@
        },
{
    let ghost old_icons = icons@;
    let n = resets.len();
    let mut i: usize = 0;
    while i < n
        invariant
            n == resets@.len(),
            0 <= i <= n,
            icons@ == if i > 0 {
                reconciled(*inv_state, old_icons)
            } else {
                old_icons
            },
        decreases n - i,
    {
        repaint_all(inv_state, icons);
        proof {
            lemma_reconcile_idempotent(*inv_state, old_icons);
        }
        i = i + 1;
    }
}

/// Repainting twice with no change in between gives what repainting once
/// gave.
pub proof fn lemma_reconcile_idempotent(s: InventoryState, cells: Seq<IconCell>)
    ensures
        reconciled(s, reconciled(s, cells)) == reconciled(s, cells),
{
    assert(reconciled(s, reconciled(s, cells)) =~= reconciled(s, cells));
}

/// After a repaint of cells that stand for distinct coordinates, at most one
/// cell shows the selected palette: the selected one. When the selected
/// coordinate is among the cells, exactly one does.
pub proof fn lemma_single_selection(s: InventoryState, cells: Seq<IconCell>)
    requires
        distinct_positions(cells),
    ensures
        forall|i: int|
            0 <= i < cells.len() ==> (#[trigger] reconciled(s, cells)[i].palette == Palette::Selected
                <==> s.selected_icon == Some(cells[i].icon.position())),
        forall|i: int, j: int|
            0 <= i < cells.len() && 0 <= j < cells.len() && reconciled(s, cells)[i].palette
                == Palette::Selected && reconciled(s, cells)[j].palette == Palette::Selected ==> i
                == j,
        (exists|i: int| 0 <= i < cells.len() && s.selected_icon == Some(cells[i].icon.position()))
            ==> (exists|i: int|
            0 <= i < cells.len() && #[trigger] reconciled(s, cells)[i].palette == Palette::Selected),
{
    assert forall|i: int|
        0 <= i < cells.len() implies (#[trigger] reconciled(s, cells)[i].palette
        == Palette::Selected <==> s.selected_icon == Some(cells[i].icon.position())) by {}
    if exists|i: int| 0 <= i < cells.len() && s.selected_icon == Some(cells[i].icon.position()) {
        let i = choose|i: int| 0 <= i < cells.len() && s.selected_icon == Some(cells[i].icon.position());
        assert(reconciled(s, cells)[i].palette == Palette::Selected);
    }
}

} // verus!
