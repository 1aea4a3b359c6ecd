//! Events that the widget emits for its host.

use vstd::prelude::*;
use crate::components::GridCoordinate;

verus! {

/// A cell was clicked; `x` is its row, `y` its column.
#[derive(Clone, Copy, Debug, Default, PartialEq, Eq, Structural)]
pub struct InventoryIconClicked {
    pub x: usize,
    pub y: usize,
}

/// The pointer entered a cell.
#[derive(Clone, Copy, Debug, Default, PartialEq, Eq, Structural)]
pub struct InventoryIconMouseEnter {
    pub x: usize,
    pub y: usize,
}

/// The pointer left a cell.
#[derive(Clone, Copy, Debug, Default, PartialEq, Eq, Structural)]
pub struct InventoryIconMouseExit {
    pub x: usize,
    pub y: usize,
}

/// Asks for a full repaint of every cell.
#[derive(Clone, Copy, Debug, Default, PartialEq, Eq, Structural)]
pub struct ResetInventoryIcons;

/// Asks to switch the widget between shown and hidden.
#[derive(Clone, Copy, Debug, Default, PartialEq, Eq, Structural)]
pub struct ToggleInventory;

/// One emitted event, in the order of emission.
#[derive(Clone, Copy, Debug, PartialEq, Eq, Structural)]
pub enum InventoryEvent {
    IconClicked(InventoryIconClicked),
    MouseEnter(InventoryIconMouseEnter),
    MouseExit(InventoryIconMouseExit),
    Reset(ResetInventoryIcons),
}

impl InventoryIconClicked {
    pub fn new(x: usize, y: usize) -> (r: Self)
        ensures
            r == (InventoryIconClicked { x, y }),
    {
        InventoryIconClicked { x, y }
    }

    pub fn x(&self) -> (r: usize)
        ensures
            r == self.x,
    {
        self.x
    }

    pub fn y(&self) -> (r: usize)
        ensures
            r == self.y,
    {
        self.y
    }
}

impl InventoryIconMouseEnter {
    pub fn new(x: usize, y: usize) -> (r: Self)
        ensures
            r == (InventoryIconMouseEnter { x, y }),
    {
        InventoryIconMouseEnter { x, y }
    }

    pub fn x(&self) -> (r: usize)
        ensures
            r == self.x,
    {
        self.x
    }

    pub fn y(&self) -> (r: usize)
        ensures
            r == self.y,
    {
        self.y
    }
}

impl InventoryIconMouseExit {
    pub fn new(x: usize, y: usize) -> (r: Self)
        ensures
            r == (InventoryIconMouseExit { x, y }),
    {
        InventoryIconMouseExit { x, y }
    }

    pub fn x(&self) -> (r: usize)
        ensures
            r == self.x,
    {
        self.x
    }

    pub fn y(&self) -> (r: usize)
        ensures
            r == self.y,
    {
        self.y
    }
}

/// The (row, column) key that events use for a cell of the grid.
pub open spec fn key_of(c: GridCoordinate) -> (usize, usize) {
    (c.x as usize, c.y as usize)
}

pub open spec fn clicked_at(c: GridCoordinate) -> InventoryEvent {
    InventoryEvent::IconClicked(InventoryIconClicked { x: c.x as usize, y: c.y as usize })
}

pub open spec fn entered_at(c: GridCoordinate) -> InventoryEvent {
    InventoryEvent::MouseEnter(InventoryIconMouseEnter { x: c.x as usize, y: c.y as usize })
}

pub open spec fn exited_at(c: GridCoordinate) -> InventoryEvent {
    InventoryEvent::MouseExit(InventoryIconMouseExit { x: c.x as usize, y: c.y as usize })
}

/// Follows the hovered cell through a stream of events, starting from
/// `cur`: a `MouseEnter` is only allowed while nothing is hovered, a
/// `MouseExit` only for the cell that is hovered. `None` when the stream
/// breaks that rule, else the hovered cell at its end.
pub open spec fn hover_trace(cur: Option<(usize, usize)>, evs: Seq<InventoryEvent>) -> Option<
    Option<(usize, usize)>,
>
    decreases evs.len(),
{
    if evs.len() == 0 {
        Some(cur)
    } else {
        match hover_trace(cur, evs.drop_last()) {
            None => None,
            Some(h) => match evs.last() {
                InventoryEvent::MouseEnter(e) => if h is None {
                    Some(Some((e.x, e.y)))
                } else {
                    None
                },
                InventoryEvent::MouseExit(e) => if h == Some((e.x, e.y)) {
                    Some(None)
                } else {
                    None
                },
                _ => Some(h),
            },
        }
    }
}

/// Following two streams one after the other is following their
/// concatenation.
pub proof fn lemma_hover_trace_append(
    cur: Option<(usize, usize)>,
    a: Seq<InventoryEvent>,
    b: Seq<InventoryEvent>,
)
    ensures
        hover_trace(cur, a + b) == match hover_trace(cur, a) {
            None => None,
            Some(h) => hover_trace(h, b),
        },
    decreases b.len(),
{
    if b.len() == 0 {
        assert(a + b =~= a);
    } else {
        assert((a + b).drop_last() =~= a + b.drop_last());
        lemma_hover_trace_append(cur, a, b.drop_last());
        match hover_trace(cur, a) {
            None => {},
            Some(h) => {
                assert((a + b).last() == b.last());
            },
        }
    }
}

/// After `MouseEnter(e)` at index `i`, as long as no `MouseExit` for the same
/// cell follows, that cell stays hovered.
proof fn lemma_entered_stays(cur: Option<(usize, usize)>, evs: Seq<InventoryEvent>, i: int, e: InventoryIconMouseEnter)
    requires
        hover_trace(cur, evs) is Some,
        0 <= i < evs.len(),
        evs[i] == InventoryEvent::MouseEnter(e),
        forall|k: int|
            i < k < evs.len() ==> evs[k] != InventoryEvent::MouseExit(
                InventoryIconMouseExit { x: e.x, y: e.y },
            ),
    ensures
        hover_trace(cur, evs) == Some(Some((e.x, e.y))),
    decreases evs.len(),
{
    let p = evs.drop_last();
    if i < evs.len() - 1 {
        assert(p[i] == evs[i]);
        assert forall|k: int| i < k < p.len() implies p[k] != InventoryEvent::MouseExit(
            InventoryIconMouseExit { x: e.x, y: e.y },
        ) by {
            assert(p[k] == evs[k]);
        }
        lemma_entered_stays(cur, p, i, e);
        let last = evs.last();
        assert(evs[evs.len() - 1] == last);
        match last {
            InventoryEvent::MouseExit(x) => {
                assert(x == InventoryIconMouseExit { x: e.x, y: e.y });
            },
            _ => {},
        }
    }
}

/// A cell is never entered twice in a row: between two `MouseEnter` events
/// of a well-formed stream there is a `MouseExit` for the cell that the first
/// one entered.
pub proof fn lemma_no_double_enter(
    cur: Option<(usize, usize)>,
    evs: Seq<InventoryEvent>,
    i: int,
    j: int,
    e: InventoryIconMouseEnter,
    f: InventoryIconMouseEnter,
)
    requires
        hover_trace(cur, evs) is Some,
        0 <= i < j < evs.len(),
        evs[i] == InventoryEvent::MouseEnter(e),
        evs[j] == InventoryEvent::MouseEnter(f),
    ensures
        exists|k: int|
            i < k < j && evs[k] == InventoryEvent::MouseExit(
                InventoryIconMouseExit { x: e.x, y: e.y },
            ),
    decreases evs.len(),
{
    let p = evs.drop_last();
    if j < evs.len() - 1 {
        assert(p[i] == evs[i] && p[j] == evs[j]);
        lemma_no_double_enter(cur, p, i, j, e, f);
        let k = choose|k: int|
            i < k < j && p[k] == InventoryEvent::MouseExit(
                InventoryIconMouseExit { x: e.x, y: e.y },
            );
        assert(evs[k] == p[k]);
    } else {
        assert(evs.last() == evs[j]);
        if forall|k: int|
            i < k < p.len() ==> p[k] != InventoryEvent::MouseExit(
                InventoryIconMouseExit { x: e.x, y: e.y },
            ) {
            assert(p[i] == evs[i]);
            lemma_entered_stays(cur, p, i, e);
        } else {
            let k = choose|k: int|
                i < k < p.len() && p[k] == InventoryEvent::MouseExit(
                    InventoryIconMouseExit { x: e.x, y: e.y },
                );
            assert(evs[k] == p[k]);
        }
    }
}

} // verus!
