//! Plain data carried by the widget's drawable entities.

use vstd::prelude::*;

verus! {

/// The position of a cell in the grid: `x` is its row, `y` its column.
#[derive(Clone, Copy, Debug, PartialEq, Eq, Hash, Structural)]
pub struct GridCoordinate {
    pub x: i32,
    pub y: i32,
}

/// Maps an on-screen icon to its cell of the grid.
#[derive(Clone, Copy, Debug, PartialEq, Eq, Structural)]
pub struct IconComponent {
    item_id: GridCoordinate,
}

impl IconComponent {
    /// The coordinate that this icon stands for.
    pub closed spec fn position(&self) -> GridCoordinate {
        self.item_id
    }

    /// An icon for the cell in row `x`, column `y`.
    pub fn new(x: i32, y: i32) -> (r: Self)
        ensures
            r.position() == (GridCoordinate { x, y }),
    {
        IconComponent { item_id: GridCoordinate { x, y } }
    }

    pub fn get_grid_position(&self) -> (r: GridCoordinate)
        ensures
            r == self.position(),
    {
        self.item_id
    }
}

/// Scroll offsets of a scrollable panel, in milli-pixels: `x` along the
/// horizontal axis (kept in `[0, max]`), `y` along the vertical axis (kept in
/// `[-max, 0]`).
#[derive(Clone, Copy, Debug, PartialEq, Eq, Structural)]
pub struct ScrollPanel {
    pub x: i64,
    pub y: i64,
}

impl Default for ScrollPanel {
    fn default() -> (r: Self)
        ensures
            r.x == 0 && r.y == 0,
    {
        ScrollPanel { x: 0, y: 0 }
    }
}

/// Marks the root of the inventory interface.
#[derive(Clone, Copy, Debug, PartialEq, Eq, Structural)]
pub struct UiRootComponent;

/// Marks the camera that renders the interface.
#[derive(Clone, Copy, Debug, PartialEq, Eq, Structural)]
pub struct UiCameraComponent;

} // verus!
