//! The single piece of mutable state shared by the widget's passes.

use vstd::prelude::*;
use crate::components::GridCoordinate;
use crate::style::{Fraction, InventoryStyle};

verus! {

/// Layout offset, hovered and selected cell, and visibility of the widget.
#[derive(Clone, Copy, Debug, PartialEq, Eq, Structural)]
pub struct InventoryState {
    /// Left offset of the widget root, in pixels.
    pub left: Fraction,
    /// Top offset of the widget root, in pixels.
    pub top: Fraction,
    pub selected_icon: Option<GridCoordinate>,
    pub hovered_icon: Option<GridCoordinate>,
    pub is_shown: bool,
}

/// Whether `c` names a cell of the grid that `style` describes.
pub open spec fn in_grid(style: &InventoryStyle, c: GridCoordinate) -> bool {
    0 <= c.x < style.rows && 0 <= c.y < style.columns
}

/// Whether `c` names a cell of the grid that `style` describes.
pub fn cell_in_grid(style: &InventoryStyle, c: GridCoordinate) -> (r: bool)
    ensures
        r == in_grid(style, c),
{
    0 <= c.x && (c.x as u64) < style.rows && 0 <= c.y && (c.y as u64) < style.columns
}

impl InventoryState {
    /// Selection and hover each name a cell of the grid, when set.
    pub open spec fn wf_for(&self, style: &InventoryStyle) -> bool {
        &&& (self.selected_icon matches Some(c) ==> in_grid(style, c))
        &&& (self.hovered_icon matches Some(c) ==> in_grid(style, c))
    }

    /// Whether selection and hover each name a cell of the grid, when set.
    pub fn fits(&self, style: &InventoryStyle) -> (r: bool)
        ensures
            r == self.wf_for(style),
    {
        let selected_ok = match self.selected_icon {
            Some(c) => cell_in_grid(style, c),
            None => true,
        };
        let hovered_ok = match self.hovered_icon {
            Some(c) => cell_in_grid(style, c),
            None => true,
        };
        selected_ok && hovered_ok
    }

    pub fn get_left(&self) -> (r: Fraction)
        ensures
            r == self.left,
    {
        self.left
    }

    pub fn set_left(&mut self, value: Fraction)
        ensures
            *final(self) == (InventoryState { left: value, ..*old(self) }),
    {
        self.left = value;
    }

    pub fn get_top(&self) -> (r: Fraction)
        ensures
            r == self.top,
    {
        self.top
    }

    pub fn set_top(&mut self, value: Fraction)
        ensures
            *final(self) == (InventoryState { top: value, ..*old(self) }),
    {
        self.top = value;
    }

    pub fn get_selected_icon(&self) -> (r: Option<GridCoordinate>)
        ensures
            r == self.selected_icon,
    {
        self.selected_icon
    }

    pub fn set_selected_icon(&mut self, value: Option<GridCoordinate>)
        ensures
            *final(self) == (InventoryState { selected_icon: value, ..*old(self) }),
    {
        self.selected_icon = value;
    }

    pub fn get_hovered_icon(&self) -> (r: Option<GridCoordinate>)
        ensures
            r == self.hovered_icon,
    {
        self.hovered_icon
    }

    pub fn set_hovered_icon(&mut self, value: Option<GridCoordinate>)
        ensures
            *final(self) == (InventoryState { hovered_icon: value, ..*old(self) }),
    {
        self.hovered_icon = value;
    }

    pub fn is_shown(&self) -> (r: bool)
        ensures
            r == self.is_shown,
    {
        self.is_shown
    }

    pub fn set_is_shown(&mut self, value: bool)
        ensures
            *final(self) == (InventoryState { is_shown: value, ..*old(self) }),
    {
        self.is_shown = value;
    }
}

impl Default for InventoryState {
    /// No offset, nothing selected or hovered, hidden.
    fn default() -> (r: Self)
        ensures
            r.left == (Fraction { num: 0, den: 1 }),
            r.top == (Fraction { num: 0, den: 1 }),
            r.selected_icon is None,
            r.hovered_icon is None,
            !r.is_shown,
    {
        InventoryState {
            left: Fraction::whole(0),
            top: Fraction::whole(0),
            selected_icon: None,
            hovered_icon: None,
            is_shown: false,
        }
    }
}

} // verus!
