//! The show/hide lifecycle: a two-state machine whose transitions commit one
//! pass after they are requested, and the construction and teardown of the
//! grid on entering each state.

use vstd::prelude::*;
use vstd::arithmetic::div_mod::{lemma_fundamental_div_mod, lemma_fundamental_div_mod_converse};
use crate::components::{GridCoordinate, IconComponent};
use crate::events::ToggleInventory;
use crate::state::InventoryState;
use crate::style::InventoryStyle;
use crate::tiles::InventoryBackgroundTiles;

verus! {

/// Whether the widget is on screen.
#[derive(Clone, Copy, Debug, PartialEq, Eq, Hash, Structural)]
pub enum InventoryStates {
    Shown,
    Hidden,
}

impl Default for InventoryStates {
    fn default() -> (r: Self)
        ensures
            r == InventoryStates::Hidden,
    {
        InventoryStates::Hidden
    }
}

/// One cell that `show` asks the host to build, with lengths in
/// milli-pixels: its slot in the scrollable panel and the button inside it.
#[derive(Clone, Debug)]
pub struct IconNode {
    pub icon: IconComponent,
    /// Path of the background image.
    pub tile: String,
    pub top: u64,
    pub left: u64,
    pub width: u32,
    pub height: u32,
    pub border: u32,
}

/// `n` is the cell in row `x`, column `y` of the grid that `style`
/// describes, with a background taken from `tiles`.
pub open spec fn is_cell(
    style: &InventoryStyle,
    tiles: &InventoryBackgroundTiles,
    n: IconNode,
    x: int,
    y: int,
) -> bool {
    &&& n.icon.position() == (GridCoordinate { x: x as i32, y: y as i32 })
    &&& n.top == style.icon_size * x + 2 * style.icon_margin
    &&& n.left == style.icon_size * y + 2 * style.icon_margin
    &&& n.width == style.icon_size - (style.icon_margin + style.icon_padding)
    &&& n.height == style.icon_size - (style.icon_margin + style.icon_padding)
    &&& n.border == style.border_width
    &&& exists|t: int| 0 <= t < tiles.tiles().len() && n.tile == tiles.tiles()[t]
}

/// `cells` is the whole grid, row after row.
pub open spec fn is_grid(
    style: &InventoryStyle,
    tiles: &InventoryBackgroundTiles,
    cells: Seq<IconNode>,
) -> bool {
    &&& cells.len() == style.rows * style.columns
    &&& forall|k: int|
        0 <= k < cells.len() ==> is_cell(
            style,
            tiles,
            #[trigger] cells[k],
            k / style.columns as int,
            k % style.columns as int,
        )
}

/// The state after `show`.
pub open spec fn shown_state(s: InventoryState) -> InventoryState {
    InventoryState { is_shown: true, ..s }
}

/// How many cells `show` builds from state `s`.
pub open spec fn cells_built(style: &InventoryStyle, s: InventoryState) -> int {
    if s.is_shown {
        0
    } else {
        style.rows * style.columns
    }
}

/// The state after `hide_inventory`.
pub open spec fn hidden_state(s: InventoryState) -> InventoryState {
    if s.is_shown {
        InventoryState { is_shown: false, selected_icon: None, hovered_icon: None, ..s }
    } else {
        s
    }
}

/// The cells of a grid stand for distinct coordinates.
pub proof fn lemma_grid_positions_distinct(
    style: &InventoryStyle,
    tiles: &InventoryBackgroundTiles,
    cells: Seq<IconNode>,
)
    requires
        style.wf(),
        is_grid(style, tiles, cells),
    ensures
        forall|i: int, j: int|
            0 <= i < cells.len() && 0 <= j < cells.len() && i != j ==> cells[i].icon.position()
                != cells[j].icon.position(),
{
    let c = style.columns as int;
    assert forall|i: int, j: int|
        0 <= i < cells.len() && 0 <= j < cells.len() && i != j implies cells[i].icon.position()
        != cells[j].icon.position() by {
        assert(is_cell(style, tiles, cells[i], i / c, i % c));
        assert(is_cell(style, tiles, cells[j], j / c, j % c));
        lemma_fundamental_div_mod(i, c);
        lemma_fundamental_div_mod(j, c);
        lemma_cell_coordinate_fits(style, i);
        lemma_cell_coordinate_fits(style, j);
        if i / c == j / c && i % c == j % c {
            assert(i == j);
        }
    }
}

proof fn lemma_cell_coordinate_fits(style: &InventoryStyle, k: int)
    requires
        style.wf(),
        0 <= k < style.rows * style.columns,
    ensures
        0 <= k / (style.columns as int) < 0x8000_0000,
        0 <= k % (style.columns as int) < 0x8000_0000,
{
    let c = style.columns as int;
    assert(k / c < style.rows) by (nonlinear_arith)
        requires
            0 <= k < style.rows * c,
            c > 0,
    {
        lemma_fundamental_div_mod(k, c);
        if k / c >= style.rows {
            assert(c * (k / c) >= c * style.rows) by (nonlinear_arith)
                requires
                    k / c >= style.rows,
                    c > 0,
            ;
        }
    }
    assert(k / c >= 0) by (nonlinear_arith)
        requires
            k >= 0,
            c > 0,
    ;
}

/// Makes the widget visible. When it already is, nothing happens and `None`
/// comes back; otherwise the cells to build come back, one per row and
/// column.
pub fn show(
    inv_style: &InventoryStyle,
    state: &mut InventoryState,
    backgrounds: &InventoryBackgroundTiles,
) -> (r: Option<Vec<IconNode>>)
    requires
        inv_style.wf(),
        backgrounds.wf(),
    ensures
        *final(state) == shown_state(*old(state)),
        r matches Some(cells) ==> cells@.len() == cells_built(inv_style, *old(state)),
        old(state).is_shown ==> r is None && *final(state) == *old(state),
        !old(state).is_shown ==> {
            &&& *final(state) == (InventoryState { is_shown: true, ..*old(state) })
            &&& r matches Some(cells) && is_grid(inv_style, backgrounds, cells@)
        },
{
    if state.is_shown {
        return None;
    }
    state.is_shown = true;
    let rows = inv_style.rows;
    let columns = inv_style.columns;
    let size = inv_style.icon_size;
    let margin = inv_style.icon_margin;
    let side = size - (margin + inv_style.icon_padding);
    assert(rows * columns <= 0x8000_0000 * 0x8000_0000) by (nonlinear_arith)
        requires
            0 < rows <= 0x8000_0000,
            0 < columns <= 0x8000_0000,
    ;
    let total: u64 = rows * columns;
    let mut cells: Vec<IconNode> = Vec::new();
    let mut x: u64 = 0;
    let mut y: u64 = 0;
    let mut k: u64 = 0;
    while k < total
        invariant
            inv_style.wf(),
            backgrounds.wf(),
            rows == inv_style.rows,
            columns == inv_style.columns,
            size == inv_style.icon_size,
            margin == inv_style.icon_margin,
            side == size - (margin + inv_style.icon_padding),
            total == rows * columns,
            k <= total,
            cells@.len() == k,
            y < columns,
            k == x * columns + y,
            forall|j: int|
                0 <= j < k ==> is_cell(
                    inv_style,
                    backgrounds,
                    #[trigger] cells@[j],
                    j / columns as int,
                    j % columns as int,
                ),
        decreases total - k,
    {
        proof {
            lemma_fundamental_div_mod_converse(k as int, columns as int, x as int, y as int);
            assert(x < rows) by (nonlinear_arith)
                requires
                    k == x * columns + y,
                    k < rows * columns,
                    y < columns,
            ;
            assert(size * x < 0x1_0000_0000 * 0x8000_0000) by (nonlinear_arith)
                requires
                    size < 0x1_0000_0000,
                    x < 0x8000_0000,
            ;
            assert(size * y < 0x1_0000_0000 * 0x8000_0000) by (nonlinear_arith)
                requires
                    size < 0x1_0000_0000,
                    y < 0x8000_0000,
            ;
        }
        let tile = backgrounds.get_random_tile_small().clone();
        let node = IconNode {
            icon: IconComponent::new(x as i32, y as i32),
            tile,
            top: size as u64 * x + 2 * margin as u64,
            left: size as u64 * y + 2 * margin as u64,
            width: side,
            height: side,
            border: inv_style.border_width,
        };
        cells.push(node);
        k = k + 1;
        y = y + 1;
        if y == columns {
            y = 0;
            x = x + 1;
        }
        assert(k == x * columns + y) by (nonlinear_arith)
            requires
                (y == 0 && k == (x - 1) * columns + columns) || (y > 0 && k == x * columns + y),
        ;
    }
    Some(cells)
}

/// Hides the widget and clears its selection and hover. Returns whether it
/// was shown, which is when the host must tear down the root and every cell
/// under it; on a hidden widget nothing happens.
pub fn hide_inventory(state: &mut InventoryState) -> (r: bool)
    ensures
        r == old(state).is_shown,
        *final(state) == hidden_state(*old(state)),
        old(state).is_shown ==> *final(state) == (InventoryState {
            is_shown: false,
            selected_icon: None,
            hovered_icon: None,
            ..*old(state)
        }),
        !old(state).is_shown ==> *final(state) == *old(state),
{
    if !state.is_shown {
        return false;
    }
    state.is_shown = false;
    state.selected_icon = None;
    state.hovered_icon = None;
    true
}

/// Showing twice in a row builds exactly one grid, and the second call
/// leaves the state as the first left it; hiding twice in a row tears down at
/// most once and leaves the widget hidden.
pub proof fn lemma_show_hide_idempotent(style: &InventoryStyle, s: InventoryState)
    ensures
        !s.is_shown ==> cells_built(style, s) + cells_built(style, shown_state(s)) == style.rows
            * style.columns,
        shown_state(shown_state(s)) == shown_state(s),
        !hidden_state(s).is_shown,
        hidden_state(hidden_state(s)) == hidden_state(s),
{
}

/// The visibility state machine: the state in force and a transition that
/// was requested and commits at the start of the next pass.
#[derive(Clone, Copy, Debug, PartialEq, Eq, Structural)]
pub struct VisibilityMachine {
    pub current: InventoryStates,
    pub pending: Option<InventoryStates>,
}

/// While shown, any toggle request asks for the hidden state.
pub fn receive_toggle_inventory_events_shown(
    toggle_events: &Vec<ToggleInventory>,
    next_state: &mut Option<InventoryStates>,
)
    ensures
        *final(next_state) == if toggle_events@.len() > 0 {
            Some(InventoryStates::Hidden)
        } else {
            *old(next_state)
        },
{
    if toggle_events.len() > 0 {
        *next_state = Some(InventoryStates::Hidden);
    }
}

/// While hidden, any toggle request asks for the shown state.
pub fn receive_toggle_inventory_events_hidden(
    toggle_events: &Vec<ToggleInventory>,
    next_state: &mut Option<InventoryStates>,
)
    ensures
        *final(next_state) == if toggle_events@.len() > 0 {
            Some(InventoryStates::Shown)
        } else {
            *old(next_state)
        },
{
    if toggle_events.len() > 0 {
        *next_state = Some(InventoryStates::Shown);
    }
}

/// One pass of the machine with `toggles` requests: the pending transition
/// commits first, then the requests of this pass are read in the state now
/// in force. Also gives the state entered, when it changed.
pub open spec fn pass(m: VisibilityMachine, toggles: nat) -> (VisibilityMachine, Option<InventoryStates>) {
    let (cur, entered) = match m.pending {
        Some(n) => if n != m.current {
            (n, Some(n))
        } else {
            (m.current, None)
        },
        None => (m.current, None),
    };
    let pending = if toggles > 0 {
        Some(
            match cur {
                InventoryStates::Shown => InventoryStates::Hidden,
                InventoryStates::Hidden => InventoryStates::Shown,
            },
        )
    } else {
        None
    };
    (VisibilityMachine { current: cur, pending }, entered)
}

impl VisibilityMachine {
    /// Hidden, with nothing pending.
    pub fn new() -> (r: Self)
        ensures
            r == (VisibilityMachine { current: InventoryStates::Hidden, pending: None }),
    {
        VisibilityMachine { current: InventoryStates::Hidden, pending: None }
    }

    /// Commits the pending transition. Returns the state entered, when the
    /// state changed: the host then runs `show` or `hide_inventory`.
    pub fn apply_transition(&mut self) -> (r: Option<InventoryStates>)
        ensures
            r == pass(*old(self), 0).1,
            final(self).current == pass(*old(self), 0).0.current,
            final(self).pending is None,
    {
        let pending = self.pending;
        self.pending = None;
        match pending {
            Some(n) => {
                if n != self.current {
                    self.current = n;
                    Some(n)
                } else {
                    None
                }
            },
            None => None,
        }
    }

    /// Runs one pass: commits what was pending, then reads this pass's
    /// toggle requests.
    pub fn step(&mut self, toggle_events: &Vec<ToggleInventory>) -> (r: Option<InventoryStates>)
        ensures
            (*final(self), r) == pass(*old(self), toggle_events@.len()),
    {
        let entered = self.apply_transition();
        match self.current {
            InventoryStates::Shown => receive_toggle_inventory_events_shown(
                toggle_events,
                &mut self.pending,
            ),
            InventoryStates::Hidden => receive_toggle_inventory_events_hidden(
                toggle_events,
                &mut self.pending,
            ),
        }
        entered
    }
}

/// The widget state after entering `entered`, if any: entering the shown
/// state runs `show`, entering the hidden state runs `hide_inventory`.
pub open spec fn after_entering(s: InventoryState, entered: Option<InventoryStates>) -> InventoryState {
    match entered {
        Some(InventoryStates::Shown) => shown_state(s),
        Some(InventoryStates::Hidden) => hidden_state(s),
        None => s,
    }
}

/// Two toggles read one pass apart, each followed by `show` or
/// `hide_inventory` as the machine enters a state, leave the widget visible
/// exactly when it was, and the machine in the state it started in.
pub proof fn lemma_toggle_round_trip_visibility(m: VisibilityMachine, s: InventoryState)
    requires
        m.pending is None,
        s.is_shown == (m.current == InventoryStates::Shown),
    ensures
        ({
            let (m1, e1) = pass(m, 1);
            let s1 = after_entering(s, e1);
            let (m2, e2) = pass(m1, 1);
            let s2 = after_entering(s1, e2);
            let (m3, e3) = pass(m2, 0);
            let s3 = after_entering(s2, e3);
            &&& s1.is_shown == s.is_shown
            &&& s2.is_shown != s.is_shown
            &&& s3.is_shown == s.is_shown
            &&& m3.current == m.current
            &&& m3.pending is None
        }),
{
}

/// A toggle takes effect one pass after it is read, and two toggles read
/// one pass apart bring the widget back to the state it started in.
pub proof fn lemma_toggle_round_trip(m: VisibilityMachine)
    requires
        m.pending is None,
    ensures
        pass(m, 1).0.current == m.current,
        pass(pass(m, 1).0, 1).0.current != m.current,
        pass(pass(pass(m, 1).0, 1).0, 0).0.current == m.current,
        pass(pass(pass(m, 1).0, 1).0, 0).0.pending is None,
{
}

} // verus!
