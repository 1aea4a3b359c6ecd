//! Turns per-cell pointer signals into selection and hover changes, events,
//! and an immediate repaint of the signalling cell.

use vstd::prelude::*;
use crate::components::{GridCoordinate, IconComponent};
use crate::events::{
    clicked_at, entered_at, exited_at, hover_trace, key_of, lemma_hover_trace_append,
    lemma_no_double_enter,
    InventoryEvent, InventoryIconClicked, InventoryIconMouseEnter, InventoryIconMouseExit,
    ResetInventoryIcons,
};
use crate::state::{cell_in_grid, in_grid, InventoryState};
use crate::style::{InventoryStyle, Palette};

verus! {

/// The pointer's relation to a cell: pressed on it, over it, or neither.
#[derive(Clone, Copy, Debug, PartialEq, Eq, Structural)]
pub enum Interaction {
    Pressed,
    Hovered,
    Idle,
}

/// A cell whose interaction changed this frame, with the palette it shows.
#[derive(Clone, Copy, Debug, PartialEq, Eq, Structural)]
pub struct IconButton {
    pub icon: IconComponent,
    pub interaction: Interaction,
    pub palette: Palette,
}

/// The event key of the hovered cell, if any.
pub open spec fn hover_key(h: Option<GridCoordinate>) -> Option<(usize, usize)> {
    match h {
        Some(c) => Some(key_of(c)),
        None => None,
    }
}

/// What one signal does: the next state, the palette that the cell is given
/// (`None` for a coordinate outside the grid, which is ignored), and the
/// events emitted, in order.
pub open spec fn interaction_step(
    style: &InventoryStyle,
    s: InventoryState,
    c: GridCoordinate,
    i: Interaction,
) -> (InventoryState, Option<Palette>, Seq<InventoryEvent>) {
    if !in_grid(style, c) {
        (s, None, seq![])
    } else {
        match i {
            Interaction::Pressed => (
                InventoryState { selected_icon: Some(c), ..s },
                Some(Palette::Selected),
                seq![clicked_at(c), InventoryEvent::Reset(ResetInventoryIcons)],
            ),
            Interaction::Hovered => {
                let p = if s.selected_icon == Some(c) {
                    Palette::Selected
                } else {
                    Palette::Hover
                };
                match s.hovered_icon {
                    Some(h) => if h == c {
                        (s, Some(p), seq![])
                    } else {
                        (
                            InventoryState { hovered_icon: Some(c), ..s },
                            Some(p),
                            seq![exited_at(h), entered_at(c)],
                        )
                    },
                    None => (
                        InventoryState { hovered_icon: Some(c), ..s },
                        Some(p),
                        seq![entered_at(c)],
                    ),
                }
            },
            Interaction::Idle => {
                let p = if s.selected_icon == Some(c) {
                    Palette::Selected
                } else {
                    Palette::Normal
                };
                if s.hovered_icon == Some(c) {
                    (InventoryState { hovered_icon: None, ..s }, Some(p), seq![exited_at(c)])
                } else {
                    (s, Some(p), seq![])
                }
            },
        }
    }
}

/// The state and the events after processing `bs` in order from `s`.
pub open spec fn run_interactions(style: &InventoryStyle, s: InventoryState, bs: Seq<IconButton>) -> (
    InventoryState,
    Seq<InventoryEvent>,
)
    decreases bs.len(),
{
    if bs.len() == 0 {
        (s, seq![])
    } else {
        let prev = run_interactions(style, s, bs.drop_last());
        let b = bs.last();
        let step = interaction_step(style, prev.0, b.icon.position(), b.interaction);
        (step.0, prev.1 + step.2)
    }
}

/// The palette that the `i`-th signal leaves on its cell.
pub open spec fn painted(style: &InventoryStyle, s: InventoryState, bs: Seq<IconButton>, i: int) -> Palette {
    let at = run_interactions(style, s, bs.take(i)).0;
    match interaction_step(style, at, bs[i].icon.position(), bs[i].interaction).1 {
        Some(p) => p,
        None => bs[i].palette,
    }
}

/// The coordinate of the last press on a cell of the grid among `bs`.
pub open spec fn last_press(style: &InventoryStyle, bs: Seq<IconButton>) -> Option<GridCoordinate>
    decreases bs.len(),
{
    if bs.len() == 0 {
        None
    } else {
        let b = bs.last();
        if b.interaction == Interaction::Pressed && in_grid(style, b.icon.position()) {
            Some(b.icon.position())
        } else {
            last_press(style, bs.drop_last())
        }
    }
}

/// Whatever the signals, selection holds a single coordinate: that of the
/// last press on a cell of the grid, or, without one, what it held before.
pub proof fn lemma_selection_from_presses(style: &InventoryStyle, s: InventoryState, bs: Seq<IconButton>)
    ensures
        run_interactions(style, s, bs).0.selected_icon == match last_press(style, bs) {
            Some(c) => Some(c),
            None => s.selected_icon,
        },
    decreases bs.len(),
{
    if bs.len() > 0 {
        lemma_selection_from_presses(style, s, bs.drop_last());
    }
}

/// Processing signals keeps selection and hover inside the grid, and the
/// emitted hover events follow the hovered cell.
pub proof fn lemma_run_interactions(style: &InventoryStyle, s: InventoryState, bs: Seq<IconButton>)
    requires
        s.wf_for(style),
    ensures
        run_interactions(style, s, bs).0.wf_for(style),
        hover_trace(hover_key(s.hovered_icon), run_interactions(style, s, bs).1) == Some(
            hover_key(run_interactions(style, s, bs).0.hovered_icon),
        ),
    decreases bs.len(),
{
    if bs.len() > 0 {
        let prev = run_interactions(style, s, bs.drop_last());
        lemma_run_interactions(style, s, bs.drop_last());
        let b = bs.last();
        let step = interaction_step(style, prev.0, b.icon.position(), b.interaction);
        lemma_hover_trace_append(hover_key(s.hovered_icon), prev.1, step.2);
        lemma_step_hover(style, prev.0, b.icon.position(), b.interaction);
    }
}

proof fn lemma_step_hover(style: &InventoryStyle, s: InventoryState, c: GridCoordinate, i: Interaction)
    requires
        s.wf_for(style),
    ensures
        hover_trace(hover_key(s.hovered_icon), interaction_step(style, s, c, i).2) == Some(
            hover_key(interaction_step(style, s, c, i).0.hovered_icon),
        ),
{
    let evs = interaction_step(style, s, c, i).2;
    let cur = hover_key(s.hovered_icon);
    reveal_with_fuel(hover_trace, 3);
    if evs.len() == 2 {
        assert(evs.drop_last() =~= seq![evs[0]]);
        assert(evs.drop_last().drop_last() =~= Seq::<InventoryEvent>::empty());
    } else if evs.len() == 1 {
        assert(evs.drop_last() =~= Seq::<InventoryEvent>::empty());
    }
    if in_grid(style, c) && i == Interaction::Hovered {
        if let Some(h) = s.hovered_icon {
            if h != c {
                // Distinct cells of the grid have distinct keys.
                assert(key_of(h) != key_of(c));
            }
        }
    }
}

/// The state and the events after a series of frames, each one call of
/// `button_system` on that frame's signals, starting from `s`.
pub open spec fn run_frames(style: &InventoryStyle, s: InventoryState, frames: Seq<Seq<IconButton>>) -> (
    InventoryState,
    Seq<InventoryEvent>,
)
    decreases frames.len(),
{
    if frames.len() == 0 {
        (s, seq![])
    } else {
        let prev = run_frames(style, s, frames.drop_last());
        let last = run_interactions(style, prev.0, frames.last());
        (last.0, prev.1 + last.1)
    }
}

/// Over any series of frames the state stays inside the grid and the
/// emitted hover events follow the hovered cell.
pub proof fn lemma_run_frames(style: &InventoryStyle, s: InventoryState, frames: Seq<Seq<IconButton>>)
    requires
        s.wf_for(style),
    ensures
        run_frames(style, s, frames).0.wf_for(style),
        hover_trace(hover_key(s.hovered_icon), run_frames(style, s, frames).1) == Some(
            hover_key(run_frames(style, s, frames).0.hovered_icon),
        ),
    decreases frames.len(),
{
    if frames.len() > 0 {
        let prev = run_frames(style, s, frames.drop_last());
        lemma_run_frames(style, s, frames.drop_last());
        lemma_run_interactions(style, prev.0, frames.last());
        lemma_hover_trace_append(
            hover_key(s.hovered_icon),
            prev.1,
            run_interactions(style, prev.0, frames.last()).1,
        );
    }
}

/// Across any series of frames, between two `MouseEnter` events there is a
/// `MouseExit` for the cell that the first one entered: a cell is never
/// entered twice in a row.
pub proof fn lemma_no_double_enter_across_frames(
    style: &InventoryStyle,
    s: InventoryState,
    frames: Seq<Seq<IconButton>>,
    i: int,
    j: int,
    e: InventoryIconMouseEnter,
    f: InventoryIconMouseEnter,
)
    requires
        s.wf_for(style),
        0 <= i < j < run_frames(style, s, frames).1.len(),
        run_frames(style, s, frames).1[i] == InventoryEvent::MouseEnter(e),
        run_frames(style, s, frames).1[j] == InventoryEvent::MouseEnter(f),
    ensures
        exists|k: int|
            i < k < j && run_frames(style, s, frames).1[k] == InventoryEvent::MouseExit(
                InventoryIconMouseExit { x: e.x, y: e.y },
            ),
{
    lemma_run_frames(style, s, frames);
    lemma_no_double_enter(hover_key(s.hovered_icon), run_frames(style, s, frames).1, i, j, e, f);
}

fn event_coordinate(c: GridCoordinate) -> (r: (usize, usize))
    requires
        c.x >= 0,
        c.y >= 0,
    ensures
        r == key_of(c),
{
    (c.x as usize, c.y as usize)
}

/// Processes the cells whose interaction changed this frame, in order:
/// each one in the grid is repainted and may change selection or hover;
/// returns the events emitted, in order.
pub fn button_system(
    inv_style: &InventoryStyle,
    inv_state: &mut InventoryState,
    buttons: &mut Vec<IconButton>,
) -> (events: Vec<InventoryEvent>)
    requires
        old(inv_state).wf_for(inv_style),
    ensures
        (*final(inv_state), events@) == run_interactions(inv_style, *old(inv_state), old(buttons)@),
        final(buttons)@.len() == old(buttons)@.len(),
        forall|i: int|
            0 <= i < final(buttons)@.len() ==> #[trigger] final(buttons)@[i] == (IconButton {
                palette: painted(inv_style, *old(inv_state), old(buttons)@, i),
                ..old(buttons)@[i]
            }),
        final(inv_state).wf_for(inv_style),
        hover_trace(hover_key(old(inv_state).hovered_icon), events@) == Some(
            hover_key(final(inv_state).hovered_icon),
        ),
{
    let ghost s0 = *inv_state;
    let ghost bs = buttons@;
    let mut events: Vec<InventoryEvent> = Vec::new();
    let n = buttons.len();
    let mut i: usize = 0;
    while i < n
        invariant
            n == bs.len(),
            buttons@.len() == n,
            0 <= i <= n,
            inv_state.wf_for(inv_style),
            (*inv_state, events@) == run_interactions(inv_style, s0, bs.take(i as int)),
            forall|j: int|
                0 <= j < i ==> #[trigger] buttons@[j] == (IconButton {
                    palette: painted(inv_style, s0, bs, j),
                    ..bs[j]
                }),
            forall|j: int| i <= j < n ==> #[trigger] buttons@[j] == bs[j],
        decreases n - i,
    {
        let b = buttons[i];
        let v = b.icon.get_grid_position();
        let ghost before = *inv_state;
        let ghost ev_before = events@;
        assert(bs.take(i + 1).drop_last() =~= bs.take(i as int));
        assert(bs.take(i + 1).last() == bs[i as int]);
        if cell_in_grid(inv_style, v) {
            let (x, y) = event_coordinate(v);
            let palette;
            match b.interaction {
                Interaction::Pressed => {
                    palette = Palette::Selected;
                    events.push(InventoryEvent::IconClicked(InventoryIconClicked::new(x, y)));
                    inv_state.selected_icon = Some(v);
                    events.push(InventoryEvent::Reset(ResetInventoryIcons));
                },
                Interaction::Hovered => {
                    palette = if inv_state.selected_icon == Some(v) {
                        Palette::Selected
                    } else {
                        Palette::Hover
                    };
                    match inv_state.hovered_icon {
                        Some(h) => {
                            if h != v {
                                let (hx, hy) = event_coordinate(h);
                                events.push(InventoryEvent::MouseExit(InventoryIconMouseExit::new(hx, hy)));
                                events.push(InventoryEvent::MouseEnter(InventoryIconMouseEnter::new(x, y)));
                                inv_state.hovered_icon = Some(v);
                            }
                        },
                        None => {
                            events.push(InventoryEvent::MouseEnter(InventoryIconMouseEnter::new(x, y)));
                            inv_state.hovered_icon = Some(v);
                        },
                    }
                },
                Interaction::Idle => {
                    if inv_state.hovered_icon == Some(v) {
                        events.push(InventoryEvent::MouseExit(InventoryIconMouseExit::new(x, y)));
                        inv_state.hovered_icon = None;
                    }
                    palette = if inv_state.selected_icon == Some(v) {
                        Palette::Selected
                    } else {
                        Palette::Normal
                    };
                },
            }
            buttons.set(i, IconButton { palette, ..b });
            proof {
                let step = interaction_step(inv_style, before, v, b.interaction);
                assert(events@ =~= ev_before + step.2);
            }
        } else {
            proof {
                assert(events@ =~= ev_before + seq![]);
            }
        }
        i = i + 1;
    }
    proof {
        assert(bs.take(n as int) =~= bs);
        lemma_run_interactions(inv_style, s0, bs);
    }
    events
}

} // verus!
