//! Anchoring of the widget root when the viewport changes size.

use vstd::prelude::*;
use crate::state::InventoryState;
use crate::style::{Fraction, InventoryStyle, Val, MILLI};

verus! {

/// A new viewport size, in milli-pixels.
#[derive(Clone, Copy, Debug, PartialEq, Eq, Structural)]
pub struct WindowResized {
    pub width: u64,
    pub height: u64,
}

/// The top and left offsets of the widget root.
#[derive(Clone, Copy, Debug, PartialEq, Eq, Structural)]
pub struct RootOffsets {
    pub top: Val,
    pub left: Val,
}

/// Left offset, in percent of the viewport width `w`, that centers the grid.
pub open spec fn centered_left_percent(style: &InventoryStyle, w: int) -> Fraction {
    Fraction { num: (50 * (w - style.total_width())) as i128, den: w as u64 }
}

/// Top offset, in percent of the viewport height `h`, that centers the grid.
pub open spec fn centered_top_percent(style: &InventoryStyle, h: int) -> Fraction {
    Fraction { num: (50 * (h - style.total_height())) as i128, den: h as u64 }
}

/// Left offset, in pixels, that centers the grid in a viewport `w` wide.
pub open spec fn centered_left_px(style: &InventoryStyle, w: int) -> Fraction {
    Fraction { num: (w - style.total_width()) as i128, den: (2 * MILLI) as u64 }
}

/// Top offset, in pixels, that centers the grid in a viewport `h` high.
pub open spec fn centered_top_px(style: &InventoryStyle, h: int) -> Fraction {
    Fraction { num: (h - style.total_height()) as i128, den: (2 * MILLI) as u64 }
}

/// The offsets that the anchoring mode gives for viewport `ev`, or `None`
/// for a mode that does not anchor.
pub open spec fn anchored(style: &InventoryStyle, ev: WindowResized) -> Option<RootOffsets> {
    match style.positioning {
        Val::Auto => Some(
            RootOffsets {
                top: Val::Percent(centered_top_percent(style, ev.height as int)),
                left: Val::Percent(centered_left_percent(style, ev.width as int)),
            },
        ),
        Val::Percent(p) => Some(RootOffsets { top: Val::Percent(p), left: Val::Percent(p) }),
        Val::Px(p) => Some(RootOffsets { top: Val::Px(p), left: Val::Px(p) }),
        _ => None,
    }
}

/// A root's offsets after viewport `ev`.
pub open spec fn anchored_root(style: &InventoryStyle, ev: WindowResized, r: RootOffsets) -> RootOffsets {
    match anchored(style, ev) {
        Some(o) => o,
        None => r,
    }
}

/// The state after viewport `ev`: centering also records the pixel offsets.
pub open spec fn anchored_state(style: &InventoryStyle, ev: WindowResized, s: InventoryState) -> InventoryState {
    match style.positioning {
        Val::Auto => InventoryState {
            left: centered_left_px(style, ev.width as int),
            top: centered_top_px(style, ev.height as int),
            ..s
        },
        _ => s,
    }
}

/// A viewport size that centering can divide by.
pub open spec fn layout_ready(style: &InventoryStyle, ev: WindowResized) -> bool {
    style.positioning is Auto ==> ev.width > 0 && ev.height > 0
}

/// The offsets for viewport `ev` under the configured anchoring mode.
pub fn anchor_offsets(inv_style: &InventoryStyle, ev: WindowResized) -> (r: Option<RootOffsets>)
    requires
        layout_ready(inv_style, ev),
    ensures
        r == anchored(inv_style, ev),
{
    proof {
        inv_style.lemma_footprint_bounds();
    }
    match inv_style.positioning {
        Val::Auto => {
            let w = ev.width as i128 - inv_style.get_total_width() as i128;
            let h = ev.height as i128 - inv_style.get_total_height() as i128;
            Some(
                RootOffsets {
                    top: Val::Percent(Fraction { num: 50 * h, den: ev.height }),
                    left: Val::Percent(Fraction { num: 50 * w, den: ev.width }),
                },
            )
        },
        Val::Percent(p) => Some(RootOffsets { top: Val::Percent(p), left: Val::Percent(p) }),
        Val::Px(p) => Some(RootOffsets { top: Val::Px(p), left: Val::Px(p) }),
        _ => None,
    }
}

/// The left and top offsets, in pixels, that center the grid in viewport
/// `ev`.
pub fn centered_px(inv_style: &InventoryStyle, ev: WindowResized) -> (r: (Fraction, Fraction))
    ensures
        r == (centered_left_px(inv_style, ev.width as int), centered_top_px(inv_style, ev.height as int)),
{
    proof {
        inv_style.lemma_footprint_bounds();
    }
    let w = ev.width as i128 - inv_style.get_total_width() as i128;
    let h = ev.height as i128 - inv_style.get_total_height() as i128;
    (Fraction { num: w, den: 2 * MILLI }, Fraction { num: h, den: 2 * MILLI })
}

/// Re-anchors every root for each viewport size of this pass; in centering
/// mode the pixel offsets go to the state too, whether or not a root exists.
/// The last size wins.
pub fn on_window_size_changed(
    inv_style: &InventoryStyle,
    inv_state: &mut InventoryState,
    events: &Vec<WindowResized>,
    roots: &mut Vec<RootOffsets>,
)
    requires
        forall|i: int| 0 <= i < events@.len() ==> layout_ready(inv_style, #[trigger] events@[i]),
    ensures
        final(roots)@.len() == old(roots)@.len(),
        events@.len() > 0 ==> {
            &&& forall|i: int|
                0 <= i < old(roots)@.len() ==> #[trigger] final(roots)@[i] == anchored_root(
                    inv_style,
                    events@.last(),
                    old(roots)@[i],
                )
            &&& *final(inv_state) == anchored_state(inv_style, events@.last(), *old(inv_state))
        },
        events@.len() == 0 ==> {
            &&& final(roots)@ == old(roots)@
            &&& *final(inv_state) == *old(inv_state)
        },
{
    let ghost roots0 = roots@;
    let ghost s0 = *inv_state;
    let n = events.len();
    let m = roots.len();
    let mut e: usize = 0;
    while e < n
        invariant
            n == events@.len(),
            m == roots0.len(),
            roots@.len() == m,
            0 <= e <= n,
            forall|i: int| 0 <= i < events@.len() ==> layout_ready(inv_style, #[trigger] events@[i]),
            e > 0 ==> {
                &&& forall|i: int|
                    0 <= i < m ==> #[trigger] roots@[i] == anchored_root(
                        inv_style,
                        events@[e - 1],
                        roots0[i],
                    )
                &&& *inv_state == anchored_state(inv_style, events@[e - 1], s0)
            },
            e == 0 ==> roots@ == roots0 && *inv_state == s0,
        decreases n - e,
    {
        let ev = events[e];
        let offsets = anchor_offsets(inv_style, ev);
        let ghost before = roots@;
        let mut r: usize = 0;
        while r < m
            invariant
                m == roots0.len(),
                roots@.len() == m,
                before.len() == m,
                0 <= r <= m,
                offsets == anchored(inv_style, ev),
                forall|i: int| 0 <= i < r ==> #[trigger] roots@[i] == anchored_root(inv_style, ev, before[i]),
                forall|i: int| r <= i < m ==> #[trigger] roots@[i] == before[i],
            decreases m - r,
        {
            if let Some(o) = offsets {
                roots.set(r, o);
            }
            r = r + 1;
        }
        if let Val::Auto = inv_style.positioning {
            let (left, top) = centered_px(inv_style, ev);
            inv_state.left = left;
            inv_state.top = top;
        }
        proof {
            assert forall|i: int| 0 <= i < m implies #[trigger] roots@[i] == anchored_root(
                inv_style,
                ev,
                roots0[i],
            ) by {
                if e > 0 {
                    assert(before[i] == anchored_root(inv_style, events@[e - 1], roots0[i]));
                }
            }
        }
        e = e + 1;
    }
}

} // verus!
