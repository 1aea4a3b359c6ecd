//! Scroll-wheel handling for scrollable panels, clamped to the overflow of
//! their content.

use vstd::prelude::*;
use crate::components::ScrollPanel;
use crate::style::{Fraction, Val, MILLI};

verus! {

/// Lines are scaled to pixels by this factor.
pub const PX_PER_LINE: i64 = 20;

/// How the host measured a wheel movement.
#[derive(Clone, Copy, Debug, PartialEq, Eq, Structural)]
pub enum MouseScrollUnit {
    Line,
    Pixel,
}

/// One wheel movement: `y` in thousandths of a line or of a pixel.
#[derive(Clone, Copy, Debug, PartialEq, Eq, Structural)]
pub struct MouseWheel {
    pub unit: MouseScrollUnit,
    pub y: i64,
}

/// A scrollable panel, the sizes of its content and of its container in
/// milli-pixels, and the offsets applied to it.
#[derive(Clone, Copy, Debug, PartialEq, Eq, Structural)]
pub struct ScrollList {
    pub panel: ScrollPanel,
    pub content_width: u32,
    pub content_height: u32,
    pub container_width: u32,
    pub container_height: u32,
    pub left: Val,
    pub top: Val,
}

/// The movement in milli-pixels.
pub open spec fn wheel_delta(ev: MouseWheel) -> int {
    match ev.unit {
        MouseScrollUnit::Line => ev.y * PX_PER_LINE,
        MouseScrollUnit::Pixel => ev.y as int,
    }
}

pub open spec fn clamp(v: int, lo: int, hi: int) -> int {
    if v < lo {
        lo
    } else if v > hi {
        hi
    } else {
        v
    }
}

pub open spec fn max0(v: int) -> int {
    if v > 0 {
        v
    } else {
        0
    }
}

/// The horizontal overflow: how far the panel may move right.
pub open spec fn horizontal_room(l: ScrollList) -> int {
    max0(l.container_width - l.content_width)
}

/// The vertical overflow: how far the content may move up.
pub open spec fn vertical_room(l: ScrollList) -> int {
    max0(l.content_height - l.container_height)
}

/// A length of `v` milli-pixels.
pub open spec fn px_of(v: int) -> Val {
    Val::Px(Fraction { num: v as i128, den: MILLI })
}

/// One movement applied to one panel: with a shift key held along the
/// horizontal axis, kept in `[0, room]`; otherwise along the vertical axis,
/// kept in `[-room, 0]`.
pub open spec fn scrolled(l: ScrollList, ev: MouseWheel, shift: bool) -> ScrollList {
    if shift {
        let x = clamp(l.panel.x + wheel_delta(ev), 0, horizontal_room(l));
        ScrollList { panel: ScrollPanel { x: x as i64, ..l.panel }, left: px_of(x), ..l }
    } else {
        let y = clamp(l.panel.y + wheel_delta(ev), -vertical_room(l), 0);
        ScrollList { panel: ScrollPanel { y: y as i64, ..l.panel }, top: px_of(y), ..l }
    }
}

/// A panel after a series of movements.
pub open spec fn scrolled_through(l: ScrollList, evs: Seq<MouseWheel>, shift: bool) -> ScrollList
    decreases evs.len(),
{
    if evs.len() == 0 {
        l
    } else {
        scrolled(scrolled_through(l, evs.drop_last(), shift), evs.last(), shift)
    }
}

/// Scrolling never leaves the allowed range: after any movement, and from
/// an offset already in range after any series of movements, the vertical
/// offset lies in `[-room, 0]` and the horizontal one in `[0, room]`. The
/// panel's sizes do not change.
pub proof fn lemma_scroll_clamped(l: ScrollList, evs: Seq<MouseWheel>, shift: bool)
    ensures
        vertical_room(scrolled_through(l, evs, shift)) == vertical_room(l),
        horizontal_room(scrolled_through(l, evs, shift)) == horizontal_room(l),
        !shift && (evs.len() > 0 || -vertical_room(l) <= l.panel.y <= 0) ==> -vertical_room(l)
            <= scrolled_through(l, evs, shift).panel.y <= 0,
        shift && (evs.len() > 0 || 0 <= l.panel.x <= horizontal_room(l)) ==> 0
            <= scrolled_through(l, evs, shift).panel.x <= horizontal_room(l),
    decreases evs.len(),
{
    if evs.len() > 0 {
        lemma_scroll_clamped(l, evs.drop_last(), shift);
    }
}

/// Applies one movement to one panel.
pub fn scroll_list(l: &mut ScrollList, ev: MouseWheel, shift: bool)
    ensures
        *final(l) == scrolled(*old(l), ev, shift),
{
    let delta: i128 = match ev.unit {
        MouseScrollUnit::Line => ev.y as i128 * PX_PER_LINE as i128,
        MouseScrollUnit::Pixel => ev.y as i128,
    };
    if shift {
        let room: i128 = if l.container_width > l.content_width {
            (l.container_width - l.content_width) as i128
        } else {
            0
        };
        let v = l.panel.x as i128 + delta;
        let x = if v < 0 {
            0
        } else if v > room {
            room
        } else {
            v
        };
        l.panel.x = x as i64;
        l.left = Val::Px(Fraction { num: x, den: MILLI });
    } else {
        let room: i128 = if l.content_height > l.container_height {
            (l.content_height - l.container_height) as i128
        } else {
            0
        };
        let v = l.panel.y as i128 + delta;
        let y = if v < -room {
            -room
        } else if v > 0 {
            0
        } else {
            v
        };
        l.panel.y = y as i64;
        l.top = Val::Px(Fraction { num: y, den: MILLI });
    }
}

/// Applies each movement of this pass, in order, to every panel; either
/// shift key selects the horizontal axis.
pub fn mouse_scroll(
    events: &Vec<MouseWheel>,
    shift_left: bool,
    shift_right: bool,
    lists: &mut Vec<ScrollList>,
)
    ensures
        final(lists)@.len() == old(lists)@.len(),
        forall|i: int|
            0 <= i < old(lists)@.len() ==> #[trigger] final(lists)@[i] == scrolled_through(
                old(lists)@[i],
                events@,
                shift_left || shift_right,
            ),
{
    let ghost lists0 = lists@;
    let shift = shift_left || shift_right;
    let n = events.len();
    let m = lists.len();
    let mut e: usize = 0;
    while e < n
        invariant
            n == events@.len(),
            m == lists0.len(),
            lists@.len() == m,
            0 <= e <= n,
            shift == (shift_left || shift_right),
            forall|i: int|
                0 <= i < m ==> #[trigger] lists@[i] == scrolled_through(
                    lists0[i],
                    events@.take(e as int),
                    shift,
                ),
        decreases n - e,
    {
        let ev = events[e];
        assert(events@.take(e + 1).drop_last() =~= events@.take(e as int));
        assert(events@.take(e + 1).last() == ev);
        let mut r: usize = 0;
        while r < m
            invariant
                m == lists0.len(),
                lists@.len() == m,
                0 <= r <= m,
                e < n,
                n == events@.len(),
                ev == events@[e as int],
                events@.take(e + 1).drop_last() == events@.take(e as int),
                events@.take(e + 1).last() == ev,
                forall|i: int|
                    0 <= i < r ==> #[trigger] lists@[i] == scrolled_through(
                        lists0[i],
                        events@.take(e + 1),
                        shift,
                    ),
                forall|i: int|
                    r <= i < m ==> #[trigger] lists@[i] == scrolled_through(
                        lists0[i],
                        events@.take(e as int),
                        shift,
                    ),
            decreases m - r,
        {
            let mut l = lists[r];
            scroll_list(&mut l, ev, shift);
            lists.set(r, l);
            r = r + 1;
        }
        e = e + 1;
    }
    assert(events@.take(n as int) =~= events@);
}

} // verus!
