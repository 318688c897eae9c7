//! Window-management decisions: placement arithmetic, and which windows a
//! lock or unlock request covers.
//!
//! The window-manager plumbing itself (creating webview windows, querying
//! monitors) happens outside this crate; these functions compute, from plain
//! monitor and window measurements, where a window goes.

use vstd::prelude::*;
use crate::text::str_eq;

verus! {

/// Whether a window label falls under a lock or unlock request: a request
/// without a list covers every window, one with a list covers exactly the
/// labels it names.
pub fn window_selected(label: &str, ids: &Option<Vec<String>>) -> (r: bool)
    ensures
        r == ((*ids) is None || exists|m: int|
            0 <= m < ((*ids)->0)@.len() && #[trigger] ((*ids)->0)@[m]@ == label@),
{
    match ids {
        None => true,
        Some(list) => {
            let mut k: usize = 0;
            while k < list.len()
                invariant
                    *ids == Some(*list),
                    k <= list@.len(),
                    forall|m: int| 0 <= m < k ==> #[trigger] list@[m]@ != label@,
                decreases list@.len() - k,
            {
                if str_eq(list[k].as_str(), label) {
                    proof {
                        assert((*ids) is Some && (*ids)->0 == *list);
                        assert(0 <= k < ((*ids)->0)@.len() && ((*ids)->0)@[k as int]@ == label@);
                    }
                    return true;
                }
                k = k + 1;
            }
            false
        },
    }
}

/// Division rounding toward zero, the rounding that the machine's signed
/// division performs; it differs from `int` division on negative operands.
pub open spec fn div_trunc(a: int, b: int) -> int
    recommends
        b > 0,
{
    if a >= 0 {
        a / b
    } else {
        -((-a) / b)
    }
}

/// Horizontal and vertical offset, in physical pixels, applied to the
/// `count`-th window so that stacked windows cascade instead of hiding one
/// another exactly.  Windows alternate direction: odd counts shift up-left,
/// even counts shift down-right.
pub open spec fn spec_cascade_offset(count: int) -> int {
    if count % 2 != 0 {
        -(count * 20)
    } else {
        count * 20
    }
}

/// Cascade offset for the window opened while `count` windows already exist.
pub fn cascade_offset(count: u32) -> (off: i64)
    ensures
        off == spec_cascade_offset(count as int),
{
    let base: i64 = (count as i64) * 20;
    if count % 2 != 0 {
        -base
    } else {
        base
    }
}

/// Top-left corner that centers a window of `win` pixels on a monitor
/// spanning `mon` pixels starting at `mon_pos`, along one axis.
pub open spec fn spec_centered(mon_pos: int, mon: int, win: int) -> int {
    mon_pos + div_trunc(mon - win, 2)
}

/// Centered coordinate along one axis, computed in 64-bit arithmetic so that
/// any physical monitor or window size is in range.
pub fn centered(mon_pos: i32, mon: u32, win: u32) -> (pos: i64)
    ensures
        pos == spec_centered(mon_pos as int, mon as int, win as int),
{
    let diff: i64 = mon as i64 - win as i64;
    mon_pos as i64 + diff / 2
}

/// Placement of the toolbar window on a monitor, in physical pixels:
/// horizontally centered, vertically at one quarter of the monitor height.
pub open spec fn spec_toolbar_pos(
    mon_x: int,
    mon_y: int,
    mon_w: int,
    mon_h: int,
    toolbar_w: int,
) -> (int, int) {
    (mon_x + div_trunc(mon_w - toolbar_w, 2), mon_y + mon_h / 4)
}

/// Toolbar position for the given monitor geometry and toolbar width.
pub fn toolbar_pos(mon_x: i32, mon_y: i32, mon_w: u32, mon_h: u32, toolbar_w: u32) -> (pos: (
    i64,
    i64,
))
    ensures
        pos.0 == spec_toolbar_pos(
            mon_x as int,
            mon_y as int,
            mon_w as int,
            mon_h as int,
            toolbar_w as int,
        ).0,
        pos.1 == spec_toolbar_pos(
            mon_x as int,
            mon_y as int,
            mon_w as int,
            mon_h as int,
            toolbar_w as int,
        ).1,
{
    let x: i64 = mon_x as i64 + (mon_w as i64 - toolbar_w as i64) / 2;
    let y: i64 = mon_y as i64 + (mon_h as i64) / 4;
    (x, y)
}

} // verus!
