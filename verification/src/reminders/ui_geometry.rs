//! Where a reminder window goes on its monitor, in whole physical pixels:
//! settings centred; the bubble above the character, else below; the choices
//! below it when they fit, else above; always clamped onto the monitor.
use vstd::prelude::*;

verus! {

/// `n / 2` rounded toward zero.
pub open spec fn half(n: int) -> int {
    if n >= 0 {
        n / 2
    } else {
        -((-n) / 2)
    }
}

pub open spec fn clamp(v: int, lo: int, hi: int) -> int {
    if v < lo {
        lo
    } else if v > hi {
        hi
    } else {
        v
    }
}

pub open spec fn fits_i32(v: int) -> bool {
    i32::MIN <= v <= i32::MAX
}

/// The unclamped position: centred for settings, otherwise horizontally
/// centred on the anchor and above or below it, `gap` pixels away.
pub open spec fn raw_position(
    origin: (i32, i32),
    size: (u32, u32),
    outer: (u32, u32),
    anchor_position: (i32, i32),
    anchor_size: (u32, u32),
    gap: u32,
    settings: bool,
    choices: bool,
) -> (int, int) {
    let max0 = origin.0 + size.0 - outer.0;
    let max1 = origin.1 + size.1 - outer.1;
    if settings {
        (half(origin.0 + max0), half(origin.1 + max1))
    } else {
        let above = anchor_position.1 - outer.1 - gap;
        let below = anchor_position.1 + anchor_size.1 + gap;
        (
            anchor_position.0 + half(anchor_size.0 - outer.0),
            if choices && below <= max1 {
                below
            } else if above >= origin.1 {
                above
            } else {
                below
            },
        )
    }
}

fn half_exec(n: i64) -> (r: i64)
    requires
        n > i64::MIN,
    ensures
        r == half(n as int),
{
    if n >= 0 {
        n / 2
    } else {
        -((-n) / 2)
    }
}

fn clamp_exec(v: i64, lo: i64, hi: i64) -> (r: i64)
    requires
        lo <= hi,
    ensures
        r == clamp(v as int, lo as int, hi as int),
{
    if v < lo {
        lo
    } else if v > hi {
        hi
    } else {
        v
    }
}

/// The window's top-left corner for an outer frame `outer` on the monitor at
/// `origin` of `size`, clamped onto the monitor; `None` when that corner is
/// not a 32-bit coordinate.
pub fn position_window(
    origin: (i32, i32),
    size: (u32, u32),
    outer: (u32, u32),
    anchor_position: (i32, i32),
    anchor_size: (u32, u32),
    gap: u32,
    settings: bool,
    choices: bool,
) -> (r: Option<(i32, i32)>)
    requires
        outer.0 <= size.0,
        outer.1 <= size.1,
    ensures
        ({
            let raw = raw_position(
                origin,
                size,
                outer,
                anchor_position,
                anchor_size,
                gap,
                settings,
                choices,
            );
            let x = clamp(raw.0, origin.0 as int, origin.0 + size.0 - outer.0);
            let y = clamp(raw.1, origin.1 as int, origin.1 + size.1 - outer.1);
            r == if fits_i32(x) && fits_i32(y) {
                Some((x as i32, y as i32))
            } else {
                None::<(i32, i32)>
            }
        }),
{
    let o0 = origin.0 as i64;
    let o1 = origin.1 as i64;
    let max0 = o0 + (size.0 - outer.0) as i64;
    let max1 = o1 + (size.1 - outer.1) as i64;
    let (x, y) = if settings {
        (half_exec(o0 + max0), half_exec(o1 + max1))
    } else {
        let ay = anchor_position.1 as i64;
        let above = ay - outer.1 as i64 - gap as i64;
        let below = ay + anchor_size.1 as i64 + gap as i64;
        let x = anchor_position.0 as i64 + half_exec(anchor_size.0 as i64 - outer.0 as i64);
        let y = if choices && below <= max1 {
            below
        } else if above >= o1 {
            above
        } else {
            below
        };
        (x, y)
    };
    let cx = clamp_exec(x, o0, max0);
    let cy = clamp_exec(y, o1, max1);
    if i32::MIN as i64 <= cx && cx <= i32::MAX as i64 && i32::MIN as i64 <= cy && cy
        <= i32::MAX as i64 {
        Some((cx as i32, cy as i32))
    } else {
        None
    }
}

} // verus!
