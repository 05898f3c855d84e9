//! Progress-bar rendering of a scalar across consecutive pad indices.
//!
//! A run of `last + 1` pads (indices `0 ..= last`, for the grid read in
//! row-major order with index `y * 8 + x`) displays a [`Volume`] `v`: the pad
//! at index `idx` stands for the position `idx / last` in `[0, 1]`.  A pad
//! whose position is within `1/100` of `v` shows the marker color, one whose
//! position is at most `v` shows the filled color, any other the empty color.
//! The comparisons are exact: `|idx/last - num/den| < 1/100` is decided as
//! `|100 * (idx*den - num*last)| < last*den`.

use crate::model::Color;
use crate::volume::Volume;
use vstd::prelude::*;

verus! {

/// Position `idx / last` lies strictly within `1/100` of `v`.
pub open spec fn bar_is_marker(idx: int, last: int, v: Volume) -> bool {
    let lhs = 100 * (idx * v.den - v.num * last);
    -(last * v.den) < lhs < last * v.den
}

/// Position `idx / last` is at most `v`.
pub open spec fn bar_is_filled(idx: int, last: int, v: Volume) -> bool {
    idx * v.den <= v.num * last
}

/// The color the bar gives to index `idx`: the marker band wins, then the
/// filled region, then the empty remainder.
pub open spec fn bar_color_spec(
    idx: int,
    last: int,
    v: Volume,
    marker: Color,
    filled: Color,
    empty: Color,
) -> Color {
    if bar_is_marker(idx, last, v) {
        marker
    } else if bar_is_filled(idx, last, v) {
        filled
    } else {
        empty
    }
}

/// Decide the color of index `idx` out of `0 ..= last` for value `v`.
pub fn bar_color(idx: u8, last: u8, v: Volume, marker: Color, filled: Color, empty: Color) -> (c:
    Color)
    requires
        1 <= last,
        idx <= last,
        v.wf(),
    ensures
        c == bar_color_spec(idx as int, last as int, v, marker, filled, empty),
{
    proof {
        assert((idx as int) * (v.den as int) <= 255 * 10000 && (v.num as int) * (last as int) <= 10000
            * 255 && (last as int) * (v.den as int) <= 255 * 10000) by (nonlinear_arith)
            requires
                idx <= 255,
                v.den <= 10000,
                v.num <= 10000,
                last <= 255,
        ;
    }
    let a: u64 = (idx as u64) * (v.den as u64);
    let b: u64 = (v.num as u64) * (last as u64);
    let bound: u64 = (last as u64) * (v.den as u64);
    let is_marker: bool = if a >= b {
        100 * (a - b) < bound
    } else {
        100 * (b - a) < bound
    };
    if is_marker {
        marker
    } else if a <= b {
        filled
    } else {
        empty
    }
}

/// At volume zero only index 0 lies in the marker band; every other index is
/// empty (its position exceeds zero, so it is not filled either).
pub proof fn lemma_bar_zero(idx: int, v: Volume, marker: Color, filled: Color, empty: Color)
    requires
        0 <= idx <= 63,
        v.wf(),
        v.num == 0,
    ensures
        idx == 0 ==> bar_color_spec(idx, 63, v, marker, filled, empty) == marker,
        idx >= 1 ==> bar_color_spec(idx, 63, v, marker, filled, empty) == empty,
{
    if idx == 0 {
        assert(bar_is_marker(0, 63, v)) by (nonlinear_arith)
            requires
                v.den >= 1,
                v.num == 0,
        ;
    } else {
        assert(!bar_is_marker(idx, 63, v) && !bar_is_filled(idx, 63, v)) by (nonlinear_arith)
            requires
                v.den >= 1,
                v.num == 0,
                idx >= 1,
        ;
    }
}

/// At full volume index 63 lies in the marker band; every other index is
/// filled.
pub proof fn lemma_bar_full(idx: int, v: Volume, marker: Color, filled: Color, empty: Color)
    requires
        0 <= idx <= 63,
        v.wf(),
        v.num == v.den,
    ensures
        idx == 63 ==> bar_color_spec(idx, 63, v, marker, filled, empty) == marker,
        idx < 63 ==> bar_color_spec(idx, 63, v, marker, filled, empty) == filled,
{
    if idx == 63 {
        assert(bar_is_marker(63, 63, v)) by (nonlinear_arith)
            requires
                v.den >= 1,
                v.num == v.den,
        ;
    } else {
        assert(!bar_is_marker(idx, 63, v) && bar_is_filled(idx, 63, v)) by (nonlinear_arith)
            requires
                v.den >= 1,
                v.num == v.den,
                0 <= idx < 63,
        ;
    }
}

/// At half volume over 64 pads, exactly indices 31 and 32 lie in the marker
/// band, the filled region ends at index 31, and no index sits exactly at
/// one half (position `idx/63` never equals `1/2`), so the strict marker
/// test and the non-strict filled test never disagree on an exact hit.
pub proof fn lemma_bar_half(idx: int, v: Volume, marker: Color, filled: Color, empty: Color)
    requires
        0 <= idx <= 63,
        v.wf(),
        v.den == 2 * v.num,
    ensures
        bar_is_marker(idx, 63, v) <==> (idx == 31 || idx == 32),
        bar_is_filled(idx, 63, v) <==> idx <= 31,
        idx * v.den != v.num * 63,
        idx <= 30 ==> bar_color_spec(idx, 63, v, marker, filled, empty) == filled,
        idx == 31 || idx == 32 ==> bar_color_spec(idx, 63, v, marker, filled, empty) == marker,
        idx >= 33 ==> bar_color_spec(idx, 63, v, marker, filled, empty) == empty,
{
    assert((bar_is_marker(idx, 63, v) <==> (idx == 31 || idx == 32)) && (bar_is_filled(idx, 63, v)
        <==> idx <= 31) && idx * v.den != v.num * 63) by (nonlinear_arith)
        requires
            v.num >= 1,
            v.den == 2 * v.num,
            0 <= idx <= 63,
    ;
}

} // verus!
