//! The frame chart and the frame list of the performance panels.
use crate::text::{decimal, decimal_u128, decimal_u64};
use vstd::prelude::*;

verus! {

/// The width of the legend box: the longest legend entry, "Raster Jank",
/// and its two borders.
pub const LEGEND_WIDTH: u16 = 13;

/// The width of one bar of the chart.
pub const BAR_WIDTH: u16 = 3;

/// The gap between the two bars of consecutive frames.
pub const GROUP_GAP: u16 = 1;

/// How many frames fit in a chart `area_width` wide beside the legend: each
/// frame takes two bars and a gap, and the chart has two borders.
pub open spec fn frames_that_fit(area_width: int) -> int {
    (area_width - LEGEND_WIDTH - 2) / (BAR_WIDTH * 2 + GROUP_GAP) as int
}

pub fn max_frame_count(area_width: u16) -> (n: usize)
    requires
        area_width >= LEGEND_WIDTH + 2,
    ensures
        n == frames_that_fit(area_width as int),
{
    ((area_width - LEGEND_WIDTH - 2) / (BAR_WIDTH * 2 + GROUP_GAP)) as usize
}

/// How many of the oldest frames are left out so that the newest fit.
pub open spec fn frames_skipped(frame_count: int, max_count: int) -> int {
    if frame_count > max_count {
        frame_count - max_count
    } else {
        0
    }
}

pub fn frames_to_skip(frame_count: usize, max_count: usize) -> (n: usize)
    ensures
        n == frames_skipped(frame_count as int, max_count as int),
{
    if frame_count > max_count {
        frame_count - max_count
    } else {
        0
    }
}

/// The frames shown are the newest ones, and never more than fit.
pub proof fn lemma_shown_frames_fit(frame_count: int, max_count: int)
    requires
        0 <= frame_count,
        0 <= max_count,
    ensures
        0 <= frames_skipped(frame_count, max_count) <= frame_count,
        frame_count - frames_skipped(frame_count, max_count) <= max_count,
        frame_count <= max_count ==> frames_skipped(frame_count, max_count) == 0,
{
}

/// The label under the bars of the `index`-th shown frame: every second frame
/// is labelled with its number, the others with a space.
pub open spec fn bar_label_of(index: int, frame_number: u64) -> Seq<char> {
    if index % 2 == 1 {
        decimal(frame_number as int)
    } else {
        " "@
    }
}

pub fn bar_label(index: usize, frame_number: u64) -> (s: String)
    ensures
        s@ == bar_label_of(index as int, frame_number),
{
    if index % 2 == 1 {
        decimal_u64(frame_number)
    } else {
        String::from_str(" ")
    }
}

/// A phase of a frame is janky when it took longer than one refresh of the
/// display: more than `1000 / refresh_rate` whole milliseconds.
pub open spec fn janky(duration_ms: u128, refresh_rate: u128) -> bool {
    duration_ms > 1000u128 / refresh_rate
}

pub fn is_janky(duration_ms: u128, refresh_rate: u128) -> (b: bool)
    requires
        refresh_rate > 0,
    ensures
        b == janky(duration_ms, refresh_rate),
{
    duration_ms > 1000 / refresh_rate
}

/// The line of a frame in the frame list.
pub open spec fn frame_line_of(number: u64, build_ms: u128, raster_ms: u128) -> Seq<char> {
    "Frame: "@ + decimal(number as int) + " | Build: "@ + decimal(build_ms as int) + "ms | Raster: "@
        + decimal(raster_ms as int) + "ms"@
}

pub fn frame_line(number: u64, build_ms: u128, raster_ms: u128) -> (s: String)
    ensures
        s@ == frame_line_of(number, build_ms, raster_ms),
{
    let mut s = String::from_str("Frame: ");
    s.append(decimal_u64(number).as_str());
    s.append(" | Build: ");
    s.append(decimal_u128(build_ms).as_str());
    s.append("ms | Raster: ");
    s.append(decimal_u128(raster_ms).as_str());
    s.append("ms");
    s
}


/// Every second bar (odd positions) is labelled with its frame's number and
/// the others with a space; a phase is janky exactly when it took longer
/// than the whole milliseconds of one refresh.
pub proof fn lemma_bar_labels_and_jank(index: int, frame_number: u64, duration_ms: u128, refresh_rate: u128)
    ensures
        index % 2 == 1 ==> bar_label_of(index, frame_number) == decimal(frame_number as int),
        index % 2 != 1 ==> bar_label_of(index, frame_number) == " "@,
        refresh_rate > 0 ==> (janky(duration_ms, refresh_rate) <==> duration_ms > 1000int
            / (refresh_rate as int)),
        refresh_rate == 60 ==> (janky(duration_ms, refresh_rate) <==> duration_ms >= 17),
{
}

/// Each frame takes two bars and a gap, beside the legend and the borders:
/// the frames that fit, and one more would not.
pub proof fn lemma_frames_fit_width(area_width: int)
    requires
        area_width >= LEGEND_WIDTH + 2,
    ensures
        frames_that_fit(area_width) * 7 <= area_width - 15,
        (frames_that_fit(area_width) + 1) * 7 > area_width - 15,
{
    let w = area_width - 15;
    assert(frames_that_fit(area_width) == w / 7);
    assert(w / 7 * 7 <= w && w < (w / 7 + 1) * 7) by (nonlinear_arith)
        requires
            w >= 0,
    ;
}

} // verus!
