//! The integer arithmetic of the screen layout and of the event timing.
use vstd::prelude::*;

verus! {

/// The three percentages of a centered band that takes `percent` of the
/// space: the margin before, the band, the margin after.
pub fn centered_percentages(percent: u16) -> (r: (u16, u16, u16))
    requires
        percent <= 100,
    ensures
        r.0 == (100 - percent) / 2,
        r.1 == percent,
        r.2 == (100 - percent) / 2,
        r.0 + r.1 + r.2 <= 100,
        100 - (r.0 + r.1 + r.2) <= 1,
{
    let margin = (100 - percent) / 2;
    (margin, percent, margin)
}

/// Width and height of the square sky plot that fits an area of `width` by
/// `height` cells, a cell being twice as high as it is wide.
pub fn skyplot_plot_size(width: u16, height: u16) -> (r: (u16, u16))
    ensures
        r.1 == if height < width / 2 {
            height
        } else {
            width / 2
        },
        r.0 == 2 * r.1,
        r.0 <= width,
        r.1 <= height,
{
    let plot_height = if height < width / 2 {
        height
    } else {
        width / 2
    };
    (plot_height * 2, plot_height)
}

/// The first line to show of a log of `len` lines in a bordered box of
/// `height` rows, so that the newest lines are visible. The count of lines
/// is taken as a `u16`, as the display does.
pub fn raw_scroll_offset(len: usize, height: u16) -> (r: u16)
    requires
        height >= 2,
    ensures
        r == if (len as u16) > height - 2 {
            ((len as u16) - (height - 2)) as u16
        } else {
            0
        },
{
    #[verifier::truncate]
    let lines = len as u16;
    lines.saturating_sub(height - 2)
}

/// When the next tick is due: what is left of the tick interval after
/// `elapsed` (both in nanoseconds), and whether a tick is due now.
pub fn tick_timeout(interval: u64, elapsed: u64) -> (r: (u64, bool))
    ensures
        r.0 == if elapsed < interval {
            (interval - elapsed) as u64
        } else {
            0
        },
        r.1 == (r.0 == 0),
{
    let timeout = interval.saturating_sub(elapsed);
    (timeout, timeout == 0)
}

} // verus!
