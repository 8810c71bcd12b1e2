//! The display side: the retained gain and the bar drawn from it.
//!
//! Gains are counted in millibels, hundredths of a decibel relative to full
//! scale; lengths on the drawing surface in hundredths of a pixel.

use vstd::prelude::*;

verus! {

/// Gain at or below which the meter shows silence: -50 dBFS.
pub const MIN_GAIN: i32 = -5000;

/// Height of the bar's drawing area: 300 px.
pub const MAX_BAR_HEIGHT: i64 = 30000;

/// Horizontal position of the bar: 50 px.
pub const BAR_X: i64 = 5000;

/// Top of the bar: 50 px.
pub const BAR_Y: i64 = 5000;

/// Width of the bar: 5 px.
pub const BAR_WIDTH: i64 = 500;

/// Headroom kept free above a bar at 0 dBFS: 50 px, so that full scale
/// draws 250 px.
pub const BAR_HEIGHT_SCALE: i64 = 5000;

/// Bar height for a retained gain of `g` millibels: linear in decibels above
/// the silence floor, zero at and below it, not bounded above.
pub open spec fn height_of(g: int) -> int {
    if g > MIN_GAIN {
        (MAX_BAR_HEIGHT - BAR_HEIGHT_SCALE) * (g - MIN_GAIN) / (0 - MIN_GAIN)
    } else {
        0
    }
}

/// The gain retained after a redraw at which `received` arrived, if anything did.
pub open spec fn next_gain(retained: i32, received: Option<i32>) -> i32 {
    match received {
        Some(g) => g,
        None => retained,
    }
}

/// Bar height, in hundredths of a pixel, for a gain of `g` millibels.
pub fn bar_height(g: i32) -> (h: u64)
    ensures
        h == height_of(g as int),
        g <= MIN_GAIN ==> h == 0,
        g > MIN_GAIN ==> h * (0 - MIN_GAIN) == (MAX_BAR_HEIGHT - BAR_HEIGHT_SCALE) * (g - MIN_GAIN),
{
    if g > MIN_GAIN {
        let above: i64 = g as i64 - MIN_GAIN as i64;
        assert(0 < above < 0x1_0000_0000);
        assert(0 < (MAX_BAR_HEIGHT - BAR_HEIGHT_SCALE) * above < 0x1_0000_0000_0000_0000) by (nonlinear_arith)
            requires
                0 < above < 0x1_0000_0000,
        ;
        let scaled: i64 = (MAX_BAR_HEIGHT - BAR_HEIGHT_SCALE) * above;
        let h: i64 = scaled / (0 - MIN_GAIN as i64);
        assert(scaled == 5000 * (5 * above));
        assert(h == 5 * above) by (nonlinear_arith)
            requires
                scaled == 5000 * (5 * above),
                h == scaled / 5000,
        ;
        h as u64
    } else {
        0
    }
}

/// Above the silence floor, a higher gain draws a strictly taller bar.
pub proof fn bar_height_strictly_increasing(a: int, b: int)
    requires
        MIN_GAIN < a < b,
    ensures
        height_of(a) < height_of(b),
{
    assert(height_of(a) == 5 * (a - MIN_GAIN)) by (nonlinear_arith)
        requires
            MIN_GAIN < a,
            height_of(a) == 25000 * (a - MIN_GAIN) / 5000,
    ;
    assert(height_of(b) == 5 * (b - MIN_GAIN)) by (nonlinear_arith)
        requires
            MIN_GAIN < b,
            height_of(b) == 25000 * (b - MIN_GAIN) / 5000,
    ;
}

/// The display side of the meter: the gain retained between redraws.
pub struct Meter {
    gain: i32,
}

impl View for Meter {
    type V = i32;

    closed spec fn view(&self) -> i32 {
        self.gain
    }
}

impl Meter {
    /// A meter that shows silence until a gain arrives.
    pub fn new() -> (m: Meter)
        ensures
            m@ == MIN_GAIN,
    {
        Meter { gain: MIN_GAIN }
    }

    /// The retained gain, in millibels.
    pub fn gain(&self) -> (g: i32)
        ensures
            g == self@,
    {
        self.gain
    }

    /// Height of the bar for the retained gain.
    pub fn height(&self) -> (h: u64)
        ensures
            h == height_of(self@ as int),
    {
        bar_height(self.gain)
    }

    /// One redraw: keep `received` when a gain arrived since the last one,
    /// else the gain retained so far, and give the height of the bar to draw.
    pub fn redraw(&mut self, received: Option<i32>) -> (h: u64)
        ensures
            final(self)@ == next_gain(old(self)@, received),
            h == height_of(final(self)@ as int),
    {
        if let Some(g) = received {
            self.gain = g;
        }
        bar_height(self.gain)
    }
}

/// A redraw at which nothing arrives keeps the gain and the bar height of the
/// redraw before it.
pub proof fn redraw_without_result_is_stable(retained: i32, received: Option<i32>)
    ensures
        next_gain(next_gain(retained, received), None) == next_gain(retained, received),
        height_of(next_gain(next_gain(retained, received), None) as int) == height_of(
            next_gain(retained, received) as int,
        ),
{
}

} // verus!
