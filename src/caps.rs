use vstd::prelude::*;
use crate::format::PixelFormat;
use crate::geometry::Size;

verus! {

/// A frame rate as a fraction of frames per second.
#[derive(Debug, Clone, Copy, PartialEq, Eq, Structural)]
pub struct Fraction {
    pub numer: i32,
    pub denom: i32,
}

/// Numerator of the rate pinned on an unconstrained offer.
pub const DEFAULT_RATE_NUMER: i32 = 25;

/// Denominator of the rate pinned on an unconstrained offer.
pub const DEFAULT_RATE_DENOM: i32 = 1;

/// The rate that fixation aims for: 25 frames per second.
pub fn default_frame_rate() -> (r: Fraction)
    ensures
        r == (Fraction { numer: DEFAULT_RATE_NUMER, denom: DEFAULT_RATE_DENOM }),
{
    Fraction { numer: DEFAULT_RATE_NUMER, denom: DEFAULT_RATE_DENOM }
}

/// Whether a negotiated rate yields a frame interval: a positive numerator and
/// a non-negative denominator.
pub open spec fn usable_rate(rate: Fraction) -> bool {
    rate.numer > 0 && rate.denom >= 0
}

/// Milliseconds between frames at `rate`, truncated.
pub open spec fn spec_frame_interval_ms(rate: Fraction) -> int {
    (1000 * rate.denom as int) / (rate.numer as int)
}

/// The interval between frames at a negotiated rate, or `None` where the rate
/// gives none.
pub fn frame_interval_ms(rate: Fraction) -> (r: Option<u64>)
    ensures
        r is Some <==> usable_rate(rate),
        r is Some ==> r->Some_0 as int == spec_frame_interval_ms(rate),
{
    if rate.numer <= 0 || rate.denom < 0 {
        return None;
    }
    let denom = rate.denom as u64;
    let numer = rate.numer as u64;
    assert(1000 * denom <= 1000 * 0x7fff_ffffu64) by (nonlinear_arith)
        requires
            denom <= 0x7fff_ffff,
    ;
    let scaled: u64 = 1000 * denom;
    Some(scaled / numer)
}

/// Capabilities offered once the window is known: one format and size, with
/// any frame rate between the two bounds.
#[derive(Debug, Clone, Copy, PartialEq, Eq, Structural)]
pub struct VideoCaps {
    pub format: PixelFormat,
    pub width: i32,
    pub height: i32,
    pub min_rate: Fraction,
    pub max_rate: Fraction,
}

/// The broadest capabilities: any size up to the bounds, any rate in range.
#[derive(Debug, Clone, Copy, PartialEq, Eq, Structural)]
pub struct TemplateCaps {
    pub max_width: i32,
    pub max_height: i32,
    pub min_rate: Fraction,
    pub max_rate: Fraction,
}

/// The slowest rate offered: zero frames per second.
pub open spec fn spec_min_rate() -> Fraction {
    Fraction { numer: 0, denom: 1 }
}

/// The fastest rate offered: `i32::MAX` frames per second.
pub open spec fn spec_max_rate() -> Fraction {
    Fraction { numer: i32::MAX, denom: 1 }
}

/// The unconstrained capabilities of the source's output.
pub open spec fn spec_template_caps() -> TemplateCaps {
    TemplateCaps {
        max_width: i32::MAX,
        max_height: i32::MAX,
        min_rate: spec_min_rate(),
        max_rate: spec_max_rate(),
    }
}

/// The unconstrained capabilities of the source's output.
pub fn template_caps() -> (r: TemplateCaps)
    ensures
        r == spec_template_caps(),
{
    TemplateCaps {
        max_width: i32::MAX,
        max_height: i32::MAX,
        min_rate: Fraction { numer: 0, denom: 1 },
        max_rate: Fraction { numer: i32::MAX, denom: 1 },
    }
}

/// The capabilities fixed to a format and a window size, at any rate.
pub open spec fn spec_video_caps(format: PixelFormat, size: Size) -> VideoCaps {
    VideoCaps {
        format,
        width: size.width as i32,
        height: size.height as i32,
        min_rate: spec_min_rate(),
        max_rate: spec_max_rate(),
    }
}

/// The capabilities fixed to a format and a window size.
pub fn video_caps(format: PixelFormat, size: Size) -> (r: VideoCaps)
    ensures
        r == spec_video_caps(format, size),
{
    VideoCaps {
        format,
        width: size.width as i32,
        height: size.height as i32,
        min_rate: Fraction { numer: 0, denom: 1 },
        max_rate: Fraction { numer: i32::MAX, denom: 1 },
    }
}

} // verus!
