use vstd::prelude::*;
use crate::config::WindowMode;

verus! {

pub const MIN_WINDOW_WIDTH: u16 = 800;
pub const MIN_WINDOW_HEIGHT: u16 = 600;
pub const MAX_WINDOW_EXTENT: u16 = 16384;
pub const FALLBACK_WINDOW_WIDTH: u16 = 1920;
pub const FALLBACK_WINDOW_HEIGHT: u16 = 1080;

/// A configured window extent is kept when it lies in `min..=16384`, else replaced.
pub open spec fn spec_sanitize_extent(value: u16, min: u16, fallback: u16) -> u16 {
    if value == 0 || value > MAX_WINDOW_EXTENT || value < min {
        fallback
    } else {
        value
    }
}

/// The size a windowed-mode window is requested with, from the configured resolution.
pub open spec fn spec_windowed_resolution(width: u16, height: u16) -> (u16, u16) {
    (
        spec_sanitize_extent(width, MIN_WINDOW_WIDTH, FALLBACK_WINDOW_WIDTH),
        spec_sanitize_extent(height, MIN_WINDOW_HEIGHT, FALLBACK_WINDOW_HEIGHT),
    )
}

/// Replaces a width outside `800..=16384` by 1920 and a height outside `600..=16384`
/// by 1080.
pub fn windowed_resolution(width: u16, height: u16) -> (r: (u16, u16))
    ensures
        r == spec_windowed_resolution(width, height),
{
    let w: u16 = if width == 0 || width > MAX_WINDOW_EXTENT || width < MIN_WINDOW_WIDTH {
        FALLBACK_WINDOW_WIDTH
    } else {
        width
    };
    let h: u16 = if height == 0 || height > MAX_WINDOW_EXTENT || height < MIN_WINDOW_HEIGHT {
        FALLBACK_WINDOW_HEIGHT
    } else {
        height
    };
    (w, h)
}

/// How the platform layer opens its window.
#[derive(Clone, Copy, Debug, PartialEq, Eq, Structural)]
pub enum WindowRequest {
    /// A decorated window of the given size.
    Windowed { width: u16, height: u16 },
    /// Full screen on the primary monitor, at its current video mode.
    FullScreen,
}

pub open spec fn spec_window_request(
    mode: WindowMode,
    width: u16,
    height: u16,
    has_primary_monitor: bool,
) -> WindowRequest {
    if mode == WindowMode::FullScreen && has_primary_monitor {
        WindowRequest::FullScreen
    } else {
        let (w, h) = spec_windowed_resolution(width, height);
        WindowRequest::Windowed { width: w, height: h }
    }
}

/// Full screen is used only when asked for and a primary monitor exists; otherwise
/// the window opens windowed at the sanitised resolution.
pub fn window_request(mode: WindowMode, width: u16, height: u16, has_primary_monitor: bool) -> (r:
    WindowRequest)
    ensures
        r == spec_window_request(mode, width, height, has_primary_monitor),
{
    if mode == WindowMode::FullScreen && has_primary_monitor {
        WindowRequest::FullScreen
    } else {
        let (w, h) = windowed_resolution(width, height);
        WindowRequest::Windowed { width: w, height: h }
    }
}

/// Sum of the entries of a gamma ramp.
pub open spec fn ramp_sum(s: Seq<u16>) -> nat
    decreases s.len(),
{
    if s.len() == 0 {
        0
    } else {
        ramp_sum(s.drop_last()) + s.last() as nat
    }
}

proof fn lemma_ramp_sum_bound(s: Seq<u16>)
    ensures
        ramp_sum(s) <= s.len() * 65535,
    decreases s.len(),
{
    if s.len() > 0 {
        lemma_ramp_sum_bound(s.drop_last());
    }
}

/// Integer mean of a monitor's gamma ramp channel (the sum divided by the length,
/// rounded down).
pub fn gamma_ramp_average(ramp: &Vec<u16>) -> (r: u128)
    requires
        ramp.len() > 0,
    ensures
        r == ramp_sum(ramp@) / (ramp.len() as nat),
{
    let mut sum: u128 = 0;
    let mut i: usize = 0;
    while i < ramp.len()
        invariant
            i <= ramp.len(),
            sum == ramp_sum(ramp@.subrange(0, i as int)),
        decreases ramp.len() - i,
    {
        proof {
            let s = ramp@.subrange(0, i as int + 1);
            assert(s.drop_last() =~= ramp@.subrange(0, i as int));
            lemma_ramp_sum_bound(s);
            assert(s.len() * 65535 < u128::MAX) by (nonlinear_arith)
                requires
                    s.len() <= usize::MAX + 1,
            ;
        }
        sum = sum + ramp[i] as u128;
        i = i + 1;
    }
    assert(ramp@.subrange(0, ramp.len() as int) =~= ramp@);
    sum / (ramp.len() as u128)
}

/// Interval in minutes of the periodic service routine, or `None` when it is disabled:
/// the configured value clamped to `1..=60`.
pub open spec fn spec_service_interval(disable: bool, interval: u8) -> Option<u64> {
    if disable {
        None
    } else if interval < 1 {
        Some(1)
    } else if interval > 60 {
        Some(60)
    } else {
        Some(interval as u64)
    }
}

pub fn service_interval(disable: bool, interval: u8) -> (r: Option<u64>)
    ensures
        r == spec_service_interval(disable, interval),
{
    if disable {
        None
    } else if interval < 1 {
        Some(1)
    } else if interval > 60 {
        Some(60)
    } else {
        Some(interval as u64)
    }
}

} // verus!
