//! Surface configuration decisions: which format the surface uses and how a
//! window resize is clamped to the device's texture limits.

use vstd::prelude::*;

verus! {

/// Hard upper bound the backend places on the surface's width and height,
/// on top of whatever the device itself allows.
pub const MAX_SURFACE_DIMENSION: u32 = 8192;

/// A dimension clamped to the device limit and to `MAX_SURFACE_DIMENSION`.
pub open spec fn spec_clamped(v: u32, device_max: u32) -> u32 {
    let cap = if device_max < MAX_SURFACE_DIMENSION {
        device_max
    } else {
        MAX_SURFACE_DIMENSION
    };
    if v < cap {
        v
    } else {
        cap
    }
}

/// True when some entry of `srgb` is set.
pub open spec fn has_srgb(srgb: Seq<bool>) -> bool {
    exists|j: int| 0 <= j < srgb.len() && srgb[j]
}

/// Picks the surface format: the first sRGB format the surface supports,
/// or the first supported format when none is sRGB.
///
/// `srgb[i]` says whether the i-th supported format is an sRGB format; the
/// result is an index into that same list.
pub fn choose_format_index(srgb: &Vec<bool>) -> (i: usize)
    requires
        srgb@.len() > 0,
    ensures
        i < srgb@.len(),
        has_srgb(srgb@) ==> srgb@[i as int] && (forall|j: int| 0 <= j < i ==> !srgb@[j]),
        !has_srgb(srgb@) ==> i == 0,
{
    let n = srgb.len();
    let mut k: usize = 0;
    while k < n
        invariant
            n == srgb@.len(),
            k <= n,
            forall|j: int| 0 <= j < k ==> !srgb@[j],
        decreases n - k,
    {
        if srgb[k] {
            return k;
        }
        k = k + 1;
    }
    0
}

/// The fields of the surface configuration that the backend computes.
///
/// Index fields point into the lists of formats, present modes and alpha
/// modes that the surface reported as supported; the caller turns them back
/// into the GPU API's values.
pub struct SurfaceConfig {
    pub format_index: usize,
    pub width: u32,
    pub height: u32,
    pub present_mode_index: usize,
    pub alpha_mode_index: usize,
    pub desired_maximum_frame_latency: u32,
}

/// Builds the initial surface configuration for a window of the given size:
/// the first sRGB format if one is supported (otherwise the first format),
/// the first supported present and alpha modes, and a frame latency of two.
pub fn plan_surface_config(width: u32, height: u32, formats_srgb: &Vec<bool>) -> (c: SurfaceConfig)
    requires
        formats_srgb@.len() > 0,
    ensures
        c.width == width,
        c.height == height,
        c.format_index < formats_srgb@.len(),
        has_srgb(formats_srgb@) ==> formats_srgb@[c.format_index as int]
            && (forall|j: int| 0 <= j < c.format_index ==> !formats_srgb@[j]),
        !has_srgb(formats_srgb@) ==> c.format_index == 0,
        c.present_mode_index == 0,
        c.alpha_mode_index == 0,
        c.desired_maximum_frame_latency == 2,
{
    let format_index = choose_format_index(formats_srgb);
    SurfaceConfig {
        format_index,
        width,
        height,
        present_mode_index: 0,
        alpha_mode_index: 0,
        desired_maximum_frame_latency: 2,
    }
}

/// Clamps a requested window size to the device's 2D texture limit and to
/// `MAX_SURFACE_DIMENSION`. A size with a zero width or height is rejected:
/// the surface keeps its old configuration.
pub fn clamped_size(width: u32, height: u32, device_max: u32) -> (r: Option<(u32, u32)>)
    ensures
        r is Some <==> width > 0 && height > 0,
        r is Some ==> r.unwrap() == (spec_clamped(width, device_max), spec_clamped(height, device_max)),
{
    if width > 0 && height > 0 {
        let cap = if device_max < MAX_SURFACE_DIMENSION {
            device_max
        } else {
            MAX_SURFACE_DIMENSION
        };
        let w = if width < cap { width } else { cap };
        let h = if height < cap { height } else { cap };
        Some((w, h))
    } else {
        None
    }
}

} // verus!
