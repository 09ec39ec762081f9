use vstd::prelude::*;
use crate::color::Color;

verus! {

/// A point or direction in thousandths of a unit.
#[derive(Clone, Copy, Debug, PartialEq, Eq, Structural)]
pub struct Point3 {
    pub x: i32,
    pub y: i32,
    pub z: i32,
}

/// One rasterized sample: interpolated position and normal, the lighting
/// intensity in thousandths (`1000` is full light) and a fallback color.
#[derive(Clone, Copy, Debug, PartialEq, Eq, Structural)]
pub struct Fragment {
    pub vertex_position: Point3,
    pub normal: Point3,
    pub intensity: u32,
    pub color: Color,
}

/// What the fragment stage reads of the per-frame state: the animation clock
/// in ticks.
#[derive(Clone, Copy, Debug, PartialEq, Eq, Structural)]
pub struct Uniforms {
    pub time: u32,
}

/// A point, in thousandths, at which the noise field is to be sampled.
#[derive(Clone, Copy, Debug, PartialEq, Eq, Structural)]
pub struct NoisePoint {
    pub x: i64,
    pub y: i64,
}

/// Where a shader variant reads the scalar fields for one fragment: the
/// noise field at two points and the sine at one phase (in thousandths of
/// a radian). A field that the variant does not read is `None`, and its
/// value in `FieldSamples` is then ignored.
#[derive(Clone, Copy, Debug, PartialEq, Eq, Structural)]
pub struct SampleRequest {
    pub noise_at: Option<NoisePoint>,
    pub cloud_noise_at: Option<NoisePoint>,
    pub wave_phase: Option<i64>,
}

/// The field values measured at a `SampleRequest`, in thousandths: the
/// noise at `noise_at`, the noise at `cloud_noise_at`, and the sine of
/// `wave_phase`.
#[derive(Clone, Copy, Debug, PartialEq, Eq, Structural)]
pub struct FieldSamples {
    pub noise: i32,
    pub cloud_noise: i32,
    pub wave: i32,
}

impl NoisePoint {
    pub fn new(x: i64, y: i64) -> (p: NoisePoint)
        ensures
            p == (NoisePoint { x, y }),
    {
        NoisePoint { x, y }
    }
}

} // verus!
