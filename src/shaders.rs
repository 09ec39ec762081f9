use vstd::prelude::*;
use crate::color::Color;
use crate::fixed::{floor_sqrt, isqrt};
use crate::fragment::{FieldSamples, Fragment, NoisePoint, Point3, SampleRequest, Uniforms};

verus! {

/// The six procedural variants. Any index past the last selects
/// `DynamicCellular`.
#[derive(Clone, Copy, Debug, PartialEq, Eq, Structural)]
pub enum ShaderKind {
    Sun,
    EarthClouds,
    Noise,
    MoonBrightCraters,
    Ripple,
    DynamicCellular,
}

pub open spec fn spec_shader_kind(index: u32) -> ShaderKind {
    if index == 0 {
        ShaderKind::Sun
    } else if index == 1 {
        ShaderKind::EarthClouds
    } else if index == 2 {
        ShaderKind::Noise
    } else if index == 3 {
        ShaderKind::MoonBrightCraters
    } else if index == 4 {
        ShaderKind::Ripple
    } else {
        ShaderKind::DynamicCellular
    }
}

/// The variant that a shader index selects; indices from 5 on select the
/// cellular variant.
pub fn shader_kind(index: u32) -> (k: ShaderKind)
    ensures
        k == spec_shader_kind(index),
{
    match index {
        0 => ShaderKind::Sun,
        1 => ShaderKind::EarthClouds,
        2 => ShaderKind::Noise,
        3 => ShaderKind::MoonBrightCraters,
        4 => ShaderKind::Ripple,
        _ => ShaderKind::DynamicCellular,
    }
}

pub open spec fn clamp_int(v: int, lo: int, hi: int) -> int {
    if v < lo {
        lo
    } else if v > hi {
        hi
    } else {
        v
    }
}

pub open spec fn rgb(r: u8, g: u8, b: u8) -> Color {
    Color { r, g, b }
}

// ---------------------------------------------------------------------------
// Where each variant samples the fields

pub open spec fn sun_noise_at(f: Fragment, u: Uniforms) -> NoisePoint {
    NoisePoint {
        x: (f.vertex_position.x * 50 + u.time * 10) as i64,
        y: (f.vertex_position.y * 50 + u.time * 10) as i64,
    }
}

pub open spec fn earth_surface_at(f: Fragment, u: Uniforms) -> NoisePoint {
    NoisePoint {
        x: (f.vertex_position.x * 80 + u.time * 100) as i64,
        y: (f.vertex_position.y * 80) as i64,
    }
}

pub open spec fn earth_cloud_at(f: Fragment, u: Uniforms) -> NoisePoint {
    NoisePoint {
        x: (f.vertex_position.x * 100 + u.time * 50) as i64,
        y: (f.vertex_position.y * 100 + u.time * 50) as i64,
    }
}

pub open spec fn moon_noise_at(f: Fragment, u: Uniforms) -> NoisePoint {
    NoisePoint {
        x: (f.vertex_position.x * 50 + u.time * 100) as i64,
        y: (f.vertex_position.y * 50 + u.time * 100) as i64,
    }
}

pub open spec fn cellular_noise_at(f: Fragment, u: Uniforms) -> NoisePoint {
    NoisePoint {
        x: (f.vertex_position.x * 30) as i64,
        y: (f.vertex_position.y * 30 + u.time * 100) as i64,
    }
}

/// Distance from the origin to the fragment in the xy plane, rounded down.
pub open spec fn planar_distance(p: Point3) -> int {
    floor_sqrt(p.x * p.x + p.y * p.y)
}

/// The ripple's phase: ten times the distance travelled past the wave front.
pub open spec fn ripple_phase(f: Fragment, u: Uniforms) -> int {
    10 * (planar_distance(f.vertex_position) - u.time * 300)
}

pub open spec fn spec_sample_request(kind: ShaderKind, f: Fragment, u: Uniforms) -> SampleRequest {
    match kind {
        ShaderKind::Sun => SampleRequest {
            noise_at: Some(sun_noise_at(f, u)),
            cloud_noise_at: None,
            wave_phase: None,
        },
        ShaderKind::EarthClouds => SampleRequest {
            noise_at: Some(earth_surface_at(f, u)),
            cloud_noise_at: Some(earth_cloud_at(f, u)),
            wave_phase: None,
        },
        ShaderKind::Noise => SampleRequest { noise_at: None, cloud_noise_at: None, wave_phase: None },
        ShaderKind::MoonBrightCraters => SampleRequest {
            noise_at: Some(moon_noise_at(f, u)),
            cloud_noise_at: None,
            wave_phase: Some((u.time * 50) as i64),
        },
        ShaderKind::Ripple => SampleRequest {
            noise_at: None,
            cloud_noise_at: None,
            wave_phase: Some(ripple_phase(f, u) as i64),
        },
        ShaderKind::DynamicCellular => SampleRequest {
            noise_at: Some(cellular_noise_at(f, u)),
            cloud_noise_at: None,
            wave_phase: None,
        },
    }
}

// ---------------------------------------------------------------------------
// The colors each variant computes before lighting

pub open spec fn sun_base(f: Fragment, s: FieldSamples) -> Color {
    let n = s.noise as int;
    let spot = if n < 600 {
        rgb(255, 255, 102)
    } else {
        rgb(139, 0, 0)
    };
    rgb(255, 69, 0).spec_lerp(spot, clamp_int(n, 0, 1000))
}

pub open spec fn earth_ground(f: Fragment, s: FieldSamples) -> Color {
    let y = f.vertex_position.y as int;
    let n = s.noise as int;
    if y > 700 || y < -700 {
        rgb(255, 250, 250)
    } else if n > 400 {
        rgb(34, 139, 34)
    } else if n > 300 {
        rgb(210, 180, 140)
    } else {
        rgb(0, 105, 148)
    }
}

pub open spec fn earth_base(f: Fragment, s: FieldSamples) -> Color {
    let c = s.cloud_noise as int;
    let cloud_intensity = clamp_int(c, 400, 700) - 400;
    if c > 600 {
        earth_ground(f, s).spec_lerp(rgb(255, 255, 255), cloud_intensity / 2)
    } else {
        earth_ground(f, s).spec_lerp(rgb(135, 206, 250), 100)
    }
}

/// The circle of the grid cell `(i, j)` covers the point `(px, py)`: its
/// center drifts with time and its radius is a tenth of a unit.
pub open spec fn circle_hit(px: int, py: int, time: int, i: int, j: int) -> bool {
    let dx = px - (i * 300 + time * 2);
    let dy = py - (j * 300 + time);
    dx * dx + dy * dy < 10000
}

pub open spec fn in_spot(px: int, py: int, time: int) -> bool {
    exists|i: int, j: int| -3 <= i <= 3 && -3 <= j <= 3 && #[trigger] circle_hit(px, py, time, i, j)
}

/// Lambert term of the normal against the light direction `(1, 1, 1)`, in
/// thousandths, never negative; a zero normal receives no light.
pub open spec fn lambert(n: Point3) -> int {
    let dot = n.x + n.y + n.z;
    let len = floor_sqrt(3 * (n.x * n.x + n.y * n.y + n.z * n.z));
    if dot <= 0 || len == 0 {
        0
    } else if 1000 * dot / len > 1000 {
        1000
    } else {
        1000 * dot / len
    }
}

/// The spotted variant's color before the fragment's intensity is applied:
/// black inside a circle, white outside, both shaded by the normal.
pub open spec fn spots_color(f: Fragment, u: Uniforms) -> Color {
    let l = lambert(f.normal);
    if in_spot(f.vertex_position.x as int, f.vertex_position.y as int, u.time as int) {
        rgb(0, 0, 0).spec_scale(l)
    } else {
        rgb(255, 255, 255).spec_scale(500 + l / 2)
    }
}

/// The crater boundary is `0.4 + wave / 20` in thousandths; the comparisons
/// are kept in whole numbers by multiplying through by 20.
pub open spec fn moon_base(f: Fragment, s: FieldSamples) -> Color {
    let n = s.noise as int;
    let w = s.wave as int;
    if 20 * n > 8000 + w {
        rgb(200, 200, 200)
    } else if 20 * n > 6000 + w {
        rgb(220, 220, 220)
    } else {
        rgb(250, 250, 250)
    }
}

pub open spec fn ripple_factor(w: int) -> int {
    clamp_int(if w <= 0 { 0 } else { w / 20 }, 0, 1000)
}

pub open spec fn ripple_base(f: Fragment, s: FieldSamples) -> Color {
    rgb(70, 130, 180).spec_lerp(rgb(173, 216, 230), ripple_factor(s.wave as int))
}

pub open spec fn abs_int(v: int) -> int {
    if v < 0 {
        -v
    } else {
        v
    }
}

pub open spec fn cellular_base(f: Fragment, s: FieldSamples) -> Color {
    let v = abs_int(s.noise as int);
    if v < 200 {
        rgb(255, 69, 0)
    } else if v < 500 {
        rgb(255, 140, 0)
    } else if v < 800 {
        rgb(255, 215, 0)
    } else {
        rgb(255, 255, 153)
    }
}

/// The color a variant computes before the fragment's intensity is applied.
pub open spec fn unlit_color(kind: ShaderKind, f: Fragment, u: Uniforms, s: FieldSamples) -> Color {
    match kind {
        ShaderKind::Sun => sun_base(f, s),
        ShaderKind::EarthClouds => earth_base(f, s),
        ShaderKind::Noise => spots_color(f, u),
        ShaderKind::MoonBrightCraters => moon_base(f, s),
        ShaderKind::Ripple => ripple_base(f, s),
        ShaderKind::DynamicCellular => cellular_base(f, s),
    }
}

/// The final color of a variant: its unlit color scaled by the fragment's
/// intensity.
pub open spec fn spec_shade(kind: ShaderKind, f: Fragment, u: Uniforms, s: FieldSamples) -> Color {
    unlit_color(kind, f, u, s).spec_scale(f.intensity as int)
}

pub open spec fn spec_fragment_shader(f: Fragment, u: Uniforms, index: u32, s: FieldSamples) -> Color {
    spec_shade(spec_shader_kind(index), f, u, s)
}

// ---------------------------------------------------------------------------
// Sampling

fn planar_distance_exec(p: &Point3) -> (d: i64)
    ensures
        d as int == planar_distance(*p),
        0 <= d < 0x1_0000_0000,
{
    let x = p.x as i64;
    let y = p.y as i64;
    assert(0 <= x * x <= 0x4000_0000_0000_0000 && 0 <= y * y <= 0x4000_0000_0000_0000) by (nonlinear_arith)
        requires
            -0x8000_0000 <= x <= 0x8000_0000,
            -0x8000_0000 <= y <= 0x8000_0000,
    ;
    let n = ((x * x) as u128) + ((y * y) as u128);
    let r = isqrt(n);
    assert(r < 0x1_0000_0000) by (nonlinear_arith)
        requires
            r * r <= n,
            n <= 0x8000_0000_0000_0000,
    ;
    r as i64
}

/// Where the variant `kind` reads the noise field and the sine for this
/// fragment.
pub fn sample_request(kind: ShaderKind, fragment: &Fragment, uniforms: &Uniforms) -> (r: SampleRequest)
    ensures
        r == spec_sample_request(kind, *fragment, *uniforms),
{
    let x = fragment.vertex_position.x as i64;
    let y = fragment.vertex_position.y as i64;
    let t = uniforms.time as i64;
    match kind {
        ShaderKind::Sun => SampleRequest {
            noise_at: Some(NoisePoint::new(x * 50 + t * 10, y * 50 + t * 10)),
            cloud_noise_at: None,
            wave_phase: None,
        },
        ShaderKind::EarthClouds => SampleRequest {
            noise_at: Some(NoisePoint::new(x * 80 + t * 100, y * 80)),
            cloud_noise_at: Some(NoisePoint::new(x * 100 + t * 50, y * 100 + t * 50)),
            wave_phase: None,
        },
        ShaderKind::Noise => SampleRequest { noise_at: None, cloud_noise_at: None, wave_phase: None },
        ShaderKind::MoonBrightCraters => SampleRequest {
            noise_at: Some(NoisePoint::new(x * 50 + t * 100, y * 50 + t * 100)),
            cloud_noise_at: None,
            wave_phase: Some(t * 50),
        },
        ShaderKind::Ripple => {
            let d = planar_distance_exec(&fragment.vertex_position);
            SampleRequest { noise_at: None, cloud_noise_at: None, wave_phase: Some(10 * (d - t * 300)) }
        },
        ShaderKind::DynamicCellular => SampleRequest {
            noise_at: Some(NoisePoint::new(x * 30, y * 30 + t * 100)),
            cloud_noise_at: None,
            wave_phase: None,
        },
    }
}

/// Where the variant selected by `current_shader` reads its fields.
pub fn fragment_samples(fragment: &Fragment, uniforms: &Uniforms, current_shader: u32) -> (r: SampleRequest)
    ensures
        r == spec_sample_request(spec_shader_kind(current_shader), *fragment, *uniforms),
{
    sample_request(shader_kind(current_shader), fragment, uniforms)
}

// ---------------------------------------------------------------------------
// The variants

/// Lava-like surface: bright or dark spots by a noise threshold, blended
/// over an orange base by the noise value.
pub fn sun_shader(fragment: &Fragment, _uniforms: &Uniforms, samples: &FieldSamples) -> (c: Color)
    ensures
        c == sun_base(*fragment, *samples).spec_scale(fragment.intensity as int),
{
    let n = samples.noise;
    let bright_color = Color::new(255, 255, 102);
    let dark_spot_color = Color::new(139, 0, 0);
    let base_color = Color::new(255, 69, 0);
    let noise_color = if n < 600 {
        bright_color
    } else {
        dark_spot_color
    };
    let t: u32 = if n < 0 {
        0
    } else if n > 1000 {
        1000
    } else {
        n as u32
    };
    base_color.lerp(&noise_color, t).scale(fragment.intensity)
}

/// Terrain classified by latitude and noise, under a cloud layer sampled
/// from a second noise point.
pub fn earth_clouds(fragment: &Fragment, _uniforms: &Uniforms, samples: &FieldSamples) -> (c: Color)
    ensures
        c == earth_base(*fragment, *samples).spec_scale(fragment.intensity as int),
{
    let y = fragment.vertex_position.y;
    let surface_noise = samples.noise;
    let ocean_color = Color::new(0, 105, 148);
    let land_color = Color::new(34, 139, 34);
    let desert_color = Color::new(210, 180, 140);
    let snow_color = Color::new(255, 250, 250);
    let base_color = if y > 700 || y < -700 {
        snow_color
    } else if surface_noise > 400 {
        land_color
    } else if surface_noise > 300 {
        desert_color
    } else {
        ocean_color
    };
    let cloud_noise = samples.cloud_noise;
    let cloud_color = Color::new(255, 255, 255);
    let sky_gradient = Color::new(135, 206, 250);
    let clamped: i32 = if cloud_noise < 400 {
        400
    } else if cloud_noise > 700 {
        700
    } else {
        cloud_noise
    };
    let cloud_intensity = (clamped - 400) as u32;
    let final_color = if cloud_noise > 600 {
        base_color.lerp(&cloud_color, cloud_intensity / 2)
    } else {
        base_color.lerp(&sky_gradient, 100)
    };
    final_color.scale(fragment.intensity)
}

fn circle_hit_exec(px: i64, py: i64, time: i64, i: i64, j: i64) -> (hit: bool)
    requires
        -0x8000_0000 <= px <= 0x8000_0000,
        -0x8000_0000 <= py <= 0x8000_0000,
        0 <= time <= 0x1_0000_0000,
        -3 <= i <= 3,
        -3 <= j <= 3,
    ensures
        hit == circle_hit(px as int, py as int, time as int, i as int, j as int),
{
    let dx = px - (i * 300 + time * 2);
    let dy = py - (j * 300 + time);
    if dx <= -100 || dx >= 100 || dy <= -100 || dy >= 100 {
        assert(dx * dx + dy * dy >= 10000) by (nonlinear_arith)
            requires
                dx <= -100 || dx >= 100 || dy <= -100 || dy >= 100,
        ;
        false
    } else {
        assert(0 <= dx * dx < 10000 && 0 <= dy * dy < 10000) by (nonlinear_arith)
            requires
                -100 < dx < 100,
                -100 < dy < 100,
        ;
        dx * dx + dy * dy < 10000
    }
}

/// Searches the grid of moving circles; the first circle found to cover the
/// point ends the search.
fn in_spot_exec(px: i64, py: i64, time: i64) -> (hit: bool)
    requires
        -0x8000_0000 <= px <= 0x8000_0000,
        -0x8000_0000 <= py <= 0x8000_0000,
        0 <= time <= 0x1_0000_0000,
    ensures
        hit == in_spot(px as int, py as int, time as int),
{
    let mut i: i64 = -3;
    while i <= 3
        invariant
            -3 <= i <= 4,
            -0x8000_0000 <= px <= 0x8000_0000,
            -0x8000_0000 <= py <= 0x8000_0000,
            0 <= time <= 0x1_0000_0000,
            forall|a: int, b: int|
                -3 <= a < i && -3 <= b <= 3 ==> !#[trigger] circle_hit(px as int, py as int, time as int, a, b),
        decreases 4 - i,
    {
        let mut j: i64 = -3;
        while j <= 3
            invariant
                -3 <= i <= 3,
                -3 <= j <= 4,
                -0x8000_0000 <= px <= 0x8000_0000,
                -0x8000_0000 <= py <= 0x8000_0000,
                0 <= time <= 0x1_0000_0000,
                forall|a: int, b: int|
                    -3 <= a < i && -3 <= b <= 3 ==> !#[trigger] circle_hit(px as int, py as int, time as int, a, b),
                forall|b: int| -3 <= b < j ==> !#[trigger] circle_hit(px as int, py as int, time as int, i as int, b),
            decreases 4 - j,
        {
            if circle_hit_exec(px, py, time, i, j) {
                assert(circle_hit(px as int, py as int, time as int, i as int, j as int));
                return true;
            }
            j = j + 1;
        }
        i = i + 1;
    }
    false
}

fn lambert_exec(n: &Point3) -> (l: u32)
    ensures
        l as int == lambert(*n),
        l <= 1000,
{
    let x = n.x as i64;
    let y = n.y as i64;
    let z = n.z as i64;
    assert(0 <= x * x <= 0x4000_0000_0000_0000 && 0 <= y * y <= 0x4000_0000_0000_0000 && 0 <= z * z
        <= 0x4000_0000_0000_0000) by (nonlinear_arith)
        requires
            -0x8000_0000 <= x <= 0x8000_0000,
            -0x8000_0000 <= y <= 0x8000_0000,
            -0x8000_0000 <= z <= 0x8000_0000,
    ;
    let sq = 3 * (((x * x) as u128) + ((y * y) as u128) + ((z * z) as u128));
    let len = isqrt(sq);
    let dot = x + y + z;
    if dot <= 0 || len == 0 {
        0
    } else {
        let v = (1000 * (dot as u128)) / len;
        if v > 1000 {
            1000
        } else {
            v as u32
        }
    }
}

/// Black moving circles on a white ground, shaded by the fragment's normal
/// and then by its intensity.
pub fn noise_shader(fragment: &Fragment, uniforms: &Uniforms, _samples: &FieldSamples) -> (c: Color)
    ensures
        c == spots_color(*fragment, *uniforms).spec_scale(fragment.intensity as int),
{
    let l = lambert_exec(&fragment.normal);
    let hit = in_spot_exec(
        fragment.vertex_position.x as i64,
        fragment.vertex_position.y as i64,
        uniforms.time as i64,
    );
    let spot_color = if hit {
        Color::new(0, 0, 0).scale(l)
    } else {
        Color::new(255, 255, 255).scale(500 + l / 2)
    };
    spot_color.scale(fragment.intensity)
}

/// Grey surface with craters whose boundary pulses with the sine sample.
pub fn moon_shader_bright_craters(fragment: &Fragment, _uniforms: &Uniforms, samples: &FieldSamples) -> (c: Color)
    ensures
        c == moon_base(*fragment, *samples).spec_scale(fragment.intensity as int),
{
    let surface = 20 * (samples.noise as i64);
    let wave = samples.wave as i64;
    let gray_color = Color::new(200, 200, 200);
    let bright_crater_color = Color::new(220, 220, 220);
    let dynamic_color = Color::new(250, 250, 250);
    let base_color = if surface > 8000 + wave {
        gray_color
    } else if surface > 6000 + wave {
        bright_crater_color
    } else {
        dynamic_color
    };
    base_color.scale(fragment.intensity)
}

/// Concentric waves: the sine sample, damped to a twentieth, blends steel
/// blue towards light blue.
pub fn ripple_shader(fragment: &Fragment, _uniforms: &Uniforms, samples: &FieldSamples) -> (c: Color)
    ensures
        c == ripple_base(*fragment, *samples).spec_scale(fragment.intensity as int),
{
    let w = samples.wave;
    let factor: u32 = if w <= 0 {
        0
    } else if w / 20 > 1000 {
        1000
    } else {
        (w / 20) as u32
    };
    let base_color = Color::new(70, 130, 180);
    let ripple_color = Color::new(173, 216, 230);
    base_color.lerp(&ripple_color, factor).scale(fragment.intensity)
}

/// Four bands of warm colors chosen by the magnitude of the noise sample.
pub fn dynamic_cellular_shader(fragment: &Fragment, _uniforms: &Uniforms, samples: &FieldSamples) -> (c: Color)
    ensures
        c == cellular_base(*fragment, *samples).spec_scale(fragment.intensity as int),
{
    let n = samples.noise as i64;
    let v = if n < 0 {
        -n
    } else {
        n
    };
    let final_color = if v < 200 {
        Color::new(255, 69, 0)
    } else if v < 500 {
        Color::new(255, 140, 0)
    } else if v < 800 {
        Color::new(255, 215, 0)
    } else {
        Color::new(255, 255, 153)
    };
    final_color.scale(fragment.intensity)
}

/// The fragment's own color, unchanged.
pub fn default_shader(fragment: &Fragment, _uniforms: &Uniforms) -> (c: Color)
    ensures
        c == fragment.color,
{
    fragment.color
}

/// Runs the variant `kind` on one fragment, given the field values measured
/// where `sample_request` asked for them.
pub fn shade(kind: ShaderKind, fragment: &Fragment, uniforms: &Uniforms, samples: &FieldSamples) -> (c: Color)
    ensures
        c == spec_shade(kind, *fragment, *uniforms, *samples),
{
    match kind {
        ShaderKind::Sun => sun_shader(fragment, uniforms, samples),
        ShaderKind::EarthClouds => earth_clouds(fragment, uniforms, samples),
        ShaderKind::Noise => noise_shader(fragment, uniforms, samples),
        ShaderKind::MoonBrightCraters => moon_shader_bright_craters(fragment, uniforms, samples),
        ShaderKind::Ripple => ripple_shader(fragment, uniforms, samples),
        ShaderKind::DynamicCellular => dynamic_cellular_shader(fragment, uniforms, samples),
    }
}

/// Colors one fragment with the variant selected by `current_shader`
/// (0 sun, 1 earth with clouds, 2 moving spots, 3 moon craters, 4 ripple,
/// 5 and above cellular), given the field values measured where
/// `fragment_samples` asked for them.
pub fn fragment_shader(
    fragment: &Fragment,
    uniforms: &Uniforms,
    current_shader: u32,
    samples: &FieldSamples,
) -> (c: Color)
    ensures
        c == spec_fragment_shader(*fragment, *uniforms, current_shader, *samples),
{
    shade(shader_kind(current_shader), fragment, uniforms, samples)
}

} // verus!
