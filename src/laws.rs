use vstd::prelude::*;
use crate::color::{lemma_scale_unit_and_zero, Color};
use crate::fragment::{FieldSamples, Fragment, Uniforms};
use crate::shaders::{
    moon_base, rgb, spec_fragment_shader, spec_sample_request, spec_shade, spec_shader_kind, unlit_color,
    ShaderKind,
};

verus! {

/// Every shader index from 6 on shades exactly as index 5 does, and asks
/// for the same samples.
pub proof fn lemma_out_of_range_index_is_cellular(f: Fragment, u: Uniforms, index: u32, s: FieldSamples)
    requires
        index >= 6,
    ensures
        spec_shader_kind(index) == ShaderKind::DynamicCellular,
        spec_fragment_shader(f, u, index, s) == spec_fragment_shader(f, u, 5, s),
        spec_sample_request(spec_shader_kind(index), f, u) == spec_sample_request(
            spec_shader_kind(5),
            f,
            u,
        ),
{
}

/// A variant's result depends only on the fragment's position, normal and
/// intensity, the time and the field samples: two fragments that agree on
/// these get the same color and the same sample request, whatever their
/// fallback colors.
pub proof fn lemma_variants_deterministic(
    kind: ShaderKind,
    f1: Fragment,
    f2: Fragment,
    u1: Uniforms,
    u2: Uniforms,
    s: FieldSamples,
)
    requires
        f1.vertex_position == f2.vertex_position,
        f1.normal == f2.normal,
        f1.intensity == f2.intensity,
        u1.time == u2.time,
    ensures
        spec_shade(kind, f1, u1, s) == spec_shade(kind, f2, u2, s),
        spec_sample_request(kind, f1, u1) == spec_sample_request(kind, f2, u2),
{
    assert(u1 == u2);
}

/// Every variant gives black at intensity zero and its unlit color at full
/// intensity.
pub proof fn lemma_intensity_scaling(kind: ShaderKind, f: Fragment, u: Uniforms, s: FieldSamples)
    ensures
        f.intensity == 0 ==> spec_shade(kind, f, u, s) == (Color { r: 0, g: 0, b: 0 }),
        f.intensity == 1000 ==> spec_shade(kind, f, u, s) == unlit_color(kind, f, u, s),
{
    lemma_scale_unit_and_zero(unlit_color(kind, f, u, s));
}

/// A noise sample exactly on the crater boundary is not above it: the moon
/// shows the bright crater color there.
pub proof fn lemma_moon_boundary_exclusive(f: Fragment, s: FieldSamples)
    requires
        20 * s.noise == 8000 + s.wave,
    ensures
        moon_base(f, s) == rgb(220, 220, 220),
{
}

} // verus!
