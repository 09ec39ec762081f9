use shading::color::Color;
use shading::fixed::isqrt;
use shading::fragment::{FieldSamples, Fragment, NoisePoint, Point3, Uniforms};
use shading::shaders::{
    default_shader, dynamic_cellular_shader, earth_clouds, fragment_samples, fragment_shader,
    moon_shader_bright_craters, noise_shader, ripple_shader, sample_request, shade, shader_kind,
    sun_shader, ShaderKind,
};

fn point(x: i32, y: i32, z: i32) -> Point3 {
    Point3 { x, y, z }
}

fn fragment_at(x: i32, y: i32, intensity: u32) -> Fragment {
    Fragment {
        vertex_position: point(x, y, 0),
        normal: point(0, 0, 1000),
        intensity,
        color: Color::new(9, 8, 7),
    }
}

fn samples(noise: i32, cloud_noise: i32, wave: i32) -> FieldSamples {
    FieldSamples { noise, cloud_noise, wave }
}

const KINDS: [ShaderKind; 6] = [
    ShaderKind::Sun,
    ShaderKind::EarthClouds,
    ShaderKind::Noise,
    ShaderKind::MoonBrightCraters,
    ShaderKind::Ripple,
    ShaderKind::DynamicCellular,
];

#[test]
fn lerp_endpoints_and_midpoint() {
    let a = Color::new(10, 200, 0);
    let b = Color::new(250, 0, 255);
    assert_eq!(a.lerp(&b, 0), a);
    assert_eq!(a.lerp(&b, 1000), b);
    assert_eq!(a.lerp(&b, 500), Color::new(130, 100, 127));
}

#[test]
fn scale_saturates_and_truncates() {
    let c = Color::new(100, 200, 255);
    assert_eq!(c.scale(5000), Color::new(255, 255, 255));
    assert_eq!(c.scale(u32::MAX), Color::new(255, 255, 255));
    assert_eq!(c.scale(0), Color::new(0, 0, 0));
    assert_eq!(c.scale(1000), c);
    assert_eq!(c.scale(333), Color::new(33, 66, 84));
    assert_eq!(Color::black(), Color::new(0, 0, 0));
}

#[test]
fn isqrt_rounds_down() {
    assert_eq!(isqrt(0), 0);
    assert_eq!(isqrt(15), 3);
    assert_eq!(isqrt(16), 4);
    assert_eq!(isqrt(25_000_000), 5000);
}

#[test]
fn dispatch_named_indices() {
    let f = fragment_at(120, -340, 800);
    let u = Uniforms { time: 17 };
    let s = samples(450, 650, 300);
    assert_eq!(fragment_shader(&f, &u, 0, &s), sun_shader(&f, &u, &s));
    assert_eq!(fragment_shader(&f, &u, 1, &s), earth_clouds(&f, &u, &s));
    assert_eq!(fragment_shader(&f, &u, 2, &s), noise_shader(&f, &u, &s));
    assert_eq!(fragment_shader(&f, &u, 3, &s), moon_shader_bright_craters(&f, &u, &s));
    assert_eq!(fragment_shader(&f, &u, 4, &s), ripple_shader(&f, &u, &s));
    assert_eq!(fragment_shader(&f, &u, 5, &s), dynamic_cellular_shader(&f, &u, &s));
    assert_eq!(shader_kind(3), ShaderKind::MoonBrightCraters);
}

#[test]
fn dispatch_out_of_range_is_cellular() {
    let f = fragment_at(120, -340, 800);
    let u = Uniforms { time: 17 };
    for noise in [-900, -100, 300, 600, 950] {
        let s = samples(noise, 0, 0);
        let five = fragment_shader(&f, &u, 5, &s);
        assert_eq!(fragment_shader(&f, &u, 6, &s), five);
        assert_eq!(fragment_shader(&f, &u, 999, &s), five);
        assert_eq!(fragment_shader(&f, &u, u32::MAX, &s), five);
    }
    assert_eq!(fragment_samples(&f, &u, 999), fragment_samples(&f, &u, 5));
    assert_eq!(shader_kind(6), ShaderKind::DynamicCellular);
}

#[test]
fn moon_threshold_boundary_is_exclusive() {
    let f = fragment_at(0, 0, 1000);
    let u = Uniforms { time: 0 };
    // With no pulse the boundary is 0.400.
    assert_eq!(moon_shader_bright_craters(&f, &u, &samples(400, 0, 0)), Color::new(220, 220, 220));
    assert_eq!(moon_shader_bright_craters(&f, &u, &samples(401, 0, 0)), Color::new(200, 200, 200));
    assert_eq!(moon_shader_bright_craters(&f, &u, &samples(300, 0, 0)), Color::new(250, 250, 250));
    assert_eq!(moon_shader_bright_craters(&f, &u, &samples(301, 0, 0)), Color::new(220, 220, 220));
    // A full positive pulse moves the boundary to 0.450.
    assert_eq!(moon_shader_bright_craters(&f, &u, &samples(450, 0, 1000)), Color::new(220, 220, 220));
    assert_eq!(moon_shader_bright_craters(&f, &u, &samples(451, 0, 1000)), Color::new(200, 200, 200));
}

#[test]
fn intensity_zero_is_black_for_lit_variants() {
    let f = fragment_at(250, 900, 0);
    let u = Uniforms { time: 5 };
    let s = samples(550, 680, 700);
    for kind in KINDS {
        assert_eq!(shade(kind, &f, &u, &s), Color::new(0, 0, 0));
    }
}

#[test]
fn full_intensity_keeps_unlit_color() {
    let u = Uniforms { time: 0 };
    let f = fragment_at(0, 0, 1000);
    assert_eq!(moon_shader_bright_craters(&f, &u, &samples(0, 0, 0)), Color::new(250, 250, 250));
    assert_eq!(dynamic_cellular_shader(&f, &u, &samples(-100, 0, 0)), Color::new(255, 69, 0));
    let half = fragment_at(0, 0, 500);
    assert_eq!(moon_shader_bright_craters(&half, &u, &samples(0, 0, 0)), Color::new(125, 125, 125));
}

#[test]
fn variants_are_deterministic_and_ignore_fallback_color() {
    let u = Uniforms { time: 42 };
    let s = samples(520, 610, -300);
    let f1 = fragment_at(700, -200, 640);
    let mut f2 = f1;
    f2.color = Color::new(1, 2, 3);
    for kind in KINDS {
        let first = shade(kind, &f1, &u, &s);
        assert_eq!(shade(kind, &f1, &u, &s), first);
        assert_eq!(shade(kind, &f2, &u, &s), first);
        assert_eq!(sample_request(kind, &f1, &u), sample_request(kind, &f2, &u));
    }
}

#[test]
fn sun_blends_towards_spot_color() {
    let u = Uniforms { time: 0 };
    let f = fragment_at(0, 0, 1000);
    assert_eq!(sun_shader(&f, &u, &samples(400, 0, 0)), Color::new(255, 143, 40));
    assert_eq!(sun_shader(&f, &u, &samples(-300, 0, 0)), Color::new(255, 69, 0));
    assert_eq!(sun_shader(&f, &u, &samples(800, 0, 0)), Color::new(162, 13, 0));
}

#[test]
fn earth_snow_land_and_clouds() {
    let u = Uniforms { time: 0 };
    // Above the snow line, thick clouds: lerp by 150 thousandths towards white.
    let polar = fragment_at(0, 800, 1000);
    assert_eq!(earth_clouds(&polar, &u, &samples(0, 700, 0)), Color::new(255, 250, 250));
    // Land under clear sky: lerp by 100 thousandths towards sky blue.
    let f = fragment_at(0, 0, 1000);
    assert_eq!(earth_clouds(&f, &u, &samples(500, 0, 0)), Color::new(44, 145, 55));
    // Ocean under clouds at 0.65: cloud intensity 250, blended by 125.
    assert_eq!(earth_clouds(&f, &u, &samples(0, 650, 0)), Color::new(31, 123, 161));
    // Desert band.
    assert_eq!(earth_clouds(&f, &u, &samples(350, 0, 0)), Color::new(202, 182, 151));
}

#[test]
fn noise_shader_circles_and_light() {
    let u = Uniforms { time: 0 };
    let lit_normal = point(1000, 1000, 1000);
    // At a circle center: black whatever the light.
    let inside = Fragment { vertex_position: point(300, -600, 0), normal: lit_normal, intensity: 1000, color: Color::new(1, 1, 1) };
    assert_eq!(noise_shader(&inside, &u, &samples(0, 0, 0)), Color::new(0, 0, 0));
    // Between circles, fully lit: white.
    let outside = Fragment { vertex_position: point(150, 150, 0), normal: lit_normal, intensity: 1000, color: Color::new(1, 1, 1) };
    assert_eq!(noise_shader(&outside, &u, &samples(0, 0, 0)), Color::new(255, 255, 255));
    // Facing away from the light: half white.
    let away = Fragment { normal: point(-1000, 0, 0), ..outside };
    assert_eq!(noise_shader(&away, &u, &samples(0, 0, 0)), Color::new(127, 127, 127));
    // Time moves the circles: the old center is no longer covered.
    let later = Uniforms { time: 100 };
    assert_eq!(noise_shader(&inside, &later, &samples(0, 0, 0)), Color::new(255, 255, 255));
    // Beyond the grid.
    let far = Fragment { vertex_position: point(5000, 0, 0), ..inside };
    assert_eq!(noise_shader(&far, &u, &samples(0, 0, 0)), Color::new(255, 255, 255));
}

#[test]
fn noise_shader_scales_by_intensity() {
    let u = Uniforms { time: 0 };
    let outside = Fragment { vertex_position: point(150, 150, 0), normal: point(0, 0, 0), intensity: 0, color: Color::new(1, 1, 1) };
    // Outside every circle at intensity zero: black.
    assert_eq!(noise_shader(&outside, &u, &samples(0, 0, 0)), Color::new(0, 0, 0));
    // Half intensity on the unlit half-white ground.
    let half = Fragment { intensity: 500, ..outside };
    assert_eq!(noise_shader(&half, &u, &samples(0, 0, 0)), Color::new(63, 63, 63));
    // Intensity 3.0 saturates the 127 grey at 255.
    let bright = Fragment { intensity: 3000, ..outside };
    assert_eq!(fragment_shader(&bright, &u, 2, &samples(0, 0, 0)), Color::new(255, 255, 255));
}

#[test]
fn ripple_blends_by_damped_wave() {
    let u = Uniforms { time: 0 };
    let f = fragment_at(0, 0, 1000);
    assert_eq!(ripple_shader(&f, &u, &samples(0, 0, -1000)), Color::new(70, 130, 180));
    assert_eq!(ripple_shader(&f, &u, &samples(0, 0, 1000)), Color::new(75, 134, 182));
}

#[test]
fn cellular_bands() {
    let u = Uniforms { time: 0 };
    let f = fragment_at(0, 0, 1000);
    assert_eq!(dynamic_cellular_shader(&f, &u, &samples(199, 0, 0)), Color::new(255, 69, 0));
    assert_eq!(dynamic_cellular_shader(&f, &u, &samples(-200, 0, 0)), Color::new(255, 140, 0));
    assert_eq!(dynamic_cellular_shader(&f, &u, &samples(500, 0, 0)), Color::new(255, 215, 0));
    assert_eq!(dynamic_cellular_shader(&f, &u, &samples(-800, 0, 0)), Color::new(255, 255, 153));
}

#[test]
fn default_shader_returns_fragment_color() {
    let f = fragment_at(0, 0, 0);
    assert_eq!(default_shader(&f, &Uniforms { time: 3 }), Color::new(9, 8, 7));
}

#[test]
fn sample_points_follow_zoom_and_time() {
    let f = fragment_at(1000, 2000, 1000);
    let u = Uniforms { time: 3 };
    let sun = sample_request(ShaderKind::Sun, &f, &u);
    assert_eq!(sun.noise_at, Some(NoisePoint::new(50_030, 100_030)));
    assert_eq!(sun.cloud_noise_at, None);
    assert_eq!(sun.wave_phase, None);
    let earth = sample_request(ShaderKind::EarthClouds, &f, &u);
    assert_eq!(earth.noise_at, Some(NoisePoint::new(80_300, 160_000)));
    assert_eq!(earth.cloud_noise_at, Some(NoisePoint::new(100_150, 200_150)));
    let moon = sample_request(ShaderKind::MoonBrightCraters, &f, &u);
    assert_eq!(moon.noise_at, Some(NoisePoint::new(50_300, 100_300)));
    assert_eq!(moon.wave_phase, Some(150));
    let cell = sample_request(ShaderKind::DynamicCellular, &f, &u);
    assert_eq!(cell.noise_at, Some(NoisePoint::new(30_000, 60_300)));
    let ripple = sample_request(ShaderKind::Ripple, &fragment_at(3000, 4000, 0), &Uniforms { time: 1 });
    assert_eq!(ripple.wave_phase, Some(47_000));
    assert_eq!(ripple.noise_at, None);
    let spots = sample_request(ShaderKind::Noise, &f, &u);
    assert_eq!(spots.noise_at, None);
    assert_eq!(spots.cloud_noise_at, None);
    assert_eq!(spots.wave_phase, None);
}
