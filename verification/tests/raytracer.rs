//! End-to-end and per-component tests of the fixed-point ray tracer.
//! One fixed-point unit is 65536.

use entorno3d::camera::Camera;
use entorno3d::color::Color;
use entorno3d::cone::ConeSection;
use entorno3d::cube::Cube;
use entorno3d::fx::{fx_div, fx_mul, fx_of, fx_pow, fx_sqrt, FX_ONE};
use entorno3d::light::Light;
use entorno3d::material::{Albedo, Material};
use entorno3d::object::Object;
use entorno3d::pawn::{Frustum, Pawn};
use entorno3d::plane::Plane;
use entorno3d::ray_intersect::Intersect;
use entorno3d::render::{render, Framebuffer};
use entorno3d::shader::{cast_ray, cast_shadow, reflect, refract};
use entorno3d::sphere::Sphere;
use entorno3d::texture::Texture;
use entorno3d::vec3::{v3_add, v3_len, v3_new, v3_scale, Vec3};

const S: i64 = FX_ONE;

fn diffuse_red() -> Material {
    Material::new(
        Color::new(255, 0, 0),
        50,
        Albedo { diffuse: S, specular: 0, reflection: 0, refraction: 0 },
    )
}

#[test]
fn fx_ops_exact_values() {
    assert_eq!(fx_of(5), 5 * S);
    assert_eq!(fx_mul(3 * S, 2 * S), 6 * S);
    assert_eq!(fx_mul(32768, 32768), 16384);
    assert_eq!(fx_div(7, 3), 152917); // 7/3 units, truncated toward zero
    assert_eq!(fx_div(-3 * S, 2 * S), -98304);
    assert_eq!(fx_div(S, 0), 0); // guarded division
    assert_eq!(fx_sqrt(S), S);
    assert_eq!(fx_sqrt(2 * S), 92681);
    assert_eq!(fx_sqrt(-5), 0);
    assert_eq!(fx_pow(32768, 0), S);
    assert_eq!(fx_pow(32768, 2), 16384);
}

#[test]
fn color_accumulates_and_packs() {
    let c = Color::new(4, 12, 36);
    assert_eq!(c.to_hex(), 0x040C24);
    let big = Color::new(255, 0, 0).scale(3 * S);
    assert_eq!(big.r, 3 * 255 * S); // no clamp while accumulating
    assert_eq!(big.to_hex(), 0xFF0000); // clamped only at display
    let sum = Color::new(1, 2, 3).add(Color::new(4, 5, 6));
    assert_eq!(sum, Color::new(5, 7, 9));
    assert_eq!(Color::black().to_hex(), 0);
}

#[test]
fn sphere_front_hit_distance_point_and_normal() {
    let s = Sphere { center: v3_new(0, 0, 0), radius: S, material: diffuse_red() };
    let origin = v3_new(0, 0, 5 * S);
    let dir = v3_new(0, 0, -S);
    let hit = s.ray_intersect(&origin, &dir);
    assert!(hit.is_intersecting);
    // distance = |origin - center| - radius for a centered external ray
    assert_eq!(hit.distance, v3_len(origin) - s.radius);
    assert_eq!(hit.distance, 4 * S);
    // point = origin + distance * direction
    assert_eq!(hit.point, v3_add(origin, v3_scale(dir, hit.distance)));
    assert_eq!(hit.point, v3_new(0, 0, S));
    // normal is radial
    assert_eq!(hit.normal, v3_new(0, 0, S));
}

#[test]
fn sphere_ray_into_empty_space_misses() {
    let s = Sphere { center: v3_new(0, 0, 0), radius: S, material: diffuse_red() };
    let origin = v3_new(0, 0, 5 * S);
    // aimed sideways, past the sphere
    let up = s.ray_intersect(&origin, &v3_new(0, S, 0));
    assert!(!up.is_intersecting);
    // aimed directly away
    let away = s.ray_intersect(&origin, &v3_new(0, 0, S));
    assert!(!away.is_intersecting);
    // degenerate zero direction
    let zero = s.ray_intersect(&origin, &v3_new(0, 0, 0));
    assert!(!zero.is_intersecting);
}

#[test]
fn plane_hit_and_parallel_miss() {
    let p = Plane {
        point: v3_new(0, 0, 0),
        normal: v3_new(0, S, 0),
        material: diffuse_red(),
        texture: None,
        scale: S,
    };
    let origin = v3_new(0, 2 * S, 0);
    let hit = p.ray_intersect(&origin, &v3_new(0, -S, 0));
    assert!(hit.is_intersecting);
    assert_eq!(hit.distance, 2 * S);
    assert_eq!(hit.point, v3_new(0, 0, 0));
    assert_eq!(hit.normal, v3_new(0, S, 0));
    assert_eq!(hit.point, v3_add(origin, v3_scale(v3_new(0, -S, 0), hit.distance)));
    // parallel ray misses
    let par = p.ray_intersect(&origin, &v3_new(S, 0, 0));
    assert!(!par.is_intersecting);
    // plane behind the origin misses
    let behind = p.ray_intersect(&origin, &v3_new(0, S, 0));
    assert!(!behind.is_intersecting);
}

fn unit_cube(textures: Vec<Option<Texture>>) -> Cube {
    Cube {
        min: v3_new(-S, -S, -S),
        max: v3_new(S, S, S),
        material: diffuse_red(),
        textures,
    }
}

#[test]
fn cube_face_normal_is_axis_unit() {
    let c = unit_cube(vec![None, None, None, None, None, None]);
    let origin = v3_new(0, 0, 5 * S);
    let dir = v3_new(0, 0, -S);
    let hit = c.ray_intersect(&origin, &dir);
    assert!(hit.is_intersecting);
    assert_eq!(hit.distance, 4 * S);
    assert_eq!(hit.point, v3_new(0, 0, S));
    // normal is exactly the +Z axis unit vector
    assert_eq!(hit.normal, v3_new(0, 0, S));
    assert_eq!(hit.point, v3_add(origin, v3_scale(dir, hit.distance)));
    // a ray pointed away misses
    let away = c.ray_intersect(&origin, &v3_new(0, 0, S));
    assert!(!away.is_intersecting);
    // a parallel ray outside the slabs misses
    let beside = c.ray_intersect(&v3_new(3 * S, 0, 5 * S), &v3_new(0, 0, -S));
    assert!(!beside.is_intersecting);
}

#[test]
fn cube_inside_origin_hits_exit_face() {
    let c = unit_cube(vec![None, None, None, None, None, None]);
    let hit = c.ray_intersect(&v3_new(0, 0, 0), &v3_new(0, 0, -S));
    assert!(hit.is_intersecting);
    assert_eq!(hit.distance, S);
    assert_eq!(hit.point, v3_new(0, 0, -S));
    assert_eq!(hit.normal, v3_new(0, 0, -S));
    // a box entirely behind the origin still misses
    let behind = c.ray_intersect(&v3_new(0, 0, 5 * S), &v3_new(0, 0, S));
    assert!(!behind.is_intersecting);
}

#[test]
fn cube_face_texture_uv_sample() {
    let tex = Texture {
        width: 2,
        height: 2,
        pixels: vec![
            Color::new(10, 0, 0),
            Color::new(0, 10, 0),
            Color::new(0, 0, 10),
            Color::new(10, 10, 0),
        ],
    };
    let c = unit_cube(vec![None, None, None, None, None, Some(tex)]);
    let hit = c.ray_intersect(&v3_new(0, 0, 5 * S), &v3_new(0, 0, -S));
    assert!(hit.is_intersecting);
    // hit at the face center: u = v = 1/2, sampling column 1, row 1
    assert_eq!(hit.material.diffuse, Color::new(10, 10, 0));
    // specular and albedo stay the cube's own
    assert_eq!(hit.material.specular, c.material.specular);
    assert_eq!(hit.material.albedo, c.material.albedo);
}

#[test]
fn cone_lateral_hit_and_miss() {
    let cone = ConeSection {
        apex: v3_new(0, S, 0),
        height: S,
        r1: S,
        r2: S,
        material: diffuse_red(),
        texture: None,
    };
    let origin = v3_new(5 * S, 32768, 0);
    let hit = cone.ray_intersect(&origin, &v3_new(-S, 0, 0));
    assert!(hit.is_intersecting);
    assert_eq!(hit.distance, 4 * S);
    assert_eq!(hit.point, v3_new(S, 32768, 0));
    assert_eq!(hit.normal, v3_new(S, 0, 0));
    // aimed away: no hit
    let away = cone.ray_intersect(&origin, &v3_new(S, 0, 0));
    assert!(!away.is_intersecting);
    // above the vertical span: no hit
    let over = cone.ray_intersect(&v3_new(5 * S, 3 * S, 0), &v3_new(-S, 0, 0));
    assert!(!over.is_intersecting);
}

#[test]
fn cone_cylindrical_texture_sample() {
    let tex = Texture {
        width: 2,
        height: 2,
        pixels: vec![
            Color::new(1, 0, 0),
            Color::new(2, 0, 0),
            Color::new(3, 0, 0),
            Color::new(4, 0, 0),
        ],
    };
    let cone = ConeSection {
        apex: v3_new(0, S, 0),
        height: S,
        r1: S,
        r2: S,
        material: diffuse_red(),
        texture: Some(tex),
    };
    // hit at azimuth +X (u = 3/4) and half height (v = 1/2): column 1, row 1
    let hit = cone.ray_intersect(&v3_new(5 * S, 32768, 0), &v3_new(-S, 0, 0));
    assert!(hit.is_intersecting);
    assert_eq!(hit.material.diffuse, Color::new(4, 0, 0));
}

#[test]
fn frustum_bounding_sphere_hit() {
    let f = Frustum {
        base: v3_new(0, 0, 0),
        radius_bottom: S,
        radius_top: 32768,
        height: 2 * S,
        material: diffuse_red(),
    };
    let hit = f.ray_intersect(&v3_new(0, S, 5 * S), &v3_new(0, 0, -S));
    assert!(hit.is_intersecting);
    // bounding sphere: center at half height, radius the larger of the two
    assert_eq!(hit.distance, 4 * S);
    assert_eq!(hit.point, v3_new(0, S, S));
    assert_eq!(hit.normal, v3_new(0, 0, S));
    let away = f.ray_intersect(&v3_new(0, S, 5 * S), &v3_new(0, 0, S));
    assert!(!away.is_intersecting);
}

#[test]
fn pawn_takes_nearer_section() {
    let p = Pawn { base: v3_new(0, 0, 0), scale: S, material: diffuse_red() };
    let origin = v3_new(0, 32768, 5 * S);
    let dir = v3_new(0, 0, -S);
    let hit = p.ray_intersect(&origin, &dir);
    assert!(hit.is_intersecting);
    // at this height only the lower section's bounding sphere is crossed
    let lower = Frustum {
        base: v3_new(0, 0, 0),
        radius_bottom: 39322,
        radius_top: 19661,
        height: S,
        material: diffuse_red(),
    };
    let direct = lower.ray_intersect(&origin, &dir);
    assert!(direct.is_intersecting);
    assert_eq!(hit.distance, direct.distance);
    assert_eq!(hit.point, direct.point);
}

#[test]
fn reflect_and_refract_formulas() {
    // head-on reflection flips the direction
    let r = reflect(&v3_new(0, 0, -S), &v3_new(0, 0, S));
    assert_eq!(r, v3_new(0, 0, S));
    // refraction straight through a unit-index interface keeps the direction
    let t = refract(&v3_new(0, 0, -S), &v3_new(0, 0, S), S);
    assert_eq!(t, Some(v3_new(0, 0, -S)));
    // grazing entry into a thinner medium: total internal reflection
    let none = refract(&v3_new(S, 0, 0), &v3_new(0, 0, S), 3 * S);
    assert_eq!(none, None);
}

fn white_light() -> Light {
    Light::new(v3_new(0, 0, 8 * S), Color::new(255, 255, 255), 2 * S)
}

#[test]
fn shadow_zero_without_occluder() {
    let lit_point = Intersect::new(v3_new(0, 0, 0), v3_new(0, 0, S), 0, Material::black());
    // empty scene
    assert_eq!(cast_shadow(&lit_point, &white_light(), &vec![]), 0);
    // an object beside the ray occludes nothing
    let beside = Object::Sphere(Sphere {
        center: v3_new(5 * S, 0, 4 * S),
        radius: S,
        material: diffuse_red(),
    });
    assert_eq!(cast_shadow(&lit_point, &white_light(), &vec![beside]), 0);
}

#[test]
fn shadow_positive_with_occluder_between() {
    let lit_point = Intersect::new(v3_new(0, 0, 0), v3_new(0, 0, S), 0, Material::black());
    // opaque sphere strictly between the point and the light, at half the
    // light distance
    let occluder = Object::Sphere(Sphere {
        center: v3_new(0, 0, 4 * S),
        radius: S,
        material: diffuse_red(),
    });
    let occ = cast_shadow(&lit_point, &white_light(), &vec![occluder]);
    assert!(occ > 0);
    assert!(occ <= S);
}

#[test]
fn cast_ray_beyond_depth_cap_returns_sky() {
    let sky = Color::new(4, 12, 36);
    let mirror = Object::Sphere(Sphere {
        center: v3_new(0, 0, 0),
        radius: S,
        material: Material::new(
            Color::new(105, 210, 210),
            400,
            Albedo { diffuse: 6554, specular: 6554, reflection: S, refraction: 19661 },
        ),
    });
    let objects = vec![mirror];
    let light = white_light();
    // depth 6 exceeds the cap of 5: sky comes back regardless of the scene
    let c = cast_ray(&v3_new(0, 0, 5 * S), &v3_new(0, 0, -S), &objects, &light, 6);
    assert_eq!(c, sky);
}

#[test]
fn cast_ray_miss_returns_sky() {
    let sky = Color::new(4, 12, 36);
    let c = cast_ray(&v3_new(0, 0, 5 * S), &v3_new(0, 0, -S), &vec![], &white_light(), 0);
    assert_eq!(c, sky);
}

fn scene_light() -> Light {
    Light::new(v3_new(0, 3 * S, 5 * S), Color::new(255, 223, 250), 2 * S)
}

#[test]
fn single_diffuse_sphere_front_pixel_exact() {
    // albedo (1, 0, 0, 0): no specular, reflection, refraction or indirect
    // term; diffuse alone, proportional to max(0, N.L)
    let objects = vec![Object::Sphere(Sphere {
        center: v3_new(0, 0, 0),
        radius: S,
        material: diffuse_red(),
    })];
    let c = cast_ray(&v3_new(0, 0, 5 * S), &v3_new(0, 0, -S), &objects, &scene_light(), 0);
    // N = (0,0,1), L = (0, 3/5, 4/5): N.L = 52428; 255 * 52428 * 2 = 26738280
    assert_eq!(c, Color { r: 26738280, g: 0, b: 0 });
}

#[test]
fn zero_refraction_weight_contributes_nothing() {
    // same scene with a specular weight but refraction weight zero: the
    // color is exactly diffuse + specular, nothing more
    let objects = vec![Object::Sphere(Sphere {
        center: v3_new(0, 0, 0),
        radius: S,
        material: Material::new(
            Color::new(255, 0, 0),
            1,
            Albedo { diffuse: S, specular: 32768, reflection: 0, refraction: 0 },
        ),
    })];
    let c = cast_ray(&v3_new(0, 0, 5 * S), &v3_new(0, 0, -S), &objects, &scene_light(), 0);
    assert_eq!(c, Color { r: 40107420, g: 11691444, b: 13107000 });
}

#[test]
fn mirror_sphere_over_empty_scene_is_deterministic() {
    // a purely reflective sphere under an empty sky: mirror and all three
    // jittered indirect rays hit nothing, so the exact sum is forced even
    // though the jitter is random
    let objects = vec![Object::Sphere(Sphere {
        center: v3_new(0, 0, 0),
        radius: S,
        material: Material::new(
            Color::new(105, 210, 210),
            400,
            Albedo { diffuse: 0, specular: 0, reflection: S, refraction: 0 },
        ),
    })];
    let light = Light::new(v3_new(0, 3 * S, 5 * S), Color::new(255, 223, 250), 0);
    let c = cast_ray(&v3_new(0, 0, 5 * S), &v3_new(0, 0, -S), &objects, &light, 0);
    // sky (262144, 786432, 2359296) + averaged sky (262140, 786420, 2359260)
    assert_eq!(c, Color { r: 524284, g: 1572852, b: 4718556 });
}

#[test]
fn texture_wraps_and_flips() {
    let tex = Texture {
        width: 2,
        height: 2,
        pixels: vec![
            Color::new(1, 0, 0),
            Color::new(2, 0, 0),
            Color::new(3, 0, 0),
            Color::new(4, 0, 0),
        ],
    };
    // v = 0 maps to the bottom row; u just past one wraps to column 0
    assert_eq!(tex.get_color(0, 0), Color::new(3, 0, 0));
    assert_eq!(tex.get_color(S + 1, 0), Color::new(3, 0, 0));
    // the top-right pixel: u in the second column, v near 1
    assert_eq!(tex.get_color(32768, 65535), Color::new(2, 0, 0));
    // negative u clamps to column 0 after its negative fraction
    assert_eq!(tex.get_color(-32768, 0), Color::new(3, 0, 0));
}

#[test]
fn camera_basis_change_canonical() {
    let cam = Camera::new(v3_new(0, 0, 5 * S), v3_new(0, 0, 0), v3_new(0, S, 0));
    // looking down -Z with +Y up: camera space equals world space
    assert_eq!(cam.basis_change(&v3_new(0, 0, -S)), v3_new(0, 0, -S));
    assert_eq!(cam.basis_change(&v3_new(S, 0, 0)), v3_new(S, 0, 0));
    assert_eq!(cam.basis_change(&v3_new(0, S, 0)), v3_new(0, S, 0));
}

#[test]
fn camera_orbit_quarter_yaw() {
    let mut cam = Camera::new(v3_new(0, 0, 5 * S), v3_new(0, 0, 0), v3_new(0, S, 0));
    // yaw by a quarter turn (sin 1, cos 0), no pitch (sin 0, cos 1)
    cam.orbit(S, 0, 0, S);
    assert_eq!(cam.eye, v3_new(5 * S, 0, 0));
    assert_eq!(cam.center, v3_new(0, 0, 0));
    assert_eq!(cam.up, v3_new(0, S, 0));
}

#[test]
fn framebuffer_point_writes_pixel() {
    let mut fb = Framebuffer::new(2, 2);
    assert_eq!(fb.buffer.len(), 4);
    fb.set_current_color(0xFF00FF);
    fb.point(1, 0);
    assert_eq!(fb.buffer[1], 0xFF00FF);
    assert_eq!(fb.buffer[0], 0);
}

#[test]
fn render_writes_sphere_and_sky_pixels() {
    let mut fb = Framebuffer::new(2, 2);
    let objects = vec![Object::Sphere(Sphere {
        center: v3_new(0, 0, 0),
        radius: S,
        material: diffuse_red(),
    })];
    let cam = Camera::new(v3_new(0, 0, 5 * S), v3_new(0, 0, 0), v3_new(0, S, 0));
    render(&mut fb, &objects, &cam, &scene_light());
    // pixel (1,1) looks straight at the sphere's front center
    assert_eq!(fb.buffer[3], 0xFF0000);
    // pixel (0,0) looks past the sphere into the sky
    assert_eq!(fb.buffer[0], 0x040C24);
}

#[test]
fn material_constructors() {
    let m = Material::black();
    assert_eq!(m.diffuse, Color::black());
    assert_eq!(m.specular, 0);
    assert_eq!(m.albedo, Albedo { diffuse: 0, specular: 0, reflection: 0, refraction: 0 });
    let empty = Intersect::empty();
    assert!(!empty.is_intersecting);
    assert_eq!(empty.distance, 0);
}
