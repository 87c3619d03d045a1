//! The recursive Whitted-style shader: nearest-hit search, soft shadows,
//! diffuse and specular lighting, mirror reflection, refraction, and a
//! jittered indirect-reflection term, all bounded by a fixed recursion
//! depth.

use vstd::prelude::*;
use rand::Rng;
use crate::color::{color_add_s, color_black_s, color_new_s, color_scale_s, color_wf, Color};
use crate::fx::{
    fx_add, fx_add_s, fx_div, fx_div_s, fx_max, fx_max_s, fx_min, fx_min_s, fx_mul, fx_mul_s,
    fx_neg_s, fx_pow, fx_pow_s, fx_sqrt, fx_sqrt_s, fx_sub, fx_sub_s, lemma_fx_square_nonneg,
    FX_ONE,
};
use crate::light::Light;
use crate::object::{object_hit_s, objects_wf, Object};
use crate::ray_intersect::{intersect_empty_s, intersect_wf, Intersect};
use crate::vec3::{
    v3_add, v3_add_s, v3_dot, v3_dot_s, v3_len, v3_len_s, v3_neg, v3_neg_s, v3_normalize,
    v3_normalize_s, v3_scale, v3_scale_s, v3_sub, v3_sub_s, Vec3,
};

verus! {

/// Deepest recursion level still shaded; beyond it, rays return the sky.
pub const MAX_DEPTH: u32 = 5;

/// Offset along the normal applied to secondary-ray origins, against
/// self-intersection.
pub const SHADOW_BIAS: i64 = 7;

/// Half-width of the uniform per-axis jitter of the indirect term (0.05 of
/// a unit).
pub const JITTER_SPREAD: i64 = 3277;

/// One third of a unit: the indirect term averages three samples.
pub const ONE_THIRD: i64 = 21845;

/// The background color rays fall back to.
pub open spec fn sky_color_s() -> Color {
    color_new_s(4, 12, 36)
}

/// The incident direction mirrored about the normal:
/// `I - 2 (I . N) N`.
pub open spec fn reflect_s(incident: Vec3, normal: Vec3) -> Vec3 {
    let d = v3_dot_s(incident, normal);
    v3_sub_s(incident, v3_scale_s(normal, fx_add_s(d, d)))
}

/// The incident direction bent by Snell's law for relative index `eta`, or
/// nothing under total internal reflection (negative discriminant).
pub open spec fn refract_s(incident: Vec3, normal: Vec3, eta: int) -> Option<Vec3> {
    let ndi = v3_dot_s(normal, incident);
    let k = fx_sub_s(
        FX_ONE as int,
        fx_mul_s(fx_mul_s(eta, eta), fx_sub_s(FX_ONE as int, fx_mul_s(ndi, ndi))),
    );
    if k < 0 {
        None
    } else {
        Some(
            v3_sub_s(
                v3_scale_s(incident, eta),
                v3_scale_s(normal, fx_add_s(fx_mul_s(eta, ndi), fx_sqrt_s(k))),
            ),
        )
    }
}

pub fn reflect(incident: &Vec3, normal: &Vec3) -> (r: Vec3)
    ensures
        r == reflect_s(*incident, *normal),
{
    let d = v3_dot(*incident, *normal);
    v3_sub(*incident, v3_scale(*normal, fx_add(d, d)))
}

pub fn refract(incident: &Vec3, normal: &Vec3, eta: i64) -> (r: Option<Vec3>)
    ensures
        r == refract_s(*incident, *normal, eta as int),
{
    let ndi = v3_dot(*normal, *incident);
    let k = fx_sub(FX_ONE, fx_mul(fx_mul(eta, eta), fx_sub(FX_ONE, fx_mul(ndi, ndi))));
    if k < 0 {
        None
    } else {
        Some(v3_sub(v3_scale(*incident, eta), v3_scale(*normal, fx_add(fx_mul(eta, ndi), fx_sqrt(k)))))
    }
}

/// Best hit among the first `n` objects: a later hit replaces an earlier
/// one only when strictly nearer, so the first object wins exact ties.
pub open spec fn nearest_hit_upto_s(objs: Seq<Object>, o: Vec3, d: Vec3, n: int) -> Intersect
    decreases n,
{
    if n <= 0 {
        intersect_empty_s()
    } else {
        let prev = nearest_hit_upto_s(objs, o, d, n - 1);
        let h = object_hit_s(objs[n - 1], o, d);
        if h.is_intersecting && (!prev.is_intersecting || h.distance < prev.distance) {
            h
        } else {
            prev
        }
    }
}

/// Nearest hit of the ray over the whole scene, in object order.
pub open spec fn nearest_hit_s(objs: Seq<Object>, o: Vec3, d: Vec3) -> Intersect {
    nearest_hit_upto_s(objs, o, d, objs.len() as int)
}

/// Direction from a hit point to the light, unit length.
pub open spec fn light_dir_s(it: Intersect, light: Light) -> Vec3 {
    v3_normalize_s(v3_sub_s(light.position, it.point))
}

/// Fixed-point distance from a hit point to the light.
pub open spec fn light_dist_s(it: Intersect, light: Light) -> int {
    v3_len_s(v3_sub_s(light.position, it.point))
}

/// Origin of the shadow ray: the hit point, nudged along the normal toward
/// the light's side of the surface.
pub open spec fn shadow_origin_s(it: Intersect, light: Light) -> Vec3 {
    let offset = v3_scale_s(it.normal, SHADOW_BIAS as int);
    if v3_dot_s(light_dir_s(it, light), it.normal) < 0 {
        v3_sub_s(it.point, offset)
    } else {
        v3_add_s(it.point, offset)
    }
}

/// Whether one object blocks the shadow ray nearer than the light.
pub open spec fn occludes_s(ob: Object, so: Vec3, sd: Vec3, light_dist: int) -> bool {
    let h = object_hit_s(ob, so, sd);
    h.is_intersecting && (h.distance as int) < light_dist
}

/// Occlusion from the first blocking object at or after index `i`, in
/// object order (only the first one found counts): one minus the squared
/// ratio of its distance to the light distance, capped at a full unit; zero
/// when nothing blocks.
pub open spec fn shadow_from_s(objs: Seq<Object>, so: Vec3, sd: Vec3, light_dist: int, i: int) -> int
    decreases objs.len() - i,
{
    if i < 0 || i >= objs.len() {
        0
    } else if occludes_s(objs[i], so, sd, light_dist) {
        let ratio = fx_div_s(object_hit_s(objs[i], so, sd).distance as int, light_dist);
        fx_sub_s(FX_ONE as int, fx_min_s(fx_mul_s(ratio, ratio), FX_ONE as int))
    } else {
        shadow_from_s(objs, so, sd, light_dist, i + 1)
    }
}

/// Soft-shadow occlusion for a hit under a light: zero means fully lit, a
/// full unit fully occluded.
pub open spec fn cast_shadow_s(it: Intersect, light: Light, objs: Seq<Object>) -> int {
    shadow_from_s(objs, shadow_origin_s(it, light), light_dir_s(it, light), light_dist_s(it, light), 0)
}

/// Shadow occlusion always lies between zero and one unit.
pub proof fn lemma_shadow_from_range(objs: Seq<Object>, so: Vec3, sd: Vec3, light_dist: int, i: int)
    ensures
        0 <= shadow_from_s(objs, so, sd, light_dist, i) <= FX_ONE as int,
    decreases objs.len() - i,
{
    if i < 0 || i >= objs.len() {
    } else if occludes_s(objs[i], so, sd, light_dist) {
        let ratio = fx_div_s(object_hit_s(objs[i], so, sd).distance as int, light_dist);
        lemma_fx_square_nonneg(ratio);
    } else {
        lemma_shadow_from_range(objs, so, sd, light_dist, i + 1);
    }
}

/// With no occluder in the scanned tail, the occlusion is exactly zero.
pub proof fn lemma_shadow_from_unoccluded(
    objs: Seq<Object>,
    so: Vec3,
    sd: Vec3,
    light_dist: int,
    i: int,
)
    requires
        forall|j: int| i <= j < objs.len() ==> !occludes_s(#[trigger] objs[j], so, sd, light_dist),
    ensures
        shadow_from_s(objs, so, sd, light_dist, i) == 0,
    decreases objs.len() - i,
{
    if 0 <= i < objs.len() {
        lemma_shadow_from_unoccluded(objs, so, sd, light_dist, i + 1);
    }
}

/// With zero objects between a lit point and the light, the shadow tester
/// reports an occlusion of exactly zero.
pub proof fn lemma_cast_shadow_unoccluded(it: Intersect, light: Light, objs: Seq<Object>)
    requires
        forall|j: int|
            0 <= j < objs.len() ==> !occludes_s(
                #[trigger] objs[j],
                shadow_origin_s(it, light),
                light_dir_s(it, light),
                light_dist_s(it, light),
            ),
    ensures
        cast_shadow_s(it, light, objs) == 0,
{
    lemma_shadow_from_unoccluded(
        objs,
        shadow_origin_s(it, light),
        light_dir_s(it, light),
        light_dist_s(it, light),
        0,
    );
}

/// Soft-shadow occlusion of a hit: scan the objects in order and stop at
/// the first one that blocks the ray to the light.
pub fn cast_shadow(intersect: &Intersect, light: &Light, objects: &Vec<Object>) -> (r: i64)
    requires
        objects_wf(objects@),
    ensures
        r == cast_shadow_s(*intersect, *light, objects@),
        0 <= r <= FX_ONE,
{
    let light_v = v3_sub(light.position, intersect.point);
    let light_dir = v3_normalize(light_v);
    let light_distance = v3_len(light_v);
    let offset = v3_scale(intersect.normal, SHADOW_BIAS);
    let shadow_ray_origin = if v3_dot(light_dir, intersect.normal) < 0 {
        v3_sub(intersect.point, offset)
    } else {
        v3_add(intersect.point, offset)
    };
    let ghost so = shadow_origin_s(*intersect, *light);
    let ghost sd = light_dir_s(*intersect, *light);
    let ghost ld = light_dist_s(*intersect, *light);
    let mut i: usize = 0;
    while i < objects.len()
        invariant
            0 <= i <= objects.len(),
            objects_wf(objects@),
            so == shadow_origin_s(*intersect, *light),
            sd == light_dir_s(*intersect, *light),
            ld == light_dist_s(*intersect, *light),
            shadow_ray_origin == so,
            light_dir == sd,
            light_distance as int == ld,
            shadow_from_s(objects@, so, sd, ld, 0) == shadow_from_s(objects@, so, sd, ld, i as int),
        decreases objects.len() - i,
    {
        let shadow_intersect = objects[i].ray_intersect(&shadow_ray_origin, &light_dir);
        if shadow_intersect.is_intersecting && shadow_intersect.distance < light_distance {
            let distance_ratio = fx_div(shadow_intersect.distance, light_distance);
            let r = fx_sub(FX_ONE, fx_min(fx_mul(distance_ratio, distance_ratio), FX_ONE));
            proof {
                lemma_fx_square_nonneg(fx_div_s(shadow_intersect.distance as int, ld));
                assert(occludes_s(objects@[i as int], so, sd, ld));
                assert(shadow_from_s(objects@, so, sd, ld, i as int) == fx_sub_s(
                    FX_ONE as int,
                    fx_min_s(
                        fx_mul_s(
                            fx_div_s(shadow_intersect.distance as int, ld),
                            fx_div_s(shadow_intersect.distance as int, ld),
                        ),
                        FX_ONE as int,
                    ),
                ));
            }
            return r;
        }
        i = i + 1;
    }
    proof {
        lemma_shadow_from_range(objects@, so, sd, ld, 0);
    }
    0
}

/// Relies on `rand::Rng::gen_range` (through `rand::thread_rng`): a sample
/// within the given inclusive range; it panics only on an empty range,
/// which the precondition rules out.
#[verifier::external_body]
fn sample_jitter(lo: i64, hi: i64) -> (r: i64)
    requires
        lo <= hi,
    ensures
        lo <= r <= hi,
{
    rand::thread_rng().gen_range(lo..=hi)
}

/// The light's intensity attenuated by the shadow occlusion.
pub open spec fn light_factor_s(light: Light, shadow: int) -> int {
    fx_mul_s(light.intensity as int, fx_sub_s(FX_ONE as int, shadow))
}

/// Diffuse contribution: the hit material's diffuse color, weighted by its
/// diffuse albedo, the clamped normal-to-light cosine, and the attenuated
/// light intensity.
pub open spec fn diffuse_term_s(it: Intersect, light: Light, shadow: int) -> Color {
    color_scale_s(
        color_scale_s(
            color_scale_s(it.material.diffuse, it.material.albedo.diffuse as int),
            fx_min_s(fx_max_s(v3_dot_s(it.normal, light_dir_s(it, light)), 0), FX_ONE as int),
        ),
        light_factor_s(light, shadow),
    )
}

/// Specular contribution: the light's color, weighted by the specular
/// albedo, the view-to-reflected-light cosine raised to the material's
/// specular exponent, and the attenuated light intensity.
pub open spec fn specular_term_s(it: Intersect, light: Light, shadow: int, origin: Vec3) -> Color {
    let view = v3_normalize_s(v3_sub_s(origin, it.point));
    let rdir = reflect_s(v3_neg_s(light_dir_s(it, light)), it.normal);
    color_scale_s(
        color_scale_s(
            color_scale_s(light.color, it.material.albedo.specular as int),
            fx_pow_s(fx_max_s(v3_dot_s(view, rdir), 0), it.material.specular as nat),
        ),
        light_factor_s(light, shadow),
    )
}

/// Origin of a reflected or indirect bounce: the hit point nudged along
/// the outward normal.
pub open spec fn reflect_bounce_origin_s(hit: Intersect) -> Vec3 {
    v3_add_s(hit.point, v3_scale_s(hit.normal, SHADOW_BIAS as int))
}

/// Origin of a refracted bounce: the hit point nudged against the normal,
/// to the inward side.
pub open spec fn refract_bounce_origin_s(hit: Intersect) -> Vec3 {
    v3_sub_s(hit.point, v3_scale_s(hit.normal, SHADOW_BIAS as int))
}

/// Relative refractive index handed to Snell's law: the reciprocal of the
/// material's index when the ray enters (ray against the normal), the
/// index itself when it exits.
pub open spec fn refraction_eta_s(hit: Intersect, d: Vec3) -> int {
    if v3_dot_s(d, hit.normal) < 0 {
        fx_div_s(FX_ONE as int, hit.material.albedo.refraction as int)
    } else {
        hit.material.albedo.refraction as int
    }
}

/// A jitter offset with each component within the fixed spread.
pub open spec fn jitter_in_spread_s(j: Vec3) -> bool {
    &&& -JITTER_SPREAD <= j.x <= JITTER_SPREAD
    &&& -JITTER_SPREAD <= j.y <= JITTER_SPREAD
    &&& -JITTER_SPREAD <= j.z <= JITTER_SPREAD
}

/// What `cast_ray` promises of any one ray, short of decomposing the
/// bounce terms: a well-formed color; the sky beyond the depth cap and on
/// a miss; and, for a hit on a material with neither reflection nor
/// refraction weight, exactly the diffuse and specular sum.
pub open spec fn shade_base_s(
    c: Color,
    o: Vec3,
    d: Vec3,
    objs: Seq<Object>,
    light: Light,
    depth: int,
) -> bool {
    &&& color_wf(c)
    &&& depth > MAX_DEPTH as int ==> c == sky_color_s()
    &&& (depth <= MAX_DEPTH as int && !nearest_hit_s(objs, o, d).is_intersecting) ==> c
        == sky_color_s()
    &&& ({
        let hit = nearest_hit_s(objs, o, d);
        let shadow = cast_shadow_s(hit, light, objs);
        (depth <= MAX_DEPTH as int && hit.is_intersecting && hit.material.albedo.reflection <= 0
            && hit.material.albedo.refraction <= 0) ==> c == color_add_s(
            diffuse_term_s(hit, light, shadow),
            specular_term_s(hit, light, shadow, o),
        )
    })
}

/// What holds of the mirror-reflection term: black when the reflection
/// weight is not positive; otherwise the shade of the reflected ray from
/// the nudged origin one level deeper, scaled by the reflection weight.
pub open spec fn reflection_post(
    rc: Color,
    d: Vec3,
    hit: Intersect,
    objs: Seq<Object>,
    light: Light,
    next: int,
) -> bool {
    &&& color_wf(rc)
    &&& hit.material.albedo.reflection <= 0 ==> rc == color_black_s()
    &&& hit.material.albedo.reflection > 0 ==> exists|r: Color|
        {
            &&& #[trigger] shade_base_s(
                r,
                reflect_bounce_origin_s(hit),
                reflect_s(d, hit.normal),
                objs,
                light,
                next,
            )
            &&& rc == color_scale_s(r, hit.material.albedo.reflection as int)
        }
}

/// What holds of the refraction term: black when the refraction weight is
/// not positive and under total internal reflection (no mirror fallback);
/// otherwise the shade of the ray bent by the entering-or-exiting relative
/// index, from the inward-nudged origin one level deeper, scaled by the
/// refraction weight.
pub open spec fn refraction_post(
    fc: Color,
    d: Vec3,
    hit: Intersect,
    objs: Seq<Object>,
    light: Light,
    next: int,
) -> bool {
    &&& color_wf(fc)
    &&& hit.material.albedo.refraction <= 0 ==> fc == color_black_s()
    &&& hit.material.albedo.refraction > 0 ==> match refract_s(
        d,
        hit.normal,
        refraction_eta_s(hit, d),
    ) {
        None => fc == color_black_s(),
        Some(rd) => exists|r: Color|
            {
                &&& #[trigger] shade_base_s(r, refract_bounce_origin_s(hit), rd, objs, light, next)
                &&& fc == color_scale_s(r, hit.material.albedo.refraction as int)
            },
    }
}

/// What holds of the indirect term: black when the reflection weight is
/// not positive; otherwise the average of three shades along the mirror
/// direction jittered within the fixed spread, each one level deeper,
/// scaled by the reflection weight.
pub open spec fn indirect_post(
    ic: Color,
    d: Vec3,
    hit: Intersect,
    objs: Seq<Object>,
    light: Light,
    next: int,
) -> bool {
    &&& color_wf(ic)
    &&& hit.material.albedo.reflection <= 0 ==> ic == color_black_s()
    &&& hit.material.albedo.reflection > 0 ==> exists|
        j1: Vec3,
        j2: Vec3,
        j3: Vec3,
        c1: Color,
        c2: Color,
        c3: Color,
    |
        {
            &&& jitter_in_spread_s(j1)
            &&& jitter_in_spread_s(j2)
            &&& jitter_in_spread_s(j3)
            &&& #[trigger] shade_base_s(
                c1,
                reflect_bounce_origin_s(hit),
                v3_normalize_s(v3_add_s(reflect_s(d, hit.normal), j1)),
                objs,
                light,
                next,
            )
            &&& #[trigger] shade_base_s(
                c2,
                reflect_bounce_origin_s(hit),
                v3_normalize_s(v3_add_s(reflect_s(d, hit.normal), j2)),
                objs,
                light,
                next,
            )
            &&& #[trigger] shade_base_s(
                c3,
                reflect_bounce_origin_s(hit),
                v3_normalize_s(v3_add_s(reflect_s(d, hit.normal), j3)),
                objs,
                light,
                next,
            )
            &&& ic == color_scale_s(
                color_scale_s(
                    color_add_s(color_add_s(color_add_s(color_black_s(), c1), c2), c3),
                    ONE_THIRD as int,
                ),
                hit.material.albedo.reflection as int,
            )
        }
}

/// Everything `cast_ray` promises: the one-ray guarantees of
/// `shade_base_s`, and, on every hit, the additive decomposition of the
/// result into the diffuse-plus-specular sum and the three bounce terms,
/// each bounce term tied to rays shaded one level deeper.
pub open spec fn shade_post(
    c: Color,
    o: Vec3,
    d: Vec3,
    objs: Seq<Object>,
    light: Light,
    depth: int,
) -> bool {
    &&& shade_base_s(c, o, d, objs, light, depth)
    &&& ({
        let hit = nearest_hit_s(objs, o, d);
        let shadow = cast_shadow_s(hit, light, objs);
        let local = color_add_s(
            diffuse_term_s(hit, light, shadow),
            specular_term_s(hit, light, shadow, o),
        );
        (depth <= MAX_DEPTH as int && hit.is_intersecting) ==> exists|
            rc: Color,
            fc: Color,
            ic: Color,
        |
            {
                &&& #[trigger] reflection_post(rc, d, hit, objs, light, depth + 1)
                &&& #[trigger] refraction_post(fc, d, hit, objs, light, depth + 1)
                &&& #[trigger] indirect_post(ic, d, hit, objs, light, depth + 1)
                &&& c == color_add_s(color_add_s(color_add_s(local, rc), fc), ic)
            }
    })
}

/// Mirror-reflection contribution; black whenever the material's
/// reflection weight is not positive (the term is skipped).
pub fn reflection_term(
    ray_direction: &Vec3,
    it: &Intersect,
    objects: &Vec<Object>,
    light: &Light,
    depth: u32,
) -> (c: Color)
    requires
        objects_wf(objects@),
        depth <= MAX_DEPTH,
    ensures
        color_wf(c),
        it.material.albedo.reflection <= 0 ==> c == color_black_s(),
        reflection_post(c, *ray_direction, *it, objects@, *light, depth as int + 1),
    decreases MAX_DEPTH + 1 - depth, 1int,
{
    if it.material.albedo.reflection <= 0 {
        return Color::black();
    }
    let reflected_dir = reflect(ray_direction, &it.normal);
    let reflection_origin = v3_add(it.point, v3_scale(it.normal, SHADOW_BIAS));
    let col = cast_ray(&reflection_origin, &reflected_dir, objects, light, depth + 1);
    let c = col.scale(it.material.albedo.reflection);
    proof {
        assert(shade_base_s(
            col,
            reflect_bounce_origin_s(*it),
            reflect_s(*ray_direction, it.normal),
            objects@,
            *light,
            depth as int + 1,
        ) && c == color_scale_s(col, it.material.albedo.reflection as int));
        assert(reflection_post(c, *ray_direction, *it, objects@, *light, depth as int + 1));
    }
    c
}

/// Refraction contribution; black whenever the material's refraction
/// weight is not positive (the term is skipped) and under total internal
/// reflection (no mirror fallback).
pub fn refraction_term(
    ray_direction: &Vec3,
    it: &Intersect,
    objects: &Vec<Object>,
    light: &Light,
    depth: u32,
) -> (c: Color)
    requires
        objects_wf(objects@),
        depth <= MAX_DEPTH,
    ensures
        color_wf(c),
        it.material.albedo.refraction <= 0 ==> c == color_black_s(),
        refraction_post(c, *ray_direction, *it, objects@, *light, depth as int + 1),
    decreases MAX_DEPTH + 1 - depth, 1int,
{
    if it.material.albedo.refraction <= 0 {
        return Color::black();
    }
    let eta = if v3_dot(*ray_direction, it.normal) < 0 {
        fx_div(FX_ONE, it.material.albedo.refraction)
    } else {
        it.material.albedo.refraction
    };
    proof {
        assert(eta as int == refraction_eta_s(*it, *ray_direction));
    }
    match refract(ray_direction, &it.normal, eta) {
        Some(refracted_dir) => {
            let refraction_origin = v3_sub(it.point, v3_scale(it.normal, SHADOW_BIAS));
            let col = cast_ray(&refraction_origin, &refracted_dir, objects, light, depth + 1);
            let c = col.scale(it.material.albedo.refraction);
            proof {
                assert(shade_base_s(
                    col,
                    refract_bounce_origin_s(*it),
                    refracted_dir,
                    objects@,
                    *light,
                    depth as int + 1,
                ) && c == color_scale_s(col, it.material.albedo.refraction as int));
                assert(refraction_post(c, *ray_direction, *it, objects@, *light, depth as int + 1));
            }
            c
        },
        None => Color::black(),
    }
}

/// Indirect-reflection contribution: three rays jittered around the mirror
/// direction, averaged; black whenever the reflection weight is not
/// positive. Computed in addition to the mirror term, as this tracer's
/// cheap stand-in for indirect illumination.
#[verifier::rlimit(100)]
pub fn indirect_term(
    ray_direction: &Vec3,
    it: &Intersect,
    objects: &Vec<Object>,
    light: &Light,
    depth: u32,
) -> (c: Color)
    requires
        objects_wf(objects@),
        depth <= MAX_DEPTH,
    ensures
        color_wf(c),
        it.material.albedo.reflection <= 0 ==> c == color_black_s(),
        indirect_post(c, *ray_direction, *it, objects@, *light, depth as int + 1),
    decreases MAX_DEPTH + 1 - depth, 1int,
{
    if it.material.albedo.reflection <= 0 {
        return Color::black();
    }
    let reflected_dir = reflect(ray_direction, &it.normal);
    let reflection_origin = v3_add(it.point, v3_scale(it.normal, SHADOW_BIAS));
    let s1 = indirect_sample(reflected_dir, reflection_origin, objects, light, depth);
    let s2 = indirect_sample(reflected_dir, reflection_origin, objects, light, depth);
    let s3 = indirect_sample(reflected_dir, reflection_origin, objects, light, depth);
    let acc = Color::black().add(s1).add(s2).add(s3);
    let c = acc.scale(ONE_THIRD).scale(it.material.albedo.reflection);
    proof {
        let j1 = choose|j: Vec3|
            jitter_in_spread_s(j) && shade_base_s(
                s1,
                reflection_origin,
                v3_normalize_s(v3_add_s(reflected_dir, j)),
                objects@,
                *light,
                depth as int + 1,
            );
        let j2 = choose|j: Vec3|
            jitter_in_spread_s(j) && shade_base_s(
                s2,
                reflection_origin,
                v3_normalize_s(v3_add_s(reflected_dir, j)),
                objects@,
                *light,
                depth as int + 1,
            );
        let j3 = choose|j: Vec3|
            jitter_in_spread_s(j) && shade_base_s(
                s3,
                reflection_origin,
                v3_normalize_s(v3_add_s(reflected_dir, j)),
                objects@,
                *light,
                depth as int + 1,
            );
        assert({
            &&& jitter_in_spread_s(j1)
            &&& jitter_in_spread_s(j2)
            &&& jitter_in_spread_s(j3)
            &&& shade_base_s(
                s1,
                reflect_bounce_origin_s(*it),
                v3_normalize_s(v3_add_s(reflect_s(*ray_direction, it.normal), j1)),
                objects@,
                *light,
                depth as int + 1,
            )
            &&& shade_base_s(
                s2,
                reflect_bounce_origin_s(*it),
                v3_normalize_s(v3_add_s(reflect_s(*ray_direction, it.normal), j2)),
                objects@,
                *light,
                depth as int + 1,
            )
            &&& shade_base_s(
                s3,
                reflect_bounce_origin_s(*it),
                v3_normalize_s(v3_add_s(reflect_s(*ray_direction, it.normal), j3)),
                objects@,
                *light,
                depth as int + 1,
            )
            &&& c == color_scale_s(
                color_scale_s(
                    color_add_s(color_add_s(color_add_s(color_black_s(), s1), s2), s3),
                    ONE_THIRD as int,
                ),
                it.material.albedo.reflection as int,
            )
        });
        assert(indirect_post(c, *ray_direction, *it, objects@, *light, depth as int + 1));
    }
    c
}

/// One indirect sample: the mirror direction jittered within the spread on
/// each axis, renormalized, and shaded one level deeper.
fn indirect_sample(
    reflected_dir: Vec3,
    origin: Vec3,
    objects: &Vec<Object>,
    light: &Light,
    depth: u32,
) -> (c: Color)
    requires
        objects_wf(objects@),
        depth <= MAX_DEPTH,
    ensures
        color_wf(c),
        exists|j: Vec3|
            jitter_in_spread_s(j) && #[trigger] shade_base_s(
                c,
                origin,
                v3_normalize_s(v3_add_s(reflected_dir, j)),
                objects@,
                *light,
                depth as int + 1,
            ),
    decreases MAX_DEPTH + 1 - depth, 0int,
{
    let jitter = Vec3 {
        x: sample_jitter(-JITTER_SPREAD, JITTER_SPREAD),
        y: sample_jitter(-JITTER_SPREAD, JITTER_SPREAD),
        z: sample_jitter(-JITTER_SPREAD, JITTER_SPREAD),
    };
    let jittered_dir = v3_normalize(v3_add(reflected_dir, jitter));
    let c = cast_ray(&origin, &jittered_dir, objects, light, depth + 1);
    proof {
        assert(jitter_in_spread_s(jitter) && shade_base_s(
            c,
            origin,
            v3_normalize_s(v3_add_s(reflected_dir, jitter)),
            objects@,
            *light,
            depth as int + 1,
        ));
    }
    c
}

/// Shade one ray against the scene.
///
/// Beyond the depth cap, and for rays that hit nothing, the sky color comes
/// back. On a hit, the result adds the diffuse, specular, reflection,
/// refraction and indirect terms; for a material with neither reflection
/// nor refraction weight the result is exactly the diffuse and specular
/// sum, every other term contributing nothing.
#[verifier::rlimit(100)]
pub fn cast_ray(
    ray_origin: &Vec3,
    ray_direction: &Vec3,
    objects: &Vec<Object>,
    light: &Light,
    depth: u32,
) -> (c: Color)
    requires
        objects_wf(objects@),
    ensures
        color_wf(c),
        depth > MAX_DEPTH ==> c == sky_color_s(),
        depth <= MAX_DEPTH && !nearest_hit_s(objects@, *ray_origin, *ray_direction).is_intersecting
            ==> c == sky_color_s(),
        ({
            let hit = nearest_hit_s(objects@, *ray_origin, *ray_direction);
            let shadow = cast_shadow_s(hit, *light, objects@);
            depth <= MAX_DEPTH && hit.is_intersecting && hit.material.albedo.reflection <= 0
                && hit.material.albedo.refraction <= 0 ==> c == color_add_s(
                diffuse_term_s(hit, *light, shadow),
                specular_term_s(hit, *light, shadow, *ray_origin),
            )
        }),
        shade_post(c, *ray_origin, *ray_direction, objects@, *light, depth as int),
    decreases MAX_DEPTH + 1 - depth, 2int,
{
    if depth > MAX_DEPTH {
        return Color::new(4, 12, 36);
    }
    let mut intersect = Intersect::empty();
    let mut i: usize = 0;
    while i < objects.len()
        invariant
            0 <= i <= objects.len(),
            objects_wf(objects@),
            intersect == nearest_hit_upto_s(objects@, *ray_origin, *ray_direction, i as int),
            intersect_wf(intersect),
        decreases objects.len() - i,
    {
        let h = objects[i].ray_intersect(ray_origin, ray_direction);
        if h.is_intersecting && (!intersect.is_intersecting || h.distance < intersect.distance) {
            intersect = h;
        }
        i = i + 1;
    }
    if !intersect.is_intersecting {
        return Color::new(4, 12, 36);
    }

    let light_dir = v3_normalize(v3_sub(light.position, intersect.point));
    let view_dir = v3_normalize(v3_sub(*ray_origin, intersect.point));
    let reflect_dir = reflect(&v3_neg(light_dir), &intersect.normal);

    let shadow_intensity = cast_shadow(&intersect, light, objects);
    let light_intensity = fx_mul(light.intensity, fx_sub(FX_ONE, shadow_intensity));

    let diffuse_intensity = fx_min(fx_max(v3_dot(intersect.normal, light_dir), 0), FX_ONE);
    let diffuse = intersect
        .material
        .diffuse
        .scale(intersect.material.albedo.diffuse)
        .scale(diffuse_intensity)
        .scale(light_intensity);

    let specular_intensity = fx_pow(fx_max(v3_dot(view_dir, reflect_dir), 0), intersect.material.specular);
    let specular = light
        .color
        .scale(intersect.material.albedo.specular)
        .scale(specular_intensity)
        .scale(light_intensity);

    let reflection_color = reflection_term(ray_direction, &intersect, objects, light, depth);
    let refraction_color = refraction_term(ray_direction, &intersect, objects, light, depth);
    let indirect_color = indirect_term(ray_direction, &intersect, objects, light, depth);

    let local = diffuse.add(specular);
    let out = local.add(reflection_color).add(refraction_color).add(indirect_color);
    proof {
        if intersect.material.albedo.reflection <= 0 && intersect.material.albedo.refraction <= 0 {
            crate::color::lemma_color_add_black(local);
            crate::color::lemma_color_add_black(color_add_s(local, color_black_s()));
            crate::color::lemma_color_add_black(
                color_add_s(color_add_s(local, color_black_s()), color_black_s()),
            );
        }
        assert({
            &&& reflection_post(
                reflection_color,
                *ray_direction,
                intersect,
                objects@,
                *light,
                depth as int + 1,
            )
            &&& refraction_post(
                refraction_color,
                *ray_direction,
                intersect,
                objects@,
                *light,
                depth as int + 1,
            )
            &&& indirect_post(
                indirect_color,
                *ray_direction,
                intersect,
                objects@,
                *light,
                depth as int + 1,
            )
            &&& out == color_add_s(
                color_add_s(color_add_s(local, reflection_color), refraction_color),
                indirect_color,
            )
        });
        assert(shade_post(out, *ray_origin, *ray_direction, objects@, *light, depth as int));
    }
    out
}

} // verus!
