//! The framebuffer and the per-pixel render loop.

use vstd::prelude::*;
use crate::camera::{basis_change_s, Camera};
use crate::fx::{
    fx_add, fx_add_s, fx_div, fx_div_s, fx_mul, fx_mul_s, fx_neg, fx_neg_s, fx_of, fx_of_s,
    fx_sub, fx_sub_s, FX_ONE,
};
use crate::color::{color_hex_s, Color};
use crate::light::Light;
use crate::object::{objects_wf, Object};
use crate::shader::{cast_ray, shade_post};
use crate::vec3::{v3_normalize, v3_normalize_s, v3_wf, Vec3};

verus! {

/// Fixed-point `tan(fov * 0.33)` for the fixed vertical field of view of a
/// third of a half-turn.
pub const PERSPECTIVE_SCALE: i64 = 23593;

pub struct Framebuffer {
    pub width: usize,
    pub height: usize,
    /// Row-major packed pixels, `width * height` of them.
    pub buffer: Vec<u32>,
    pub current_color: u32,
}

pub open spec fn framebuffer_wf(fb: Framebuffer) -> bool {
    &&& 1 <= fb.width <= 4096
    &&& 1 <= fb.height <= 4096
    &&& fb.buffer@.len() == fb.width * fb.height
}

impl Framebuffer {
    pub fn new(width: usize, height: usize) -> (fb: Framebuffer)
        requires
            1 <= width <= 4096,
            1 <= height <= 4096,
        ensures
            framebuffer_wf(fb),
            fb.width == width,
            fb.height == height,
            fb.current_color == 0,
            forall|i: int| 0 <= i < fb.buffer@.len() ==> fb.buffer@[i] == 0,
    {
        let mut buffer: Vec<u32> = Vec::new();
        proof {
            assert(width * height <= 0x100_0000) by (nonlinear_arith)
                requires
                    1 <= width <= 4096,
                    1 <= height <= 4096,
            ;
        }
        let n: usize = width * height;
        while buffer.len() < n
            invariant
                buffer@.len() <= n,
                forall|i: int| 0 <= i < buffer@.len() ==> buffer@[i] == 0,
            decreases n - buffer.len(),
        {
            buffer.push(0);
        }
        Framebuffer { width, height, buffer, current_color: 0 }
    }

    pub fn set_current_color(&mut self, color: u32)
        ensures
            *final(self) == (Framebuffer { current_color: color, ..*old(self) }),
    {
        self.current_color = color;
    }

    /// Paint one pixel with the current color.
    pub fn point(&mut self, x: usize, y: usize)
        requires
            framebuffer_wf(*old(self)),
            x < old(self).width,
            y < old(self).height,
        ensures
            framebuffer_wf(*final(self)),
            final(self).width == old(self).width,
            final(self).height == old(self).height,
            final(self).current_color == old(self).current_color,
            final(self).buffer@ == old(self).buffer@.update(
                y * old(self).width + x,
                old(self).current_color,
            ),
    {
        proof {
            assert(y * self.width + x < self.width * self.height && y * self.width + x
                < 0x100_0000) by (nonlinear_arith)
                requires
                    0 <= y <= self.height - 1,
                    0 <= x <= self.width - 1,
                    1 <= self.width <= 4096,
                    1 <= self.height <= 4096,
            ;
        }
        let idx: usize = y * self.width + x;
        let c = self.current_color;
        self.buffer.set(idx, c);
    }
}

/// Camera-space direction of the primary ray through a pixel: the pixel
/// mapped to the signed unit square, stretched by the aspect ratio and the
/// perspective scale, with depth minus one, normalized.
pub open spec fn pixel_dir_s(x: int, y: int, w: int, h: int) -> Vec3 {
    let sx0 = fx_sub_s(fx_div_s(fx_of_s(2 * x), fx_of_s(w)), FX_ONE as int);
    let sy0 = fx_add_s(fx_neg_s(fx_div_s(fx_of_s(2 * y), fx_of_s(h))), FX_ONE as int);
    let aspect = fx_div_s(fx_of_s(w), fx_of_s(h));
    let sx = fx_mul_s(fx_mul_s(sx0, aspect), PERSPECTIVE_SCALE as int);
    let sy = fx_mul_s(sy0, PERSPECTIVE_SCALE as int);
    v3_normalize_s(Vec3 { x: sx as i64, y: sy as i64, z: -65536i64 })
}

/// World-space direction of the primary ray through a pixel.
pub open spec fn primary_ray_dir_s(cam: Camera, x: int, y: int, w: int, h: int) -> Vec3 {
    basis_change_s(cam, pixel_dir_s(x, y, w, h))
}

/// World-space direction of the primary ray through pixel `(x, y)` of a
/// `w` by `h` frame seen by the camera.
pub fn primary_ray_dir(camera: &Camera, x: usize, y: usize, w: usize, h: usize) -> (r: Vec3)
    requires
        1 <= w <= 4096,
        1 <= h <= 4096,
        x < w,
        y < h,
    ensures
        r == primary_ray_dir_s(*camera, x as int, y as int, w as int, h as int),
        v3_wf(r),
{
    let sx0 = fx_sub(fx_div(fx_of(2 * (x as i64)), fx_of(w as i64)), FX_ONE);
    let sy0 = fx_add(fx_neg(fx_div(fx_of(2 * (y as i64)), fx_of(h as i64))), FX_ONE);
    let aspect = fx_div(fx_of(w as i64), fx_of(h as i64));
    let sx = fx_mul(fx_mul(sx0, aspect), PERSPECTIVE_SCALE);
    let sy = fx_mul(sy0, PERSPECTIVE_SCALE);
    let dir = v3_normalize(Vec3 { x: sx, y: sy, z: -65536 });
    camera.basis_change(&dir)
}

/// One pixel of the frame holds the packed form of a color that shades
/// that pixel's primary ray.
pub open spec fn pixel_shaded_s(
    buf: Seq<u32>,
    cam: Camera,
    objs: Seq<Object>,
    light: Light,
    x: int,
    y: int,
    w: int,
    h: int,
) -> bool {
    exists|c: Color|
        {
            &&& #[trigger] shade_post(c, cam.eye, primary_ray_dir_s(cam, x, y, w, h), objs, light, 0)
            &&& buf[y * w + x] == color_hex_s(c)
        }
}

/// Writing one pixel leaves every earlier pixel shaded as it was.
proof fn lemma_pixel_kept(
    buf0: Seq<u32>,
    v: u32,
    cam: Camera,
    objs: Seq<Object>,
    light: Light,
    xx: int,
    yy: int,
    x: int,
    y: int,
    w: int,
    h: int,
)
    requires
        1 <= w <= 4096,
        1 <= h <= 4096,
        buf0.len() == w * h,
        0 <= x < w,
        0 <= y < h,
        0 <= xx < w,
        0 <= yy < h,
        yy < y || (yy == y && xx < x),
        pixel_shaded_s(buf0, cam, objs, light, xx, yy, w, h),
    ensures
        pixel_shaded_s(buf0.update(y * w + x, v), cam, objs, light, xx, yy, w, h),
{
    assert(0 <= yy * w + xx < y * w + x && y * w + x < w * h) by (nonlinear_arith)
        requires
            0 <= x < w,
            0 <= y < h,
            0 <= xx < w,
            0 <= yy < h,
            yy < y || (yy == y && xx < x),
    ;
    let cw = choose|c: Color|
        {
            &&& #[trigger] shade_post(c, cam.eye, primary_ray_dir_s(cam, xx, yy, w, h), objs, light, 0)
            &&& buf0[yy * w + xx] == color_hex_s(c)
        };
    assert(shade_post(cw, cam.eye, primary_ray_dir_s(cam, xx, yy, w, h), objs, light, 0)
        && buf0.update(y * w + x, v)[yy * w + xx] == color_hex_s(cw));
}

/// Render one frame: one primary ray per pixel, shaded against the scene
/// and written to the framebuffer. The frame's dimensions do not change,
/// and every pixel ends holding the packed shade of its own primary ray.
pub fn render(framebuffer: &mut Framebuffer, objects: &Vec<Object>, camera: &Camera, light: &Light)
    requires
        framebuffer_wf(*old(framebuffer)),
        objects_wf(objects@),
    ensures
        framebuffer_wf(*final(framebuffer)),
        final(framebuffer).width == old(framebuffer).width,
        final(framebuffer).height == old(framebuffer).height,
        forall|x: int, y: int|
            0 <= x < old(framebuffer).width && 0 <= y < old(framebuffer).height
                ==> pixel_shaded_s(
                final(framebuffer).buffer@,
                *camera,
                objects@,
                *light,
                x,
                y,
                old(framebuffer).width as int,
                old(framebuffer).height as int,
            ),
{
    let width = framebuffer.width;
    let height = framebuffer.height;
    let mut y: usize = 0;
    while y < height
        invariant
            framebuffer_wf(*framebuffer),
            framebuffer.width == width,
            framebuffer.height == height,
            objects_wf(objects@),
            1 <= width <= 4096,
            1 <= height <= 4096,
            y <= height,
            forall|xx: int, yy: int|
                0 <= xx < width && 0 <= yy < y ==> pixel_shaded_s(
                    framebuffer.buffer@,
                    *camera,
                    objects@,
                    *light,
                    xx,
                    yy,
                    width as int,
                    height as int,
                ),
        decreases height - y,
    {
        let mut x: usize = 0;
        while x < width
            invariant
                framebuffer_wf(*framebuffer),
                framebuffer.width == width,
                framebuffer.height == height,
                objects_wf(objects@),
                1 <= width <= 4096,
                1 <= height <= 4096,
                y < height,
                x <= width,
                forall|xx: int, yy: int|
                    (0 <= xx < width && 0 <= yy < y) || (yy == y && 0 <= xx < x)
                        ==> pixel_shaded_s(
                        framebuffer.buffer@,
                        *camera,
                        objects@,
                        *light,
                        xx,
                        yy,
                        width as int,
                        height as int,
                    ),
            decreases width - x,
        {
            let ray_direction = primary_ray_dir(camera, x, y, width, height);
            let pixel_color = cast_ray(&camera.eye, &ray_direction, objects, light, 0);
            let hex = pixel_color.to_hex();
            framebuffer.set_current_color(hex);
            let ghost buf0 = framebuffer.buffer@;
            framebuffer.point(x, y);
            proof {
                assert forall|xx: int, yy: int|
                    (0 <= xx < width && 0 <= yy < y) || (yy == y && 0 <= xx < x) implies
                    pixel_shaded_s(
                        framebuffer.buffer@,
                        *camera,
                        objects@,
                        *light,
                        xx,
                        yy,
                        width as int,
                        height as int,
                    ) by {
                    lemma_pixel_kept(
                        buf0,
                        hex,
                        *camera,
                        objects@,
                        *light,
                        xx,
                        yy,
                        x as int,
                        y as int,
                        width as int,
                        height as int,
                    );
                }
                assert(0 <= (y as int) * (width as int) + (x as int) < (width as int) * (
                height as int)) by (nonlinear_arith)
                    requires
                        0 <= (x as int) < (width as int),
                        0 <= (y as int) < (height as int),
                        1 <= (width as int),
                        1 <= (height as int),
                ;
                assert(shade_post(
                    pixel_color,
                    camera.eye,
                    primary_ray_dir_s(*camera, x as int, y as int, width as int, height as int),
                    objects@,
                    *light,
                    0,
                ) && framebuffer.buffer@[y as int * width as int + x as int] == color_hex_s(
                    pixel_color,
                ));
                assert(pixel_shaded_s(
                    framebuffer.buffer@,
                    *camera,
                    objects@,
                    *light,
                    x as int,
                    y as int,
                    width as int,
                    height as int,
                ));
            }
            x = x + 1;
        }
        y = y + 1;
    }
}

} // verus!
