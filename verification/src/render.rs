//! The render driver: one primary ray for each pixel, row by row.

use crate::intersect::Ray;
use crate::scalar::{Scalar, FULL_INTENSITY_BITS, HALF_TURN_BITS, ONE_BITS, PI_BITS, TWO_BITS};
use crate::scene::{Camera, Scene, SceneModel};
use crate::shading::{trace, trace_spec};
use crate::vector::Vector;
use vstd::arithmetic::div_mod::lemma_fundamental_div_mod_converse;
use vstd::prelude::*;

verus! {

/// The camera's orthonormal viewing basis and the size of the image plane,
/// which lies at distance one in front of the eye.
#[derive(Clone, Copy, Debug)]
pub struct Viewport {
    pub eye: Vector,
    pub right: Vector,
    pub up: Vector,
    pub half_width: Scalar,
    pub half_height: Scalar,
    pub pixel_width: Scalar,
    pub pixel_height: Scalar,
}

/// The viewport of a camera for an image of `width` by `height` pixels.
///
/// `eye` points from the camera to its target, `right = eye × world-up` and
/// `up = right × eye`, each normalised.  Half the plane's width is the
/// tangent of half the field of view, `tan(π·(fov/2)/180)`; its height
/// follows from the image's aspect, and the first and last pixel of a row
/// or column sit on the plane's edges.
pub open spec fn viewport_spec(camera: Camera, width: Scalar, height: Scalar) -> Viewport {
    let one = Scalar { bits: ONE_BITS };
    let two = Scalar { bits: TWO_BITS };
    let eye = camera.vector.subtract_spec(camera.point).unit_spec();
    let right = eye.cross_spec(Vector::up_spec()).unit_spec();
    let up = right.cross_spec(eye).unit_spec();
    let fov_radians = Scalar { bits: PI_BITS }.mul_spec(camera.fov.div_spec(two)).div_spec(
        Scalar { bits: HALF_TURN_BITS },
    );
    let half_width = fov_radians.tan_spec();
    let half_height = height.div_spec(width).mul_spec(half_width);
    Viewport {
        eye,
        right,
        up,
        half_width,
        half_height,
        pixel_width: half_width.mul_spec(two).div_spec(width.sub_spec(one)),
        pixel_height: half_height.mul_spec(two).div_spec(height.sub_spec(one)),
    }
}

/// The ray from the eye through pixel `(x, y)`.
pub open spec fn primary_ray_spec(camera: Camera, viewport: Viewport, x: u32, y: u32) -> Ray {
    let x_comp = viewport.right.scale_spec(
        Scalar::from_u32_spec(x).mul_spec(viewport.pixel_width).sub_spec(viewport.half_width),
    );
    let y_comp = viewport.up.scale_spec(
        Scalar::from_u32_spec(y).mul_spec(viewport.pixel_height).sub_spec(viewport.half_height),
    );
    Ray { point: camera.point, vector: viewport.eye.add3_spec(x_comp, y_comp).unit_spec() }
}

/// The colour of pixel `(x, y)`.
pub open spec fn pixel_spec(scene: SceneModel, viewport: Viewport, x: u32, y: u32) -> Vector {
    trace_spec(primary_ray_spec(scene.camera, viewport, x, y), scene, 0)->0
}

/// One of the four numbers that a pixel puts into the buffer: red, green,
/// blue and an alpha of `255`.
pub open spec fn channel_spec(color: Vector, c: int) -> Scalar {
    if c == 0 {
        color.x
    } else if c == 1 {
        color.y
    } else if c == 2 {
        color.z
    } else {
        Scalar { bits: FULL_INTENSITY_BITS }
    }
}

/// Whether the four places of a buffer from `start` on hold a pixel of the
/// given colour: red, green, blue, then `255`.
pub open spec fn holds_pixel(buffer: Seq<Scalar>, start: int, color: Vector) -> bool {
    &&& 0 <= start
    &&& start + 3 < buffer.len()
    &&& buffer[start] == color.x
    &&& buffer[start + 1] == color.y
    &&& buffer[start + 2] == color.z
    &&& buffer[start + 3].bits == FULL_INTENSITY_BITS
}

/// Number of pixel columns: the integer part of the width.
pub open spec fn columns(width: Scalar) -> int {
    width.to_u32_spec() as int
}

/// Number of pixel rows: the integer part of the height.
pub open spec fn rows(height: Scalar) -> int {
    height.to_u32_spec() as int
}

/// The rendered buffer: four numbers for each pixel, rows from `y = 0` and
/// within a row from `x = 0`, so that pixel number `y·columns + x` starts at
/// four times that index.
pub open spec fn render_spec(scene: SceneModel, width: Scalar, height: Scalar) -> Seq<Scalar> {
    let viewport = viewport_spec(scene.camera, width, height);
    Seq::new(
        (4 * (rows(height) * columns(width))) as nat,
        |i: int|
            channel_spec(
                pixel_spec(
                    scene,
                    viewport,
                    ((i / 4) % columns(width)) as u32,
                    ((i / 4) / columns(width)) as u32,
                ),
                i % 4,
            ),
    )
}

/// Where channel `c` of pixel `(x, y)` lies in a buffer of `cols` columns,
/// and how to get back from that place to the pixel.
proof fn lemma_pixel_position(cols: int, x: int, y: int, c: int)
    requires
        0 <= x < cols,
        0 <= y,
        0 <= c < 4,
    ensures
        (4 * (y * cols + x) + c) / 4 == y * cols + x,
        (4 * (y * cols + x) + c) % 4 == c,
        (y * cols + x) % cols == x,
        (y * cols + x) / cols == y,
        0 <= y * cols + x,
{
    assert(0 <= y * cols) by (nonlinear_arith)
        requires
            0 <= y,
            0 < cols,
    ;
    lemma_fundamental_div_mod_converse(4 * (y * cols + x) + c, 4, y * cols + x, c);
    lemma_fundamental_div_mod_converse(y * cols + x, cols, y, x);
}

/// The pixels of an image number from `0` below `rows · cols`.
proof fn lemma_pixel_in_range(cols: int, row_count: int, x: int, y: int)
    requires
        0 <= x < cols,
        0 <= y < row_count,
    ensures
        0 <= y * cols + x < row_count * cols,
{
    assert(y * cols + cols <= row_count * cols && 0 <= y * cols) by (nonlinear_arith)
        requires
            0 <= y < row_count,
            0 < cols,
    ;
}

/// The buffer holds four numbers for each pixel and every fourth is the
/// alpha value `255`.
pub proof fn lemma_buffer_shape(scene: SceneModel, width: Scalar, height: Scalar)
    ensures
        render_spec(scene, width, height).len() == 4 * (rows(height) * columns(width)),
        forall|i: int|
            0 <= i < render_spec(scene, width, height).len() && i % 4 == 3 ==> (
            #[trigger] render_spec(scene, width, height)[i]).bits == FULL_INTENSITY_BITS,
{
    assert(0 <= rows(height) * columns(width)) by (nonlinear_arith)
        requires
            0 <= rows(height),
            0 <= columns(width),
    ;
}

/// Pixel `(x, y)` fills the four places from `4·(y·columns + x)` on with its
/// red, green and blue and with `255`.
pub proof fn lemma_pixel_layout(scene: SceneModel, width: Scalar, height: Scalar, x: u32, y: u32)
    requires
        x < columns(width),
        y < rows(height),
    ensures
        holds_pixel(
            render_spec(scene, width, height),
            4 * (y * columns(width) + x),
            pixel_spec(scene, viewport_spec(scene.camera, width, height), x, y),
        ),
{
    let cols = columns(width);
    lemma_pixel_in_range(cols, rows(height), x as int, y as int);
    lemma_pixel_position(cols, x as int, y as int, 0);
    lemma_pixel_position(cols, x as int, y as int, 1);
    lemma_pixel_position(cols, x as int, y as int, 2);
    lemma_pixel_position(cols, x as int, y as int, 3);
}

/// Rendering has no hidden state: the buffer is a function of what the scene
/// holds and of the two dimensions.
pub proof fn lemma_render_is_deterministic(
    first: SceneModel,
    second: SceneModel,
    width: Scalar,
    height: Scalar,
)
    requires
        first.camera == second.camera,
        first.objects =~= second.objects,
        first.lights =~= second.lights,
        first.checker =~= second.checker,
    ensures
        render_spec(first, width, height) == render_spec(second, width, height),
{
}

/// Lays out the image plane for a camera and an image size.
pub fn viewport(camera: &Camera, width: Scalar, height: Scalar) -> (r: Viewport)
    ensures
        r == viewport_spec(*camera, width, height),
{
    let one = Scalar { bits: ONE_BITS };
    let two = Scalar { bits: TWO_BITS };
    let eye_vector = camera.vector.subtract(&camera.point).unit();
    let vp_right = eye_vector.cross_product(&Vector::up()).unit();
    let vp_up = vp_right.cross_product(&eye_vector).unit();

    let fov_radians = Scalar { bits: PI_BITS }.mul(camera.fov.div(two)).div(
        Scalar { bits: HALF_TURN_BITS },
    );
    let height_width_ratio = height.div(width);
    let half_width = fov_radians.tan();
    let half_height = height_width_ratio.mul(half_width);
    let camera_width = half_width.mul(two);
    let camera_height = half_height.mul(two);
    let pixel_width = camera_width.div(width.sub(one));
    let pixel_height = camera_height.div(height.sub(one));
    Viewport {
        eye: eye_vector,
        right: vp_right,
        up: vp_up,
        half_width,
        half_height,
        pixel_width,
        pixel_height,
    }
}

/// The ray from the eye through pixel `(x, y)`.
pub fn primary_ray(camera: &Camera, viewport: &Viewport, x: u32, y: u32) -> (r: Ray)
    ensures
        r == primary_ray_spec(*camera, *viewport, x, y),
{
    let x_comp = viewport.right.scale(
        Scalar::from_u32(x).mul(viewport.pixel_width).sub(viewport.half_width),
    );
    let y_comp = viewport.up.scale(
        Scalar::from_u32(y).mul(viewport.pixel_height).sub(viewport.half_height),
    );
    Ray { point: camera.point, vector: viewport.eye.add3(&x_comp, &y_comp).unit() }
}

/// Renders the scene into a flat buffer of `[red, green, blue, 255]` groups
/// in row-major pixel order.  Colours are not clamped.
///
/// The image has as many columns and rows as the integer parts of `width`
/// and `height` say.  Both should be at least `2`: with a single column or
/// row the pixel size is a division by zero, and the rays, not being
/// numbers, hit nothing.
pub fn render(scene: Scene, width: Scalar, height: Scalar) -> (pixels: Vec<Scalar>)
    requires
        scene@.wf(),
    ensures
        pixels@ == render_spec(scene@, width, height),
        pixels@.len() == 4 * (rows(height) * columns(width)),
        forall|i: int|
            0 <= i < pixels@.len() && i % 4 == 3 ==> (#[trigger] pixels@[i]).bits
                == FULL_INTENSITY_BITS,
        forall|x: u32, y: u32|
            x < columns(width) && y < rows(height) ==> holds_pixel(
                pixels@,
                4 * (y * columns(width) + x),
                #[trigger] pixel_spec(
                    scene@,
                    viewport_spec(scene@.camera, width, height),
                    x,
                    y,
                ),
            ),
{
    let mut result: Vec<Scalar> = Vec::new();
    let view = viewport(&scene.camera, width, height);
    let row_count: u32 = height.to_u32();
    let cols: u32 = width.to_u32();
    let ghost expected = render_spec(scene@, width, height);

    let mut y: u32 = 0;
    while y < row_count
        invariant
            y <= row_count,
            scene@.wf(),
            row_count == rows(height),
            cols == columns(width),
            view == viewport_spec(scene@.camera, width, height),
            expected == render_spec(scene@, width, height),
            result@.len() == 4 * (y * cols),
            result@ == expected.take(4 * (y * cols)),
        decreases row_count - y,
    {
        let mut x: u32 = 0;
        proof {
            assert(y * cols + 0 == y * cols);
        }
        while x < cols
            invariant
                x <= cols,
                y < row_count,
                scene@.wf(),
                row_count == rows(height),
                cols == columns(width),
                view == viewport_spec(scene@.camera, width, height),
                expected == render_spec(scene@, width, height),
                result@.len() == 4 * (y * cols + x),
                result@ == expected.take(4 * (y * cols + x)),
            decreases cols - x,
        {
            let ray = primary_ray(&scene.camera, &view, x, y);
            let color = trace(&ray, &scene, 0).unwrap();
            proof {
                lemma_pixel_layout(scene@, width, height, x, y);
                assert(color == pixel_spec(scene@, view, x, y));
            }
            let ghost before = result@;
            result.push(color.x);
            result.push(color.y);
            result.push(color.z);
            result.push(Scalar { bits: FULL_INTENSITY_BITS });
            proof {
                let start = 4 * (y * cols + x);
                assert(4 * (y * cols + (x + 1)) == start + 4);
                assert(result@ =~= expected.take(start + 4));
            }
            x += 1;
        }
        proof {
            assert((y + 1) * cols == y * cols + cols) by (nonlinear_arith);
        }
        y += 1;
    }
    proof {
        assert(result@ =~= expected);
        lemma_buffer_shape(scene@, width, height);
        assert forall|x: u32, y: u32| x < columns(width) && y < rows(height) implies holds_pixel(
            result@,
            4 * (y * columns(width) + x),
            #[trigger] pixel_spec(scene@, viewport_spec(scene@.camera, width, height), x, y),
        ) by {
            lemma_pixel_layout(scene@, width, height, x, y);
        }
    }
    result
}

} // verus!
