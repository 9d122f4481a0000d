//! The background layer of the exported image: a black canvas with the
//! optional coordinate grid and axes, handed out as raw RGB bytes.

use vstd::prelude::*;

verus! {

/// An RGB image of the `image` crate (`RgbImage`), held privately.
#[verifier::external_body]
pub struct Canvas {
    img: image::RgbImage,
}

/// The pixels of a canvas, by `(x, y)`.
pub uninterp spec fn canvas_pixels(c: Canvas) -> Map<(u32, u32), (u8, u8, u8)>;

/// The width and height a canvas was made with.
pub uninterp spec fn canvas_size(c: Canvas) -> (u32, u32);

/// The pixels of a `w` by `h` image filled with one colour.
pub open spec fn filled(w: u32, h: u32, color: (u8, u8, u8)) -> Map<(u32, u32), (u8, u8, u8)> {
    Map::new(|p: (u32, u32)| p.0 < w && p.1 < h, |p: (u32, u32)| color)
}

/// The colour stored at pixel `(x, y)` of raw RGB bytes of an image of
/// width `w` (three bytes per pixel, rows top to bottom).
pub open spec fn rgb_at(bytes: Seq<u8>, w: u32, x: u32, y: u32) -> (u8, u8, u8) {
    let i = (y * w + x) * 3;
    (bytes[i], bytes[i + 1], bytes[i + 2])
}

impl Canvas {
    /// `ImageBuffer::from_pixel`: a `w` by `h` image with every pixel set to
    /// `color`. The source panics when the buffer length (three bytes per
    /// pixel) overflows `usize`.
    #[verifier::external_body]
    pub(crate) fn filled(w: u32, h: u32, color: (u8, u8, u8)) -> (c: Canvas)
        requires
            3 * w * h <= usize::MAX,
        ensures
            canvas_size(c) == (w, h),
            canvas_pixels(c) == filled(w, h, color),
    {
        Canvas { img: image::ImageBuffer::from_pixel(w, h, image::Rgb([color.0, color.1, color.2])) }
    }

    /// `ImageBuffer::put_pixel`: sets pixel `(x, y)`; the source panics
    /// outside the image.
    #[verifier::external_body]
    pub(crate) fn put_pixel(&mut self, x: u32, y: u32, color: (u8, u8, u8))
        requires
            x < canvas_size(*old(self)).0,
            y < canvas_size(*old(self)).1,
        ensures
            canvas_size(*final(self)) == canvas_size(*old(self)),
            canvas_pixels(*final(self)) == canvas_pixels(*old(self)).insert((x, y), color),
    {
        self.img.put_pixel(x, y, image::Rgb([color.0, color.1, color.2]))
    }

    /// `ImageBuffer::into_raw`: the pixel bytes, three per pixel in row-major
    /// order, as `from_pixel` laid them out (`(y * w + x) * 3`).
    #[verifier::external_body]
    pub(crate) fn into_raw(self) -> (bytes: Vec<u8>)
        ensures
            bytes@.len() == 3 * canvas_size(self).0 * canvas_size(self).1,
            forall|x: u32, y: u32|
                x < canvas_size(self).0 && y < canvas_size(self).1 ==> #[trigger] rgb_at(
                    bytes@,
                    canvas_size(self).0,
                    x,
                    y,
                ) == canvas_pixels(self)[(x, y)],
    {
        self.img.into_raw()
    }
}

/// Colour of the empty sky.
pub open spec fn black() -> (u8, u8, u8) {
    (0, 0, 0)
}

/// Colour of the coordinate grid lines.
pub open spec fn grid_color() -> (u8, u8, u8) {
    (40, 40, 40)
}

/// Colour of the axes.
pub open spec fn axis_color() -> (u8, u8, u8) {
    (0, 180, 0)
}

/// Pixel size of the image for a `grid_w` by `grid_h` star grid drawn with
/// `scale` pixels per cell.
pub open spec fn spec_image_size(grid_w: usize, grid_h: usize, scale: u32) -> (int, int) {
    ((grid_w as u32) * scale, (grid_h as u32) * scale)
}

/// Pixel size of the image: each grid side (taken as a `u32`) times `scale`.
pub fn image_size(grid_w: usize, grid_h: usize, scale: u32) -> (r: (u32, u32))
    requires
        spec_image_size(grid_w, grid_h, scale).0 <= u32::MAX,
        spec_image_size(grid_w, grid_h, scale).1 <= u32::MAX,
    ensures
        r.0 == spec_image_size(grid_w, grid_h, scale).0,
        r.1 == spec_image_size(grid_w, grid_h, scale).1,
{
    ((grid_w as u32) * scale, (grid_h as u32) * scale)
}

/// Pixel of the world origin along one axis: the middle of the cell of
/// coordinate 0 when that cell index (`-min`) is not negative, else the
/// middle of the image.
pub open spec fn spec_center_pixel(min: i32, scale: u32, extent: u32) -> int {
    if -min >= 0 {
        (-min) * scale + scale / 2
    } else {
        (extent / 2) as int
    }
}

/// Pixel of the world origin along one axis.
pub fn center_pixel(min: i32, scale: u32, extent: u32) -> (r: u32)
    requires
        min > i32::MIN,
        spec_center_pixel(min, scale, extent) <= u32::MAX,
    ensures
        r == spec_center_pixel(min, scale, extent),
{
    let cell = 0i32 - min;
    if cell >= 0 {
        proof {
            assert((cell as u32) * scale <= (cell as u32) * scale + scale / 2);
        }
        (cell as u32) * scale + scale / 2
    } else {
        extent / 2
    }
}

/// Step between grid lines, in cells, as the image code derives it from the
/// configured step: through `i32` and back to `usize`.
pub open spec fn spec_grid_stride(grid_step: usize) -> usize {
    ((grid_step as i32) as usize)
}

/// Every grid line at `min + k * stride` inside `min..=max` has a cell
/// offset that fits `i32` and a pixel offset that fits `u32`.
pub open spec fn lines_fit(min: i32, max: i32, stride: usize, scale: u32) -> bool {
    forall|k: int|
        0 <= k && #[trigger] (k * stride) <= max - min ==> k * stride <= i32::MAX && k * stride
            * scale <= u32::MAX
}

/// The pixel offsets `0, stride * scale, 2 * stride * scale, ...` of the grid
/// lines at `min, min + stride, ...` up to `max`, one per line.
pub open spec fn is_line_offsets(offs: Seq<u32>, min: i32, max: i32, stride: usize, scale: u32) -> bool {
    &&& forall|i: int| 0 <= i < offs.len() ==> #[trigger] offs[i] == (i * stride) * scale
    &&& if min <= max {
        &&& offs.len() >= 1
        &&& (offs.len() - 1) * stride <= max - min < offs.len() * stride
    } else {
        offs.len() == 0
    }
}

/// Pixel offsets of the grid lines through cells `min, min + stride, ...`
/// up to `max` (an inclusive range stepped by `stride`).
pub fn grid_line_offsets(min: i32, max: i32, stride: usize, scale: u32) -> (offs: Vec<u32>)
    requires
        stride > 0,
        lines_fit(min, max, stride, scale),
    ensures
        is_line_offsets(offs@, min, max, stride, scale),
{
    let mut offs: Vec<u32> = Vec::new();
    if min > max {
        return offs;
    }
    let span: i64 = max as i64 - min as i64;
    let mut ix: i64 = 0;
    let ghost mut k: int = 0;
    loop
        invariant
            stride > 0,
            lines_fit(min, max, stride, scale),
            span == max - min,
            0 <= ix <= span,
            ix == k * stride,
            offs@.len() == k,
            forall|i: int| 0 <= i < offs@.len() ==> #[trigger] offs@[i] == (i * stride) * scale,
        ensures
            is_line_offsets(offs@, min, max, stride, scale),
        decreases span - ix,
    {
        assert(ix <= i32::MAX && ix * scale <= u32::MAX);
        let px: u32 = (ix as u32) * scale;
        offs.push(px);
        if (stride as u64) > (span - ix) as u64 {
            assert((k + 1) * stride == k * stride + stride) by (nonlinear_arith);
            return offs;
        }
        proof {
            assert((k + 1) * stride == k * stride + stride) by (nonlinear_arith);
            k = k + 1;
        }
        ix = ix + stride as i64;
    }
}

/// Grid column `o`, clamped to the last column of an image `extent` wide.
pub open spec fn clamp_to(o: u32, extent: u32) -> u32 {
    if o < extent - 1 { o } else { (extent - 1) as u32 }
}

/// One of the first `n` grid lines, clamped to the image, passes at `v`.
pub open spec fn on_line(v: u32, offs: Seq<u32>, n: int, extent: u32) -> bool
    decreases n,
{
    if n <= 0 {
        false
    } else {
        on_line(v, offs, n - 1, extent) || clamp_to(offs[n - 1], extent) == v
    }
}

/// Pixel `(x, y)` lies on an axis through `(cpx, cpy)`: the axis is two
/// pixels wide (the centre and, when there is one, the pixel before it) and
/// is drawn only when the centre lies inside the image.
pub open spec fn on_axis(x: u32, y: u32, w: u32, h: u32, cpx: u32, cpy: u32) -> bool {
    ||| cpx < w && (x == cpx || (cpx > 0 && x == cpx - 1))
    ||| cpy < h && (y == cpy || (cpy > 0 && y == cpy - 1))
}

/// Colour of background pixel `(x, y)`: axes over grid lines over black.
pub open spec fn background_color(
    x: u32,
    y: u32,
    w: u32,
    h: u32,
    offs: Seq<u32>,
    cpx: u32,
    cpy: u32,
    draw_grid: bool,
    show_axes: bool,
) -> (u8, u8, u8) {
    if draw_grid && show_axes && on_axis(x, y, w, h, cpx, cpy) {
        axis_color()
    } else if draw_grid && (on_line(x, offs, offs.len() as int, w) || on_line(
        y,
        offs,
        offs.len() as int,
        h,
    )) {
        grid_color()
    } else {
        black()
    }
}

/// Draws the vertical lines (at the offsets, clamped to the last column)
/// and then the horizontal ones over a black canvas.
fn draw_grid_lines(c: &mut Canvas, w: u32, h: u32, offs: &Vec<u32>)
    requires
        canvas_size(*old(c)) == (w, h),
        canvas_pixels(*old(c)) == filled(w, h, black()),
        offs@.len() > 0 ==> (w == 0) == (h == 0),
    ensures
        canvas_size(*final(c)) == (w, h),
        canvas_pixels(*final(c)).dom() == filled(w, h, black()).dom(),
        forall|x: u32, y: u32|
            x < w && y < h ==> #[trigger] canvas_pixels(*final(c))[(x, y)] == (if on_line(
                x,
                offs@,
                offs@.len() as int,
                w,
            ) || on_line(y, offs@, offs@.len() as int, h) {
                grid_color()
            } else {
                black()
            }),
{
    let n = offs.len();
    let mut i: usize = 0;
    while i < n
        invariant
            n == offs@.len(),
            i <= n,
            n > 0 ==> (w == 0) == (h == 0),
            canvas_size(*c) == (w, h),
            canvas_pixels(*c).dom() == filled(w, h, black()).dom(),
            forall|x: u32, y: u32|
                x < w && y < h ==> #[trigger] canvas_pixels(*c)[(x, y)] == (if on_line(
                    x,
                    offs@,
                    i as int,
                    w,
                ) {
                    grid_color()
                } else {
                    black()
                }),
        decreases n - i,
    {
        let px = offs[i];
        let mut yy: u32 = 0;
        while yy < h
            invariant
                n == offs@.len(),
                i < n,
                px == offs@[i as int],
                h > 0 ==> w > 0,
                canvas_size(*c) == (w, h),
                canvas_pixels(*c).dom() == filled(w, h, black()).dom(),
                forall|x: u32, y: u32|
                    x < w && y < h ==> #[trigger] canvas_pixels(*c)[(x, y)] == (if on_line(
                        x,
                        offs@,
                        i as int,
                        w,
                    ) || (x == clamp_to(px, w) && y < yy) {
                        grid_color()
                    } else {
                        black()
                    }),
            decreases h - yy,
        {
            let col = if px < w - 1 { px } else { w - 1 };
            c.put_pixel(col, yy, (40, 40, 40));
            yy += 1;
        }
        i += 1;
    }
    let mut j: usize = 0;
    while j < n
        invariant
            n == offs@.len(),
            j <= n,
            n > 0 ==> (w == 0) == (h == 0),
            canvas_size(*c) == (w, h),
            canvas_pixels(*c).dom() == filled(w, h, black()).dom(),
            forall|x: u32, y: u32|
                x < w && y < h ==> #[trigger] canvas_pixels(*c)[(x, y)] == (if on_line(
                    x,
                    offs@,
                    n as int,
                    w,
                ) || on_line(y, offs@, j as int, h) {
                    grid_color()
                } else {
                    black()
                }),
        decreases n - j,
    {
        let py = offs[j];
        let mut xx: u32 = 0;
        while xx < w
            invariant
                n == offs@.len(),
                j < n,
                py == offs@[j as int],
                w > 0 ==> h > 0,
                canvas_size(*c) == (w, h),
                canvas_pixels(*c).dom() == filled(w, h, black()).dom(),
                forall|x: u32, y: u32|
                    x < w && y < h ==> #[trigger] canvas_pixels(*c)[(x, y)] == (if on_line(
                        x,
                        offs@,
                        n as int,
                        w,
                    ) || on_line(y, offs@, j as int, h) || (y == clamp_to(py, h) && x < xx) {
                        grid_color()
                    } else {
                        black()
                    }),
            decreases w - xx,
        {
            let row = if py < h - 1 { py } else { h - 1 };
            c.put_pixel(xx, row, (40, 40, 40));
            xx += 1;
        }
        j += 1;
    }
}

/// Draws the axes through `(cpx, cpy)` over the grid layer.
fn draw_axes(c: &mut Canvas, w: u32, h: u32, cpx: u32, cpy: u32, offs: Ghost<Seq<u32>>)
    requires
        canvas_size(*old(c)) == (w, h),
        canvas_pixels(*old(c)).dom() == filled(w, h, black()).dom(),
        forall|x: u32, y: u32|
            x < w && y < h ==> #[trigger] canvas_pixels(*old(c))[(x, y)] == (if on_line(
                x,
                offs@,
                offs@.len() as int,
                w,
            ) || on_line(y, offs@, offs@.len() as int, h) {
                grid_color()
            } else {
                black()
            }),
    ensures
        canvas_size(*final(c)) == (w, h),
        canvas_pixels(*final(c)).dom() == filled(w, h, black()).dom(),
        forall|x: u32, y: u32|
            x < w && y < h ==> #[trigger] canvas_pixels(*final(c))[(x, y)] == background_color(
                x,
                y,
                w,
                h,
                offs@,
                cpx,
                cpy,
                true,
                true,
            ),
{
    let ghost grid = canvas_pixels(*c);
    if cpx < w {
        let mut yy: u32 = 0;
        while yy < h
            invariant
                cpx < w,
                canvas_size(*c) == (w, h),
                canvas_pixels(*c).dom() == filled(w, h, black()).dom(),
                forall|x: u32, y: u32|
                    x < w && y < h ==> #[trigger] canvas_pixels(*c)[(x, y)] == (if (x == cpx || (cpx
                        > 0 && x == cpx - 1)) && y < yy {
                        axis_color()
                    } else {
                        grid[(x, y)]
                    }),
            decreases h - yy,
        {
            c.put_pixel(cpx, yy, (0, 180, 0));
            if cpx > 0 {
                c.put_pixel(cpx - 1, yy, (0, 180, 0));
            }
            yy += 1;
        }
    }
    let ghost vert = canvas_pixels(*c);
    if cpy < h {
        let mut xx: u32 = 0;
        while xx < w
            invariant
                cpy < h,
                canvas_size(*c) == (w, h),
                canvas_pixels(*c).dom() == filled(w, h, black()).dom(),
                forall|x: u32, y: u32|
                    x < w && y < h ==> #[trigger] canvas_pixels(*c)[(x, y)] == (if (y == cpy || (cpy
                        > 0 && y == cpy - 1)) && x < xx {
                        axis_color()
                    } else {
                        vert[(x, y)]
                    }),
            decreases w - xx,
        {
            c.put_pixel(xx, cpy, (0, 180, 0));
            if cpy > 0 {
                c.put_pixel(xx, cpy - 1, (0, 180, 0));
            }
            xx += 1;
        }
    }
}

/// The image layer drawn before the black hole and the stars may be drawn.
pub open spec fn background_ok(
    grid_w: usize,
    grid_h: usize,
    min: i32,
    max: i32,
    scale: u32,
    draw_grid: bool,
    grid_step: usize,
    show_axes: bool,
) -> bool {
    let (w, h) = spec_image_size(grid_w, grid_h, scale);
    &&& w <= u32::MAX
    &&& h <= u32::MAX
    &&& 3 * w * h <= usize::MAX
    &&& min > i32::MIN
    &&& spec_center_pixel(min, scale, w as u32) <= u32::MAX
    &&& draw_grid && grid_step > 0 ==> {
        &&& spec_grid_stride(grid_step) > 0
        &&& lines_fit(min, max, spec_grid_stride(grid_step), scale)
        &&& min <= max ==> (w == 0) == (h == 0)
    }
}

/// The background of the exported image for a `grid_w` by `grid_h` star
/// grid over the region `min..=max` at `scale` pixels per cell: black, with,
/// when `draw_grid` is set, a grey line every `grid_step` cells (when that
/// step is not zero) and, when `show_axes` is also set, green axes through
/// the origin. The result holds three bytes per pixel, row-major.
pub fn background(
    grid_w: usize,
    grid_h: usize,
    min: i32,
    max: i32,
    scale: u32,
    draw_grid: bool,
    grid_step: usize,
    show_axes: bool,
) -> (bytes: Vec<u8>)
    requires
        background_ok(grid_w, grid_h, min, max, scale, draw_grid, grid_step, show_axes),
    ensures
        ({
            let (w, h) = spec_image_size(grid_w, grid_h, scale);
            let cpx = spec_center_pixel(min, scale, w as u32) as u32;
            let cpy = spec_center_pixel(min, scale, h as u32) as u32;
            &&& bytes@.len() == 3 * w * h
            &&& exists|offs: Seq<u32>|
                {
                    &&& (if draw_grid && grid_step > 0 {
                        is_line_offsets(offs, min, max, spec_grid_stride(grid_step), scale)
                    } else {
                        offs.len() == 0
                    })
                    &&& forall|x: u32, y: u32|
                        x < w && y < h ==> #[trigger] rgb_at(bytes@, w as u32, x, y)
                            == background_color(x, y, w as u32, h as u32, offs, cpx, cpy, draw_grid, show_axes)
                }
        }),
{
    let (w, h) = image_size(grid_w, grid_h, scale);
    let mut c = Canvas::filled(w, h, (0, 0, 0));
    let cpx = center_pixel(min, scale, w);
    let cpy = center_pixel(min, scale, h);
    let mut offs: Vec<u32> = Vec::new();
    if draw_grid {
        if grid_step > 0 {
            let step: i32 = #[verifier::truncate] (grid_step as i32);
            let stride: usize = #[verifier::truncate] (step as usize);
            offs = grid_line_offsets(min, max, stride, scale);
        }
        draw_grid_lines(&mut c, w, h, &offs);
        if show_axes {
            draw_axes(&mut c, w, h, cpx, cpy, Ghost(offs@));
        }
    }
    let ghost final_c = c;
    let bytes = c.into_raw();
    proof {
        assert forall|x: u32, y: u32| x < w && y < h implies #[trigger] rgb_at(bytes@, w, x, y)
            == background_color(x, y, w, h, offs@, cpx, cpy, draw_grid, show_axes) by {
            assert(rgb_at(bytes@, w, x, y) == canvas_pixels(final_c)[(x, y)]);
            if !draw_grid {
                assert(filled(w, h, black())[(x, y)] == black());
            }
        }
        assert(if draw_grid && grid_step > 0 {
            is_line_offsets(offs@, min, max, spec_grid_stride(grid_step), scale)
        } else {
            offs@.len() == 0
        });
    }
    bytes
}

} // verus!
