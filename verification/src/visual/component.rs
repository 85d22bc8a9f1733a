use crate::visual::align::{center_x, center_y, centre_offset};
use crate::visual::model::{fits, pixel_index};
use image::Pixel;
use vstd::prelude::*;

verus! {

/// A picture held as its size and its pixels, row by row, each as red, green, blue and alpha.
pub struct Picture {
    pub width: u32,
    pub height: u32,
    pub pixels: Vec<[u8; 4]>,
}

impl Picture {
    /// Whether the pixels fill the picture exactly.
    pub open spec fn wf(&self) -> bool {
        self.pixels@.len() == self.width * self.height
    }

    /// The pixel at `(x, y)`.
    pub open spec fn at(&self, x: int, y: int) -> [u8; 4] {
        self.pixels@[pixel_index(self.width as int, x, y)]
    }
}

/// What `Rgba::blend` of the image crate makes of pixel `bottom` with `top` laid over it.
pub uninterp spec fn blended(bottom: [u8; 4], top: [u8; 4]) -> [u8; 4];

/// What `imageops::overlay` of the image crate makes of picture `bottom` with picture
/// `top` laid over it with its corner at `(x, y)`.
pub uninterp spec fn overlaid(
    bottom: Seq<[u8; 4]>,
    bottom_width: u32,
    bottom_height: u32,
    top: Seq<[u8; 4]>,
    top_width: u32,
    top_height: u32,
    x: i64,
    y: i64,
) -> Seq<[u8; 4]>;

/// `Rgba::blend` of the image crate (alpha compositing of `top` over `bottom`).
/// Claimed: the result depends on the two pixels alone; a fully transparent `top` leaves
/// `bottom` as it is, and a fully opaque `top` replaces it, as the crate's source does
/// before any arithmetic. The blend of the other cases, in floating point, is left unsaid.
#[verifier::external_body]
fn blend_pixel(bottom: [u8; 4], top: [u8; 4]) -> (r: [u8; 4])
    ensures
        r == blended(bottom, top),
        top[3] == 0 ==> r == bottom,
        top[3] == 255 ==> r == top,
{
    let mut b = image::Rgba(bottom);
    b.blend(&image::Rgba(top));
    b.0
}

/// `imageops::resize` of the image crate with `FilterType::Lanczos3`, on a picture held
/// as rows of RGBA pixels. Claimed: the result holds `new_width * new_height` pixels, the
/// size the crate's `ImageBuffer` is made with. What the pixels hold is left unsaid: the
/// Lanczos kernel goes through `f32::sin`, whose precision std leaves to the platform, so
/// the result is not a function of the arguments alone.
#[verifier::external_body]
pub(crate) fn resize_exact_pixels(pixels: &Vec<[u8; 4]>, width: u32, height: u32, new_width: u32, new_height: u32) -> (r:
    Vec<[u8; 4]>)
    requires
        pixels@.len() == width * height,
    ensures
        r@.len() == new_width * new_height,
{
    let img = image::RgbaImage::from_raw(width, height, pixels.concat()).unwrap();
    let out = image::imageops::resize(&img, new_width, new_height, image::imageops::FilterType::Lanczos3);
    out.pixels().map(|p| p.0).collect()
}

/// `imageops::overlay` of the image crate, on pictures held as rows of RGBA pixels.
/// Claimed: the result depends on its arguments alone and keeps the bottom picture's size.
#[verifier::external_body]
fn overlay_pixels(bottom: &Picture, top: &Picture, x: i64, y: i64) -> (r: Vec<[u8; 4]>)
    requires
        bottom.wf(),
        top.wf(),
    ensures
        r@ == overlaid(bottom.pixels@, bottom.width, bottom.height, top.pixels@, top.width, top.height, x, y),
        r@.len() == bottom.pixels@.len(),
{
    let (bw, bh, tw, th) = (bottom.width, bottom.height, top.width, top.height);
    let mut b = image::RgbaImage::from_raw(bw, bh, bottom.pixels.concat()).unwrap();
    let t = image::RgbaImage::from_raw(tw, th, top.pixels.concat()).unwrap();
    image::imageops::overlay(&mut b, &t, x, y);
    b.pixels().map(|p| p.0).collect()
}

} // verus!

verus! {

/// `v` held between `lo` and `hi`.
pub open spec fn clamp(v: int, lo: int, hi: int) -> int {
    if v < lo {
        lo
    } else if v > hi {
        hi
    } else {
        v
    }
}

/// Where a `top_width` × `top_height` picture laid with its corner at `(x, y)` meets a
/// `width` × `height` one: the corner of the shared part in the bottom picture, the same
/// corner in the top picture, and the shared part's width and height; all zero when the
/// two do not meet.
pub open spec fn overlay_bounds(
    width: int,
    height: int,
    top_width: int,
    top_height: int,
    x: int,
    y: int,
) -> (int, int, int, int, int, int) {
    if x > width || y > height || x + top_width <= 0 || y + top_height <= 0 {
        (0, 0, 0, 0, 0, 0)
    } else {
        (
            clamp(x, 0, width),
            clamp(y, 0, height),
            clamp(-x, 0, top_width),
            clamp(-y, 0, top_height),
            clamp(x + top_width, 0, width) - clamp(x, 0, width),
            clamp(y + top_height, 0, height) - clamp(y, 0, height),
        )
    }
}

fn clamp_i64(v: i64, lo: i64, hi: i64) -> (r: i64)
    requires
        lo <= hi,
    ensures
        r == clamp(v as int, lo as int, hi as int),
{
    if v < lo {
        lo
    } else if v > hi {
        hi
    } else {
        v
    }
}

/// `a.saturating_add(b)` for a non-negative `b`.
fn add_saturating(a: i64, b: i64) -> (r: i64)
    requires
        b >= 0,
    ensures
        r == if a + b > i64::MAX {
            i64::MAX as int
        } else {
            a + b
        },
{
    if a > i64::MAX - b {
        i64::MAX
    } else {
        a + b
    }
}

/// `a.saturating_mul(-1)`.
fn negate_saturating(a: i64) -> (r: i64)
    ensures
        r == if a == i64::MIN {
            i64::MAX as int
        } else {
            -a
        },
{
    if a == i64::MIN {
        i64::MAX
    } else {
        -a
    }
}

/// Distinct pixels of a picture have distinct places in its rows.
pub proof fn lemma_index_unique(w: int, px: int, py: int, qx: int, qy: int)
    requires
        0 <= px < w,
        0 <= qx < w,
        0 <= py,
        0 <= qy,
        pixel_index(w, px, py) == pixel_index(w, qx, qy),
    ensures
        px == qx,
        py == qy,
{
    if py < qy {
        assert(py * w + w <= qy * w) by (nonlinear_arith)
            requires
                py < qy,
                0 <= w,
        ;
    } else if py > qy {
        assert(qy * w + w <= py * w) by (nonlinear_arith)
            requires
                qy < py,
                0 <= w,
        ;
    }
}

/// Each pixel of a `w` × `h` picture has its place among the `w * h`.
pub proof fn lemma_index_bound(w: int, h: int, px: int, py: int)
    requires
        0 <= px < w,
        0 <= py < h,
    ensures
        0 <= py * w <= pixel_index(w, px, py) < w * h,
{
    assert(0 <= py * w) by (nonlinear_arith)
        requires
            0 <= py,
            0 <= w,
    ;
    assert(py * w + w <= h * w) by (nonlinear_arith)
        requires
            py < h,
            0 <= w,
    ;
    assert(h * w == w * h) by (nonlinear_arith);
}

/// The pixel at `(px, py)` of `bottom` once `top` is laid over it at `(x, y)`: in the
/// shared part, a pixel of `bottom` that is not fully transparent takes the blend of
/// itself with the pixel of `top` above it; every other pixel stays.
pub open spec fn overlay_pixel(bottom: Picture, top: Picture, x: int, y: int, px: int, py: int) -> [u8; 4] {
    let b = overlay_bounds(bottom.width as int, bottom.height as int, top.width as int, top.height as int, x, y);
    let below = bottom.at(px, py);
    if b.0 <= px < b.0 + b.4 && b.1 <= py < b.1 + b.5 && below[3] != 0 {
        blended(below, top.at(b.2 + px - b.0, b.3 + py - b.1))
    } else {
        below
    }
}

/// Whether `cur` is `start` with the overlay of `top` at `(x, y)` done on the first
/// `rows` rows of the shared part and on the first `cols` pixels of the next one.
pub open spec fn overlay_progress(
    cur: Picture,
    start: Picture,
    top: Picture,
    x: int,
    y: int,
    rows: int,
    cols: int,
) -> bool {
    let b = overlay_bounds(start.width as int, start.height as int, top.width as int, top.height as int, x, y);
    forall|px: int, py: int|
        0 <= px < start.width && 0 <= py < start.height ==> #[trigger] cur.at(px, py) == if b.0
            <= px < b.0 + b.4 && b.1 <= py < b.1 + b.5 && (py - b.1 < rows || (py - b.1 == rows
            && px - b.0 < cols)) {
            overlay_pixel(start, top, x, y, px, py)
        } else {
            start.at(px, py)
        }
}

/// A picture placed at `(x, y)` within a larger one, under a name.
pub struct Component {
    pub x: i64,
    pub y: i64,
    pub img: Picture,
    pub name: String,
}

impl Component {
    /// A component holding `img` at `(x, y)` (0 where not given), named `name`
    /// (`untitled` where not given).
    pub fn new(img: Picture, x: Option<i64>, y: Option<i64>, name: Option<String>) -> (r: Component)
        ensures
            r.img == img,
            r.x == match x {
                Some(v) => v,
                None => 0,
            },
            r.y == match y {
                Some(v) => v,
                None => 0,
            },
            r.name@ == match name {
                Some(n) => n@,
                None => "untitled"@,
            },
    {
        Component {
            img,
            x: match x {
                Some(v) => v,
                None => 0,
            },
            y: match y {
                Some(v) => v,
                None => 0,
            },
            name: match name {
                Some(n) => n,
                None => String::from_str("untitled"),
            },
        }
    }

    /// The width of the picture.
    pub fn width(&self) -> (r: i64)
        ensures
            r == self.img.width,
    {
        self.img.width as i64
    }

    /// The height of the picture.
    pub fn height(&self) -> (r: i64)
        ensures
            r == self.img.height,
    {
        self.img.height as i64
    }

    /// Moves the component to column `x`.
    pub fn set_x(&mut self, x: i64)
        ensures
            *final(self) == (Component { x, ..*old(self) }),
    {
        self.x = x;
    }

    /// Moves the component to row `y`.
    pub fn set_y(&mut self, y: i64)
        ensures
            *final(self) == (Component { y, ..*old(self) }),
    {
        self.y = y;
    }

    /// Centres the component horizontally in a parent `parent_width` wide.
    pub fn set_center_x(&mut self, parent_width: i64)
        requires
            fits(parent_width - old(self).img.width),
        ensures
            *final(self) == (Component {
                x: centre_offset(parent_width as int, old(self).img.width as int) as i64,
                ..*old(self)
            }),
    {
        self.x = center_x(parent_width, self.img.width as i64);
    }

    /// Centres the component vertically in a parent `parent_height` high.
    pub fn set_center_y(&mut self, parent_height: i64)
        requires
            fits(parent_height - old(self).img.height),
        ensures
            *final(self) == (Component {
                y: centre_offset(parent_height as int, old(self).img.height as int) as i64,
                ..*old(self)
            }),
    {
        self.y = center_y(parent_height, self.img.height as i64);
    }

    /// Centres the component horizontally on `dependent`.
    pub fn set_relative_center_x(&mut self, dependent: &Component)
        requires
            fits(2 * dependent.x),
            fits(2 * dependent.x + dependent.img.width),
            fits(2 * dependent.x + dependent.img.width - old(self).img.width),
        ensures
            *final(self) == (Component {
                x: centre_offset(
                    2 * dependent.x + dependent.img.width,
                    old(self).img.width as int,
                ) as i64,
                ..*old(self)
            }),
    {
        let parent = 2 * dependent.x + dependent.width();
        self.set_center_x(parent);
    }

    /// Centres the component vertically on `dependent`.
    pub fn set_relative_center_y(&mut self, dependent: &Component)
        requires
            fits(2 * dependent.y),
            fits(2 * dependent.y + dependent.img.height),
            fits(2 * dependent.y + dependent.img.height - old(self).img.height),
        ensures
            *final(self) == (Component {
                y: centre_offset(
                    2 * dependent.y + dependent.img.height,
                    old(self).img.height as int,
                ) as i64,
                ..*old(self)
            }),
    {
        let parent = 2 * dependent.y + dependent.height();
        self.set_center_y(parent);
    }

    /// Resizes the picture to `width` × `height` (each taken as a `u32`) with the
    /// Lanczos filter. Whatever pixels the filter gives, the component keeps its place
    /// and name and holds a well-formed picture of the new size.
    pub fn set_dimensions(&mut self, width: i64, height: i64)
        requires
            old(self).img.wf(),
        ensures
            final(self).x == old(self).x,
            final(self).y == old(self).y,
            final(self).name == old(self).name,
            final(self).img.width == width as u32,
            final(self).img.height == height as u32,
            final(self).img.wf(),
    {
        let w = width as u32;
        let h = height as u32;
        let pixels = resize_exact_pixels(&self.img.pixels, self.img.width, self.img.height, w, h);
        self.img = Picture { width: w, height: h, pixels };
    }

    /// The column that centres this component on a base `base_width` wide.
    pub fn get_center_x(&self, base_width: i64) -> (r: i64)
        requires
            fits(base_width - self.img.width),
        ensures
            r == centre_offset(base_width as int, self.img.width as int),
    {
        center_x(base_width, self.img.width as i64)
    }

    /// The row that centres this component on a base `base_height` high.
    pub fn get_center_y(&self, base_height: &i64) -> (r: i64)
        requires
            fits(*base_height - self.img.height),
        ensures
            r == centre_offset(*base_height as int, self.img.height as int),
    {
        center_y(*base_height, self.img.height as i64)
    }

    /// Where a `top_width` × `top_height` picture laid at `(x, y)` meets this one (see
    /// `overlay_bounds`). The shared part lies within both pictures.
    pub fn overlay_bounds_ext(&self, top_dims: (u32, u32), x: i64, y: i64) -> (r: (u32, u32, u32, u32, u32, u32))
        ensures
            (r.0 as int, r.1 as int, r.2 as int, r.3 as int, r.4 as int, r.5 as int)
                == overlay_bounds(
                self.img.width as int,
                self.img.height as int,
                top_dims.0 as int,
                top_dims.1 as int,
                x as int,
                y as int,
            ),
            r.0 + r.4 <= self.img.width,
            r.1 + r.5 <= self.img.height,
            r.2 + r.4 <= top_dims.0,
            r.3 + r.5 <= top_dims.1,
    {
        let (top_width, top_height) = top_dims;
        let bottom_width = self.width();
        let bottom_height = self.height();
        if x > bottom_width || y > bottom_height || add_saturating(x, top_width as i64) <= 0
            || add_saturating(y, top_height as i64) <= 0 {
            return (0, 0, 0, 0, 0, 0);
        }
        let max_x = add_saturating(x, top_width as i64);
        let max_y = add_saturating(y, top_height as i64);
        let max_inbounds_x = clamp_i64(max_x, 0, bottom_width) as u32;
        let max_inbounds_y = clamp_i64(max_y, 0, bottom_height) as u32;
        let origin_bottom_x = clamp_i64(x, 0, bottom_width) as u32;
        let origin_bottom_y = clamp_i64(y, 0, bottom_height) as u32;
        let x_range = max_inbounds_x - origin_bottom_x;
        let y_range = max_inbounds_y - origin_bottom_y;
        let origin_top_x = clamp_i64(negate_saturating(x), 0, top_width as i64) as u32;
        let origin_top_y = clamp_i64(negate_saturating(y), 0, top_height as i64) as u32;
        (origin_bottom_x, origin_bottom_y, origin_top_x, origin_top_y, x_range, y_range)
    }

    /// Lays `top` over this component at `top`'s position: within the part the two
    /// share, each pixel of this picture that is not fully transparent becomes its blend
    /// with the pixel of `top` above it; the rest stays as it was.
    pub fn overlay(&mut self, top: Component)
        requires
            old(self).img.wf(),
            top.img.wf(),
        ensures
            final(self).x == old(self).x,
            final(self).y == old(self).y,
            final(self).name == old(self).name,
            final(self).img.width == old(self).img.width,
            final(self).img.height == old(self).img.height,
            final(self).img.wf(),
            forall|px: int, py: int|
                0 <= px < old(self).img.width && 0 <= py < old(self).img.height
                    ==> #[trigger] final(self).img.at(px, py) == overlay_pixel(
                    old(self).img,
                    top.img,
                    top.x as int,
                    top.y as int,
                    px,
                    py,
                ),
    {
        let ghost start = self.img;
        let total = self.img.pixels.len();
        let top_total = top.img.pixels.len();
        let (obx, oby, otx, oty, rw, rh) = self.overlay_bounds_ext(
            (top.img.width, top.img.height),
            top.x,
            top.y,
        );
        let bw = self.img.width;
        let tw = top.img.width;
        let mut j: u32 = 0;
        while j < rh
            invariant
                self.x == old(self).x,
                self.y == old(self).y,
                self.name == old(self).name,
                self.img.width == start.width,
                self.img.height == start.height,
                self.img.pixels@.len() == start.pixels@.len(),
                start.wf(),
                top.img.wf(),
                total == start.pixels@.len(),
                top_total == top.img.pixels@.len(),
                bw == start.width,
                tw == top.img.width,
                (obx as int, oby as int, otx as int, oty as int, rw as int, rh as int)
                    == overlay_bounds(
                    start.width as int,
                    start.height as int,
                    top.img.width as int,
                    top.img.height as int,
                    top.x as int,
                    top.y as int,
                ),
                obx + rw <= start.width,
                oby + rh <= start.height,
                otx + rw <= top.img.width,
                oty + rh <= top.img.height,
                j <= rh,
                overlay_progress(self.img, start, top.img, top.x as int, top.y as int, j as int, 0),
            decreases rh - j,
        {
            let mut i: u32 = 0;
            while i < rw
                invariant
                    self.x == old(self).x,
                    self.y == old(self).y,
                    self.name == old(self).name,
                    self.img.width == start.width,
                    self.img.height == start.height,
                    self.img.pixels@.len() == start.pixels@.len(),
                    start.wf(),
                    top.img.wf(),
                    total == start.pixels@.len(),
                    top_total == top.img.pixels@.len(),
                    bw == start.width,
                    tw == top.img.width,
                    (obx as int, oby as int, otx as int, oty as int, rw as int, rh as int)
                        == overlay_bounds(
                        start.width as int,
                        start.height as int,
                        top.img.width as int,
                        top.img.height as int,
                        top.x as int,
                        top.y as int,
                    ),
                    obx + rw <= start.width,
                    oby + rh <= start.height,
                    otx + rw <= top.img.width,
                    oty + rh <= top.img.height,
                    j < rh,
                    i <= rw,
                    overlay_progress(
                        self.img,
                        start,
                        top.img,
                        top.x as int,
                        top.y as int,
                        j as int,
                        i as int,
                    ),
                decreases rw - i,
            {
                let px = obx + i;
                let py = oby + j;
                proof {
                    lemma_index_bound(start.width as int, start.height as int, px as int, py as int);
                    lemma_index_bound(
                        top.img.width as int,
                        top.img.height as int,
                        (otx + i) as int,
                        (oty + j) as int,
                    );
                }
                let bi: usize = (py as usize) * (bw as usize) + (px as usize);
                let ti: usize = ((oty + j) as usize) * (tw as usize) + ((otx + i) as usize);
                let below = self.img.pixels[bi];
                let ghost before = self.img;
                if below[3] != 0 {
                    let above = top.img.pixels[ti];
                    let v = blend_pixel(below, above);
                    self.img.pixels.set(bi, v);
                }
                proof {
                    assert forall|qx: int, qy: int|
                        0 <= qx < start.width && 0 <= qy < start.height implies #[trigger] self.img.at(
                        qx,
                        qy,
                    ) == before.at(qx, qy) || (qx == px && qy == py) by {
                        lemma_index_bound(start.width as int, start.height as int, qx, qy);
                        if pixel_index(start.width as int, qx, qy) == pixel_index(
                            start.width as int,
                            px as int,
                            py as int,
                        ) {
                            lemma_index_unique(start.width as int, qx, qy, px as int, py as int);
                        }
                    }
                    assert(before.at(px as int, py as int) == start.at(px as int, py as int));
                }
                i = i + 1;
            }
            j = j + 1;
        }
    }
}

} // verus!

verus! {

/// The background with each picture of `layers` laid over it in turn by `imageops::overlay`.
pub open spec fn overlay_all(bg: Seq<[u8; 4]>, width: u32, height: u32, layers: Seq<Component>) -> Seq<
    [u8; 4],
>
    decreases layers.len(),
{
    if layers.len() == 0 {
        bg
    } else {
        let last = layers.last();
        overlaid(
            overlay_all(bg, width, height, layers.drop_last()),
            width,
            height,
            last.img.pixels@,
            last.img.width,
            last.img.height,
            last.x,
            last.y,
        )
    }
}

impl Picture {
    /// A copy of the picture.
    pub fn duplicate(&self) -> (r: Picture)
        ensures
            r.width == self.width,
            r.height == self.height,
            r.pixels@ == self.pixels@,
    {
        let mut pixels: Vec<[u8; 4]> = Vec::new();
        let mut i: usize = 0;
        while i < self.pixels.len()
            invariant
                i <= self.pixels@.len(),
                pixels@ == self.pixels@.take(i as int),
            decreases self.pixels@.len() - i,
        {
            pixels.push(self.pixels[i]);
            i = i + 1;
            assert(pixels@ =~= self.pixels@.take(i as int));
        }
        assert(self.pixels@.take(i as int) =~= self.pixels@);
        Picture { width: self.width, height: self.height, pixels }
    }
}

/// A picture composed of a background and the components laid over it.
pub struct BSImage {
    pub width: i64,
    pub height: i64,
    pub bg: Picture,
    pub name: String,
    pub overlay: Vec<Component>,
}

impl BSImage {
    /// A composition on `bg`, of the given size where both sides are given and of the
    /// background's size otherwise, named `name` (`untitled` where not given), with
    /// nothing laid over it yet.
    pub fn new(width: Option<i64>, height: Option<i64>, bg: Picture, name: Option<String>) -> (r: BSImage)
        ensures
            (r.width, r.height) == match (width, height) {
                (Some(w), Some(h)) => (w, h),
                _ => (bg.width as i64, bg.height as i64),
            },
            r.bg == bg,
            r.name@ == match name {
                Some(n) => n@,
                None => "untitled"@,
            },
            r.overlay@.len() == 0,
    {
        let (w, h) = match (width, height) {
            (Some(w), Some(h)) => (w, h),
            _ => (bg.width as i64, bg.height as i64),
        };
        BSImage {
            width: w,
            height: h,
            bg,
            name: match name {
                Some(n) => n,
                None => String::from_str("untitled"),
            },
            overlay: Vec::new(),
        }
    }

    /// Adds a component to lay over the background, after those already there.
    pub fn add_overlay(&mut self, overlay: Component)
        ensures
            final(self).width == old(self).width,
            final(self).height == old(self).height,
            final(self).bg == old(self).bg,
            final(self).name == old(self).name,
            final(self).overlay@ == old(self).overlay@.push(overlay),
    {
        self.overlay.push(overlay);
    }

    /// Lays every component over the background in the order they were added, keeps the
    /// result as the new background and returns a copy of it.
    pub fn build(&mut self) -> (r: Picture)
        requires
            old(self).bg.wf(),
            forall|i: int| 0 <= i < old(self).overlay@.len() ==> (#[trigger] old(self).overlay@[i]).img.wf(),
        ensures
            final(self).width == old(self).width,
            final(self).height == old(self).height,
            final(self).name == old(self).name,
            final(self).overlay == old(self).overlay,
            final(self).bg.width == old(self).bg.width,
            final(self).bg.height == old(self).bg.height,
            final(self).bg.pixels@ == overlay_all(
                old(self).bg.pixels@,
                old(self).bg.width,
                old(self).bg.height,
                old(self).overlay@,
            ),
            r.width == final(self).bg.width,
            r.height == final(self).bg.height,
            r.pixels@ == final(self).bg.pixels@,
    {
        let mut i: usize = 0;
        while i < self.overlay.len()
            invariant
                self.width == old(self).width,
                self.height == old(self).height,
                self.name == old(self).name,
                self.overlay == old(self).overlay,
                self.bg.width == old(self).bg.width,
                self.bg.height == old(self).bg.height,
                self.bg.wf(),
                i <= self.overlay@.len(),
                forall|k: int| 0 <= k < self.overlay@.len() ==> (#[trigger] self.overlay@[k]).img.wf(),
                self.bg.pixels@ == overlay_all(
                    old(self).bg.pixels@,
                    old(self).bg.width,
                    old(self).bg.height,
                    self.overlay@.take(i as int),
                ),
            decreases self.overlay@.len() - i,
        {
            let pixels = overlay_pixels(&self.bg, &self.overlay[i].img, self.overlay[i].x, self.overlay[i].y);
            assert(self.overlay@.take(i + 1).drop_last() =~= self.overlay@.take(i as int));
            self.bg.pixels = pixels;
            i = i + 1;
        }
        assert(self.overlay@.take(i as int) =~= self.overlay@);
        self.bg.duplicate()
    }
}

} // verus!

verus! {

/// A law of overlaying: outside the part the two pictures share, and wherever the
/// bottom picture is fully transparent, a pixel is left as it was.
pub proof fn lemma_overlay_keeps_outside(bottom: Picture, top: Picture, x: int, y: int, px: int, py: int)
    requires
        ({
            let b = overlay_bounds(bottom.width as int, bottom.height as int, top.width as int, top.height as int, x, y);
            !(b.0 <= px < b.0 + b.4 && b.1 <= py < b.1 + b.5) || bottom.at(px, py)[3] == 0
        }),
    ensures
        overlay_pixel(bottom, top, x, y, px, py) == bottom.at(px, py),
{
}

/// A law of overlaying: a picture laid entirely beside another (or past its far edges)
/// shares no part with it.
pub proof fn lemma_overlay_apart(width: int, height: int, top_width: int, top_height: int, x: int, y: int)
    requires
        0 <= top_width,
        0 <= top_height,
        x > width || y > height || x + top_width <= 0 || y + top_height <= 0,
    ensures
        overlay_bounds(width, height, top_width, top_height, x, y).4 == 0,
        overlay_bounds(width, height, top_width, top_height, x, y).5 == 0,
{
}

} // verus!
