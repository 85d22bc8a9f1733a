use crate::text::{contains, contains_text, int_decimal, nat_decimal, push_decimal, push_signed_decimal};
use vstd::prelude::*;
use vstd::string::*;

verus! {

/// Whether `v` fits in an `i64`.
pub open spec fn fits(v: int) -> bool {
    i64::MIN <= v <= i64::MAX
}

/// An outline: its thickness in pixels and its colour (`0xRRGGBBAA`).
#[derive(Debug, Clone, Copy, PartialEq, Eq, Structural)]
pub struct Border {
    pub thickness: i64,
    pub color: u32,
}

/// The thickness of an optional border; none counts as 0.
pub open spec fn thickness_of(border: Option<Border>) -> int {
    match border {
        Some(b) => b.thickness as int,
        None => 0,
    }
}

/// The colour of an optional border; none counts as transparent black.
pub open spec fn border_color_of(border: Option<Border>) -> u32 {
    match border {
        Some(b) => b.color,
        None => 0,
    }
}

fn thickness(border: &Option<Border>) -> (t: i64)
    ensures
        t == thickness_of(*border),
{
    match border {
        Some(b) => b.thickness,
        None => 0,
    }
}

fn border_color(border: &Option<Border>) -> (c: u32)
    ensures
        c == border_color_of(*border),
{
    match border {
        Some(b) => b.color,
        None => 0,
    }
}

/// The bytes of a colour `0xRRGGBBAA`: red, green, blue and alpha.
pub open spec fn rgba_of(color: u32) -> [u8; 4] {
    [
        (color / 16777216) as u8,
        ((color / 65536) % 256) as u8,
        ((color / 256) % 256) as u8,
        (color % 256) as u8,
    ]
}

/// Splits a colour `0xRRGGBBAA` into its red, green, blue and alpha bytes.
pub fn get_color(color: u32) -> (r: (u8, u8, u8, u8))
    ensures
        [r.0, r.1, r.2, r.3] == rgba_of(color),
{
    assert((color >> 24u32) as u8 == (color / 16777216) as u8) by (bit_vector);
    assert((color >> 16u32) as u8 == ((color / 65536) % 256) as u8) by (bit_vector);
    assert((color >> 8u32) as u8 == ((color / 256) % 256) as u8) by (bit_vector);
    assert(((color << 24u32) >> 24u32) as u8 == (color % 256) as u8) by (bit_vector);
    let r = (color >> 24u32) as u8;
    let g = (color >> 16u32) as u8;
    let b = (color >> 8u32) as u8;
    let a = ((color << 24u32) >> 24u32) as u8;
    (r, g, b, a)
}

/// The index of pixel `(x, y)` in a row-major picture `width` pixels wide.
pub open spec fn pixel_index(width: int, x: int, y: int) -> int {
    y * width + x
}

/// The colour that a shape gives pixel `(x, y)`: the fill inside it, the edge colour on
/// its border, transparent elsewhere.
pub open spec fn pixel_of<S: Borderable>(shape: S, x: int, y: int, fill: [u8; 4], edge: [u8; 4]) -> [u8; 4] {
    if shape.inside(x, y) {
        fill
    } else if shape.on_border(x, y) {
        edge
    } else {
        [0u8, 0u8, 0u8, 0u8]
    }
}

/// Whether `pixels` is the row-major `width` × `height` picture of the shape.
pub open spec fn painted<S: Borderable>(
    pixels: Seq<[u8; 4]>,
    shape: S,
    width: int,
    height: int,
    fill: [u8; 4],
    edge: [u8; 4],
) -> bool {
    &&& pixels.len() == width * height
    &&& forall|x: int, y: int|
        0 <= x < width && 0 <= y < height ==> #[trigger] pixels[pixel_index(width, x, y)]
            == pixel_of(shape, x, y, fill, edge)
}

/// A shape drawn pixel by pixel: each pixel is filled when inside the shape, takes the
/// border colour when on its border, and is left transparent otherwise.
pub trait Borderable: Sized {
    /// Whether pixel `(x, y)` lies on the border of the shape.
    spec fn on_border(&self, x: int, y: int) -> bool;

    /// Whether pixel `(x, y)` lies inside the shape.
    spec fn inside(&self, x: int, y: int) -> bool;

    /// Whether `is_border` at `(x, y)` computes without overflow.
    spec fn border_computes(&self, x: int, y: int) -> bool;

    /// Whether `is_inside` at `(x, y)` computes without overflow.
    spec fn inside_computes(&self, x: int, y: int) -> bool;

    fn is_border(&mut self, x: i64, y: i64) -> (r: bool)
        requires
            old(self).border_computes(x as int, y as int),
        ensures
            r == old(self).on_border(x as int, y as int),
            *final(self) == *old(self),
    ;

    fn is_inside(&mut self, x: i64, y: i64) -> (r: bool)
        requires
            old(self).inside_computes(x as int, y as int),
        ensures
            r == old(self).inside(x as int, y as int),
            *final(self) == *old(self),
    ;

    /// Draws the shape on a transparent `width` × `height` picture, row by row,
    /// and returns its pixels.
    fn draw(&mut self, width: u32, height: u32, fill: [u8; 4], edge: [u8; 4]) -> (r: Vec<[u8; 4]>)
        requires
            forall|x: int, y: int|
                0 <= x < width && 0 <= y < height ==> #[trigger] old(self).inside_computes(x, y)
                    && (!old(self).inside(x, y) ==> old(self).border_computes(x, y)),
        ensures
            *final(self) == *old(self),
            r@.len() == width * height,
            forall|x: int, y: int|
                0 <= x < width && 0 <= y < height ==> #[trigger] r@[pixel_index(
                    width as int,
                    x,
                    y,
                )] == if old(self).inside(x, y) {
                    fill
                } else if old(self).on_border(x, y) {
                    edge
                } else {
                    [0u8, 0u8, 0u8, 0u8]
                },
    {
        let ghost start = *self;
        let mut pixels: Vec<[u8; 4]> = Vec::new();
        let mut y: u32 = 0;
        while y < height
            invariant
                *self == start,
                y <= height,
                pixels@.len() == y * width,
                forall|x: int, y: int|
                    0 <= x < width && 0 <= y < height ==> #[trigger] start.inside_computes(x, y)
                        && (!start.inside(x, y) ==> start.border_computes(x, y)),
                forall|xx: int, yy: int|
                    0 <= xx < width && 0 <= yy < y ==> #[trigger] pixels@[pixel_index(
                        width as int,
                        xx,
                        yy,
                    )] == if start.inside(xx, yy) {
                        fill
                    } else if start.on_border(xx, yy) {
                        edge
                    } else {
                        [0u8, 0u8, 0u8, 0u8]
                    },
            decreases height - y,
        {
            let mut x: u32 = 0;
            assert((y + 1) * width == y * width + width) by (nonlinear_arith);
            while x < width
                invariant
                    *self == start,
                    y < height,
                    x <= width,
                    pixels@.len() == y * width + x,
                    (y + 1) * width == y * width + width,
                    forall|x: int, y: int|
                        0 <= x < width && 0 <= y < height ==> #[trigger] start.inside_computes(x, y)
                            && (!start.inside(x, y) ==> start.border_computes(x, y)),
                    forall|xx: int, yy: int|
                        0 <= xx < width && 0 <= yy < y ==> #[trigger] pixels@[pixel_index(
                            width as int,
                            xx,
                            yy,
                        )] == if start.inside(xx, yy) {
                            fill
                        } else if start.on_border(xx, yy) {
                            edge
                        } else {
                            [0u8, 0u8, 0u8, 0u8]
                        },
                    forall|xx: int|
                        0 <= xx < x ==> #[trigger] pixels@[pixel_index(width as int, xx, y as int)]
                            == if start.inside(xx, y as int) {
                            fill
                        } else if start.on_border(xx, y as int) {
                            edge
                        } else {
                            [0u8, 0u8, 0u8, 0u8]
                        },
                decreases width - x,
            {
                assert(start.inside_computes(x as int, y as int));
                let px = if self.is_inside(x as i64, y as i64) {
                    fill
                } else if self.is_border(x as i64, y as i64) {
                    edge
                } else {
                    [0u8, 0u8, 0u8, 0u8]
                };
                let ghost before = pixels@;
                pixels.push(px);
                proof {
                    assert forall|xx: int, yy: int|
                        0 <= xx < width && 0 <= yy < y implies #[trigger] pixels@[pixel_index(
                        width as int,
                        xx,
                        yy,
                    )] == before[pixel_index(width as int, xx, yy)] by {
                        assert(pixel_index(width as int, xx, yy) < y * width) by (nonlinear_arith)
                            requires
                                0 <= xx < width,
                                0 <= yy < y,
                        ;
                    }
                    assert forall|xx: int|
                        0 <= xx < x implies #[trigger] pixels@[pixel_index(
                        width as int,
                        xx,
                        y as int,
                    )] == before[pixel_index(width as int, xx, y as int)] by {}
                }
                x = x + 1;
            }
            y = y + 1;
        }
        assert(y * width == width * height) by (nonlinear_arith)
            requires
                y == height,
        ;
        pixels
    }
}

} // verus!

verus! {

/// A filled rectangle `width` × `height`, with an optional border drawn inside its edge.
#[derive(Debug, Clone, Copy, PartialEq, Eq, Structural)]
pub struct Rectangle {
    pub width: i64,
    pub height: i64,
    pub color: u32,
    pub border: Option<Border>,
}

impl Borderable for Rectangle {
    open spec fn on_border(&self, x: int, y: int) -> bool {
        let t = thickness_of(self.border);
        x < t || x > self.width - t || y < t || y > self.height - t
    }

    open spec fn inside(&self, x: int, y: int) -> bool {
        0 <= x <= self.width && 0 <= y <= self.height
    }

    open spec fn border_computes(&self, x: int, y: int) -> bool {
        let t = thickness_of(self.border);
        x < t || (fits(self.width - t) && (x > self.width - t || y < t || fits(
            self.height - t,
        )))
    }

    open spec fn inside_computes(&self, x: int, y: int) -> bool {
        true
    }

    fn is_border(&mut self, x: i64, y: i64) -> (r: bool) {
        let t = thickness(&self.border);
        x < t || x > self.width - t || y < t || y > self.height - t
    }

    fn is_inside(&mut self, x: i64, y: i64) -> (r: bool) {
        x >= 0 && x <= self.width && y >= 0 && y <= self.height
    }
}

impl Rectangle {
    /// Paints the rectangle on a transparent picture of its own size (each side taken
    /// as a `u32`), in its colour with its border's colour on the edge.
    pub fn build(&mut self) -> (r: Vec<[u8; 4]>)
        requires
            forall|x: int, y: int|
                0 <= x < old(self).width as u32 && 0 <= y < old(self).height as u32
                    ==> #[trigger] old(self).border_computes(x, y),
        ensures
            *final(self) == *old(self),
            painted(
                r@,
                *old(self),
                old(self).width as u32 as int,
                old(self).height as u32 as int,
                rgba_of(old(self).color),
                rgba_of(border_color_of(old(self).border)),
            ),
    {
        let (r, g, b, a) = get_color(self.color);
        let (br, bg, bb, ba) = get_color(border_color(&self.border));
        let width = self.width as u32;
        let height = self.height as u32;
        assert forall|x: int, y: int|
            0 <= x < width && 0 <= y < height implies #[trigger] self.inside_computes(x, y) && (
            !self.inside(x, y) ==> self.border_computes(x, y)) by {
            assert(self.border_computes(x, y));
        }
        self.draw(width, height, [r, g, b, a], [br, bg, bb, ba])
    }
}

} // verus!

verus! {

/// Half the difference of the two parallel sides of a trapezoid, rounded down.
pub open spec fn slant(top: int, bottom: int) -> int {
    if top >= bottom {
        (top - bottom) / 2
    } else {
        (bottom - top) / 2
    }
}

fn slant_of(top: i64, bottom: i64) -> (c: i64)
    requires
        fits(top - bottom),
    ensures
        c == slant(top as int, bottom as int),
        0 <= c,
{
    let q = (top - bottom) / 2;
    if q < 0 {
        -q
    } else {
        q
    }
}

/// A trapezoid whose top side is `top` wide, its bottom side `bottom` wide and centred
/// under it, `height` pixels apart.
#[derive(Debug, Clone, Copy, PartialEq, Eq, Structural)]
pub struct Trapezoid {
    pub top: i64,
    pub bottom: i64,
    pub height: i64,
    pub color: u32,
    pub border: Option<Border>,
}

impl Borderable for Trapezoid {
    open spec fn on_border(&self, x: int, y: int) -> bool {
        let c = slant(self.top as int, self.bottom as int);
        &&& self.height * x - c * y >= 0
        &&& y >= 0
        &&& y <= self.height
        &&& self.height * (x - self.top) - y * (self.bottom + c - self.top) <= 0
    }

    open spec fn inside(&self, x: int, y: int) -> bool {
        let c = slant(self.top as int, self.bottom as int);
        let t = thickness_of(self.border);
        &&& self.height * (x - t) - c * y >= 0
        &&& y >= t
        &&& y <= self.height - t
        &&& self.height * (x - self.top + t) - y * (self.bottom + c - self.top) <= 0
    }

    open spec fn border_computes(&self, x: int, y: int) -> bool {
        let c = slant(self.top as int, self.bottom as int);
        &&& fits(self.top - self.bottom)
        &&& fits(self.height * x)
        &&& fits(c * y)
        &&& fits(self.height * x - c * y)
        &&& (self.height * x - c * y >= 0 && 0 <= y <= self.height) ==> {
            &&& fits(x - self.top)
            &&& fits(self.height * (x - self.top))
            &&& fits(self.bottom + c)
            &&& fits(self.bottom + c - self.top)
            &&& fits(y * (self.bottom + c - self.top))
            &&& fits(self.height * (x - self.top) - y * (self.bottom + c - self.top))
        }
    }

    open spec fn inside_computes(&self, x: int, y: int) -> bool {
        let c = slant(self.top as int, self.bottom as int);
        let t = thickness_of(self.border);
        &&& fits(self.top - self.bottom)
        &&& fits(x - t)
        &&& fits(self.height * (x - t))
        &&& fits(c * y)
        &&& fits(self.height * (x - t) - c * y)
        &&& (self.height * (x - t) - c * y >= 0 && y >= t) ==> fits(self.height - t)
        &&& (self.height * (x - t) - c * y >= 0 && y >= t && y <= self.height - t) ==> {
            &&& fits(x - self.top)
            &&& fits(x - self.top + t)
            &&& fits(self.height * (x - self.top + t))
            &&& fits(self.bottom + c)
            &&& fits(self.bottom + c - self.top)
            &&& fits(y * (self.bottom + c - self.top))
            &&& fits(self.height * (x - self.top + t) - y * (self.bottom + c - self.top))
        }
    }

    fn is_border(&mut self, x: i64, y: i64) -> (r: bool) {
        let c = slant_of(self.top, self.bottom);
        self.height * x - c * y >= 0 && y >= 0 && y <= self.height && self.height * (x
            - self.top) - y * (self.bottom + c - self.top) <= 0
    }

    fn is_inside(&mut self, x: i64, y: i64) -> (r: bool) {
        let c = slant_of(self.top, self.bottom);
        let t = thickness(&self.border);
        self.height * (x - t) - c * y >= 0 && y >= t && y <= self.height - t && self.height * (x
            - self.top + t) - y * (self.bottom + c - self.top) <= 0
    }
}

impl Trapezoid {
    /// Paints the trapezoid on a transparent picture `top` wide and `height` high (each
    /// taken as a `u32`), in its colour with its border's colour on the edge.
    pub fn build(&mut self) -> (r: Vec<[u8; 4]>)
        requires
            forall|x: int, y: int|
                0 <= x < old(self).top as u32 && 0 <= y < old(self).height as u32
                    ==> #[trigger] old(self).inside_computes(x, y) && (!old(self).inside(x, y)
                    ==> old(self).border_computes(x, y)),
        ensures
            *final(self) == *old(self),
            painted(
                r@,
                *old(self),
                old(self).top as u32 as int,
                old(self).height as u32 as int,
                rgba_of(old(self).color),
                rgba_of(border_color_of(old(self).border)),
            ),
    {
        let (r, g, b, a) = get_color(self.color);
        let (br, bg, bb, ba) = get_color(border_color(&self.border));
        let width = self.top as u32;
        let height = self.height as u32;
        assert forall|x: int, y: int|
            0 <= x < width && 0 <= y < height implies #[trigger] self.inside_computes(x, y) && (
            !self.inside(x, y) ==> self.border_computes(x, y)) by {
            assert(self.inside_computes(x, y));
        }
        self.draw(width, height, [r, g, b, a], [br, bg, bb, ba])
    }
}

/// A disc of radius `radius` centred on the picture's corner, with an optional border
/// drawn inside its rim.
#[derive(Debug, Clone, Copy, PartialEq, Eq, Structural)]
pub struct Circle {
    pub radius: i64,
    pub color: u32,
    pub border: Option<Border>,
}

impl Borderable for Circle {
    open spec fn on_border(&self, x: int, y: int) -> bool {
        x * x + y * y <= self.radius * self.radius
    }

    open spec fn inside(&self, x: int, y: int) -> bool {
        let t = thickness_of(self.border);
        x * x + y * y <= (self.radius - t) * (self.radius - t)
    }

    open spec fn border_computes(&self, x: int, y: int) -> bool {
        &&& fits(x * x)
        &&& fits(y * y)
        &&& fits(x * x + y * y)
        &&& fits(self.radius * self.radius)
    }

    open spec fn inside_computes(&self, x: int, y: int) -> bool {
        let t = thickness_of(self.border);
        &&& fits(x * x)
        &&& fits(y * y)
        &&& fits(x * x + y * y)
        &&& fits(self.radius - t)
        &&& fits((self.radius - t) * (self.radius - t))
    }

    fn is_border(&mut self, x: i64, y: i64) -> (r: bool) {
        x * x + y * y <= self.radius * self.radius
    }

    fn is_inside(&mut self, x: i64, y: i64) -> (r: bool) {
        let t = thickness(&self.border);
        x * x + y * y <= (self.radius - t) * (self.radius - t)
    }
}

impl Circle {
    /// Paints the disc on a transparent square picture `radius` pixels wide (taken as a
    /// `u32`), in its colour with its border's colour on the rim.
    pub fn build(&mut self) -> (r: Vec<[u8; 4]>)
        requires
            forall|x: int, y: int|
                0 <= x < old(self).radius as u32 && 0 <= y < old(self).radius as u32
                    ==> #[trigger] old(self).inside_computes(x, y) && (!old(self).inside(x, y)
                    ==> old(self).border_computes(x, y)),
        ensures
            *final(self) == *old(self),
            painted(
                r@,
                *old(self),
                old(self).radius as u32 as int,
                old(self).radius as u32 as int,
                rgba_of(old(self).color),
                rgba_of(border_color_of(old(self).border)),
            ),
    {
        let (r, g, b, a) = get_color(self.color);
        let (br, bg, bb, ba) = get_color(border_color(&self.border));
        let side = self.radius as u32;
        assert forall|x: int, y: int|
            0 <= x < side && 0 <= y < side implies #[trigger] self.inside_computes(x, y) && (
            !self.inside(x, y) ==> self.border_computes(x, y)) by {
            assert(self.inside_computes(x, y));
        }
        self.draw(side, side, [r, g, b, a], [br, bg, bb, ba])
    }
}

} // verus!

verus! {

/// A line of text to be drawn: its size, its colour (`0xRRGGBBAA`) and an optional outline.
pub struct Text {
    pub text: String,
    pub font_size: u8,
    pub font_color: u32,
    pub outline: Option<Border>,
}

impl Text {
    /// A line of text with the given look.
    pub fn new(text: String, font_size: u8, font_color: u32, outline: Option<Border>) -> (r: Text)
        ensures
            r.text == text,
            r.font_size == font_size,
            r.font_color == font_color,
            r.outline == outline,
    {
        Text { text, font_size, font_color, outline }
    }

    /// The JSON object that the text renderer reads: the text as it is, the font size and
    /// colour, and the outline's width and colour (0 and 0 without an outline).
    pub open spec fn request(&self) -> Seq<char> {
        "{\n                \"text\": \""@ + self.text@ + "\",\n                \"font_size\": "@
            + nat_decimal(self.font_size as nat) + ",\n                \"font_color\": \""@
            + nat_decimal(self.font_color as nat) + "\",\n                \"stroke_width\": \""@
            + int_decimal(thickness_of(self.outline)) + "\",\n                \"stroke_color\": \""@
            + nat_decimal(border_color_of(self.outline) as nat) + "\"\n            }"@
    }

    /// Writes the request for the text renderer (see `request`).
    pub fn text_request(&self) -> (r: String)
        ensures
            r@ == self.request(),
    {
        let stroke = thickness(&self.outline);
        let stroke_color = border_color(&self.outline);
        let mut s = String::new();
        s.append("{\n                \"text\": \"");
        s.append(self.text.as_str());
        s.append("\",\n                \"font_size\": ");
        push_decimal(&mut s, self.font_size as u64);
        s.append(",\n                \"font_color\": \"");
        push_decimal(&mut s, self.font_color as u64);
        s.append("\",\n                \"stroke_width\": \"");
        push_signed_decimal(&mut s, stroke);
        s.append("\",\n                \"stroke_color\": \"");
        push_decimal(&mut s, stroke_color as u64);
        s.append("\"\n            }");
        assert(s@ =~= self.request());
        s
    }
}

/// A picture fetched from the web, resized where both sides are given.
pub struct CustomImage {
    pub path: String,
    pub width: Option<i64>,
    pub height: Option<i64>,
}

impl CustomImage {
    /// A picture to fetch from `path`, of the given size.
    pub fn new(path: String, width: Option<i64>, height: Option<i64>) -> (r: CustomImage)
        ensures
            r.path == path,
            r.width == width,
            r.height == height,
    {
        CustomImage { path, width, height }
    }

    /// The picture to fetch in place of one that could not be had: the default player
    /// icon for a profile picture, the default mode icon for any other.
    pub fn default_icon(&self) -> (r: &'static str)
        ensures
            r@ == if contains(self.path@, "profile"@) {
                "https://cdn.brawlify.com/profile/28000000.png?v=1"@
            } else {
                "https://pbs.twimg.com/media/F2_Uy9rXgAAXXnP?format=png&name=360x360"@
            },
    {
        if contains_text(self.path.as_str(), "profile") {
            "https://cdn.brawlify.com/profile/28000000.png?v=1"
        } else {
            "https://pbs.twimg.com/media/F2_Uy9rXgAAXXnP?format=png&name=360x360"
        }
    }
}

} // verus!

verus! {

/// A law of colours: the four bytes that `get_color` splits a colour into make it up
/// again, red highest and alpha lowest.
pub proof fn lemma_rgba_recomposes(color: u32)
    ensures
        ({
            let c = rgba_of(color);
            c[0] * 16777216 + c[1] * 65536 + c[2] * 256 + c[3] == color
        }),
{
    assert((color / 16777216) as u8 == color / 16777216) by (bit_vector);
    assert(((color / 65536) % 256) as u8 == (color / 65536) % 256) by (bit_vector);
    assert(((color / 256) % 256) as u8 == (color / 256) % 256) by (bit_vector);
    assert((color % 256) as u8 == color % 256) by (bit_vector);
    assert((color / 16777216) * 16777216 + ((color / 65536) % 256) * 65536 + ((color / 256) % 256)
        * 256 + color % 256 == color) by (bit_vector);
}

} // verus!
