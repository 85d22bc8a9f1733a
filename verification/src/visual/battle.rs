use crate::visual::align::{centre_offset, div_toward_zero};
use crate::visual::component::{
    blended, overlaid, overlay_all, overlay_bounds, overlay_pixel, BSImage, Component, Picture,
};
use crate::visual::model::{pixel_index, pixel_of, Border, Borderable, Trapezoid, painted, rgba_of, border_color_of};
use vstd::prelude::*;

verus! {

/// A picture as plain values: width, height and pixels row by row.
pub type Raster = (u32, u32, Seq<[u8; 4]>);

/// The plain values of a picture.
pub open spec fn raster(p: Picture) -> Raster {
    (p.width, p.height, p.pixels@)
}

/// The pixel at `(x, y)` of a raster.
pub open spec fn raster_at(r: Raster, x: int, y: int) -> [u8; 4] {
    r.2[pixel_index(r.0 as int, x, y)]
}

/// The pixel at `(px, py)` of `bottom` once `top` is laid over it at `(x, y)` (as
/// `Component::overlay` does it).
pub open spec fn overlay_px(bottom: Raster, top: Raster, x: int, y: int, px: int, py: int) -> [u8; 4] {
    let b = overlay_bounds(bottom.0 as int, bottom.1 as int, top.0 as int, top.1 as int, x, y);
    let below = raster_at(bottom, px, py);
    if b.0 <= px < b.0 + b.4 && b.1 <= py < b.1 + b.5 && below[3] != 0 {
        blended(below, raster_at(top, b.2 + px - b.0, b.3 + py - b.1))
    } else {
        below
    }
}

/// `bottom` with `top` laid over it at `(x, y)` by `Component::overlay`.
pub open spec fn overlay_raster(bottom: Raster, top: Raster, x: int, y: int) -> Raster {
    (
        bottom.0,
        bottom.1,
        Seq::new(
            (bottom.0 * bottom.1) as nat,
            |i: int| overlay_px(bottom, top, x, y, i % (bottom.0 as int), i / (bottom.0 as int)),
        ),
    )
}

/// A raster turned half a turn: its pixels in reverse order.
pub open spec fn rotated(r: Raster) -> Raster {
    (r.0, r.1, r.2.reverse())
}

/// The `width` × `height` picture of a shape in its colour and its border's colour.
pub open spec fn trapezoid_raster(t: Trapezoid) -> Raster {
    let w = t.top as u32;
    let h = t.height as u32;
    (
        w,
        h,
        Seq::new(
            (w * h) as nat,
            |i: int|
                pixel_of(
                    t,
                    i % (w as int),
                    i / (w as int),
                    rgba_of(t.color),
                    rgba_of(border_color_of(t.border)),
                ),
        ),
    )
}

/// A row-major sequence given pixel by pixel is the sequence of its pixels by index.
pub proof fn lemma_grid(s: Seq<[u8; 4]>, w: int, h: int, f: spec_fn(int, int) -> [u8; 4])
    requires
        0 <= w,
        0 <= h,
        s.len() == w * h,
        forall|x: int, y: int| 0 <= x < w && 0 <= y < h ==> #[trigger] s[pixel_index(w, x, y)] == f(x, y),
    ensures
        s =~= Seq::new((w * h) as nat, |i: int| f(i % w, i / w)),
{
    assert forall|i: int| 0 <= i < w * h implies #[trigger] s[i] == f(i % w, i / w) by {
        assert(w > 0) by (nonlinear_arith)
            requires
                0 <= i < w * h,
                0 <= w,
                0 <= h,
        ;
        assert(i == (i / w) * w + i % w && 0 <= i % w < w && 0 <= i / w < h) by (nonlinear_arith)
            requires
                w > 0,
                0 <= i < w * h,
        ;
        assert(pixel_index(w, i % w, i / w) == i);
    }
}

/// A picture turned half a turn, as `DynamicImage::rotate180` turns it.
pub fn rotate180(p: &Picture) -> (r: Picture)
    ensures
        raster(r) == rotated(raster(*p)),
{
    let n = p.pixels.len();
    let mut out: Vec<[u8; 4]> = Vec::new();
    let mut i: usize = 0;
    while i < n
        invariant
            n == p.pixels@.len(),
            i <= n,
            out@ =~= p.pixels@.reverse().take(i as int),
        decreases n - i,
    {
        out.push(p.pixels[n - 1 - i]);
        i = i + 1;
    }
    Picture { width: p.width, height: p.height, pixels: out }
}

} // verus!

verus! {

/// Paints a trapezoid as a picture of its own size (see `trapezoid_raster`).
pub fn trapezoid_picture(t: Trapezoid) -> (r: Picture)
    requires
        forall|x: int, y: int|
            0 <= x < t.top as u32 && 0 <= y < t.height as u32 ==> #[trigger] t.inside_computes(x, y)
                && (!t.inside(x, y) ==> t.border_computes(x, y)),
    ensures
        raster(r) == trapezoid_raster(t),
        r.wf(),
{
    let mut shape = t;
    let pixels = shape.build();
    let w = t.top as u32;
    let h = t.height as u32;
    proof {
        let f = |x: int, y: int| pixel_of(t, x, y, rgba_of(t.color), rgba_of(border_color_of(t.border)));
        assert forall|x: int, y: int| 0 <= x < w && 0 <= y < h implies #[trigger] pixels@[pixel_index(
            w as int,
            x,
            y,
        )] == f(x, y) by {}
        lemma_grid(pixels@, w as int, h as int, f);
    }
    Picture { width: w, height: h, pixels }
}

/// Lays `top` over `bottom` as `Component::overlay` does, as rasters.
pub fn overlay_component(bottom: &mut Component, top: Component)
    requires
        old(bottom).img.wf(),
        top.img.wf(),
    ensures
        final(bottom).x == old(bottom).x,
        final(bottom).y == old(bottom).y,
        final(bottom).name == old(bottom).name,
        raster(final(bottom).img) == overlay_raster(
            raster(old(bottom).img),
            raster(top.img),
            top.x as int,
            top.y as int,
        ),
        final(bottom).img.wf(),
{
    let ghost b0 = raster(bottom.img);
    let ghost t0 = raster(top.img);
    let ghost tx = top.x as int;
    let ghost ty = top.y as int;
    let ghost old_img = bottom.img;
    let ghost top_img = top.img;
    bottom.overlay(top);
    proof {
        let w = b0.0 as int;
        let h = b0.1 as int;
        let f = |px: int, py: int| overlay_px(b0, t0, tx, ty, px, py);
        assert forall|px: int, py: int| 0 <= px < w && 0 <= py < h implies #[trigger] bottom.img.pixels@[pixel_index(
            w,
            px,
            py,
        )] == f(px, py) by {
            assert(bottom.img.at(px, py) == overlay_pixel(old_img, top_img, tx, ty, px, py));
        }
        lemma_grid(bottom.img.pixels@, w, h, f);
    }
}

/// The background with each layer (corner and raster) laid over it in turn by
/// `imageops::overlay`.
pub open spec fn layer_all(bg: Seq<[u8; 4]>, width: u32, height: u32, layers: Seq<(i64, i64, Raster)>) -> Seq<
    [u8; 4],
>
    decreases layers.len(),
{
    if layers.len() == 0 {
        bg
    } else {
        let last = layers.last();
        overlaid(
            layer_all(bg, width, height, layers.drop_last()),
            width,
            height,
            last.2.2,
            last.2.0,
            last.2.1,
            last.0,
            last.1,
        )
    }
}

/// The corner and raster of a component.
pub open spec fn layer_of(c: Component) -> (i64, i64, Raster) {
    (c.x, c.y, raster(c.img))
}

/// Laying components is laying their corners and rasters.
pub proof fn lemma_layers(bg: Seq<[u8; 4]>, width: u32, height: u32, comps: Seq<Component>)
    ensures
        overlay_all(bg, width, height, comps) == layer_all(
            bg,
            width,
            height,
            comps.map_values(|c: Component| layer_of(c)),
        ),
    decreases comps.len(),
{
    if comps.len() > 0 {
        lemma_layers(bg, width, height, comps.drop_last());
        assert(comps.map_values(|c: Component| layer_of(c)).drop_last() =~= comps.drop_last().map_values(
            |c: Component| layer_of(c),
        ));
    }
}

/// What `DynamicImage::resize` with the nearest-pixel filter makes of a picture fitted
/// into `new_width` × `new_height`, keeping its proportions.
pub uninterp spec fn fitted(
    pixels: Seq<[u8; 4]>,
    width: u32,
    height: u32,
    new_width: u32,
    new_height: u32,
) -> Raster;

/// `DynamicImage::resize` with `FilterType::Nearest`, on an RGBA picture. Claimed: the
/// result depends on its arguments alone and its pixels fill its size.
#[verifier::external_body]
fn fit_nearest(p: &Picture, new_width: u32, new_height: u32) -> (r: Picture)
    requires
        p.wf(),
    ensures
        raster(r) == fitted(p.pixels@, p.width, p.height, new_width, new_height),
        r.wf(),
{
    let img = image::RgbaImage::from_raw(p.width, p.height, p.pixels.concat()).unwrap();
    let out = image::DynamicImage::ImageRgba8(img).resize(new_width, new_height, image::imageops::FilterType::Nearest).to_rgba8();
    Picture { width: out.width(), height: out.height(), pixels: out.pixels().map(|q| q.0).collect() }
}

} // verus!

verus! {

/// The pictures that go into the pre-battle picture: the background, the versus sign,
/// the two players' icons, names and tags, the title icon, the round and match lines,
/// and the mode's icon and name.
pub struct BattleArt {
    pub bg: Picture,
    pub versus: Picture,
    pub icon1: Picture,
    pub icon2: Picture,
    pub name1: Picture,
    pub name2: Picture,
    pub tag1: Picture,
    pub tag2: Picture,
    pub title_icon: Picture,
    pub upper_title: Picture,
    pub lower_title: Picture,
    pub mode_icon: Picture,
    pub mode_text: Picture,
}

/// Whether every picture of the art fills its size.
pub open spec fn art_wf(a: BattleArt) -> bool {
    &&& a.bg.wf()
    &&& a.versus.wf()
    &&& a.icon1.wf()
    &&& a.icon2.wf()
    &&& a.name1.wf()
    &&& a.name2.wf()
    &&& a.tag1.wf()
    &&& a.tag2.wf()
    &&& a.title_icon.wf()
    &&& a.upper_title.wf()
    &&& a.lower_title.wf()
    &&& a.mode_icon.wf()
    &&& a.mode_text.wf()
}

/// The title box's trapezoid (amber, no border) and its overlay (translucent amber with a
/// black border), both 200 wide and 100 high.
pub open spec fn title_shape(overlay: bool) -> Trapezoid {
    Trapezoid {
        top: 200,
        bottom: 150,
        height: 100,
        color: if overlay {
            0xFFBF004D
        } else {
            0xFFBF00FF
        },
        border: if overlay {
            Some(Border { thickness: 10, color: 0x000000FF })
        } else {
            None
        },
    }
}

/// The mode box's trapezoid (pink with a black border) and its translucent overlay, both
/// 300 wide and 75 high.
pub open spec fn mode_shape(overlay: bool) -> Trapezoid {
    Trapezoid {
        top: 300,
        bottom: 150,
        height: 75,
        color: if overlay {
            0xFE1AB64D
        } else {
            0xFE1AB6FF
        },
        border: Some(Border { thickness: 10, color: 0x000000FF }),
    }
}

/// The title box: the amber trapezoid turned half a turn, the title icon centred on it,
/// the overlay trapezoid turned likewise, then the round and match lines centred one above
/// the other, 5 pixels apart.
pub open spec fn title_box(a: BattleArt) -> Raster {
    let b0 = rotated(trapezoid_raster(title_shape(false)));
    let b1 = overlay_raster(
        b0,
        raster(a.title_icon),
        centre_offset(200, a.title_icon.width as int),
        centre_offset(100, a.title_icon.height as int),
    );
    let b2 = overlay_raster(b1, rotated(trapezoid_raster(title_shape(true))), 0, 0);
    let top = div_toward_zero(100 - 2 * a.upper_title.height - 5, 2);
    let b3 = overlay_raster(b2, raster(a.upper_title), centre_offset(200, a.upper_title.width as int), top);
    overlay_raster(
        b3,
        raster(a.lower_title),
        centre_offset(200, a.lower_title.width as int),
        top + a.upper_title.height + 5,
    )
}

/// The mode box: the pink trapezoid, the mode icon centred on it, the overlay trapezoid,
/// then the mode's name centred.
pub open spec fn mode_box(a: BattleArt) -> Raster {
    let b0 = trapezoid_raster(mode_shape(false));
    let b1 = overlay_raster(
        b0,
        raster(a.mode_icon),
        centre_offset(300, a.mode_icon.width as int),
        centre_offset(75, a.mode_icon.height as int),
    );
    let b2 = overlay_raster(b1, trapezoid_raster(mode_shape(true)), 0, 0);
    overlay_raster(
        b2,
        raster(a.mode_text),
        centre_offset(300, a.mode_text.width as int),
        centre_offset(75, a.mode_text.height as int),
    )
}

/// The layers of the pre-battle picture, in the order they are laid: the title box at the
/// bottom centre, the mode box at the top centre, the first icon 50 pixels from the left
/// and the second as far from the right, both centred in height, each name centred under
/// its icon and each tag under its name (10 pixels apart), and the versus sign (fitted into
/// 150 × 150) in the middle.
pub open spec fn battle_layers(a: BattleArt) -> Seq<(i64, i64, Raster)> {
    let w = a.bg.width as int;
    let h = a.bg.height as int;
    let y1 = centre_offset(h, a.icon1.height as int);
    let x2 = w - 50 - a.icon2.width;
    let y2 = centre_offset(h, a.icon2.height as int);
    let nx1 = centre_offset(100 + a.icon1.width, a.name1.width as int);
    let ny1 = y1 + a.icon1.height + 10;
    let nx2 = centre_offset(2 * x2 + a.icon2.width, a.name2.width as int);
    let ny2 = y2 + a.icon2.height + 10;
    let vs = fitted(a.versus.pixels@, a.versus.width, a.versus.height, 150, 150);
    seq![
        (centre_offset(w, 200) as i64, (h - 100) as i64, title_box(a)),
        (centre_offset(w, 300) as i64, 0i64, mode_box(a)),
        (50i64, y1 as i64, raster(a.icon1)),
        (x2 as i64, y2 as i64, raster(a.icon2)),
        (nx1 as i64, ny1 as i64, raster(a.name1)),
        (nx2 as i64, ny2 as i64, raster(a.name2)),
        (
            centre_offset(2 * nx1 + a.name1.width, a.tag1.width as int) as i64,
            (ny1 + a.name1.height + 10) as i64,
            raster(a.tag1),
        ),
        (
            centre_offset(2 * nx2 + a.name2.width, a.tag2.width as int) as i64,
            (ny2 + a.name2.height + 10) as i64,
            raster(a.tag2),
        ),
        (centre_offset(w, vs.0 as int) as i64, centre_offset(h, vs.1 as int) as i64, vs),
    ]
}

/// Whether a child `cw` wide laid at column `x` is centred, to within a pixel, on a
/// parent `pw` wide laid at column `px`.
pub open spec fn centred_on(x: int, cw: int, px: int, pw: int) -> bool {
    -1 <= (2 * x + cw) - (2 * px + pw) <= 1
}

/// A law of the pre-battle picture: the first player's icon stands at the left margin and
/// the second's at the right one; under each icon, centred on it and 10 pixels below, is
/// that player's own name, and under each name, centred on it and 10 pixels below, is
/// that player's own tag.
pub proof fn lemma_each_name_under_its_icon(a: BattleArt)
    ensures
        ({
            let l = battle_layers(a);
            &&& l.len() == 9
            &&& l[2].2 == raster(a.icon1) && l[2].0 == 50
            &&& l[3].2 == raster(a.icon2) && l[3].0 + a.icon2.width == a.bg.width - 50
            &&& l[4].2 == raster(a.name1) && centred_on(l[4].0 as int, a.name1.width as int, l[2].0 as int, a.icon1.width as int)
                && l[4].1 == l[2].1 + a.icon1.height + 10
            &&& l[5].2 == raster(a.name2) && centred_on(l[5].0 as int, a.name2.width as int, l[3].0 as int, a.icon2.width as int)
                && l[5].1 == l[3].1 + a.icon2.height + 10
            &&& l[6].2 == raster(a.tag1) && centred_on(l[6].0 as int, a.tag1.width as int, l[4].0 as int, a.name1.width as int)
                && l[6].1 == l[4].1 + a.name1.height + 10
            &&& l[7].2 == raster(a.tag2) && centred_on(l[7].0 as int, a.tag2.width as int, l[5].0 as int, a.name2.width as int)
                && l[7].1 == l[5].1 + a.name2.height + 10
        }),
{
    let w = a.bg.width as int;
    let h = a.bg.height as int;
    let y1 = centre_offset(h, a.icon1.height as int);
    let x2 = w - 50 - a.icon2.width;
    let y2 = centre_offset(h, a.icon2.height as int);
    let nx1 = centre_offset(100 + a.icon1.width, a.name1.width as int);
    let ny1 = y1 + a.icon1.height + 10;
    let nx2 = centre_offset(2 * x2 + a.icon2.width, a.name2.width as int);
    let ny2 = y2 + a.icon2.height + 10;
    let tx1 = centre_offset(2 * nx1 + a.name1.width, a.tag1.width as int);
    let tx2 = centre_offset(2 * nx2 + a.name2.width, a.tag2.width as int);
    assert(-0x2_0000_0000 <= y1 <= 0x2_0000_0000 && -0x2_0000_0000 <= y2 <= 0x2_0000_0000);
    assert(-0x2_0000_0000 <= nx1 <= 0x2_0000_0000 && -0x4_0000_0000 <= nx2 <= 0x4_0000_0000);
    assert(-0x4_0000_0000 <= tx1 <= 0x4_0000_0000 && -0x8_0000_0000 <= tx2 <= 0x8_0000_0000);
}

/// The title and mode trapezoids can be painted on their whole picture.
proof fn lemma_box_drawable(t: Trapezoid)
    requires
        (t.top == 200 && t.height == 100) || (t.top == 300 && t.height == 75),
        t.bottom == 150,
        t.border is None || t.border == Some(Border { thickness: 10, color: 0x000000FF }),
    ensures
        forall|x: int, y: int|
            0 <= x < t.top as u32 && 0 <= y < t.height as u32 ==> #[trigger] t.inside_computes(x, y)
                && (!t.inside(x, y) ==> t.border_computes(x, y)),
{
    let h = t.height as int;
    let c = crate::visual::model::slant(t.top as int, 150);
    assert(t.top as u32 == t.top && t.height as u32 == t.height);
    assert(c == 25 || c == 75);
    assert forall|x: int, y: int| 0 <= x < t.top as u32 && 0 <= y < t.height as u32 implies #[trigger] t.inside_computes(x, y)
        && (!t.inside(x, y) ==> t.border_computes(x, y)) by {
        assert(-100000 <= h * x <= 100000 && 0 <= c * y <= 100000 && -100000 <= y * c <= 100000)
            by (nonlinear_arith)
            requires
                0 <= x < 300,
                0 <= y < 100,
                0 <= h <= 100,
                0 <= c <= 75,
        ;
        assert(-100000 <= h * (x - t.top) <= 100000 && -100000 <= h * (x - 10) <= 100000
            && -100000 <= h * (x - t.top + 10) <= 100000 && -100000 <= h * (x - 0) <= 100000
            && -100000 <= h * (x - t.top + 0) <= 100000) by (nonlinear_arith)
            requires
                0 <= x < 300,
                0 <= h <= 100,
                200 <= t.top <= 300,
        ;
        assert(-100000 <= y * (150 + c - t.top) <= 100000) by (nonlinear_arith)
            requires
                0 <= y < 100,
                0 <= c <= 75,
                200 <= t.top <= 300,
        ;
    }
}

fn named(n: &str) -> (r: Option<String>)
    ensures
        r matches Some(s) && s@ == n@,
{
    Some(String::from_str(n))
}

/// Composes the pre-battle picture: the layers of `battle_layers` laid over the
/// background in order.
pub fn compose_battle_image(art: BattleArt) -> (r: Picture)
    requires
        art_wf(art),
    ensures
        raster(r) == (art.bg.width, art.bg.height, layer_all(
            art.bg.pixels@,
            art.bg.width,
            art.bg.height,
            battle_layers(art),
        )),
{
    let ghost a = art;
    let BattleArt {
        bg,
        versus,
        icon1,
        icon2,
        name1,
        name2,
        tag1,
        tag2,
        title_icon,
        upper_title,
        lower_title,
        mode_icon,
        mode_text,
    } = art;
    let mut img = BSImage::new(None, None, bg, named("Prebattle"));
    let w = img.width;
    let h = img.height;
    let vs_pic = fit_nearest(&versus, 150, 150);
    let mut vs = Component::new(vs_pic, None, None, named("versus"));
    vs.set_center_x(w);
    vs.set_center_y(h);
    let mut c1 = Component::new(icon1, Some(50), None, named("icon1"));
    c1.set_center_y(h);
    let mut c2 = Component::new(icon2, None, None, named("icon2"));
    c2.set_x(w - c1.x - c2.width());
    c2.set_center_y(h);
    let mut n1 = Component::new(name1, None, None, named("name1"));
    n1.set_relative_center_x(&c1);
    n1.set_y(c1.y + c1.height() + 10);
    let mut n2 = Component::new(name2, None, None, named("name2"));
    n2.set_relative_center_x(&c2);
    n2.set_y(c2.y + c2.height() + 10);
    let mut t1 = Component::new(tag1, None, None, named("tag1"));
    t1.set_relative_center_x(&n1);
    t1.set_y(n1.y + n1.height() + 10);
    let mut t2 = Component::new(tag2, None, None, named("tag2"));
    t2.set_relative_center_x(&n2);
    t2.set_y(n2.y + n2.height() + 10);

    let box_shape = Trapezoid { top: 200, bottom: 150, height: 100, color: 0xFFBF00FF, border: None };
    proof {
        lemma_box_drawable(box_shape);
    }
    let box_pic = rotate180(&trapezoid_picture(box_shape));
    let mut title = Component::new(box_pic, None, None, named("title_box"));
    title.set_center_x(w);
    title.set_y(h - title.height());
    let mut ti = Component::new(title_icon, None, None, named("title_icon"));
    ti.set_center_x(title.width());
    ti.set_center_y(title.height());
    overlay_component(&mut title, ti);
    let over_shape = Trapezoid {
        top: 200,
        bottom: 150,
        height: 100,
        color: 0xFFBF004D,
        border: Some(Border { thickness: 10, color: 0x000000FF }),
    };
    proof {
        lemma_box_drawable(over_shape);
    }
    let over = Component::new(rotate180(&trapezoid_picture(over_shape)), None, None, named("title_overlay"));
    overlay_component(&mut title, over);
    let mut up = Component::new(upper_title, None, None, named("title"));
    let mut lo = Component::new(lower_title, None, None, named("title"));
    up.set_center_x(title.width());
    lo.set_center_x(title.width());
    let top = (title.height() - 2 * up.height() - 5) / 2;
    up.set_y(top);
    lo.set_y(up.y + up.height() + 5);
    overlay_component(&mut title, up);
    overlay_component(&mut title, lo);

    let mode_shape = Trapezoid {
        top: 300,
        bottom: 150,
        height: 75,
        color: 0xFE1AB6FF,
        border: Some(Border { thickness: 10, color: 0x000000FF }),
    };
    proof {
        lemma_box_drawable(mode_shape);
    }
    let mode_shape_pic = trapezoid_picture(mode_shape);
    let mut mode_bg = Component::new(mode_shape_pic, None, None, named("mode_bg"));
    mode_bg.set_center_x(w);
    let mut mi = Component::new(mode_icon, None, None, named("mode_icon"));
    mi.set_center_x(mode_bg.width());
    mi.set_center_y(mode_bg.height());
    overlay_component(&mut mode_bg, mi);
    let mode_over_shape = Trapezoid {
        top: 300,
        bottom: 150,
        height: 75,
        color: 0xFE1AB64D,
        border: Some(Border { thickness: 10, color: 0x000000FF }),
    };
    proof {
        lemma_box_drawable(mode_over_shape);
    }
    let mode_over = Component::new(
        trapezoid_picture(mode_over_shape),
        None,
        None,
        named("mode_comp"),
    );
    overlay_component(&mut mode_bg, mode_over);
    let mut mt = Component::new(mode_text, None, None, named("mode_text"));
    mt.set_center_x(mode_bg.width());
    mt.set_center_y(mode_bg.height());
    overlay_component(&mut mode_bg, mt);

    img.add_overlay(title);
    img.add_overlay(mode_bg);
    img.add_overlay(c1);
    img.add_overlay(c2);
    img.add_overlay(n1);
    img.add_overlay(n2);
    img.add_overlay(t1);
    img.add_overlay(t2);
    img.add_overlay(vs);
    let ghost layers = img.overlay@;
    proof {
        lemma_layers(img.bg.pixels@, img.bg.width, img.bg.height, layers);
        assert(layers.map_values(|c: Component| layer_of(c)) =~= battle_layers(a));
    }
    img.build()
}

} // verus!
