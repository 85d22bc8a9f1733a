use crate::misc::IconKind;
use crate::text::{contains, contains_text};
use crate::visual::component::Picture;
use crate::visual::model::{get_color, rgba_of};
use vstd::prelude::*;

verus! {

/// A `width` × `height` picture filled with one colour, given as `0xRRGGBBAA`.
pub fn draw_rec(width: u32, height: u32, color: u32) -> (r: Picture)
    requires
        width * height <= usize::MAX,
    ensures
        r.width == width,
        r.height == height,
        r.wf(),
        forall|i: int| 0 <= i < r.pixels@.len() ==> r.pixels@[i] == rgba_of(color),
{
    let (red, green, blue, alpha) = get_color(color);
    let px: [u8; 4] = [red, green, blue, alpha];
    let total: usize = (width as usize) * (height as usize);
    let mut pixels: Vec<[u8; 4]> = Vec::new();
    let mut i: usize = 0;
    while i < total
        invariant
            i <= total,
            pixels@.len() == i,
            px == rgba_of(color),
            forall|k: int| 0 <= k < i ==> pixels@[k] == px,
        decreases total - i,
    {
        pixels.push(px);
        i = i + 1;
    }
    Picture { width, height, pixels }
}

/// Which default icon stands in for a picture that could not be fetched: the player icon
/// for a profile picture, the mode icon for any other.
pub fn fallback_icon(url: &str) -> (r: IconKind)
    ensures
        r == if contains(url@, "profile"@) {
            IconKind::Player
        } else {
            IconKind::Mode
        },
{
    if contains_text(url, "profile") {
        IconKind::Player
    } else {
        IconKind::Mode
    }
}

} // verus!
