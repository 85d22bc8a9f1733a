use dbc_bot::misc::IconKind;
use dbc_bot::visual::draw::{draw_rec, fallback_icon};
use dbc_bot::visual::align::{center_x, center_y};
use dbc_bot::visual::component::{BSImage, Component, Picture};
use dbc_bot::visual::model::{get_color, Border, Circle, CustomImage, Rectangle, Text, Trapezoid};

const FILL: [u8; 4] = [255, 0, 0, 255];
const EDGE: [u8; 4] = [0, 0, 255, 128];
const CLEAR: [u8; 4] = [0, 0, 0, 0];

fn picture(width: u32, height: u32, px: [u8; 4]) -> Picture {
    Picture { width, height, pixels: vec![px; (width * height) as usize] }
}

#[test]
fn colours_split_into_bytes() {
    assert_eq!(get_color(0x11223344), (0x11, 0x22, 0x33, 0x44));
    assert_eq!(get_color(0xFF0000FF), (255, 0, 0, 255));
    assert_eq!(get_color(0), (0, 0, 0, 0));
    let (r, g, b, a) = get_color(0xDEADBEEF);
    let back = (r as u32) << 24 | (g as u32) << 16 | (b as u32) << 8 | a as u32;
    assert_eq!(back, 0xDEADBEEF);
}

#[test]
fn centring() {
    assert_eq!(center_x(10, 4), 3);
    assert_eq!(center_x(11, 4), 3);
    assert_eq!(center_y(4, 10), -3);
    assert_eq!(center_y(5, 10), -2);
}

#[test]
fn rectangles_fill_their_whole_picture() {
    let mut rect = Rectangle {
        width: 3,
        height: 2,
        color: 0xFF0000FF,
        border: Some(Border { thickness: 1, color: 0x0000FF80 }),
    };
    let pixels = rect.build();
    assert_eq!(pixels.len(), 6);
    assert!(pixels.iter().all(|p| *p == FILL));
}

#[test]
fn circles_are_quarter_discs() {
    let mut disc = Circle { radius: 4, color: 0xFF0000FF, border: Some(Border { thickness: 1, color: 0x0000FF80 }) };
    let pixels = disc.build();
    assert_eq!(pixels.len(), 16);
    let at = |x: usize, y: usize| pixels[y * 4 + x];
    assert_eq!(at(0, 0), FILL);
    assert_eq!(at(2, 2), FILL);
    assert_eq!(at(3, 0), FILL);
    assert_eq!(at(2, 3), EDGE);
    assert_eq!(at(3, 3), CLEAR);
    let mut plain = Circle { radius: 4, color: 0xFF0000FF, border: None };
    let p = plain.build();
    assert_eq!(p[3 * 4 + 2], FILL);
    assert_eq!(p[3 * 4 + 3], CLEAR);
}

#[test]
fn trapezoids_slant_on_the_left() {
    let mut shape = Trapezoid { top: 4, bottom: 2, height: 2, color: 0xFF0000FF, border: None };
    let pixels = shape.build();
    assert_eq!(pixels.len(), 8);
    let at = |x: usize, y: usize| pixels[y * 4 + x];
    assert_eq!(at(0, 0), FILL);
    assert_eq!(at(3, 0), FILL);
    assert_eq!(at(0, 1), CLEAR);
    assert_eq!(at(1, 1), FILL);
    assert_eq!(at(3, 1), FILL);
}

#[test]
fn text_request_json() {
    let plain = Text::new("Hi".to_string(), 30, 0xFFFFFFFF, None);
    assert_eq!(
        plain.text_request(),
        "{\n                \"text\": \"Hi\",\n                \"font_size\": 30,\n                \"font_color\": \"4294967295\",\n                \"stroke_width\": \"0\",\n                \"stroke_color\": \"0\"\n            }"
    );
    let outlined = Text::new("x".to_string(), 8, 1, Some(Border { thickness: -2, color: 7 }));
    let req = outlined.text_request();
    assert!(req.contains("\"stroke_width\": \"-2\""));
    assert!(req.contains("\"stroke_color\": \"7\""));
}

#[test]
fn custom_image_defaults() {
    let profile = CustomImage::new("https://cdn/profile/1.png".to_string(), Some(200), None);
    assert_eq!(profile.width, Some(200));
    assert_eq!(profile.height, None);
    assert_eq!(profile.default_icon(), "https://cdn.brawlify.com/profile/28000000.png?v=1");
    let event = CustomImage::new("https://cdn/event-icons/x.png".to_string(), None, None);
    assert_eq!(
        event.default_icon(),
        "https://pbs.twimg.com/media/F2_Uy9rXgAAXXnP?format=png&name=360x360"
    );
}

#[test]
fn components_default_and_move() {
    let mut c = Component::new(picture(4, 2, FILL), None, Some(3), None);
    assert_eq!((c.x, c.y), (0, 3));
    assert_eq!(c.name, "untitled");
    assert_eq!((c.width(), c.height()), (4, 2));
    c.set_x(9);
    c.set_y(-1);
    assert_eq!((c.x, c.y), (9, -1));
    c.set_center_x(10);
    c.set_center_y(7);
    assert_eq!((c.x, c.y), (3, 2));
    assert_eq!(c.get_center_x(11), 3);
    assert_eq!(c.get_center_y(&1), 0);
    let named = Component::new(picture(1, 1, FILL), Some(1), None, Some("vs".to_string()));
    assert_eq!(named.name, "vs");
}

#[test]
fn relative_centring_lines_up_centres() {
    let base = Component::new(picture(10, 6, FILL), Some(20), Some(5), None);
    let mut label = Component::new(picture(4, 2, FILL), None, None, None);
    label.set_relative_center_x(&base);
    label.set_relative_center_y(&base);
    assert_eq!(2 * label.x + label.width(), 2 * base.x + base.width());
    assert_eq!(2 * label.y + label.height(), 2 * base.y + base.height());
}

#[test]
fn overlay_bounds_stay_inside_both() {
    let c = Component::new(picture(4, 3, FILL), None, None, None);
    assert_eq!(c.overlay_bounds_ext((2, 2), 1, 1), (1, 1, 0, 0, 2, 2));
    assert_eq!(c.overlay_bounds_ext((2, 2), -1, 2), (0, 2, 1, 0, 1, 1));
    assert_eq!(c.overlay_bounds_ext((2, 2), 3, 0), (3, 0, 0, 0, 1, 2));
    assert_eq!(c.overlay_bounds_ext((2, 2), 5, 0), (0, 0, 0, 0, 0, 0));
    assert_eq!(c.overlay_bounds_ext((2, 2), -2, 0), (0, 0, 0, 0, 0, 0));
    assert_eq!(c.overlay_bounds_ext((2, 2), i64::MIN, 0), (0, 0, 0, 0, 0, 0));
    let (bx, by, tx, ty, w, h) = c.overlay_bounds_ext((9, 9), -3, -4);
    assert!(bx + w <= 4 && by + h <= 3 && tx + w <= 9 && ty + h <= 9);
}

#[test]
fn overlay_blends_only_where_the_bottom_shows() {
    let grey = [10, 20, 30, 255];
    let mut bottom = Component::new(picture(2, 2, grey), None, None, None);
    bottom.img.pixels[3] = CLEAR;
    let red = [200, 100, 50, 255];
    bottom.overlay(Component::new(picture(1, 1, red), Some(0), Some(0), None));
    assert_eq!(bottom.img.pixels, vec![red, grey, grey, CLEAR]);
    bottom.overlay(Component::new(picture(1, 1, red), Some(1), Some(1), None));
    assert_eq!(bottom.img.pixels[3], CLEAR);
    bottom.overlay(Component::new(picture(1, 1, [1, 2, 3, 0]), Some(1), Some(0), None));
    assert_eq!(bottom.img.pixels[1], grey);
    bottom.overlay(Component::new(picture(1, 1, [255, 255, 255, 128]), Some(1), Some(0), None));
    assert_ne!(bottom.img.pixels[1], grey);
}

#[test]
fn overlay_far_away_changes_nothing() {
    let grey = [10, 20, 30, 255];
    let mut bottom = Component::new(picture(2, 2, grey), None, None, None);
    bottom.overlay(Component::new(picture(2, 2, FILL), Some(5), Some(-9), None));
    assert_eq!(bottom.img.pixels, vec![grey; 4]);
}

#[test]
fn resizing() {
    let mut c = Component::new(picture(2, 2, [9, 8, 7, 255]), Some(1), Some(2), None);
    c.set_dimensions(2, 2);
    assert_eq!(c.img.pixels, vec![[9, 8, 7, 255]; 4]);
    c.set_dimensions(4, 3);
    assert_eq!((c.img.width, c.img.height), (4, 3));
    assert_eq!(c.img.pixels.len(), 12);
    assert_eq!((c.x, c.y), (1, 2));
}

#[test]
fn compositions_lay_components_in_order() {
    let grey = [10, 20, 30, 255];
    let mut img = BSImage::new(None, None, picture(3, 2, grey), Some("Prebattle".to_string()));
    assert_eq!((img.width, img.height), (3, 2));
    assert_eq!(img.name, "Prebattle");
    img.add_overlay(Component::new(picture(1, 1, FILL), Some(1), Some(0), None));
    img.add_overlay(Component::new(picture(1, 1, [0, 255, 0, 255]), Some(2), Some(1), None));
    let out = img.build();
    assert_eq!(out.pixels, vec![grey, FILL, grey, grey, grey, [0, 255, 0, 255]]);
    assert_eq!(img.bg.pixels, out.pixels);
    let sized = BSImage::new(Some(10), Some(20), picture(1, 1, grey), None);
    assert_eq!((sized.width, sized.height, sized.name.as_str()), (10, 20, "untitled"));
    let half = BSImage::new(Some(10), None, picture(1, 1, grey), None);
    assert_eq!((half.width, half.height), (1, 1));
}

#[test]
fn plain_rectangles() {
    let p = draw_rec(3, 2, 0xAA336699);
    assert_eq!((p.width, p.height), (3, 2));
    assert_eq!(p.pixels, vec![[0xAA, 0x33, 0x66, 0x99]; 6]);
    assert_eq!(draw_rec(0, 5, 1).pixels.len(), 0);
}

#[test]
fn fallback_icons() {
    assert_eq!(fallback_icon("https://cdn/profile/1.png"), IconKind::Player);
    assert_eq!(fallback_icon("https://cdn/event-icons/1.png"), IconKind::Mode);
    assert_eq!(fallback_icon("https://cdn/event/profile.png"), IconKind::Player);
    assert_eq!(fallback_icon("https://example.com/image.jpg"), IconKind::Mode);
    let other = CustomImage::new("https://example.com/image.jpg".to_string(), Some(200), Some(150));
    assert_eq!(
        other.default_icon(),
        "https://pbs.twimg.com/media/F2_Uy9rXgAAXXnP?format=png&name=360x360"
    );
}
