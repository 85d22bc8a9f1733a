use crate::visual::component::{resize_exact_pixels, Picture};
use crate::visual::model::CustomImage;
use base64::Engine;
use vstd::prelude::*;
use vstd::utf8::{decode_utf8, encode_utf8, valid_utf8};

verus! {

broadcast use {vstd::utf8::encode_utf8_decode_utf8, vstd::utf8::encode_utf8_valid_utf8};

/// Whether `image::load_from_memory` reads `bytes` as a picture, and if so its width and
/// height.
pub uninterp spec fn decoded_size(bytes: Seq<u8>) -> Option<(u32, u32)>;

/// What the standard base64 engine decodes `text` to; nothing where it is no base64.
pub uninterp spec fn base64_decoded(text: Seq<char>) -> Option<Seq<u8>>;

/// Whether `c` has the Unicode `White_Space` property, as `char::is_whitespace` tests.
pub open spec fn is_white_space(c: char) -> bool {
    ||| '\u{9}' <= c <= '\u{d}'
    ||| c == ' '
    ||| c == '\u{85}'
    ||| c == '\u{a0}'
    ||| c == '\u{1680}'
    ||| '\u{2000}' <= c <= '\u{200a}'
    ||| c == '\u{2028}'
    ||| c == '\u{2029}'
    ||| c == '\u{202f}'
    ||| c == '\u{205f}'
    ||| c == '\u{3000}'
}

/// `text` without the white space at its end.
pub open spec fn trim_end_chars(text: Seq<char>) -> Seq<char>
    decreases text.len(),
{
    if text.len() > 0 && is_white_space(text.last()) {
        trim_end_chars(text.drop_last())
    } else {
        text
    }
}

/// `image::load_from_memory`, then `to_rgba8`. Claimed: whether the bytes are read, and
/// the size of the picture read, depend on the bytes alone, and the picture holds
/// width × height pixels. What the pixels hold is left unsaid: for JPEG the decoder picks
/// a SIMD colour conversion by the CPU it runs on, which may round otherwise than the
/// plain one.
#[verifier::external_body]
pub(crate) fn decode_picture(bytes: &[u8]) -> (r: Option<Picture>)
    ensures
        match r {
            Some(p) => decoded_size(bytes@) == Some((p.width, p.height)) && p.wf(),
            None => decoded_size(bytes@) is None,
        },
{
    let img = image::load_from_memory(bytes).ok()?.to_rgba8();
    Some(Picture { width: img.width(), height: img.height(), pixels: img.pixels().map(|p| p.0).collect() })
}

/// The picture held in `bytes` (PNG, JPEG, WebP or GIF), as `image::load_from_memory` reads it.
pub fn picture_from_bytes(bytes: &[u8]) -> (r: Option<Picture>)
    ensures
        match r {
            Some(p) => decoded_size(bytes@) == Some((p.width, p.height)) && p.wf(),
            None => decoded_size(bytes@) is None,
        },
{
    decode_picture(bytes)
}

/// `std::str::from_utf8`, owned: the text the bytes encode, where they are UTF-8.
#[verifier::external_body]
fn text_of(bytes: &[u8]) -> (r: Option<String>)
    ensures
        match r {
            Some(t) => encode_utf8(t@) == bytes@,
            None => !valid_utf8(bytes@),
        },
{
    std::str::from_utf8(bytes).ok().map(|t| t.to_string())
}

/// `str::trim_end`: the text without the white space at its end.
#[verifier::external_body]
fn trim_end(text: &str) -> (r: &str)
    ensures
        r@ == trim_end_chars(text@),
{
    text.trim_end()
}

/// `base64::engine::general_purpose::STANDARD.decode`. Claimed: the result depends on
/// the text alone.
#[verifier::external_body]
fn base64_decode(text: &str) -> (r: Option<Vec<u8>>)
    ensures
        match r {
            Some(b) => base64_decoded(text@) == Some(b@),
            None => base64_decoded(text@) is None,
        },
{
    base64::engine::general_purpose::STANDARD.decode(text).ok()
}

/// Why the text renderer's answer gave no picture.
#[derive(Debug, Clone, Copy, PartialEq, Eq, Structural)]
pub enum TextError {
    /// The answer is not UTF-8 text.
    NotText,
    /// The answer is shorter than 100 bytes: the renderer failed.
    TooShort,
    /// The answer is not base64.
    BadBase64,
    /// The decoded bytes are no picture.
    BadImage,
}

/// What the text renderer's answer `out` gives: an error where it is no UTF-8 or shorter
/// than 100 bytes; otherwise the size of the picture its trimmed base64 text holds.
pub open spec fn text_output(out: Seq<u8>) -> Result<(u32, u32), TextError> {
    if !valid_utf8(out) {
        Err(TextError::NotText)
    } else if out.len() < 100 {
        Err(TextError::TooShort)
    } else {
        match base64_decoded(trim_end_chars(decode_utf8(out))) {
            None => Err(TextError::BadBase64),
            Some(b) => match decoded_size(b) {
                None => Err(TextError::BadImage),
                Some(size) => Ok(size),
            },
        }
    }
}

/// Reads the picture out of the text renderer's answer (see `text_output`).
pub fn text_picture_from_output(stdout: &[u8]) -> (r: Result<Picture, TextError>)
    ensures
        match r {
            Ok(p) => text_output(stdout@) == Ok::<(u32, u32), TextError>((p.width, p.height)) && p.wf(),
            Err(e) => text_output(stdout@) == Err::<(u32, u32), TextError>(e),
        },
{
    let text = match text_of(stdout) {
        Some(t) => t,
        None => return Err(TextError::NotText),
    };
    if stdout.len() < 100 {
        return Err(TextError::TooShort);
    }
    let bytes = match base64_decode(trim_end(text.as_str())) {
        Some(b) => b,
        None => return Err(TextError::BadBase64),
    };
    match decode_picture(bytes.as_slice()) {
        Some(p) => Ok(p),
        None => Err(TextError::BadImage),
    }
}

/// Makes the picture of a custom image from the fetched bytes: resized with the Lanczos
/// filter where both sides are set, taken as it is otherwise, and then its size is
/// recorded in the custom image; nothing where the bytes are no picture.
pub fn custom_image_from_bytes(custom: &mut CustomImage, bytes: &[u8]) -> (r: Option<Picture>)
    ensures
        final(custom).path == old(custom).path,
        match decoded_size(bytes@) {
            None => r is None && *final(custom) == *old(custom),
            Some((w, h)) => match (old(custom).width, old(custom).height) {
                (Some(nw), Some(nh)) => r matches Some(p) && p.width == nw as u32 && p.height
                    == nh as u32 && p.wf() && *final(custom) == *old(custom),
                _ => r matches Some(p) && p.width == w && p.height == h && p.wf()
                    && final(custom).width == Some(w as i64) && final(custom).height == Some(
                    h as i64,
                ),
            },
        },
{
    let img = match decode_picture(bytes) {
        Some(p) => p,
        None => return None,
    };
    match (custom.width, custom.height) {
        (Some(w), Some(h)) => {
            let pixels = resize_exact_pixels(&img.pixels, img.width, img.height, w as u32, h as u32);
            Some(Picture { width: w as u32, height: h as u32, pixels })
        },
        _ => {
            custom.width = Some(img.width as i64);
            custom.height = Some(img.height as i64);
            Some(img)
        },
    }
}

} // verus!
