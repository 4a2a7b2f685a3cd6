//! Screen frames: colour conversion, the pixel window around a click, and the
//! JPEG thumbnail that the embedding model reads.
use vstd::prelude::*;

use crate::{JPEG_QUALITY, THUMB_SIZE};

verus! {

/// Why a captured frame could not be turned into a record.
#[derive(Debug, Clone, Copy, PartialEq, Eq, Structural)]
pub enum CaptureError {
    /// The buffer does not hold exactly four bytes for each of the frame's
    /// pixels, or the frame has no pixels.
    MalformedFrame,
    /// The frame is narrower or lower than the window cropped around a click.
    FrameTooSmall,
    /// The click lies outside the frame.
    OffScreen,
}

/// The thumbnail of an RGB frame: resized to `size`×`size` with a triangle
/// filter and encoded as JPEG at `quality`.
pub uninterp spec fn thumbnail_of(w: u32, h: u32, rgb: Seq<u8>, size: u32, quality: u8) -> Seq<u8>;

/// Packed RGB from BGRA pixels: channels 2, 1, 0 of each four-byte pixel.
pub open spec fn rgb_of(bgra: Seq<u8>) -> Seq<u8> {
    Seq::new(3 * (bgra.len() / 4), |k: int| bgra[4 * (k / 3) + 2 - k % 3])
}

pub open spec fn clamp_spec(v: int, lo: int, hi: int) -> int {
    if v < lo {
        lo
    } else if v > hi {
        hi
    } else {
        v
    }
}

/// The `cw`×`ch` window with top-left corner (`x`, `y`) of a packed RGB frame
/// `w` pixels wide, row by row.
pub open spec fn crop_spec(rgb: Seq<u8>, w: int, x: int, y: int, cw: int, ch: int) -> Seq<u8> {
    Seq::new(
        (3 * cw * ch) as nat,
        |k: int| rgb[3 * ((y + (k / 3) / cw) * w + x + (k / 3) % cw) + k % 3],
    )
}

/// Whether `bgra` holds a frame of `w`×`h` four-byte pixels, with at least
/// one pixel.
pub open spec fn frame_ok(w: u32, h: u32, bgra: Seq<u8>) -> bool {
    w > 0 && h > 0 && bgra.len() == 4 * w * h
}

/// Relies on `image::RgbImage::from_raw` and `image::imageops::crop_imm`: the
/// crop of an in-bounds window copies its pixels row by row; `from_raw`
/// refuses a buffer shorter than three bytes per pixel.
#[verifier::external_body]
fn crop_rgb(rgb: &Vec<u8>, w: u32, h: u32, x: u32, y: u32, cw: u32, ch: u32) -> (r: Option<Vec<u8>>)
    requires
        x + cw <= w,
        y + ch <= h,
    ensures
        r is Some <==> 3 * w * h <= rgb@.len(),
        r is Some ==> r->Some_0@ == crop_spec(rgb@, w as int, x as int, y as int, cw as int, ch as int),
{
    let img = image::RgbImage::from_raw(w, h, rgb.clone())?;
    Some(image::imageops::crop_imm(&img, x, y, cw, ch).to_image().into_raw())
}

/// Relies on `image::RgbImage::from_raw`, `DynamicImage::resize_exact` with
/// the triangle filter and `DynamicImage::write_to` in JPEG: the encoding
/// depends on its arguments alone; `from_raw` accepts a buffer of at least
/// three bytes per pixel, and the encoder, writing to memory, fails only on
/// a side over `u16::MAX`.
#[verifier::external_body]
pub(crate) fn encode_thumbnail(rgb: &Vec<u8>, w: u32, h: u32, size: u32, quality: u8) -> (r: Option<Vec<u8>>)
    requires
        w > 0,
        h > 0,
        0 < size <= u16::MAX,
    ensures
        r is Some <==> 3 * w * h <= rgb@.len(),
        r is Some ==> r->Some_0@ == thumbnail_of(w, h, rgb@, size, quality),
{
    let img = image::DynamicImage::ImageRgb8(image::RgbImage::from_raw(w, h, rgb.clone())?);
    let small = img.resize_exact(size, size, image::imageops::FilterType::Triangle);
    let mut cur = std::io::Cursor::new(Vec::new());
    small.write_to(&mut cur, image::ImageOutputFormat::Jpeg(quality)).ok()?;
    Some(cur.into_inner())
}

/// Converts BGRA pixels to packed RGB; trailing bytes short of a pixel are
/// dropped.
pub fn bgra_to_rgb(bgra: &Vec<u8>) -> (r: Vec<u8>)
    ensures
        r@ == rgb_of(bgra@),
{
    let n = bgra.len() / 4;
    let mut r: Vec<u8> = Vec::new();
    let mut p: usize = 0;
    while p < n
        invariant
            p <= n,
            n == bgra@.len() / 4,
            bgra@.len() <= usize::MAX,
            r@.len() == 3 * p,
            forall|k: int| 0 <= k < 3 * p ==> r@[k] == bgra@[4 * (k / 3) + 2 - k % 3],
        decreases n - p,
    {
        assert(4 * p + 3 < bgra@.len()) by (nonlinear_arith)
            requires
                p < n,
                n == bgra@.len() / 4,
        ;
        r.push(bgra[4 * p + 2]);
        r.push(bgra[4 * p + 1]);
        r.push(bgra[4 * p]);
        assert forall|k: int| 3 * p <= k < 3 * p + 3 implies r@[k] == bgra@[4 * (k / 3) + 2 - k
            % 3] by {
            assert(k / 3 == p as int);
        }
        p += 1;
    }
    assert(r@ =~= rgb_of(bgra@));
    r
}

/// The start, along one axis, of a window of `win` pixels around `c`, moved
/// so that the window lies inside `[0, extent)`.
pub fn crop_origin(c: i32, extent: u32, win: u32) -> (r: u32)
    requires
        win <= extent,
    ensures
        r as int == clamp_spec(c - win / 2, 0, extent - win),
        r + win <= extent,
{
    let start: i64 = c as i64 - (win / 2) as i64;
    let hi: i64 = (extent - win) as i64;
    if start < 0 {
        0
    } else if start > hi {
        (extent - win)
    } else {
        start as u32
    }
}

/// The `win_w`×`win_h` window of a `w`×`h` packed RGB frame centred on
/// (`cx`, `cy`) as nearly as the frame allows: its corner is clamped so that
/// the window lies wholly inside. `None` when `rgb` is shorter than the
/// frame.
pub fn crop_window(rgb: &Vec<u8>, w: u32, h: u32, cx: i32, cy: i32, win_w: u32, win_h: u32) -> (r:
    Option<Vec<u8>>)
    requires
        win_w <= w,
        win_h <= h,
    ensures
        r is Some <==> 3 * w * h <= rgb@.len(),
        r is Some ==> r->Some_0@ == crop_spec(
            rgb@,
            w as int,
            clamp_spec(cx - win_w / 2, 0, w - win_w),
            clamp_spec(cy - win_h / 2, 0, h - win_h),
            win_w as int,
            win_h as int,
        ),
{
    let gx = crop_origin(cx, w, win_w);
    let gy = crop_origin(cy, h, win_h);
    crop_rgb(rgb, w, h, gx, gy, win_w, win_h)
}

/// JPEG thumbnail of a `w`×`h` BGRA frame, as the embedding model reads it.
pub fn frame_thumbnail(w: u32, h: u32, bgra: &Vec<u8>) -> (r: Result<Vec<u8>, CaptureError>)
    ensures
        r is Ok <==> frame_ok(w, h, bgra@),
        r is Ok ==> r->Ok_0@ == thumbnail_of(w, h, rgb_of(bgra@), THUMB_SIZE, JPEG_QUALITY),
        r is Err ==> r->Err_0 == CaptureError::MalformedFrame,
{
    if !frame_matches(w, h, bgra) {
        return Err(CaptureError::MalformedFrame);
    }
    let rgb = bgra_to_rgb(bgra);
    proof {
        lemma_rgb_len(w, h, bgra@);
    }
    match encode_thumbnail(&rgb, w, h, THUMB_SIZE, JPEG_QUALITY) {
        Some(t) => Ok(t),
        None => Err(CaptureError::MalformedFrame),
    }
}

/// The RGB form of a well-formed frame holds three bytes per pixel.
pub proof fn lemma_rgb_len(w: u32, h: u32, bgra: Seq<u8>)
    requires
        frame_ok(w, h, bgra),
    ensures
        rgb_of(bgra).len() == 3 * w * h,
{
    assert(4 * w * h == (w * h) * 4) by (nonlinear_arith);
    vstd::arithmetic::div_mod::lemma_fundamental_div_mod_converse(
        bgra.len() as int,
        4,
        w * h,
        0,
    );
    assert(3 * (w * h) == 3 * w * h) by (nonlinear_arith);
}

pub(crate) fn frame_matches(w: u32, h: u32, bgra: &Vec<u8>) -> (r: bool)
    ensures
        r == frame_ok(w, h, bgra@),
{
    if w == 0 || h == 0 {
        return false;
    }
    if bgra.len() % 4 != 0 {
        proof {
            vstd::arithmetic::div_mod::lemma_mod_multiples_basic(w * h, 4);
            assert(4 * w * h == (w * h) * 4) by (nonlinear_arith);
        }
        return false;
    }
    assert((w as int) * (h as int) <= u64::MAX) by (nonlinear_arith)
        requires
            w <= u32::MAX,
            h <= u32::MAX,
    ;
    let px = (w as u64) * (h as u64);
    assert(4 * w * h == 4 * (w * h)) by (nonlinear_arith);
    (bgra.len() / 4) as u64 == px
}

} // verus!
