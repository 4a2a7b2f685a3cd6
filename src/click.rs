//! The part of a click record that the library computes from a captured
//! frame: the pixel window around the cursor and the thumbnail to embed.
use vstd::prelude::*;

use crate::frame::{
    bgra_to_rgb, crop_origin, crop_window, encode_thumbnail, frame_matches, frame_ok, rgb_of,
    lemma_rgb_len,
    clamp_spec, crop_spec, thumbnail_of, CaptureError,
};
use crate::{CROP_SIZE, JPEG_QUALITY, THUMB_SIZE};

verus! {

/// What a click leaves once the frame has been captured: where it was, the
/// frame's size (the click's fractions are `x / width` and `y / height`),
/// the RGB window around it, and the thumbnail to embed.
pub struct ClickCapture {
    pub x: i32,
    pub y: i32,
    pub width: u32,
    pub height: u32,
    /// Top-left corner of the cropped window.
    pub gx: u32,
    pub gy: u32,
    /// `CROP_SIZE`×`CROP_SIZE` packed RGB pixels, row by row.
    pub grid: Vec<u8>,
    /// JPEG thumbnail of the whole frame.
    pub thumbnail: Vec<u8>,
}

/// Whether a click at (`x`, `y`) lies inside a `w`×`h` frame.
pub open spec fn on_screen(x: i32, y: i32, w: u32, h: u32) -> bool {
    0 <= x < w && 0 <= y < h
}

/// The error that `prepare_click` owes on a frame and a click, if any.
pub open spec fn click_error(x: i32, y: i32, w: u32, h: u32, bgra: Seq<u8>) -> Option<CaptureError> {
    if !frame_ok(w, h, bgra) {
        Some(CaptureError::MalformedFrame)
    } else if w < CROP_SIZE || h < CROP_SIZE {
        Some(CaptureError::FrameTooSmall)
    } else if !on_screen(x, y, w, h) {
        Some(CaptureError::OffScreen)
    } else {
        None
    }
}

/// Turns a `w`×`h` BGRA frame captured for a click at (`x`, `y`) into the
/// click's pixel window and thumbnail.
pub fn prepare_click(x: i32, y: i32, w: u32, h: u32, bgra: &Vec<u8>) -> (r: Result<
    ClickCapture,
    CaptureError,
>)
    ensures
        click_error(x, y, w, h, bgra@) is Some ==> r is Err && r->Err_0 == click_error(
            x,
            y,
            w,
            h,
            bgra@,
        )->Some_0,
        click_error(x, y, w, h, bgra@) is None ==> r is Ok,
        r is Ok ==> ({
            let c = r->Ok_0;
            let rgb = rgb_of(bgra@);
            &&& c.x == x && c.y == y && c.width == w && c.height == h
            &&& c.gx as int == clamp_spec(x - CROP_SIZE / 2, 0, w - CROP_SIZE)
            &&& c.gy as int == clamp_spec(y - CROP_SIZE / 2, 0, h - CROP_SIZE)
            &&& c.grid@ == crop_spec(
                rgb,
                w as int,
                c.gx as int,
                c.gy as int,
                CROP_SIZE as int,
                CROP_SIZE as int,
            )
            &&& c.thumbnail@ == thumbnail_of(w, h, rgb, THUMB_SIZE, JPEG_QUALITY)
        }),
{
    if !frame_matches(w, h, bgra) {
        return Err(CaptureError::MalformedFrame);
    }
    if w < CROP_SIZE || h < CROP_SIZE {
        return Err(CaptureError::FrameTooSmall);
    }
    if x < 0 || y < 0 || x as u32 >= w || y as u32 >= h {
        return Err(CaptureError::OffScreen);
    }
    let rgb = bgra_to_rgb(bgra);
    proof {
        lemma_rgb_len(w, h, bgra@);
    }
    let gx = crop_origin(x, w, CROP_SIZE);
    let gy = crop_origin(y, h, CROP_SIZE);
    let grid = match crop_window(&rgb, w, h, x, y, CROP_SIZE, CROP_SIZE) {
        Some(g) => g,
        None => {
            return Err(CaptureError::MalformedFrame);
        },
    };
    let thumbnail = match encode_thumbnail(&rgb, w, h, THUMB_SIZE, JPEG_QUALITY) {
        Some(t) => t,
        None => {
            return Err(CaptureError::MalformedFrame);
        },
    };
    Ok(ClickCapture { x, y, width: w, height: h, gx, gy, grid, thumbnail })
}

} // verus!
