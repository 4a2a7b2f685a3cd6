//! The embedding model's input: a thumbnail decoded, resized to
//! `THUMB_SIZE`×`THUMB_SIZE` and laid out channel first (batch 1, then the
//! red, green and blue planes, each row by row). The model reads each byte
//! `v` as `v / 127.5 - 1`.
use vstd::prelude::*;

use crate::THUMB_SIZE;

verus! {

/// A thumbnail that could not be decoded.
#[derive(Debug, Clone, Copy, PartialEq, Eq, Structural)]
pub enum DecodeError {
    Malformed,
}

/// The pixels of an encoded image, resized to `size`×`size` with a triangle
/// filter, as packed RGB. The JPEG decoder is built platform independent, so
/// the pixels do not depend on the processor's instruction set.
pub uninterp spec fn decoded_of(encoded: Seq<u8>, size: u32) -> Seq<u8>;

/// Packed RGB pixels (`n` of them) rearranged into three planes: byte
/// `c * n + p` is channel `c` of pixel `p`.
pub open spec fn channel_first(rgb: Seq<u8>, n: int) -> Seq<u8> {
    Seq::new((3 * n) as nat, |k: int| rgb[3 * (k % n) + k / n])
}

/// Relies on `image::load_from_memory` (through `jpeg-decoder` with its
/// `platform_independent` feature), `DynamicImage::resize_exact` with the
/// triangle filter and `DynamicImage::to_rgb8`: the result depends on the
/// bytes and the size alone, and the resized image is exactly
/// `size`×`size`, three bytes per pixel.
#[verifier::external_body]
fn decode_resized(encoded: &Vec<u8>, size: u32) -> (r: Option<Vec<u8>>)
    requires
        3 * size * size <= usize::MAX,
    ensures
        r is Some ==> r->Some_0@ == decoded_of(encoded@, size),
        r is Some ==> r->Some_0@.len() == 3 * size * size,
{
    let img = image::load_from_memory(encoded).ok()?;
    Some(img.resize_exact(size, size, image::imageops::FilterType::Triangle).to_rgb8().into_raw())
}

/// Rearranges `n` packed RGB pixels into three channel planes.
pub fn to_channel_first(rgb: &Vec<u8>, n: usize) -> (r: Vec<u8>)
    requires
        rgb@.len() == 3 * n,
    ensures
        r@ == channel_first(rgb@, n as int),
{
    let total: usize = rgb.len();
    let mut r: Vec<u8> = Vec::new();
    let mut c: usize = 0;
    while c < 3
        invariant
            c <= 3,
            rgb@.len() == 3 * n,
            rgb@.len() == total,
            r@.len() == c * n,
            forall|k: int| 0 <= k < c * n ==> r@[k] == rgb@[3 * (k % (n as int)) + k / (n as int)],
        decreases 3 - c,
    {
        let mut p: usize = 0;
        while p < n
            invariant
                c < 3,
                p <= n,
                rgb@.len() == 3 * n,
                rgb@.len() == total,
                r@.len() == c * n + p,
                forall|k: int| 0 <= k < c * n + p ==> r@[k] == rgb@[3 * (k % (n as int)) + k / (n as int)],
            decreases n - p,
        {
            r.push(rgb[3 * p + c]);
            proof {
                vstd::arithmetic::div_mod::lemma_fundamental_div_mod_converse(
                    (c * n + p) as int,
                    n as int,
                    c as int,
                    p as int,
                );
            }
            p += 1;
        }
        assert((c + 1) * n == c * n + n) by (nonlinear_arith);
        c += 1;
    }
    assert(r@ =~= channel_first(rgb@, n as int));
    r
}

/// Whether `b` opens with a JPEG start-of-image marker and segment marker.
pub open spec fn has_jpeg_marker(b: Seq<u8>) -> bool {
    b.len() >= 3 && b[0] == 0xff && b[1] == 0xd8 && b[2] == 0xff
}

/// Decodes a thumbnail into the model's input layout. Bytes that do not
/// open as a JPEG are refused before any decoding.
pub fn model_input(thumbnail: &Vec<u8>) -> (r: Result<Vec<u8>, DecodeError>)
    ensures
        !has_jpeg_marker(thumbnail@) ==> r == Err::<Vec<u8>, DecodeError>(DecodeError::Malformed),
        r is Ok ==> r->Ok_0@ == channel_first(
            decoded_of(thumbnail@, THUMB_SIZE),
            THUMB_SIZE * THUMB_SIZE,
        ),
        r is Ok ==> r->Ok_0@.len() == 3 * THUMB_SIZE * THUMB_SIZE,
{
    if thumbnail.len() < 3 || thumbnail[0] != 0xff || thumbnail[1] != 0xd8 || thumbnail[2] != 0xff {
        return Err(DecodeError::Malformed);
    }
    match decode_resized(thumbnail, THUMB_SIZE) {
        Some(rgb) => {
            let n: usize = (THUMB_SIZE as usize) * (THUMB_SIZE as usize);
            Ok(to_channel_first(&rgb, n))
        },
        None => Err(DecodeError::Malformed),
    }
}

} // verus!
