//! Decoder and resampler adapters. Decoding and Lanczos resampling are done
//! by the `image` crate; each call is wrapped in a trusted function whose
//! contract names the result, since both are pure functions of their
//! arguments that no short specification could state.

use vstd::prelude::*;

verus! {

/// The RGB decoding of a byte stream: `None` when the bytes are not a valid
/// image, otherwise the width, height and row-major RGB pixel bytes that the
/// decoder produces. The result depends on the input bytes alone.
pub uninterp spec fn decoded_rgb(bytes: Seq<u8>) -> Option<(nat, nat, Seq<u8>)>;

/// The Lanczos-resampled RGB pixel bytes for a source buffer of `w` by `h`
/// scaled to `nw` by `nh`. The result depends on the arguments alone.
pub uninterp spec fn lanczos_rgb(pixels: Seq<u8>, w: nat, h: nat, nw: nat, nh: nat) -> Seq<u8>;

/// Relies on `image::load_from_memory` to decode the byte stream (returning
/// an error exactly when the bytes are not a valid image) and on
/// `image::DynamicImage::to_rgb8` to convert the decoded frame to 8-bit
/// row-major RGB triples. Both are deterministic in the input bytes, so the
/// result is named by `decoded_rgb`.
#[verifier::external_body]
pub(crate) fn decode_rgb_bytes(bytes: &Vec<u8>) -> (r: Result<(u32, u32, Vec<u8>), String>)
    ensures
        r is Ok <==> decoded_rgb(bytes@) is Some,
        (r matches Ok(t) ==> decoded_rgb(bytes@) == Some((t.0 as nat, t.1 as nat, t.2@))),
{
    match image::load_from_memory(bytes.as_slice()) {
        Ok(img) => {
            let rgb = img.to_rgb8();
            let w = rgb.width();
            let h = rgb.height();
            Ok((w, h, rgb.into_raw()))
        }
        Err(e) => Err(e.to_string()),
    }
}

/// Relies on `image::imageops::resize` with the Lanczos3 windowed-sinc filter
/// to resample an RGB buffer to exactly `nw` by `nh` — the returned image
/// buffer holds exactly `3 * nw * nh` bytes — and on
/// `image::RgbImage::from_raw`, which is documented to return `Some` whenever
/// the container holds at least `3 * w * h` bytes. Resampling is
/// deterministic in its arguments, so the result is named by `lanczos_rgb`.
#[verifier::external_body]
pub(crate) fn resize_rgb_bytes(pixels: &Vec<u8>, w: u32, h: u32, nw: u32, nh: u32) -> (r: Vec<u8>)
    requires
        pixels@.len() == 3 * (w as nat) * (h as nat),
        w >= 1,
        h >= 1,
        nw >= 1,
        nh >= 1,
    ensures
        r@ == lanczos_rgb(pixels@, w as nat, h as nat, nw as nat, nh as nat),
        r@.len() == 3 * (nw as nat) * (nh as nat),
{
    let img: image::RgbImage = image::RgbImage::from_raw(w, h, pixels.clone()).unwrap();
    image::imageops::resize(&img, nw, nh, image::imageops::FilterType::Lanczos3).into_raw()
}

} // verus!
