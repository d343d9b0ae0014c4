//! The per-image pipeline: decode to RGB, compute the target geometry,
//! resample when the source exceeds the bound, and re-encode as a baseline
//! JPEG with the source's metadata segments carried through. Every stage's
//! failure is classified; no stage panics.

use vstd::prelude::*;

use crate::codec::{decode_rgb_bytes, decoded_rgb, lanczos_rgb, resize_rgb_bytes};
use crate::encode::{encode_jpeg, encode_reject, mozjpeg_rgb, EncodeError};
use crate::geometry::{fits, spec_target_dims, target_dims};
use crate::metadata::{extract_app_segments, segments_view, spec_app_segments};

verus! {

/// The fixed re-encoding quality of this pipeline.
pub const JPEG_QUALITY: u8 = 70;

/// Why processing one image failed, by pipeline stage.
#[derive(Debug)]
pub enum ProcessError {
    /// The byte stream is not a valid image; carries the decoder's own text.
    Decode { detail: String },
    /// The decoder's pixel buffer does not hold exactly width * height * 3
    /// bytes.
    DecodeBuffer,
    /// A source or computed target dimension is zero.
    Dimension,
    /// The encoder rejected its input or failed internally.
    Encode { inner: EncodeError },
}

impl ProcessError {
    /// The human-readable description of this error.
    pub open spec fn spec_describe(&self) -> Seq<char> {
        match self {
            ProcessError::Decode { detail } => detail@,
            ProcessError::DecodeBuffer => "decoded pixel buffer length mismatch"@,
            ProcessError::Dimension => "computed target size is zero"@,
            ProcessError::Encode { inner } => inner.spec_describe(),
        }
    }

    /// Renders the error as text for per-file reporting.
    pub fn describe(&self) -> (r: String)
        ensures
            r@ == self.spec_describe(),
    {
        match self {
            ProcessError::Decode { detail } => detail.clone(),
            ProcessError::DecodeBuffer => String::from_str("decoded pixel buffer length mismatch"),
            ProcessError::Dimension => String::from_str("computed target size is zero"),
            ProcessError::Encode { inner } => inner.describe(),
        }
    }
}

/// The bytes decode as an image.
pub open spec fn stage_decoded(bytes: Seq<u8>) -> bool {
    decoded_rgb(bytes) is Some
}

/// The decoded pixel buffer holds exactly width * height * 3 bytes.
pub open spec fn stage_buffer(bytes: Seq<u8>) -> bool {
    &&& stage_decoded(bytes)
    &&& {
        let (w, h, px) = decoded_rgb(bytes)->Some_0;
        px.len() == 3 * w * h
    }
}

/// The source dimensions and the computed target dimensions are all non-zero.
pub open spec fn stage_dims(bytes: Seq<u8>, bound: nat) -> bool {
    &&& stage_buffer(bytes)
    &&& {
        let (w, h, px) = decoded_rgb(bytes)->Some_0;
        &&& w >= 1
        &&& h >= 1
        &&& {
            let (nw, nh) = spec_target_dims(w, h, bound);
            nw >= 1 && nh >= 1
        }
    }
}

/// The buffer handed to the encoder, with its dimensions: the decoded pixels
/// unchanged under the pass-through policy, the Lanczos-resampled pixels
/// otherwise.
pub open spec fn encoder_input(bytes: Seq<u8>, bound: nat) -> (Seq<u8>, nat, nat)
    recommends
        stage_dims(bytes, bound),
{
    let (w, h, px) = decoded_rgb(bytes)->Some_0;
    let (nw, nh) = spec_target_dims(w, h, bound);
    if fits(w, h, bound) {
        (px, w, h)
    } else {
        (lanczos_rgb(px, w, h, nw, nh), nw, nh)
    }
}

/// Everything the encoder checks holds of what the pipeline hands it: the
/// target dimensions are non-zero and within the codec's ceiling, the buffer
/// has exactly the right length, and the carried segments fit their markers.
/// Past this point only the compressor's own failure can stop the image.
pub open spec fn stage_ready(bytes: Seq<u8>, bound: nat) -> bool {
    &&& stage_dims(bytes, bound)
    &&& {
        let (buf, nw, nh) = encoder_input(bytes, bound);
        encode_reject(buf, nw, nh, spec_app_segments(bytes), JPEG_QUALITY as nat) is None
    }
}

/// The JPEG body the pipeline produces for these bytes: the named compressor
/// output for the encoder's input buffer, the target dimensions, the source's
/// application segments and the fixed quality; `None` when the compressor
/// fails.
pub open spec fn spec_encoded_output(bytes: Seq<u8>, bound: nat) -> Option<Seq<u8>>
    recommends
        stage_ready(bytes, bound),
{
    let (buf, nw, nh) = encoder_input(bytes, bound);
    mozjpeg_rgb(buf, nw, nh, spec_app_segments(bytes), JPEG_QUALITY as nat)
}

/// The output dimensions the pipeline produces for these bytes.
pub open spec fn spec_output_dims(bytes: Seq<u8>, bound: nat) -> (nat, nat)
    recommends
        stage_decoded(bytes),
{
    let (w, h, px) = decoded_rgb(bytes)->Some_0;
    spec_target_dims(w, h, bound)
}

/// Law: the pass-through round trip. When the decoded image already fits
/// within the bound, the pipeline hands the encoder the decoded pixels and
/// the source dimensions unchanged: width and height are preserved exactly,
/// with no resampling.
pub proof fn lemma_pass_through_preserves_dims(bytes: Seq<u8>, bound: nat)
    requires
        bound >= 1,
        stage_decoded(bytes),
        ({
            let (w, h, px) = decoded_rgb(bytes)->Some_0;
            fits(w, h, bound)
        }),
    ensures
        ({
            let (w, h, px) = decoded_rgb(bytes)->Some_0;
            &&& spec_output_dims(bytes, bound) == (w, h)
            &&& encoder_input(bytes, bound) == (px, w, h)
        }),
{
}

/// A successfully processed image: the complete JPEG body and its dimensions.
pub struct ProcessedImage {
    pub jpeg: Vec<u8>,
    pub width: u32,
    pub height: u32,
}

/// Processes one image held in memory: decode, check the buffer, compute the
/// target geometry, resample if the source exceeds the bound, and re-encode
/// at the fixed quality with the source's application metadata segments
/// carried through. The result classifies every failure by stage; the only
/// failure possible on fully checked input is the compressor's own.
pub fn process_image(bytes: &Vec<u8>, bound: u32) -> (r: Result<ProcessedImage, ProcessError>)
    requires
        bound >= 1,
    ensures
        (r matches Err(e) && e is Decode) <==> !stage_decoded(bytes@),
        (r matches Err(e) && e is DecodeBuffer) <==> (stage_decoded(bytes@) && !stage_buffer(
            bytes@,
        )),
        (r matches Err(e) && e is Dimension) <==> (stage_buffer(bytes@) && !stage_dims(
            bytes@,
            bound as nat,
        )),
        (stage_dims(bytes@, bound as nat) && !stage_ready(bytes@, bound as nat)) ==> ({
            let (buf, nw, nh) = encoder_input(bytes@, bound as nat);
            r == Err::<ProcessedImage, ProcessError>(
                ProcessError::Encode {
                    inner: encode_reject(
                        buf,
                        nw,
                        nh,
                        spec_app_segments(bytes@),
                        JPEG_QUALITY as nat,
                    )->Some_0,
                },
            )
        }),
        stage_ready(bytes@, bound as nat) ==> (r is Ok <==> spec_encoded_output(
            bytes@,
            bound as nat,
        ) is Some),
        (stage_ready(bytes@, bound as nat) && spec_encoded_output(bytes@, bound as nat) is None)
            ==> r == Err::<ProcessedImage, ProcessError>(
            ProcessError::Encode { inner: EncodeError::EncoderFailure },
        ),
        (r matches Ok(p) ==> {
            &&& stage_ready(bytes@, bound as nat)
            &&& Some(p.jpeg@) == spec_encoded_output(bytes@, bound as nat)
            &&& (p.width as nat, p.height as nat) == spec_output_dims(bytes@, bound as nat)
        }),
{
    let (w, h, pixels) = match decode_rgb_bytes(bytes) {
        Ok(t) => t,
        Err(detail) => return Err(ProcessError::Decode { detail }),
    };
    proof {
        assert(3 * (w as nat) * (h as nat) <= 3 * 0xffff_ffff * 0xffff_ffff) by (nonlinear_arith)
            requires
                w as nat <= 0xffff_ffff,
                h as nat <= 0xffff_ffff,
        ;
    }
    let expected: u128 = 3u128 * (w as u128) * (h as u128);
    let plen: usize = pixels.len();
    if (plen as u128) != expected {
        return Err(ProcessError::DecodeBuffer);
    }
    if w == 0 || h == 0 {
        return Err(ProcessError::Dimension);
    }
    let dims = target_dims(w, h, bound);
    let nw = dims.0;
    let nh = dims.1;
    if nw == 0 || nh == 0 {
        return Err(ProcessError::Dimension);
    }
    let segments = extract_app_segments(bytes);
    let encoded = if w <= bound && h <= bound {
        encode_jpeg(&pixels, w, h, &segments, JPEG_QUALITY)
    } else {
        let resized = resize_rgb_bytes(&pixels, w, h, nw, nh);
        encode_jpeg(&resized, nw, nh, &segments, JPEG_QUALITY)
    };
    match encoded {
        Ok(jpeg) => Ok(ProcessedImage { jpeg, width: nw, height: nh }),
        Err(inner) => Err(ProcessError::Encode { inner }),
    }
}

} // verus!

