//! Encoder adapter: turns an RGB pixel buffer, its dimensions and the carried
//! metadata segments into a complete baseline JPEG byte stream. This module
//! owns the checks that guard the encoder's inputs (non-zero dimensions, the
//! codec's dimension ceiling, quality range, exact buffer length, carriable
//! segments); the mozjpeg compressor behind one trusted call does the
//! entropy coding, and its output — a pure function of the checked inputs
//! under the fixed settings — is named so that callers' contracts can owe
//! success and pin the bytes produced.

use vstd::prelude::*;

use crate::metadata::{pair_wf, pairs_wf, segment_view, segment_wf, segments_view, segments_wf,
    Segment};

verus! {

/// The largest width or height libjpeg accepts (its compile-time dimension
/// ceiling); a larger requested size is rejected before the codec is touched.
pub const MAX_JPEG_DIMENSION: u32 = 65500;

/// Why an encode request was rejected or failed.
#[derive(Clone, Copy, Debug, PartialEq, Eq, Structural)]
pub enum EncodeError {
    /// A requested output dimension is zero.
    ZeroDimension,
    /// A requested output dimension exceeds the codec's ceiling.
    OversizedDimension,
    /// The quality is outside the accepted range of 1 to 100.
    QualityOutOfRange,
    /// The pixel buffer length is not exactly width * height * 3.
    BufferMismatch,
    /// A metadata segment cannot be carried (bad index or oversized payload).
    BadSegment,
    /// The compressor itself reported a failure: a library-level condition,
    /// not a property of the checked input.
    EncoderFailure,
}

impl EncodeError {
    /// The human-readable description of this error.
    pub open spec fn spec_describe(&self) -> Seq<char> {
        match self {
            EncodeError::ZeroDimension => "output dimension is zero"@,
            EncodeError::OversizedDimension => "output dimension exceeds the encoder limit"@,
            EncodeError::QualityOutOfRange => "quality is out of range"@,
            EncodeError::BufferMismatch => "pixel buffer length mismatch"@,
            EncodeError::BadSegment => "metadata segment cannot be carried"@,
            EncodeError::EncoderFailure => "encoder failure"@,
        }
    }

    /// Renders the error as text for per-file reporting.
    pub fn describe(&self) -> (r: String)
        ensures
            r@ == self.spec_describe(),
    {
        match self {
            EncodeError::ZeroDimension => String::from_str("output dimension is zero"),
            EncodeError::OversizedDimension => String::from_str(
                "output dimension exceeds the encoder limit",
            ),
            EncodeError::QualityOutOfRange => String::from_str("quality is out of range"),
            EncodeError::BufferMismatch => String::from_str("pixel buffer length mismatch"),
            EncodeError::BadSegment => String::from_str("metadata segment cannot be carried"),
            EncodeError::EncoderFailure => String::from_str("encoder failure"),
        }
    }
}

/// The check the encoder applies to its inputs, in the order the code tests
/// them: `None` means the inputs are accepted; otherwise the error returned.
pub open spec fn encode_reject(
    pixels: Seq<u8>,
    w: nat,
    h: nat,
    segs: Seq<(u8, Seq<u8>)>,
    quality: nat,
) -> Option<EncodeError> {
    if w == 0 || h == 0 {
        Some(EncodeError::ZeroDimension)
    } else if w > MAX_JPEG_DIMENSION || h > MAX_JPEG_DIMENSION {
        Some(EncodeError::OversizedDimension)
    } else if quality < 1 || quality > 100 {
        Some(EncodeError::QualityOutOfRange)
    } else if pixels.len() != 3 * w * h {
        Some(EncodeError::BufferMismatch)
    } else if !pairs_wf(segs) {
        Some(EncodeError::BadSegment)
    } else {
        None
    }
}

/// The JPEG body that the mozjpeg compressor produces for an RGB buffer under
/// this module's fixed settings (RGB input color space, single-scan layout,
/// the given quality, markers before pixel data, an in-memory destination):
/// `None` when the compressor reports a failure. Every setting is fixed and
/// the destination is a plain memory buffer, so both the outcome and the
/// bytes are functions of the arguments alone, identical across calls,
/// threads and processes.
pub uninterp spec fn mozjpeg_rgb(
    pixels: Seq<u8>,
    w: nat,
    h: nat,
    segs: Seq<(u8, Seq<u8>)>,
    quality: nat,
) -> Option<Seq<u8>>;

/// Relies on mozjpeg's `Compress::new` with the `JCS_RGB` color space,
/// `set_scan_optimization_mode(AllComponentsTogether)`, `set_quality`,
/// `set_size`, `start_compress` into a `Vec`, `write_marker` with `APP(n)`
/// for each segment in order before the pixel data, `write_scanlines` over
/// the whole row-major buffer, and `finish`. The `requires` keeps to the
/// inputs these calls accept: dimensions from 1 to libjpeg's ceiling, a
/// buffer of exactly `3 * w * h` bytes, marker payloads within a marker's
/// length field. A libjpeg resource-level fault (such as memory exhaustion)
/// unwinds instead of returning; no input admitted here makes it do so.
#[verifier::external_body]
fn compress_rgb_jpeg(
    pixels: &Vec<u8>,
    w: u32,
    h: u32,
    segments: &Vec<Segment>,
    quality: u8,
) -> (r: Result<Vec<u8>, String>)
    requires
        1 <= w <= MAX_JPEG_DIMENSION,
        1 <= h <= MAX_JPEG_DIMENSION,
        pixels@.len() == 3 * (w as nat) * (h as nat),
        segments_wf(segments@),
        1 <= quality <= 100,
    ensures
        r is Ok <==> mozjpeg_rgb(
            pixels@,
            w as nat,
            h as nat,
            segments_view(segments@),
            quality as nat,
        ) is Some,
        (r matches Ok(d) ==> mozjpeg_rgb(
            pixels@,
            w as nat,
            h as nat,
            segments_view(segments@),
            quality as nat,
        ) == Some(d@)),
{
    let mut comp = mozjpeg::Compress::new(mozjpeg::ColorSpace::JCS_RGB);
    comp.set_scan_optimization_mode(mozjpeg::ScanMode::AllComponentsTogether);
    comp.set_quality(quality.into());
    comp.set_size(w as usize, h as usize);
    let mut started = comp.start_compress(Vec::new()).map_err(|e| e.to_string())?;
    for seg in segments.iter() {
        started.write_marker(mozjpeg::Marker::APP(seg.app_index), &seg.payload);
    }
    started.write_scanlines(pixels.as_slice()).map_err(|e| e.to_string())?;
    started.finish().map_err(|e| e.to_string())
}

/// Encodes an RGB buffer of exactly `w * h * 3` bytes as a baseline JPEG at
/// the given quality, writing the metadata segments into the container before
/// the pixel data. Inputs are checked in the order of `encode_reject`; on
/// accepted inputs the result is exactly the compressor's: the named bytes on
/// success, `EncoderFailure` exactly when the compressor fails.
#[verifier::loop_isolation(false)]
pub fn encode_jpeg(
    pixels: &Vec<u8>,
    w: u32,
    h: u32,
    segments: &Vec<Segment>,
    quality: u8,
) -> (r: Result<Vec<u8>, EncodeError>)
    ensures
        ({
            let segs = segments_view(segments@);
            let reject = encode_reject(pixels@, w as nat, h as nat, segs, quality as nat);
            let encoded = mozjpeg_rgb(pixels@, w as nat, h as nat, segs, quality as nat);
            &&& (reject matches Some(e) ==> r == Err::<Vec<u8>, EncodeError>(e))
            &&& (reject is None ==> {
                &&& (r is Ok <==> encoded is Some)
                &&& (r matches Ok(d) ==> Some(d@) == encoded)
                &&& (r matches Err(e) ==> e == EncodeError::EncoderFailure && encoded is None)
            })
            &&& (r is Ok ==> reject is None)
        }),
{
    if w == 0 || h == 0 {
        return Err(EncodeError::ZeroDimension);
    }
    if w > MAX_JPEG_DIMENSION || h > MAX_JPEG_DIMENSION {
        return Err(EncodeError::OversizedDimension);
    }
    if quality < 1 || quality > 100 {
        return Err(EncodeError::QualityOutOfRange);
    }
    proof {
        assert(3 * (w as nat) * (h as nat) <= 3 * 0xffff_ffff * 0xffff_ffff) by (nonlinear_arith)
            requires
                w as nat <= 0xffff_ffff,
                h as nat <= 0xffff_ffff,
        ;
    }
    let expected: u128 = 3u128 * (w as u128) * (h as u128);
    let plen: usize = pixels.len();
    if (plen as u128) != expected {
        return Err(EncodeError::BufferMismatch);
    }
    assert(pixels@.len() == 3 * (w as nat) * (h as nat));
    let mut si: usize = 0;
    while si < segments.len()
        invariant
            si <= segments@.len(),
            forall|k: int| 0 <= k < si ==> segment_wf(#[trigger] segments@[k]),
        decreases segments@.len() - si,
    {
        let seg = &segments[si];
        if seg.app_index > 15 || seg.payload.len() > 65533 {
            proof {
                assert(segments_view(segments@)[si as int] == segment_view(
                    segments@[si as int],
                ));
                assert(!pair_wf(segments_view(segments@)[si as int]));
            }
            return Err(EncodeError::BadSegment);
        }
        si += 1;
    }
    assert(segments_wf(segments@));
    assert(pairs_wf(segments_view(segments@))) by {
        assert forall|i: int| 0 <= i < segments_view(segments@).len() implies pair_wf(
            #[trigger] segments_view(segments@)[i],
        ) by {
            assert(segment_wf(segments@[i]));
            assert(segments_view(segments@)[i] == segment_view(segments@[i]));
        }
    }

    match compress_rgb_jpeg(pixels, w, h, segments, quality) {
        Ok(data) => Ok(data),
        Err(_) => Err(EncodeError::EncoderFailure),
    }
}

} // verus!
