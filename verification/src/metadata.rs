//! Metadata segments: auxiliary application blocks (orientation, camera
//! information) carried verbatim from the source container into the output.

use vstd::prelude::*;

verus! {

/// One application metadata segment: the APPn index (0 to 15) and the raw
/// payload bytes, preserved exactly as they stood in the source file.
pub struct Segment {
    pub app_index: u8,
    pub payload: Vec<u8>,
}

/// A segment the encoder can carry: the APPn index is one of the sixteen
/// application markers, and the payload fits a marker's two-byte length field
/// (which also counts itself).
pub open spec fn segment_wf(s: Segment) -> bool {
    s.app_index <= 15 && s.payload@.len() <= 65533
}

/// All segments of a sequence are carriable.
pub open spec fn segments_wf(segs: Seq<Segment>) -> bool {
    forall|i: int| 0 <= i < segs.len() ==> segment_wf(#[trigger] segs[i])
}

/// The ghost value of a segment: its APPn index and payload bytes.
pub open spec fn segment_view(s: Segment) -> (u8, Seq<u8>) {
    (s.app_index, s.payload@)
}

/// The ghost value of a segment sequence.
pub open spec fn segments_view(segs: Seq<Segment>) -> Seq<(u8, Seq<u8>)> {
    Seq::new(segs.len(), |i: int| segment_view(segs[i]))
}

/// A carriable segment, as a ghost pair.
pub open spec fn pair_wf(p: (u8, Seq<u8>)) -> bool {
    p.0 <= 15 && p.1.len() <= 65533
}

/// All pairs of a sequence are carriable.
pub open spec fn pairs_wf(ps: Seq<(u8, Seq<u8>)>) -> bool {
    forall|i: int| 0 <= i < ps.len() ==> pair_wf(#[trigger] ps[i])
}

/// The application segments found scanning a JPEG header from `pos`: walks
/// marker by marker, skips fill bytes and standalone markers, follows each
/// length-prefixed segment (the two-byte big-endian length counts itself),
/// collects the APPn payloads verbatim in order, and stops at the scan data,
/// at the end of the image, or at the first malformed position.
pub open spec fn scan_app_segments(bytes: Seq<u8>, pos: nat) -> Seq<(u8, Seq<u8>)>
    decreases bytes.len() - pos,
{
    if pos + 4 > bytes.len() || bytes[pos as int] != 0xff {
        Seq::empty()
    } else {
        let m = bytes[pos as int + 1];
        if m == 0xff {
            scan_app_segments(bytes, pos + 1)
        } else if m == 0x01 || (0xd0 <= m && m <= 0xd8) {
            scan_app_segments(bytes, pos + 2)
        } else if m == 0xd9 || m == 0xda {
            Seq::empty()
        } else {
            let seglen = 256 * (bytes[pos as int + 2] as nat) + (bytes[pos as int + 3] as nat);
            if seglen < 2 || pos + 2 + seglen > bytes.len() {
                Seq::empty()
            } else {
                let rest = scan_app_segments(bytes, pos + 2 + seglen);
                if 0xe0 <= m && m <= 0xef {
                    seq![
                        ((m - 0xe0) as u8, bytes.subrange(
                            pos as int + 4,
                            pos as int + 2 + seglen as int,
                        )),
                    ] + rest
                } else {
                    rest
                }
            }
        }
    }
}

/// The application segments of a byte stream: none unless it opens with the
/// JPEG start-of-image marker, otherwise whatever the scan finds after it.
pub open spec fn spec_app_segments(bytes: Seq<u8>) -> Seq<(u8, Seq<u8>)> {
    if bytes.len() >= 2 && bytes[0] == 0xff && bytes[1] == 0xd8 {
        scan_app_segments(bytes, 2)
    } else {
        Seq::empty()
    }
}

/// Extracts the application metadata segments of a JPEG byte stream, verbatim
/// and in their original order, so that re-encoding can carry them through.
/// Returns exactly the segments that `spec_app_segments` describes; all of
/// them are carriable.
#[verifier::loop_isolation(false)]
pub fn extract_app_segments(bytes: &Vec<u8>) -> (r: Vec<Segment>)
    ensures
        segments_view(r@) == spec_app_segments(bytes@),
        segments_wf(r@),
{
    let mut out: Vec<Segment> = Vec::new();
    let n = bytes.len();
    proof {
        assert(segments_view(out@) =~= Seq::<(u8, Seq<u8>)>::empty());
    }
    if n < 2 || *vstd::slice::slice_index_get(bytes.as_slice(), 0) != 0xff
        || *vstd::slice::slice_index_get(bytes.as_slice(), 1) != 0xd8 {
        return out;
    }
    let mut pos: usize = 2;
    loop
        invariant
            2 <= pos <= n,
            segments_view(out@) + scan_app_segments(bytes@, pos as nat) =~= spec_app_segments(
                bytes@,
            ),
            segments_wf(out@),
        decreases bytes@.len() - pos,
    {
        if n - pos < 4 {
            return out;
        }
        let b0 = *vstd::slice::slice_index_get(bytes.as_slice(), pos);
        if b0 != 0xff {
            return out;
        }
        let m = *vstd::slice::slice_index_get(bytes.as_slice(), pos + 1);
        if m == 0xff {
            pos = pos + 1;
        } else if m == 0x01 || (0xd0 <= m && m <= 0xd8) {
            pos = pos + 2;
        } else if m == 0xd9 || m == 0xda {
            return out;
        } else {
            let l1 = *vstd::slice::slice_index_get(bytes.as_slice(), pos + 2);
            let l2 = *vstd::slice::slice_index_get(bytes.as_slice(), pos + 3);
            let seglen: usize = 256 * (l1 as usize) + (l2 as usize);
            if seglen < 2 || seglen > n - (pos + 2) {
                return out;
            }
            if 0xe0 <= m && m <= 0xef {
                let start: usize = pos + 4;
                let stop: usize = pos + 2 + seglen;
                let mut payload: Vec<u8> = Vec::new();
                let mut j: usize = start;
                proof {
                    assert(payload@ =~= bytes@.subrange(start as int, start as int));
                }
                while j < stop
                    invariant
                        start <= j <= stop,
                        payload@ == bytes@.subrange(start as int, j as int),
                    decreases stop - j,
                {
                    payload.push(*vstd::slice::slice_index_get(bytes.as_slice(), j));
                    proof {
                        assert(payload@ =~= bytes@.subrange(start as int, j + 1 as int));
                    }
                    j = j + 1;
                }
                let seg = Segment { app_index: m - 0xe0, payload };
                let ghost prev = segments_view(out@);
                out.push(seg);
                proof {
                    assert(segments_view(out@) =~= prev.push(segment_view(seg)));
                    assert(scan_app_segments(bytes@, pos as nat) =~= seq![segment_view(seg)]
                        + scan_app_segments(bytes@, (pos + 2 + seglen) as nat));
                    assert(prev + scan_app_segments(bytes@, pos as nat) =~= prev.push(
                        segment_view(seg),
                    ) + scan_app_segments(bytes@, (pos + 2 + seglen) as nat));
                }
                pos = pos + 2 + seglen;
            } else {
                proof {
                    assert(scan_app_segments(bytes@, pos as nat) == scan_app_segments(
                        bytes@,
                        (pos + 2 + seglen) as nat,
                    ));
                }
                pos = pos + 2 + seglen;
            }
        }
    }
}

} // verus!
