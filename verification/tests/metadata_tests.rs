use jpeg_resizer::encode::encode_jpeg;
use jpeg_resizer::metadata::{extract_app_segments, Segment};
use jpeg_resizer::pipeline::process_image;

#[test]
fn extracts_one_app_segment() {
    // SOI, APP1 of length 4 (payload AB CD), SOS
    let bytes = vec![0xff, 0xd8, 0xff, 0xe1, 0x00, 0x04, 0xab, 0xcd, 0xff, 0xda, 0x00, 0x00];
    let segs = extract_app_segments(&bytes);
    assert_eq!(segs.len(), 1);
    assert_eq!(segs[0].app_index, 1);
    assert_eq!(segs[0].payload, vec![0xab, 0xcd]);
}

#[test]
fn skips_non_app_segments_and_fill_bytes() {
    // SOI, fill byte, DQT of length 3, APP2 of length 5 (payload 01 02 03), SOS
    let bytes = vec![
        0xff, 0xd8, 0xff, 0xff, 0xdb, 0x00, 0x03, 0x09, 0xff, 0xe2, 0x00, 0x05, 0x01, 0x02, 0x03,
        0xff, 0xda, 0x00, 0x00,
    ];
    let segs = extract_app_segments(&bytes);
    assert_eq!(segs.len(), 1);
    assert_eq!(segs[0].app_index, 2);
    assert_eq!(segs[0].payload, vec![0x01, 0x02, 0x03]);
}

#[test]
fn non_jpeg_bytes_have_no_segments() {
    assert_eq!(extract_app_segments(&vec![0x50, 0x4b, 0x03, 0x04]).len(), 0);
    assert_eq!(extract_app_segments(&Vec::new()).len(), 0);
}

#[test]
fn truncated_segment_is_not_collected() {
    // SOI, APP1 whose declared length runs past the end of the stream
    let bytes = vec![0xff, 0xd8, 0xff, 0xe1, 0x00, 0x40, 0x01, 0x02];
    assert_eq!(extract_app_segments(&bytes).len(), 0);
}

fn gradient_rgb(w: u32, h: u32) -> Vec<u8> {
    let mut v = Vec::with_capacity((w * h * 3) as usize);
    for y in 0..h {
        for x in 0..w {
            v.push((x % 256) as u8);
            v.push((y % 256) as u8);
            v.push(64u8);
        }
    }
    v
}

#[test]
fn encoder_writes_the_given_segment_into_the_container() {
    let payload: Vec<u8> = b"orientation-data".to_vec();
    let segs = vec![Segment { app_index: 1, payload: payload.clone() }];
    let jpeg = encode_jpeg(&gradient_rgb(8, 8), 8, 8, &segs, 70).expect("valid buffer encodes");
    let found = extract_app_segments(&jpeg);
    assert!(found.iter().any(|s| s.app_index == 1 && s.payload == payload));
}

#[test]
fn pipeline_carries_metadata_through_re_encoding() {
    let payload: Vec<u8> = b"camera-note".to_vec();
    let segs = vec![Segment { app_index: 1, payload: payload.clone() }];
    let source = encode_jpeg(&gradient_rgb(64, 48), 64, 48, &segs, 70).expect("source encodes");
    assert!(extract_app_segments(&source).iter().any(|s| s.app_index == 1));
    let p = process_image(&source, 32).expect("source processes");
    let carried = extract_app_segments(&p.jpeg);
    assert!(carried.iter().any(|s| s.app_index == 1 && s.payload == payload));
}
