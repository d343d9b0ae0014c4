use jpeg_resizer::geometry::target_dims;

#[test]
fn small_landscape_passes_through() {
    assert_eq!(target_dims(800, 600, 1280), (800, 600));
}

#[test]
fn exact_bound_passes_through() {
    assert_eq!(target_dims(1280, 720, 1280), (1280, 720));
}

#[test]
fn large_landscape_hits_bound_exactly() {
    assert_eq!(target_dims(4000, 3000, 1280), (1280, 960));
}

#[test]
fn large_portrait_hits_bound_exactly() {
    assert_eq!(target_dims(3000, 4000, 1280), (960, 1280));
}

#[test]
fn large_square_hits_bound_on_both_sides() {
    assert_eq!(target_dims(2000, 2000, 1280), (1280, 1280));
}

#[test]
fn resize_is_idempotent_on_dimensions() {
    let (w1, h1) = target_dims(4000, 2250, 1280);
    assert_eq!(target_dims(w1, h1, 1280), (w1, h1));
    let (w2, h2) = target_dims(800, 600, 1280);
    assert_eq!(target_dims(w2, h2, 1280), (w2, h2));
}

#[test]
fn larger_side_equals_bound_and_aspect_within_one_pixel() {
    let cases = [(4000u32, 3000u32), (1920, 1080), (1366, 768), (1281, 1280), (5000, 1)];
    for &(w, h) in cases.iter() {
        let (nw, nh) = target_dims(w, h, 1280);
        assert_eq!(nw.max(nh), 1280);
        assert!(w > h);
        // nh is the exact scaled height floor(h * bound / w), within one pixel
        assert!((nh as u64) * (w as u64) <= (h as u64) * 1280);
        assert!((h as u64) * 1280 < (nh as u64 + 1) * (w as u64));
    }
}

#[test]
fn extreme_aspect_can_collapse_to_zero() {
    // a one-pixel-tall panorama scales to a zero height, which the pipeline
    // rejects as a dimension error rather than encoding
    assert_eq!(target_dims(5000, 1, 1280), (1280, 0));
}
