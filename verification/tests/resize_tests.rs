use model_server::resize::compute_resize_dimensions;

#[test]
fn source_within_bounds_is_unchanged() {
    assert_eq!(compute_resize_dimensions(640, 480, 1920, 1080), (640, 480));
    assert_eq!(compute_resize_dimensions(1920, 1080, 1920, 1080), (1920, 1080));
    assert_eq!(compute_resize_dimensions(1, 1, 1, 1), (1, 1));
    assert_eq!(compute_resize_dimensions(333, 777, 1000, 1000), (333, 777));
}

#[test]
fn wide_source_scales_to_bounds() {
    // 1000x500 into 800x800: scale = min(0.8, 1.6) = 0.8 -> 800x400, already
    // even, so that is the answer.
    assert_eq!(compute_resize_dimensions(1000, 500, 800, 800), (800, 400));
}

#[test]
fn odd_scaled_dimensions_are_forced_even() {
    // 1001x667 into 500x500: scale = 500/1001 -> 500x333 (rounded down) ->
    // forced even to 500x332. The bent ratio stays within the 1% tolerance
    // (|1001/667 - 500/332| is about 0.005), so no further correction runs.
    assert_eq!(compute_resize_dimensions(1001, 667, 500, 500), (500, 332));
}

#[test]
fn width_correction_runs_when_evenness_bends_the_ratio() {
    // 199x100 into 10x10: scaled 10x5, forced even to 10x4, which bends the
    // ratio far past 1%; the width is recomputed from the height with the
    // source ratio: floor(4 * 199/100) = 7, forced even to 6.
    assert_eq!(compute_resize_dimensions(199, 100, 10, 10), (6, 4));
}

#[test]
fn height_correction_runs_when_evenness_bends_the_ratio() {
    // The mirror image of the case above: the height is recomputed from the
    // width with the source ratio.
    assert_eq!(compute_resize_dimensions(100, 199, 10, 10), (4, 6));
}

#[test]
fn oversize_output_is_even_and_keeps_ratio() {
    let cases: [(u32, u32, u32, u32); 5] = [
        (1920, 1080, 1000, 1000),
        (1001, 667, 500, 500),
        (3999, 2999, 1280, 720),
        (1080, 1920, 500, 500),
        (12345, 6789, 1920, 1080),
    ];
    for (ow, oh, mw, mh) in cases {
        assert!(ow > mw || oh > mh);
        let (w, h) = compute_resize_dimensions(ow, oh, mw, mh);
        assert!(w % 2 == 0, "width {} not even for {:?}", w, (ow, oh, mw, mh));
        assert!(h % 2 == 0, "height {} not even for {:?}", h, (ow, oh, mw, mh));
        // |ow/oh - w/h| <= 1/100, written cleared of divisions.
        let delta = (i128::from(ow) * i128::from(h) - i128::from(w) * i128::from(oh)).abs();
        assert!(
            100 * delta <= i128::from(oh) * i128::from(h),
            "ratio off by more than 1% for {:?}: got {}x{}",
            (ow, oh, mw, mh),
            w,
            h
        );
    }
}
