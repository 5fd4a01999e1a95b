use petpet::fit::fit_mapping;
use petpet::template::AvatarFit;

#[test]
fn fill_stretches_to_the_rectangle() {
    let m = fit_mapping(&AvatarFit::FILL, 5, 6, 100, 40, 50, 25, None);
    assert_eq!(m.dst, (5, 6, 100, 40));
    assert!(m.src.is_none());
}

#[test]
fn fill_passes_the_declared_crop_through() {
    let m = fit_mapping(&AvatarFit::FILL, 0, 0, 10, 10, 50, 25, Some((1, 2, 3, 4)));
    assert_eq!(m.src, Some((1, 2, 3, 4)));
}

#[test]
fn contain_letterboxes_a_wide_source() {
    let m = fit_mapping(&AvatarFit::CONTAIN, 0, 0, 100, 100, 200, 100, None);
    assert_eq!(m.dst, (0, 25, 100, 50));
}

#[test]
fn contain_never_grows_past_the_rectangle() {
    for (iw, ih) in [(1, 1), (3, 7), (200, 100), (13, 640)] {
        let m = fit_mapping(&AvatarFit::CONTAIN, 10, 20, 64, 48, iw, ih, None);
        let (x, y, w, h) = m.dst;
        assert!(w <= 64 && h <= 48);
        assert!(x >= 10 && y >= 20);
        assert!(x + w <= 10 + 64 && y + h <= 20 + 48);
    }
}

#[test]
fn cover_fills_the_rectangle_exactly() {
    let m = fit_mapping(&AvatarFit::COVER, 3, 4, 100, 100, 200, 100, None);
    assert_eq!(m.dst, (3, 4, 100, 100));
}

#[test]
fn cover_samples_inside_the_source() {
    for (iw, ih) in [(1, 1), (3, 7), (200, 100), (13, 640)] {
        let m = fit_mapping(&AvatarFit::COVER, 0, 0, 64, 48, iw, ih, None);
        let (sx, sy, sw, sh) = m.src.unwrap();
        assert!(sx >= 0 && sy >= 0);
        assert!(sw >= 0 && sh >= 0);
        assert!(sx + sw <= iw as i64);
        assert!(sy + sh <= ih as i64);
    }
}

#[test]
fn cover_crops_the_wide_side_centered() {
    let m = fit_mapping(&AvatarFit::COVER, 0, 0, 100, 100, 200, 100, None);
    assert_eq!(m.src.unwrap(), (50, 0, 100, 100));
}

#[test]
fn negative_rectangle_sizes_are_clamped() {
    let m = fit_mapping(&AvatarFit::FILL, 0, 0, -5, -5, 10, 10, None);
    assert_eq!(m.dst, (0, 0, 0, 0));
}
