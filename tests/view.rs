use bongo_cat::view::{composite, fit, pack, Fit};

#[test]
fn fit_wide_target_uses_width() {
    // 360 / 24.86 < 240 / 13.95
    let f = fit(360, 240);
    assert_eq!(
        f,
        Fit { scale_num: 360, scale_den: 24_860_000, offset_x_num: 0, offset_y_num: 944_400_000 }
    );
}

#[test]
fn fit_tall_target_uses_height() {
    let f = fit(1000, 100);
    assert_eq!(f.scale_num, 100);
    assert_eq!(f.scale_den, 13_950_000);
    assert_eq!(f.offset_y_num, 0);
    assert_eq!(f.offset_x_num, 1000 * 13_950_000 - 24_860_000 * 100);
}

#[test]
fn fit_offsets_center_the_canvas() {
    for (w, h) in [(360u32, 240u32), (1, 1), (2486, 1395), (100, 4000), (4000, 100)] {
        let f = fit(w, h);
        let den = f.scale_den as u128;
        let num = f.scale_num as u128;
        assert!(num * 24_860_000 <= w as u128 * den);
        assert!(num * 13_950_000 <= h as u128 * den);
        assert_eq!(f.offset_x_num as u128 + 24_860_000 * num, w as u128 * den);
        assert_eq!(f.offset_y_num as u128 + 13_950_000 * num, h as u128 * den);
    }
}

#[test]
fn pack_orders_channels() {
    assert_eq!(pack(0x11, 0x22, 0x33, 0x44), 0x4411_2233);
}

#[test]
fn composite_full_opacity_keeps_pixels() {
    let data = [10u8, 20, 30, 40, 255, 0, 128, 255];
    let out = composite(&data, 100);
    assert_eq!(out, vec![30 | (20 << 8) | (10 << 16) | (40 << 24), 0 | (0 << 8) | (255 << 16) | (255 << 24) | (128)]);
}

#[test]
fn composite_zero_opacity_clears_pixels() {
    let data = [10u8, 20, 30, 40, 255, 255, 255, 255];
    assert_eq!(composite(&data, 0), vec![0, 0]);
}

#[test]
fn composite_truncates() {
    let data = [255u8, 1, 99, 200];
    // 255 * 0.4 = 102, 1 * 0.4 = 0, 99 * 0.4 = 39.6 -> 39, 200 * 0.4 = 80
    assert_eq!(composite(&data, 40), vec![39 | (0 << 8) | (102 << 16) | (80 << 24)]);
}

#[test]
fn composite_empty() {
    assert_eq!(composite(&[], 70), Vec::<u32>::new());
}
