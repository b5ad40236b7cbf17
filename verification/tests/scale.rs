use wr::scale::{glyph_size, scaled, Au, PixelRatio, AU_PER_PX};

#[test]
fn ratio_needs_a_denominator() {
    assert_eq!(PixelRatio::new(3, 0), None);
    let ratio = PixelRatio::new(3, 2).unwrap();
    assert_eq!(ratio.numerator(), 3);
    assert_eq!(ratio.denominator(), 2);
    assert_eq!(PixelRatio::one(), PixelRatio::new(1, 1).unwrap());
}

#[test]
fn glyph_size_is_in_app_units() {
    assert_eq!(AU_PER_PX, 60);
    assert_eq!(glyph_size(12, PixelRatio::one()), Au(720));
    assert_eq!(glyph_size(12, PixelRatio::new(3, 2).unwrap()), Au(1080));
    assert_eq!(glyph_size(13, PixelRatio::new(5, 4).unwrap()), Au(975));
    assert_eq!(glyph_size(0, PixelRatio::new(2, 1).unwrap()), Au(0));
    assert_eq!(glyph_size(10, PixelRatio::new(0, 1).unwrap()), Au(0));
}

#[test]
fn glyph_size_rounds_to_the_nearest_unit() {
    assert_eq!(glyph_size(1, PixelRatio::new(1, 7).unwrap()), Au(9));
    assert_eq!(glyph_size(1, PixelRatio::new(1, 8).unwrap()), Au(8));
    assert_eq!(glyph_size(-1, PixelRatio::new(1, 8).unwrap()), Au(-8));
    assert_eq!(glyph_size(1, PixelRatio::new(1, 120).unwrap()), Au(1));
    assert_eq!(glyph_size(-1, PixelRatio::new(1, 120).unwrap()), Au(-1));
    assert_eq!(glyph_size(1, PixelRatio::new(1, 121).unwrap()), Au(0));
}

#[test]
fn glyph_size_stays_in_range() {
    assert_eq!(glyph_size(i32::MAX, PixelRatio::new(u32::MAX, 1).unwrap()), Au(i32::MAX));
    assert_eq!(glyph_size(i32::MIN, PixelRatio::new(u32::MAX, 1).unwrap()), Au(i32::MIN));
    assert_eq!(glyph_size(i32::MAX, PixelRatio::new(1, 60).unwrap()), Au(i32::MAX));
    assert_eq!(glyph_size(i32::MIN, PixelRatio::new(1, 60).unwrap()), Au(i32::MIN));
}

#[test]
fn scaled_rounds_halves_away_from_zero() {
    let one = PixelRatio::one();
    assert_eq!(scaled(50, 10, one, 1000), 1);
    assert_eq!(scaled(49, 10, one, 1000), 0);
    assert_eq!(scaled(-50, 10, one, 1000), -1);
    assert_eq!(scaled(-49, 10, one, 1000), 0);
    assert_eq!(scaled(150, 10, one, 1000), 2);
    assert_eq!(scaled(-150, 10, one, 1000), -2);
    assert_eq!(scaled(1900, 12, one, 2048), 11);
    assert_eq!(scaled(0, 12, one, 2048), 0);
    assert_eq!(scaled(800, 0, one, 1000), 0);
    assert_eq!(scaled(800, 10, PixelRatio::new(0, 1).unwrap(), 1000), 0);
}

#[test]
fn scaled_goes_by_the_exact_ratio() {
    let ratio = PixelRatio::new(1126, 1024).unwrap();
    assert_eq!(glyph_size(13, ratio), Au(858));
    assert_eq!(scaled(1014, 13, ratio, 1000), 14);
    assert_eq!(scaled(1015, 13, ratio, 1000), 15);
    assert_eq!(scaled(-1014, 13, ratio, 1000), -14);
    assert_eq!(scaled(800, 12, PixelRatio::new(3, 2).unwrap(), 1000), 14);
    assert_eq!(scaled(1, 1, PixelRatio::new(1, 2).unwrap(), 1), 1);
    assert_eq!(scaled(1, 1, PixelRatio::new(1, 3).unwrap(), 1), 0);
    assert_eq!(scaled(1, 1, PixelRatio::new(2, 3).unwrap(), 1), 1);
}

#[test]
fn scaled_stays_in_range() {
    let one = PixelRatio::one();
    let most = PixelRatio::new(u32::MAX, 1).unwrap();
    assert_eq!(scaled(i32::MAX, i32::MAX, most, 1), i32::MAX);
    assert_eq!(scaled(i32::MIN, i32::MAX, most, 1), i32::MIN);
    assert_eq!(scaled(i32::MIN, i32::MIN, most, 1), i32::MAX);
    assert_eq!(scaled(i32::MAX, 2, one, 1), i32::MAX);
    assert_eq!(scaled(i32::MIN, 2, one, 1), i32::MIN);
    assert_eq!(scaled(-7, -1, one, 1), 7);
    assert_eq!(scaled(i32::MAX, 1, PixelRatio::new(1, u32::MAX).unwrap(), u16::MAX), 0);
}
