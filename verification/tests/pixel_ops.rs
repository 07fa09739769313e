use colorful_picker::pixels::{
    blend_glyph_pixel, lens_damage, sample_pixel, store_lens_pixel, swizzle_region,
};

fn two_by_two() -> Vec<u8> {
    vec![
        1, 2, 3, 4, 5, 6, 7, 8, //
        9, 10, 11, 12, 13, 14, 15, 16,
    ]
}

#[test]
fn samples_pixels_in_range() {
    let shot = two_by_two();
    assert_eq!(sample_pixel(&shot, 2, 2, 0, 0), [1, 2, 3, 4]);
    assert_eq!(sample_pixel(&shot, 2, 2, 1, 0), [5, 6, 7, 8]);
    assert_eq!(sample_pixel(&shot, 2, 2, 0, 1), [9, 10, 11, 12]);
}

#[test]
fn sample_clamps_coordinates() {
    let shot = two_by_two();
    assert_eq!(sample_pixel(&shot, 2, 2, 7, 9), [13, 14, 15, 16]);
    assert_eq!(sample_pixel(&shot, 0, 0, 5, 5), [1, 2, 3, 4]);
}

#[test]
fn sample_beyond_buffer_is_opaque_black() {
    let shot = vec![1, 2, 3, 4, 5, 6];
    assert_eq!(sample_pixel(&shot, 2, 1, 1, 0), [0, 0, 0, 255]);
    assert_eq!(sample_pixel(&[], 1, 1, 0, 0), [0, 0, 0, 255]);
}

#[test]
fn lens_pixel_is_written_opaque() {
    let mut canvas = vec![0u8; 16];
    store_lens_pixel(&mut canvas, 2, 2, 1, 1, [10, 20, 30, 40]);
    assert_eq!(canvas[12..16], [10, 20, 30, 255]);
    assert_eq!(canvas[..12], [0u8; 12]);
}

#[test]
fn lens_pixel_off_canvas_is_skipped() {
    let mut canvas = vec![7u8; 16];
    store_lens_pixel(&mut canvas, 2, 2, 2, 0, [1, 1, 1, 1]);
    store_lens_pixel(&mut canvas, 2, 2, -1, 0, [1, 1, 1, 1]);
    store_lens_pixel(&mut canvas, 2, 3, 0, 2, [1, 1, 1, 1]);
    assert_eq!(canvas, vec![7u8; 16]);
}

#[test]
fn glyph_blend_mixes_colour() {
    let mut canvas = vec![0u8; 4];
    blend_glyph_pixel(&mut canvas, 1, 1, 0, 0, [255, 100, 0, 255], 128);
    assert_eq!(canvas, vec![128, 50, 0, 128]);
}

#[test]
fn glyph_blend_full_and_zero_coverage() {
    let mut canvas = vec![10, 20, 30, 40];
    blend_glyph_pixel(&mut canvas, 1, 1, 0, 0, [200, 150, 100, 255], 0);
    assert_eq!(canvas, vec![10, 20, 30, 40]);
    blend_glyph_pixel(&mut canvas, 1, 1, 0, 0, [200, 150, 100, 255], 255);
    assert_eq!(canvas, vec![200, 150, 100, 255]);
}

#[test]
fn swizzle_swaps_red_and_blue_in_region_only() {
    let mut canvas: Vec<u8> = (0..32).collect();
    swizzle_region(&mut canvas, 2, 1, 0, 2, 2);
    let mut expected: Vec<u8> = (0..32).collect();
    expected.swap(4, 6);
    expected.swap(12, 14);
    assert_eq!(canvas[..16], expected[..16]);
    assert_eq!(canvas[16..], expected[16..]);
}

#[test]
fn swizzle_twice_restores() {
    let original: Vec<u8> = (0..48).map(|v| (v * 7 % 251) as u8).collect();
    let mut canvas = original.clone();
    swizzle_region(&mut canvas, 3, 0, 0, 3, 4);
    assert_ne!(canvas, original);
    swizzle_region(&mut canvas, 3, 0, 0, 3, 4);
    assert_eq!(canvas, original);
}

#[test]
fn swizzle_skips_rows_past_the_end() {
    let mut canvas: Vec<u8> = (0..12).collect();
    swizzle_region(&mut canvas, 2, 0, 0, 2, 2);
    assert_eq!(canvas, vec![2, 1, 0, 3, 6, 5, 4, 7, 8, 9, 10, 11]);
}

#[test]
fn damage_region_around_lens() {
    assert_eq!(lens_damage(100, 200, 1920, 1080), (7, 41, 193, 359));
    assert_eq!(lens_damage(10, 10, 1920, 1080), (0, 0, 103, 169));
    assert_eq!(lens_damage(1900, 1070, 1920, 1080), (1807, 911, 1920, 1080));
}

#[test]
fn swizzle_with_reversed_columns_and_no_fitting_row_does_nothing() {
    let mut canvas: Vec<u8> = (0..8).collect();
    swizzle_region(&mut canvas, 2, 4, 0, 3, 2);
    assert_eq!(canvas, (0..8).collect::<Vec<u8>>());
    swizzle_region(&mut canvas, 2, 0, 5, 2, 3);
    assert_eq!(canvas, (0..8).collect::<Vec<u8>>());
}
