use colorful_picker::capture::{
    image_from_frame, rgba_samples, screenshot_from_png, CaptureError, PixelLayout, PngFrame,
};

fn encode_png(width: u32, height: u32, color: png::ColorType, data: &[u8]) -> Vec<u8> {
    let mut out = Vec::new();
    {
        let mut encoder = png::Encoder::new(&mut out, width, height);
        encoder.set_color(color);
        encoder.set_depth(png::BitDepth::Eight);
        let mut writer = encoder.write_header().unwrap();
        writer.write_image_data(data).unwrap();
    }
    out
}

#[test]
fn rgb_png_becomes_opaque_rgba() {
    let bytes = encode_png(2, 1, png::ColorType::Rgb, &[10, 20, 30, 40, 50, 60]);
    let img = screenshot_from_png(&bytes).unwrap();
    assert_eq!((img.width, img.height), (2, 1));
    assert_eq!(img.data, vec![10, 20, 30, 255, 40, 50, 60, 255]);
}

#[test]
fn rgba_png_is_kept() {
    let bytes = encode_png(1, 2, png::ColorType::Rgba, &[1, 2, 3, 4, 5, 6, 7, 8]);
    let img = screenshot_from_png(&bytes).unwrap();
    assert_eq!((img.width, img.height), (1, 2));
    assert_eq!(img.data, vec![1, 2, 3, 4, 5, 6, 7, 8]);
}

#[test]
fn gray_png_is_widened() {
    let bytes = encode_png(2, 1, png::ColorType::Grayscale, &[7, 200]);
    let img = screenshot_from_png(&bytes).unwrap();
    assert_eq!(img.data, vec![7, 7, 7, 255, 200, 200, 200, 255]);
    let bytes = encode_png(1, 1, png::ColorType::GrayscaleAlpha, &[9, 100]);
    let img = screenshot_from_png(&bytes).unwrap();
    assert_eq!(img.data, vec![9, 9, 9, 100]);
}

#[test]
fn garbage_is_a_decode_error() {
    let res = screenshot_from_png(&[1, 2, 3, 4, 5]);
    assert!(matches!(res, Err(CaptureError::Decode(_))));
    assert!(matches!(screenshot_from_png(&[]), Err(CaptureError::Decode(_))));
}

#[test]
fn widening_of_each_layout() {
    assert_eq!(rgba_samples(PixelLayout::Rgb, vec![1, 2, 3, 4, 5]), Some(vec![1, 2, 3, 255]));
    assert_eq!(rgba_samples(PixelLayout::Grayscale, vec![4]), Some(vec![4, 4, 4, 255]));
    assert_eq!(rgba_samples(PixelLayout::GrayscaleAlpha, vec![4, 5, 6]), Some(vec![4, 4, 4, 5]));
    assert_eq!(rgba_samples(PixelLayout::Rgba, vec![1, 2, 3]), Some(vec![1, 2, 3]));
    assert_eq!(rgba_samples(PixelLayout::Indexed, vec![1, 2, 3]), None);
}

#[test]
fn palette_frame_is_unsupported() {
    let frame = PngFrame { layout: PixelLayout::Indexed, width: 1, height: 1, samples: vec![0] };
    assert!(matches!(image_from_frame(frame), Err(CaptureError::UnsupportedColorFormat)));
}

#[test]
fn frame_keeps_its_size() {
    let frame = PngFrame { layout: PixelLayout::Grayscale, width: 3, height: 1, samples: vec![1, 2, 3] };
    let img = image_from_frame(frame).unwrap();
    assert_eq!((img.width, img.height), (3, 1));
    assert_eq!(img.data, vec![1, 1, 1, 255, 2, 2, 2, 255, 3, 3, 3, 255]);
}

#[test]
fn decoded_image_has_four_bytes_per_pixel() {
    let bytes = encode_png(3, 2, png::ColorType::GrayscaleAlpha, &[1, 2, 3, 4, 5, 6, 7, 8, 9, 10, 11, 12]);
    let img = screenshot_from_png(&bytes).unwrap();
    assert_eq!(img.data.len(), 4 * 3 * 2);
}
