use std::io::Cursor;

use wgpu_n_body::extract::add_padding;
use wgpu_n_body::naming::ImageFormat;
use wgpu_n_body::render::RenderState;

fn encode(pixels: &[u8], width: u32, height: u32, format: image::ImageFormat) -> Vec<u8> {
    let mut file = Cursor::new(Vec::new());
    image::write_buffer_with_format(
        &mut file,
        pixels,
        width,
        height,
        image::ColorType::Rgba8,
        format,
    )
    .unwrap();
    file.into_inner()
}

fn extracted(width: u32, height: u32, pixels: &[u8], format: ImageFormat) -> Vec<u8> {
    let state = RenderState::new(width, height, format).unwrap();
    let capture = add_padding(pixels, state.layout()).unwrap();
    state.save_buffer_to_image(1, Some(&capture)).unwrap().pixels
}

#[test]
fn extracted_pixels_are_what_an_image_buffer_takes() {
    let pixels: Vec<u8> = (0..4 * 5 * 3).map(|i| (i * 11) as u8).collect();
    let dense = extracted(5, 3, &pixels, ImageFormat::Png);
    let buffer = image::ImageBuffer::<image::Rgba<u8>, Vec<u8>>::from_raw(5, 3, dense).unwrap();
    assert_eq!(buffer.dimensions(), (5, 3));
    assert_eq!(buffer.get_pixel(0, 0).0, [0, 11, 22, 33]);
    assert_eq!(buffer.get_pixel(1, 2).0, [484u32 as u8, 495u32 as u8, 506u32 as u8, 517u32 as u8]);
    assert_eq!(buffer.into_raw(), pixels);
}

#[test]
fn lossless_files_decode_to_the_pixels_written() {
    let pixels: Vec<u8> = (0..4 * 7 * 5).map(|i| (i * 13 + 1) as u8).collect();
    let dense = extracted(7, 5, &pixels, ImageFormat::Png);
    let first = encode(&dense, 7, 5, image::ImageFormat::Png);
    let second = encode(&dense, 7, 5, image::ImageFormat::Png);
    for file in [first, second] {
        let decoded = image::load_from_memory_with_format(&file, image::ImageFormat::Png)
            .unwrap()
            .to_rgba8();
        assert_eq!(decoded.dimensions(), (7, 5));
        assert_eq!(decoded.into_raw(), pixels);
    }
}

#[test]
fn lossy_files_decode_close_to_the_pixels_written() {
    let mut pixels: Vec<u8> = Vec::new();
    for _ in 0..16 * 16 {
        pixels.extend_from_slice(&[200, 120, 40, 255]);
    }
    let dense = extracted(16, 16, &pixels, ImageFormat::Jpeg);
    let first = encode(&dense, 16, 16, image::ImageFormat::Jpeg);
    let second = encode(&dense, 16, 16, image::ImageFormat::Jpeg);
    assert_eq!(first, second);
    let decoded = image::load_from_memory_with_format(&first, image::ImageFormat::Jpeg)
        .unwrap()
        .to_rgba8();
    assert_eq!(decoded.dimensions(), (16, 16));
    let raw = decoded.into_raw();
    assert_eq!(raw.len(), pixels.len());
    for (got, want) in raw.iter().zip(pixels.iter()) {
        assert!((*got as i32 - *want as i32).abs() <= 8);
    }
}
