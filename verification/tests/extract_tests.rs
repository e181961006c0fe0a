use wgpu_n_body::extract::{add_padding, strip_padding};
use wgpu_n_body::layout::FrameLayout;

fn numbered(len: usize) -> Vec<u8> {
    (0..len).map(|i| (i * 7 + 3) as u8).collect()
}

fn strip_by_chunks(capture: &[u8], padded: usize, unpadded: usize) -> Vec<u8> {
    capture.chunks(padded).flat_map(|row| row[..unpadded].iter().copied()).collect()
}

#[test]
fn strip_keeps_the_first_bytes_of_every_row() {
    let layout = FrameLayout::new(2, 2).unwrap();
    let capture = numbered(512);
    let pixels = strip_padding(&capture, &layout).unwrap();
    let mut expected = capture[0..8].to_vec();
    expected.extend_from_slice(&capture[256..264]);
    assert_eq!(pixels, expected);
}

#[test]
fn strip_yields_four_bytes_per_pixel() {
    for (width, height) in [(1u32, 1u32), (3, 5), (64, 2), (65, 3), (100, 7)] {
        let layout = FrameLayout::new(width, height).unwrap();
        let capture = numbered(layout.staging_size() as usize);
        let pixels = strip_padding(&capture, &layout).unwrap();
        assert_eq!(pixels.len(), (4 * width * height) as usize);
        assert_eq!(pixels.len() as u64, layout.pixel_size());
    }
}

#[test]
fn strip_agrees_with_chunking_the_capture() {
    for (width, height) in [(1u32, 1u32), (3, 5), (64, 2), (65, 3), (100, 7)] {
        let layout = FrameLayout::new(width, height).unwrap();
        let capture = numbered(layout.staging_size() as usize);
        let pixels = strip_padding(&capture, &layout).unwrap();
        let expected = strip_by_chunks(
            &capture,
            layout.padded_bytes_per_row() as usize,
            layout.unpadded_bytes_per_row() as usize,
        );
        assert_eq!(pixels, expected);
    }
}

#[test]
fn strip_of_an_unpadded_layout_is_the_capture() {
    let layout = FrameLayout::new(128, 3).unwrap();
    assert_eq!(layout.padding(), 0);
    let capture = numbered(128 * 4 * 3);
    assert_eq!(strip_padding(&capture, &layout).unwrap(), capture);
}

#[test]
fn strip_refuses_a_capture_of_another_size() {
    let layout = FrameLayout::new(2, 2).unwrap();
    assert!(strip_padding(&numbered(511), &layout).is_none());
    assert!(strip_padding(&numbered(513), &layout).is_none());
    assert!(strip_padding(&numbered(16), &layout).is_none());
    assert!(strip_padding(&[], &layout).is_none());
}

#[test]
fn strip_of_an_empty_frame_is_empty() {
    let no_rows = FrameLayout::new(5, 0).unwrap();
    assert_eq!(strip_padding(&[], &no_rows).unwrap(), Vec::<u8>::new());
    let no_columns = FrameLayout::new(0, 5).unwrap();
    assert_eq!(strip_padding(&[], &no_columns).unwrap(), Vec::<u8>::new());
    assert!(strip_padding(&[0], &no_columns).is_none());
}

#[test]
fn pad_places_rows_at_the_stride_and_zeroes_the_rest() {
    let layout = FrameLayout::new(1, 2).unwrap();
    let capture = add_padding(&[1, 2, 3, 4, 5, 6, 7, 8], &layout).unwrap();
    assert_eq!(capture.len(), 512);
    assert_eq!(&capture[0..4], &[1, 2, 3, 4]);
    assert!(capture[4..256].iter().all(|b| *b == 0));
    assert_eq!(&capture[256..260], &[5, 6, 7, 8]);
    assert!(capture[260..512].iter().all(|b| *b == 0));
}

#[test]
fn pad_refuses_pixels_of_another_size() {
    let layout = FrameLayout::new(1, 2).unwrap();
    assert!(add_padding(&[1, 2, 3, 4, 5, 6, 7], &layout).is_none());
    assert!(add_padding(&[1, 2, 3, 4, 5, 6, 7, 8, 9], &layout).is_none());
    assert!(add_padding(&[], &layout).is_none());
}

#[test]
fn strip_after_pad_gives_the_pixels_back() {
    for (width, height) in [(1u32, 1u32), (3, 5), (64, 2), (65, 3), (100, 7)] {
        let layout = FrameLayout::new(width, height).unwrap();
        let pixels = numbered((4 * width * height) as usize);
        let capture = add_padding(&pixels, &layout).unwrap();
        assert_eq!(capture.len() as u64, layout.staging_size());
        assert_eq!(strip_padding(&capture, &layout).unwrap(), pixels);
    }
}

#[test]
fn pad_after_strip_reproduces_a_capture_with_zeroed_padding() {
    let layout = FrameLayout::new(3, 4).unwrap();
    let stride = layout.padded_bytes_per_row() as usize;
    let row = layout.unpadded_bytes_per_row() as usize;
    let mut capture = numbered(layout.staging_size() as usize);
    for (offset, byte) in capture.iter_mut().enumerate() {
        if offset % stride >= row {
            *byte = 0;
        }
    }
    let pixels = strip_padding(&capture, &layout).unwrap();
    assert_eq!(add_padding(&pixels, &layout).unwrap(), capture);
}

#[test]
fn pad_after_strip_keeps_every_pixel_byte_in_place() {
    let layout = FrameLayout::new(3, 4).unwrap();
    let stride = layout.padded_bytes_per_row() as usize;
    let row = layout.unpadded_bytes_per_row() as usize;
    let capture = numbered(layout.staging_size() as usize);
    let pixels = strip_padding(&capture, &layout).unwrap();
    let again = add_padding(&pixels, &layout).unwrap();
    assert_eq!(again.len(), capture.len());
    assert_ne!(again, capture);
    for offset in 0..capture.len() {
        if offset % stride < row {
            assert_eq!(again[offset], capture[offset]);
        } else {
            assert_eq!(again[offset], 0);
        }
    }
}

#[test]
fn strip_of_the_default_frame_has_the_size_an_encoder_expects() {
    let layout = FrameLayout::new(1080, 1920).unwrap();
    let capture = vec![9u8; 4352 * 1920];
    let pixels = strip_padding(&capture, &layout).unwrap();
    assert_eq!(pixels.len(), 4 * 1080 * 1920);
}
