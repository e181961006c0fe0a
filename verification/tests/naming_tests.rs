use wgpu_n_body::naming::{frame_file_name, frame_index_text, ImageFormat};

#[test]
fn frame_seven_is_named_00007() {
    assert_eq!(frame_index_text(7), "00007");
    assert_eq!(frame_file_name(7, ImageFormat::Jpeg), "output/00007.jpeg");
}

#[test]
fn frame_indices_are_filled_to_five_digits() {
    assert_eq!(frame_index_text(0), "00000");
    assert_eq!(frame_index_text(1), "00001");
    assert_eq!(frame_index_text(2), "00002");
    assert_eq!(frame_index_text(10), "00010");
    assert_eq!(frame_index_text(99), "00099");
    assert_eq!(frame_index_text(100), "00100");
    assert_eq!(frame_index_text(4_321), "04321");
    assert_eq!(frame_index_text(12_345), "12345");
    assert_eq!(frame_index_text(99_999), "99999");
}

#[test]
fn long_frame_indices_are_not_cut() {
    assert_eq!(frame_index_text(100_000), "100000");
    assert_eq!(frame_index_text(1_234_567), "1234567");
    assert_eq!(frame_index_text(u32::MAX), "4294967295");
}

#[test]
fn frame_paths_carry_the_extension_of_the_format() {
    assert_eq!(frame_file_name(1, ImageFormat::Jpeg), "output/00001.jpeg");
    assert_eq!(frame_file_name(1, ImageFormat::Png), "output/00001.png");
    assert_eq!(frame_file_name(123_456, ImageFormat::Png), "output/123456.png");
    assert_eq!(ImageFormat::Jpeg.extension(), "jpeg");
    assert_eq!(ImageFormat::Png.extension(), "png");
}

#[test]
fn frame_paths_agree_with_the_standard_formatter() {
    let mut index: u32 = 0;
    while index < 200_000 {
        assert_eq!(frame_file_name(index, ImageFormat::Jpeg), format!("output/{:0>5}.jpeg", index));
        index += 997;
    }
    for index in [9u32, 10, 99_999, 100_000, 999_999_999, 1_000_000_000, u32::MAX] {
        assert_eq!(frame_file_name(index, ImageFormat::Jpeg), format!("output/{:0>5}.jpeg", index));
    }
}

#[test]
fn frame_names_sort_in_frame_order() {
    let mut previous = frame_index_text(1);
    for index in 2..2_000u32 {
        let current = frame_index_text(index);
        assert!(previous < current);
        previous = current;
    }
}

#[test]
fn only_png_is_lossless() {
    assert!(ImageFormat::Png.is_lossless());
    assert!(!ImageFormat::Jpeg.is_lossless());
}
