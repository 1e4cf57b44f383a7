use ultralightui::file::{encode_png, fits_image, SnapshotError};

#[test]
fn a_pixel_is_encoded_as_a_png_file() {
    let data = vec![255u8, 0, 0, 255];
    let bytes = encode_png(&data, 1, 1).unwrap();
    assert_eq!(&bytes[..8], &[137, 80, 78, 71, 13, 10, 26, 10]);
    assert_eq!(&bytes[12..16], b"IHDR");
    assert_eq!(&bytes[16..24], &[0, 0, 0, 1, 0, 0, 0, 1]);
    assert_eq!(&bytes[24..26], &[8, 6]);
    assert_eq!(&bytes[bytes.len() - 8..bytes.len() - 4], b"IEND");
    assert_ne!(bytes, data);
    assert_eq!(encode_png(&data, 1, 1).unwrap(), bytes);
}

#[test]
fn the_size_in_the_header_is_the_size_given() {
    let data = vec![7u8; 3 * 2 * 4];
    let bytes = encode_png(&data, 3, 2).unwrap();
    assert_eq!(&bytes[16..24], &[0, 0, 0, 3, 0, 0, 0, 2]);
}

#[test]
fn an_image_without_extent_is_refused() {
    assert_eq!(encode_png(&vec![], 0, 5), Err(SnapshotError::EmptyImage));
    assert_eq!(encode_png(&vec![], 5, 0), Err(SnapshotError::EmptyImage));
    assert_eq!(encode_png(&vec![1, 2, 3, 4], 0, 0), Err(SnapshotError::EmptyImage));
}

#[test]
fn data_of_the_wrong_size_is_refused() {
    assert_eq!(encode_png(&vec![0u8; 3], 1, 1), Err(SnapshotError::WrongSize));
    assert_eq!(encode_png(&vec![0u8; 8], 1, 1), Err(SnapshotError::WrongSize));
    assert_eq!(encode_png(&vec![], u32::MAX, u32::MAX), Err(SnapshotError::WrongSize));
}

#[test]
fn four_bytes_for_each_pixel_fit() {
    assert!(fits_image(1920000, 800, 600));
    assert!(!fits_image(1919999, 800, 600));
    assert!(fits_image(0, 0, 600));
    assert!(!fits_image(usize::MAX, u32::MAX, u32::MAX));
}
