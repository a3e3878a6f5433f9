use moon::resourcemanager::{frame_buffer, load_image_rgba, ImageError};

/// A two by two image, eight bits to each of red, green, blue and alpha.
fn two_by_two() -> Vec<u8> {
    vec![137, 80, 78, 71, 13, 10, 26, 10, 0, 0, 0, 13, 73, 72, 68, 82, 0, 0, 0, 2, 0, 0, 0, 2, 8, 6, 0, 0, 0, 114, 182, 13, 36, 0, 0, 0, 23, 73, 68, 65, 84, 120, 156, 99, 248, 207, 192, 240, 31, 8, 27, 24, 128, 180, 3, 151, 136, 156, 6, 0, 55, 233, 5, 33, 128, 183, 18, 74, 0, 0, 0, 0, 73, 69, 78, 68, 174, 66, 96, 130]
}

#[test]
fn decodes_the_pixels_of_an_image() {
    let pixels = load_image_rgba(Some(two_by_two())).unwrap();
    assert_eq!(pixels, vec![255, 0, 0, 255, 0, 255, 0, 128, 0, 0, 255, 64, 10, 20, 30, 40]);
}

#[test]
fn decoded_pixels_are_not_the_file_bytes() {
    let file = two_by_two();
    let pixels = load_image_rgba(Some(file.clone())).unwrap();
    assert_eq!(pixels.len(), 16);
    assert_ne!(pixels, file);
}

#[test]
fn unreadable_file_is_an_io_error() {
    assert_eq!(load_image_rgba(None), Err(ImageError::IoError));
}

#[test]
fn bytes_that_are_no_image_are_a_decoding_error() {
    let r = load_image_rgba(Some(vec![1, 2, 3, 4, 5, 6, 7, 8, 9, 10]));
    assert!(matches!(r, Err(ImageError::Decoding(_))));
}

#[test]
fn empty_file_is_a_decoding_error() {
    let r = load_image_rgba(Some(Vec::new()));
    assert!(matches!(r, Err(ImageError::Decoding(_))));
}

#[test]
fn truncated_image_is_a_decoding_error() {
    let mut file = two_by_two();
    file.truncate(40);
    let r = load_image_rgba(Some(file));
    assert!(matches!(r, Err(ImageError::Decoding(_))));
}

#[test]
fn corrupted_checksum_is_a_decoding_error() {
    let mut file = two_by_two();
    file[29] ^= 0xff;
    let r = load_image_rgba(Some(file));
    assert!(matches!(r, Err(ImageError::Decoding(_))));
}

#[test]
fn decoding_error_carries_the_decoder_text() {
    match load_image_rgba(Some(vec![0; 8])) {
        Err(ImageError::Decoding(text)) => assert_eq!(text, "invalid signature"),
        _ => panic!("eight zero bytes were taken for an image"),
    }
}

#[test]
fn frame_buffer_is_zeroed() {
    assert_eq!(frame_buffer(0), Vec::<u8>::new());
    assert_eq!(frame_buffer(5), vec![0, 0, 0, 0, 0]);
}
