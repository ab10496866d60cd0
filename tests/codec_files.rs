use screen_pds::{ExportError, ExportFormat, Frame, Region, decode_frame, encode_frame};

fn pattern(width: u32, height: u32) -> Frame {
    let mut bytes = Vec::new();
    for y in 0..height {
        for x in 0..width {
            bytes.extend_from_slice(&[(x * 7) as u8, (y * 13) as u8, (x ^ y) as u8, (200 + x % 50) as u8]);
        }
    }
    Frame::from_rgba(width, height, &bytes).unwrap()
}

#[test]
fn png_round_trip_is_exact() {
    let f = pattern(17, 9);
    let file = encode_frame(&f, ExportFormat::Png).unwrap();
    assert_eq!(&file[1..4], b"PNG");
    let back = decode_frame(&file).unwrap();
    assert_eq!((back.width(), back.height()), (17, 9));
    assert_eq!(back.to_rgba(), f.to_rgba());
}

#[test]
fn jpeg_keeps_the_size() {
    let f = pattern(16, 8);
    let file = encode_frame(&f, ExportFormat::Jpeg).unwrap();
    assert_eq!(&file[0..3], &[0xff, 0xd8, 0xff]);
    let back = decode_frame(&file).unwrap();
    assert_eq!((back.width(), back.height()), (16, 8));
}

#[test]
fn gif_keeps_the_size() {
    let f = pattern(12, 5);
    let file = encode_frame(&f, ExportFormat::Gif).unwrap();
    assert_eq!(&file[0..3], b"GIF");
    let back = decode_frame(&file).unwrap();
    assert_eq!((back.width(), back.height()), (12, 5));
}

#[test]
fn gif_of_empty_frame_is_refused() {
    let f = Frame::from_rgba(0, 3, &Vec::new()).unwrap();
    assert_eq!(encode_frame(&f, ExportFormat::Gif), Err(ExportError::Size));
}

#[test]
fn gif_of_wide_frame_is_refused() {
    let f = Frame::from_rgba(70000, 1, &vec![0u8; 70000 * 4]).unwrap();
    assert_eq!(encode_frame(&f, ExportFormat::Gif), Err(ExportError::Size));
    assert_eq!(encode_frame(&f, ExportFormat::Jpeg), Err(ExportError::Size));
}

#[test]
fn empty_frame_is_refused_by_every_format() {
    let f = Frame::from_rgba(0, 0, &Vec::new()).unwrap();
    assert_eq!(encode_frame(&f, ExportFormat::Png), Err(ExportError::Size));
    assert_eq!(encode_frame(&f, ExportFormat::Jpeg), Err(ExportError::Size));
    let g = Frame::from_rgba(4, 0, &Vec::new()).unwrap();
    assert_eq!(encode_frame(&g, ExportFormat::Png), Err(ExportError::Size));
}

#[test]
fn largest_jpeg_and_gif_sides_are_accepted() {
    let f = Frame::from_rgba(65535, 1, &vec![90u8; 65535 * 4]).unwrap();
    assert!(encode_frame(&f, ExportFormat::Jpeg).is_ok());
    assert!(encode_frame(&f, ExportFormat::Gif).is_ok());
}

#[test]
fn wide_png_is_accepted() {
    let f = Frame::from_rgba(70000, 1, &vec![7u8; 70000 * 4]).unwrap();
    let file = encode_frame(&f, ExportFormat::Png).unwrap();
    let back = decode_frame(&file).unwrap();
    assert_eq!(back.to_rgba(), f.to_rgba());
}

#[test]
fn garbage_is_not_an_image() {
    assert!(decode_frame(&vec![1, 2, 3, 4, 5]).is_none());
    assert!(decode_frame(&Vec::new()).is_none());
}

#[test]
fn cropped_capture_exports_with_crop_size() {
    let capture = pattern(200, 100);
    let cropped = capture.crop(Region { x: 10, y: 10, width: 50, height: 30 });
    let file = encode_frame(&cropped, ExportFormat::Png).unwrap();
    let back = decode_frame(&file).unwrap();
    assert_eq!((back.width(), back.height()), (50, 30));
    assert_eq!(back.pixel(0, 0), capture.pixel(10, 10));
    assert_eq!(back.pixel(49, 29), capture.pixel(59, 39));
}
