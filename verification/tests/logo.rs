use fxst::ui::logo::Logo;
use std::io::Cursor;

fn png_bytes(width: u32, height: u32, pixels: Vec<u8>) -> Vec<u8> {
    let image = image::RgbaImage::from_raw(width, height, pixels).unwrap();
    let mut out = Cursor::new(Vec::new());
    image.write_to(&mut out, image::ImageFormat::Png).unwrap();
    out.into_inner()
}

#[test]
fn decodes_a_png() {
    let pixels: Vec<u8> = (0..24u8).collect();
    let bytes = png_bytes(3, 2, pixels.clone());
    let logo = Logo::decode(&bytes).unwrap();
    assert_eq!(logo.size(), (3, 2));
    assert_eq!(logo.pixels(), &pixels);
    assert_eq!(logo.pixels().len(), 4 * 3 * 2);
    assert_eq!(logo.into_pixels(), pixels);
}

#[test]
fn decodes_a_grey_png_into_rgba() {
    let grey = image::GrayImage::from_raw(2, 1, vec![10, 200]).unwrap();
    let mut out = Cursor::new(Vec::new());
    grey.write_to(&mut out, image::ImageFormat::Png).unwrap();
    let logo = Logo::decode(&out.into_inner()).unwrap();
    assert_eq!(logo.size(), (2, 1));
    assert_eq!(logo.pixels(), &vec![10, 10, 10, 255, 200, 200, 200, 255]);
}

#[test]
fn rejects_what_is_not_a_png() {
    let err = Logo::decode(b"not an image at all").err().unwrap();
    assert!(!err.message.is_empty());
    let err = Logo::decode(&[]).err().unwrap();
    assert!(!err.message.is_empty());
}

#[test]
fn from_rgba8_checks_the_buffer() {
    let logo = Logo::from_rgba8(2, 2, vec![0; 16]).unwrap();
    assert_eq!(logo.size(), (2, 2));
    assert_eq!(logo.pixels(), &vec![0; 16]);
    assert!(Logo::from_rgba8(2, 2, vec![0; 15]).is_none());
    assert!(Logo::from_rgba8(1, 1, vec![1, 2, 3, 4, 5]).is_none());
    assert_eq!(Logo::from_rgba8(1, 1, vec![1, 2, 3, 4]).unwrap().pixels(), &vec![1, 2, 3, 4]);
    assert!(Logo::from_rgba8(0, 7, vec![]).is_some());
    assert!(Logo::from_rgba8(0, 7, vec![0]).is_none());
    assert!(Logo::from_rgba8(u32::MAX, u32::MAX, vec![0; 4]).is_none());
}

#[test]
fn error_message_is_the_decoders_text() {
    let bytes: &[u8] = b"\x89PNG\r\n\x1a\nbroken";
    let expected = image::load_from_memory_with_format(bytes, image::ImageFormat::Png)
        .err()
        .unwrap()
        .to_string();
    let err = Logo::decode(bytes).err().unwrap();
    assert_eq!(err.message, expected);
}
