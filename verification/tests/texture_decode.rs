use hello_wgpu::texture::ImageTexture;
use image::{ImageFormat, Rgba, RgbaImage};
use std::io::Cursor;

fn png_bytes_256() -> Vec<u8> {
    let mut img = RgbaImage::new(256, 256);
    for (x, y, p) in img.enumerate_pixels_mut() {
        *p = Rgba([x as u8, y as u8, 7, 255]);
    }
    let mut buf = Vec::new();
    img.write_to(&mut Cursor::new(&mut buf), ImageFormat::Png).unwrap();
    buf
}

#[test]
fn valid_png_reports_its_extent() {
    let t = ImageTexture::from_bytes(&png_bytes_256()).unwrap();
    assert_eq!(t.width(), 256);
    assert_eq!(t.height(), 256);
    assert_eq!(t.pixels.len(), 4 * 256 * 256);
    assert_eq!(t.bytes_per_row(), 4 * 256);
}

#[test]
fn decoded_pixels_match_what_was_encoded() {
    let t = ImageTexture::from_bytes(&png_bytes_256()).unwrap();
    let at = |x: usize, y: usize| {
        let o = (y * 256 + x) * 4;
        [t.pixels[o], t.pixels[o + 1], t.pixels[o + 2], t.pixels[o + 3]]
    };
    assert_eq!(at(3, 2), [3, 2, 7, 255]);
    assert_eq!(at(255, 0), [255, 0, 7, 255]);
    assert_eq!(at(0, 255), [0, 255, 7, 255]);
}

#[test]
fn decoding_the_same_bytes_twice_agrees() {
    let bytes = png_bytes_256();
    let t1 = ImageTexture::from_bytes(&bytes).unwrap();
    let t2 = ImageTexture::from_bytes(&bytes).unwrap();
    assert_eq!(t1.width(), t2.width());
    assert_eq!(t1.height(), t2.height());
    assert_eq!(t1.pixels, t2.pixels);
}

#[test]
fn truncated_png_is_a_decode_error() {
    let bytes = png_bytes_256();
    let truncated = &bytes[..bytes.len() / 2];
    assert!(ImageTexture::from_bytes(truncated).is_err());
}

#[test]
fn garbage_bytes_are_a_decode_error() {
    let garbage: Vec<u8> = (0..64u32).map(|i| (i * 37 % 251) as u8).collect();
    assert!(ImageTexture::from_bytes(&garbage).is_err());
}
