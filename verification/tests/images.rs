use drawing_diff::Images;
use drawing_diff::Pixel;
use drawing_diff::RasterImage;

fn px(r: u8, g: u8, b: u8) -> Pixel {
    Pixel::new(r, g, b, 255)
}

fn img(width: u32, height: u32, pixels: Vec<Pixel>) -> RasterImage {
    RasterImage::from_pixels(width, height, pixels).expect("pixel count matches the dimensions")
}

fn decode_bmp(bytes: &[u8]) -> image::RgbaImage {
    image::load_from_memory_with_format(bytes, image::ImageFormat::Bmp)
        .expect("the library writes valid BMP")
        .into_rgba8()
}

#[test]
fn encoded_artifacts_decode_to_the_diff() {
    let before = img(2, 1, vec![px(0, 0, 0), px(10, 10, 10)]);
    let after = img(2, 1, vec![px(0, 0, 0), px(20, 20, 20)]);
    let images = Images::generate(&before, &after);

    let added = decode_bmp(&images.added);
    assert_eq!((added.width(), added.height()), (2, 1));
    assert_eq!(added.get_pixel(0, 0).0, [255, 255, 255, 255]);
    assert_eq!(added.get_pixel(1, 0).0, [20, 20, 20, 255]);

    let removed = decode_bmp(&images.removed);
    assert_eq!((removed.width(), removed.height()), (2, 1));
    assert_eq!(removed.get_pixel(0, 0).0, [255, 255, 255, 255]);
    assert_eq!(removed.get_pixel(1, 0).0, [10, 10, 10, 255]);
}

#[test]
fn encoded_inputs_pass_through_at_their_own_size() {
    let before = img(1, 2, vec![px(1, 2, 3), px(4, 5, 6)]);
    let after = img(2, 1, vec![px(7, 8, 9), px(10, 11, 12)]);
    let images = Images::generate(&before, &after);

    let b = decode_bmp(&images.before);
    assert_eq!((b.width(), b.height()), (1, 2));
    assert_eq!(b.get_pixel(0, 0).0, [1, 2, 3, 255]);
    assert_eq!(b.get_pixel(0, 1).0, [4, 5, 6, 255]);

    let a = decode_bmp(&images.after);
    assert_eq!((a.width(), a.height()), (2, 1));
    assert_eq!(a.get_pixel(0, 0).0, [7, 8, 9, 255]);
    assert_eq!(a.get_pixel(1, 0).0, [10, 11, 12, 255]);
}

#[test]
fn to_rgba_bytes_flattens_row_major() {
    let image = img(2, 1, vec![Pixel::new(1, 2, 3, 4), Pixel::new(5, 6, 7, 8)]);
    assert_eq!(image.to_rgba_bytes(), vec![1, 2, 3, 4, 5, 6, 7, 8]);
}
