use lumina::texture::{flip_rows, texture_image, ErrorKind};

fn png_bytes(width: u32, height: u32, pixels: Vec<u8>) -> Vec<u8> {
    let img = image::RgbaImage::from_raw(width, height, pixels).unwrap();
    let mut out = std::io::Cursor::new(Vec::new());
    img.write_to(&mut out, image::ImageOutputFormat::Png).unwrap();
    out.into_inner()
}

#[test]
fn flip_two_rows() {
    let pixels: Vec<u8> = (0u8..16).collect();
    let flipped = flip_rows(&pixels, 2, 2);
    assert_eq!(
        flipped,
        vec![8, 9, 10, 11, 12, 13, 14, 15, 0, 1, 2, 3, 4, 5, 6, 7]
    );
}

#[test]
fn flip_three_rows_of_one_pixel() {
    let pixels: Vec<u8> = vec![1, 1, 1, 1, 2, 2, 2, 2, 3, 3, 3, 3];
    assert_eq!(flip_rows(&pixels, 1, 3), vec![3, 3, 3, 3, 2, 2, 2, 2, 1, 1, 1, 1]);
}

#[test]
fn flip_empty_and_single_row() {
    assert_eq!(flip_rows(&Vec::new(), 5, 0), Vec::<u8>::new());
    assert_eq!(flip_rows(&Vec::new(), 0, 4), Vec::<u8>::new());
    let one = vec![9, 8, 7, 6, 5, 4, 3, 2];
    assert_eq!(flip_rows(&one, 2, 1), one);
}

#[test]
fn texture_from_png_is_bottom_row_first() {
    let pixels: Vec<u8> = vec![
        255, 0, 0, 255, 0, 255, 0, 255, // top row: red, green
        0, 0, 255, 255, 10, 20, 30, 40, // bottom row: blue, a grey
    ];
    let bytes = png_bytes(2, 2, pixels);
    let t = texture_image(&bytes).unwrap();
    assert_eq!((t.width, t.height), (2, 2));
    assert_eq!(
        t.pixels,
        vec![0, 0, 255, 255, 10, 20, 30, 40, 255, 0, 0, 255, 0, 255, 0, 255]
    );
}

#[test]
fn texture_from_garbage_fails() {
    let r = texture_image(&vec![1, 2, 3, 4, 5]);
    assert_eq!(r.unwrap_err(), ErrorKind::ResourceLoad);
    assert_eq!(texture_image(&Vec::new()).unwrap_err(), ErrorKind::ResourceLoad);
}
