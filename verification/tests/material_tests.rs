use renderer_backend::material::{Material, MaterialError};

fn png_bytes(img: image::RgbaImage) -> Vec<u8> {
    let mut buf: Vec<u8> = Vec::new();
    image::DynamicImage::ImageRgba8(img)
        .write_to(&mut std::io::Cursor::new(&mut buf), image::ImageFormat::Png)
        .unwrap();
    buf
}

#[test]
fn material_from_small_image() {
    let mut img = image::RgbaImage::new(2, 2);
    img.put_pixel(0, 0, image::Rgba([10, 11, 12, 13]));
    img.put_pixel(1, 0, image::Rgba([20, 21, 22, 23]));
    img.put_pixel(0, 1, image::Rgba([30, 31, 32, 33]));
    img.put_pixel(1, 1, image::Rgba([40, 41, 42, 43]));
    let m = Material::new(&png_bytes(img)).unwrap();
    assert_eq!(m.width, 2);
    assert_eq!(m.height, 2);
    assert_eq!(m.bytes_per_row, 8);
    assert_eq!(m.rows_per_image, 2);
    assert_eq!(
        m.texture_bytes,
        vec![10, 11, 12, 13, 20, 21, 22, 23, 30, 31, 32, 33, 40, 41, 42, 43]
    );
}

#[test]
fn material_rejects_bad_bytes() {
    let r = Material::new(b"not an image at all");
    assert!(matches!(r, Err(MaterialError::Decode)));
}

#[test]
fn material_clamps_large_image_to_one_tile() {
    let mut img = image::RgbaImage::new(1100, 30);
    img.put_pixel(1023, 29, image::Rgba([200, 201, 202, 203]));
    let m = Material::new(&png_bytes(img)).unwrap();
    assert_eq!(m.width, 1024);
    assert_eq!(m.height, 30);
    assert_eq!(m.bytes_per_row, 4096);
    assert_eq!(m.rows_per_image, 30);
    assert_eq!(m.texture_bytes.len(), 1024 * 30 * 4);
    let base = ((29 * 1024 + 1023) * 4) as usize;
    assert_eq!(&m.texture_bytes[base..base + 4], &[200, 201, 202, 203]);
}

#[test]
fn tiling_splits_large_image_row_major() {
    let mut img = image::RgbaImage::new(1100, 1050);
    img.put_pixel(1030, 1040, image::Rgba([99, 98, 97, 96]));
    let tiles = Material::tile_image(&png_bytes(img), true).unwrap();
    assert_eq!(tiles.len(), 4);
    assert_eq!((tiles[0].0, tiles[0].1), (0, 0));
    assert_eq!(tiles[0].2.dimensions(), (1024, 1024));
    assert_eq!((tiles[1].0, tiles[1].1), (1024, 0));
    assert_eq!(tiles[1].2.dimensions(), (76, 1024));
    assert_eq!((tiles[2].0, tiles[2].1), (0, 1024));
    assert_eq!(tiles[2].2.dimensions(), (1024, 26));
    assert_eq!((tiles[3].0, tiles[3].1), (1024, 1024));
    assert_eq!(tiles[3].2.dimensions(), (76, 26));
    assert_eq!(tiles[3].2.pixel_at(1030 - 1024, 1040 - 1024), Some((99, 98, 97, 96)));
    assert_eq!(tiles[3].2.pixel_at(0, 0), Some((0, 0, 0, 0)));
    assert_eq!(tiles[3].2.pixel_at(76, 0), None);
}

#[test]
fn tiling_keeps_small_image_whole() {
    let mut img = image::RgbaImage::new(10, 7);
    img.put_pixel(9, 6, image::Rgba([1, 2, 3, 4]));
    let tiles = Material::tile_image(&png_bytes(img), true).unwrap();
    assert_eq!(tiles.len(), 1);
    assert_eq!((tiles[0].0, tiles[0].1), (0, 0));
    assert_eq!(tiles[0].2.dimensions(), (10, 7));
    assert_eq!(tiles[0].2.pixel_at(9, 6), Some((1, 2, 3, 4)));
}

#[test]
fn no_tiling_cuts_single_clamped_tile() {
    let img = image::RgbaImage::new(1100, 1050);
    let tiles = Material::tile_image(&png_bytes(img), false).unwrap();
    assert_eq!(tiles.len(), 1);
    assert_eq!((tiles[0].0, tiles[0].1), (0, 0));
    assert_eq!(tiles[0].2.dimensions(), (1024, 1024));
}

#[test]
fn tile_image_rejects_bad_bytes() {
    let r = Material::tile_image(&[1, 2, 3], true);
    assert!(r.is_err());
}
