use gpu_life::raster::decode_raster;

fn encode_gray_png(width: u32, height: u32, pixels: Vec<u8>) -> Vec<u8> {
    let img = image::GrayImage::from_raw(width, height, pixels).unwrap();
    let mut bytes: Vec<u8> = Vec::new();
    img.write_to(&mut std::io::Cursor::new(&mut bytes), image::ImageFormat::Png)
        .unwrap();
    bytes
}

#[test]
fn decode_round_trips_gray_pixels() {
    let bytes = encode_gray_png(2, 2, vec![10, 20, 30, 40]);
    let raster = decode_raster(&bytes).unwrap();
    assert_eq!(raster.width, 2);
    assert_eq!(raster.height, 2);
    assert_eq!(raster.pixels, vec![10, 20, 30, 40]);
}

#[test]
fn decode_keeps_row_major_order() {
    let bytes = encode_gray_png(3, 1, vec![255, 0, 255]);
    let raster = decode_raster(&bytes).unwrap();
    assert_eq!(raster.width, 3);
    assert_eq!(raster.height, 1);
    assert_eq!(raster.pixels, vec![255, 0, 255]);
}

#[test]
fn decode_is_a_function_of_the_bytes() {
    let bytes = encode_gray_png(2, 2, vec![10, 20, 30, 40]);
    let first = decode_raster(&bytes).unwrap();
    let second = decode_raster(&bytes).unwrap();
    assert_eq!(first.width, second.width);
    assert_eq!(first.height, second.height);
    assert_eq!(first.pixels, second.pixels);
}

#[test]
fn undecodable_bytes_are_an_error() {
    let garbage: Vec<u8> = vec![1, 2, 3, 4, 5];
    assert!(decode_raster(&garbage).is_err());
}
