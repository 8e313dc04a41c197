use moviebarcode::{decode_frame, encode_png, BarcodeError, Color, Raster};

#[test]
fn png_round_trip_preserves_every_pixel() {
    let pixels = vec![
        Color::new(255, 0, 0),
        Color::new(0, 255, 0),
        Color::new(0, 0, 255),
        Color::new(17, 34, 51),
    ];
    let raster = Raster::new(2, 2, pixels.clone()).unwrap();
    let png = encode_png(&raster).unwrap();
    let decoded = decode_frame(&png).unwrap();
    assert_eq!(decoded.width(), 2);
    assert_eq!(decoded.height(), 2);
    assert_eq!(decoded.pixels(), &pixels);
}

#[test]
fn encode_rejects_zero_dimensions() {
    let zero_by_zero = Raster::new(0, 0, vec![]).unwrap();
    assert_eq!(encode_png(&zero_by_zero), Err(BarcodeError::EncodeOrWriteFailed));
    let zero_height = Raster::new(3, 0, vec![]).unwrap();
    assert_eq!(encode_png(&zero_height), Err(BarcodeError::EncodeOrWriteFailed));
}

#[test]
fn encode_is_a_function_of_the_grid() {
    let raster =
        Raster::new(2, 1, vec![Color::new(1, 2, 3), Color::new(4, 5, 6)]).unwrap();
    let first = encode_png(&raster).unwrap();
    let second = encode_png(&raster).unwrap();
    assert_eq!(first, second);
    assert!(!first.is_empty());
}

#[test]
fn decode_rejects_garbage() {
    assert_eq!(decode_frame(&[1, 2, 3, 4]), Err(BarcodeError::DecodeFailed));
}
