use moviebarcode::{
    decode_frame, BarcodeError, Color, Pipeline, Raster, Stage, BARCODE_HEIGHT, BARCODE_WIDTH,
    SAMPLING_MARGIN,
};

#[test]
fn end_to_end_three_solid_frames() {
    // A synthetic three-frame video: solid red, green, blue, reduced to a
    // 3 by 2 barcode whose columns are red, green, blue.
    let red = Color::new(255, 0, 0);
    let green = Color::new(0, 255, 0);
    let blue = Color::new(0, 0, 255);

    let mut pipeline = Pipeline::new();
    assert_eq!(pipeline.stage(), Stage::Initialized);

    let interval = pipeline.duration_known(3, 3, 0).unwrap();
    assert_eq!(pipeline.stage(), Stage::DurationKnown);
    assert_eq!(interval.seconds_num, 3);
    assert_eq!(interval.seconds_den, 3);

    let frames: Vec<Raster> =
        [red, green, blue].iter().map(|c| Raster::filled(4, 4, *c).unwrap()).collect();
    pipeline.frames_extracted(frames.len()).unwrap();
    assert_eq!(pipeline.stage(), Stage::FramesExtracted);

    let colors = pipeline.colors_computed(&frames).unwrap();
    assert_eq!(pipeline.stage(), Stage::ColorsComputed);
    assert_eq!(colors, vec![red, green, blue]);

    let barcode = pipeline.assemble_barcode(&colors, 3, 2).unwrap();
    assert_eq!(barcode.width(), 3);
    assert_eq!(barcode.height(), 2);
    for row in 0..2 {
        assert_eq!(barcode.pixel(0, row), red);
        assert_eq!(barcode.pixel(1, row), green);
        assert_eq!(barcode.pixel(2, row), blue);
    }

    let png = pipeline.encode_barcode(&barcode).unwrap();
    let round_tripped = decode_frame(&png).unwrap();
    assert_eq!(round_tripped, barcode);

    pipeline.image_saved();
    assert_eq!(pipeline.stage(), Stage::ImageSaved);
}

#[test]
fn pipeline_halts_on_zero_duration() {
    let mut pipeline = Pipeline::new();
    assert_eq!(
        pipeline.duration_known(0, BARCODE_WIDTH as u64, SAMPLING_MARGIN),
        Err(BarcodeError::ZeroOrInvalidDuration)
    );
    assert_eq!(pipeline.stage(), Stage::Initialized);
}

#[test]
fn pipeline_halts_when_no_frames_were_extracted() {
    let mut pipeline = Pipeline::new();
    pipeline.duration_known(120, BARCODE_WIDTH as u64, SAMPLING_MARGIN).unwrap();
    assert_eq!(pipeline.frames_extracted(0), Err(BarcodeError::ExtractionFailed));
    assert_eq!(pipeline.stage(), Stage::DurationKnown);
}

#[test]
fn pipeline_halts_on_empty_frame() {
    let mut pipeline = Pipeline::new();
    pipeline.duration_known(120, BARCODE_WIDTH as u64, SAMPLING_MARGIN).unwrap();
    pipeline.frames_extracted(2).unwrap();
    let frames = vec![
        Raster::filled(2, 2, Color::new(5, 5, 5)).unwrap(),
        Raster::new(3, 0, vec![]).unwrap(),
    ];
    assert_eq!(pipeline.colors_computed(&frames), Err(BarcodeError::EmptyImage));
    assert_eq!(pipeline.stage(), Stage::FramesExtracted);
}

#[test]
fn pipeline_reports_insufficient_frames() {
    let mut pipeline = Pipeline::new();
    pipeline.duration_known(120, BARCODE_WIDTH as u64, SAMPLING_MARGIN).unwrap();
    pipeline.frames_extracted(2).unwrap();
    let frames = vec![
        Raster::filled(2, 2, Color::new(5, 5, 5)).unwrap(),
        Raster::filled(2, 2, Color::new(6, 6, 6)).unwrap(),
    ];
    let colors = pipeline.colors_computed(&frames).unwrap();
    assert_eq!(
        pipeline.assemble_barcode(&colors, BARCODE_WIDTH, BARCODE_HEIGHT),
        Err(BarcodeError::InsufficientFrames { produced: 2, required: 1024 })
    );
}
