use moviebarcode::{BarcodeError, Color, FrameSequencer, Raster};

#[test]
fn sequence_preserves_temporal_order() {
    let colors = [
        Color::new(1, 2, 3),
        Color::new(4, 5, 6),
        Color::new(7, 8, 9),
        Color::new(250, 0, 128),
    ];
    let frames: Vec<Raster> =
        colors.iter().map(|c| Raster::filled(3, 2, *c).unwrap()).collect();
    let sequenced = FrameSequencer::sequence(&frames).unwrap();
    assert_eq!(sequenced.len(), 4);
    for (i, c) in colors.iter().enumerate() {
        assert_eq!(sequenced[i], *c);
    }
}

#[test]
fn sequence_of_no_frames_is_empty() {
    let frames: Vec<Raster> = vec![];
    assert_eq!(FrameSequencer::sequence(&frames), Ok(vec![]));
}

#[test]
fn sequence_fails_on_empty_frame() {
    let frames = vec![
        Raster::filled(2, 2, Color::new(1, 1, 1)).unwrap(),
        Raster::new(0, 3, vec![]).unwrap(),
        Raster::filled(2, 2, Color::new(2, 2, 2)).unwrap(),
    ];
    assert_eq!(FrameSequencer::sequence(&frames), Err(BarcodeError::EmptyImage));
}
