use moviebarcode::{BarcodeAssembler, BarcodeError, Color, Raster};

fn check_columns(img: &Raster, colors: &[Color]) {
    for col in 0..img.width() {
        for row in 0..img.height() {
            assert_eq!(img.pixel(col, row), colors[col]);
        }
    }
}

#[test]
fn assemble_exact_width_fills_every_column() {
    let colors = vec![Color::new(9, 0, 0), Color::new(0, 9, 0), Color::new(0, 0, 9)];
    let img = BarcodeAssembler::assemble(&colors, 3, 2).unwrap();
    assert_eq!(img.width(), 3);
    assert_eq!(img.height(), 2);
    assert_eq!(img.pixels().len(), 6);
    check_columns(&img, &colors);
}

#[test]
fn assemble_ignores_colors_beyond_width() {
    let colors = vec![
        Color::new(1, 1, 1),
        Color::new(2, 2, 2),
        Color::new(3, 3, 3),
        Color::new(4, 4, 4),
    ];
    let img = BarcodeAssembler::assemble(&colors, 3, 4).unwrap();
    assert_eq!(img.width(), 3);
    check_columns(&img, &colors[..3]);
}

#[test]
fn assemble_with_too_few_colors_fails() {
    let colors = vec![Color::new(1, 1, 1), Color::new(2, 2, 2)];
    assert_eq!(
        BarcodeAssembler::assemble(&colors, 3, 2),
        Err(BarcodeError::InsufficientFrames { produced: 2, required: 3 })
    );
}

#[test]
fn assemble_single_column() {
    let colors = vec![Color::new(200, 100, 50)];
    let img = BarcodeAssembler::assemble(&colors, 1, 3).unwrap();
    assert_eq!(img.width(), 1);
    assert_eq!(img.height(), 3);
    check_columns(&img, &colors);
}
