use moviebarcode::{BarcodeError, Color, Config};

#[test]
fn config_new_reads_both_paths() {
    let args = vec![
        String::from("moviebarcode"),
        String::from("input.mp4"),
        String::from("output.png"),
    ];
    let config = Config::new(&args).unwrap();
    assert_eq!(config.input_video_path(), "input.mp4");
    assert_eq!(config.output_image_path(), "output.png");
}

#[test]
fn config_new_rejects_missing_arguments() {
    let args = vec![String::from("moviebarcode"), String::from("input.mp4")];
    assert_eq!(Config::new(&args).unwrap_err(), "Not enough arguments");
    let no_args: Vec<String> = vec![];
    assert_eq!(Config::new(&no_args).unwrap_err(), "Not enough arguments");
}

#[test]
fn error_messages_name_the_failure() {
    assert_eq!(
        BarcodeError::ZeroOrInvalidDuration.message(),
        "video duration is zero or invalid"
    );
    assert_eq!(
        BarcodeError::InsufficientFrames { produced: 2, required: 3 }.message(),
        "fewer frames than the output width"
    );
}

#[test]
fn color_new_keeps_channels() {
    let c = Color::new(1, 2, 3);
    assert_eq!((c.r, c.g, c.b), (1, 2, 3));
}
