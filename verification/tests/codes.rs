use ansi_colour::{
    colours, BrightColour, Colour, Error, GreyScaleColour, NormalColour, RgbColour,
    NUM_BRIGHT_COLOURS, NUM_GREY_SCALE_COLOURS, NUM_NORMAL_COLOURS, NUM_RGB_COLOURS,
};

#[test]
fn num_colours() {
    const NUM_COLOURS: usize = 256;
    assert_eq!(
        NUM_NORMAL_COLOURS + NUM_BRIGHT_COLOURS + NUM_RGB_COLOURS + NUM_GREY_SCALE_COLOURS,
        NUM_COLOURS
    );
}

#[test]
fn fixed_points() {
    assert_eq!(NormalColour::Black.code(), 0);
    assert_eq!(BrightColour::White.code(), 15);
    assert_eq!(RgbColour::new(5, 5, 5).unwrap().code(), 231);
    assert_eq!(GreyScaleColour::new(0).unwrap().code(), 232);
    assert_eq!(GreyScaleColour::new(23).unwrap().code(), 255);
}

#[test]
fn rgb_range_validation() {
    assert!(matches!(RgbColour::new(6, 0, 0), Err(Error::RangeError(6))));
    assert_eq!(RgbColour::new(0, 0, 0).unwrap().code(), 16);
    assert!(matches!(Colour::rgb(6, 0, 0), Err(Error::RangeError(6))));
    assert_eq!(Colour::rgb(0, 0, 0).unwrap().code(), 16);
}

#[test]
fn rgb_first_bad_channel_reported() {
    // channels are validated red first, then green, then blue
    assert!(matches!(RgbColour::new(9, 8, 7), Err(Error::RangeError(9))));
    assert!(matches!(RgbColour::new(1, 8, 7), Err(Error::RangeError(8))));
    assert!(matches!(RgbColour::new(1, 2, 9), Err(Error::RangeError(9))));
    assert!(matches!(Colour::rgb(1, 8, 7), Err(Error::RangeError(8))));
}

#[test]
fn grey_scale_range_validation() {
    assert!(matches!(GreyScaleColour::new(24), Err(Error::RangeError(24))));
    assert_eq!(GreyScaleColour::new(23).unwrap().code(), 255);
    assert!(matches!(Colour::grey_scale(24), Err(Error::RangeError(24))));
    assert_eq!(Colour::grey_scale(23).unwrap().code(), 255);
}

#[test]
fn accessors_return_stored_values() {
    let c = RgbColour::new(1, 2, 3).unwrap();
    assert_eq!(c.red(), 1);
    assert_eq!(c.green(), 2);
    assert_eq!(c.blue(), 3);
    assert_eq!(c.code(), 16 + 36 + 12 + 3);
    assert_eq!(GreyScaleColour::new(11).unwrap().level(), 11);
}

#[test]
fn variant_codes_agree() {
    let samples = vec![
        ansi_colour::ColourVariant::Normal(NormalColour::Magenta),
        ansi_colour::ColourVariant::Bright(BrightColour::Cyan),
        ansi_colour::ColourVariant::Rgb(RgbColour::new(4, 0, 5).unwrap()),
        ansi_colour::ColourVariant::GreyScale(GreyScaleColour::new(17).unwrap()),
    ];
    for variant in samples {
        assert_eq!(variant.code(), variant.colour().code());
    }
}

#[test]
fn named_colours() {
    assert_eq!(colours::black().code(), 0);
    assert_eq!(colours::red().code(), 1);
    assert_eq!(colours::green().code(), 2);
    assert_eq!(colours::yellow().code(), 3);
    assert_eq!(colours::blue().code(), 4);
    assert_eq!(colours::magenta().code(), 5);
    assert_eq!(colours::cyan().code(), 6);
    assert_eq!(colours::grey().code(), 7);
    assert_eq!(colours::dark_grey().code(), 8);
    assert_eq!(colours::bright_red().code(), 9);
    assert_eq!(colours::bright_green().code(), 10);
    assert_eq!(colours::bright_yellow().code(), 11);
    assert_eq!(colours::bright_blue().code(), 12);
    assert_eq!(colours::bright_magenta().code(), 13);
    assert_eq!(colours::bright_cyan().code(), 14);
    assert_eq!(colours::white().code(), 15);
}
