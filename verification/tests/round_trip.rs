use ansi_colour::{AllColours, Colour, ColourVariant, GreyScaleColour, NormalColour, RgbColour};
use ansi_colour::BrightColour;

#[test]
fn from_colour() {
    let mut it = AllColours.into_iter();
    while let Some(c) = it.next() {
        c.typ();
    }
}

#[test]
fn reflexive() {
    let mut it = AllColours.into_iter();
    while let Some(orig_c) = it.next() {
        let orig_t = orig_c.typ();
        let new_c = orig_t.colour();
        let new_t = new_c.typ();

        assert_eq!(orig_t, new_t);
        assert_eq!(orig_c, new_c);
    }
}

#[test]
fn classify_boundaries() {
    assert_eq!(Colour::from_code(0).typ(), ColourVariant::Normal(NormalColour::Black));
    assert_eq!(Colour::from_code(7).typ(), ColourVariant::Normal(NormalColour::Grey));
    assert_eq!(Colour::from_code(8).typ(), ColourVariant::Bright(BrightColour::DarkGrey));
    assert_eq!(Colour::from_code(15).typ(), ColourVariant::Bright(BrightColour::White));
    assert_eq!(
        Colour::from_code(16).typ(),
        ColourVariant::Rgb(RgbColour::new(0, 0, 0).unwrap())
    );
    assert_eq!(
        Colour::from_code(231).typ(),
        ColourVariant::Rgb(RgbColour::new(5, 5, 5).unwrap())
    );
    assert_eq!(
        Colour::from_code(232).typ(),
        ColourVariant::GreyScale(GreyScaleColour::new(0).unwrap())
    );
    assert_eq!(
        Colour::from_code(255).typ(),
        ColourVariant::GreyScale(GreyScaleColour::new(23).unwrap())
    );
}

#[test]
fn classify_base_six_digits() {
    // 100 = 16 + 36*2 + 6*2 + 0
    let v = Colour::from_code(100).typ();
    assert_eq!(v, ColourVariant::Rgb(RgbColour::new(2, 2, 0).unwrap()));
    match v {
        ColourVariant::Rgb(c) => {
            assert_eq!(c.red(), 2);
            assert_eq!(c.green(), 2);
            assert_eq!(c.blue(), 0);
        }
        _ => panic!("code 100 lies in the RGB cube range"),
    }
    // 240 = 232 + 8
    let g = Colour::from_code(240).typ();
    assert_eq!(g, ColourVariant::GreyScale(GreyScaleColour::new(8).unwrap()));
    match g {
        ColourVariant::GreyScale(c) => assert_eq!(c.level(), 8),
        _ => panic!("code 240 lies in the greyscale range"),
    }
}

#[test]
fn conversions() {
    let c = Colour::from_code(100);
    assert_eq!(u8::from(c), 100);
    assert_eq!(Colour::from(100u8), c);
    let v = ColourVariant::from(c);
    assert_eq!(v, c.typ());
    assert_eq!(Colour::from(v), c);
}
