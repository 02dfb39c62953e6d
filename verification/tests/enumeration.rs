use ansi_colour::{
    AllColours, BrightColours, Colour, GreyScaleColours, NormalColours, RgbColours,
};

#[test]
fn full_palette_is_ascending_and_gap_free() {
    let mut it = Colour::all();
    let mut count: usize = 0;
    while let Some(c) = it.next() {
        assert_eq!(c.code() as usize, count);
        count += 1;
    }
    assert_eq!(count, 256);
    // a single instance is exhausted for good
    assert!(it.next().is_none());
}

#[test]
fn producers_are_restartable() {
    let mut first = AllColours.into_iter();
    assert_eq!(first.next().unwrap().code(), 0);
    let mut fresh = AllColours.into_iter();
    assert_eq!(fresh.next().unwrap().code(), 0);
}

#[test]
fn sub_palette_counts() {
    let mut count: usize = 0;
    let mut it = NormalColours.into_iter();
    while let Some(c) = it.next() {
        assert_eq!(c.code() as usize, count);
        count += 1;
    }
    assert_eq!(count, 8);

    count = 0;
    let mut it = BrightColours.into_iter();
    while let Some(c) = it.next() {
        assert_eq!(c.code() as usize, 8 + count);
        count += 1;
    }
    assert_eq!(count, 8);

    count = 0;
    let mut it = RgbColours.into_iter();
    while let Some(c) = it.next() {
        assert_eq!(c.code() as usize, 16 + count);
        count += 1;
    }
    assert_eq!(count, 216);

    count = 0;
    let mut it = GreyScaleColours.into_iter();
    while let Some(c) = it.next() {
        assert_eq!(c.code() as usize, 232 + count);
        count += 1;
    }
    assert_eq!(count, 24);
}
