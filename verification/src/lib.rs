//! Codec for the 256-colour terminal palette: a bijection between single-byte
//! colour codes and a structured view that distinguishes the four sub-palettes
//! (8 normal colours, 8 bright colours, a 6x6x6 RGB cube, and a 24-step
//! greyscale ramp).

mod colour;
pub mod colours;
mod iter;

pub use rgb24::Rgb24;

pub use colour::{
    BrightColour, Error, NormalColour, MAX_GREY_SCALE, MAX_RGB_CHANNEL, NUM_BRIGHT_COLOURS,
    NUM_GREY_SCALE_COLOURS, NUM_NORMAL_COLOURS, NUM_RGB_COLOURS, NUM_RGB_COLOURS_PER_CHANNEL,
};
pub use colour::{Colour, ColourVariant, GreyScaleColour, RgbColour};
pub use colour::{
    encode_rgb24, encode_rgb24_components, lemma_classification_total, lemma_classify_of_code,
    lemma_code_of_classify, lemma_partition_sizes, spec_classify, spec_classify_grey_scale,
    spec_classify_rgb,
};
pub use colour::{
    spec_bright_from_offset, spec_grey_scale_code, spec_normal_from_offset, spec_rgb_code,
    spec_scale_channel,
};
pub use iter::{
    lemma_remaining_ascending, AllColours, BrightColours, ColourIter, GreyScaleColours,
    NormalColours, RgbColours,
};
