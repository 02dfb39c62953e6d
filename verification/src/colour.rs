//! The core codec: the partition of the byte space into four sub-palettes,
//! the arithmetic mapping each structured colour to its byte code and back,
//! and the proofs that the two directions are mutually inverse.

use crate::iter::{AllColours, ColourIter};
use rgb24::Rgb24;
use vstd::arithmetic::div_mod::{
    lemma_div_denominator, lemma_div_is_ordered, lemma_fundamental_div_mod,
    lemma_fundamental_div_mod_converse, lemma_mod_bound,
};
use vstd::prelude::*;

verus! {

/// The single fallible path: a structured constructor was handed a value
/// outside its closed interval. Carries the offending input.
#[derive(Clone, Copy, Debug, PartialEq, Eq, Structural)]
pub enum Error {
    RangeError(u8),
}

/// Number of colours in the normal sub-palette (codes 0-7).
pub const NUM_NORMAL_COLOURS: usize = 8;

/// Number of colours in the bright sub-palette (codes 8-15).
pub const NUM_BRIGHT_COLOURS: usize = 8;

/// Number of colours in the 6x6x6 RGB cube (codes 16-231).
pub const NUM_RGB_COLOURS: usize = 216;

/// Number of colours in the greyscale ramp (codes 232-255).
pub const NUM_GREY_SCALE_COLOURS: usize = 24;

/// Number of distinct values of a single RGB cube channel.
pub const NUM_RGB_COLOURS_PER_CHANNEL: usize = 6;

/// Largest value of a single RGB cube channel.
pub const MAX_RGB_CHANNEL: usize = 5;

/// Largest greyscale level.
pub const MAX_GREY_SCALE: usize = 23;

/// The eight normal colours, at codes 0-7.
#[derive(Clone, Copy, Debug, PartialEq, Eq, Hash, Structural)]
pub enum NormalColour {
    Black,
    Red,
    Green,
    Yellow,
    Blue,
    Magenta,
    Cyan,
    Grey,
}

impl NormalColour {
    /// Byte code of this colour: its fixed offset within the range 0-7.
    pub open spec fn spec_code(self) -> u8 {
        match self {
            NormalColour::Black => 0,
            NormalColour::Red => 1,
            NormalColour::Green => 2,
            NormalColour::Yellow => 3,
            NormalColour::Blue => 4,
            NormalColour::Magenta => 5,
            NormalColour::Cyan => 6,
            NormalColour::Grey => 7,
        }
    }

    pub fn code(self) -> (b: u8)
        ensures
            b == self.spec_code(),
    {
        match self {
            NormalColour::Black => 0,
            NormalColour::Red => 1,
            NormalColour::Green => 2,
            NormalColour::Yellow => 3,
            NormalColour::Blue => 4,
            NormalColour::Magenta => 5,
            NormalColour::Cyan => 6,
            NormalColour::Grey => 7,
        }
    }
}

/// The normal colour sitting at offset `o` of the range 0-7
/// (total: offsets past the range also answer `Grey`, which
/// classification never asks for).
pub open spec fn spec_normal_from_offset(o: u8) -> NormalColour {
    if o == 0 {
        NormalColour::Black
    } else if o == 1 {
        NormalColour::Red
    } else if o == 2 {
        NormalColour::Green
    } else if o == 3 {
        NormalColour::Yellow
    } else if o == 4 {
        NormalColour::Blue
    } else if o == 5 {
        NormalColour::Magenta
    } else if o == 6 {
        NormalColour::Cyan
    } else {
        NormalColour::Grey
    }
}

/// The eight bright colours, at codes 8-15.
#[derive(Clone, Copy, Debug, PartialEq, Eq, Hash, Structural)]
pub enum BrightColour {
    DarkGrey,
    Red,
    Green,
    Yellow,
    Blue,
    Magenta,
    Cyan,
    White,
}

impl BrightColour {
    /// Byte code of this colour: its fixed offset within the range 8-15.
    pub open spec fn spec_code(self) -> u8 {
        match self {
            BrightColour::DarkGrey => 8,
            BrightColour::Red => 9,
            BrightColour::Green => 10,
            BrightColour::Yellow => 11,
            BrightColour::Blue => 12,
            BrightColour::Magenta => 13,
            BrightColour::Cyan => 14,
            BrightColour::White => 15,
        }
    }

    pub fn code(self) -> (b: u8)
        ensures
            b == self.spec_code(),
    {
        match self {
            BrightColour::DarkGrey => 8,
            BrightColour::Red => 9,
            BrightColour::Green => 10,
            BrightColour::Yellow => 11,
            BrightColour::Blue => 12,
            BrightColour::Magenta => 13,
            BrightColour::Cyan => 14,
            BrightColour::White => 15,
        }
    }
}

/// The bright colour sitting at offset `o` of the range 0-7,
/// i.e. at code `8 + o`.
pub open spec fn spec_bright_from_offset(o: u8) -> BrightColour {
    if o == 0 {
        BrightColour::DarkGrey
    } else if o == 1 {
        BrightColour::Red
    } else if o == 2 {
        BrightColour::Green
    } else if o == 3 {
        BrightColour::Yellow
    } else if o == 4 {
        BrightColour::Blue
    } else if o == 5 {
        BrightColour::Magenta
    } else if o == 6 {
        BrightColour::Cyan
    } else {
        BrightColour::White
    }
}

/// Byte code of an RGB cube entry: base-6 positional encoding, red most
/// significant, offset past the two 8-entry sub-palettes.
pub open spec fn spec_rgb_code(red: u8, green: u8, blue: u8) -> u8 {
    (16 + 36 * (red as int) + 6 * (green as int) + (blue as int)) as u8
}

/// Byte code of a greyscale entry: its level, offset past the RGB cube.
pub open spec fn spec_grey_scale_code(level: u8) -> u8 {
    (232 + (level as int)) as u8
}

/// A 24-bit channel scaled down to the 6-level cube by truncating
/// integer division: `floor(c * 5 / 255)`.
pub open spec fn spec_scale_channel(c: u8) -> u8 {
    ((c as int) * 5 / 255) as u8
}

proof fn lemma_scale_channel_bounds(c: u8)
    ensures
        0 <= (c as int) * 5 / 255 <= 5,
        spec_scale_channel(c) <= 5,
        spec_scale_channel(c) == (c as int) * 5 / 255,
{
    lemma_div_is_ordered(0, (c as int) * 5, 255);
    lemma_div_is_ordered((c as int) * 5, 1275, 255);
}

/// Relies on rgb24::Rgb24: a plain record of three public 8-bit channels
/// `r`, `g`, `b`, declared transparently so that verified code can read
/// the fields directly.
#[verifier::external_type_specification]
pub struct ExRgb24(rgb24::Rgb24);

/// One entry of the 6x6x6 RGB cube: three channels, each in 0-5.
#[derive(Clone, Copy, Debug, PartialEq, Eq, Hash, Structural)]
pub struct RgbColour {
    red: u8,
    green: u8,
    blue: u8,
}

impl RgbColour {
    /// Invariant: every channel lies in the closed interval [0, 5].
    #[verifier::type_invariant]
    pub closed spec fn spec_wf(self) -> bool {
        self.red <= 5 && self.green <= 5 && self.blue <= 5
    }

    pub closed spec fn spec_red(self) -> u8 {
        self.red
    }

    pub closed spec fn spec_green(self) -> u8 {
        self.green
    }

    pub closed spec fn spec_blue(self) -> u8 {
        self.blue
    }

    pub open spec fn spec_code(self) -> u8 {
        spec_rgb_code(self.spec_red(), self.spec_green(), self.spec_blue())
    }

    pub fn red(self) -> (r: u8)
        ensures
            r == self.spec_red(),
    {
        self.red
    }

    pub fn green(self) -> (g: u8)
        ensures
            g == self.spec_green(),
    {
        self.green
    }

    pub fn blue(self) -> (b: u8)
        ensures
            b == self.spec_blue(),
    {
        self.blue
    }

    /// Validates the three channels independently, red first, and reports
    /// the first out-of-range one.
    pub fn new(red: u8, green: u8, blue: u8) -> (r: Result<Self, Error>)
        ensures
            red <= 5 && green <= 5 && blue <= 5 ==> (r matches Ok(c) && c.spec_red() == red
                && c.spec_green() == green && c.spec_blue() == blue),
            red > 5 ==> r == Err::<Self, Error>(Error::RangeError(red)),
            red <= 5 && green > 5 ==> r == Err::<Self, Error>(Error::RangeError(green)),
            red <= 5 && green <= 5 && blue > 5 ==> r == Err::<Self, Error>(Error::RangeError(blue)),
    {
        if red > 5 {
            return Err(Error::RangeError(red));
        }
        if green > 5 {
            return Err(Error::RangeError(green));
        }
        if blue > 5 {
            return Err(Error::RangeError(blue));
        }
        Ok(Self { red, green, blue })
    }

    pub fn code(self) -> (b: u8)
        ensures
            b == self.spec_code(),
            16 <= b && b <= 231,
    {
        proof {
            use_type_invariant(&self);
        }
        16 + 36 * self.red + 6 * self.green + self.blue
    }

    /// Truncates an 8-bit-per-channel triple down to the 6-level cube.
    pub fn from_rgb24_components(red: u8, green: u8, blue: u8) -> (c: Self)
        ensures
            c.spec_red() == spec_scale_channel(red),
            c.spec_green() == spec_scale_channel(green),
            c.spec_blue() == spec_scale_channel(blue),
    {
        proof {
            lemma_scale_channel_bounds(red);
            lemma_scale_channel_bounds(green);
            lemma_scale_channel_bounds(blue);
        }
        Self {
            red: ((red as u32 * 5) / 255) as u8,
            green: ((green as u32 * 5) / 255) as u8,
            blue: ((blue as u32 * 5) / 255) as u8,
        }
    }

    /// Truncates a 24-bit RGB triple down to the 6-level cube.
    pub fn from_rgb24(rgb24: Rgb24) -> (c: Self)
        ensures
            c.spec_red() == spec_scale_channel(rgb24.r),
            c.spec_green() == spec_scale_channel(rgb24.g),
            c.spec_blue() == spec_scale_channel(rgb24.b),
    {
        Self::from_rgb24_components(rgb24.r, rgb24.g, rgb24.b)
    }
}

/// One entry of the greyscale ramp: a level in 0-23.
#[derive(Clone, Copy, Debug, PartialEq, Eq, Hash, Structural)]
pub struct GreyScaleColour(u8);

impl GreyScaleColour {
    /// Invariant: the level lies in the closed interval [0, 23].
    #[verifier::type_invariant]
    pub closed spec fn spec_wf(self) -> bool {
        self.0 <= 23
    }

    pub closed spec fn spec_level(self) -> u8 {
        self.0
    }

    pub open spec fn spec_code(self) -> u8 {
        spec_grey_scale_code(self.spec_level())
    }

    pub fn level(self) -> (l: u8)
        ensures
            l == self.spec_level(),
    {
        self.0
    }

    pub fn new(level: u8) -> (r: Result<Self, Error>)
        ensures
            level <= 23 ==> (r matches Ok(c) && c.spec_level() == level),
            level > 23 ==> r == Err::<Self, Error>(Error::RangeError(level)),
    {
        if level > 23 {
            return Err(Error::RangeError(level));
        }
        Ok(GreyScaleColour(level))
    }

    pub fn code(self) -> (b: u8)
        ensures
            b == self.spec_code(),
            232 <= b,
    {
        proof {
            use_type_invariant(&self);
        }
        232 + self.0
    }
}

/// Exactly one of the four sub-palette shapes, as produced by classifying
/// a byte code. A view over `Colour`, not a separate identity: the two are
/// mutually convertible (see the round-trip lemmas below).
#[derive(Clone, Copy, Debug, PartialEq, Eq, Hash, Structural)]
pub enum ColourVariant {
    Normal(NormalColour),
    Bright(BrightColour),
    Rgb(RgbColour),
    GreyScale(GreyScaleColour),
}

impl ColourVariant {
    /// The payload, if any, satisfies its own range invariant.
    pub open spec fn spec_wf(self) -> bool {
        match self {
            ColourVariant::Normal(_) => true,
            ColourVariant::Bright(_) => true,
            ColourVariant::Rgb(c) => c.spec_wf(),
            ColourVariant::GreyScale(c) => c.spec_wf(),
        }
    }

    pub open spec fn spec_code(self) -> u8 {
        match self {
            ColourVariant::Normal(c) => c.spec_code(),
            ColourVariant::Bright(c) => c.spec_code(),
            ColourVariant::Rgb(c) => c.spec_code(),
            ColourVariant::GreyScale(c) => c.spec_code(),
        }
    }

    pub fn code(self) -> (b: u8)
        ensures
            b == self.spec_code(),
    {
        match self {
            ColourVariant::Normal(c) => c.code(),
            ColourVariant::Bright(c) => c.code(),
            ColourVariant::Rgb(c) => c.code(),
            ColourVariant::GreyScale(c) => c.code(),
        }
    }

    pub fn colour(self) -> (c: Colour)
        ensures
            c@ == self.spec_code(),
    {
        Colour(self.code())
    }

    pub fn from_rgb24_components(red: u8, green: u8, blue: u8) -> (v: Self)
        ensures
            (v matches ColourVariant::Rgb(c) && c.spec_red() == spec_scale_channel(red)
                && c.spec_green() == spec_scale_channel(green)
                && c.spec_blue() == spec_scale_channel(blue)),
    {
        ColourVariant::Rgb(RgbColour::from_rgb24_components(red, green, blue))
    }

    pub fn from_rgb24(rgb24: Rgb24) -> (v: Self)
        ensures
            (v matches ColourVariant::Rgb(c) && c.spec_red() == spec_scale_channel(rgb24.r)
                && c.spec_green() == spec_scale_channel(rgb24.g)
                && c.spec_blue() == spec_scale_channel(rgb24.b)),
    {
        ColourVariant::Rgb(RgbColour::from_rgb24(rgb24))
    }
}

/// The canonical interchange value: a single byte, every one of whose 256
/// values is a legal colour code.
#[derive(Clone, Copy, Debug, PartialEq, Eq, Hash, Structural)]
pub struct Colour(u8);

impl View for Colour {
    type V = u8;

    closed spec fn view(&self) -> u8 {
        self.0
    }
}

/// The structured value a byte stands for, by range dispatch over the fixed
/// partition 0-7 / 8-15 / 16-231 / 232-255.
pub open spec fn spec_classify(b: u8) -> ColourVariant {
    if b < 8 {
        ColourVariant::Normal(spec_normal_from_offset(b))
    } else if b < 16 {
        ColourVariant::Bright(spec_bright_from_offset((b - 8) as u8))
    } else if b < 232 {
        spec_classify_rgb(b)
    } else {
        spec_classify_grey_scale(b)
    }
}

/// The RGB cube entry at code `b`, 16-231: base-6 digits of `b - 16`,
/// red most significant.
pub closed spec fn spec_classify_rgb(b: u8) -> ColourVariant {
    ColourVariant::Rgb(
        RgbColour {
            red: (((b - 16) as int) / 36) as u8,
            green: ((((b - 16) as int) / 6) % 6) as u8,
            blue: (((b - 16) as int) % 6) as u8,
        },
    )
}

/// The greyscale entry at code `b`, 232-255: level `b - 232`.
pub closed spec fn spec_classify_grey_scale(b: u8) -> ColourVariant {
    ColourVariant::GreyScale(GreyScaleColour((b - 232) as u8))
}

impl Colour {
    pub fn grey_scale(level: u8) -> (r: Result<Self, Error>)
        ensures
            level <= 23 ==> (r matches Ok(c) && c@ == spec_grey_scale_code(level)),
            level > 23 ==> r == Err::<Self, Error>(Error::RangeError(level)),
    {
        match GreyScaleColour::new(level) {
            Ok(g) => Ok(Colour(g.code())),
            Err(e) => Err(e),
        }
    }

    pub fn rgb(red: u8, green: u8, blue: u8) -> (r: Result<Self, Error>)
        ensures
            red <= 5 && green <= 5 && blue <= 5 ==> (r matches Ok(c) && c@ == spec_rgb_code(
                red,
                green,
                blue,
            )),
            red > 5 ==> r == Err::<Self, Error>(Error::RangeError(red)),
            red <= 5 && green > 5 ==> r == Err::<Self, Error>(Error::RangeError(green)),
            red <= 5 && green <= 5 && blue > 5 ==> r == Err::<Self, Error>(Error::RangeError(blue)),
    {
        match RgbColour::new(red, green, blue) {
            Ok(c) => Ok(Colour(c.code())),
            Err(e) => Err(e),
        }
    }

    pub fn normal(normal_colour: NormalColour) -> (c: Self)
        ensures
            c@ == normal_colour.spec_code(),
    {
        Colour(normal_colour.code())
    }

    pub fn bright(bright_colour: BrightColour) -> (c: Self)
        ensures
            c@ == bright_colour.spec_code(),
    {
        Colour(bright_colour.code())
    }

    pub fn code(self) -> (b: u8)
        ensures
            b == self@,
    {
        self.0
    }

    /// Total: every byte is a legal colour code.
    pub fn from_code(code: u8) -> (c: Self)
        ensures
            c@ == code,
    {
        Colour(code)
    }

    /// Classifies this code into its sub-palette. Total: no byte is
    /// rejected, and the payload always satisfies its range invariant.
    pub fn typ(self) -> (v: ColourVariant)
        ensures
            v == spec_classify(self@),
            v.spec_wf(),
    {
        let b = self.0;
        if b < 8 {
            let c = if b == 0 {
                NormalColour::Black
            } else if b == 1 {
                NormalColour::Red
            } else if b == 2 {
                NormalColour::Green
            } else if b == 3 {
                NormalColour::Yellow
            } else if b == 4 {
                NormalColour::Blue
            } else if b == 5 {
                NormalColour::Magenta
            } else if b == 6 {
                NormalColour::Cyan
            } else {
                NormalColour::Grey
            };
            ColourVariant::Normal(c)
        } else if b < 16 {
            let o = b - 8;
            let c = if o == 0 {
                BrightColour::DarkGrey
            } else if o == 1 {
                BrightColour::Red
            } else if o == 2 {
                BrightColour::Green
            } else if o == 3 {
                BrightColour::Yellow
            } else if o == 4 {
                BrightColour::Blue
            } else if o == 5 {
                BrightColour::Magenta
            } else if o == 6 {
                BrightColour::Cyan
            } else {
                BrightColour::White
            };
            ColourVariant::Bright(c)
        } else if b < 232 {
            let zero_based = b - 16;
            let blue = zero_based % 6;
            let zero_based = zero_based / 6;
            let green = zero_based % 6;
            let zero_based = zero_based / 6;
            let red = zero_based % 6;
            proof {
                lemma_rgb_decode((b - 16) as int);
            }
            ColourVariant::Rgb(RgbColour { red, green, blue })
        } else {
            ColourVariant::GreyScale(GreyScaleColour(b - 232))
        }
    }

    /// A fresh enumeration of the whole palette, in ascending code order.
    pub fn all() -> (it: ColourIter)
        ensures
            it.spec_next_code() == 0,
            it.spec_end_code() == 256,
    {
        AllColours.into_iter()
    }

    pub fn from_rgb24_components(red: u8, green: u8, blue: u8) -> (c: Self)
        ensures
            c@ == spec_rgb_code(
                spec_scale_channel(red),
                spec_scale_channel(green),
                spec_scale_channel(blue),
            ),
    {
        Colour(encode_rgb24_components(red, green, blue))
    }

    pub fn from_rgb24(rgb24: Rgb24) -> (c: Self)
        ensures
            c@ == spec_rgb_code(
                spec_scale_channel(rgb24.r),
                spec_scale_channel(rgb24.g),
                spec_scale_channel(rgb24.b),
            ),
    {
        Colour(encode_rgb24(rgb24))
    }
}

impl From<ColourVariant> for Colour {
    fn from(t: ColourVariant) -> (c: Self) {
        t.colour()
    }
}

impl vstd::std_specs::convert::FromSpecImpl<ColourVariant> for Colour {
    open spec fn obeys_from_spec() -> bool {
        true
    }

    closed spec fn from_spec(t: ColourVariant) -> Colour {
        Colour(t.spec_code())
    }
}

impl From<Colour> for ColourVariant {
    fn from(c: Colour) -> (v: Self) {
        c.typ()
    }
}

impl vstd::std_specs::convert::FromSpecImpl<Colour> for ColourVariant {
    open spec fn obeys_from_spec() -> bool {
        true
    }

    open spec fn from_spec(c: Colour) -> ColourVariant {
        spec_classify(c@)
    }
}

impl From<Colour> for u8 {
    fn from(c: Colour) -> (b: Self) {
        c.code()
    }
}

impl vstd::std_specs::convert::FromSpecImpl<Colour> for u8 {
    open spec fn obeys_from_spec() -> bool {
        true
    }

    open spec fn from_spec(c: Colour) -> u8 {
        c@
    }
}

impl From<u8> for Colour {
    fn from(u: u8) -> (c: Self) {
        Colour(u)
    }
}

impl vstd::std_specs::convert::FromSpecImpl<u8> for Colour {
    open spec fn obeys_from_spec() -> bool {
        true
    }

    closed spec fn from_spec(u: u8) -> Colour {
        Colour(u)
    }
}

/// Scales an 8-bit-per-channel triple into the cube and encodes it,
/// in one step.
pub fn encode_rgb24_components(red: u8, green: u8, blue: u8) -> (b: u8)
    ensures
        b == spec_rgb_code(
            spec_scale_channel(red),
            spec_scale_channel(green),
            spec_scale_channel(blue),
        ),
{
    RgbColour::from_rgb24_components(red, green, blue).code()
}

/// Scales a 24-bit RGB triple into the cube and encodes it, in one step.
pub fn encode_rgb24(rgb24: Rgb24) -> (b: u8)
    ensures
        b == spec_rgb_code(
            spec_scale_channel(rgb24.r),
            spec_scale_channel(rgb24.g),
            spec_scale_channel(rgb24.b),
        ),
{
    RgbColour::from_rgb24(rgb24).code()
}

/// Base-6 digit extraction from an RGB cube offset: the three digits are
/// in range, and reassembling them gives the offset back.
proof fn lemma_rgb_decode(z: int)
    requires
        0 <= z < 216,
    ensures
        0 <= z / 36 <= 5,
        0 <= (z / 6) % 6 < 6,
        0 <= z % 6 < 6,
        (z / 6) / 6 == z / 36,
        36 * (z / 36) + 6 * ((z / 6) % 6) + (z % 6) == z,
{
    lemma_div_is_ordered(0, z, 36);
    lemma_div_is_ordered(z, 215, 36);
    lemma_div_is_ordered(0, z, 6);
    lemma_mod_bound(z, 6);
    lemma_mod_bound(z / 6, 6);
    lemma_div_denominator(z, 6, 6);
    lemma_fundamental_div_mod(z, 6);
    lemma_fundamental_div_mod(z / 6, 6);
}

/// Composing the three base-6 digits of an RGB cube entry and taking them
/// apart again yields the digits unchanged.
proof fn lemma_rgb_encode_decode(red: u8, green: u8, blue: u8)
    requires
        red <= 5,
        green <= 5,
        blue <= 5,
    ensures
        (36 * (red as int) + 6 * (green as int) + (blue as int)) / 36 == red as int,
        ((36 * (red as int) + 6 * (green as int) + (blue as int)) / 6) % 6 == green as int,
        (36 * (red as int) + 6 * (green as int) + (blue as int)) % 6 == blue as int,
{
    let r = red as int;
    let g = green as int;
    let b = blue as int;
    let z = 36 * r + 6 * g + b;
    lemma_fundamental_div_mod_converse(z, 6, 6 * r + g, b);
    lemma_fundamental_div_mod_converse(6 * r + g, 6, r, g);
    lemma_div_denominator(z, 6, 6);
}

/// Every byte is classified, into exactly one sub-palette, chosen by the
/// fixed partition of the byte space; the payload always satisfies its
/// range invariant.
pub proof fn lemma_classification_total(b: u8)
    ensures
        spec_classify(b).spec_wf(),
        spec_classify(b) is Normal <==> b < 8,
        spec_classify(b) is Bright <==> (8 <= b && b < 16),
        spec_classify(b) is Rgb <==> (16 <= b && b < 232),
        spec_classify(b) is GreyScale <==> b >= 232,
        16 <= b && b < 232 ==> (spec_classify(b) matches ColourVariant::Rgb(c) && c.spec_red()
            == (((b - 16) as int) / 36) as u8 && c.spec_green() == ((((b - 16) as int) / 6) % 6)
            as u8 && c.spec_blue() == (((b - 16) as int) % 6) as u8),
        b >= 232 ==> (spec_classify(b) matches ColourVariant::GreyScale(g) && g.spec_level() == (b
            - 232) as u8),
{
    if 16 <= b && b < 232 {
        lemma_rgb_decode((b - 16) as int);
    }
}

/// Classifying a byte and re-encoding the resulting variant yields the
/// byte back: decode then encode is the identity on codes.
pub proof fn lemma_code_of_classify(b: u8)
    ensures
        spec_classify(b).spec_code() == b,
{
    if 16 <= b && b < 232 {
        lemma_rgb_decode((b - 16) as int);
    }
}

/// Encoding a well-formed structured value and classifying the resulting
/// code yields the value back: encode then decode is the identity on
/// structured values.
pub proof fn lemma_classify_of_code(v: ColourVariant)
    requires
        v.spec_wf(),
    ensures
        spec_classify(v.spec_code()) == v,
{
    match v {
        ColourVariant::Normal(_) => {
        },
        ColourVariant::Bright(_) => {
        },
        ColourVariant::Rgb(c) => {
            lemma_rgb_encode_decode(c.spec_red(), c.spec_green(), c.spec_blue());
        },
        ColourVariant::GreyScale(_) => {
        },
    }
}

/// The four sub-palette sizes cover the byte space exactly.
pub proof fn lemma_partition_sizes()
    ensures
        NUM_NORMAL_COLOURS + NUM_BRIGHT_COLOURS + NUM_RGB_COLOURS + NUM_GREY_SCALE_COLOURS == 256,
{
}

} // verus!
