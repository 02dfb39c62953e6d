//! Pre-built `Colour` values for the sixteen named colours of the normal
//! and bright sub-palettes, under their conventional names.

use crate::colour::{BrightColour, Colour, NormalColour};
use vstd::prelude::*;

verus! {

pub fn black() -> (c: Colour)
    ensures
        c@ == 0,
{
    Colour::normal(NormalColour::Black)
}

pub fn red() -> (c: Colour)
    ensures
        c@ == 1,
{
    Colour::normal(NormalColour::Red)
}

pub fn green() -> (c: Colour)
    ensures
        c@ == 2,
{
    Colour::normal(NormalColour::Green)
}

pub fn yellow() -> (c: Colour)
    ensures
        c@ == 3,
{
    Colour::normal(NormalColour::Yellow)
}

pub fn blue() -> (c: Colour)
    ensures
        c@ == 4,
{
    Colour::normal(NormalColour::Blue)
}

pub fn magenta() -> (c: Colour)
    ensures
        c@ == 5,
{
    Colour::normal(NormalColour::Magenta)
}

pub fn cyan() -> (c: Colour)
    ensures
        c@ == 6,
{
    Colour::normal(NormalColour::Cyan)
}

pub fn grey() -> (c: Colour)
    ensures
        c@ == 7,
{
    Colour::normal(NormalColour::Grey)
}

pub fn dark_grey() -> (c: Colour)
    ensures
        c@ == 8,
{
    Colour::bright(BrightColour::DarkGrey)
}

pub fn bright_red() -> (c: Colour)
    ensures
        c@ == 9,
{
    Colour::bright(BrightColour::Red)
}

pub fn bright_green() -> (c: Colour)
    ensures
        c@ == 10,
{
    Colour::bright(BrightColour::Green)
}

pub fn bright_yellow() -> (c: Colour)
    ensures
        c@ == 11,
{
    Colour::bright(BrightColour::Yellow)
}

pub fn bright_blue() -> (c: Colour)
    ensures
        c@ == 12,
{
    Colour::bright(BrightColour::Blue)
}

pub fn bright_magenta() -> (c: Colour)
    ensures
        c@ == 13,
{
    Colour::bright(BrightColour::Magenta)
}

pub fn bright_cyan() -> (c: Colour)
    ensures
        c@ == 14,
{
    Colour::bright(BrightColour::Cyan)
}

pub fn white() -> (c: Colour)
    ensures
        c@ == 15,
{
    Colour::bright(BrightColour::White)
}

} // verus!
