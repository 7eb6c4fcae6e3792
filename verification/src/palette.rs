//! Four-color palettes for the sample screens.

use vstd::prelude::*;

use crate::utils::geometry::Rgb;

verus! {

/// Four shades of one palette, darkest to lightest.
#[derive(Clone, Copy, Debug, PartialEq, Eq, Structural)]
pub struct Palette {
    pub darkest: Rgb,
    pub dark: Rgb,
    pub light: Rgb,
    pub lightest: Rgb,
}

/// The dream palette's value.
pub open spec fn spec_palette_dream() -> Palette {
    Palette {
        darkest: (Rgb { r: 63u8, g: 13u8, b: 104u8 }),
        dark: (Rgb { r: 244u8, g: 28u8, b: 125u8 }),
        light: (Rgb { r: 50u8, g: 217u8, b: 206u8 }),
        lightest: (Rgb { r: 255u8, g: 236u8, b: 141u8 }),
    }
}

pub fn palette_dream() -> (p: Palette)
    ensures
        p == spec_palette_dream(),
{
    Palette {
        darkest: Rgb::new(63, 13, 104),
        dark: Rgb::new(244, 28, 125),
        light: Rgb::new(50, 217, 206),
        lightest: Rgb::new(255, 236, 141),
    }
}

pub fn palette_ice() -> (p: Palette)
    ensures
        p == (Palette {
            darkest: (Rgb { r: 80u8, g: 26u8, b: 104u8 }),
            dark: (Rgb { r: 102u8, g: 83u8, b: 203u8 }),
            light: (Rgb { r: 109u8, g: 161u8, b: 223u8 }),
            lightest: (Rgb { r: 155u8, g: 235u8, b: 235u8 }),
        }),
{
    Palette {
        darkest: Rgb::new(80, 26, 104),
        dark: Rgb::new(102, 83, 203),
        light: Rgb::new(109, 161, 223),
        lightest: Rgb::new(155, 235, 235),
    }
}

pub fn palette_dark_cherry() -> (p: Palette)
    ensures
        p == (Palette {
            darkest: (Rgb { r: 21u8, g: 1u8, b: 122u8 }),
            dark: (Rgb { r: 246u8, g: 9u8, b: 131u8 }),
            light: (Rgb { r: 253u8, g: 151u8, b: 133u8 }),
            lightest: (Rgb { r: 255u8, g: 245u8, b: 222u8 }),
        }),
{
    Palette {
        darkest: Rgb::new(21, 1, 122),
        dark: Rgb::new(246, 9, 131),
        light: Rgb::new(253, 151, 133),
        lightest: Rgb::new(255, 245, 222),
    }
}

pub fn palette_cardboard() -> (p: Palette)
    ensures
        p == (Palette {
            darkest: (Rgb { r: 60u8, g: 30u8, b: 21u8 }),
            dark: (Rgb { r: 175u8, g: 83u8, b: 20u8 }),
            light: (Rgb { r: 198u8, g: 170u8, b: 53u8 }),
            lightest: (Rgb { r: 197u8, g: 251u8, b: 225u8 }),
        }),
{
    Palette {
        darkest: Rgb::new(60, 30, 21),
        dark: Rgb::new(175, 83, 20),
        light: Rgb::new(198, 170, 53),
        lightest: Rgb::new(197, 251, 225),
    }
}

} // verus!
