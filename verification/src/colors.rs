//! The base16-tomorrow palette shared by every unit's rendering.
use vstd::prelude::*;
use crate::render::color::Srgb8;

verus! {

pub const DARK_GREY: &'static str = "#373B41";

pub const GREY: &'static str = "#969896";

pub const RED: &'static str = "#CC6666";

pub const ORANGE: &'static str = "#DE935F";

pub const YELLOW: &'static str = "#F0C674";

pub const GREEN: &'static str = "#B5BD68";

pub const CYAN: &'static str = "#8ABEB7";

pub const BLUE: &'static str = "#81A2BE";

pub const VIOLET: &'static str = "#B294BB";

pub const BROWN: &'static str = "#A3685A";

/// `RED` as an sRGB triple.
pub open spec fn spec_red() -> Srgb8 {
    Srgb8 { r: 204, g: 102, b: 102 }
}

pub fn red() -> (c: Srgb8)
    ensures
        c == spec_red(),
{
    Srgb8 { r: 204, g: 102, b: 102 }
}

/// `ORANGE` as an sRGB triple.
pub open spec fn spec_orange() -> Srgb8 {
    Srgb8 { r: 222, g: 147, b: 95 }
}

pub fn orange() -> (c: Srgb8)
    ensures
        c == spec_orange(),
{
    Srgb8 { r: 222, g: 147, b: 95 }
}

/// `YELLOW` as an sRGB triple.
pub open spec fn spec_yellow() -> Srgb8 {
    Srgb8 { r: 240, g: 198, b: 116 }
}

pub fn yellow() -> (c: Srgb8)
    ensures
        c == spec_yellow(),
{
    Srgb8 { r: 240, g: 198, b: 116 }
}

/// `GREEN` as an sRGB triple.
pub open spec fn spec_green() -> Srgb8 {
    Srgb8 { r: 181, g: 189, b: 104 }
}

pub fn green() -> (c: Srgb8)
    ensures
        c == spec_green(),
{
    Srgb8 { r: 181, g: 189, b: 104 }
}

/// `CYAN` as an sRGB triple.
pub open spec fn spec_cyan() -> Srgb8 {
    Srgb8 { r: 138, g: 190, b: 183 }
}

pub fn cyan() -> (c: Srgb8)
    ensures
        c == spec_cyan(),
{
    Srgb8 { r: 138, g: 190, b: 183 }
}

/// `BLUE` as an sRGB triple.
pub open spec fn spec_blue() -> Srgb8 {
    Srgb8 { r: 129, g: 162, b: 190 }
}

pub fn blue() -> (c: Srgb8)
    ensures
        c == spec_blue(),
{
    Srgb8 { r: 129, g: 162, b: 190 }
}

/// `VIOLET` as an sRGB triple.
pub open spec fn spec_violet() -> Srgb8 {
    Srgb8 { r: 178, g: 148, b: 187 }
}

pub fn violet() -> (c: Srgb8)
    ensures
        c == spec_violet(),
{
    Srgb8 { r: 178, g: 148, b: 187 }
}

/// `BROWN` as an sRGB triple.
pub open spec fn spec_brown() -> Srgb8 {
    Srgb8 { r: 163, g: 104, b: 90 }
}

pub fn brown() -> (c: Srgb8)
    ensures
        c == spec_brown(),
{
    Srgb8 { r: 163, g: 104, b: 90 }
}

} // verus!
