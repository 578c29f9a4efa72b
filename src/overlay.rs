use vstd::prelude::*;
use crate::palette::Color;

verus! {

/// Height of the lettering, in pixels.
pub const FONT_HEIGHT: u32 = 250;

/// Left edge of the first number.
pub const PRIMARY_TEXT_X: i32 = 380;

/// Left edge of the second number.
pub const SECONDARY_TEXT_X: i32 = 660;

/// Top edge of both numbers.
pub const TEXT_Y: i32 = 580 + 2455;

/// One piece of text to draw: what, where, and in which RGBA color.
#[derive(Debug, Clone)]
pub struct TextStamp {
    pub text: String,
    pub x: i32,
    pub y: i32,
    pub color: [u8; 4],
}

/// The two numbers drawn onto every composite: "20" in the primary color
/// and "19" beside it in the secondary color, both on one line.
pub fn overlay_stamps(color: &Color) -> (r: Vec<TextStamp>)
    ensures
        r@.len() == 2,
        r@[0].text@ == "20"@,
        r@[0].x == PRIMARY_TEXT_X,
        r@[0].y == TEXT_Y,
        r@[0].color == color.primary,
        r@[1].text@ == "19"@,
        r@[1].x == SECONDARY_TEXT_X,
        r@[1].y == TEXT_Y,
        r@[1].color == color.secondary,
{
    let mut stamps: Vec<TextStamp> = Vec::new();
    stamps.push(
        TextStamp {
            text: String::from_str("20"),
            x: PRIMARY_TEXT_X,
            y: TEXT_Y,
            color: color.primary,
        },
    );
    stamps.push(
        TextStamp {
            text: String::from_str("19"),
            x: SECONDARY_TEXT_X,
            y: TEXT_Y,
            color: color.secondary,
        },
    );
    stamps
}

} // verus!
