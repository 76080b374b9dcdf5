//! The default palette, as packed `0xRRGGBBAA` values.
//!
//! Includes a base palette of white, black, primary and secondary colors,
//! and for each of the light and dark themes its range of foreground and
//! background colors and its bright colors.
use vstd::prelude::*;

pub mod dark;
pub mod light;

verus! {

pub const BLACK: u32 = 0x282828FF;
pub const GRAY: u32 = 0x928374FF;
pub const WHITE: u32 = 0xFBF1C7FF;
pub const RED: u32 = 0xCC241DFF;
pub const ORANGE: u32 = 0xD65D0EFF;
pub const YELLOW: u32 = 0xD79921FF;
pub const GREEN: u32 = 0x98971AFF;
pub const AQUA: u32 = 0x689D6AFF;
pub const BLUE: u32 = 0x458588FF;
pub const PURPLE: u32 = 0xB16286FF;

} // verus!
