//! Colors of the dark theme.
use vstd::prelude::*;

use crate::theme as base;

verus! {

/// Dark background color
pub const BG: u32 = base::BLACK;
/// High contrast background color
pub const BGH: u32 = 0x1D2021FF;
/// Soft contrast background color
pub const BGS: u32 = 0x32302FFF;
pub const BG1: u32 = 0x3C3836FF;
pub const BG2: u32 = 0x504945FF;
pub const BG3: u32 = 0x665C54FF;
pub const BG4: u32 = 0x7C6F64FF;

/// Light color for text and foreground elements
pub const FG: u32 = base::WHITE;
pub const FG1: u32 = 0xEBDBB2FF;
pub const FG2: u32 = 0xD5C4A1FF;
pub const FG3: u32 = 0xBDAE93FF;
pub const FG4: u32 = 0xA89984FF;

pub const RED: u32 = base::RED;
pub const BRIGHT_RED: u32 = 0xFB4934FF;
pub const GREEN: u32 = base::GREEN;
pub const BRIGHT_GREEN: u32 = 0xB8BB26FF;
pub const YELLOW: u32 = base::YELLOW;
pub const BRIGHT_YELLOW: u32 = 0xFABD2FFF;
pub const BLUE: u32 = base::BLUE;
pub const BRIGHT_BLUE: u32 = 0x83A598FF;
pub const PURPLE: u32 = base::PURPLE;
pub const BRIGHT_PURPLE: u32 = 0xD3868BFF;
pub const AQUA: u32 = base::AQUA;
pub const BRIGHT_AQUA: u32 = 0x8EC07CFF;
pub const ORANGE: u32 = base::ORANGE;
pub const BRIGHT_ORANGE: u32 = 0xFE8019FF;
pub const GRAY: u32 = base::GRAY;
pub const BRIGHT_GRAY: u32 = 0x928374FF;

} // verus!
