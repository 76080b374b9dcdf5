//! Colors of the light theme.
use vstd::prelude::*;

use crate::theme as base;
use crate::theme::dark;

verus! {

/// Light background color
pub const BG: u32 = base::WHITE;
/// High contrast background color
pub const BGH: u32 = 0xF9F5D7FF;
/// Soft contrast background color
pub const BGS: u32 = 0xF2E5BCFF;
pub const BG1: u32 = dark::FG1;
pub const BG2: u32 = dark::FG2;
pub const BG3: u32 = dark::FG3;
pub const BG4: u32 = dark::FG4;

/// Dark color for text and foreground elements
pub const FG: u32 = dark::BG;
pub const FG1: u32 = dark::BG1;
pub const FG2: u32 = dark::BG2;
pub const FG3: u32 = dark::BG3;
pub const FG4: u32 = dark::BG4;

pub const RED: u32 = base::RED;
pub const BRIGHT_RED: u32 = 0x9D0006FF;
pub const GREEN: u32 = base::GREEN;
pub const BRIGHT_GREEN: u32 = 0x79740EFF;
pub const YELLOW: u32 = base::YELLOW;
pub const BRIGHT_YELLOW: u32 = 0xB57614FF;
pub const BLUE: u32 = base::BLUE;
pub const BRIGHT_BLUE: u32 = 0x076678FF;
pub const PURPLE: u32 = base::PURPLE;
pub const BRIGHT_PURPLE: u32 = 0x8F3F71FF;
pub const AQUA: u32 = base::AQUA;
pub const BRIGHT_AQUA: u32 = 0x427B58FF;
pub const GRAY: u32 = 0x7C6F64FF;
pub const BRIGHT_GRAY: u32 = base::GRAY;
pub const ORANGE: u32 = base::ORANGE;
pub const BRIGHT_ORANGE: u32 = 0xAF3A03FF;

} // verus!
