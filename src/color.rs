use vstd::prelude::*;

use crate::theme::{dark, light};

verus! {

/// RGBA color packed as `0xRRGGBBAA`.
#[derive(Clone, Copy, Debug, PartialEq, Eq, Structural)]
pub struct Color(pub u32);

/// The byte of `c` that starts `shift` bits up.
pub open spec fn byte_at(c: u32, shift: u32) -> u8 {
    ((c >> shift) & 0xFF) as u8
}

/// The red, green, blue and alpha bytes of a color, in that order.
pub open spec fn rgba_of(c: Color) -> [u8; 4] {
    [byte_at(c.0, 24), byte_at(c.0, 16), byte_at(c.0, 8), byte_at(c.0, 0)]
}

impl Color {
    /// The same color with its alpha byte replaced.
    pub fn alpha(self, alpha: u8) -> (r: Color)
        ensures
            r.0 == (self.0 & 0xFFFF_FF00) | (alpha as u32),
    {
        Color((self.0 & 0xFFFF_FF00) | alpha as u32)
    }
}

impl From<Color> for [u8; 4] {
    fn from(c: Color) -> (r: [u8; 4])
        ensures
            r == rgba_of(c),
    {
        let v = c.0;
        proof {
            lemma_byte_fits(v, 24);
            lemma_byte_fits(v, 16);
            lemma_byte_fits(v, 8);
            lemma_byte_fits(v, 0);
        }
        [
            ((v >> 24) & 0xFF) as u8,
            ((v >> 16) & 0xFF) as u8,
            ((v >> 8) & 0xFF) as u8,
            (v & 0xFF) as u8,
        ]
    }
}

proof fn lemma_byte_fits(c: u32, shift: u32)
    requires
        shift < 32,
    ensures
        (c >> shift) & 0xFF <= 0xFF,
        c >> 0 == c,
{
    assert((c >> shift) & 0xFF <= 0xFF) by (bit_vector);
    assert(c >> 0 == c) by (bit_vector);
}

impl vstd::std_specs::convert::FromSpecImpl<Color> for [u8; 4] {
    open spec fn obeys_from_spec() -> bool {
        true
    }

    open spec fn from_spec(c: Color) -> [u8; 4] {
        rgba_of(c)
    }
}


/// Colors used in the UI.
#[derive(Clone, Copy, Debug)]
pub struct Theme {
    /// Text color and default color of foreground elements like lines
    pub fg: Color,
    /// Disabled text and foreground elements like lines
    pub fg_disabled: Color,
    /// Text and elements inside selected items like tabs
    pub fg_selected: Color,
    /// Background color
    pub bg: Color,
    /// Background for child regions
    pub bg_child: Color,
    /// Selected text background color
    pub bg_highlight: Color,
    /// More transparent background color for items which appear over other content
    pub bg_overlay: Color,
    /// Color of borders
    pub border: Color,
    /// Color of an element like a button
    pub element: Color,
    /// Color of an item (like a button) currently being interacted with
    pub active: Color,
    /// Color of an item that has been selected
    pub selected: Color,
    /// Color of an item under the mouse or currently tabbed to
    pub hover: Color,
}

/// Alpha of the overlay background in both default themes.
pub const OVERLAY_ALPHA: u8 = 100;

impl Theme {
    /// Default dark theme.
    pub fn dark() -> (r: Theme)
        ensures
            r.fg.0 == dark::FG,
            r.fg_disabled.0 == dark::FG2,
            r.fg_selected.0 == dark::BG,
            r.bg.0 == dark::BG,
            r.bg_child.0 == dark::BG1,
            r.bg_highlight.0 == dark::BG3,
            r.bg_overlay.0 == (dark::BG2 & 0xFFFF_FF00) | (OVERLAY_ALPHA as u32),
            r.border.0 == dark::BG4,
            r.element.0 == dark::BLUE,
            r.selected.0 == dark::BLUE,
            r.hover.0 == dark::AQUA,
            r.active.0 == dark::BRIGHT_AQUA,
    {
        Theme {
            fg: Color(dark::FG),
            fg_disabled: Color(dark::FG2),
            fg_selected: Color(dark::BG),
            bg: Color(dark::BG),
            bg_child: Color(dark::BG1),
            bg_highlight: Color(dark::BG3),
            bg_overlay: Color(dark::BG2).alpha(OVERLAY_ALPHA),
            border: Color(dark::BG4),
            element: Color(dark::BLUE),
            selected: Color(dark::BLUE),
            hover: Color(dark::AQUA),
            active: Color(dark::BRIGHT_AQUA),
        }
    }

    /// Default light theme.
    pub fn light() -> (r: Theme)
        ensures
            r.fg.0 == light::FG,
            r.fg_disabled.0 == light::FG2,
            r.fg_selected.0 == light::BG,
            r.bg.0 == light::BG,
            r.bg_child.0 == light::BG1,
            r.bg_highlight.0 == light::BG3,
            r.bg_overlay.0 == (light::BG2 & 0xFFFF_FF00) | (OVERLAY_ALPHA as u32),
            r.border.0 == light::BG4,
            r.element.0 == light::BLUE,
            r.selected.0 == light::BLUE,
            r.hover.0 == light::AQUA,
            r.active.0 == light::BRIGHT_AQUA,
    {
        Theme {
            fg: Color(light::FG),
            fg_disabled: Color(light::FG2),
            fg_selected: Color(light::BG),
            bg: Color(light::BG),
            bg_child: Color(light::BG1),
            bg_highlight: Color(light::BG3),
            bg_overlay: Color(light::BG2).alpha(OVERLAY_ALPHA),
            border: Color(light::BG4),
            element: Color(light::BLUE),
            selected: Color(light::BLUE),
            hover: Color(light::AQUA),
            active: Color(light::BRIGHT_AQUA),
        }
    }
}

} // verus!
