//! The design system's data: the palette and the corner radii, plus the colour and outline
//! choices the shared components make.

pub mod icon;
pub mod radius;

use vstd::prelude::*;

verus! {

/// An opaque sRGB colour.
#[derive(Clone, Copy, Debug, PartialEq, Eq, Structural)]
pub struct Rgb {
    pub r: u8,
    pub g: u8,
    pub b: u8,
}

/// A cohesive set of colours.
#[derive(Clone, Copy, Debug)]
pub struct Palette {
    /// Window/panel base; the grid paints faint lines over it.
    pub bg: Rgb,
    /// Grid line colour, only slightly lighter than `bg`.
    pub grid_line: Rgb,
    /// Solid surface for cards, columns and modals.
    pub surface: Rgb,
    /// Slightly lighter surface for inputs and inset areas.
    pub surface_alt: Rgb,
    /// Hover state for interactive surfaces.
    pub surface_hover: Rgb,
    pub text: Rgb,
    pub muted: Rgb,
    /// Primary accent (teal): buttons, focus, selection.
    pub accent: Rgb,
    /// Soft accent for selection/highlight fills.
    pub accent_soft: Rgb,
    /// Readable text on top of the accent.
    pub on_accent: Rgb,
    pub danger: Rgb,
    /// Subtle hairline for separators.
    pub hairline: Rgb,
}

pub open spec fn rgb(r: u8, g: u8, b: u8) -> Rgb {
    Rgb { r, g, b }
}

/// The soft-dark, teal palette.
pub open spec fn dark_spec() -> Palette {
    Palette {
        bg: rgb(0x17, 0x19, 0x1F),
        grid_line: rgb(0x20, 0x23, 0x2B),
        surface: rgb(0x23, 0x27, 0x30),
        surface_alt: rgb(0x2B, 0x30, 0x3B),
        surface_hover: rgb(0x33, 0x39, 0x46),
        text: rgb(0xE7, 0xEA, 0xF0),
        muted: rgb(0x97, 0x9E, 0xAD),
        accent: rgb(0x17, 0xC3, 0xB2),
        accent_soft: rgb(0x1A, 0x39, 0x37),
        on_accent: rgb(0x06, 0x1A, 0x18),
        danger: rgb(0xE5, 0x67, 0x7A),
        hairline: rgb(0x2E, 0x33, 0x3F),
    }
}

/// The soft-dark, teal palette.
pub fn dark() -> (p: Palette)
    ensures
        p == dark_spec(),
{
    Palette {
        bg: Rgb { r: 0x17, g: 0x19, b: 0x1F },
        grid_line: Rgb { r: 0x20, g: 0x23, b: 0x2B },
        surface: Rgb { r: 0x23, g: 0x27, b: 0x30 },
        surface_alt: Rgb { r: 0x2B, g: 0x30, b: 0x3B },
        surface_hover: Rgb { r: 0x33, g: 0x39, b: 0x46 },
        text: Rgb { r: 0xE7, g: 0xEA, b: 0xF0 },
        muted: Rgb { r: 0x97, g: 0x9E, b: 0xAD },
        accent: Rgb { r: 0x17, g: 0xC3, b: 0xB2 },
        accent_soft: Rgb { r: 0x1A, g: 0x39, b: 0x37 },
        on_accent: Rgb { r: 0x06, g: 0x1A, b: 0x18 },
        danger: Rgb { r: 0xE5, g: 0x67, b: 0x7A },
        hairline: Rgb { r: 0x2E, g: 0x33, b: 0x3F },
    }
}

/// The active palette.
pub fn palette() -> (p: Palette)
    ensures
        p == dark_spec(),
{
    dark()
}

/// Fill and label colours of the primary button. A disabled one stays readable: a muted
/// filled pill with bright text rather than a faded accent.
pub fn primary_colors(enabled: bool) -> (r: (Rgb, Rgb))
    ensures
        r == (if enabled {
            (dark_spec().accent, dark_spec().on_accent)
        } else {
            (dark_spec().surface_hover, dark_spec().text)
        }),
{
    let p = palette();
    if enabled {
        (p.accent, p.on_accent)
    } else {
        (p.surface_hover, p.text)
    }
}

/// The outline a text input gets.
#[derive(Clone, Copy, Debug, PartialEq, Eq, Structural)]
pub enum InputMark {
    /// No outline.
    Plain,
    /// A subtle accent outline: edited but not yet saved.
    Edited,
    /// A crisper accent ring: the field has keyboard focus.
    Focused,
}

/// Focus takes precedence; an unfocused but edited field is still marked.
pub fn input_mark(has_focus: bool, changed: bool) -> (m: InputMark)
    ensures
        m == (if has_focus {
            InputMark::Focused
        } else if changed {
            InputMark::Edited
        } else {
            InputMark::Plain
        }),
{
    if has_focus {
        InputMark::Focused
    } else if changed {
        InputMark::Edited
    } else {
        InputMark::Plain
    }
}

} // verus!
