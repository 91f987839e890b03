//! The options of Material 3 palette generation, the ways it can fail, and colours
//! packed into one ARGB word as the palette generator takes them.
use vstd::prelude::*;
use crate::text::concat;

verus! {

/// Palette generation from a source color (the generation itself, which computes in
/// floating point, is done by the application).
#[derive(Debug, Clone, Copy)]
pub struct MaterialColorsIntegration;

impl MaterialColorsIntegration {
    /// The palette generator.
    pub fn new() -> (m: MaterialColorsIntegration) {
        MaterialColorsIntegration
    }
}

impl Default for MaterialColorsIntegration {
    /// The palette generator.
    fn default() -> (m: MaterialColorsIntegration) {
        MaterialColorsIntegration
    }
}

/// The word that packs the channels `a`, `r`, `g`, `b`: alpha in the top byte, then red,
/// green and blue.
pub open spec fn argb_word(a: u8, r: u8, g: u8, b: u8) -> int {
    a * 0x100_0000 + r * 0x1_0000 + g * 0x100 + b
}

/// The channels of a packed word: alpha, red, green and blue.
pub open spec fn argb_parts(w: u32) -> (u8, u8, u8, u8) {
    ((w / 0x100_0000) as u8, ((w / 0x1_0000) % 0x100) as u8, ((w / 0x100) % 0x100) as u8, (w % 0x100) as u8)
}

/// Packs four channels into one ARGB word.
pub fn pack_argb(a: u8, r: u8, g: u8, b: u8) -> (w: u32)
    ensures
        w == argb_word(a, r, g, b),
{
    (a as u32) * 0x100_0000 + (r as u32) * 0x1_0000 + (g as u32) * 0x100 + (b as u32)
}

/// The four channels of an ARGB word.
pub fn argb_channels(w: u32) -> (c: (u8, u8, u8, u8))
    ensures
        c == argb_parts(w),
        argb_word(c.0, c.1, c.2, c.3) == w,
{
    let a = w / 0x100_0000;
    let r = (w / 0x1_0000) % 0x100;
    let g = (w / 0x100) % 0x100;
    let b = w % 0x100;
    assert(a * 0x100_0000 + r * 0x1_0000 + g * 0x100 + b == w) by (nonlinear_arith)
        requires
            a == w / 0x100_0000,
            r == (w / 0x1_0000) % 0x100,
            g == (w / 0x100) % 0x100,
            b == w % 0x100,
    ;
    (a as u8, r as u8, g as u8, b as u8)
}

/// Unpacking a packed word gives back the channels that were packed.
pub proof fn law_argb_round_trip(a: u8, r: u8, g: u8, b: u8)
    ensures
        0 <= argb_word(a, r, g, b) <= u32::MAX,
        argb_parts(argb_word(a, r, g, b) as u32) == (a, r, g, b),
{
    let w = argb_word(a, r, g, b);
    assert(w / 0x100_0000 == a && (w / 0x1_0000) % 0x100 == r && (w / 0x100) % 0x100 == g && w % 0x100 == b)
        by (nonlinear_arith)
        requires
            w == a * 0x100_0000 + r * 0x1_0000 + g * 0x100 + b,
            0 <= a < 0x100,
            0 <= r < 0x100,
            0 <= g < 0x100,
            0 <= b < 0x100,
    ;
}

/// Different Material 3 scheme variants.
#[derive(Debug, Clone, Copy, PartialEq, Eq, Structural)]
pub enum SchemeVariant {
    /// Default Material 3 scheme with balanced colors
    TonalSpot,
    /// Neutral scheme with muted colors
    Neutral,
    /// Vibrant scheme with saturated colors
    Vibrant,
    /// Monochrome scheme with grayscale colors
    Monochrome,
    /// High fidelity scheme that stays close to source color
    Fidelity,
    /// Content-based scheme optimized for readability
    Content,
}

/// WCAG accessibility levels.
#[derive(Debug, Clone, Copy, PartialEq, Eq, Structural)]
pub enum AccessibilityLevel {
    /// WCAG AA standard (4.5:1 contrast ratio)
    AA,
    /// WCAG AAA standard (7:1 contrast ratio)
    AAA,
    /// WCAG AA for large text (3:1 contrast ratio)
    AALarge,
    /// WCAG AAA for large text (4.5:1 contrast ratio)
    AAALarge,
}

/// Ways palette generation can fail.
#[derive(Debug, Clone)]
pub enum MaterialColorsError {
    SchemeGeneration(String),
    InvalidColor(String),
    ImageProcessing(String),
    AccessibilityError(String),
}

impl MaterialColorsError {
    /// The text of the error.
    pub open spec fn text(&self) -> Seq<char> {
        match self {
            MaterialColorsError::SchemeGeneration(m) => "Failed to generate color scheme: "@ + m@,
            MaterialColorsError::InvalidColor(m) => "Invalid color format: "@ + m@,
            MaterialColorsError::ImageProcessing(m) => "Image processing failed: "@ + m@,
            MaterialColorsError::AccessibilityError(m) => "Accessibility requirements cannot be met: "@ + m@,
        }
    }

    /// The text of the error.
    pub fn to_string(&self) -> (s: String)
        ensures
            s@ == self.text(),
    {
        match self {
            MaterialColorsError::SchemeGeneration(m) => concat("Failed to generate color scheme: ", m.as_str()),
            MaterialColorsError::InvalidColor(m) => concat("Invalid color format: ", m.as_str()),
            MaterialColorsError::ImageProcessing(m) => concat("Image processing failed: ", m.as_str()),
            MaterialColorsError::AccessibilityError(m) => concat(
                "Accessibility requirements cannot be met: ",
                m.as_str(),
            ),
        }
    }
}

} // verus!
