//! Capability queries for direct-mode drawing.
//!
//! Capability detection itself talks to the terminal and belongs to the
//! excluded rendering layer; the queries here read a detected capability
//! record handed in as a plain value.

use vstd::prelude::*;

verus! {

/// The capabilities a terminal was detected to have.
#[derive(Clone, Copy, Debug, PartialEq, Eq, Structural)]
pub struct NcCapabilities {
    /// The number of colors in the palette.
    pub colors: u32,
    /// Is UTF-8 output reliable?
    pub utf8: bool,
    /// Can RGB values be specified directly per cell?
    pub rgb: bool,
    /// Can the palette be reprogrammed?
    pub can_change_colors: bool,
    /// Are Unicode half blocks reliable?
    pub halfblocks: bool,
    /// Are Unicode quadrants reliable?
    pub quadrants: bool,
    /// Are Unicode sextants reliable?
    pub sextants: bool,
    /// Is Unicode Braille reliable?
    pub braille: bool,
}

/// Can the "hardware" palette be reprogrammed? This needs the capability
/// itself and a palette of at least 256 registers.
pub fn nccapability_canchangecolor(caps: &NcCapabilities) -> (can: bool)
    ensures
        can == (caps.can_change_colors && caps.colors >= 256),
{
    caps.can_change_colors && caps.colors >= 256
}

/// Can RGB values be specified directly per cell, rather than only palette
/// entries?
pub fn ncdirect_cantruecolor(caps: &NcCapabilities) -> (can: bool)
    ensures
        can == caps.rgb,
{
    caps.rgb
}

/// Can the "hardware" palette be set?
pub fn ncdirect_canchangecolor(caps: &NcCapabilities) -> (can: bool)
    ensures
        can == (caps.can_change_colors && caps.colors >= 256),
{
    nccapability_canchangecolor(caps)
}

/// Can colors be faded? Fading needs either direct RGB or a programmable
/// palette.
pub fn ncdirect_canfade(caps: &NcCapabilities) -> (can: bool)
    ensures
        can == ((caps.can_change_colors && caps.colors >= 256) || caps.rgb),
{
    ncdirect_canchangecolor(caps) || ncdirect_cantruecolor(caps)
}

} // verus!
