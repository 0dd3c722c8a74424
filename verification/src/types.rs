//! Shared type aliases, bit masks and the error type of the cell model.

use vstd::prelude::*;

verus! {

/// 24 bits of RGB color, as `-------- RRRRRRRR GGGGGGGG BBBBBBBB`.
pub type NcRgb = u32;

/// One 8-bit color component.
pub type NcComponent = u8;

/// A 32-bit packed color unit for one side (foreground or background) of a
/// cell: 24 bits of RGB or a palette index, two alpha bits, and flag bits.
pub type NcChannel = u32;

/// A 64-bit pair of [`NcChannel`]: the foreground channel in the upper 32
/// bits, the background channel in the lower 32 bits.
pub type NcChannels = u64;

/// A 2-bit alpha mode, carried in bits 29–28 of an [`NcChannel`]
/// (one of [`NCALPHA_OPAQUE`], [`NCALPHA_BLEND`], [`NCALPHA_TRANSPARENT`],
/// [`NCALPHA_HIGHCONTRAST`]).
pub type NcAlpha = u32;

/// Older alias of [`NcAlpha`].
pub type NcAlphaBits = u32;

/// An 8-bit index into a 256-color palette.
pub type NcPaletteIndex = u8;

/// A 16-bit set of boolean style attributes.
pub type NcStyle = u16;

/// A dimension in rows or columns.
pub type NcDim = u32;

/// A 32-bit signed result; negative values report errors.
pub type NcIntResult = i32;

/// Use the color as it is, without compositing.
pub const NCALPHA_OPAQUE: u32 = 0x0000_0000;

/// Composite the color with the layers below.
pub const NCALPHA_BLEND: u32 = 0x1000_0000;

/// Inherit the color entirely from the layers below.
pub const NCALPHA_TRANSPARENT: u32 = 0x2000_0000;

/// Force contrast against the computed background (foreground side only;
/// forbidden on the background side).
pub const NCALPHA_HIGHCONTRAST: u32 = 0x3000_0000;

/// Bit 30 of a channel: set when the channel does *not* use the terminal's
/// default color.
pub const NCALPHA_BGDEFAULT_MASK: u32 = 0x4000_0000;

/// The two alpha bits (29–28) of a channel.
pub const NCALPHA_BG_ALPHA_MASK: u32 = 0x3000_0000;

/// Bit 27 of a channel: set when the channel uses a palette index instead of
/// RGB.
pub const NCALPHA_BG_PALETTE_MASK: u32 = 0x0800_0000;

/// The 24 RGB bits (23–0) of a channel.
pub const NCALPHA_BG_RGB_MASK: u32 = 0x00ff_ffff;

/// Struck-through text.
pub const NCSTYLE_STRUCK: u16 = 0x0001;

/// Bold text.
pub const NCSTYLE_BOLD: u16 = 0x0002;

/// Undercurled text.
pub const NCSTYLE_UNDERCURL: u16 = 0x0004;

/// Underlined text.
pub const NCSTYLE_UNDERLINE: u16 = 0x0008;

/// Italic text.
pub const NCSTYLE_ITALIC: u16 = 0x0010;

/// No styles.
pub const NCSTYLE_NONE: u16 = 0x0000;

/// The defined style bits; all other bits are reserved and are masked off on
/// every write of a cell's style mask.
pub const NCSTYLE_MASK: u16 = 0x001f;

/// Why a grapheme-cluster load was refused.
///
/// No operation of this crate mutates its target when it returns an error.
#[derive(Clone, Copy, Debug, PartialEq, Eq, Structural)]
pub enum NcError {
    /// The input's first grapheme cluster contains the reserved codepoint
    /// U+0001, which tags indirect cells and so can never be stored.
    InvalidGrapheme,
    /// The grapheme pool has grown beyond the 24-bit offset range, so no new
    /// entry can be addressed.
    PoolOverflow,
}

} // verus!
