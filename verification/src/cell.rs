//! The 128-bit cell: a 4-byte grapheme slot, a guaranteed-zero backstop
//! byte, a column width, a 16-bit style mask and a 64-bit channel pair.
//!
//! The grapheme slot holds either up to four raw UTF-8 bytes, zero-padded
//! (byte `k` of the cluster in bits `8k..8k+8`), or an indirect reference:
//! the first (lowest) byte is the sentinel `0x01` and the remaining 24 bits
//! are a byte offset into the owning plane's grapheme pool. The sentinel can
//! never open a direct encoding, because the codepoint U+0001 is refused by
//! every load.

use vstd::prelude::*;

use vstd::utf8::valid_utf8;

use crate::channel::{
    channel_alpha_spec, channel_b_spec, channel_default_p_spec, channel_g_spec,
    channel_palindex_p_spec, channel_r_spec, channel_rgb_spec, channel_set_alpha_spec,
    channel_set_default_spec, channel_set_palindex_spec, channel_set_spec, bchannel_spec,
    fchannel_spec, ncchannels_bg_alpha, ncchannels_bg_default_p, ncchannels_bg_palindex_p,
    ncchannels_bg_rgb, ncchannels_bg_rgb8, ncchannels_fg_alpha, ncchannels_fg_default_p,
    ncchannels_fg_palindex_p, ncchannels_fg_rgb, ncchannels_fg_rgb8, ncchannels_set_bg_alpha,
    ncchannels_set_bg_default, ncchannels_set_bg_palindex, ncchannels_set_bg_rgb,
    ncchannels_set_bg_rgb8, ncchannels_set_fg_alpha, ncchannels_set_fg_default,
    ncchannels_set_fg_palindex, ncchannels_set_fg_rgb, ncchannels_set_fg_rgb8,
    rgb_of_components_spec, set_bchannel_spec, set_fchannel_spec,
};
use crate::plane::{pool_entry, pool_has_entry};
use crate::types::{
    NcAlpha, NcChannel, NcChannels, NcComponent, NcPaletteIndex, NcRgb, NcStyle,
    NCALPHA_HIGHCONTRAST, NCALPHA_OPAQUE, NCSTYLE_MASK,
};

verus! {

/// One character position: 16 bytes of packed state.
#[derive(Clone, Copy, Debug, PartialEq, Eq, Structural)]
pub struct NcCell {
    /// The grapheme slot: up to four inline UTF-8 bytes, or `0x01` plus a
    /// 24-bit pool offset.
    pub gcluster: u32,
    /// A defensive NUL terminator; always zero.
    pub backstop: u8,
    /// 0 for a single-column cell; otherwise the total column count of the
    /// glyph this cell is part of.
    pub width: u8,
    /// The style attribute bits.
    pub stylemask: u16,
    /// The foreground/background channel pair.
    pub channels: u64,
}

/// The all-zero cell: a well-formed empty cell (a space glyph with default
/// colors and no styles).
pub open spec fn nccell_zero() -> NcCell {
    NcCell { gcluster: 0, backstop: 0, width: 0, stylemask: 0, channels: 0 }
}

/// What initialization leaves in a cell, whatever was there before.
pub open spec fn nccell_init_spec(cell: NcCell) -> NcCell {
    nccell_zero()
}

// ---------------------------------------------------------------------------
// The grapheme slot.
// ---------------------------------------------------------------------------

/// Does the grapheme slot hold an indirect pool reference? The tag is the
/// sentinel `0x01` in the slot's first byte.
pub open spec fn cell_indirect(gcluster: u32) -> bool {
    gcluster & 0xff == 0x01
}

/// The pool offset of an indirect slot: its upper 24 bits.
pub open spec fn cell_pool_offset(gcluster: u32) -> int {
    (gcluster >> 8) as int
}

/// Byte `k` of the grapheme slot, for `0 <= k < 4`.
pub open spec fn gcluster_byte(gcluster: u32, k: int) -> u8 {
    if k == 0 {
        (gcluster & 0xff) as u8
    } else if k == 1 {
        ((gcluster >> 8) & 0xff) as u8
    } else if k == 2 {
        ((gcluster >> 16) & 0xff) as u8
    } else {
        ((gcluster >> 24) & 0xff) as u8
    }
}

/// How many bytes a direct slot holds: its bytes up to the first zero.
pub open spec fn inline_len(gcluster: u32) -> int {
    if gcluster & 0xff == 0 {
        0
    } else if (gcluster >> 8) & 0xff == 0 {
        1
    } else if (gcluster >> 16) & 0xff == 0 {
        2
    } else if (gcluster >> 24) & 0xff == 0 {
        3
    } else {
        4
    }
}

/// The bytes a direct slot holds.
pub open spec fn inline_bytes(gcluster: u32) -> Seq<u8> {
    Seq::new(inline_len(gcluster) as nat, |k: int| gcluster_byte(gcluster, k))
}

/// Well-formedness of a cell against its owning plane's pool: the backstop
/// is zero, and the grapheme slot resolves to valid UTF-8 — through a live,
/// NUL-terminated pool entry when indirect, or through zero-padded inline
/// bytes when direct.
pub open spec fn nccell_wf(cell: NcCell, pool: Seq<u8>) -> bool {
    &&& cell.backstop == 0
    &&& if cell_indirect(cell.gcluster) {
        &&& pool_has_entry(pool, cell_pool_offset(cell.gcluster))
        &&& valid_utf8(pool_entry(pool, cell_pool_offset(cell.gcluster)))
    } else {
        &&& valid_utf8(inline_bytes(cell.gcluster))
        &&& forall|k: int|
            inline_len(cell.gcluster) <= k < 4 ==> gcluster_byte(cell.gcluster, k) == 0
    }
}

/// The resolved UTF-8 bytes of the cell's grapheme cluster.
pub open spec fn nccell_egc_bytes(cell: NcCell, pool: Seq<u8>) -> Seq<u8> {
    if cell_indirect(cell.gcluster) {
        pool_entry(pool, cell_pool_offset(cell.gcluster))
    } else {
        inline_bytes(cell.gcluster)
    }
}

// ---------------------------------------------------------------------------
// Construction and initialization.
// ---------------------------------------------------------------------------

impl NcCell {
    /// A new empty cell, with every field zero.
    pub fn new() -> (cell: NcCell)
        ensures
            cell == nccell_zero(),
    {
        NcCell { gcluster: 0, backstop: 0, width: 0, stylemask: 0, channels: 0 }
    }
}

/// Zeroes the cell back to its creation state, whatever it held.
pub fn nccell_init(cell: &mut NcCell)
    ensures
        *final(cell) == nccell_init_spec(*old(cell)),
        *final(cell) == nccell_zero(),
{
    *cell = NcCell { gcluster: 0, backstop: 0, width: 0, stylemask: 0, channels: 0 };
}

/// Law: initialization is idempotent — a second initialization leaves
/// exactly what the first one left, the all-zero cell.
pub proof fn lemma_init_idempotent(cell: NcCell)
    ensures
        nccell_init_spec(nccell_init_spec(cell)) == nccell_init_spec(cell),
        nccell_init_spec(cell) == nccell_zero(),
{
}

/// The all-zero cell is well formed against any pool.
pub proof fn lemma_zero_cell_wf(pool: Seq<u8>)
    ensures
        nccell_wf(nccell_zero(), pool),
        nccell_egc_bytes(nccell_zero(), pool) == Seq::<u8>::empty(),
{
    assert(0u32 & 0xff == 0 && (0u32 >> 8) & 0xff == 0 && (0u32 >> 16) & 0xff == 0 && (0u32
        >> 24) & 0xff == 0) by (bit_vector);
    assert(inline_bytes(0u32) =~= Seq::<u8>::empty());
    reveal_with_fuel(vstd::utf8::valid_utf8, 1);
}

// ---------------------------------------------------------------------------
// Width and wideness.
// ---------------------------------------------------------------------------

/// The number of columns the cell occupies: its width field, read as 1 when
/// that field is 0.
pub fn nccell_cols(cell: &NcCell) -> (cols: u8)
    ensures
        cell.width == 0 ==> cols == 1,
        cell.width > 0 ==> cols == cell.width,
{
    if cell.width != 0 {
        cell.width
    } else {
        1
    }
}

/// Is the cell part of a multi-column glyph?
pub fn nccell_double_wide_p(cell: &NcCell) -> (wide: bool)
    ensures
        wide == (cell.width > 0),
{
    cell.width > 0
}

/// Is this the right half of a wide glyph? Right halves carry a zeroed
/// grapheme slot as a positional marker.
pub fn nccell_wide_right_p(cell: &NcCell) -> (right: bool)
    ensures
        right == (cell.width > 0 && cell.gcluster == 0),
{
    cell.width > 0 && cell.gcluster == 0
}

/// Is this the left half of a wide glyph, the one holding the real grapheme?
pub fn nccell_wide_left_p(cell: &NcCell) -> (left: bool)
    ensures
        left == (cell.width > 0 && cell.gcluster != 0),
{
    cell.width > 0 && cell.gcluster != 0
}

// ---------------------------------------------------------------------------
// Styles.
// ---------------------------------------------------------------------------

/// Returns the cell's style bits.
pub fn nccell_styles(cell: &NcCell) -> (styles: NcStyle)
    ensures
        styles == cell.stylemask,
{
    cell.stylemask
}

/// Adds the given style bits to the cell's existing ones; reserved bits are
/// masked off.
pub fn nccell_on_styles(cell: &mut NcCell, stylebits: NcStyle)
    ensures
        final(cell).stylemask == old(cell).stylemask | (stylebits & NCSTYLE_MASK),
        *final(cell) == (NcCell { stylemask: final(cell).stylemask, ..*old(cell) }),
{
    cell.stylemask = cell.stylemask | (stylebits & NCSTYLE_MASK);
}

/// Removes the given style bits from the cell's existing ones; reserved bits
/// are masked off.
pub fn nccell_off_styles(cell: &mut NcCell, stylebits: NcStyle)
    ensures
        final(cell).stylemask == old(cell).stylemask & !(stylebits & NCSTYLE_MASK),
        *final(cell) == (NcCell { stylemask: final(cell).stylemask, ..*old(cell) }),
{
    cell.stylemask = cell.stylemask & !(stylebits & NCSTYLE_MASK);
}

/// Sets exactly the given style bits; reserved bits are masked off.
pub fn nccell_set_styles(cell: &mut NcCell, stylebits: NcStyle)
    ensures
        final(cell).stylemask == stylebits & NCSTYLE_MASK,
        *final(cell) == (NcCell { stylemask: final(cell).stylemask, ..*old(cell) }),
{
    cell.stylemask = stylebits & NCSTYLE_MASK;
}

// ---------------------------------------------------------------------------
// Channel accessors, delegating to the channel-pair operations.
// ---------------------------------------------------------------------------

/// The foreground alpha bits of the cell.
pub fn nccell_fg_alpha(cell: &NcCell) -> (alpha: NcAlpha)
    ensures
        alpha == channel_alpha_spec(fchannel_spec(cell.channels)),
{
    ncchannels_fg_alpha(cell.channels)
}

/// The background alpha bits of the cell.
pub fn nccell_bg_alpha(cell: &NcCell) -> (alpha: NcAlpha)
    ensures
        alpha == channel_alpha_spec(bchannel_spec(cell.channels)),
{
    ncchannels_bg_alpha(cell.channels)
}

/// Overwrites the cell's foreground alpha field alone.
pub fn nccell_set_fg_alpha(cell: &mut NcCell, alpha: NcAlpha)
    ensures
        final(cell).channels == set_fchannel_spec(
            old(cell).channels,
            channel_set_alpha_spec(fchannel_spec(old(cell).channels), alpha),
        ),
        channel_alpha_spec(fchannel_spec(final(cell).channels)) == alpha & 0x3000_0000,
        bchannel_spec(final(cell).channels) == bchannel_spec(old(cell).channels),
        *final(cell) == (NcCell { channels: final(cell).channels, ..*old(cell) }),
{
    ncchannels_set_fg_alpha(&mut cell.channels, alpha);
}

/// Overwrites the cell's background alpha field alone. A background alpha of
/// high-contrast is forbidden by the encoding and must not be requested.
pub fn nccell_set_bg_alpha(cell: &mut NcCell, alpha: NcAlpha)
    requires
        alpha & 0x3000_0000 != NCALPHA_HIGHCONTRAST,
    ensures
        final(cell).channels == set_bchannel_spec(
            old(cell).channels,
            channel_set_alpha_spec(bchannel_spec(old(cell).channels), alpha),
        ),
        channel_alpha_spec(bchannel_spec(final(cell).channels)) == alpha & 0x3000_0000,
        fchannel_spec(final(cell).channels) == fchannel_spec(old(cell).channels),
        *final(cell) == (NcCell { channels: final(cell).channels, ..*old(cell) }),
{
    ncchannels_set_bg_alpha(&mut cell.channels, alpha);
}

/// Writes the cell's foreground components into `red`, `green` and `blue`,
/// and returns the foreground channel.
pub fn nccell_fg_rgb8(
    cell: &NcCell,
    red: &mut NcComponent,
    green: &mut NcComponent,
    blue: &mut NcComponent,
) -> (fchannel: NcChannel)
    ensures
        *final(red) == channel_r_spec(fchannel_spec(cell.channels)),
        *final(green) == channel_g_spec(fchannel_spec(cell.channels)),
        *final(blue) == channel_b_spec(fchannel_spec(cell.channels)),
        fchannel == fchannel_spec(cell.channels),
{
    ncchannels_fg_rgb8(cell.channels, red, green, blue)
}

/// Writes the cell's background components into `red`, `green` and `blue`,
/// and returns the background channel.
pub fn nccell_bg_rgb8(
    cell: &NcCell,
    red: &mut NcComponent,
    green: &mut NcComponent,
    blue: &mut NcComponent,
) -> (bchannel: NcChannel)
    ensures
        *final(red) == channel_r_spec(bchannel_spec(cell.channels)),
        *final(green) == channel_g_spec(bchannel_spec(cell.channels)),
        *final(blue) == channel_b_spec(bchannel_spec(cell.channels)),
        bchannel == bchannel_spec(cell.channels),
{
    ncchannels_bg_rgb8(cell.channels, red, green, blue)
}

/// Sets the cell's foreground color from three components, marking the
/// foreground as not using the default color.
pub fn nccell_set_fg_rgb8(cell: &mut NcCell, red: NcComponent, green: NcComponent, blue: NcComponent)
    ensures
        final(cell).channels == set_fchannel_spec(
            old(cell).channels,
            channel_set_spec(
                fchannel_spec(old(cell).channels),
                rgb_of_components_spec(red, green, blue),
            ),
        ),
        channel_r_spec(fchannel_spec(final(cell).channels)) == red,
        channel_g_spec(fchannel_spec(final(cell).channels)) == green,
        channel_b_spec(fchannel_spec(final(cell).channels)) == blue,
        !channel_default_p_spec(fchannel_spec(final(cell).channels)),
        bchannel_spec(final(cell).channels) == bchannel_spec(old(cell).channels),
        *final(cell) == (NcCell { channels: final(cell).channels, ..*old(cell) }),
{
    ncchannels_set_fg_rgb8(&mut cell.channels, red, green, blue);
}

/// Sets the cell's background color from three components, marking the
/// background as not using the default color.
pub fn nccell_set_bg_rgb8(cell: &mut NcCell, red: NcComponent, green: NcComponent, blue: NcComponent)
    ensures
        final(cell).channels == set_bchannel_spec(
            old(cell).channels,
            channel_set_spec(
                bchannel_spec(old(cell).channels),
                rgb_of_components_spec(red, green, blue),
            ),
        ),
        channel_r_spec(bchannel_spec(final(cell).channels)) == red,
        channel_g_spec(bchannel_spec(final(cell).channels)) == green,
        channel_b_spec(bchannel_spec(final(cell).channels)) == blue,
        !channel_default_p_spec(bchannel_spec(final(cell).channels)),
        fchannel_spec(final(cell).channels) == fchannel_spec(old(cell).channels),
        *final(cell) == (NcCell { channels: final(cell).channels, ..*old(cell) }),
{
    ncchannels_set_bg_rgb8(&mut cell.channels, red, green, blue);
}

/// The cell's foreground RGB bits, shifted to the least significant bits.
pub fn nccell_fg_rgb(cell: &NcCell) -> (rgb: NcRgb)
    ensures
        rgb == channel_rgb_spec(fchannel_spec(cell.channels)),
{
    ncchannels_fg_rgb(cell.channels)
}

/// The cell's background RGB bits, shifted to the least significant bits.
pub fn nccell_bg_rgb(cell: &NcCell) -> (rgb: NcRgb)
    ensures
        rgb == channel_rgb_spec(bchannel_spec(cell.channels)),
{
    ncchannels_bg_rgb(cell.channels)
}

/// Overwrites the cell's foreground RGB field, marking the foreground as not
/// using the default color.
pub fn nccell_set_fg_rgb(cell: &mut NcCell, rgb: NcRgb)
    ensures
        final(cell).channels == set_fchannel_spec(
            old(cell).channels,
            channel_set_spec(fchannel_spec(old(cell).channels), rgb),
        ),
        channel_rgb_spec(fchannel_spec(final(cell).channels)) == rgb & 0x00ff_ffff,
        !channel_default_p_spec(fchannel_spec(final(cell).channels)),
        bchannel_spec(final(cell).channels) == bchannel_spec(old(cell).channels),
        *final(cell) == (NcCell { channels: final(cell).channels, ..*old(cell) }),
{
    ncchannels_set_fg_rgb(&mut cell.channels, rgb);
}

/// Overwrites the cell's background RGB field, marking the background as not
/// using the default color.
pub fn nccell_set_bg_rgb(cell: &mut NcCell, rgb: NcRgb)
    ensures
        final(cell).channels == set_bchannel_spec(
            old(cell).channels,
            channel_set_spec(bchannel_spec(old(cell).channels), rgb),
        ),
        channel_rgb_spec(bchannel_spec(final(cell).channels)) == rgb & 0x00ff_ffff,
        !channel_default_p_spec(bchannel_spec(final(cell).channels)),
        fchannel_spec(final(cell).channels) == fchannel_spec(old(cell).channels),
        *final(cell) == (NcCell { channels: final(cell).channels, ..*old(cell) }),
{
    ncchannels_set_bg_rgb(&mut cell.channels, rgb);
}

/// Marks the cell's foreground as using the default color, forcing its alpha
/// to opaque.
pub fn nccell_set_fg_default(cell: &mut NcCell)
    ensures
        final(cell).channels == set_fchannel_spec(
            old(cell).channels,
            channel_set_default_spec(fchannel_spec(old(cell).channels)),
        ),
        channel_default_p_spec(fchannel_spec(final(cell).channels)),
        channel_alpha_spec(fchannel_spec(final(cell).channels)) == NCALPHA_OPAQUE,
        bchannel_spec(final(cell).channels) == bchannel_spec(old(cell).channels),
        *final(cell) == (NcCell { channels: final(cell).channels, ..*old(cell) }),
{
    ncchannels_set_fg_default(&mut cell.channels);
}

/// Marks the cell's background as using the default color, forcing its alpha
/// to opaque.
pub fn nccell_set_bg_default(cell: &mut NcCell)
    ensures
        final(cell).channels == set_bchannel_spec(
            old(cell).channels,
            channel_set_default_spec(bchannel_spec(old(cell).channels)),
        ),
        channel_default_p_spec(bchannel_spec(final(cell).channels)),
        channel_alpha_spec(bchannel_spec(final(cell).channels)) == NCALPHA_OPAQUE,
        fchannel_spec(final(cell).channels) == fchannel_spec(old(cell).channels),
        *final(cell) == (NcCell { channels: final(cell).channels, ..*old(cell) }),
{
    ncchannels_set_bg_default(&mut cell.channels);
}

/// Does the cell's foreground use the terminal's default color?
pub fn nccell_fg_default_p(cell: &NcCell) -> (default: bool)
    ensures
        default == channel_default_p_spec(fchannel_spec(cell.channels)),
{
    ncchannels_fg_default_p(cell.channels)
}

/// Does the cell's background use the terminal's default color?
pub fn nccell_bg_default_p(cell: &NcCell) -> (default: bool)
    ensures
        default == channel_default_p_spec(bchannel_spec(cell.channels)),
{
    ncchannels_bg_default_p(cell.channels)
}

/// Does the cell's foreground use a palette index?
pub fn nccell_fg_palindex_p(cell: &NcCell) -> (palindex: bool)
    ensures
        palindex == channel_palindex_p_spec(fchannel_spec(cell.channels)),
{
    ncchannels_fg_palindex_p(cell.channels)
}

/// Does the cell's background use a palette index?
pub fn nccell_bg_palindex_p(cell: &NcCell) -> (palindex: bool)
    ensures
        palindex == channel_palindex_p_spec(bchannel_spec(cell.channels)),
{
    ncchannels_bg_palindex_p(cell.channels)
}

/// The cell's foreground palette index: the low byte of the foreground
/// channel.
pub fn nccell_fg_palindex(cell: &NcCell) -> (index: NcPaletteIndex)
    ensures
        index as u32 == fchannel_spec(cell.channels) & 0xff,
{
    proof {
        let ch = cell.channels;
        assert(((ch & 0xff_0000_0000u64) >> 32) as u8 as u32 == ((ch >> 32) as u32) & 0xff)
            by (bit_vector);
    }
    ((cell.channels & 0xff_0000_0000) >> 32) as u8
}

/// The cell's background palette index: the low byte of the background
/// channel.
pub fn nccell_bg_palindex(cell: &NcCell) -> (index: NcPaletteIndex)
    ensures
        index as u32 == bchannel_spec(cell.channels) & 0xff,
{
    proof {
        let ch = cell.channels;
        assert((ch & 0xffu64) as u8 as u32 == ((ch & 0xffff_ffff) as u32) & 0xff) by (bit_vector);
    }
    (cell.channels & 0xff) as u8
}

/// Sets the cell's foreground palette index: the palette and "not default"
/// flags are set and alpha is forced to opaque. This cannot fail for any
/// 8-bit index.
pub fn nccell_set_fg_palindex(cell: &mut NcCell, index: NcPaletteIndex)
    ensures
        final(cell).channels == set_fchannel_spec(
            old(cell).channels,
            channel_set_palindex_spec(fchannel_spec(old(cell).channels), index),
        ),
        channel_palindex_p_spec(fchannel_spec(final(cell).channels)),
        !channel_default_p_spec(fchannel_spec(final(cell).channels)),
        channel_alpha_spec(fchannel_spec(final(cell).channels)) == NCALPHA_OPAQUE,
        fchannel_spec(final(cell).channels) & 0xff == index as u32,
        bchannel_spec(final(cell).channels) == bchannel_spec(old(cell).channels),
        *final(cell) == (NcCell { channels: final(cell).channels, ..*old(cell) }),
{
    ncchannels_set_fg_palindex(&mut cell.channels, index);
}

/// Sets the cell's background palette index: the palette and "not default"
/// flags are set and alpha is forced to opaque. This cannot fail for any
/// 8-bit index.
pub fn nccell_set_bg_palindex(cell: &mut NcCell, index: NcPaletteIndex)
    ensures
        final(cell).channels == set_bchannel_spec(
            old(cell).channels,
            channel_set_palindex_spec(bchannel_spec(old(cell).channels), index),
        ),
        channel_palindex_p_spec(bchannel_spec(final(cell).channels)),
        !channel_default_p_spec(bchannel_spec(final(cell).channels)),
        channel_alpha_spec(bchannel_spec(final(cell).channels)) == NCALPHA_OPAQUE,
        bchannel_spec(final(cell).channels) & 0xff == index as u32,
        fchannel_spec(final(cell).channels) == fchannel_spec(old(cell).channels),
        *final(cell) == (NcCell { channels: final(cell).channels, ..*old(cell) }),
{
    ncchannels_set_bg_palindex(&mut cell.channels, index);
}

} // verus!
