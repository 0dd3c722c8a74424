//! The 32-bit channel and 64-bit channel-pair encodings.
//!
//! A channel packs, from most to least significant bit: a "part of wide
//! glyph" marker (bit 31, background side only), a "not using the default
//! color" flag (bit 30), a 2-bit alpha mode (bits 29–28), a "uses palette
//! index" flag (bit 27), a "glyph is entirely foreground" marker (bit 26,
//! foreground side only), two reserved bits, and 24 bits of RGB (or, under
//! the palette flag, an 8-bit palette index in the low byte).
//!
//! A channel pair packs the foreground channel in the upper 32 bits and the
//! background channel in the lower 32 bits.

use vstd::prelude::*;

use crate::types::{
    NcAlpha, NcChannel, NcChannels, NcComponent, NcPaletteIndex, NcRgb, NCALPHA_HIGHCONTRAST,
    NCALPHA_OPAQUE,
};

verus! {

// ---------------------------------------------------------------------------
// Models of the single-channel operations.
// ---------------------------------------------------------------------------

/// The alpha bits of a channel, in place.
pub open spec fn channel_alpha_spec(ch: u32) -> u32 {
    ch & 0x3000_0000
}

/// The new channel after overwriting the alpha field alone.
pub open spec fn channel_set_alpha_spec(ch: u32, alpha: u32) -> u32 {
    (alpha & 0x3000_0000) | (ch & !0x3000_0000)
}

/// Whether the channel uses the terminal's default color.
pub open spec fn channel_default_p_spec(ch: u32) -> bool {
    ch & 0x4000_0000 == 0
}

/// The new channel after marking it as using the default color, which also
/// forces the alpha field to opaque.
pub open spec fn channel_set_default_spec(ch: u32) -> u32 {
    ch & !0x7000_0000
}

/// The new channel after marking it as not using the default color.
pub open spec fn channel_set_not_default_spec(ch: u32) -> u32 {
    ch | 0x4000_0000
}

/// Whether the channel uses a palette index instead of RGB.
pub open spec fn channel_palindex_p_spec(ch: u32) -> bool {
    ch & 0x0800_0000 != 0
}

/// The 24 RGB bits of a channel, in place.
pub open spec fn channel_rgb_spec(ch: u32) -> u32 {
    ch & 0x00ff_ffff
}

/// The new channel after overwriting the 24-bit RGB field, clearing the
/// palette flag and setting the "not default" flag; alpha and the remaining
/// flag bits are preserved.
pub open spec fn channel_set_spec(ch: u32, rgb: u32) -> u32 {
    (ch & !0x08ff_ffff) | 0x4000_0000 | (rgb & 0x00ff_ffff)
}

/// The 24-bit RGB value packed from three components.
pub open spec fn rgb_of_components_spec(r: u8, g: u8, b: u8) -> u32 {
    ((r as u32) << 16) | ((g as u32) << 8) | (b as u32)
}

/// The red component of a channel.
pub open spec fn channel_r_spec(ch: u32) -> u8 {
    ((ch & 0x00ff_0000) >> 16) as u8
}

/// The green component of a channel.
pub open spec fn channel_g_spec(ch: u32) -> u8 {
    ((ch & 0x0000_ff00) >> 8) as u8
}

/// The blue component of a channel.
pub open spec fn channel_b_spec(ch: u32) -> u8 {
    (ch & 0x0000_00ff) as u8
}

/// The new channel after setting the 8-bit palette index: the RGB field is
/// replaced by the index, the palette flag and the "not default" flag are
/// set, and alpha is forced to opaque.
pub open spec fn channel_set_palindex_spec(ch: u32, idx: u8) -> u32 {
    (ch & 0xcf00_0000) | 0x4800_0000 | (idx as u32)
}

// ---------------------------------------------------------------------------
// Models of the channel-pair operations.
// ---------------------------------------------------------------------------

/// Two channels packed as one 64-bit value, foreground above background.
pub open spec fn channels_combine_spec(fchannel: u32, bchannel: u32) -> u64 {
    ((fchannel as u64) << 32) | (bchannel as u64)
}

/// The foreground half of a channel pair.
pub open spec fn fchannel_spec(channels: u64) -> u32 {
    (channels >> 32) as u32
}

/// The background half of a channel pair.
pub open spec fn bchannel_spec(channels: u64) -> u32 {
    (channels & 0xffff_ffff) as u32
}

/// The pair with its foreground half replaced.
pub open spec fn set_fchannel_spec(channels: u64, fchannel: u32) -> u64 {
    channels_combine_spec(fchannel, bchannel_spec(channels))
}

/// The pair with its background half replaced.
pub open spec fn set_bchannel_spec(channels: u64, bchannel: u32) -> u64 {
    channels_combine_spec(fchannel_spec(channels), bchannel)
}

// ---------------------------------------------------------------------------
// Facts about the models.
// ---------------------------------------------------------------------------

/// Overwriting the alpha field changes no other field.
pub proof fn lemma_set_alpha_facts(ch: u32, alpha: u32)
    ensures
        channel_alpha_spec(channel_set_alpha_spec(ch, alpha)) == alpha & 0x3000_0000,
        channel_rgb_spec(channel_set_alpha_spec(ch, alpha)) == channel_rgb_spec(ch),
        channel_default_p_spec(channel_set_alpha_spec(ch, alpha)) == channel_default_p_spec(ch),
        channel_palindex_p_spec(channel_set_alpha_spec(ch, alpha)) == channel_palindex_p_spec(ch),
{
    assert(((alpha & 0x3000_0000) | (ch & !0x3000_0000)) & 0x3000_0000 == alpha & 0x3000_0000
        && ((alpha & 0x3000_0000) | (ch & !0x3000_0000)) & 0x00ff_ffff == ch & 0x00ff_ffff
        && ((alpha & 0x3000_0000) | (ch & !0x3000_0000)) & 0x4000_0000 == ch & 0x4000_0000
        && ((alpha & 0x3000_0000) | (ch & !0x3000_0000)) & 0x0800_0000 == ch & 0x0800_0000)
        by (bit_vector);
}

/// Marking a channel default clears the "not default" flag and forces alpha
/// to opaque; RGB and the palette flag are preserved.
pub proof fn lemma_set_default_facts(ch: u32)
    ensures
        channel_default_p_spec(channel_set_default_spec(ch)),
        channel_alpha_spec(channel_set_default_spec(ch)) == NCALPHA_OPAQUE,
        channel_rgb_spec(channel_set_default_spec(ch)) == channel_rgb_spec(ch),
        channel_palindex_p_spec(channel_set_default_spec(ch)) == channel_palindex_p_spec(ch),
{
    assert((ch & !0x7000_0000) & 0x4000_0000 == 0 && (ch & !0x7000_0000) & 0x3000_0000 == 0
        && (ch & !0x7000_0000) & 0x00ff_ffff == ch & 0x00ff_ffff
        && (ch & !0x7000_0000) & 0x0800_0000 == ch & 0x0800_0000) by (bit_vector);
}

/// Marking a channel not-default changes no other field.
pub proof fn lemma_set_not_default_facts(ch: u32)
    ensures
        !channel_default_p_spec(channel_set_not_default_spec(ch)),
        channel_alpha_spec(channel_set_not_default_spec(ch)) == channel_alpha_spec(ch),
        channel_rgb_spec(channel_set_not_default_spec(ch)) == channel_rgb_spec(ch),
        channel_palindex_p_spec(channel_set_not_default_spec(ch)) == channel_palindex_p_spec(ch),
{
    assert((ch | 0x4000_0000) & 0x4000_0000 != 0 && (ch | 0x4000_0000) & 0x3000_0000 == ch
        & 0x3000_0000 && (ch | 0x4000_0000) & 0x00ff_ffff == ch & 0x00ff_ffff && (ch
        | 0x4000_0000) & 0x0800_0000 == ch & 0x0800_0000) by (bit_vector);
}

/// Overwriting the RGB field stores the masked value, clears the palette
/// flag, sets the "not default" flag, and preserves alpha.
pub proof fn lemma_set_rgb_facts(ch: u32, rgb: u32)
    ensures
        channel_rgb_spec(channel_set_spec(ch, rgb)) == rgb & 0x00ff_ffff,
        !channel_default_p_spec(channel_set_spec(ch, rgb)),
        !channel_palindex_p_spec(channel_set_spec(ch, rgb)),
        channel_alpha_spec(channel_set_spec(ch, rgb)) == channel_alpha_spec(ch),
{
    assert(((ch & !0x08ff_ffff) | 0x4000_0000 | (rgb & 0x00ff_ffff)) & 0x00ff_ffff == rgb
        & 0x00ff_ffff && ((ch & !0x08ff_ffff) | 0x4000_0000 | (rgb & 0x00ff_ffff)) & 0x4000_0000
        != 0 && ((ch & !0x08ff_ffff) | 0x4000_0000 | (rgb & 0x00ff_ffff)) & 0x0800_0000 == 0 && ((
    ch & !0x08ff_ffff) | 0x4000_0000 | (rgb & 0x00ff_ffff)) & 0x3000_0000 == ch & 0x3000_0000)
        by (bit_vector);
}

/// The components of a packed RGB triple read back unchanged.
pub proof fn lemma_rgb_components(r: u8, g: u8, b: u8)
    ensures
        channel_r_spec(rgb_of_components_spec(r, g, b)) == r,
        channel_g_spec(rgb_of_components_spec(r, g, b)) == g,
        channel_b_spec(rgb_of_components_spec(r, g, b)) == b,
        rgb_of_components_spec(r, g, b) & 0x00ff_ffff == rgb_of_components_spec(r, g, b),
{
    assert(((((r as u32) << 16) | ((g as u32) << 8) | (b as u32)) & 0x00ff_0000) >> 16 == r as u32
        && ((((r as u32) << 16) | ((g as u32) << 8) | (b as u32)) & 0x0000_ff00) >> 8 == g as u32
        && (((r as u32) << 16) | ((g as u32) << 8) | (b as u32)) & 0x0000_00ff == b as u32 && (((
    r as u32) << 16) | ((g as u32) << 8) | (b as u32)) & 0x00ff_ffff == (((r as u32) << 16) | ((
    g as u32) << 8) | (b as u32))) by (bit_vector);
}

/// Setting the palette index stores it in the low byte, sets the palette and
/// "not default" flags, and forces alpha to opaque.
pub proof fn lemma_set_palindex_facts(ch: u32, idx: u8)
    ensures
        channel_palindex_p_spec(channel_set_palindex_spec(ch, idx)),
        !channel_default_p_spec(channel_set_palindex_spec(ch, idx)),
        channel_alpha_spec(channel_set_palindex_spec(ch, idx)) == NCALPHA_OPAQUE,
        channel_set_palindex_spec(ch, idx) & 0xff == idx as u32,
{
    assert(((ch & 0xcf00_0000) | 0x4800_0000 | (idx as u32)) & 0x0800_0000 != 0 && ((ch
        & 0xcf00_0000) | 0x4800_0000 | (idx as u32)) & 0x4000_0000 != 0 && ((ch & 0xcf00_0000)
        | 0x4800_0000 | (idx as u32)) & 0x3000_0000 == 0 && ((ch & 0xcf00_0000) | 0x4800_0000 | (
    idx as u32)) & 0xff == idx as u32) by (bit_vector);
}

/// Combining two channels stores each half exactly.
pub proof fn lemma_combine_facts(fchannel: u32, bchannel: u32)
    ensures
        fchannel_spec(channels_combine_spec(fchannel, bchannel)) == fchannel,
        bchannel_spec(channels_combine_spec(fchannel, bchannel)) == bchannel,
{
    assert(((((fchannel as u64) << 32) | (bchannel as u64)) >> 32) as u32 == fchannel && ((((
    fchannel as u64) << 32) | (bchannel as u64)) & 0xffff_ffff) as u32 == bchannel)
        by (bit_vector);
}

// ---------------------------------------------------------------------------
// Executable single-channel operations.
// ---------------------------------------------------------------------------

/// Returns the alpha bits of the channel, in place.
pub fn ncchannel_alpha(channel: NcChannel) -> (alpha: NcAlpha)
    ensures
        alpha == channel_alpha_spec(channel),
{
    channel & 0x3000_0000
}

/// Overwrites the alpha field of the channel, masking the input to the alpha
/// bits; no other field changes.
pub fn ncchannel_set_alpha(channel: &mut NcChannel, alpha: NcAlpha)
    ensures
        *final(channel) == channel_set_alpha_spec(*old(channel), alpha),
        channel_alpha_spec(*final(channel)) == alpha & 0x3000_0000,
        channel_rgb_spec(*final(channel)) == channel_rgb_spec(*old(channel)),
        channel_default_p_spec(*final(channel)) == channel_default_p_spec(*old(channel)),
        channel_palindex_p_spec(*final(channel)) == channel_palindex_p_spec(*old(channel)),
{
    proof {
        lemma_set_alpha_facts(*channel, alpha);
    }
    *channel = (alpha & 0x3000_0000) | (*channel & !0x3000_0000);
}

/// Does the channel use the terminal's default color?
pub fn ncchannel_default_p(channel: NcChannel) -> (default: bool)
    ensures
        default == channel_default_p_spec(channel),
{
    channel & 0x4000_0000 == 0
}

/// Marks the channel as using the default color; this also forces the alpha
/// field to opaque, since the default color is never blended.
pub fn ncchannel_set_default(channel: &mut NcChannel) -> (new: NcChannel)
    ensures
        *final(channel) == channel_set_default_spec(*old(channel)),
        new == *final(channel),
        channel_default_p_spec(*final(channel)),
        channel_alpha_spec(*final(channel)) == NCALPHA_OPAQUE,
        channel_rgb_spec(*final(channel)) == channel_rgb_spec(*old(channel)),
        channel_palindex_p_spec(*final(channel)) == channel_palindex_p_spec(*old(channel)),
{
    proof {
        lemma_set_default_facts(*channel);
    }
    *channel = *channel & !0x7000_0000;
    *channel
}

/// Marks the channel as not using the default color; no other field changes.
pub fn ncchannel_set_not_default(channel: &mut NcChannel) -> (new: NcChannel)
    ensures
        *final(channel) == channel_set_not_default_spec(*old(channel)),
        new == *final(channel),
        !channel_default_p_spec(*final(channel)),
        channel_alpha_spec(*final(channel)) == channel_alpha_spec(*old(channel)),
        channel_rgb_spec(*final(channel)) == channel_rgb_spec(*old(channel)),
        channel_palindex_p_spec(*final(channel)) == channel_palindex_p_spec(*old(channel)),
{
    proof {
        lemma_set_not_default_facts(*channel);
    }
    *channel = *channel | 0x4000_0000;
    *channel
}

/// Does the channel use a palette index instead of RGB?
pub fn ncchannel_palindex_p(channel: NcChannel) -> (palindex: bool)
    ensures
        palindex == channel_palindex_p_spec(channel),
{
    channel & 0x0800_0000 != 0
}

/// Returns the 24 RGB bits of the channel, shifted to the least significant
/// bits.
pub fn ncchannel_rgb(channel: NcChannel) -> (rgb: NcRgb)
    ensures
        rgb == channel_rgb_spec(channel),
{
    channel & 0x00ff_ffff
}

/// Overwrites the 24-bit RGB field with `rgb` (masked to 24 bits), clears
/// the palette flag and marks the channel as not using the default color;
/// alpha and the remaining flag bits are preserved.
pub fn ncchannel_set(channel: &mut NcChannel, rgb: NcRgb)
    ensures
        *final(channel) == channel_set_spec(*old(channel), rgb),
        channel_rgb_spec(*final(channel)) == rgb & 0x00ff_ffff,
        !channel_default_p_spec(*final(channel)),
        !channel_palindex_p_spec(*final(channel)),
        channel_alpha_spec(*final(channel)) == channel_alpha_spec(*old(channel)),
{
    proof {
        lemma_set_rgb_facts(*channel, rgb);
    }
    *channel = (*channel & !0x08ff_ffff) | 0x4000_0000 | (rgb & 0x00ff_ffff);
}

/// Returns the red component of the channel.
pub fn ncchannel_r(channel: NcChannel) -> (r: NcComponent)
    ensures
        r == channel_r_spec(channel),
{
    ((channel & 0x00ff_0000) >> 16) as u8
}

/// Returns the green component of the channel.
pub fn ncchannel_g(channel: NcChannel) -> (g: NcComponent)
    ensures
        g == channel_g_spec(channel),
{
    ((channel & 0x0000_ff00) >> 8) as u8
}

/// Returns the blue component of the channel.
pub fn ncchannel_b(channel: NcChannel) -> (b: NcComponent)
    ensures
        b == channel_b_spec(channel),
{
    (channel & 0x0000_00ff) as u8
}

/// Writes the three components of the channel into `r`, `g` and `b`, and
/// returns the channel itself.
pub fn ncchannel_rgb8(
    channel: NcChannel,
    r: &mut NcComponent,
    g: &mut NcComponent,
    b: &mut NcComponent,
) -> (same: NcChannel)
    ensures
        *final(r) == channel_r_spec(channel),
        *final(g) == channel_g_spec(channel),
        *final(b) == channel_b_spec(channel),
        same == channel,
{
    *r = ncchannel_r(channel);
    *g = ncchannel_g(channel);
    *b = ncchannel_b(channel);
    channel
}

/// Same effect as [`ncchannel_set`], taking the color as three components.
pub fn ncchannel_set_rgb8(channel: &mut NcChannel, r: NcComponent, g: NcComponent, b: NcComponent)
    ensures
        *final(channel) == channel_set_spec(*old(channel), rgb_of_components_spec(r, g, b)),
        channel_r_spec(*final(channel)) == r,
        channel_g_spec(*final(channel)) == g,
        channel_b_spec(*final(channel)) == b,
        !channel_default_p_spec(*final(channel)),
        !channel_palindex_p_spec(*final(channel)),
        channel_alpha_spec(*final(channel)) == channel_alpha_spec(*old(channel)),
{
    let rgb: u32 = ((r as u32) << 16) | ((g as u32) << 8) | (b as u32);
    proof {
        lemma_rgb_components(r, g, b);
        lemma_set_rgb_facts(*channel, rgb);
        assert(channel_r_spec(channel_set_spec(*channel, rgb)) == channel_r_spec(rgb & 0x00ff_ffff)
            && channel_g_spec(channel_set_spec(*channel, rgb)) == channel_g_spec(
            rgb & 0x00ff_ffff,
        ) && channel_b_spec(channel_set_spec(*channel, rgb)) == channel_b_spec(
            rgb & 0x00ff_ffff,
        )) by {
            assert(forall|x: u32, y: u32|
                x & 0x00ff_ffff == y & 0x00ff_ffff ==> (x & 0x00ff_0000) >> 16 == (y & 0x00ff_0000)
                    >> 16 && (x & 0x0000_ff00) >> 8 == (y & 0x0000_ff00) >> 8 && x & 0x0000_00ff
                    == y & 0x0000_00ff) by (bit_vector);
        }
        assert((rgb & 0x00ff_ffff) & 0x00ff_ffff == rgb & 0x00ff_ffff) by (bit_vector);
    }
    ncchannel_set(channel, rgb);
}

/// Replaces the red component alone; every other bit is preserved.
pub fn ncchannel_set_r(channel: &mut NcChannel, r: NcComponent) -> (new: NcChannel)
    ensures
        *final(channel) == ((*old(channel) & !0x00ff_0000) | ((r as u32) << 16)),
        new == *final(channel),
{
    *channel = (*channel & !0x00ff_0000) | ((r as u32) << 16);
    *channel
}

/// Replaces the green component alone; every other bit is preserved.
pub fn ncchannel_set_g(channel: &mut NcChannel, g: NcComponent) -> (new: NcChannel)
    ensures
        *final(channel) == ((*old(channel) & !0x0000_ff00) | ((g as u32) << 8)),
        new == *final(channel),
{
    *channel = (*channel & !0x0000_ff00) | ((g as u32) << 8);
    *channel
}

/// Replaces the blue component alone; every other bit is preserved.
pub fn ncchannel_set_b(channel: &mut NcChannel, b: NcComponent) -> (new: NcChannel)
    ensures
        *final(channel) == ((*old(channel) & !0x0000_00ff) | (b as u32)),
        new == *final(channel),
{
    *channel = (*channel & !0x0000_00ff) | (b as u32);
    *channel
}

// ---------------------------------------------------------------------------
// Executable channel-pair operations.
// ---------------------------------------------------------------------------

/// Packs a foreground and a background channel into one 64-bit pair.
pub fn ncchannels_combine(fchannel: NcChannel, bchannel: NcChannel) -> (channels: NcChannels)
    ensures
        channels == channels_combine_spec(fchannel, bchannel),
        fchannel_spec(channels) == fchannel,
        bchannel_spec(channels) == bchannel,
{
    proof {
        lemma_combine_facts(fchannel, bchannel);
    }
    ((fchannel as u64) << 32) | (bchannel as u64)
}

/// Extracts the foreground channel (the upper 32 bits).
pub fn ncchannels_fchannel(channels: NcChannels) -> (fchannel: NcChannel)
    ensures
        fchannel == fchannel_spec(channels),
{
    (channels >> 32) as u32
}

/// Extracts the background channel (the lower 32 bits).
pub fn ncchannels_bchannel(channels: NcChannels) -> (bchannel: NcChannel)
    ensures
        bchannel == bchannel_spec(channels),
{
    (channels & 0xffff_ffff) as u32
}

/// Replaces the foreground channel, preserving the background.
pub fn ncchannels_set_fchannel(channels: &mut NcChannels, fchannel: NcChannel) -> (new: NcChannels)
    ensures
        *final(channels) == set_fchannel_spec(*old(channels), fchannel),
        new == *final(channels),
        fchannel_spec(*final(channels)) == fchannel,
        bchannel_spec(*final(channels)) == bchannel_spec(*old(channels)),
{
    proof {
        lemma_combine_facts(fchannel, bchannel_spec(*channels));
    }
    let bchannel = ncchannels_bchannel(*channels);
    *channels = ncchannels_combine(fchannel, bchannel);
    *channels
}

/// Replaces the background channel, preserving the foreground.
pub fn ncchannels_set_bchannel(channels: &mut NcChannels, bchannel: NcChannel) -> (new: NcChannels)
    ensures
        *final(channels) == set_bchannel_spec(*old(channels), bchannel),
        new == *final(channels),
        bchannel_spec(*final(channels)) == bchannel,
        fchannel_spec(*final(channels)) == fchannel_spec(*old(channels)),
{
    proof {
        lemma_combine_facts(fchannel_spec(*channels), bchannel);
    }
    let fchannel = ncchannels_fchannel(*channels);
    *channels = ncchannels_combine(fchannel, bchannel);
    *channels
}

/// The foreground alpha bits of a pair.
pub fn ncchannels_fg_alpha(channels: NcChannels) -> (alpha: NcAlpha)
    ensures
        alpha == channel_alpha_spec(fchannel_spec(channels)),
{
    ncchannel_alpha(ncchannels_fchannel(channels))
}

/// The background alpha bits of a pair.
pub fn ncchannels_bg_alpha(channels: NcChannels) -> (alpha: NcAlpha)
    ensures
        alpha == channel_alpha_spec(bchannel_spec(channels)),
{
    ncchannel_alpha(ncchannels_bchannel(channels))
}

/// Overwrites the foreground alpha field alone.
pub fn ncchannels_set_fg_alpha(channels: &mut NcChannels, alpha: NcAlpha)
    ensures
        *final(channels) == set_fchannel_spec(
            *old(channels),
            channel_set_alpha_spec(fchannel_spec(*old(channels)), alpha),
        ),
        channel_alpha_spec(fchannel_spec(*final(channels))) == alpha & 0x3000_0000,
        bchannel_spec(*final(channels)) == bchannel_spec(*old(channels)),
{
    let mut fchannel = ncchannels_fchannel(*channels);
    ncchannel_set_alpha(&mut fchannel, alpha);
    ncchannels_set_fchannel(channels, fchannel);
}

/// Overwrites the background alpha field alone. A background alpha of
/// high-contrast is forbidden by the encoding and must not be requested.
pub fn ncchannels_set_bg_alpha(channels: &mut NcChannels, alpha: NcAlpha)
    requires
        alpha & 0x3000_0000 != NCALPHA_HIGHCONTRAST,
    ensures
        *final(channels) == set_bchannel_spec(
            *old(channels),
            channel_set_alpha_spec(bchannel_spec(*old(channels)), alpha),
        ),
        channel_alpha_spec(bchannel_spec(*final(channels))) == alpha & 0x3000_0000,
        fchannel_spec(*final(channels)) == fchannel_spec(*old(channels)),
{
    let mut bchannel = ncchannels_bchannel(*channels);
    ncchannel_set_alpha(&mut bchannel, alpha);
    ncchannels_set_bchannel(channels, bchannel);
}

/// The foreground RGB bits of a pair, shifted to the least significant bits.
pub fn ncchannels_fg_rgb(channels: NcChannels) -> (rgb: NcRgb)
    ensures
        rgb == channel_rgb_spec(fchannel_spec(channels)),
{
    ncchannel_rgb(ncchannels_fchannel(channels))
}

/// The background RGB bits of a pair, shifted to the least significant bits.
pub fn ncchannels_bg_rgb(channels: NcChannels) -> (rgb: NcRgb)
    ensures
        rgb == channel_rgb_spec(bchannel_spec(channels)),
{
    ncchannel_rgb(ncchannels_bchannel(channels))
}

/// Overwrites the foreground RGB field, marking the foreground as
/// palette-free and not default.
pub fn ncchannels_set_fg_rgb(channels: &mut NcChannels, rgb: NcRgb) -> (new: NcChannels)
    ensures
        *final(channels) == set_fchannel_spec(
            *old(channels),
            channel_set_spec(fchannel_spec(*old(channels)), rgb),
        ),
        new == *final(channels),
        channel_rgb_spec(fchannel_spec(*final(channels))) == rgb & 0x00ff_ffff,
        !channel_default_p_spec(fchannel_spec(*final(channels))),
        bchannel_spec(*final(channels)) == bchannel_spec(*old(channels)),
{
    let mut fchannel = ncchannels_fchannel(*channels);
    ncchannel_set(&mut fchannel, rgb);
    ncchannels_set_fchannel(channels, fchannel)
}

/// Overwrites the background RGB field, marking the background as
/// palette-free and not default.
pub fn ncchannels_set_bg_rgb(channels: &mut NcChannels, rgb: NcRgb) -> (new: NcChannels)
    ensures
        *final(channels) == set_bchannel_spec(
            *old(channels),
            channel_set_spec(bchannel_spec(*old(channels)), rgb),
        ),
        new == *final(channels),
        channel_rgb_spec(bchannel_spec(*final(channels))) == rgb & 0x00ff_ffff,
        !channel_default_p_spec(bchannel_spec(*final(channels))),
        fchannel_spec(*final(channels)) == fchannel_spec(*old(channels)),
{
    let mut bchannel = ncchannels_bchannel(*channels);
    ncchannel_set(&mut bchannel, rgb);
    ncchannels_set_bchannel(channels, bchannel)
}

/// Writes the three foreground components into `r`, `g` and `b`, and returns
/// the pair itself.
pub fn ncchannels_fg_rgb8(
    channels: NcChannels,
    r: &mut NcComponent,
    g: &mut NcComponent,
    b: &mut NcComponent,
) -> (fchannel: NcChannel)
    ensures
        *final(r) == channel_r_spec(fchannel_spec(channels)),
        *final(g) == channel_g_spec(fchannel_spec(channels)),
        *final(b) == channel_b_spec(fchannel_spec(channels)),
        fchannel == fchannel_spec(channels),
{
    ncchannel_rgb8(ncchannels_fchannel(channels), r, g, b)
}

/// Writes the three background components into `r`, `g` and `b`, and returns
/// the pair itself.
pub fn ncchannels_bg_rgb8(
    channels: NcChannels,
    r: &mut NcComponent,
    g: &mut NcComponent,
    b: &mut NcComponent,
) -> (bchannel: NcChannel)
    ensures
        *final(r) == channel_r_spec(bchannel_spec(channels)),
        *final(g) == channel_g_spec(bchannel_spec(channels)),
        *final(b) == channel_b_spec(bchannel_spec(channels)),
        bchannel == bchannel_spec(channels),
{
    ncchannel_rgb8(ncchannels_bchannel(channels), r, g, b)
}

/// Sets the foreground color from three components, marking the foreground
/// as palette-free and not default.
pub fn ncchannels_set_fg_rgb8(
    channels: &mut NcChannels,
    r: NcComponent,
    g: NcComponent,
    b: NcComponent,
) -> (new: NcChannels)
    ensures
        *final(channels) == set_fchannel_spec(
            *old(channels),
            channel_set_spec(fchannel_spec(*old(channels)), rgb_of_components_spec(r, g, b)),
        ),
        new == *final(channels),
        channel_r_spec(fchannel_spec(*final(channels))) == r,
        channel_g_spec(fchannel_spec(*final(channels))) == g,
        channel_b_spec(fchannel_spec(*final(channels))) == b,
        !channel_default_p_spec(fchannel_spec(*final(channels))),
        bchannel_spec(*final(channels)) == bchannel_spec(*old(channels)),
{
    let mut fchannel = ncchannels_fchannel(*channels);
    ncchannel_set_rgb8(&mut fchannel, r, g, b);
    ncchannels_set_fchannel(channels, fchannel)
}

/// Sets the background color from three components, marking the background
/// as palette-free and not default.
pub fn ncchannels_set_bg_rgb8(
    channels: &mut NcChannels,
    r: NcComponent,
    g: NcComponent,
    b: NcComponent,
) -> (new: NcChannels)
    ensures
        *final(channels) == set_bchannel_spec(
            *old(channels),
            channel_set_spec(bchannel_spec(*old(channels)), rgb_of_components_spec(r, g, b)),
        ),
        new == *final(channels),
        channel_r_spec(bchannel_spec(*final(channels))) == r,
        channel_g_spec(bchannel_spec(*final(channels))) == g,
        channel_b_spec(bchannel_spec(*final(channels))) == b,
        !channel_default_p_spec(bchannel_spec(*final(channels))),
        fchannel_spec(*final(channels)) == fchannel_spec(*old(channels)),
{
    let mut bchannel = ncchannels_bchannel(*channels);
    ncchannel_set_rgb8(&mut bchannel, r, g, b);
    ncchannels_set_bchannel(channels, bchannel)
}

/// Does the foreground use the terminal's default color?
pub fn ncchannels_fg_default_p(channels: NcChannels) -> (default: bool)
    ensures
        default == channel_default_p_spec(fchannel_spec(channels)),
{
    ncchannel_default_p(ncchannels_fchannel(channels))
}

/// Does the background use the terminal's default color?
pub fn ncchannels_bg_default_p(channels: NcChannels) -> (default: bool)
    ensures
        default == channel_default_p_spec(bchannel_spec(channels)),
{
    ncchannel_default_p(ncchannels_bchannel(channels))
}

/// Marks the foreground as using the default color, forcing its alpha to
/// opaque.
pub fn ncchannels_set_fg_default(channels: &mut NcChannels) -> (new: NcChannels)
    ensures
        *final(channels) == set_fchannel_spec(
            *old(channels),
            channel_set_default_spec(fchannel_spec(*old(channels))),
        ),
        new == *final(channels),
        channel_default_p_spec(fchannel_spec(*final(channels))),
        channel_alpha_spec(fchannel_spec(*final(channels))) == NCALPHA_OPAQUE,
        bchannel_spec(*final(channels)) == bchannel_spec(*old(channels)),
{
    let mut fchannel = ncchannels_fchannel(*channels);
    ncchannel_set_default(&mut fchannel);
    ncchannels_set_fchannel(channels, fchannel)
}

/// Marks the background as using the default color, forcing its alpha to
/// opaque.
pub fn ncchannels_set_bg_default(channels: &mut NcChannels) -> (new: NcChannels)
    ensures
        *final(channels) == set_bchannel_spec(
            *old(channels),
            channel_set_default_spec(bchannel_spec(*old(channels))),
        ),
        new == *final(channels),
        channel_default_p_spec(bchannel_spec(*final(channels))),
        channel_alpha_spec(bchannel_spec(*final(channels))) == NCALPHA_OPAQUE,
        fchannel_spec(*final(channels)) == fchannel_spec(*old(channels)),
{
    let mut bchannel = ncchannels_bchannel(*channels);
    ncchannel_set_default(&mut bchannel);
    ncchannels_set_bchannel(channels, bchannel)
}

/// Marks the foreground as not using the default color.
pub fn ncchannels_set_fg_not_default(channels: &mut NcChannels) -> (new: NcChannels)
    ensures
        *final(channels) == set_fchannel_spec(
            *old(channels),
            channel_set_not_default_spec(fchannel_spec(*old(channels))),
        ),
        new == *final(channels),
        !channel_default_p_spec(fchannel_spec(*final(channels))),
        bchannel_spec(*final(channels)) == bchannel_spec(*old(channels)),
{
    let mut fchannel = ncchannels_fchannel(*channels);
    ncchannel_set_not_default(&mut fchannel);
    ncchannels_set_fchannel(channels, fchannel)
}

/// Marks the background as not using the default color.
pub fn ncchannels_set_bg_not_default(channels: &mut NcChannels) -> (new: NcChannels)
    ensures
        *final(channels) == set_bchannel_spec(
            *old(channels),
            channel_set_not_default_spec(bchannel_spec(*old(channels))),
        ),
        new == *final(channels),
        !channel_default_p_spec(bchannel_spec(*final(channels))),
        fchannel_spec(*final(channels)) == fchannel_spec(*old(channels)),
{
    let mut bchannel = ncchannels_bchannel(*channels);
    ncchannel_set_not_default(&mut bchannel);
    ncchannels_set_bchannel(channels, bchannel)
}

/// Does the foreground use a palette index?
pub fn ncchannels_fg_palindex_p(channels: NcChannels) -> (palindex: bool)
    ensures
        palindex == channel_palindex_p_spec(fchannel_spec(channels)),
{
    ncchannel_palindex_p(ncchannels_fchannel(channels))
}

/// Does the background use a palette index?
pub fn ncchannels_bg_palindex_p(channels: NcChannels) -> (palindex: bool)
    ensures
        palindex == channel_palindex_p_spec(bchannel_spec(channels)),
{
    ncchannel_palindex_p(ncchannels_bchannel(channels))
}

/// Sets the foreground palette index: the index lands in the low byte, the
/// palette and "not default" flags are set, and alpha is forced to opaque.
/// This cannot fail for any 8-bit index.
pub fn ncchannels_set_fg_palindex(channels: &mut NcChannels, index: NcPaletteIndex)
    ensures
        *final(channels) == set_fchannel_spec(
            *old(channels),
            channel_set_palindex_spec(fchannel_spec(*old(channels)), index),
        ),
        channel_palindex_p_spec(fchannel_spec(*final(channels))),
        !channel_default_p_spec(fchannel_spec(*final(channels))),
        channel_alpha_spec(fchannel_spec(*final(channels))) == NCALPHA_OPAQUE,
        fchannel_spec(*final(channels)) & 0xff == index as u32,
        bchannel_spec(*final(channels)) == bchannel_spec(*old(channels)),
{
    proof {
        lemma_set_palindex_facts(fchannel_spec(*channels), index);
    }
    let fchannel = ncchannels_fchannel(*channels);
    let packed = (fchannel & 0xcf00_0000) | 0x4800_0000 | (index as u32);
    ncchannels_set_fchannel(channels, packed);
}

/// Sets the background palette index: the index lands in the low byte, the
/// palette and "not default" flags are set, and alpha is forced to opaque.
/// This cannot fail for any 8-bit index.
pub fn ncchannels_set_bg_palindex(channels: &mut NcChannels, index: NcPaletteIndex)
    ensures
        *final(channels) == set_bchannel_spec(
            *old(channels),
            channel_set_palindex_spec(bchannel_spec(*old(channels)), index),
        ),
        channel_palindex_p_spec(bchannel_spec(*final(channels))),
        !channel_default_p_spec(bchannel_spec(*final(channels))),
        channel_alpha_spec(bchannel_spec(*final(channels))) == NCALPHA_OPAQUE,
        bchannel_spec(*final(channels)) & 0xff == index as u32,
        fchannel_spec(*final(channels)) == fchannel_spec(*old(channels)),
{
    proof {
        lemma_set_palindex_facts(bchannel_spec(*channels), index);
    }
    let bchannel = ncchannels_bchannel(*channels);
    let packed = (bchannel & 0xcf00_0000) | 0x4800_0000 | (index as u32);
    ncchannels_set_bchannel(channels, packed);
}

} // verus!
