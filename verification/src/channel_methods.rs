//! Method-style access to channels and channel pairs.
//!
//! The traits mirror the free channel functions as methods on the plain
//! 32-bit and 64-bit values; each method delegates to a free function and
//! carries the same exact contract.

use vstd::prelude::*;

use crate::channel::{
    bchannel_spec, channel_alpha_spec, channel_b_spec, channel_default_p_spec, channel_g_spec,
    channel_palindex_p_spec, channel_r_spec, channel_rgb_spec, channel_set_alpha_spec,
    channel_set_default_spec, channel_set_not_default_spec, channel_set_palindex_spec,
    channel_set_spec, channels_combine_spec, fchannel_spec, rgb_of_components_spec,
    set_bchannel_spec, set_fchannel_spec, lemma_combine_facts, ncchannel_alpha, ncchannel_b, ncchannel_default_p,
    ncchannel_g, ncchannel_palindex_p,
    ncchannel_r, ncchannel_rgb, ncchannel_rgb8, ncchannel_set, ncchannel_set_alpha,
    ncchannel_set_b, ncchannel_set_default, ncchannel_set_g, ncchannel_set_not_default,
    ncchannel_set_r, ncchannel_set_rgb8, ncchannels_bchannel, ncchannels_bg_alpha,
    ncchannels_bg_default_p, ncchannels_bg_palindex_p, ncchannels_bg_rgb, ncchannels_bg_rgb8,
    ncchannels_combine, ncchannels_fchannel, ncchannels_fg_alpha, ncchannels_fg_default_p,
    ncchannels_fg_palindex_p, ncchannels_fg_rgb, ncchannels_fg_rgb8, ncchannels_set_bchannel,
    ncchannels_set_bg_alpha, ncchannels_set_bg_default, ncchannels_set_bg_not_default,
    ncchannels_set_bg_palindex, ncchannels_set_bg_rgb, ncchannels_set_bg_rgb8,
    ncchannels_set_fchannel, ncchannels_set_fg_alpha, ncchannels_set_fg_default,
    ncchannels_set_fg_not_default, ncchannels_set_fg_palindex, ncchannels_set_fg_rgb,
    ncchannels_set_fg_rgb8,
};
use crate::types::{
    NcAlphaBits, NcChannel, NcChannels, NcComponent, NcPaletteIndex, NcRgb,
    NCALPHA_BGDEFAULT_MASK, NCALPHA_HIGHCONTRAST, NCALPHA_OPAQUE,
};

verus! {

/// The channel methods.
pub trait NcChannelMethods: Sized {
    /// The value the plain default constructor returns.
    spec fn default_spec() -> Self;

    /// A new channel: black, not using the default color.
    fn new() -> Self;

    /// A new channel: black, using the default color.
    fn default() -> (channel: Self)
        ensures
            channel == Self::default_spec(),
    ;

    /// A new channel from a 24-bit RGB value.
    fn from_rgb(rgb: NcRgb) -> Self;

    /// A new channel from a 24-bit RGB value and alpha bits.
    fn from_rgb_alpha(rgb: NcRgb, alpha: NcAlphaBits) -> Self;

    /// A new channel from three components.
    fn from_rgb8(r: NcComponent, g: NcComponent, b: NcComponent) -> Self;

    /// A new channel from three components and alpha bits.
    fn from_rgb8_alpha(r: NcComponent, g: NcComponent, b: NcComponent, alpha: NcAlphaBits) -> Self;

    /// Combines this channel as foreground with another as background.
    fn fcombine(&self, bchannel: NcChannel) -> NcChannels;

    /// Combines this channel as background with another as foreground.
    fn bcombine(&self, fchannel: NcChannel) -> NcChannels;

    /// The alpha bits.
    fn alpha(&self) -> NcAlphaBits;

    /// Overwrites the alpha bits.
    fn set_alpha(&mut self, alpha: NcAlphaBits) -> Self;

    /// The 24 RGB bits.
    fn rgb(&self) -> NcRgb;

    /// Overwrites the RGB bits, marking the channel as not default.
    fn set(&mut self, rgb: NcRgb) -> Self;

    /// The three components.
    fn rgb8(&self) -> (NcComponent, NcComponent, NcComponent);

    /// Sets the three components, marking the channel as not default.
    fn set_rgb8(&mut self, r: NcComponent, g: NcComponent, b: NcComponent) -> Self;

    /// The red component.
    fn r(&self) -> NcComponent;

    /// The green component.
    fn g(&self) -> NcComponent;

    /// The blue component.
    fn b(&self) -> NcComponent;

    /// Replaces the red component alone.
    fn set_r(&mut self, r: NcComponent) -> Self;

    /// Replaces the green component alone.
    fn set_g(&mut self, g: NcComponent) -> Self;

    /// Replaces the blue component alone.
    fn set_b(&mut self, b: NcComponent) -> Self;

    /// Does the channel use the terminal's default color?
    fn default_p(&self) -> bool;

    /// Marks the channel as using the default color, forcing opaque alpha.
    fn set_default(&mut self) -> Self;

    /// Marks the channel as not using the default color.
    fn set_not_default(&mut self) -> Self;

    /// Does the channel use a palette index?
    fn palindex_p(&self) -> bool;
}

/// The channel-pair methods.
pub trait NcChannelsMethods: Sized {
    /// A new pair: both sides black, not using the default color.
    fn new() -> Self;

    /// A new pair: both sides black, using the default color.
    fn with_default() -> Self;

    /// A new pair from a foreground and a background RGB value.
    fn from_rgb(fg_rgb: NcRgb, bg_rgb: NcRgb) -> Self;

    /// A new pair with one RGB value on both sides.
    fn from_rgb_both(rgb: NcRgb) -> Self;

    /// A new pair from RGB values and alpha bits for each side.
    fn from_rgb_alpha(
        fg_rgb: NcRgb,
        fg_alpha: NcAlphaBits,
        bg_rgb: NcRgb,
        bg_alpha: NcAlphaBits,
    ) -> Self;

    /// A new pair with one RGB value and one alpha on both sides.
    fn from_rgb_alpha_both(rgb: NcRgb, alpha: NcAlphaBits) -> Self;

    /// A new pair from three components for each side.
    fn from_rgb8(
        fg_r: NcComponent,
        fg_g: NcComponent,
        fg_b: NcComponent,
        bg_r: NcComponent,
        bg_g: NcComponent,
        bg_b: NcComponent,
    ) -> Self;

    /// A new pair with one component triple on both sides.
    fn from_rgb8_both(r: NcComponent, g: NcComponent, b: NcComponent) -> Self;

    /// A new pair from three components and alpha bits for each side.
    fn from_rgb8_alpha(
        fg_r: NcComponent,
        fg_g: NcComponent,
        fg_b: NcComponent,
        fg_alpha: NcAlphaBits,
        bg_r: NcComponent,
        bg_g: NcComponent,
        bg_b: NcComponent,
        bg_alpha: NcAlphaBits,
    ) -> Self;

    /// A new pair with one component triple and one alpha on both sides.
    fn from_rgb8_alpha_both(
        r: NcComponent,
        g: NcComponent,
        b: NcComponent,
        alpha: NcAlphaBits,
    ) -> Self;

    /// Combines two channels into a pair.
    fn combine(fchannel: NcChannel, bchannel: NcChannel) -> Self;

    /// The foreground channel.
    fn fchannel(&self) -> NcChannel;

    /// The background channel.
    fn bchannel(&self) -> NcChannel;

    /// Replaces the foreground channel.
    fn set_fchannel(&mut self, fchannel: NcChannel) -> Self;

    /// Replaces the background channel.
    fn set_bchannel(&mut self, bchannel: NcChannel) -> Self;

    /// The foreground alpha bits.
    fn fg_alpha(&self) -> NcAlphaBits;

    /// The background alpha bits.
    fn bg_alpha(&self) -> NcAlphaBits;

    /// Overwrites the foreground alpha bits.
    fn set_fg_alpha(&mut self, alpha: NcAlphaBits);

    /// Overwrites the background alpha bits; high-contrast is forbidden on
    /// the background side.
    fn set_bg_alpha(&mut self, alpha: NcAlphaBits);

    /// The foreground RGB bits.
    fn fg_rgb(&self) -> NcRgb;

    /// The background RGB bits.
    fn bg_rgb(&self) -> NcRgb;

    /// Overwrites the foreground RGB bits.
    fn set_fg_rgb(&mut self, rgb: NcRgb) -> Self;

    /// Overwrites the background RGB bits.
    fn set_bg_rgb(&mut self, rgb: NcRgb) -> Self;

    /// The three foreground components.
    fn fg_rgb8(&self) -> (NcComponent, NcComponent, NcComponent);

    /// The three background components.
    fn bg_rgb8(&self) -> (NcComponent, NcComponent, NcComponent);

    /// Sets the three foreground components.
    fn set_fg_rgb8(&mut self, r: NcComponent, g: NcComponent, b: NcComponent) -> Self;

    /// Sets the three background components.
    fn set_bg_rgb8(&mut self, r: NcComponent, g: NcComponent, b: NcComponent) -> Self;

    /// The foreground red component.
    fn fg_r(&self) -> NcComponent;

    /// The foreground green component.
    fn fg_g(&self) -> NcComponent;

    /// The foreground blue component.
    fn fg_b(&self) -> NcComponent;

    /// The background red component.
    fn bg_r(&self) -> NcComponent;

    /// The background green component.
    fn bg_g(&self) -> NcComponent;

    /// The background blue component.
    fn bg_b(&self) -> NcComponent;

    /// Replaces the foreground red component.
    fn fg_set_r(&mut self, r: NcComponent) -> Self;

    /// Replaces the foreground green component.
    fn fg_set_g(&mut self, g: NcComponent) -> Self;

    /// Replaces the foreground blue component.
    fn fg_set_b(&mut self, b: NcComponent) -> Self;

    /// Replaces the background red component.
    fn bg_set_r(&mut self, r: NcComponent) -> Self;

    /// Replaces the background green component.
    fn bg_set_g(&mut self, g: NcComponent) -> Self;

    /// Replaces the background blue component.
    fn bg_set_b(&mut self, b: NcComponent) -> Self;

    /// Does the foreground use the default color?
    fn fg_default_p(&self) -> bool;

    /// Does the background use the default color?
    fn bg_default_p(&self) -> bool;

    /// Marks the foreground as using the default color.
    fn set_fg_default(&mut self) -> Self;

    /// Marks the foreground as not using the default color.
    fn set_fg_not_default(&mut self) -> Self;

    /// Marks the background as using the default color.
    fn set_bg_default(&mut self) -> Self;

    /// Marks the background as not using the default color.
    fn set_bg_not_default(&mut self) -> Self;

    /// Marks both sides as using the default color.
    fn set_default(&mut self) -> Self;

    /// Marks both sides as not using the default color.
    fn set_not_default(&mut self) -> Self;

    /// Does the foreground use a palette index?
    fn fg_palindex_p(&self) -> bool;

    /// Does the background use a palette index?
    fn bg_palindex_p(&self) -> bool;

    /// Sets the foreground palette index.
    fn set_fg_palindex(&mut self, index: NcPaletteIndex) -> Self;

    /// Sets the background palette index.
    fn set_bg_palindex(&mut self, index: NcPaletteIndex) -> Self;
}

/// The channel the plain constructor builds: black, not default.
pub open spec fn channel_new_spec() -> u32 {
    0x4000_0000
}

/// The channel built from a 24-bit RGB value.
pub open spec fn channel_from_rgb_spec(rgb: u32) -> u32 {
    channel_set_spec(channel_new_spec(), rgb)
}

/// The channel built from a 24-bit RGB value and alpha bits.
pub open spec fn channel_from_rgb_alpha_spec(rgb: u32, alpha: u32) -> u32 {
    channel_set_alpha_spec(channel_from_rgb_spec(rgb), alpha)
}

/// The channel built from three components.
pub open spec fn channel_from_rgb8_spec(r: u8, g: u8, b: u8) -> u32 {
    channel_set_spec(channel_new_spec(), rgb_of_components_spec(r, g, b))
}

/// The channel built from three components and alpha bits.
pub open spec fn channel_from_rgb8_alpha_spec(r: u8, g: u8, b: u8, alpha: u32) -> u32 {
    channel_set_alpha_spec(channel_from_rgb8_spec(r, g, b), alpha)
}

impl NcChannelMethods for NcChannel {
    fn new() -> (channel: Self)
        ensures
            channel == channel_new_spec(),
    {
        NCALPHA_BGDEFAULT_MASK
    }

    open spec fn default_spec() -> Self {
        0u32
    }

    fn default() -> (channel: Self) {
        0
    }

    fn from_rgb(rgb: NcRgb) -> (channel: Self)
        ensures
            channel == channel_from_rgb_spec(rgb),
    {
        let mut channel: NcChannel = NCALPHA_BGDEFAULT_MASK;
        ncchannel_set(&mut channel, rgb);
        channel
    }

    fn from_rgb_alpha(rgb: NcRgb, alpha: NcAlphaBits) -> (channel: Self)
        ensures
            channel == channel_from_rgb_alpha_spec(rgb, alpha),
    {
        let mut channel: NcChannel = NCALPHA_BGDEFAULT_MASK;
        ncchannel_set(&mut channel, rgb);
        ncchannel_set_alpha(&mut channel, alpha);
        channel
    }

    fn from_rgb8(r: NcComponent, g: NcComponent, b: NcComponent) -> (channel: Self)
        ensures
            channel == channel_from_rgb8_spec(r, g, b),
    {
        let mut channel: NcChannel = NCALPHA_BGDEFAULT_MASK;
        ncchannel_set_rgb8(&mut channel, r, g, b);
        channel
    }

    fn from_rgb8_alpha(
        r: NcComponent,
        g: NcComponent,
        b: NcComponent,
        alpha: NcAlphaBits,
    ) -> (channel: Self)
        ensures
            channel == channel_from_rgb8_alpha_spec(r, g, b, alpha),
    {
        let mut channel: NcChannel = NCALPHA_BGDEFAULT_MASK;
        ncchannel_set_rgb8(&mut channel, r, g, b);
        ncchannel_set_alpha(&mut channel, alpha);
        channel
    }

    fn fcombine(&self, bchannel: NcChannel) -> (channels: NcChannels)
        ensures
            channels == channels_combine_spec(*self, bchannel),
    {
        ncchannels_combine(*self, bchannel)
    }

    fn bcombine(&self, fchannel: NcChannel) -> (channels: NcChannels)
        ensures
            channels == channels_combine_spec(fchannel, *self),
    {
        ncchannels_combine(fchannel, *self)
    }

    fn alpha(&self) -> (alpha: NcAlphaBits)
        ensures
            alpha == channel_alpha_spec(*self),
    {
        ncchannel_alpha(*self)
    }

    fn set_alpha(&mut self, alpha: NcAlphaBits) -> (new: Self)
        ensures
            *final(self) == channel_set_alpha_spec(*old(self), alpha),
            new == *final(self),
    {
        ncchannel_set_alpha(self, alpha);
        *self
    }

    fn rgb(&self) -> (rgb: NcRgb)
        ensures
            rgb == channel_rgb_spec(*self),
    {
        ncchannel_rgb(*self)
    }

    fn set(&mut self, rgb: NcRgb) -> (new: Self)
        ensures
            *final(self) == channel_set_spec(*old(self), rgb),
            new == *final(self),
    {
        ncchannel_set(self, rgb);
        *self
    }

    fn rgb8(&self) -> (rgb: (NcComponent, NcComponent, NcComponent))
        ensures
            rgb.0 == channel_r_spec(*self),
            rgb.1 == channel_g_spec(*self),
            rgb.2 == channel_b_spec(*self),
    {
        let mut r: NcComponent = 0;
        let mut g: NcComponent = 0;
        let mut b: NcComponent = 0;
        ncchannel_rgb8(*self, &mut r, &mut g, &mut b);
        (r, g, b)
    }

    fn set_rgb8(&mut self, r: NcComponent, g: NcComponent, b: NcComponent) -> (new: Self)
        ensures
            *final(self) == channel_set_spec(*old(self), rgb_of_components_spec(r, g, b)),
            new == *final(self),
    {
        ncchannel_set_rgb8(self, r, g, b);
        *self
    }

    fn r(&self) -> (r: NcComponent)
        ensures
            r == channel_r_spec(*self),
    {
        ncchannel_r(*self)
    }

    fn g(&self) -> (g: NcComponent)
        ensures
            g == channel_g_spec(*self),
    {
        ncchannel_g(*self)
    }

    fn b(&self) -> (b: NcComponent)
        ensures
            b == channel_b_spec(*self),
    {
        ncchannel_b(*self)
    }

    fn set_r(&mut self, r: NcComponent) -> (new: Self)
        ensures
            *final(self) == ((*old(self) & !0x00ff_0000) | ((r as u32) << 16)),
            new == *final(self),
    {
        ncchannel_set_r(self, r)
    }

    fn set_g(&mut self, g: NcComponent) -> (new: Self)
        ensures
            *final(self) == ((*old(self) & !0x0000_ff00) | ((g as u32) << 8)),
            new == *final(self),
    {
        ncchannel_set_g(self, g)
    }

    fn set_b(&mut self, b: NcComponent) -> (new: Self)
        ensures
            *final(self) == ((*old(self) & !0x0000_00ff) | (b as u32)),
            new == *final(self),
    {
        ncchannel_set_b(self, b)
    }

    fn default_p(&self) -> (default: bool)
        ensures
            default == channel_default_p_spec(*self),
    {
        ncchannel_default_p(*self)
    }

    fn set_default(&mut self) -> (new: Self)
        ensures
            *final(self) == channel_set_default_spec(*old(self)),
            new == *final(self),
            channel_default_p_spec(*final(self)),
            channel_alpha_spec(*final(self)) == NCALPHA_OPAQUE,
    {
        ncchannel_set_default(self)
    }

    fn set_not_default(&mut self) -> (new: Self)
        ensures
            *final(self) == channel_set_not_default_spec(*old(self)),
            new == *final(self),
            !channel_default_p_spec(*final(self)),
    {
        ncchannel_set_not_default(self)
    }

    fn palindex_p(&self) -> (palindex: bool)
        ensures
            palindex == channel_palindex_p_spec(*self),
    {
        ncchannel_palindex_p(*self)
    }
}

impl NcChannelsMethods for NcChannels {
    fn new() -> (channels: Self)
        ensures
            channels == channels_combine_spec(channel_new_spec(), channel_new_spec()),
    {
        ncchannels_combine(NCALPHA_BGDEFAULT_MASK, NCALPHA_BGDEFAULT_MASK)
    }

    fn with_default() -> (channels: Self)
        ensures
            channels == channels_combine_spec(0, 0),
    {
        ncchannels_combine(0, 0)
    }

    fn from_rgb(fg_rgb: NcRgb, bg_rgb: NcRgb) -> (channels: Self)
        ensures
            channels == channels_combine_spec(
                channel_from_rgb_spec(fg_rgb),
                channel_from_rgb_spec(bg_rgb),
            ),
    {
        ncchannels_combine(NcChannel::from_rgb(fg_rgb), NcChannel::from_rgb(bg_rgb))
    }

    fn from_rgb_both(rgb: NcRgb) -> (channels: Self)
        ensures
            channels == channels_combine_spec(
                channel_from_rgb_spec(rgb),
                channel_from_rgb_spec(rgb),
            ),
    {
        let channel = NcChannel::from_rgb(rgb);
        ncchannels_combine(channel, channel)
    }

    fn from_rgb_alpha(
        fg_rgb: NcRgb,
        fg_alpha: NcAlphaBits,
        bg_rgb: NcRgb,
        bg_alpha: NcAlphaBits,
    ) -> (channels: Self)
        ensures
            channels == channels_combine_spec(
                channel_from_rgb_alpha_spec(fg_rgb, fg_alpha),
                channel_from_rgb_alpha_spec(bg_rgb, bg_alpha),
            ),
    {
        ncchannels_combine(
            NcChannel::from_rgb_alpha(fg_rgb, fg_alpha),
            NcChannel::from_rgb_alpha(bg_rgb, bg_alpha),
        )
    }

    fn from_rgb_alpha_both(rgb: NcRgb, alpha: NcAlphaBits) -> (channels: Self)
        ensures
            channels == channels_combine_spec(
                channel_from_rgb_alpha_spec(rgb, alpha),
                channel_from_rgb_alpha_spec(rgb, alpha),
            ),
    {
        let channel = NcChannel::from_rgb_alpha(rgb, alpha);
        ncchannels_combine(channel, channel)
    }

    fn from_rgb8(
        fg_r: NcComponent,
        fg_g: NcComponent,
        fg_b: NcComponent,
        bg_r: NcComponent,
        bg_g: NcComponent,
        bg_b: NcComponent,
    ) -> (channels: Self)
        ensures
            channels == channels_combine_spec(
                channel_from_rgb8_spec(fg_r, fg_g, fg_b),
                channel_from_rgb8_spec(bg_r, bg_g, bg_b),
            ),
    {
        ncchannels_combine(
            NcChannel::from_rgb8(fg_r, fg_g, fg_b),
            NcChannel::from_rgb8(bg_r, bg_g, bg_b),
        )
    }

    fn from_rgb8_both(r: NcComponent, g: NcComponent, b: NcComponent) -> (channels: Self)
        ensures
            channels == channels_combine_spec(
                channel_from_rgb8_spec(r, g, b),
                channel_from_rgb8_spec(r, g, b),
            ),
    {
        let channel = NcChannel::from_rgb8(r, g, b);
        ncchannels_combine(channel, channel)
    }

    fn from_rgb8_alpha(
        fg_r: NcComponent,
        fg_g: NcComponent,
        fg_b: NcComponent,
        fg_alpha: NcAlphaBits,
        bg_r: NcComponent,
        bg_g: NcComponent,
        bg_b: NcComponent,
        bg_alpha: NcAlphaBits,
    ) -> (channels: Self)
        ensures
            channels == channels_combine_spec(
                channel_from_rgb8_alpha_spec(fg_r, fg_g, fg_b, fg_alpha),
                channel_from_rgb8_alpha_spec(bg_r, bg_g, bg_b, bg_alpha),
            ),
    {
        ncchannels_combine(
            NcChannel::from_rgb8_alpha(fg_r, fg_g, fg_b, fg_alpha),
            NcChannel::from_rgb8_alpha(bg_r, bg_g, bg_b, bg_alpha),
        )
    }

    fn from_rgb8_alpha_both(
        r: NcComponent,
        g: NcComponent,
        b: NcComponent,
        alpha: NcAlphaBits,
    ) -> (channels: Self)
        ensures
            channels == channels_combine_spec(
                channel_from_rgb8_alpha_spec(r, g, b, alpha),
                channel_from_rgb8_alpha_spec(r, g, b, alpha),
            ),
    {
        let channel = NcChannel::from_rgb8_alpha(r, g, b, alpha);
        ncchannels_combine(channel, channel)
    }

    fn combine(fchannel: NcChannel, bchannel: NcChannel) -> (channels: Self)
        ensures
            channels == channels_combine_spec(fchannel, bchannel),
    {
        ncchannels_combine(fchannel, bchannel)
    }

    fn fchannel(&self) -> (fchannel: NcChannel)
        ensures
            fchannel == fchannel_spec(*self),
    {
        ncchannels_fchannel(*self)
    }

    fn bchannel(&self) -> (bchannel: NcChannel)
        ensures
            bchannel == bchannel_spec(*self),
    {
        ncchannels_bchannel(*self)
    }

    fn set_fchannel(&mut self, fchannel: NcChannel) -> (new: Self)
        ensures
            *final(self) == set_fchannel_spec(*old(self), fchannel),
            new == *final(self),
    {
        ncchannels_set_fchannel(self, fchannel)
    }

    fn set_bchannel(&mut self, bchannel: NcChannel) -> (new: Self)
        ensures
            *final(self) == set_bchannel_spec(*old(self), bchannel),
            new == *final(self),
    {
        ncchannels_set_bchannel(self, bchannel)
    }

    fn fg_alpha(&self) -> (alpha: NcAlphaBits)
        ensures
            alpha == channel_alpha_spec(fchannel_spec(*self)),
    {
        ncchannels_fg_alpha(*self)
    }

    fn bg_alpha(&self) -> (alpha: NcAlphaBits)
        ensures
            alpha == channel_alpha_spec(bchannel_spec(*self)),
    {
        ncchannels_bg_alpha(*self)
    }

    fn set_fg_alpha(&mut self, alpha: NcAlphaBits)
        ensures
            *final(self) == set_fchannel_spec(
                *old(self),
                channel_set_alpha_spec(fchannel_spec(*old(self)), alpha),
            ),
    {
        ncchannels_set_fg_alpha(self, alpha)
    }

    fn set_bg_alpha(&mut self, alpha: NcAlphaBits)
        ensures
            alpha & 0x3000_0000 != NCALPHA_HIGHCONTRAST ==> *final(self) == set_bchannel_spec(
                *old(self),
                channel_set_alpha_spec(bchannel_spec(*old(self)), alpha),
            ),
            alpha & 0x3000_0000 == NCALPHA_HIGHCONTRAST ==> *final(self) == *old(self),
    {
        if alpha & 0x3000_0000 != NCALPHA_HIGHCONTRAST {
            ncchannels_set_bg_alpha(self, alpha);
        }
    }

    fn fg_rgb(&self) -> (rgb: NcRgb)
        ensures
            rgb == channel_rgb_spec(fchannel_spec(*self)),
    {
        ncchannels_fg_rgb(*self)
    }

    fn bg_rgb(&self) -> (rgb: NcRgb)
        ensures
            rgb == channel_rgb_spec(bchannel_spec(*self)),
    {
        ncchannels_bg_rgb(*self)
    }

    fn set_fg_rgb(&mut self, rgb: NcRgb) -> (new: Self)
        ensures
            *final(self) == set_fchannel_spec(
                *old(self),
                channel_set_spec(fchannel_spec(*old(self)), rgb),
            ),
            new == *final(self),
    {
        ncchannels_set_fg_rgb(self, rgb)
    }

    fn set_bg_rgb(&mut self, rgb: NcRgb) -> (new: Self)
        ensures
            *final(self) == set_bchannel_spec(
                *old(self),
                channel_set_spec(bchannel_spec(*old(self)), rgb),
            ),
            new == *final(self),
    {
        ncchannels_set_bg_rgb(self, rgb)
    }

    fn fg_rgb8(&self) -> (rgb: (NcComponent, NcComponent, NcComponent))
        ensures
            rgb.0 == channel_r_spec(fchannel_spec(*self)),
            rgb.1 == channel_g_spec(fchannel_spec(*self)),
            rgb.2 == channel_b_spec(fchannel_spec(*self)),
    {
        let mut r: NcComponent = 0;
        let mut g: NcComponent = 0;
        let mut b: NcComponent = 0;
        ncchannels_fg_rgb8(*self, &mut r, &mut g, &mut b);
        (r, g, b)
    }

    fn bg_rgb8(&self) -> (rgb: (NcComponent, NcComponent, NcComponent))
        ensures
            rgb.0 == channel_r_spec(bchannel_spec(*self)),
            rgb.1 == channel_g_spec(bchannel_spec(*self)),
            rgb.2 == channel_b_spec(bchannel_spec(*self)),
    {
        let mut r: NcComponent = 0;
        let mut g: NcComponent = 0;
        let mut b: NcComponent = 0;
        ncchannels_bg_rgb8(*self, &mut r, &mut g, &mut b);
        (r, g, b)
    }

    fn set_fg_rgb8(&mut self, r: NcComponent, g: NcComponent, b: NcComponent) -> (new: Self)
        ensures
            *final(self) == set_fchannel_spec(
                *old(self),
                channel_set_spec(fchannel_spec(*old(self)), rgb_of_components_spec(r, g, b)),
            ),
            new == *final(self),
    {
        ncchannels_set_fg_rgb8(self, r, g, b)
    }

    fn set_bg_rgb8(&mut self, r: NcComponent, g: NcComponent, b: NcComponent) -> (new: Self)
        ensures
            *final(self) == set_bchannel_spec(
                *old(self),
                channel_set_spec(bchannel_spec(*old(self)), rgb_of_components_spec(r, g, b)),
            ),
            new == *final(self),
    {
        ncchannels_set_bg_rgb8(self, r, g, b)
    }

    fn fg_r(&self) -> (r: NcComponent)
        ensures
            r == channel_r_spec(fchannel_spec(*self)),
    {
        ncchannel_r(ncchannels_fchannel(*self))
    }

    fn fg_g(&self) -> (g: NcComponent)
        ensures
            g == channel_g_spec(fchannel_spec(*self)),
    {
        ncchannel_g(ncchannels_fchannel(*self))
    }

    fn fg_b(&self) -> (b: NcComponent)
        ensures
            b == channel_b_spec(fchannel_spec(*self)),
    {
        ncchannel_b(ncchannels_fchannel(*self))
    }

    fn bg_r(&self) -> (r: NcComponent)
        ensures
            r == channel_r_spec(bchannel_spec(*self)),
    {
        ncchannel_r(ncchannels_bchannel(*self))
    }

    fn bg_g(&self) -> (g: NcComponent)
        ensures
            g == channel_g_spec(bchannel_spec(*self)),
    {
        ncchannel_g(ncchannels_bchannel(*self))
    }

    fn bg_b(&self) -> (b: NcComponent)
        ensures
            b == channel_b_spec(bchannel_spec(*self)),
    {
        ncchannel_b(ncchannels_bchannel(*self))
    }

    fn fg_set_r(&mut self, r: NcComponent) -> (new: Self)
        ensures
            *final(self) == set_fchannel_spec(
                *old(self),
                channel_set_spec(
                    fchannel_spec(*old(self)),
                    rgb_of_components_spec(
                        r,
                        channel_g_spec(fchannel_spec(*old(self))),
                        channel_b_spec(fchannel_spec(*old(self))),
                    ),
                ),
            ),
            new == *final(self),
    {
        let (_, g, b) = self.fg_rgb8();
        ncchannels_set_fg_rgb8(self, r, g, b)
    }

    fn fg_set_g(&mut self, g: NcComponent) -> (new: Self)
        ensures
            *final(self) == set_fchannel_spec(
                *old(self),
                channel_set_spec(
                    fchannel_spec(*old(self)),
                    rgb_of_components_spec(
                        channel_r_spec(fchannel_spec(*old(self))),
                        g,
                        channel_b_spec(fchannel_spec(*old(self))),
                    ),
                ),
            ),
            new == *final(self),
    {
        let (r, _, b) = self.fg_rgb8();
        ncchannels_set_fg_rgb8(self, r, g, b)
    }

    fn fg_set_b(&mut self, b: NcComponent) -> (new: Self)
        ensures
            *final(self) == set_fchannel_spec(
                *old(self),
                channel_set_spec(
                    fchannel_spec(*old(self)),
                    rgb_of_components_spec(
                        channel_r_spec(fchannel_spec(*old(self))),
                        channel_g_spec(fchannel_spec(*old(self))),
                        b,
                    ),
                ),
            ),
            new == *final(self),
    {
        let (r, g, _) = self.fg_rgb8();
        ncchannels_set_fg_rgb8(self, r, g, b)
    }

    fn bg_set_r(&mut self, r: NcComponent) -> (new: Self)
        ensures
            *final(self) == set_bchannel_spec(
                *old(self),
                channel_set_spec(
                    bchannel_spec(*old(self)),
                    rgb_of_components_spec(
                        r,
                        channel_g_spec(bchannel_spec(*old(self))),
                        channel_b_spec(bchannel_spec(*old(self))),
                    ),
                ),
            ),
            new == *final(self),
    {
        let (_, g, b) = self.bg_rgb8();
        ncchannels_set_bg_rgb8(self, r, g, b)
    }

    fn bg_set_g(&mut self, g: NcComponent) -> (new: Self)
        ensures
            *final(self) == set_bchannel_spec(
                *old(self),
                channel_set_spec(
                    bchannel_spec(*old(self)),
                    rgb_of_components_spec(
                        channel_r_spec(bchannel_spec(*old(self))),
                        g,
                        channel_b_spec(bchannel_spec(*old(self))),
                    ),
                ),
            ),
            new == *final(self),
    {
        let (r, _, b) = self.bg_rgb8();
        ncchannels_set_bg_rgb8(self, r, g, b)
    }

    fn bg_set_b(&mut self, b: NcComponent) -> (new: Self)
        ensures
            *final(self) == set_bchannel_spec(
                *old(self),
                channel_set_spec(
                    bchannel_spec(*old(self)),
                    rgb_of_components_spec(
                        channel_r_spec(bchannel_spec(*old(self))),
                        channel_g_spec(bchannel_spec(*old(self))),
                        b,
                    ),
                ),
            ),
            new == *final(self),
    {
        let (r, g, _) = self.bg_rgb8();
        ncchannels_set_bg_rgb8(self, r, g, b)
    }

    fn fg_default_p(&self) -> (default: bool)
        ensures
            default == channel_default_p_spec(fchannel_spec(*self)),
    {
        ncchannels_fg_default_p(*self)
    }

    fn bg_default_p(&self) -> (default: bool)
        ensures
            default == channel_default_p_spec(bchannel_spec(*self)),
    {
        ncchannels_bg_default_p(*self)
    }

    fn set_fg_default(&mut self) -> (new: Self)
        ensures
            *final(self) == set_fchannel_spec(
                *old(self),
                channel_set_default_spec(fchannel_spec(*old(self))),
            ),
            new == *final(self),
            channel_default_p_spec(fchannel_spec(*final(self))),
            channel_alpha_spec(fchannel_spec(*final(self))) == NCALPHA_OPAQUE,
    {
        ncchannels_set_fg_default(self)
    }

    fn set_fg_not_default(&mut self) -> (new: Self)
        ensures
            *final(self) == set_fchannel_spec(
                *old(self),
                channel_set_not_default_spec(fchannel_spec(*old(self))),
            ),
            new == *final(self),
            !channel_default_p_spec(fchannel_spec(*final(self))),
    {
        ncchannels_set_fg_not_default(self)
    }

    fn set_bg_default(&mut self) -> (new: Self)
        ensures
            *final(self) == set_bchannel_spec(
                *old(self),
                channel_set_default_spec(bchannel_spec(*old(self))),
            ),
            new == *final(self),
            channel_default_p_spec(bchannel_spec(*final(self))),
            channel_alpha_spec(bchannel_spec(*final(self))) == NCALPHA_OPAQUE,
    {
        ncchannels_set_bg_default(self)
    }

    fn set_bg_not_default(&mut self) -> (new: Self)
        ensures
            *final(self) == set_bchannel_spec(
                *old(self),
                channel_set_not_default_spec(bchannel_spec(*old(self))),
            ),
            new == *final(self),
            !channel_default_p_spec(bchannel_spec(*final(self))),
    {
        ncchannels_set_bg_not_default(self)
    }

    fn set_default(&mut self) -> (new: Self)
        ensures
            new == *final(self),
            channel_default_p_spec(fchannel_spec(*final(self))),
            channel_default_p_spec(bchannel_spec(*final(self))),
            channel_alpha_spec(fchannel_spec(*final(self))) == NCALPHA_OPAQUE,
            channel_alpha_spec(bchannel_spec(*final(self))) == NCALPHA_OPAQUE,
            fchannel_spec(*final(self)) == channel_set_default_spec(fchannel_spec(*old(self))),
            bchannel_spec(*final(self)) == channel_set_default_spec(bchannel_spec(*old(self))),
    {
        ncchannels_set_bg_default(self);
        let new = ncchannels_set_fg_default(self);
        proof {
            lemma_combine_facts(
                channel_set_default_spec(
                    fchannel_spec(set_bchannel_spec(
                        *old(self),
                        channel_set_default_spec(bchannel_spec(*old(self))),
                    )),
                ),
                bchannel_spec(set_bchannel_spec(
                    *old(self),
                    channel_set_default_spec(bchannel_spec(*old(self))),
                )),
            );
            lemma_combine_facts(
                fchannel_spec(*old(self)),
                channel_set_default_spec(bchannel_spec(*old(self))),
            );
        }
        new
    }

    fn set_not_default(&mut self) -> (new: Self)
        ensures
            new == *final(self),
            !channel_default_p_spec(fchannel_spec(*final(self))),
            !channel_default_p_spec(bchannel_spec(*final(self))),
            fchannel_spec(*final(self)) == channel_set_not_default_spec(
                fchannel_spec(*old(self)),
            ),
            bchannel_spec(*final(self)) == channel_set_not_default_spec(
                bchannel_spec(*old(self)),
            ),
    {
        ncchannels_set_bg_not_default(self);
        let new = ncchannels_set_fg_not_default(self);
        proof {
            lemma_combine_facts(
                channel_set_not_default_spec(
                    fchannel_spec(set_bchannel_spec(
                        *old(self),
                        channel_set_not_default_spec(bchannel_spec(*old(self))),
                    )),
                ),
                bchannel_spec(set_bchannel_spec(
                    *old(self),
                    channel_set_not_default_spec(bchannel_spec(*old(self))),
                )),
            );
            lemma_combine_facts(
                fchannel_spec(*old(self)),
                channel_set_not_default_spec(bchannel_spec(*old(self))),
            );
        }
        new
    }

    fn fg_palindex_p(&self) -> (palindex: bool)
        ensures
            palindex == channel_palindex_p_spec(fchannel_spec(*self)),
    {
        ncchannels_fg_palindex_p(*self)
    }

    fn bg_palindex_p(&self) -> (palindex: bool)
        ensures
            palindex == channel_palindex_p_spec(bchannel_spec(*self)),
    {
        ncchannels_bg_palindex_p(*self)
    }

    fn set_fg_palindex(&mut self, index: NcPaletteIndex) -> (new: Self)
        ensures
            *final(self) == set_fchannel_spec(
                *old(self),
                channel_set_palindex_spec(fchannel_spec(*old(self)), index),
            ),
            new == *final(self),
    {
        ncchannels_set_fg_palindex(self, index);
        *self
    }

    fn set_bg_palindex(&mut self, index: NcPaletteIndex) -> (new: Self)
        ensures
            *final(self) == set_bchannel_spec(
                *old(self),
                channel_set_palindex_spec(bchannel_spec(*old(self)), index),
            ),
            new == *final(self),
    {
        ncchannels_set_bg_palindex(self, index);
        *self
    }
}

} // verus!
