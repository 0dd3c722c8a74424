//! Channel and channel-pair encodings.

use nccore::{
    ncchannel_alpha, ncchannel_b, ncchannel_default_p, ncchannel_g, ncchannel_palindex_p,
    ncchannel_r, ncchannel_rgb, ncchannel_set, ncchannel_set_alpha, ncchannel_set_default,
    ncchannel_set_not_default, ncchannel_set_rgb8, ncchannels_bchannel, ncchannels_bg_alpha,
    ncchannels_combine, ncchannels_fchannel, ncchannels_fg_alpha, ncchannels_set_bg_palindex,
    ncchannels_set_fg_palindex, ncchannels_set_fg_rgb8, NcChannelMethods, NcChannelsMethods,
    NCALPHA_BLEND, NCALPHA_OPAQUE, NCALPHA_TRANSPARENT,
};

#[test]
fn channel_set_overwrites_rgb_and_flags() {
    let mut channel: u32 = 0;
    ncchannel_set(&mut channel, 0x123456);
    assert_eq!(channel, 0x4012_3456);
    assert_eq!(ncchannel_rgb(channel), 0x123456);
    assert!(!ncchannel_default_p(channel));
    assert!(!ncchannel_palindex_p(channel));
    // alpha is preserved across a color change
    ncchannel_set_alpha(&mut channel, NCALPHA_BLEND);
    ncchannel_set(&mut channel, 0x654321);
    assert_eq!(ncchannel_alpha(channel), NCALPHA_BLEND);
    assert_eq!(ncchannel_rgb(channel), 0x654321);
    // the high input bits are masked off
    ncchannel_set(&mut channel, 0xff65_4321);
    assert_eq!(ncchannel_rgb(channel), 0x654321);
}

#[test]
fn channel_components_read_back() {
    let mut channel: u32 = 0;
    ncchannel_set_rgb8(&mut channel, 0x11, 0x22, 0x33);
    assert_eq!(ncchannel_r(channel), 0x11);
    assert_eq!(ncchannel_g(channel), 0x22);
    assert_eq!(ncchannel_b(channel), 0x33);
    assert_eq!(ncchannel_rgb(channel), 0x112233);
}

#[test]
fn channel_alpha_changes_nothing_else() {
    let mut channel: u32 = 0x4012_3456;
    ncchannel_set_alpha(&mut channel, NCALPHA_TRANSPARENT);
    assert_eq!(channel, 0x6012_3456);
    assert_eq!(ncchannel_alpha(channel), NCALPHA_TRANSPARENT);
    assert_eq!(ncchannel_rgb(channel), 0x123456);
    assert!(!ncchannel_default_p(channel));
}

#[test]
fn set_default_forces_opaque_alpha() {
    // a channel with alpha blend, then set_default: default and opaque
    let mut channel: u32 = 0;
    ncchannel_set(&mut channel, 0x123456);
    ncchannel_set_alpha(&mut channel, NCALPHA_BLEND);
    assert_eq!(ncchannel_alpha(channel), NCALPHA_BLEND);
    ncchannel_set_default(&mut channel);
    assert!(ncchannel_default_p(channel));
    assert_eq!(ncchannel_alpha(channel), NCALPHA_OPAQUE);
    // and back
    ncchannel_set_not_default(&mut channel);
    assert!(!ncchannel_default_p(channel));
}

#[test]
fn combine_packs_both_halves() {
    // the zero example
    let channels = ncchannels_combine(0x0000_0000, 0x0000_0000);
    assert_eq!(channels, 0x0000_0000_0000_0000);
    assert_eq!(ncchannels_fchannel(channels), 0);
    assert_eq!(ncchannels_bchannel(channels), 0);
    // a distinct pair round-trips
    let channels = ncchannels_combine(0x4011_2233, 0x4044_5566);
    assert_eq!(channels, 0x4011_2233_4044_5566);
    assert_eq!(ncchannels_fchannel(channels), 0x4011_2233);
    assert_eq!(ncchannels_bchannel(channels), 0x4044_5566);
}

#[test]
fn palette_indexes_set_flags_and_low_byte() {
    let mut channels: u64 = 0;
    ncchannels_set_fg_palindex(&mut channels, 0x2a);
    ncchannels_set_bg_palindex(&mut channels, 0x07);
    assert_eq!(ncchannels_fchannel(channels), 0x4800_002a);
    assert_eq!(ncchannels_bchannel(channels), 0x4800_0007);
    assert_eq!(ncchannels_fg_alpha(channels), NCALPHA_OPAQUE);
    assert_eq!(ncchannels_bg_alpha(channels), NCALPHA_OPAQUE);
}

#[test]
fn pair_setters_leave_other_half_alone() {
    let mut channels: u64 = ncchannels_combine(0x4011_2233, 0x4044_5566);
    ncchannels_set_fg_rgb8(&mut channels, 0xaa, 0xbb, 0xcc);
    assert_eq!(ncchannels_fchannel(channels), 0x40aa_bbcc);
    assert_eq!(ncchannels_bchannel(channels), 0x4044_5566);
}

#[test]
fn channel_method_constructors() {
    // black, explicitly not default
    assert_eq!(<u32 as NcChannelMethods>::new(), 0x4000_0000);
    // black, default
    assert_eq!(<u32 as NcChannelMethods>::default(), 0);
    assert_eq!(<u32 as NcChannelMethods>::from_rgb(0x112233), 0x4011_2233);
    assert_eq!(
        <u32 as NcChannelMethods>::from_rgb_alpha(0x112233, NCALPHA_BLEND),
        0x5011_2233
    );
    assert_eq!(<u32 as NcChannelMethods>::from_rgb8(0x11, 0x22, 0x33), 0x4011_2233);
    let mut ch = <u32 as NcChannelMethods>::from_rgb(0x112233);
    assert_eq!(ch.rgb8(), (0x11, 0x22, 0x33));
    ch.set_alpha(NCALPHA_TRANSPARENT);
    assert_eq!(ch.alpha(), NCALPHA_TRANSPARENT);
    assert!(!ch.default_p());
    ch.set_default();
    assert!(ch.default_p());
    assert_eq!(ch.alpha(), NCALPHA_OPAQUE);
}

#[test]
fn pair_method_constructors() {
    assert_eq!(<u64 as NcChannelsMethods>::new(), 0x4000_0000_4000_0000);
    assert_eq!(<u64 as NcChannelsMethods>::with_default(), 0);
    assert_eq!(
        <u64 as NcChannelsMethods>::from_rgb(0x112233, 0x445566),
        0x4011_2233_4044_5566
    );
    assert_eq!(<u64 as NcChannelsMethods>::from_rgb_both(0x112233), 0x4011_2233_4011_2233);
    let mut channels = <u64 as NcChannelsMethods>::from_rgb_both(0x112233);
    assert_eq!(channels.fchannel(), 0x4011_2233);
    assert_eq!(channels.bchannel(), 0x4011_2233);
    channels.set_bchannel(0x4044_5566);
    assert_eq!(channels.fchannel(), 0x4011_2233);
    assert_eq!(channels.bchannel(), 0x4044_5566);
    assert_eq!(channels.fg_rgb(), 0x112233);
    assert_eq!(channels.bg_rgb(), 0x445566);
    channels.set_default();
    assert!(channels.fg_default_p());
    assert!(channels.bg_default_p());
}

#[test]
fn component_setters_read_their_own_side() {
    let mut channels = <u64 as NcChannelsMethods>::from_rgb(0x112233, 0x445566);
    // replacing one foreground component keeps the other two foreground ones
    channels.fg_set_r(0xaa);
    assert_eq!(channels.fg_rgb8(), (0xaa, 0x22, 0x33));
    assert_eq!(channels.bg_rgb8(), (0x44, 0x55, 0x66));
    channels.fg_set_g(0xbb);
    channels.fg_set_b(0xcc);
    assert_eq!(channels.fg_rgb8(), (0xaa, 0xbb, 0xcc));
    channels.bg_set_r(0xdd);
    assert_eq!(channels.bg_rgb8(), (0xdd, 0x55, 0x66));
    assert_eq!(channels.fg_rgb8(), (0xaa, 0xbb, 0xcc));
}
