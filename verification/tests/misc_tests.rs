//! Input records, options, alignment, capabilities and reader options.

use nccore::{
    nccapability_canchangecolor, ncdirect_canchangecolor, ncdirect_canfade,
    ncdirect_cantruecolor, ncinput_equal_p, ncinput_nomod_p, nckey_mouse_p, nckey_supppuab_p,
    notcurses_align, NcCapabilities, NcInput, NcOptionsBuilder, NcReaderOptions,
    NCALIGN_CENTER, NCALIGN_LEFT, NCALIGN_RIGHT, NCALIGN_UNALIGNED, NCLOGLEVEL_VERBOSE,
    NCOPTION_CLI_MODE, NCOPTION_DRAIN_INPUT, NCOPTION_NO_CLEAR_BITMAPS, NCOPTION_SCROLLING,
    NCOPTION_SUPPRESS_BANNERS, NCRESULT_MAX,
};

#[test]
fn input_constructors() {
    let empty = NcInput::new_empty();
    assert_eq!(empty.id, 0);
    assert_eq!((empty.y, empty.x), (0, 0));
    assert!(!empty.alt && !empty.shift && !empty.ctrl);
    assert_eq!(empty.evtype, 0);

    let plain = NcInput::new('a');
    assert_eq!(plain.id, 'a' as u32);
    assert_eq!((plain.y, plain.x), (-1, -1));
    assert!(ncinput_nomod_p(&plain));

    assert!(NcInput::with_alt('a').alt);
    assert!(NcInput::with_shift('a').shift);
    assert!(NcInput::with_ctrl('a').ctrl);
    assert!(!ncinput_nomod_p(&NcInput::with_ctrl('a')));

    // the coordinate arguments cross: the first optional argument lands in
    // the row field
    let placed = NcInput::with_all_args('a', Some(5), Some(7), false, false, false, 2);
    assert_eq!(placed.y, 5);
    assert_eq!(placed.x, 7);
    assert_eq!(placed.evtype, 2);
}

#[test]
fn input_equality() {
    let a = NcInput::new('a');
    let b = NcInput::new('a');
    assert!(ncinput_equal_p(a, b));
    assert!(!ncinput_equal_p(a, NcInput::new('b')));
    assert!(!ncinput_equal_p(a, NcInput::with_alt('a')));
}

#[test]
fn key_queries() {
    assert!(nckey_supppuab_p('\u{100000}'));
    assert!(nckey_supppuab_p('\u{10fffd}'));
    assert!(!nckey_supppuab_p('a'));
    assert!(nckey_mouse_p('\u{1000c9}'));
    assert!(nckey_mouse_p('\u{1000d3}'));
    assert!(!nckey_mouse_p('\u{1000c8}'));
    assert!(!nckey_mouse_p('a'));
}

#[test]
fn options_builder_builds() {
    let options = NcOptionsBuilder::new()
        .margins(1, 2, 3, 4)
        .log_level(NCLOGLEVEL_VERBOSE)
        .drain_input(true)
        .suppress_banners(true)
        .build();
    assert_eq!(options.margin_t, 1);
    assert_eq!(options.margin_r, 2);
    assert_eq!(options.margin_b, 3);
    assert_eq!(options.margin_l, 4);
    assert_eq!(options.loglevel, NCLOGLEVEL_VERBOSE);
    assert_eq!(options.flags, NCOPTION_DRAIN_INPUT | NCOPTION_SUPPRESS_BANNERS);
    assert!(options.is_drain_input());
    assert!(options.is_suppress_banners());
    assert!(!options.is_scrolling());
    // clearing a flag removes only that flag
    let cleared = NcOptionsBuilder::new()
        .drain_input(true)
        .suppress_banners(true)
        .drain_input(false)
        .build();
    assert_eq!(cleared.flags, NCOPTION_SUPPRESS_BANNERS);
}

#[test]
fn options_builder_cli_mode() {
    let options = NcOptionsBuilder::new().cli_mode(true).build();
    assert_eq!(options.flags, NCOPTION_CLI_MODE);
    assert!(options.is_cli_mode());
    assert!(options.is_no_alternate_screen());
    assert!(options.is_no_clear_bitmaps());
    assert!(options.is_preserve_cursor());
    assert!(options.is_scrolling());
}

#[test]
fn options_builder_from_options() {
    let options = NcOptionsBuilder::new()
        .margins(1, 2, 3, 4)
        .drain_input(true)
        .scrolling(true)
        .build();
    let rebuilt = NcOptionsBuilder::from_options(&options).build();
    // the flags the builder reads are carried over
    assert_eq!(rebuilt.flags, NCOPTION_DRAIN_INPUT | NCOPTION_SCROLLING);
    // margins and log level are not
    assert_eq!(rebuilt.margin_t, 0);
    assert_eq!(rebuilt.loglevel, 0);
    // the bitmap-clearing flag alone is not read back either
    let options = NcOptionsBuilder::new().no_clear_bitmaps(true).build();
    assert_eq!(options.flags, NCOPTION_NO_CLEAR_BITMAPS);
    let rebuilt = NcOptionsBuilder::from_options(&options).build();
    assert_eq!(rebuilt.flags, 0);
}

#[test]
fn align_offsets() {
    assert_eq!(notcurses_align(80, NCALIGN_LEFT, 10), 0);
    assert_eq!(notcurses_align(80, NCALIGN_CENTER, 10), 35);
    assert_eq!(notcurses_align(80, NCALIGN_RIGHT, 10), 70);
    assert_eq!(notcurses_align(80, NCALIGN_UNALIGNED, 10), -NCRESULT_MAX);
    assert_eq!(notcurses_align(81, NCALIGN_CENTER, 10), 35);
}

#[test]
fn capability_queries() {
    let caps = NcCapabilities {
        colors: 256,
        utf8: true,
        rgb: false,
        can_change_colors: true,
        halfblocks: true,
        quadrants: true,
        sextants: false,
        braille: true,
    };
    assert!(nccapability_canchangecolor(&caps));
    assert!(ncdirect_canchangecolor(&caps));
    assert!(!ncdirect_cantruecolor(&caps));
    assert!(ncdirect_canfade(&caps));
    // too small a palette cannot be reprogrammed
    let small = NcCapabilities { colors: 16, ..caps };
    assert!(!nccapability_canchangecolor(&small));
    assert!(!ncdirect_canfade(&small));
    // direct RGB alone also allows fading
    let rgb_only = NcCapabilities { can_change_colors: false, rgb: true, ..caps };
    assert!(ncdirect_canfade(&rgb_only));
}

#[test]
fn reader_options_start_plain() {
    let options = NcReaderOptions::new();
    assert_eq!(options.tchannels, 0);
    assert_eq!(options.tattrword, 0);
    assert_eq!(options.flags, 0);
}
