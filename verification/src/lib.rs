//! A terminal-graphics cell model: a compact, fixed-size representation of
//! one character position on a terminal surface, covering styling, color
//! channels and glyph storage.
//!
//! The core is the cell/channel encoding: a 128-bit packed cell built from a
//! 64-bit dual-channel color encoding, combined with a grapheme-cluster
//! interning pool that lets a fixed 4-byte inline slot represent either a
//! short UTF-8 sequence directly or an indirect 24-bit pool offset.

pub mod boxes;
pub mod cell;
pub mod channel;
pub mod channel_methods;
pub mod direct;
pub mod egc;
pub mod input;
pub mod load;
pub mod options;
pub mod pixel;
pub mod plane;
pub mod reader;
pub mod types;

pub use boxes::{
    nccells_ascii_box, nccells_double_box, nccells_heavy_box, nccells_light_box,
    nccells_load_box, nccells_rounded_box,
};
pub use cell::{
    nccell_bg_alpha, nccell_bg_default_p, nccell_bg_palindex, nccell_bg_palindex_p, nccell_bg_rgb,
    nccell_bg_rgb8, nccell_cols, nccell_double_wide_p, nccell_fg_alpha, nccell_fg_default_p,
    nccell_fg_palindex, nccell_fg_palindex_p, nccell_fg_rgb, nccell_fg_rgb8, nccell_init,
    nccell_off_styles, nccell_on_styles, nccell_set_bg_alpha, nccell_set_bg_default,
    nccell_set_bg_palindex, nccell_set_bg_rgb, nccell_set_bg_rgb8, nccell_set_fg_alpha,
    nccell_set_fg_default, nccell_set_fg_palindex, nccell_set_fg_rgb, nccell_set_fg_rgb8,
    nccell_set_styles, nccell_styles, nccell_wide_left_p, nccell_wide_right_p, NcCell,
};
pub use channel::{
    ncchannel_alpha, ncchannel_b, ncchannel_default_p, ncchannel_g, ncchannel_palindex_p,
    ncchannel_r, ncchannel_rgb, ncchannel_rgb8, ncchannel_set, ncchannel_set_alpha,
    ncchannel_set_b, ncchannel_set_default, ncchannel_set_g, ncchannel_set_not_default,
    ncchannel_set_r, ncchannel_set_rgb8, ncchannels_bchannel, ncchannels_bg_alpha,
    ncchannels_bg_default_p, ncchannels_bg_palindex_p, ncchannels_bg_rgb, ncchannels_bg_rgb8,
    ncchannels_combine, ncchannels_fchannel, ncchannels_fg_alpha, ncchannels_fg_default_p,
    ncchannels_fg_palindex_p, ncchannels_fg_rgb, ncchannels_fg_rgb8, ncchannels_set_bchannel,
    ncchannels_set_bg_alpha, ncchannels_set_bg_default, ncchannels_set_bg_not_default,
    ncchannels_set_bg_palindex, ncchannels_set_bg_rgb, ncchannels_set_bg_rgb8,
    ncchannels_set_fchannel, ncchannels_set_fg_alpha, ncchannels_set_fg_default,
    ncchannels_set_fg_not_default, ncchannels_set_fg_palindex, ncchannels_set_fg_rgb,
    ncchannels_set_fg_rgb8,
};
pub use channel_methods::{NcChannelMethods, NcChannelsMethods};
pub use direct::{
    nccapability_canchangecolor, ncdirect_canchangecolor, ncdirect_canfade,
    ncdirect_cantruecolor, NcCapabilities,
};
pub use egc::ncstrwidth;
pub use input::{
    ncinput_equal_p, ncinput_nomod_p, nckey_mouse_p, nckey_supppuab_p, NcEvType, NcInput,
    NCEVTYPE_PRESS, NCEVTYPE_RELEASE, NCEVTYPE_REPEAT, NCEVTYPE_UNKNOWN, NCKEY_BUTTON1,
    NCKEY_BUTTON11,
};
pub use load::{
    nccell_duplicate, nccell_extract, nccell_load, nccell_prime, nccell_release, nccell_strdup,
    nccellcmp,
};
pub use options::{
    notcurses_align, NcAlign, NcLogLevel, NcOptions, NcOptionsBuilder, NCALIGN_BOTTOM,
    NCALIGN_CENTER, NCALIGN_LEFT, NCALIGN_RIGHT, NCALIGN_TOP, NCALIGN_UNALIGNED,
    NCLOGLEVEL_DEBUG, NCLOGLEVEL_ERROR, NCLOGLEVEL_FATAL, NCLOGLEVEL_INFO, NCLOGLEVEL_PANIC,
    NCLOGLEVEL_SILENT, NCLOGLEVEL_TRACE, NCLOGLEVEL_VERBOSE, NCLOGLEVEL_WARNING,
    NCOPTION_CLI_MODE, NCOPTION_DRAIN_INPUT, NCOPTION_INHIBIT_SETLOCALE,
    NCOPTION_NO_ALTERNATE_SCREEN, NCOPTION_NO_CLEAR_BITMAPS, NCOPTION_NO_FONT_CHANGES,
    NCOPTION_NO_QUIT_SIGHANDLERS, NCOPTION_NO_WINCH_SIGHANDLER, NCOPTION_PRESERVE_CURSOR,
    NCOPTION_SCROLLING, NCOPTION_SUPPRESS_BANNERS, NCRESULT_MAX,
};
pub use pixel::NcPixelGeometry;
pub use plane::NcPlane;
pub use reader::{
    NcReaderOptions, NCREADER_OPTION_CURSOR, NCREADER_OPTION_HORSCROLL, NCREADER_OPTION_NOCMDKEYS,
    NCREADER_OPTION_VERSCROLL,
};
pub use types::{
    NcAlpha, NcAlphaBits, NcChannel, NcChannels, NcComponent, NcDim, NcError, NcIntResult,
    NcPaletteIndex, NcRgb, NcStyle, NCALPHA_BGDEFAULT_MASK, NCALPHA_BG_ALPHA_MASK,
    NCALPHA_BG_PALETTE_MASK, NCALPHA_BG_RGB_MASK, NCALPHA_BLEND, NCALPHA_HIGHCONTRAST,
    NCALPHA_OPAQUE, NCALPHA_TRANSPARENT, NCSTYLE_BOLD, NCSTYLE_ITALIC, NCSTYLE_MASK, NCSTYLE_NONE,
    NCSTYLE_STRUCK, NCSTYLE_UNDERCURL, NCSTYLE_UNDERLINE,
};
