//! Context options, their builder, and alignment arithmetic.

use vstd::prelude::*;

use crate::types::{NcDim, NcIntResult};

verus! {

/// A log level: -1 silences logging, higher values say more.
pub type NcLogLevel = i32;

/// No logging at all.
pub const NCLOGLEVEL_SILENT: i32 = -1;

/// Log only when about to abort.
pub const NCLOGLEVEL_PANIC: i32 = 0;

/// Log fatal errors.
pub const NCLOGLEVEL_FATAL: i32 = 1;

/// Log serious errors.
pub const NCLOGLEVEL_ERROR: i32 = 2;

/// Log problems.
pub const NCLOGLEVEL_WARNING: i32 = 3;

/// Log informational messages.
pub const NCLOGLEVEL_INFO: i32 = 4;

/// Log detailed information.
pub const NCLOGLEVEL_VERBOSE: i32 = 5;

/// Log debugging information.
pub const NCLOGLEVEL_DEBUG: i32 = 6;

/// Log everything.
pub const NCLOGLEVEL_TRACE: i32 = 7;

/// Do not call setlocale on startup.
pub const NCOPTION_INHIBIT_SETLOCALE: u64 = 0x0001;

/// Do not try to clear any preexisting bitmaps.
pub const NCOPTION_NO_CLEAR_BITMAPS: u64 = 0x0002;

/// Do not install a handler for the window-change signal.
pub const NCOPTION_NO_WINCH_SIGHANDLER: u64 = 0x0004;

/// Do not install handlers for the quitting signals.
pub const NCOPTION_NO_QUIT_SIGHANDLERS: u64 = 0x0008;

/// Initialize the virtual cursor from the physical one.
pub const NCOPTION_PRESERVE_CURSOR: u64 = 0x0010;

/// Do not print banners on startup and shutdown.
pub const NCOPTION_SUPPRESS_BANNERS: u64 = 0x0020;

/// Do not enter the alternate screen.
pub const NCOPTION_NO_ALTERNATE_SCREEN: u64 = 0x0040;

/// Do not modify the font.
pub const NCOPTION_NO_FONT_CHANGES: u64 = 0x0080;

/// Input may be freely dropped.
pub const NCOPTION_DRAIN_INPUT: u64 = 0x0100;

/// Prepare the standard plane in scrolling mode.
pub const NCOPTION_SCROLLING: u64 = 0x0200;

/// The command-line mode shorthand: no alternate screen, no bitmap
/// clearing, a preserved cursor and scrolling.
pub const NCOPTION_CLI_MODE: u64 = NCOPTION_NO_ALTERNATE_SCREEN | NCOPTION_NO_CLEAR_BITMAPS
    | NCOPTION_PRESERVE_CURSOR | NCOPTION_SCROLLING;

/// The options a context is created with: margins, a log level and flags.
#[derive(Clone, Copy, Debug, PartialEq, Eq, Structural)]
pub struct NcOptions {
    /// The top margin.
    pub margin_t: u32,
    /// The right margin.
    pub margin_r: u32,
    /// The bottom margin.
    pub margin_b: u32,
    /// The left margin.
    pub margin_l: u32,
    /// The log level.
    pub loglevel: NcLogLevel,
    /// A bitset of the context flags.
    pub flags: u64,
}

impl NcOptions {
    /// Is input draining requested?
    pub fn is_drain_input(&self) -> (set: bool)
        ensures
            set == (self.flags & NCOPTION_DRAIN_INPUT != 0),
    {
        self.flags & NCOPTION_DRAIN_INPUT != 0
    }

    /// Is the setlocale call inhibited?
    pub fn is_inhibit_set_locale(&self) -> (set: bool)
        ensures
            set == (self.flags & NCOPTION_INHIBIT_SETLOCALE != 0),
    {
        self.flags & NCOPTION_INHIBIT_SETLOCALE != 0
    }

    /// Is the alternate screen avoided?
    pub fn is_no_alternate_screen(&self) -> (set: bool)
        ensures
            set == (self.flags & NCOPTION_NO_ALTERNATE_SCREEN != 0),
    {
        self.flags & NCOPTION_NO_ALTERNATE_SCREEN != 0
    }

    /// Is bitmap clearing avoided?
    pub fn is_no_clear_bitmaps(&self) -> (set: bool)
        ensures
            set == (self.flags & NCOPTION_NO_CLEAR_BITMAPS != 0),
    {
        self.flags & NCOPTION_NO_CLEAR_BITMAPS != 0
    }

    /// Are font changes avoided?
    pub fn is_no_font_changes(&self) -> (set: bool)
        ensures
            set == (self.flags & NCOPTION_NO_FONT_CHANGES != 0),
    {
        self.flags & NCOPTION_NO_FONT_CHANGES != 0
    }

    /// Are the quitting signal handlers inhibited?
    pub fn is_no_quit_sig_handlers(&self) -> (set: bool)
        ensures
            set == (self.flags & NCOPTION_NO_QUIT_SIGHANDLERS != 0),
    {
        self.flags & NCOPTION_NO_QUIT_SIGHANDLERS != 0
    }

    /// Is the window-change signal handler inhibited?
    pub fn is_no_winch_sig_handler(&self) -> (set: bool)
        ensures
            set == (self.flags & NCOPTION_NO_WINCH_SIGHANDLER != 0),
    {
        self.flags & NCOPTION_NO_WINCH_SIGHANDLER != 0
    }

    /// Is the cursor preserved?
    pub fn is_preserve_cursor(&self) -> (set: bool)
        ensures
            set == (self.flags & NCOPTION_PRESERVE_CURSOR != 0),
    {
        self.flags & NCOPTION_PRESERVE_CURSOR != 0
    }

    /// Is scrolling requested?
    pub fn is_scrolling(&self) -> (set: bool)
        ensures
            set == (self.flags & NCOPTION_SCROLLING != 0),
    {
        self.flags & NCOPTION_SCROLLING != 0
    }

    /// Are all four command-line-mode flags set?
    pub fn is_cli_mode(&self) -> (set: bool)
        ensures
            set == (self.flags & NCOPTION_CLI_MODE == NCOPTION_CLI_MODE),
    {
        self.flags & NCOPTION_CLI_MODE == NCOPTION_CLI_MODE
    }

    /// Are the banners suppressed?
    pub fn is_suppress_banners(&self) -> (set: bool)
        ensures
            set == (self.flags & NCOPTION_SUPPRESS_BANNERS != 0),
    {
        self.flags & NCOPTION_SUPPRESS_BANNERS != 0
    }
}

/// A builder for [`NcOptions`].
#[derive(Clone, Copy, Debug)]
pub struct NcOptionsBuilder {
    /// The top margin.
    pub margin_t: u32,
    /// The right margin.
    pub margin_r: u32,
    /// The bottom margin.
    pub margin_b: u32,
    /// The left margin.
    pub margin_l: u32,
    /// The log level.
    pub loglevel: NcLogLevel,
    /// A bitset of the context flags.
    pub flags: u64,
}

/// The all-zero builder.
pub open spec fn builder_zero() -> NcOptionsBuilder {
    NcOptionsBuilder { margin_t: 0, margin_r: 0, margin_b: 0, margin_l: 0, loglevel: 0, flags: 0 }
}

/// The flags a builder recovers from an options record: the single flags it
/// reads, plus the command-line-mode group when all four of its bits are
/// present. Margins, log level and the bitmap-clearing flag on its own are
/// not carried over.
pub open spec fn from_options_flags_spec(flags: u64) -> u64 {
    let f: u64 = 0;
    let f = if flags & NCOPTION_DRAIN_INPUT != 0 {
        f | NCOPTION_DRAIN_INPUT
    } else {
        f
    };
    let f = if flags & NCOPTION_INHIBIT_SETLOCALE != 0 {
        f | NCOPTION_INHIBIT_SETLOCALE
    } else {
        f
    };
    let f = if flags & NCOPTION_NO_ALTERNATE_SCREEN != 0 {
        f | NCOPTION_NO_ALTERNATE_SCREEN
    } else {
        f
    };
    let f = if flags & NCOPTION_NO_FONT_CHANGES != 0 {
        f | NCOPTION_NO_FONT_CHANGES
    } else {
        f
    };
    let f = if flags & NCOPTION_NO_QUIT_SIGHANDLERS != 0 {
        f | NCOPTION_NO_QUIT_SIGHANDLERS
    } else {
        f
    };
    let f = if flags & NCOPTION_NO_WINCH_SIGHANDLER != 0 {
        f | NCOPTION_NO_WINCH_SIGHANDLER
    } else {
        f
    };
    let f = if flags & NCOPTION_PRESERVE_CURSOR != 0 {
        f | NCOPTION_PRESERVE_CURSOR
    } else {
        f
    };
    let f = if flags & NCOPTION_SCROLLING != 0 {
        f | NCOPTION_SCROLLING
    } else {
        f
    };
    let f = if flags & NCOPTION_CLI_MODE == NCOPTION_CLI_MODE {
        f | NCOPTION_CLI_MODE
    } else {
        f
    };
    let f = if flags & NCOPTION_SUPPRESS_BANNERS != 0 {
        f | NCOPTION_SUPPRESS_BANNERS
    } else {
        f
    };
    f
}

impl Default for NcOptionsBuilder {
    /// The all-zero builder.
    fn default() -> (builder: Self)
        ensures
            builder == builder_zero(),
    {
        NcOptionsBuilder {
            margin_t: 0,
            margin_r: 0,
            margin_b: 0,
            margin_l: 0,
            loglevel: 0,
            flags: 0,
        }
    }
}

impl NcOptionsBuilder {
    /// A new all-zero builder.
    pub fn new() -> (builder: Self)
        ensures
            builder == builder_zero(),
    {
        NcOptionsBuilder {
            margin_t: 0,
            margin_r: 0,
            margin_b: 0,
            margin_l: 0,
            loglevel: 0,
            flags: 0,
        }
    }

    /// A new builder carrying the flags of pre-existing options; margins
    /// and log level start over from zero.
    pub fn from_options(options: &NcOptions) -> (builder: Self)
        ensures
            builder == (NcOptionsBuilder {
                flags: from_options_flags_spec(options.flags),
                ..builder_zero()
            }),
    {
        let mut builder = Self::new();
        if options.is_drain_input() {
            builder = builder.drain_input(true);
        }
        if options.is_inhibit_set_locale() {
            builder = builder.inhibit_set_locale(true);
        }
        if options.is_no_alternate_screen() {
            builder = builder.no_alternate_screen(true);
        }
        if options.is_no_font_changes() {
            builder = builder.no_font_changes(true);
        }
        if options.is_no_quit_sig_handlers() {
            builder = builder.no_quit_sig_handlers(true);
        }
        if options.is_no_winch_sig_handler() {
            builder = builder.no_winch_sig_handler(true);
        }
        if options.is_preserve_cursor() {
            builder = builder.preserve_cursor(true);
        }
        if options.is_scrolling() {
            builder = builder.scrolling(true);
        }
        if options.is_cli_mode() {
            builder = builder.cli_mode(true);
        }
        if options.is_suppress_banners() {
            builder = builder.suppress_banners(true);
        }
        builder
    }

    /// Finishes the building and returns the options.
    pub fn build(self) -> (options: NcOptions)
        ensures
            options == (NcOptions {
                margin_t: self.margin_t,
                margin_r: self.margin_r,
                margin_b: self.margin_b,
                margin_l: self.margin_l,
                loglevel: self.loglevel,
                flags: self.flags,
            }),
    {
        NcOptions {
            margin_t: self.margin_t,
            margin_r: self.margin_r,
            margin_b: self.margin_b,
            margin_l: self.margin_l,
            loglevel: self.loglevel,
            flags: self.flags,
        }
    }

    /// Sets the log level.
    pub fn log_level(self, log_level: NcLogLevel) -> (builder: Self)
        ensures
            builder == (NcOptionsBuilder { loglevel: log_level, ..self }),
    {
        NcOptionsBuilder { loglevel: log_level, ..self }
    }

    /// Sets the four margins at once.
    pub fn margins(self, top: u32, right: u32, bottom: u32, left: u32) -> (builder: Self)
        ensures
            builder == (NcOptionsBuilder {
                margin_t: top,
                margin_r: right,
                margin_b: bottom,
                margin_l: left,
                ..self
            }),
    {
        NcOptionsBuilder { margin_t: top, margin_r: right, margin_b: bottom, margin_l: left, ..self }
    }

    /// Sets the top margin.
    pub fn margin_top(self, top: u32) -> (builder: Self)
        ensures
            builder == (NcOptionsBuilder { margin_t: top, ..self }),
    {
        NcOptionsBuilder { margin_t: top, ..self }
    }

    /// Sets the right margin.
    pub fn margin_right(self, right: u32) -> (builder: Self)
        ensures
            builder == (NcOptionsBuilder { margin_r: right, ..self }),
    {
        NcOptionsBuilder { margin_r: right, ..self }
    }

    /// Sets the bottom margin.
    pub fn margin_bottom(self, bottom: u32) -> (builder: Self)
        ensures
            builder == (NcOptionsBuilder { margin_b: bottom, ..self }),
    {
        NcOptionsBuilder { margin_b: bottom, ..self }
    }

    /// Sets the left margin.
    pub fn margin_left(self, left: u32) -> (builder: Self)
        ensures
            builder == (NcOptionsBuilder { margin_l: left, ..self }),
    {
        NcOptionsBuilder { margin_l: left, ..self }
    }

    /// Sets or clears the input-draining flag.
    pub fn drain_input(self, drain: bool) -> (builder: Self)
        ensures
            builder == (NcOptionsBuilder {
                flags: if drain {
                    self.flags | NCOPTION_DRAIN_INPUT
                } else {
                    self.flags & !NCOPTION_DRAIN_INPUT
                },
                ..self
            }),
    {
        if drain {
            NcOptionsBuilder { flags: self.flags | NCOPTION_DRAIN_INPUT, ..self }
        } else {
            NcOptionsBuilder { flags: self.flags & !NCOPTION_DRAIN_INPUT, ..self }
        }
    }

    /// Sets or clears the setlocale-inhibiting flag.
    pub fn inhibit_set_locale(self, inhibit: bool) -> (builder: Self)
        ensures
            builder == (NcOptionsBuilder {
                flags: if inhibit {
                    self.flags | NCOPTION_INHIBIT_SETLOCALE
                } else {
                    self.flags & !NCOPTION_INHIBIT_SETLOCALE
                },
                ..self
            }),
    {
        if inhibit {
            NcOptionsBuilder { flags: self.flags | NCOPTION_INHIBIT_SETLOCALE, ..self }
        } else {
            NcOptionsBuilder { flags: self.flags & !NCOPTION_INHIBIT_SETLOCALE, ..self }
        }
    }

    /// Sets or clears the no-alternate-screen flag.
    pub fn no_alternate_screen(self, no_alternate: bool) -> (builder: Self)
        ensures
            builder == (NcOptionsBuilder {
                flags: if no_alternate {
                    self.flags | NCOPTION_NO_ALTERNATE_SCREEN
                } else {
                    self.flags & !NCOPTION_NO_ALTERNATE_SCREEN
                },
                ..self
            }),
    {
        if no_alternate {
            NcOptionsBuilder { flags: self.flags | NCOPTION_NO_ALTERNATE_SCREEN, ..self }
        } else {
            NcOptionsBuilder { flags: self.flags & !NCOPTION_NO_ALTERNATE_SCREEN, ..self }
        }
    }

    /// Sets or clears the no-bitmap-clearing flag.
    pub fn no_clear_bitmaps(self, no_clear: bool) -> (builder: Self)
        ensures
            builder == (NcOptionsBuilder {
                flags: if no_clear {
                    self.flags | NCOPTION_NO_CLEAR_BITMAPS
                } else {
                    self.flags & !NCOPTION_NO_CLEAR_BITMAPS
                },
                ..self
            }),
    {
        if no_clear {
            NcOptionsBuilder { flags: self.flags | NCOPTION_NO_CLEAR_BITMAPS, ..self }
        } else {
            NcOptionsBuilder { flags: self.flags & !NCOPTION_NO_CLEAR_BITMAPS, ..self }
        }
    }

    /// Sets or clears the no-font-changes flag.
    pub fn no_font_changes(self, no_font_changes: bool) -> (builder: Self)
        ensures
            builder == (NcOptionsBuilder {
                flags: if no_font_changes {
                    self.flags | NCOPTION_NO_FONT_CHANGES
                } else {
                    self.flags & !NCOPTION_NO_FONT_CHANGES
                },
                ..self
            }),
    {
        if no_font_changes {
            NcOptionsBuilder { flags: self.flags | NCOPTION_NO_FONT_CHANGES, ..self }
        } else {
            NcOptionsBuilder { flags: self.flags & !NCOPTION_NO_FONT_CHANGES, ..self }
        }
    }

    /// Sets or clears the no-quit-signal-handlers flag.
    pub fn no_quit_sig_handlers(self, no_quit: bool) -> (builder: Self)
        ensures
            builder == (NcOptionsBuilder {
                flags: if no_quit {
                    self.flags | NCOPTION_NO_QUIT_SIGHANDLERS
                } else {
                    self.flags & !NCOPTION_NO_QUIT_SIGHANDLERS
                },
                ..self
            }),
    {
        if no_quit {
            NcOptionsBuilder { flags: self.flags | NCOPTION_NO_QUIT_SIGHANDLERS, ..self }
        } else {
            NcOptionsBuilder { flags: self.flags & !NCOPTION_NO_QUIT_SIGHANDLERS, ..self }
        }
    }

    /// Sets or clears the no-window-change-handler flag.
    pub fn no_winch_sig_handler(self, no_winch: bool) -> (builder: Self)
        ensures
            builder == (NcOptionsBuilder {
                flags: if no_winch {
                    self.flags | NCOPTION_NO_WINCH_SIGHANDLER
                } else {
                    self.flags & !NCOPTION_NO_WINCH_SIGHANDLER
                },
                ..self
            }),
    {
        if no_winch {
            NcOptionsBuilder { flags: self.flags | NCOPTION_NO_WINCH_SIGHANDLER, ..self }
        } else {
            NcOptionsBuilder { flags: self.flags & !NCOPTION_NO_WINCH_SIGHANDLER, ..self }
        }
    }

    /// Sets or clears the cursor-preserving flag.
    pub fn preserve_cursor(self, preserve: bool) -> (builder: Self)
        ensures
            builder == (NcOptionsBuilder {
                flags: if preserve {
                    self.flags | NCOPTION_PRESERVE_CURSOR
                } else {
                    self.flags & !NCOPTION_PRESERVE_CURSOR
                },
                ..self
            }),
    {
        if preserve {
            NcOptionsBuilder { flags: self.flags | NCOPTION_PRESERVE_CURSOR, ..self }
        } else {
            NcOptionsBuilder { flags: self.flags & !NCOPTION_PRESERVE_CURSOR, ..self }
        }
    }

    /// Sets or clears the scrolling flag.
    pub fn scrolling(self, scrolling: bool) -> (builder: Self)
        ensures
            builder == (NcOptionsBuilder {
                flags: if scrolling {
                    self.flags | NCOPTION_SCROLLING
                } else {
                    self.flags & !NCOPTION_SCROLLING
                },
                ..self
            }),
    {
        if scrolling {
            NcOptionsBuilder { flags: self.flags | NCOPTION_SCROLLING, ..self }
        } else {
            NcOptionsBuilder { flags: self.flags & !NCOPTION_SCROLLING, ..self }
        }
    }

    /// Sets or clears the four command-line-mode flags together.
    pub fn cli_mode(self, cli_mode: bool) -> (builder: Self)
        ensures
            builder == (NcOptionsBuilder {
                flags: if cli_mode {
                    self.flags | NCOPTION_CLI_MODE
                } else {
                    self.flags & !NCOPTION_CLI_MODE
                },
                ..self
            }),
    {
        if cli_mode {
            NcOptionsBuilder { flags: self.flags | NCOPTION_CLI_MODE, ..self }
        } else {
            NcOptionsBuilder { flags: self.flags & !NCOPTION_CLI_MODE, ..self }
        }
    }

    /// Sets or clears the banner-suppressing flag.
    pub fn suppress_banners(self, suppress_banners: bool) -> (builder: Self)
        ensures
            builder == (NcOptionsBuilder {
                flags: if suppress_banners {
                    self.flags | NCOPTION_SUPPRESS_BANNERS
                } else {
                    self.flags & !NCOPTION_SUPPRESS_BANNERS
                },
                ..self
            }),
    {
        if suppress_banners {
            NcOptionsBuilder { flags: self.flags | NCOPTION_SUPPRESS_BANNERS, ..self }
        } else {
            NcOptionsBuilder { flags: self.flags & !NCOPTION_SUPPRESS_BANNERS, ..self }
        }
    }
}

/// Alignment within a plane or terminal.
pub type NcAlign = u32;

/// No alignment.
pub const NCALIGN_UNALIGNED: u32 = 0;

/// Left-aligned.
pub const NCALIGN_LEFT: u32 = 1;

/// Centered.
pub const NCALIGN_CENTER: u32 = 2;

/// Right-aligned.
pub const NCALIGN_RIGHT: u32 = 3;

/// Top-aligned: the vertical reading of [`NCALIGN_LEFT`].
pub const NCALIGN_TOP: u32 = 1;

/// Bottom-aligned: the vertical reading of [`NCALIGN_RIGHT`].
pub const NCALIGN_BOTTOM: u32 = 3;

/// The largest non-error result.
pub const NCRESULT_MAX: i32 = 0x7fff_ffff;

/// Returns the offset into `avail_u` at which `u` units ought be output
/// under the given alignment, or the negated [`NCRESULT_MAX`] for
/// [`NCALIGN_UNALIGNED`] or an invalid alignment.
pub fn notcurses_align(avail_u: NcDim, align: NcAlign, u: NcDim) -> (offset: NcIntResult)
    requires
        (align == NCALIGN_CENTER || align == NCALIGN_RIGHT) ==> u <= avail_u && avail_u - u
            <= 0x7fff_ffff,
    ensures
        align == NCALIGN_LEFT ==> offset == 0,
        align == NCALIGN_CENTER ==> offset == (avail_u - u) / 2,
        align == NCALIGN_RIGHT ==> offset == avail_u - u,
        align != NCALIGN_LEFT && align != NCALIGN_CENTER && align != NCALIGN_RIGHT ==> offset == -NCRESULT_MAX,
{
    if align == NCALIGN_LEFT {
        return 0;
    }
    if align == NCALIGN_CENTER {
        return ((avail_u - u) / 2) as i32;
    }
    if align == NCALIGN_RIGHT {
        return (avail_u - u) as i32;
    }
    -NCRESULT_MAX
}

} // verus!
