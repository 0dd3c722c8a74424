//! Options for the free-form input reader widget.
//!
//! The reader itself draws on a plane and belongs to the excluded rendering
//! layer; only its options record is plain data.

use vstd::prelude::*;

use crate::types::NcChannels;

verus! {

/// Make the terminal cursor visible and managed across the reader's life.
pub const NCREADER_OPTION_HORSCROLL: u64 = 0x0001;

/// Enable vertical scrolling.
pub const NCREADER_OPTION_VERSCROLL: u64 = 0x0002;

/// Disable all editing shortcuts.
pub const NCREADER_OPTION_NOCMDKEYS: u64 = 0x0004;

/// Make the cursor visible and have the reader manage its placement.
pub const NCREADER_OPTION_CURSOR: u64 = 0x0008;

/// The options a reader widget is created with.
#[derive(Clone, Copy, Debug, PartialEq, Eq, Structural)]
pub struct NcReaderOptions {
    /// The channels used for input.
    pub tchannels: NcChannels,
    /// The attributes used for input.
    pub tattrword: u32,
    /// A bitset of the reader options.
    pub flags: u64,
}

impl NcReaderOptions {
    /// The plain options: zero channels, zero attributes, no flags.
    pub fn new() -> (options: Self)
        ensures
            options == (NcReaderOptions { tchannels: 0, tattrword: 0, flags: 0 }),
    {
        NcReaderOptions { tchannels: 0, tattrword: 0, flags: 0 }
    }
}

} // verus!
