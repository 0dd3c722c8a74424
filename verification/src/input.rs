//! Input events: decoded keyboard and mouse records, and key-code queries.

use vstd::prelude::*;

use crate::types::NcDim;

verus! {

/// The type of an input event.
pub type NcEvType = u32;

/// An event of unknown type.
pub const NCEVTYPE_UNKNOWN: u32 = 0;

/// A key press.
pub const NCEVTYPE_PRESS: u32 = 1;

/// An autorepeat.
pub const NCEVTYPE_REPEAT: u32 = 2;

/// A key release.
pub const NCEVTYPE_RELEASE: u32 = 3;

/// The first synthesized mouse-button codepoint, in the Supplementary
/// Private Use Area-B.
pub const NCKEY_BUTTON1: u32 = 0x1000c9;

/// The last synthesized mouse-button codepoint.
pub const NCKEY_BUTTON11: u32 = 0x1000d3;

/// One decoded input event: a codepoint (or a synthesized key mapped into
/// the Supplementary Private Use Area-B), coordinates, and modifier states.
#[derive(Clone, Copy, Debug, PartialEq, Eq, Structural)]
pub struct NcInput {
    /// The Unicode codepoint, or a synthesized key.
    pub id: u32,
    /// The event row, or -1 when it carries none.
    pub y: i32,
    /// The event column, or -1 when it carries none.
    pub x: i32,
    /// Was alt held?
    pub alt: bool,
    /// Was shift held?
    pub shift: bool,
    /// Was ctrl held?
    pub ctrl: bool,
    /// The event type.
    pub evtype: NcEvType,
}

impl NcInput {
    /// A new empty input record.
    pub fn new_empty() -> (input: NcInput)
        ensures
            input == (NcInput {
                id: 0,
                y: 0,
                x: 0,
                alt: false,
                shift: false,
                ctrl: false,
                evtype: NCEVTYPE_UNKNOWN,
            }),
    {
        NcInput { id: 0, y: 0, x: 0, alt: false, shift: false, ctrl: false, evtype: 0 }
    }

    /// A new input record carrying only a codepoint.
    pub fn new(id: char) -> (input: NcInput)
        ensures
            input == NcInput::with_all_args_spec(id, None, None, false, false, false, 0),
    {
        Self::with_all_args(id, None, None, false, false, false, 0)
    }

    /// A new input record with the alt modifier held.
    pub fn with_alt(id: char) -> (input: NcInput)
        ensures
            input == NcInput::with_all_args_spec(id, None, None, true, false, false, 0),
    {
        Self::with_all_args(id, None, None, true, false, false, 0)
    }

    /// A new input record with the shift modifier held.
    pub fn with_shift(id: char) -> (input: NcInput)
        ensures
            input == NcInput::with_all_args_spec(id, None, None, false, true, false, 0),
    {
        Self::with_all_args(id, None, None, false, true, false, 0)
    }

    /// A new input record with the ctrl modifier held.
    pub fn with_ctrl(id: char) -> (input: NcInput)
        ensures
            input == NcInput::with_all_args_spec(id, None, None, false, false, true, 0),
    {
        Self::with_all_args(id, None, None, false, false, true, 0)
    }

    /// What [`NcInput::with_all_args`] builds. Note the crossing: the row
    /// field takes the `x` argument and the column field takes the `y`
    /// argument.
    pub open spec fn with_all_args_spec(
        id: char,
        x: Option<NcDim>,
        y: Option<NcDim>,
        alt: bool,
        shift: bool,
        ctrl: bool,
        evtype: NcEvType,
    ) -> NcInput {
        NcInput {
            id: id as u32,
            y: (match x {
                Some(x) => x as i32,
                None => -1i32,
            }),
            x: (match y {
                Some(y) => y as i32,
                None => -1i32,
            }),
            alt,
            shift,
            ctrl,
            evtype,
        }
    }

    /// A new input record from every argument.
    pub fn with_all_args(
        id: char,
        x: Option<NcDim>,
        y: Option<NcDim>,
        alt: bool,
        shift: bool,
        ctrl: bool,
        evtype: NcEvType,
    ) -> (input: NcInput)
        ensures
            input == NcInput::with_all_args_spec(id, x, y, alt, shift, ctrl, evtype),
    {
        let ix: i32 = match x {
            Some(x) => #[verifier::truncate] (x as i32),
            None => -1,
        };
        let iy: i32 = match y {
            Some(y) => #[verifier::truncate] (y as i32),
            None => -1,
        };
        NcInput { id: id as u32, y: ix, x: iy, alt, shift, ctrl, evtype }
    }
}

/// Compares two input records for data equality.
pub fn ncinput_equal_p(n1: NcInput, n2: NcInput) -> (equal: bool)
    ensures
        equal == (n1 == n2),
{
    if n1.id != n2.id {
        return false;
    }
    if n1.y != n2.y || n1.x != n2.x {
        return false;
    }
    if n1.alt != n2.alt || n1.shift != n2.shift || n1.ctrl != n2.ctrl {
        return false;
    }
    if n1.evtype != n2.evtype {
        return false;
    }
    true
}

/// Are all the modifiers (alt, control, shift) off?
pub fn ncinput_nomod_p(input: &NcInput) -> (nomod: bool)
    ensures
        nomod == (!input.alt && !input.ctrl && !input.shift),
{
    !input.alt && !input.ctrl && !input.shift
}

/// Is the character a Supplementary Private Use Area-B codepoint?
pub fn nckey_supppuab_p(w: char) -> (r: bool)
    ensures
        r == (0x100000 <= w as u32 <= 0x10fffd),
{
    w as u32 >= 0x100000 && w as u32 <= 0x10fffd
}

/// Is the character a synthesized mouse-button event?
pub fn nckey_mouse_p(r: char) -> (mouse: bool)
    ensures
        mouse == (NCKEY_BUTTON1 <= r as u32 <= NCKEY_BUTTON11),
{
    r as u32 >= NCKEY_BUTTON1 && r as u32 <= NCKEY_BUTTON11
}

} // verus!
