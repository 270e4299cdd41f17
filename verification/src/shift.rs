//! The closed catalog of shift and extend kinds.

use vstd::prelude::*;

verus! {

/// The kind of a shift or extension applied to an operand.
#[derive(Clone, Copy, Debug, PartialEq, Eq, Hash, Structural)]
pub enum ShiftKind {
    LSL,
    LSR,
    ASR,
    ROR,
    UXTW,
    SXTW,
    SXTX,
    UXTX,
    SXTB,
    SXTH,
    UXTH,
    UXTB,
    MSL,
}

/// A shift of an operand: its kind and its amount.  The absence of a shift
/// is represented by `Option::<Shift>::None`, never by a zero amount.
#[derive(Clone, Copy, Debug, PartialEq, Eq, Hash, Structural)]
pub struct Shift {
    pub kind: ShiftKind,
    pub amount: u32,
}

impl ShiftKind {
    /// The shift kind named by a numeric code of the external decoder, or
    /// `None` for the no-shift sentinel and for codes outside the catalog.
    pub open spec fn spec_from_code(code: u32) -> Option<ShiftKind> {
        match code {
            1u32 => Some(ShiftKind::LSL),
            2u32 => Some(ShiftKind::LSR),
            3u32 => Some(ShiftKind::ASR),
            4u32 => Some(ShiftKind::ROR),
            5u32 => Some(ShiftKind::UXTW),
            6u32 => Some(ShiftKind::SXTW),
            7u32 => Some(ShiftKind::SXTX),
            8u32 => Some(ShiftKind::UXTX),
            9u32 => Some(ShiftKind::SXTB),
            10u32 => Some(ShiftKind::SXTH),
            11u32 => Some(ShiftKind::UXTH),
            12u32 => Some(ShiftKind::UXTB),
            13u32 => Some(ShiftKind::MSL),
            _ => None,
        }
    }

    /// Maps a numeric shift-kind code of the external decoder to its symbol.
    pub fn from_code(code: u32) -> (r: Option<ShiftKind>)
        ensures
            r == ShiftKind::spec_from_code(code),
    {
        match code {
            1u32 => Some(ShiftKind::LSL),
            2u32 => Some(ShiftKind::LSR),
            3u32 => Some(ShiftKind::ASR),
            4u32 => Some(ShiftKind::ROR),
            5u32 => Some(ShiftKind::UXTW),
            6u32 => Some(ShiftKind::SXTW),
            7u32 => Some(ShiftKind::SXTX),
            8u32 => Some(ShiftKind::UXTX),
            9u32 => Some(ShiftKind::SXTB),
            10u32 => Some(ShiftKind::SXTH),
            11u32 => Some(ShiftKind::UXTH),
            12u32 => Some(ShiftKind::UXTB),
            13u32 => Some(ShiftKind::MSL),
            _ => None,
        }
    }
}

} // verus!
