//! The decode entry point: turning one answer of the external decoder into
//! an [`Instruction`] or a [`DecodeError`].

use vstd::prelude::*;

use crate::instruction::{Instruction, MAX_OPERANDS};
use crate::operand::RawOperandSlot;
use crate::operation::Operation;

verus! {

/// A decoding error.  All but `Short` propagate the external decoder's own
/// classification of an unencodable word; `Short` is introduced by this
/// crate for a trailing window of fewer than four bytes and corresponds to
/// no decoder status.
#[derive(Clone, Copy, Debug, PartialEq, Eq, Hash, Structural)]
pub enum DecodeError {
    Reserved,
    Unmatched,
    Unallocated,
    Undefined,
    EndOfInstruction,
    Lost,
    Unreachable,
    Short,
}

impl DecodeError {
    /// The error named by a nonzero status code of the external decoder,
    /// or `None` for a status outside the catalog.  `Short` has no status
    /// code.
    pub open spec fn spec_from_status(status: i32) -> Option<DecodeError> {
        match status {
            -1i32 => Some(DecodeError::Reserved),
            -2i32 => Some(DecodeError::Unmatched),
            -3i32 => Some(DecodeError::Unallocated),
            -4i32 => Some(DecodeError::Undefined),
            -5i32 => Some(DecodeError::EndOfInstruction),
            -6i32 => Some(DecodeError::Lost),
            -7i32 => Some(DecodeError::Unreachable),
            _ => None,
        }
    }

    /// Maps a nonzero status code of the external decoder to its error.
    pub fn from_status(status: i32) -> (r: Option<DecodeError>)
        ensures
            r == DecodeError::spec_from_status(status),
    {
        match status {
            -1i32 => Some(DecodeError::Reserved),
            -2i32 => Some(DecodeError::Unmatched),
            -3i32 => Some(DecodeError::Unallocated),
            -4i32 => Some(DecodeError::Undefined),
            -5i32 => Some(DecodeError::EndOfInstruction),
            -6i32 => Some(DecodeError::Lost),
            -7i32 => Some(DecodeError::Unreachable),
            _ => None,
        }
    }
}

/// One answer of the external decoder, as plain values: the numeric
/// operation code and the fixed operand-slot array.
pub struct RawRecord {
    /// The numeric operation code.
    pub operation: u32,
    /// The operand slots, exactly [`MAX_OPERANDS`] of them.
    pub slots: Vec<RawOperandSlot>,
}

/// Turns one answer of the external decoder into a decoded instruction or
/// an error.  Status 0 means success: the record is wrapped together with
/// the caller-supplied address, which is pure caller context and never
/// derived from decoding.  A nonzero status maps through the error
/// catalog.
///
/// The preconditions state the external decoder's side of the contract: a
/// nonzero status is always one of the cataloged codes, and a successful
/// record never carries the operation sentinel nor a code outside the
/// operation catalog.  A caller that cannot assume them must test both
/// and treat a violation as fatal, not as an ordinary error.
pub fn decode_record(status: i32, record: RawRecord, address: u64) -> (r: Result<
    Instruction,
    DecodeError,
>)
    requires
        status != 0 ==> DecodeError::spec_from_status(status) is Some,
        status == 0 ==> Operation::spec_from_code(record.operation) is Some,
        status == 0 ==> record.slots@.len() == MAX_OPERANDS,
    ensures
        r is Ok <==> status == 0,
        r matches Ok(ins) ==> ins.spec_address() == address && Some(ins.spec_operation())
            == Operation::spec_from_code(record.operation) && ins.spec_slots()
            == record.slots@,
        r matches Err(e) ==> Some(e) == DecodeError::spec_from_status(status),
{
    if status == 0 {
        let operation = match Operation::from_code(record.operation) {
            Some(op) => op,
            None => { unreached() },
        };
        Ok(Instruction::new(address, operation, record.slots))
    } else {
        let e = match DecodeError::from_status(status) {
            Some(e) => e,
            None => { unreached() },
        };
        Err(e)
    }
}

} // verus!
