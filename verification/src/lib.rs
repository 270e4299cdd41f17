//! A typed decoding layer for AArch64 machine code.
//!
//! The instruction-set decode algorithm itself is an external collaborator:
//! it is modelled as a black-box step that turns a 32-bit instruction word
//! and an address into a status code and a raw record of plain values.  This
//! crate supplies everything around that step, with proofs:
//!
//! - closed symbol catalogs for operations, registers, shift kinds, system
//!   registers and decode errors, each with a fallible code-to-symbol map;
//! - a pure classifier that turns one raw operand slot into a typed
//!   [`Operand`], or signals the end of the operand list;
//! - the [`Instruction`] facade with bounds-checked operand access;
//! - a streaming disassembler that partitions a byte buffer into
//!   instruction-sized windows with explicit truncation handling.

mod reg;
mod shift;
mod sysreg;
mod operation;
mod operand;
mod instruction;
mod decode;
mod disasm;

pub use reg::Reg;
pub use shift::{Shift, ShiftKind};
pub use sysreg::SysReg;
pub use operation::Operation;
pub use operand::{Condition, Imm, Operand, RawOperandSlot};
pub use instruction::{Instruction, OperandIter, MAX_OPERANDS};
pub use decode::{DecodeError, RawRecord, decode_record};
pub use disasm::{Disassembler, Window};
